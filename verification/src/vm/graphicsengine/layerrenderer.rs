//! Stages of a frame. Each stage waits for one semaphore, submits the
//! command buffer it recorded for the image that is drawn to, and signals a
//! semaphore of its own when its work is done.

use crate::cache::Handle;
use crate::error::ErrorKind;
use crate::error::ErrorView;
use crate::error::FennecError;
use crate::error::illegal_state;
use crate::error::not_found;
use crate::error::out_of_range;
use crate::text::decimal;
use crate::text::decimal_digits;
use crate::text::join;
use crate::vm::graphicsengine::commandbuffer::CommandBuffer;
use crate::vm::graphicsengine::commandpool::no_command_buffers;
use crate::vm::graphicsengine::Context;
use crate::vm::graphicsengine::ContextView;
use crate::vm::graphicsengine::device::DeviceCallView;
use crate::vm::graphicsengine::device::SemaphoreWait;
use crate::vm::graphicsengine::priority::Priority;
use crate::vm::graphicsengine::queue::command_buffer_handles;
use crate::vm::graphicsengine::queue::fence_handle;
use crate::vm::graphicsengine::queue::Queue;
use crate::vm::graphicsengine::queue::semaphore_handles;
use crate::vm::graphicsengine::queue::semaphore_waits;
use crate::vm::graphicsengine::queue::still_writing;
use crate::vm::graphicsengine::queue::writing_at;
use crate::vm::graphicsengine::queuefamily::QueueFamilyCollection;
use crate::vm::graphicsengine::queuefamily::QueueFamilyView;
use crate::vm::graphicsengine::sync::Fence;
use crate::vm::graphicsengine::sync::Semaphore;
use crate::vm::graphicsengine::vkobject::VKHandleView;
use crate::vm::graphicsengine::vkobject::VKObject;
use vstd::prelude::*;

verus! {

/// The description of the error for a stage that is submitted before the
/// graphics family is set up.
pub open spec fn graphics_not_set_up() -> Seq<char> {
    "The graphics queue family is not set up"@
}

/// The description of the error for a graphics family without queues.
pub open spec fn no_graphics_queue() -> Seq<char> {
    "No graphics queues exist"@
}

/// The description of the error for an image that the stage has recorded
/// no command buffer for.
pub open spec fn no_buffer_for_image(image_index: u32, recorded: nat) -> Seq<char> {
    "No command buffer was recorded for image "@ + decimal_digits(image_index as nat) + " (of "@
        + decimal_digits(recorded) + ")"@
}

/// The batch of command buffers under `batch` in the long-term pool of a
/// graphics family, if the family is set up and the batch is alive.
pub open spec fn recorded_batch(graphics: QueueFamilyView, batch: u64) -> Option<
    Seq<CommandBuffer>,
> {
    match graphics.command_pools {
        Some(pools) => pools.long_term@.batch(batch),
        None => None,
    }
}

/// The queue that stages are submitted to: the graphics queue of highest
/// priority.
pub open spec fn stage_queue(graphics: QueueFamilyView) -> Option<Queue> {
    if graphics.queue_count > 0 {
        graphics.queue_at(0)
    } else {
        None
    }
}

/// The error that the submission of a stage is refused with, if it is: a
/// graphics family that is not set up, a graphics family without queues, a
/// batch that the long-term pool does not hold, an image that the batch
/// has no command buffer for, a command buffer whose recording is open, and
/// a context that is exclusively borrowed, in this order.
pub open spec fn stage_error(
    context: ContextView,
    graphics: QueueFamilyView,
    batch: u64,
    image_index: u32,
) -> Option<ErrorView> {
    if graphics.command_pools is None {
        Some(illegal_state(graphics_not_set_up()))
    } else if stage_queue(graphics) is None {
        Some(illegal_state(no_graphics_queue()))
    } else if recorded_batch(graphics, batch) is None {
        Some(not_found(no_command_buffers(batch)))
    } else if image_index >= recorded_batch(graphics, batch)->Some_0.len() {
        Some(
            out_of_range(
                no_buffer_for_image(image_index, recorded_batch(graphics, batch)->Some_0.len()),
            ),
        )
    } else if recorded_batch(graphics, batch)->Some_0[image_index as int]@.writing {
        Some(illegal_state(still_writing()))
    } else if !context.readable() {
        Some(context.borrow_error())
    } else {
        None
    }
}

/// The submission of a stage: the command buffer that the stage recorded
/// for the image goes to the graphics queue of highest priority, waits for
/// `wait_for` at `wait_stage` and signals `finished` and the fence.
pub open spec fn stage_submission(
    graphics: QueueFamilyView,
    batch: u64,
    image_index: u32,
    wait_for: u64,
    wait_stage: u32,
    finished: u64,
    fence: u64,
) -> DeviceCallView {
    DeviceCallView::QueueSubmit {
        queue: stage_queue(graphics)->Some_0@.handle.handle,
        command_buffers: seq![
            recorded_batch(graphics, batch)->Some_0[image_index as int]@.handle.handle,
        ],
        wait_semaphores: seq![SemaphoreWait { semaphore: wait_for, stage: wait_stage }],
        signal_semaphores: seq![finished],
        fence,
    }
}

/// Submits the command buffer that a stage recorded for the image
/// `image_index`, out of the batch under `batch` in the long-term pool of
/// the graphics family.
pub fn submit_stage(
    context: &mut Context,
    queue_family_collection: &QueueFamilyCollection,
    batch: Handle<Vec<CommandBuffer>>,
    wait_for: &Semaphore,
    wait_stage: u32,
    finished: &Semaphore,
    image_index: u32,
    signaled_fence: Option<&Fence>,
) -> (result: Result<(), FennecError>)
    ensures
        match result {
            Ok(()) => stage_error(
                old(context)@,
                queue_family_collection.graphics@,
                batch@,
                image_index,
            ) is None && final(context)@ == old(context)@.issue(
                stage_submission(
                    queue_family_collection.graphics@,
                    batch@,
                    image_index,
                    wait_for@.handle,
                    wait_stage,
                    finished@.handle,
                    fence_handle(signaled_fence),
                ),
            ),
            Err(error) => stage_error(
                old(context)@,
                queue_family_collection.graphics@,
                batch@,
                image_index,
            ) == Some(error@) && final(context)@ == old(context)@,
        },
{
    let graphics = queue_family_collection.graphics();
    let pools = match graphics.command_pools() {
        Some(pools) => pools,
        None => {
            return Err(
                FennecError::with_kind(
                    ErrorKind::IllegalState,
                    "The graphics queue family is not set up",
                ),
            );
        },
    };
    proof {
        if graphics@.queue_count > 0 {
            Priority::lemma_highest_leads_to_first(graphics@.queue_count as int);
        }
    }
    let queue = match graphics.queue_of_priority(Priority::highest()) {
        Some(queue) => queue,
        None => {
            return Err(
                FennecError::with_kind(ErrorKind::IllegalState, "No graphics queues exist"),
            );
        },
    };
    let command_buffers = pools.long_term().command_buffers(batch)?;
    if image_index as usize >= command_buffers.len() {
        let index_text = decimal(image_index as u64);
        let count_text = decimal(command_buffers.len() as u64);
        let a = join("No command buffer was recorded for image ", index_text.as_str());
        let b = join(a.as_str(), " (of ");
        let c = join(b.as_str(), count_text.as_str());
        let description = join(c.as_str(), ")");
        assert(description@ =~= no_buffer_for_image(image_index, command_buffers@.len()));
        return Err(FennecError::with_kind(ErrorKind::OutOfRange, description.as_str()));
    }
    let submitted = [&command_buffers[image_index as usize]];
    let waits = [(wait_for, wait_stage)];
    let signals = [finished];
    proof {
        let list: &[&CommandBuffer] = &submitted;
        assert(list@.len() == 1);
        assert(command_buffer_handles(Some(list)) =~= seq![
            command_buffers@[image_index as int]@.handle.handle,
        ]);
        let wait_list: &[(&Semaphore, u32)] = &waits;
        assert(semaphore_waits(Some(wait_list)) =~= seq![
            SemaphoreWait { semaphore: wait_for@.handle, stage: wait_stage },
        ]);
        let signal_list: &[&Semaphore] = &signals;
        assert(semaphore_handles(Some(signal_list)) =~= seq![
            finished@.handle,
        ]);
        if command_buffers@[image_index as int]@.writing {
            assert(writing_at(list@, 0));
        } else {
            assert forall|k: int| 0 <= k < list@.len() implies !writing_at(
                list@,
                k,
            ) by {}
        }
    }
    queue.submit(context, Some(&submitted), Some(&waits), Some(&signals), signaled_fence)
}

/// A stage of a frame, as the frame sees it.
pub trait LayerRenderer {
    /// The pipeline stages that the stage's last writes happen in.
    spec fn spec_final_stage(&self) -> u32;

    /// The layout that the stage leaves the image in.
    spec fn spec_final_layout(&self) -> i32;

    /// The accesses that the stage's last writes are made by.
    spec fn spec_final_access(&self) -> u32;

    /// The pipeline stages in which the stage waits for the stage before
    /// it.
    spec fn spec_wait_stage(&self) -> u32;

    /// The handle of the batch of command buffers that the stage recorded,
    /// one for each image of the swapchain.
    spec fn spec_batch(&self) -> u64;

    /// The semaphore that the stage signals when its work is done.
    spec fn spec_finished(&self) -> VKHandleView;

    /// The pipeline stages that the stage's last writes happen in.
    fn final_stage(&self) -> (stage: u32)
        ensures
            stage == self.spec_final_stage(),
    ;

    /// The layout that the stage leaves the image in.
    fn final_layout(&self) -> (layout: i32)
        ensures
            layout == self.spec_final_layout(),
    ;

    /// The accesses that the stage's last writes are made by.
    fn final_access(&self) -> (access: u32)
        ensures
            access == self.spec_final_access(),
    ;

    /// Submits the work of the stage for the image `image_index`. The work
    /// waits for `wait_for`, and the semaphore that is returned is signaled
    /// when it is done: whoever waits for that semaphore comes after all
    /// writes of this stage.
    fn submit_draw<'a>(
        &'a self,
        context: &mut Context,
        wait_for: &Semaphore,
        queue_family_collection: &QueueFamilyCollection,
        image_index: u32,
        signaled_fence: Option<&Fence>,
    ) -> (result: Result<&'a Semaphore, FennecError>)
        ensures
            match result {
                Ok(finished) => finished@ == self.spec_finished() && stage_error(
                    old(context)@,
                    queue_family_collection.graphics@,
                    self.spec_batch(),
                    image_index,
                ) is None && final(context)@ == old(context)@.issue(
                    stage_submission(
                        queue_family_collection.graphics@,
                        self.spec_batch(),
                        image_index,
                        wait_for@.handle,
                        self.spec_wait_stage(),
                        self.spec_finished().handle,
                        fence_handle(signaled_fence),
                    ),
                ),
                Err(error) => stage_error(
                    old(context)@,
                    queue_family_collection.graphics@,
                    self.spec_batch(),
                    image_index,
                ) == Some(error@) && final(context)@ == old(context)@,
            },
    ;
}

/// The mathematical value of a [`RenderStage`].
pub struct RenderStageView {
    pub command_buffer_handle: u64,
    pub finished_semaphore: VKHandleView,
    pub wait_stage: u32,
    pub final_stage: u32,
    pub final_layout: i32,
    pub final_access: u32,
}

/// A stage whose command buffers are recorded: one for each image of the
/// swapchain, kept as one batch in the long-term pool of the graphics
/// family.
pub struct RenderStage {
    command_buffer_handle: Handle<Vec<CommandBuffer>>,
    finished_semaphore: Semaphore,
    wait_stage: u32,
    final_stage: u32,
    final_layout: i32,
    final_access: u32,
}

impl View for RenderStage {
    type V = RenderStageView;

    closed spec fn view(&self) -> RenderStageView {
        RenderStageView {
            command_buffer_handle: self.command_buffer_handle@,
            finished_semaphore: self.finished_semaphore@,
            wait_stage: self.wait_stage,
            final_stage: self.final_stage,
            final_layout: self.final_layout,
            final_access: self.final_access,
        }
    }
}

impl RenderStage {
    /// A stage that submits the batch under `command_buffer_handle`, waits
    /// in the pipeline stages `wait_stage` and signals `finished_semaphore`.
    /// `final_state` is the pipeline stages, the layout and the accesses
    /// that the stage leaves the image with.
    pub fn new(
        command_buffer_handle: Handle<Vec<CommandBuffer>>,
        finished_semaphore: Semaphore,
        wait_stage: u32,
        final_state: (u32, i32, u32),
    ) -> (stage: Self)
        ensures
            stage@ == (RenderStageView {
                command_buffer_handle: command_buffer_handle@,
                finished_semaphore: finished_semaphore@,
                wait_stage,
                final_stage: final_state.0,
                final_layout: final_state.1,
                final_access: final_state.2,
            }),
    {
        Self {
            command_buffer_handle,
            finished_semaphore,
            wait_stage,
            final_stage: final_state.0,
            final_layout: final_state.1,
            final_access: final_state.2,
        }
    }
}

impl LayerRenderer for RenderStage {
    open spec fn spec_final_stage(&self) -> u32 {
        self@.final_stage
    }

    open spec fn spec_final_layout(&self) -> i32 {
        self@.final_layout
    }

    open spec fn spec_final_access(&self) -> u32 {
        self@.final_access
    }

    open spec fn spec_wait_stage(&self) -> u32 {
        self@.wait_stage
    }

    open spec fn spec_batch(&self) -> u64 {
        self@.command_buffer_handle
    }

    open spec fn spec_finished(&self) -> VKHandleView {
        self@.finished_semaphore
    }

    fn final_stage(&self) -> (stage: u32) {
        self.final_stage
    }

    fn final_layout(&self) -> (layout: i32) {
        self.final_layout
    }

    fn final_access(&self) -> (access: u32) {
        self.final_access
    }

    fn submit_draw<'a>(
        &'a self,
        context: &mut Context,
        wait_for: &Semaphore,
        queue_family_collection: &QueueFamilyCollection,
        image_index: u32,
        signaled_fence: Option<&Fence>,
    ) -> (result: Result<&'a Semaphore, FennecError>) {
        submit_stage(
            context,
            queue_family_collection,
            self.command_buffer_handle,
            wait_for,
            self.wait_stage,
            &self.finished_semaphore,
            image_index,
            signaled_fence,
        )?;
        Ok(&self.finished_semaphore)
    }
}

} // verus!
