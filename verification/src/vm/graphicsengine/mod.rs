//! The graphics engine: the device context, the objects it owns and the
//! machinery that records and submits work.

pub mod buffer;
pub mod commandbuffer;
pub mod commandpool;
pub mod descriptorpool;
pub mod device;
pub mod framebuffer;
pub mod image;
pub mod imageload;
pub mod imageview;
pub mod layerrenderer;
pub mod memory;
pub mod pipeline;
pub mod presenttransitioner;
pub mod priority;
pub mod queue;
pub mod queuefamily;
pub mod renderpass;
pub mod sampler;
pub mod shadermodule;
pub mod spritelayer;
pub mod swapchain;
pub mod sync;
pub mod tileregion;
pub mod vk;
pub mod vkobject;
pub mod vktext;

use crate::error::ErrorKind;
use crate::error::ErrorView;
use crate::error::FennecError;
use crate::error::borrow_conflict_error;
use crate::error::borrow_mut_conflict_error;
use crate::vm::graphicsengine::device::DeviceCall;
use crate::vm::graphicsengine::device::DeviceCallView;
use crate::vm::graphicsengine::device::MemoryType;
use crate::error::plain_error;
use crate::vm::graphicsengine::layerrenderer::stage_error;
use crate::vm::graphicsengine::layerrenderer::stage_queue;
use crate::vm::graphicsengine::layerrenderer::stage_submission;
use crate::vm::graphicsengine::layerrenderer::LayerRenderer;
use crate::vm::graphicsengine::presenttransitioner::PresentTransitioner;
use crate::vm::graphicsengine::priority::Priority;
use crate::vm::graphicsengine::queuefamily::QueueFamilyCollection;
use crate::vm::graphicsengine::queuefamily::QueueFamilyView;
use crate::vm::graphicsengine::swapchain::Swapchain;
use crate::vm::graphicsengine::sync::Semaphore;
use crate::vm::graphicsengine::vkobject::HandleType;
use crate::vm::graphicsengine::vkobject::VKHandleView;
use crate::vm::graphicsengine::vkobject::VKObject;
use vstd::prelude::*;

verus! {

/// The mathematical value of a [`Context`].
pub struct ContextView {
    /// What tells this context from another.
    pub id: u64,
    /// The calls issued so far that nobody has taken yet, oldest first.
    pub calls: Seq<DeviceCallView>,
    /// The handle that the next object created through the context gets.
    pub next_handle: u64,
    /// The number of shared borrows that are held.
    pub readers: u64,
    /// Whether the exclusive borrow is held.
    pub writer: bool,
    /// The kinds of memory that the device offers.
    pub memory_types: Seq<MemoryType>,
}

impl ContextView {
    /// Whether a call can be issued: nobody holds the exclusive borrow.
    pub open spec fn readable(self) -> bool {
        !self.writer
    }

    /// The error that an operation returns when it finds the context
    /// exclusively borrowed.
    pub open spec fn borrow_error(self) -> ErrorView {
        borrow_conflict_error()
    }

    /// The error that an exclusive borrow is refused with where a borrow is
    /// held.
    pub open spec fn borrow_mut_error(self) -> ErrorView {
        borrow_mut_conflict_error()
    }

    /// The context after one more call was issued.
    pub open spec fn issue(self, call: DeviceCallView) -> Self {
        ContextView { calls: self.calls.push(call), ..self }
    }

    /// The context after `calls` were issued, in order.
    pub open spec fn issue_all(self, calls: Seq<DeviceCallView>) -> Self {
        ContextView { calls: self.calls + calls, ..self }
    }

    /// Whether `count` more handles can be handed out.
    pub open spec fn can_create(self, count: nat) -> bool {
        self.next_handle + count <= u64::MAX
    }

    /// The context after `count` handles were handed out.
    pub open spec fn create(self, count: nat) -> Self {
        ContextView { next_handle: (self.next_handle + count) as u64, ..self }
    }

    /// This context is `before` with `count` more calls issued and `created`
    /// more handles handed out, and nothing else changed.
    pub open spec fn advanced(self, before: Self, count: nat, created: nat) -> bool {
        &&& self.calls.len() == before.calls.len() + count
        &&& self.calls.take(before.calls.len() as int) == before.calls
        &&& self.next_handle == before.next_handle + created
        &&& self == (ContextView { calls: self.calls, next_handle: self.next_handle, ..before })
    }

    /// The call issued as number `index` since `before` (counted from zero).
    pub open spec fn issued_since(self, before: Self, index: int) -> DeviceCallView {
        self.calls[before.calls.len() + index]
    }

    /// This context is `before` with some calls issued, and nothing else
    /// changed.
    pub open spec fn extends(self, before: Self) -> bool {
        &&& self.calls.len() >= before.calls.len()
        &&& self.advanced(before, (self.calls.len() - before.calls.len()) as nat, 0)
    }

    /// A context has advanced from itself by nothing.
    pub proof fn lemma_advanced_by_nothing(self)
        ensures
            self.advanced(self, 0, 0),
            self.extends(self),
    {
        assert(self.calls.take(self.calls.len() as int) =~= self.calls);
    }

    /// A context that has advanced by nothing is the context it started
    /// from.
    pub proof fn lemma_advanced_by_nothing_is_same(self, before: Self)
        requires
            self.advanced(before, 0, 0),
        ensures
            self == before,
    {
        assert(self.calls.take(self.calls.len() as int) =~= self.calls);
    }

    /// Issuing a call advances the context by that call.
    pub proof fn lemma_issue_advances(self, call: DeviceCallView)
        ensures
            self.issue(call).advanced(self, 1, 0),
            self.issue(call).issued_since(self, 0) == call,
            self.issue(call).calls.last() == call,
            self.issue(call) == self.issue_all(seq![call]),
    {
        assert(self.issue(call).calls.take(self.calls.len() as int) =~= self.calls);
        assert(self.calls.push(call) =~= self.calls + seq![call]);
    }

    /// Issuing a list of calls advances the context by those calls.
    pub proof fn lemma_issue_all_advances(self, calls: Seq<DeviceCallView>)
        ensures
            self.issue_all(calls).advanced(self, calls.len(), 0),
            self.issue_all(calls).extends(self),
            forall|k: int|
                0 <= k < calls.len() ==> #[trigger] self.issue_all(calls).issued_since(self, k)
                    == calls[k],
            self.issue_all(Seq::empty()) == self,
    {
        assert(self.issue_all(calls).calls.take(self.calls.len() as int) =~= self.calls);
        assert(self.calls + Seq::<DeviceCallView>::empty() =~= self.calls);
    }

    /// Issuing two lists of calls one after the other is issuing their
    /// concatenation.
    pub proof fn lemma_issue_all_twice(self, first: Seq<DeviceCallView>, second: Seq<DeviceCallView>)
        ensures
            self.issue_all(first).issue_all(second) == self.issue_all(first + second),
    {
        assert((self.calls + first) + second =~= self.calls + (first + second));
    }

    /// Advancing twice is advancing once by the sum, and the calls issued on
    /// the way are found again in the whole.
    pub proof fn lemma_advanced_twice(
        self,
        middle: Self,
        before: Self,
        first_count: nat,
        first_created: nat,
        second_count: nat,
        second_created: nat,
    )
        requires
            middle.advanced(before, first_count, first_created),
            self.advanced(middle, second_count, second_created),
        ensures
            self.advanced(before, first_count + second_count, first_created + second_created),
            forall|k: int|
                0 <= k < first_count ==> #[trigger] self.issued_since(before, k)
                    == middle.issued_since(before, k),
            forall|k: int|
                0 <= k < second_count ==> #[trigger] self.issued_since(middle, k)
                    == self.issued_since(before, first_count + k),
    {
        assert(self.calls.take(before.calls.len() as int) =~= before.calls) by {
            assert(self.calls.take(middle.calls.len() as int) == middle.calls);
            assert(middle.calls.take(before.calls.len() as int) == before.calls);
            assert forall|k: int| 0 <= k < before.calls.len() implies self.calls[k]
                == before.calls[k] by {
                assert(self.calls.take(middle.calls.len() as int)[k] == self.calls[k]);
                assert(middle.calls.take(before.calls.len() as int)[k] == middle.calls[k]);
            }
        }
        assert forall|k: int| 0 <= k < first_count implies #[trigger] self.issued_since(before, k)
            == middle.issued_since(before, k) by {
            assert(self.calls.take(middle.calls.len() as int)[before.calls.len() + k]
                == self.calls[before.calls.len() + k]);
        }
    }
}

/// The values of a list of calls.
pub open spec fn call_views(calls: Seq<DeviceCall>) -> Seq<DeviceCallView> {
    calls.map_values(|call: DeviceCall| call@)
}

/// The device that every object of the engine is created under: the calls
/// issued to it, the handles it has handed out, and who borrows it.
///
/// Borrows are checked while the program runs. Any number of shared borrows
/// can be held at a time, or one exclusive borrow, never both. Every
/// operation that issues a call needs the context free of an exclusive
/// borrow.
pub struct Context {
    id: u64,
    calls: Vec<DeviceCall>,
    next_handle: u64,
    readers: u64,
    writer: bool,
    memory_types: Vec<MemoryType>,
}

impl View for Context {
    type V = ContextView;

    closed spec fn view(&self) -> ContextView {
        ContextView {
            id: self.id,
            calls: call_views(self.calls@),
            next_handle: self.next_handle,
            readers: self.readers,
            writer: self.writer,
            memory_types: self.memory_types@,
        }
    }
}

impl Context {
    /// A context with no call issued, no borrow held and the first handle,
    /// one, still to be handed out. Zero stands for no object.
    pub fn new(id: u64, memory_types: Vec<MemoryType>) -> (context: Self)
        ensures
            context@ == (ContextView {
                id,
                calls: Seq::empty(),
                next_handle: 1,
                readers: 0,
                writer: false,
                memory_types: memory_types@,
            }),
    {
        let context = Self {
            id,
            calls: Vec::new(),
            next_handle: 1,
            readers: 0,
            writer: false,
            memory_types,
        };
        assert(call_views(context.calls@) =~= Seq::empty());
        context
    }

    /// What tells this context from another.
    pub fn id(&self) -> (id: u64)
        ensures
            id == self@.id,
    {
        self.id
    }

    /// The kinds of memory that the device offers.
    pub fn memory_types(&self) -> (memory_types: &Vec<MemoryType>)
        ensures
            memory_types@ == self@.memory_types,
    {
        &self.memory_types
    }

    /// The calls issued so far that nobody has taken yet, oldest first.
    pub fn calls(&self) -> (calls: &Vec<DeviceCall>)
        ensures
            call_views(calls@) == self@.calls,
    {
        &self.calls
    }

    /// Hands over the calls issued so far, oldest first, and forgets them.
    pub fn take_calls(&mut self) -> (calls: Vec<DeviceCall>)
        ensures
            call_views(calls@) == old(self)@.calls,
            final(self)@ == (ContextView { calls: Seq::empty(), ..old(self)@ }),
    {
        let mut calls = Vec::new();
        std::mem::swap(&mut self.calls, &mut calls);
        assert(call_views(self.calls@) =~= Seq::empty());
        calls
    }

    /// How many more handles can be handed out.
    pub fn remaining_handles(&self) -> (count: u64)
        ensures
            count == u64::MAX - self@.next_handle,
            forall|n: nat| self@.can_create(n) <==> n <= count,
    {
        u64::MAX - self.next_handle
    }

    /// Takes a shared borrow. Fails, and changes nothing, where the
    /// exclusive borrow is held.
    pub fn try_borrow(&mut self) -> (result: Result<(), FennecError>)
        requires
            old(self)@.readers < u64::MAX,
        ensures
            match result {
                Ok(()) => old(self)@.readable() && final(self)@ == (ContextView {
                    readers: (old(self)@.readers + 1) as u64,
                    ..old(self)@
                }),
                Err(error) => !old(self)@.readable() && error@ == old(self)@.borrow_error()
                    && final(self)@ == old(self)@,
            },
    {
        if self.writer {
            return Err(FennecError::borrow_conflict());
        }
        self.readers += 1;
        Ok(())
    }

    /// Gives a shared borrow back, if one is held.
    pub fn release_borrow(&mut self)
        ensures
            final(self)@ == (ContextView {
                readers: if old(self)@.readers > 0 {
                    (old(self)@.readers - 1) as u64
                } else {
                    0
                },
                ..old(self)@
            }),
    {
        if self.readers > 0 {
            self.readers -= 1;
        }
    }

    /// Takes the exclusive borrow. Fails, and changes nothing, where any
    /// borrow is held.
    pub fn try_borrow_mut(&mut self) -> (result: Result<(), FennecError>)
        ensures
            match result {
                Ok(()) => !old(self)@.writer && old(self)@.readers == 0 && final(self)@ == (
                ContextView { writer: true, ..old(self)@ }),
                Err(error) => (old(self)@.writer || old(self)@.readers > 0) && error@ == old(self)@.borrow_mut_error() && final(self)@ == old(self)@,
            },
    {
        if self.writer || self.readers > 0 {
            return Err(FennecError::borrow_mut_conflict());
        }
        self.writer = true;
        Ok(())
    }

    /// Gives the exclusive borrow back, if it is held.
    pub fn release_borrow_mut(&mut self)
        ensures
            final(self)@ == (ContextView { writer: false, ..old(self)@ }),
    {
        self.writer = false;
    }

    /// Succeeds where a call can be issued, and fails with the borrow error
    /// where the exclusive borrow is held.
    pub fn check_readable(&self) -> (result: Result<(), FennecError>)
        ensures
            match result {
                Ok(()) => self@.readable(),
                Err(error) => !self@.readable() && error@ == self@.borrow_error(),
            },
    {
        if self.writer {
            Err(FennecError::borrow_conflict())
        } else {
            Ok(())
        }
    }

    /// Adds a call to those issued.
    pub(crate) fn issue(&mut self, call: DeviceCall)
        ensures
            final(self)@ == old(self)@.issue(call@),
    {
        let ghost value = call@;
        self.calls.push(call);
        assert(call_views(self.calls@) =~= call_views(old(self).calls@).push(value));
    }

    /// Hands out the next handle.
    pub(crate) fn create_handle(&mut self) -> (handle: u64)
        requires
            old(self)@.can_create(1),
        ensures
            handle == old(self)@.next_handle,
            final(self)@ == old(self)@.create(1),
    {
        let handle = self.next_handle;
        self.next_handle += 1;
        handle
    }

    /// Hands out `count` handles in a row and returns the first of them.
    pub(crate) fn create_handles(&mut self, count: u32) -> (first: u64)
        requires
            old(self)@.can_create(count as nat),
        ensures
            first == old(self)@.next_handle,
            final(self)@ == old(self)@.create(count as nat),
    {
        let first = self.next_handle;
        self.next_handle += count as u64;
        first
    }
}

/// How far a frame has come: the context with the submissions made so far,
/// the semaphore that the next stage waits for, and the error that stopped
/// the frame, if one did.
pub struct FrameProgress {
    pub context: ContextView,
    pub wait_for: u64,
    pub error: Option<ErrorView>,
}

/// The progress of a frame after one more stage, which records under the
/// batch `batch`, waits in `wait_stage` and signals `finished`.
pub open spec fn after_stage(
    progress: FrameProgress,
    graphics: QueueFamilyView,
    image_index: u32,
    batch: u64,
    wait_stage: u32,
    finished: u64,
) -> FrameProgress {
    if progress.error is Some {
        progress
    } else {
        match stage_error(progress.context, graphics, batch, image_index) {
            Some(error) => FrameProgress { error: Some(error), ..progress },
            None => FrameProgress {
                context: progress.context.issue(
                    stage_submission(
                        graphics,
                        batch,
                        image_index,
                        progress.wait_for,
                        wait_stage,
                        finished,
                        0,
                    ),
                ),
                wait_for: finished,
                error: None,
            },
        }
    }
}

/// The progress of a frame after the first `upto` of its stages, where the
/// first stage waits for `image_available`. Each stage waits for the
/// semaphore that the stage before it signals.
pub open spec fn after_stages<R: LayerRenderer>(
    context: ContextView,
    graphics: QueueFamilyView,
    stages: Seq<R>,
    image_available: u64,
    image_index: u32,
    upto: nat,
) -> FrameProgress
    decreases upto,
{
    if upto == 0 {
        FrameProgress { context, wait_for: image_available, error: None }
    } else {
        let stage = stages[upto - 1];
        after_stage(
            after_stages(context, graphics, stages, image_available, image_index, (upto - 1) as nat),
            graphics,
            image_index,
            stage.spec_batch(),
            stage.spec_wait_stage(),
            stage.spec_finished().handle,
        )
    }
}

/// The description of the error for a present family without queues.
pub open spec fn no_present_queue() -> Seq<char> {
    "No present queues exist"@
}

/// The description of the name of the semaphore that tells when the image
/// of a frame can be drawn to.
pub open spec fn image_available_name() -> Seq<char> {
    "GraphicsEngine::image_available_semaphore"@
}

/// The engine that draws frames: it owns the context, the queue families,
/// the swapchain and the stages of a frame.
pub struct GraphicsEngine<R: LayerRenderer> {
    pub context: Context,
    pub queue_family_collection: QueueFamilyCollection,
    pub swapchain: Swapchain,
    pub image_available_semaphore: Semaphore,
    pub stages: Vec<R>,
    pub present_transitioner: PresentTransitioner,
}

impl<R: LayerRenderer> GraphicsEngine<R> {
    /// Puts the engine together out of its parts, and creates and names the
    /// semaphore that tells when the image of a frame can be drawn to.
    pub fn new(
        context: Context,
        queue_family_collection: QueueFamilyCollection,
        swapchain: Swapchain,
        stages: Vec<R>,
        present_transitioner: PresentTransitioner,
    ) -> (result: Result<Self, FennecError>)
        requires
            context@.can_create(1),
        ensures
            match result {
                Ok(engine) => {
                    &&& context@.readable()
                    &&& engine.context@ == context@.create(1).issue(
                        DeviceCallView::CreateSemaphore { semaphore: context@.next_handle },
                    ).issue(
                        DeviceCallView::SetObjectName {
                            handle_type: HandleType::Semaphore,
                            handle: context@.next_handle,
                            name: image_available_name(),
                        },
                    )
                    &&& engine.image_available_semaphore@ == (VKHandleView {
                        context: context@.id,
                        handle_type: HandleType::Semaphore,
                        handle: context@.next_handle,
                        protected: false,
                        name: image_available_name(),
                    })
                    &&& engine.queue_family_collection == queue_family_collection
                    &&& engine.swapchain == swapchain
                    &&& engine.stages == stages
                    &&& engine.present_transitioner == present_transitioner
                },
                Err(error) => !context@.readable() && error@ == context@.borrow_error(),
            },
    {
        let mut context = context;
        let semaphore = Semaphore::new(&mut context)?;
        proof {
            reveal_strlit("GraphicsEngine::image_available_semaphore");
        }
        let image_available_semaphore = match semaphore.with_name(
            &mut context,
            "GraphicsEngine::image_available_semaphore",
        ) {
            Ok(semaphore) => semaphore,
            Err(error) => {
                assert(false);
                return Err(error);
            },
        };
        Ok(
            Self {
                context,
                queue_family_collection,
                swapchain,
                image_available_semaphore,
                stages,
                present_transitioner,
            },
        )
    }

    /// Whether nothing but the context of the engine differs from
    /// `before`.
    pub open spec fn keeps_parts_of(&self, before: &Self) -> bool {
        &&& self.queue_family_collection == before.queue_family_collection
        &&& self.swapchain == before.swapchain
        &&& self.image_available_semaphore == before.image_available_semaphore
        &&& self.stages == before.stages
        &&& self.present_transitioner == before.present_transitioner
    }

    /// Asks the swapchain for the image of the next frame. The semaphore of
    /// the engine is signaled when the image can be drawn to; the number of
    /// the image is what the device answers, and what [`GraphicsEngine::draw`] takes.
    pub fn acquire_next_image(&mut self) -> (result: Result<(), FennecError>)
        ensures
            final(self).keeps_parts_of(old(self)),
            match result {
                Ok(()) => old(self).context@.readable() && final(self).context@ == old(self).context@.issue(
                    DeviceCallView::AcquireNextImage {
                        swapchain: old(self).swapchain@.handle.handle,
                        timeout: u64::MAX,
                        semaphore: old(self).image_available_semaphore@.handle,
                        fence: 0,
                    },
                ),
                Err(error) => !old(self).context@.readable() && error@ == old(self).context@.borrow_error() && final(self).context@ == old(self).context@,
            },
    {
        self.swapchain.acquire_next_image(
            &mut self.context,
            None,
            Some(&self.image_available_semaphore),
            None,
        )
    }

    /// The progress of a frame for the image `image_index` after all
    /// stages and the transition to the layout for presentation.
    pub open spec fn frame_submissions(&self, image_index: u32) -> FrameProgress {
        after_stage(
            after_stages(
                self.context@,
                self.queue_family_collection.graphics@,
                self.stages@,
                self.image_available_semaphore@.handle,
                image_index,
                self.stages@.len(),
            ),
            self.queue_family_collection.graphics@,
            image_index,
            self.present_transitioner@.command_buffer_handle,
            vk::STAGE_BOTTOM_OF_PIPE,
            self.present_transitioner@.finished_semaphore.handle,
        )
    }

    /// The progress of a whole frame for the image `image_index`: the
    /// submissions of all stages, the transition, and the presentation of
    /// the image on the present queue of highest priority, which waits for
    /// the transition alone.
    pub open spec fn frame(&self, image_index: u32) -> FrameProgress {
        let submitted = self.frame_submissions(image_index);
        if submitted.error is Some {
            submitted
        } else if stage_queue(self.queue_family_collection.present@) is None {
            FrameProgress {
                error: Some(plain_error(ErrorKind::General, no_present_queue())),
                ..submitted
            }
        } else {
            FrameProgress {
                context: submitted.context.issue(
                    DeviceCallView::QueuePresent {
                        queue: stage_queue(
                            self.queue_family_collection.present@,
                        )->Some_0@.handle.handle,
                        swapchain: self.swapchain@.handle.handle,
                        image_index,
                        wait_semaphore: submitted.wait_for,
                    },
                ),
                ..submitted
            }
        }
    }

    /// Draws a frame to the image `image_index` of the swapchain: submits
    /// the stages in order, the first waiting for the image to be
    /// available and each other for the stage before it, then the
    /// transition, and presents the image once the transition is done.
    /// Where a step is refused the frame stops there; what was submitted
    /// before stays submitted.
    pub fn draw(&mut self, image_index: u32) -> (result: Result<(), FennecError>)
        ensures
            final(self).keeps_parts_of(old(self)),
            final(self).context@ == old(self).frame(image_index).context,
            match result {
                Ok(()) => old(self).frame(image_index).error is None,
                Err(error) => old(self).frame(image_index).error == Some(error@),
            },
    {
        let mut wait_for: &Semaphore = &self.image_available_semaphore;
        let mut index: usize = 0;
        while index < self.stages.len()
            invariant
                index <= self.stages@.len(),
                self.keeps_parts_of(old(self)),
                after_stages(
                    old(self).context@,
                    old(self).queue_family_collection.graphics@,
                    old(self).stages@,
                    old(self).image_available_semaphore@.handle,
                    image_index,
                    index as nat,
                ) == (FrameProgress {
                    context: self.context@,
                    wait_for: wait_for@.handle,
                    error: None,
                }),
            decreases self.stages@.len() - index,
        {
            let ghost before = after_stages(
                old(self).context@,
                old(self).queue_family_collection.graphics@,
                old(self).stages@,
                old(self).image_available_semaphore@.handle,
                image_index,
                index as nat,
            );
            let submitted = self.stages[index].submit_draw(
                &mut self.context,
                wait_for,
                &self.queue_family_collection,
                image_index,
                None,
            );
            match submitted {
                Ok(finished) => {
                    wait_for = finished;
                },
                Err(error) => {
                    proof {
                        lemma_error_stops_frame(
                            old(self).context@,
                            old(self).queue_family_collection.graphics@,
                            old(self).stages@,
                            old(self).image_available_semaphore@.handle,
                            image_index,
                            (index + 1) as nat,
                            old(self).stages@.len(),
                        );
                    }
                    return Err(error);
                },
            }
            index += 1;
        }
        match self.present_transitioner.submit(
            &mut self.context,
            wait_for,
            &self.queue_family_collection,
            image_index,
            None,
        ) {
            Ok(finished) => {
                wait_for = finished;
            },
            Err(error) => {
                return Err(error);
            },
        }
        proof {
            if self.queue_family_collection.present@.queue_count > 0 {
                Priority::lemma_highest_leads_to_first(
                    self.queue_family_collection.present@.queue_count as int,
                );
            }
        }
        let present_queue = match self.queue_family_collection.present().queue_of_priority(
            Priority::highest(),
        ) {
            Some(queue) => queue,
            None => {
                return Err(FennecError::with_kind(ErrorKind::General, "No present queues exist"));
            },
        };
        self.swapchain.present(&mut self.context, image_index, present_queue, wait_for)
    }

    /// Waits until the device has finished all work, as is done before the
    /// engine is taken down.
    pub fn stop(&mut self) -> (result: Result<(), FennecError>)
        ensures
            final(self).keeps_parts_of(old(self)),
            match result {
                Ok(()) => old(self).context@.readable() && final(self).context@ == old(self).context@.issue(DeviceCallView::DeviceWaitIdle),
                Err(error) => !old(self).context@.readable() && error@ == old(self).context@.borrow_error() && final(self).context@ == old(self).context@,
            },
    {
        self.context.check_readable()?;
        self.context.issue(DeviceCall::DeviceWaitIdle);
        Ok(())
    }
}

/// Once a stage has refused, the frame makes no more progress: the stages
/// after it change nothing.
pub proof fn lemma_error_stops_frame<R: LayerRenderer>(
    context: ContextView,
    graphics: QueueFamilyView,
    stages: Seq<R>,
    image_available: u64,
    image_index: u32,
    failed: nat,
    upto: nat,
)
    requires
        failed <= upto,
        after_stages(context, graphics, stages, image_available, image_index, failed).error is Some,
    ensures
        after_stages(context, graphics, stages, image_available, image_index, upto) == after_stages(
            context,
            graphics,
            stages,
            image_available,
            image_index,
            failed,
        ),
    decreases upto,
{
    if failed < upto {
        lemma_error_stops_frame(
            context,
            graphics,
            stages,
            image_available,
            image_index,
            failed,
            (upto - 1) as nat,
        );
    }
}

/// The semaphore that stage number `stage` of a frame waits for: the
/// semaphore of the stage before it, and `image_available` for the first.
pub open spec fn waited_for<R: LayerRenderer>(stages: Seq<R>, image_available: u64, stage: int) -> u64 {
    if stage == 0 {
        image_available
    } else {
        stages[stage - 1].spec_finished().handle
    }
}

/// The stages of a frame form a chain. Where no stage refuses, the first
/// `upto` stages issue one submission each, in their order and after
/// everything that was issued before; the first stage waits for the image
/// to be available, each other stage waits for the semaphore that the stage
/// before it signals and for nothing else, and each stage signals its own
/// semaphore and nothing else.
pub proof fn lemma_stages_form_a_chain<R: LayerRenderer>(
    context: ContextView,
    graphics: QueueFamilyView,
    stages: Seq<R>,
    image_available: u64,
    image_index: u32,
    upto: nat,
)
    requires
        upto <= stages.len(),
        after_stages(context, graphics, stages, image_available, image_index, upto).error is None,
    ensures
        ({
            let done = after_stages(context, graphics, stages, image_available, image_index, upto);
            &&& done.context.advanced(context, upto, 0)
            &&& done.wait_for == waited_for(stages, image_available, upto as int)
            &&& forall|k: int|
                0 <= k < upto ==> #[trigger] done.context.issued_since(context, k)
                    == stage_submission(
                    graphics,
                    stages[k].spec_batch(),
                    image_index,
                    waited_for(stages, image_available, k),
                    stages[k].spec_wait_stage(),
                    stages[k].spec_finished().handle,
                    0,
                )
        }),
    decreases upto,
{
    if upto == 0 {
        context.lemma_advanced_by_nothing();
    } else {
        let before = after_stages(
            context,
            graphics,
            stages,
            image_available,
            image_index,
            (upto - 1) as nat,
        );
        let done = after_stages(context, graphics, stages, image_available, image_index, upto);
        lemma_stages_form_a_chain(
            context,
            graphics,
            stages,
            image_available,
            image_index,
            (upto - 1) as nat,
        );
        let stage = stages[upto - 1];
        let call = stage_submission(
            graphics,
            stage.spec_batch(),
            image_index,
            before.wait_for,
            stage.spec_wait_stage(),
            stage.spec_finished().handle,
            0,
        );
        before.context.lemma_issue_advances(call);
        done.context.lemma_advanced_twice(before.context, context, (upto - 1) as nat, 0, 1, 0);
        assert forall|k: int| 0 <= k < upto implies #[trigger] done.context.issued_since(context, k)
            == stage_submission(
            graphics,
            stages[k].spec_batch(),
            image_index,
            waited_for(stages, image_available, k),
            stages[k].spec_wait_stage(),
            stages[k].spec_finished().handle,
            0,
        ) by {
            if k < upto - 1 {
                assert(done.context.issued_since(context, k) == before.context.issued_since(
                    context,
                    k,
                ));
            } else {
                assert(done.context.issued_since(before.context, 0) == done.context.issued_since(
                    context,
                    (upto - 1) + 0,
                ));
            }
        }
    }
}

impl<R: LayerRenderer> GraphicsEngine<R> {
    /// A frame that is not refused issues the submissions of its stages in
    /// their order, then the transition, then the presentation. Each stage
    /// waits for the stage before it, the transition waits for the last
    /// stage, and the presentation waits for the semaphore of the
    /// transition and for no other.
    pub proof fn lemma_frame_is_a_chain(&self, image_index: u32)
        requires
            self.frame(image_index).error is None,
        ensures
            ({
                let stages = self.stages@.len();
                let frame = self.frame(image_index).context;
                &&& frame.advanced(self.context@, stages + 2, 0)
                &&& forall|k: int|
                    0 <= k < stages ==> #[trigger] frame.issued_since(self.context@, k)
                        == stage_submission(
                        self.queue_family_collection.graphics@,
                        self.stages@[k].spec_batch(),
                        image_index,
                        waited_for(self.stages@, self.image_available_semaphore@.handle, k),
                        self.stages@[k].spec_wait_stage(),
                        self.stages@[k].spec_finished().handle,
                        0,
                    )
                &&& frame.issued_since(self.context@, stages as int) == stage_submission(
                    self.queue_family_collection.graphics@,
                    self.present_transitioner@.command_buffer_handle,
                    image_index,
                    waited_for(
                        self.stages@,
                        self.image_available_semaphore@.handle,
                        stages as int,
                    ),
                    vk::STAGE_BOTTOM_OF_PIPE,
                    self.present_transitioner@.finished_semaphore.handle,
                    0,
                )
                &&& frame.issued_since(self.context@, stages as int + 1) == (
                DeviceCallView::QueuePresent {
                    queue: stage_queue(
                        self.queue_family_collection.present@,
                    )->Some_0@.handle.handle,
                    swapchain: self.swapchain@.handle.handle,
                    image_index,
                    wait_semaphore: self.present_transitioner@.finished_semaphore.handle,
                })
            }),
    {
        let count = self.stages@.len();
        let staged = after_stages(
            self.context@,
            self.queue_family_collection.graphics@,
            self.stages@,
            self.image_available_semaphore@.handle,
            image_index,
            count,
        );
        let submitted = self.frame_submissions(image_index);
        let frame = self.frame(image_index).context;
        lemma_stages_form_a_chain(
            self.context@,
            self.queue_family_collection.graphics@,
            self.stages@,
            self.image_available_semaphore@.handle,
            image_index,
            count,
        );
        let transition = stage_submission(
            self.queue_family_collection.graphics@,
            self.present_transitioner@.command_buffer_handle,
            image_index,
            staged.wait_for,
            vk::STAGE_BOTTOM_OF_PIPE,
            self.present_transitioner@.finished_semaphore.handle,
            0,
        );
        staged.context.lemma_issue_advances(transition);
        submitted.context.lemma_advanced_twice(staged.context, self.context@, count, 0, 1, 0);
        let presentation = DeviceCallView::QueuePresent {
            queue: stage_queue(self.queue_family_collection.present@)->Some_0@.handle.handle,
            swapchain: self.swapchain@.handle.handle,
            image_index,
            wait_semaphore: submitted.wait_for,
        };
        submitted.context.lemma_issue_advances(presentation);
        frame.lemma_advanced_twice(submitted.context, self.context@, count + 1, 0, 1, 0);
        assert forall|k: int| 0 <= k < count implies #[trigger] frame.issued_since(self.context@, k)
            == stage_submission(
            self.queue_family_collection.graphics@,
            self.stages@[k].spec_batch(),
            image_index,
            waited_for(self.stages@, self.image_available_semaphore@.handle, k),
            self.stages@[k].spec_wait_stage(),
            self.stages@[k].spec_finished().handle,
            0,
        ) by {
            assert(frame.issued_since(self.context@, k) == submitted.context.issued_since(
                self.context@,
                k,
            ));
            assert(submitted.context.issued_since(self.context@, k) == staged.context.issued_since(
                self.context@,
                k,
            ));
        }
        assert(frame.issued_since(self.context@, count as int) == submitted.context.issued_since(
            self.context@,
            count as int,
        ));
        assert(submitted.context.issued_since(staged.context, 0)
            == submitted.context.issued_since(self.context@, count as int + 0));
        assert(frame.issued_since(submitted.context, 0) == frame.issued_since(
            self.context@,
            (count as int + 1) + 0,
        ));
    }
}

} // verus!
