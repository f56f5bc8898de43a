//! The last stage of a frame: hands the image that was drawn to over to
//! the presentation engine.

use crate::cache::Handle;
use crate::error::illegal_state;
use crate::error::ErrorKind;
use crate::error::ErrorView;
use crate::error::FennecError;
use crate::vm::graphicsengine::commandbuffer::wrong_kind;
use crate::vm::graphicsengine::commandbuffer::wrong_kind_error;
use crate::vm::graphicsengine::commandbuffer::CommandBuffer;
use crate::vm::graphicsengine::commandpool::CommandPoolView;
use crate::vm::graphicsengine::device::DeviceCallView;
use crate::vm::graphicsengine::device::ImageMemoryBarrier;
use crate::vm::graphicsengine::image::color_basic_range;
use crate::vm::graphicsengine::image::Image;
use crate::vm::graphicsengine::layerrenderer::graphics_not_set_up;
use crate::vm::graphicsengine::layerrenderer::stage_error;
use crate::vm::graphicsengine::layerrenderer::stage_submission;
use crate::vm::graphicsengine::layerrenderer::submit_stage;
use crate::vm::graphicsengine::queue::fence_handle;
use crate::vm::graphicsengine::queuefamily::QueueFamilyCollection;
use crate::vm::graphicsengine::queuefamily::QueueFamilyView;
use crate::vm::graphicsengine::swapchain::Swapchain;
use crate::vm::graphicsengine::swapchain::SwapchainImage;
use crate::vm::graphicsengine::sync::Fence;
use crate::vm::graphicsengine::sync::Semaphore;
use crate::vm::graphicsengine::vk;
use crate::vm::graphicsengine::vkobject::unnamed;
use crate::vm::graphicsengine::vkobject::HandleType;
use crate::vm::graphicsengine::vkobject::VKHandleView;
use crate::vm::graphicsengine::vkobject::VKObject;
use crate::vm::graphicsengine::Context;
use crate::vm::graphicsengine::ContextView;
use crate::vm::graphicsengine::commandbuffer::barrier_kinds;
use crate::vm::graphicsengine::queuefamily::QueueKind;
use vstd::prelude::*;

verus! {

/// The mathematical value of a [`PresentTransitioner`].
pub struct PresentTransitionerView {
    pub command_buffer_handle: u64,
    pub finished_semaphore: VKHandleView,
}

/// The stage that moves the image into the layout in which it can be
/// presented.
pub struct PresentTransitioner {
    command_buffer_handle: Handle<Vec<CommandBuffer>>,
    finished_semaphore: Semaphore,
}

impl View for PresentTransitioner {
    type V = PresentTransitionerView;

    closed spec fn view(&self) -> PresentTransitionerView {
        PresentTransitionerView {
            command_buffer_handle: self.command_buffer_handle@,
            finished_semaphore: self.finished_semaphore@,
        }
    }
}

/// The barrier that moves `image` from the state that the stages left it
/// in, into the layout in which it can be presented.
pub open spec fn present_barrier(image: u64, initial_state: (u32, i32, u32)) -> ImageMemoryBarrier {
    ImageMemoryBarrier {
        src_access_mask: initial_state.2,
        dst_access_mask: vk::ACCESS_MEMORY_READ,
        old_layout: initial_state.1,
        new_layout: vk::LAYOUT_PRESENT_SRC,
        src_queue_family_index: 0,
        dst_queue_family_index: 0,
        image,
        subresource_range: color_basic_range(),
    }
}

/// The calls that record the transition of the first `upto` images of a
/// swapchain, one command buffer for each image. The command buffers are
/// bound to the handles from `first` on.
pub open spec fn transition_calls(
    images: Seq<SwapchainImage>,
    initial_state: (u32, i32, u32),
    first: u64,
    upto: nat,
) -> Seq<DeviceCallView>
    decreases upto,
{
    if upto == 0 {
        Seq::empty()
    } else {
        let index = (upto - 1) as nat;
        transition_calls(images, initial_state, first, index).push(
            DeviceCallView::BeginCommandBuffer {
                command_buffer: (first + index) as u64,
                flags: CommandBuffer::begin_flags(false, true),
            },
        ).push(
            DeviceCallView::CmdPipelineBarrier {
                command_buffer: (first + index) as u64,
                src_stage: initial_state.0,
                dst_stage: vk::STAGE_BOTTOM_OF_PIPE,
                dependency_flags: 0,
                memory_barriers: Seq::empty(),
                buffer_memory_barriers: Seq::empty(),
                image_memory_barriers: seq![
                    present_barrier(images[index as int]@.handle.handle, initial_state),
                ],
            },
        ).push(DeviceCallView::EndCommandBuffer { command_buffer: (first + index) as u64 })
    }
}

/// Whether `after` is the long-term pool `before` with one more batch, the
/// batch under `handle`, which holds `count` idle command buffers bound to
/// the handles from `first` on.
pub open spec fn holds_new_batch(
    after: CommandPoolView,
    before: CommandPoolView,
    context: u64,
    handle: u64,
    first: u64,
    count: nat,
) -> bool {
    &&& after.handle == before.handle
    &&& after.kind == before.kind
    &&& after.command_buffers.issued == handle
    &&& !before.command_buffers.entries.contains_key(handle)
    &&& after.command_buffers.entries.dom() =~= before.command_buffers.entries.dom().insert(handle)
    &&& forall|other: u64|
        before.command_buffers.entries.contains_key(other) ==> after.command_buffers.entries[other]
            == before.command_buffers.entries[other]
    &&& after.command_buffers.entries[handle]@.len() == count
    &&& forall|i: int|
        0 <= i < count ==> (#[trigger] after.command_buffers.entries[handle]@[i])@
            == CommandBuffer::fresh(context, (first + i) as u64, before.kind)
}

/// Whether `after` is the collection of families `before` with one more
/// batch in the long-term pool of the graphics family.
pub open spec fn records_batch(
    after: QueueFamilyCollection,
    before: QueueFamilyCollection,
    context: u64,
    handle: u64,
    first: u64,
    count: nat,
) -> bool {
    &&& after.present == before.present
    &&& after.transfer == before.transfer
    &&& before.graphics@.command_pools matches Some(pools_before)
    &&& after.graphics@.command_pools matches Some(pools_after)
    &&& after.graphics@ == (QueueFamilyView {
        command_pools: after.graphics@.command_pools,
        ..before.graphics@
    })
    &&& pools_after.transient == pools_before.transient
    &&& holds_new_batch(pools_after.long_term@, pools_before.long_term@, context, handle, first, count)
}

impl PresentTransitioner {
    /// The error that the creation of the stage is refused with, if it is:
    /// a graphics family that is not set up, a long-term pool whose kind
    /// of queue takes no barriers while there are images to record for,
    /// and a context that is exclusively borrowed, in this order.
    pub open spec fn creation_error(
        context: ContextView,
        graphics: QueueFamilyView,
        images: nat,
    ) -> Option<ErrorView> {
        match graphics.command_pools {
            None => Some(illegal_state(graphics_not_set_up())),
            Some(pools) => if images > 0 && !pools.long_term@.kind.takes_transfers() {
                Some(illegal_state(wrong_kind(pools.long_term@.kind, barrier_kinds())))
            } else if !context.readable() {
                Some(context.borrow_error())
            } else {
                None
            },
        }
    }

    /// Records, for each image of the swapchain, a command buffer that
    /// moves the image from `initial_state` (the pipeline stages, the
    /// layout and the accesses that the stages before leave it with) into
    /// the layout in which it can be presented. The command buffers are
    /// kept as one batch in the long-term pool of the graphics family, and
    /// may be pending more than once.
    pub fn new(
        context: &mut Context,
        queue_family_collection: &mut QueueFamilyCollection,
        swapchain: &Swapchain,
        initial_state: (u32, i32, u32),
    ) -> (result: Result<Self, FennecError>)
        requires
            swapchain@.images.len() <= u32::MAX,
            old(context)@.can_create(swapchain@.images.len() + 1),
            old(queue_family_collection).graphics@.command_pools matches Some(pools)
                ==> pools.long_term@.has_room(),
        ensures
            match result {
                Ok(transitioner) => {
                    &&& PresentTransitioner::creation_error(
                        old(context)@,
                        old(queue_family_collection).graphics@,
                        swapchain@.images.len(),
                    ) is None
                    &&& final(context)@ == old(context)@.create(
                        swapchain@.images.len() + 1,
                    ).issue(
                        DeviceCallView::AllocateCommandBuffers {
                            pool: old(queue_family_collection).graphics@.command_pools->Some_0.long_term@.handle.handle,
                            first: old(context)@.next_handle,
                            count: swapchain@.images.len() as u32,
                        },
                    ).issue_all(
                        transition_calls(
                            swapchain@.images,
                            initial_state,
                            old(context)@.next_handle,
                            swapchain@.images.len(),
                        ),
                    ).issue(
                        DeviceCallView::CreateSemaphore {
                            semaphore: (old(context)@.next_handle + swapchain@.images.len()) as u64,
                        },
                    )
                    &&& records_batch(
                        *final(queue_family_collection),
                        *old(queue_family_collection),
                        old(context)@.id,
                        transitioner@.command_buffer_handle,
                        old(context)@.next_handle,
                        swapchain@.images.len(),
                    )
                    &&& transitioner@.finished_semaphore == (VKHandleView {
                        context: old(context)@.id,
                        handle_type: HandleType::Semaphore,
                        handle: (old(context)@.next_handle + swapchain@.images.len()) as u64,
                        protected: false,
                        name: unnamed(),
                    })
                },
                Err(error) => {
                    &&& PresentTransitioner::creation_error(
                        old(context)@,
                        old(queue_family_collection).graphics@,
                        swapchain@.images.len(),
                    ) == Some(error@)
                    &&& final(context)@ == old(context)@
                    &&& *final(queue_family_collection) == *old(queue_family_collection)
                },
            },
    {
        let images = swapchain.images();
        let count = images.len() as u32;
        let kind = match queue_family_collection.graphics().command_pools() {
            Some(pools) => pools.long_term().kind(),
            None => {
                return Err(
                    FennecError::with_kind(
                        ErrorKind::IllegalState,
                        "The graphics queue family is not set up",
                    ),
                );
            },
        };
        if count > 0 && !kind.takes_transfers() {
            let kinds = [QueueKind::Transfer, QueueKind::Graphics, QueueKind::Compute];
        assert(kinds@ =~= barrier_kinds());
        return Err(wrong_kind_error(kind, &kinds));
        }
        context.check_readable()?;
        let ghost first = context@.next_handle;
        let ghost pool = old(queue_family_collection).graphics@.command_pools->Some_0.long_term@.handle.handle;
        let handle = match queue_family_collection.graphics_mut().command_pools_mut() {
            Some(pools) => match pools.long_term_mut().create_command_buffers(context, count) {
                Ok((handle, _)) => handle,
                Err(error) => {
                    assert(false);
                    return Err(error);
                },
            },
            None => {
                assert(false);
                return Err(
                    FennecError::with_kind(
                        ErrorKind::IllegalState,
                        "The graphics queue family is not set up",
                    ),
                );
            },
        };
        let ghost allocated = context@;
        proof {
            allocated.lemma_issue_all_advances(Seq::empty());
        }
        let mut index: usize = 0;
        while index < images.len()
            invariant
                index <= images@.len(),
                images@ == swapchain@.images,
                images@.len() == count,
                first + count + 1 <= u64::MAX,
                allocated.readable(),
                allocated.id == old(context)@.id,
                allocated.next_handle == first + count,
                count > 0 ==> kind.takes_transfers(),
                old(queue_family_collection).graphics@.command_pools matches Some(pools)
                    && pools.long_term@.kind == kind,
                context@ == allocated.issue_all(
                    transition_calls(images@, initial_state, first, index as nat),
                ),
                records_batch(
                    *queue_family_collection,
                    *old(queue_family_collection),
                    old(context)@.id,
                    handle@,
                    first,
                    count as nat,
                ),
            decreases images@.len() - index,
        {
            let ghost before = *queue_family_collection;
            match queue_family_collection.graphics_mut().command_pools_mut() {
                Some(pools) => match pools.long_term_mut().command_buffers_mut(handle) {
                    Ok(buffers) => {
                        match buffers[index].begin(context, false, true) {
                            Ok(writer) => {
                                let barrier = [
                                    ImageMemoryBarrier {
                                        src_access_mask: initial_state.2,
                                        dst_access_mask: vk::access_memory_read(),
                                        old_layout: initial_state.1,
                                        new_layout: vk::layout_present_src(),
                                        src_queue_family_index: 0,
                                        dst_queue_family_index: 0,
                                        image: images[index].handle(),
                                        subresource_range: images[index].range_color_basic(),
                                    },
                                ];
                                let recorded = writer.pipeline_barrier(
                                    context,
                                    initial_state.0,
                                    vk::stage_bottom_of_pipe(),
                                    None,
                                    None,
                                    None,
                                    Some(&barrier),
                                );
                                proof {
                                    let list: &[ImageMemoryBarrier] = &barrier;
                                    assert(list@ =~= seq![
                                        present_barrier(
                                            images@[index as int]@.handle.handle,
                                            initial_state,
                                        ),
                                    ]);
                                }
                                assert(recorded is Ok);
                                writer.end(context);
                            },
                            Err(_) => {
                                assert(false);
                            },
                        }
                    },
                    Err(_) => {
                        assert(false);
                    },
                },
                None => {
                    assert(false);
                },
            }
            proof {
                let calls = transition_calls(images@, initial_state, first, (index + 1) as nat);
                assert(context@.calls =~= allocated.calls + calls);
                let after = *queue_family_collection;
                let origin = *old(queue_family_collection);
                let pools_origin = origin.graphics@.command_pools->Some_0;
                let pools_before = before.graphics@.command_pools->Some_0;
                let pools_after = after.graphics@.command_pools->Some_0;
                assert(after.present == before.present);
                assert(after.transfer == before.transfer);
                assert(after.graphics@.command_pools is Some);
                assert(after.graphics@ == (QueueFamilyView {
                    command_pools: after.graphics@.command_pools,
                    ..before.graphics@
                }));
                assert(pools_after.transient == pools_before.transient);
                let lb = pools_before.long_term@;
                let la = pools_after.long_term@;
                assert(la.handle == lb.handle);
                assert(la.kind == lb.kind);
                assert(la.command_buffers.issued == lb.command_buffers.issued);
                assert(la.command_buffers.entries.dom() =~= lb.command_buffers.entries.dom());
                assert(la.command_buffers.entries[handle@]@.len() == count);
                assert forall|i: int| 0 <= i < count implies (
                #[trigger] la.command_buffers.entries[handle@]@[i])@ == CommandBuffer::fresh(
                    old(context)@.id,
                    (first + i) as u64,
                    pools_origin.long_term@.kind,
                ) by {
                    assert(lb.command_buffers.entries[handle@]@[i]@ == CommandBuffer::fresh(
                        old(context)@.id,
                        (first + i) as u64,
                        pools_origin.long_term@.kind,
                    ));
                }
                assert forall|other: u64|
                    pools_origin.long_term@.command_buffers.entries.contains_key(
                        other,
                    ) implies la.command_buffers.entries[other]
                    == pools_origin.long_term@.command_buffers.entries[other] by {
                    assert(other != handle@);
                    assert(lb.command_buffers.entries.contains_key(other));
                }
                assert(holds_new_batch(
                    la,
                    pools_origin.long_term@,
                    old(context)@.id,
                    handle@,
                    first,
                    count as nat,
                ));
            }
            index += 1;
        }
        let finished_semaphore = match Semaphore::new(context) {
            Ok(semaphore) => semaphore,
            Err(error) => {
                assert(false);
                return Err(error);
            },
        };
        Ok(Self { command_buffer_handle: handle, finished_semaphore })
    }

    /// Submits the transition of the image `image_index`. The work waits
    /// for `wait_for` once all commands before it have run, and the
    /// semaphore that is returned is signaled when the image can be
    /// presented.
    pub fn submit<'a>(
        &'a self,
        context: &mut Context,
        wait_for: &Semaphore,
        queue_family_collection: &QueueFamilyCollection,
        image_index: u32,
        signaled_fence: Option<&Fence>,
    ) -> (result: Result<&'a Semaphore, FennecError>)
        ensures
            match result {
                Ok(finished) => finished@ == self@.finished_semaphore && stage_error(
                    old(context)@,
                    queue_family_collection.graphics@,
                    self@.command_buffer_handle,
                    image_index,
                ) is None && final(context)@ == old(context)@.issue(
                    stage_submission(
                        queue_family_collection.graphics@,
                        self@.command_buffer_handle,
                        image_index,
                        wait_for@.handle,
                        vk::STAGE_BOTTOM_OF_PIPE,
                        self@.finished_semaphore.handle,
                        fence_handle(signaled_fence),
                    ),
                ),
                Err(error) => stage_error(
                    old(context)@,
                    queue_family_collection.graphics@,
                    self@.command_buffer_handle,
                    image_index,
                ) == Some(error@) && final(context)@ == old(context)@,
            },
    {
        submit_stage(
            context,
            queue_family_collection,
            self.command_buffer_handle,
            wait_for,
            vk::stage_bottom_of_pipe(),
            &self.finished_semaphore,
            image_index,
            signaled_fence,
        )?;
        Ok(&self.finished_semaphore)
    }
}

} // verus!
