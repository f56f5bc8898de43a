//! Filling an image with texels from the host, by way of a staging buffer
//! and a one-time copy on the graphics queue.

use crate::error::ErrorKind;
use crate::error::ErrorView;
use crate::error::FennecError;
use crate::error::illegal_state;
use crate::error::out_of_range;
use crate::error::plain_error;
use crate::text::join;
use crate::vm::graphicsengine::buffer::Buffer;
use crate::vm::graphicsengine::buffer::bytes_do_not_fit;
use crate::vm::graphicsengine::buffer::host_filled;
use crate::vm::graphicsengine::commandbuffer::CommandBuffer;
use crate::vm::graphicsengine::commandbuffer::regions_error;
use crate::vm::graphicsengine::commandbuffer::wrong_kind;
use crate::vm::graphicsengine::commandbuffer::wrong_kind_error;
use crate::vm::graphicsengine::commandpool::batch_handles;
use crate::vm::graphicsengine::commandpool::CommandPoolView;
use crate::vm::graphicsengine::Context;
use crate::vm::graphicsengine::ContextView;
use crate::vm::graphicsengine::device::BufferImageCopy;
use crate::vm::graphicsengine::device::DeviceCallView;
use crate::vm::graphicsengine::device::ImageMemoryBarrier;
use crate::vm::graphicsengine::device::ImageSubresourceLayers;
use crate::vm::graphicsengine::device::MemoryRequirements;
use crate::vm::graphicsengine::device::Offset3D;
use crate::vm::graphicsengine::image::color_basic_range;
use crate::vm::graphicsengine::image::Image;
use crate::vm::graphicsengine::image::memory_name;
use crate::vm::graphicsengine::image::region_error;
use crate::vm::graphicsengine::layerrenderer::graphics_not_set_up;
use crate::vm::graphicsengine::layerrenderer::no_graphics_queue;
use crate::vm::graphicsengine::layerrenderer::stage_queue;
use crate::vm::graphicsengine::memory::find_memory_type;
use crate::vm::graphicsengine::memory::memory_type_unavailable;
use crate::vm::graphicsengine::priority::Priority;
use crate::vm::graphicsengine::queue::command_buffer_handles;
use crate::vm::graphicsengine::queue::writing_at;
use crate::vm::graphicsengine::queuefamily::QueueFamilyCollection;
use crate::vm::graphicsengine::queuefamily::QueueFamilyView;
use crate::vm::graphicsengine::vk;
use crate::vm::graphicsengine::vkobject::HandleType;
use crate::vm::graphicsengine::vkobject::VKObject;
use crate::vm::graphicsengine::vkobject::check_name;
use crate::vm::graphicsengine::vkobject::naming_error;
use crate::vm::graphicsengine::commandbuffer::barrier_kinds;
use crate::vm::graphicsengine::commandbuffer::lemma_kinds_taken;
use crate::vm::graphicsengine::queuefamily::QueueKind;
use crate::vm::graphicsengine::commandbuffer::kind_among;
use vstd::prelude::*;

verus! {

/// The name of the staging buffer for an image called `image`.
pub open spec fn staging_name(image: Seq<char>) -> Seq<char> {
    "Image::load_compressed_image::staging_buffer("@ + image + ")"@
}

/// The barrier that moves the color of `image` from one layout and kind of
/// access to another.
pub open spec fn layout_barrier(
    image: u64,
    old_layout: i32,
    new_layout: i32,
    src_access: u32,
    dst_access: u32,
) -> ImageMemoryBarrier {
    ImageMemoryBarrier {
        src_access_mask: src_access,
        dst_access_mask: dst_access,
        old_layout,
        new_layout,
        src_queue_family_index: 0,
        dst_queue_family_index: 0,
        image,
        subresource_range: color_basic_range(),
    }
}

/// The error that refuses a load before anything is issued, if there is
/// one: a graphics family that is not set up, a graphics family without
/// queues, a transient pool whose kind of queue takes no copies, a context
/// that is exclusively borrowed, an image called `image` after which the
/// staging buffer cannot be named, and texels that do not fit the memory
/// behind the staging buffer, in this order.
pub open spec fn load_refusal(
    context: ContextView,
    graphics: QueueFamilyView,
    texels: nat,
    memory_reqs: MemoryRequirements,
    image: Seq<char>,
) -> Option<ErrorView> {
    match graphics.command_pools {
        None => Some(illegal_state(graphics_not_set_up())),
        Some(pools) => if stage_queue(graphics) is None {
            Some(illegal_state(no_graphics_queue()))
        } else if !pools.transient@.kind.takes_transfers() {
            Some(illegal_state(wrong_kind(pools.transient@.kind, barrier_kinds())))
        } else if naming_error(context, staging_name(image)) is Some {
            naming_error(context, staging_name(image))
        } else if texels > memory_reqs.size {
            Some(out_of_range(bytes_do_not_fit(texels, memory_reqs.size)))
        } else {
            None
        },
    }
}

/// The calls of a load that come after the staging buffer is filled: the
/// buffer is named, one command buffer is allocated from `pool`, the copy
/// is recorded between two barriers and submitted to `queue`, the queue is
/// waited for, and the command buffer and the staging buffer are given up.
/// The staging buffer is bound to `first`, its memory to `first + 1` and the
/// command buffer to `first + 2`.
pub open spec fn copy_calls<I: Image>(
    image: &I,
    context: u64,
    pool: u64,
    queue: u64,
    first: u64,
    consuming_stage: u32,
    new_layout: i32,
    new_access: u32,
) -> Seq<DeviceCallView> {
    let buffer = first;
    let memory = (first + 1) as u64;
    let commands = (first + 2) as u64;
    seq![
        DeviceCallView::SetObjectName {
            handle_type: HandleType::Buffer,
            handle: buffer,
            name: staging_name(image.wrapped().name),
        },
        DeviceCallView::SetObjectName {
            handle_type: HandleType::DeviceMemory,
            handle: memory,
            name: memory_name(staging_name(image.wrapped().name)),
        },
        DeviceCallView::AllocateCommandBuffers { pool, first: commands, count: 1 },
        DeviceCallView::BeginCommandBuffer {
            command_buffer: commands,
            flags: CommandBuffer::begin_flags(true, false),
        },
        DeviceCallView::CmdPipelineBarrier {
            command_buffer: commands,
            src_stage: vk::STAGE_TOP_OF_PIPE,
            dst_stage: vk::STAGE_TRANSFER,
            dependency_flags: 0,
            memory_barriers: Seq::empty(),
            buffer_memory_barriers: Seq::empty(),
            image_memory_barriers: seq![
                layout_barrier(
                    image.wrapped().handle,
                    vk::LAYOUT_UNDEFINED,
                    vk::LAYOUT_TRANSFER_DST,
                    0,
                    vk::ACCESS_TRANSFER_WRITE,
                ),
            ],
        },
        DeviceCallView::CmdCopyBufferToImage {
            command_buffer: commands,
            source: buffer,
            destination: image.wrapped().handle,
            destination_layout: vk::LAYOUT_TRANSFER_DST,
            regions: seq![whole_image_copy(image)],
        },
        DeviceCallView::CmdPipelineBarrier {
            command_buffer: commands,
            src_stage: vk::STAGE_TRANSFER,
            dst_stage: consuming_stage,
            dependency_flags: 0,
            memory_barriers: Seq::empty(),
            buffer_memory_barriers: Seq::empty(),
            image_memory_barriers: seq![
                layout_barrier(
                    image.wrapped().handle,
                    vk::LAYOUT_TRANSFER_DST,
                    new_layout,
                    vk::ACCESS_TRANSFER_WRITE,
                    new_access,
                ),
            ],
        },
        DeviceCallView::EndCommandBuffer { command_buffer: commands },
        DeviceCallView::QueueSubmit {
            queue,
            command_buffers: seq![commands],
            wait_semaphores: Seq::empty(),
            signal_semaphores: Seq::empty(),
            fence: 0,
        },
        DeviceCallView::QueueWaitIdle { queue },
        DeviceCallView::FreeCommandBuffers { pool, command_buffers: seq![commands] },
        DeviceCallView::Destroy { handle_type: HandleType::Buffer, handle: buffer },
        DeviceCallView::Destroy { handle_type: HandleType::DeviceMemory, handle: memory },
    ]
}

/// The copy from the start of a buffer to all of the color of the first
/// mip level of `image`.
pub open spec fn whole_image_copy<I: Image>(image: &I) -> BufferImageCopy {
    BufferImageCopy {
        buffer_offset: 0,
        buffer_row_length: image.spec_extent().width,
        buffer_image_height: image.spec_extent().height,
        image_subresource: ImageSubresourceLayers {
            aspect_mask: vk::ASPECT_COLOR,
            mip_level: 0,
            base_array_layer: 0,
            layer_count: image.spec_layer_count(),
        },
        image_offset: Offset3D { x: 0, y: 0, z: 0 },
        image_extent: image.spec_extent(),
    }
}

/// Whether `after` is the transient pool `before` after one batch was
/// allocated from it and freed again: one more handle is used up, and the
/// batches are those of before.
pub open spec fn used_one_batch(after: CommandPoolView, before: CommandPoolView) -> bool {
    &&& after.handle == before.handle
    &&& after.kind == before.kind
    &&& after.command_buffers.issued == before.command_buffers.next_index()
    &&& after.command_buffers.entries =~= before.command_buffers.entries
}

/// Whether `after` is the collection of families `before` after a load
/// went through the transient pool of the graphics family.
pub open spec fn loaded_through(after: QueueFamilyCollection, before: QueueFamilyCollection) -> bool {
    &&& after.present == before.present
    &&& after.transfer == before.transfer
    &&& before.graphics@.command_pools matches Some(pools_before)
    &&& after.graphics@.command_pools matches Some(pools_after)
    &&& after.graphics@ == (QueueFamilyView {
        command_pools: after.graphics@.command_pools,
        ..before.graphics@
    })
    &&& pools_after.long_term == pools_before.long_term
    &&& used_one_batch(pools_after.transient@, pools_before.transient@)
}

/// Fills the color of `image` with `texels`: the texels go into a staging
/// buffer that the host can see, a command buffer of the transient pool of
/// the graphics family moves the image into the layout for copies, copies
/// the buffer into it and moves it on to `new_layout` for the accesses
/// `new_access` of `consuming_stage`. The call waits until the graphics
/// queue has done the copy, then frees the command buffer and the staging
/// buffer. `memory_reqs` is what the device asks of the memory behind the
/// staging buffer.
///
/// A load that cannot go through is refused before anything is issued.
/// Where the device offers no memory for the staging buffer, the buffer has
/// been created already and is left behind.
pub fn load_compressed_image<I: Image>(
    image: &I,
    context: &mut Context,
    queue_family_collection: &mut QueueFamilyCollection,
    texels: &[u8],
    consuming_stage: u32,
    new_layout: i32,
    new_access: u32,
    memory_reqs: MemoryRequirements,
) -> (result: Result<(), FennecError>)
    requires
        old(context)@.can_create(3),
        texels@.len() <= u64::MAX,
        old(queue_family_collection).graphics@.command_pools matches Some(pools)
            ==> pools.transient@.has_room(),
    ensures
        match result {
            Ok(()) => {
                &&& load_refusal(
                    old(context)@,
                    old(queue_family_collection).graphics@,
                    texels@.len(),
                    memory_reqs,
                    image.wrapped().name,
                ) is None
                &&& find_memory_type(
                    old(context)@.memory_types,
                    memory_reqs.memory_type_bits,
                    host_filled(),
                    0,
                ) matches Some(memory_type_index)
                &&& final(context)@ == Buffer::created(
                    old(context)@,
                    texels@.len() as u64,
                    vk::BUFFER_USAGE_TRANSFER_SRC,
                    None,
                    None,
                    memory_reqs,
                    memory_type_index,
                ).create(1).issue(
                    DeviceCallView::MapMemory {
                        memory: (old(context)@.next_handle + 1) as u64,
                        offset: 0,
                        size: memory_reqs.size,
                    },
                ).issue(
                    DeviceCallView::WriteMemory {
                        memory: (old(context)@.next_handle + 1) as u64,
                        offset: 0,
                        bytes: texels@,
                    },
                ).issue(
                    DeviceCallView::UnmapMemory {
                        memory: (old(context)@.next_handle + 1) as u64,
                    },
                ).issue_all(
                    copy_calls(
                        image,
                        old(context)@.id,
                        old(queue_family_collection).graphics@.command_pools->Some_0.transient@.handle.handle,
                        stage_queue(old(queue_family_collection).graphics@)->Some_0@.handle.handle,
                        old(context)@.next_handle,
                        consuming_stage,
                        new_layout,
                        new_access,
                    ),
                )
                &&& loaded_through(*final(queue_family_collection), *old(queue_family_collection))
            },
            Err(error) => {
                &&& *final(queue_family_collection) == *old(queue_family_collection)
                &&& if load_refusal(
                    old(context)@,
                    old(queue_family_collection).graphics@,
                    texels@.len(),
                    memory_reqs,
                    image.wrapped().name,
                ) is Some {
                    load_refusal(
                        old(context)@,
                        old(queue_family_collection).graphics@,
                        texels@.len(),
                        memory_reqs,
                        image.wrapped().name,
                    ) == Some(error@) && final(context)@ == old(context)@
                } else {
                    &&& find_memory_type(
                        old(context)@.memory_types,
                        memory_reqs.memory_type_bits,
                        host_filled(),
                        0,
                    ) is None
                    &&& error@ == plain_error(
                        ErrorKind::General,
                        memory_type_unavailable(memory_reqs.memory_type_bits, host_filled()),
                    )
                    &&& final(context)@ == old(context)@.create(1).issue(
                        Buffer::creation(
                            old(context)@.next_handle,
                            texels@.len() as u64,
                            vk::BUFFER_USAGE_TRANSFER_SRC,
                            None,
                            None,
                        ),
                    )
                }
            },
        },
{
    // What the load needs of the graphics family is checked before
    // anything is created, so that nothing has to be given up on the way.
    let kind = match queue_family_collection.graphics().command_pools() {
        Some(pools) => pools.transient().kind(),
        None => {
            return Err(
                FennecError::with_kind(
                    ErrorKind::IllegalState,
                    "The graphics queue family is not set up",
                ),
            );
        },
    };
    proof {
        if queue_family_collection.graphics@.queue_count > 0 {
            Priority::lemma_highest_leads_to_first(
                queue_family_collection.graphics@.queue_count as int,
            );
        }
    }
    if queue_family_collection.graphics().queue_of_priority(Priority::highest()).is_none() {
        return Err(FennecError::with_kind(ErrorKind::IllegalState, "No graphics queues exist"));
    }
    if !kind.takes_transfers() {
        let kinds = [QueueKind::Transfer, QueueKind::Graphics, QueueKind::Compute];
        assert(kinds@ =~= barrier_kinds());
        return Err(wrong_kind_error(kind, &kinds));
    }
    let ghost first = context@.next_handle;
    let ghost started = context@;
    let buffer_name = {
        let head = join("Image::load_compressed_image::staging_buffer(", image.name());
        join(head.as_str(), ")")
    };
    assert(buffer_name@ =~= staging_name(image.wrapped().name));
    check_name(context, buffer_name.as_str())?;
    let staging_buffer = Buffer::from_bytes(
        context,
        texels,
        texels.len(),
        vk::buffer_usage_transfer_src(),
        None,
        None,
        memory_reqs,
    )?;
    assert(texels@.subrange(0, texels@.len() as int) =~= texels@);
    let ghost filled = context@;
    let staging_buffer = match staging_buffer.with_name(context, buffer_name.as_str()) {
        Ok(buffer) => buffer,
        Err(error) => {
            assert(false);
            return Err(error);
        },
    };
    let copy_command_buffers_handle = match queue_family_collection.graphics_mut().command_pools_mut() {
        Some(pools) => match pools.transient_mut().create_command_buffers(context, 1) {
            Ok((handle, buffers)) => {
                match buffers[0].begin(context, true, false) {
                    Ok(writer) => {
                        proof {
                            lemma_kinds_taken(writer.buffer()@.kind);
                        }
                        assert(writer.buffer()@.writing && kind_among(
                            writer.buffer()@.kind,
                            barrier_kinds(),
                        ));
                        let to_copy = [
                            ImageMemoryBarrier {
                                src_access_mask: 0,
                                dst_access_mask: vk::access_transfer_write(),
                                old_layout: vk::layout_undefined(),
                                new_layout: vk::layout_transfer_dst(),
                                src_queue_family_index: 0,
                                dst_queue_family_index: 0,
                                image: image.handle(),
                                subresource_range: image.range_color_basic(),
                            },
                        ];
                        let first_barrier = writer.pipeline_barrier(
                            context,
                            vk::stage_top_of_pipe(),
                            vk::stage_transfer(),
                            None,
                            None,
                            None,
                            Some(&to_copy),
                        );
                        assert(first_barrier is Ok);
                        let regions = [
                            Buffer::copy_to_image(0, image, vk::aspect_color(), 0),
                        ];
                        proof {
                            let list: &[BufferImageCopy] = &regions;
                            assert(list@ =~= seq![whole_image_copy(image)]);
                            assert(region_error(
                                image.wrapped().name,
                                image.spec_extent(),
                                list@[0].image_offset,
                                list@[0].image_extent,
                            ) is None);
                            assert(regions_error(
                                image.wrapped().name,
                                image.spec_extent(),
                                list@,
                                1,
                            ) is None);
                            let barriers: &[ImageMemoryBarrier] = &to_copy;
                            assert(barriers@ =~= seq![
                                layout_barrier(
                                    image.wrapped().handle,
                                    vk::LAYOUT_UNDEFINED,
                                    vk::LAYOUT_TRANSFER_DST,
                                    0,
                                    vk::ACCESS_TRANSFER_WRITE,
                                ),
                            ]);
                        }
                        let copied = writer.copy_buffer_to_image(
                            context,
                            &staging_buffer,
                            image,
                            vk::layout_transfer_dst(),
                            &regions,
                        );
                        assert(copied is Ok);
                        let to_use = [
                            ImageMemoryBarrier {
                                src_access_mask: vk::access_transfer_write(),
                                dst_access_mask: new_access,
                                old_layout: vk::layout_transfer_dst(),
                                new_layout,
                                src_queue_family_index: 0,
                                dst_queue_family_index: 0,
                                image: image.handle(),
                                subresource_range: image.range_color_basic(),
                            },
                        ];
                        proof {
                            let barriers: &[ImageMemoryBarrier] = &to_use;
                            assert(barriers@ =~= seq![
                                layout_barrier(
                                    image.wrapped().handle,
                                    vk::LAYOUT_TRANSFER_DST,
                                    new_layout,
                                    vk::ACCESS_TRANSFER_WRITE,
                                    new_access,
                                ),
                            ]);
                        }
                        let second_barrier = writer.pipeline_barrier(
                            context,
                            vk::stage_transfer(),
                            consuming_stage,
                            None,
                            None,
                            None,
                            Some(&to_use),
                        );
                        assert(second_barrier is Ok);
                        writer.end(context);
                    },
                    Err(_) => {
                        assert(false);
                    },
                }
                handle
            },
            Err(error) => {
                assert(false);
                return Err(error);
            },
        },
        None => {
            assert(false);
            return Err(
                FennecError::with_kind(
                    ErrorKind::IllegalState,
                    "The graphics queue family is not set up",
                ),
            );
        },
    };
    // Submit the copy, wait for it, and give the command buffer back.
    {
        let graphics = queue_family_collection.graphics();
        match (graphics.queue_of_priority(Priority::highest()), graphics.command_pools()) {
            (Some(queue), Some(pools)) => {
                match pools.transient().command_buffers(copy_command_buffers_handle) {
                    Ok(buffers) => {
                        let submitted = [&buffers[0]];
                        proof {
                            let list: &[&CommandBuffer] = &submitted;
                            assert(command_buffer_handles(
                                Some(list),
                            ) =~= seq![(first + 2) as u64]);
                            assert forall|k: int|
                                0 <= k < list@.len() implies !writing_at(
                                list@,
                                k,
                            ) by {}
                        }
                        let sent = queue.submit(context, Some(&submitted), None, None, None);
                        assert(sent is Ok);
                        let waited = queue.wait(context);
                        assert(waited is Ok);
                    },
                    Err(_) => {
                        assert(false);
                    },
                }
            },
            _ => {
                assert(false);
            },
        }
    }
    proof {
        let recorded = queue_family_collection.graphics@.command_pools->Some_0.transient@.batch(
            copy_command_buffers_handle@,
        )->Some_0;
        assert(recorded.len() == 1);
        assert(recorded[0]@.handle.handle == (first + 2) as u64);
        assert(batch_handles(recorded) =~= seq![
            (first + 2) as u64,
        ]);
    }
    match queue_family_collection.graphics_mut().command_pools_mut() {
        Some(pools) => {
            let freed = pools.transient_mut().destroy_command_buffers(
                context,
                copy_command_buffers_handle,
            );
            assert(freed is Ok);
        },
        None => {
            assert(false);
        },
    }
    staging_buffer.destroy(context);
    proof {
        let pool = old(queue_family_collection).graphics@.command_pools->Some_0.transient@;
        let queue = stage_queue(old(queue_family_collection).graphics@)->Some_0@.handle.handle;
        let expected = copy_calls(
            image,
            old(context)@.id,
            pool.handle.handle,
            queue,
            first,
            consuming_stage,
            new_layout,
            new_access,
        );
        let base = filled.calls.len() as int;
        assert(context@.calls.len() == base + 13);
        assert(context@.calls[base + 0] == expected[0]);
        assert(context@.calls[base + 1] == expected[1]);
        assert(context@.calls[base + 2] == expected[2]);
        assert(context@.calls[base + 3] == expected[3]);
        assert(context@.calls[base + 4] == expected[4]);
        assert(context@.calls[base + 5] == expected[5]);
        assert(context@.calls[base + 6] == expected[6]);
        assert(context@.calls[base + 7] == expected[7]);
        assert(context@.calls[base + 8] == expected[8]);
        assert(context@.calls[base + 9] == expected[9]);
        assert(context@.calls[base + 10] == expected[10]);
        assert(context@.calls[base + 11] == expected[11]);
        assert(context@.calls[base + 12] == expected[12]);
        assert(context@.calls =~= filled.calls + expected);
        assert(context@.calls =~= Buffer::created(
            old(context)@,
            texels@.len() as u64,
            vk::BUFFER_USAGE_TRANSFER_SRC,
            None,
            None,
            memory_reqs,
            find_memory_type(
                old(context)@.memory_types,
                memory_reqs.memory_type_bits,
                host_filled(),
                0,
            )->Some_0,
        ).issue(
            DeviceCallView::MapMemory { memory: (first + 1) as u64, offset: 0, size: memory_reqs.size },
        ).issue(
            DeviceCallView::WriteMemory { memory: (first + 1) as u64, offset: 0, bytes: texels@ },
        ).issue(DeviceCallView::UnmapMemory { memory: (first + 1) as u64 }).calls + copy_calls(
            image,
            old(context)@.id,
            pool.handle.handle,
            queue,
            first,
            consuming_stage,
            new_layout,
            new_access,
        ));
    }
    Ok(())
}

} // verus!
