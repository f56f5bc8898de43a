use fennec::error::ErrorKind;
use fennec::vm::graphicsengine::buffer::Buffer;
use fennec::vm::graphicsengine::commandbuffer::make_batch_member_name;
use fennec::vm::graphicsengine::commandbuffer::ActiveRenderPass;
use fennec::vm::graphicsengine::commandbuffer::CommandBufferWriter;
use fennec::vm::graphicsengine::commandbuffer::name_batch;
use fennec::vm::graphicsengine::commandbuffer::wrong_kind_error;
use fennec::vm::graphicsengine::device::BufferImageCopy;
use fennec::vm::graphicsengine::device::BufferMemoryBarrier;
use fennec::vm::graphicsengine::device::ClearValue;
use fennec::vm::graphicsengine::device::DeviceCall;
use fennec::vm::graphicsengine::device::Extent2D;
use fennec::vm::graphicsengine::device::Extent3D;
use fennec::vm::graphicsengine::device::Float;
use fennec::vm::graphicsengine::device::ImageSubresourceLayers;
use fennec::vm::graphicsengine::device::ImageSubresourceRange;
use fennec::vm::graphicsengine::device::MemoryBarrier;
use fennec::vm::graphicsengine::device::MemoryRequirements;
use fennec::vm::graphicsengine::device::MemoryType;
use fennec::vm::graphicsengine::device::Offset2D;
use fennec::vm::graphicsengine::device::Offset3D;
use fennec::vm::graphicsengine::device::Rect2D;
use fennec::vm::graphicsengine::device::StencilOpState;
use fennec::vm::graphicsengine::framebuffer::Framebuffer;
use fennec::vm::graphicsengine::image::Image;
use fennec::vm::graphicsengine::image::Image2D;
use fennec::vm::graphicsengine::pipeline::BlendState;
use fennec::vm::graphicsengine::pipeline::CullingState;
use fennec::vm::graphicsengine::pipeline::DepthState;
use fennec::vm::graphicsengine::pipeline::GraphicsPipeline;
use fennec::vm::graphicsengine::pipeline::GraphicsStates;
use fennec::vm::graphicsengine::pipeline::Viewport;
use fennec::vm::graphicsengine::queue::Queue;
use fennec::vm::graphicsengine::queuefamily::QueueFamilyCollection;
use fennec::vm::graphicsengine::queuefamily::QueueFamilyProperties;
use fennec::vm::graphicsengine::queuefamily::QueueKind;
use fennec::vm::graphicsengine::priority::Priority;
use fennec::vm::graphicsengine::renderpass::RenderPass;
use fennec::vm::graphicsengine::sync::Fence;
use fennec::vm::graphicsengine::sync::Semaphore;
use fennec::vm::graphicsengine::vkobject::HandleType;
use fennec::vm::graphicsengine::vkobject::VKObject;
use fennec::vm::graphicsengine::Context;

fn new_context() -> Context {
    Context::new(
        9,
        vec![
            MemoryType { property_flags: 0x1, heap_index: 0 },
            MemoryType { property_flags: 0x6, heap_index: 1 },
        ],
    )
}

fn set_up_families(context: &mut Context) -> QueueFamilyCollection {
    let reported = vec![
        QueueFamilyProperties { queue_flags: 0x4, queue_count: 1, supports_present: false },
        QueueFamilyProperties { queue_flags: 0x7, queue_count: 1, supports_present: true },
    ];
    let mut families = QueueFamilyCollection::new(&reported).expect("families");
    families.setup(context).expect("setup");
    context.take_calls();
    families
}

fn requirements(size: u64) -> MemoryRequirements {
    MemoryRequirements { size, alignment: 4, memory_type_bits: 0x3 }
}

fn zero_stencil() -> StencilOpState {
    StencilOpState {
        fail_op: 0,
        pass_op: 0,
        depth_fail_op: 0,
        compare_op: 0,
        compare_mask: 0,
        write_mask: 0,
        reference: 0,
    }
}

fn states() -> GraphicsStates {
    GraphicsStates {
        culling_state: CullingState { enable: true, front_face: 0 },
        depth_state: DepthState {
            enable_test: false,
            enable_write: false,
            compare_op: 1,
            enable_bounds_test: false,
            bounds_min: Float::zero(),
            bounds_max: Float::one(),
            enable_stencil_test: false,
            stencil_front: zero_stencil(),
            stencil_back: zero_stencil(),
        },
        blend_state: BlendState {
            enable_logic_op: false,
            logic_op: 0,
            color_attachment_blend_functions: Vec::new(),
            blend_constant: (Float::zero(), Float::zero(), Float::zero(), Float::zero()),
        },
    }
}

fn viewport() -> Viewport {
    Viewport {
        x: Float::zero(),
        y: Float::zero(),
        width: Float { bits: 0x4420_0000 },
        height: Float { bits: 0x43f0_0000 },
        min_depth: Float::zero(),
        max_depth: Float::one(),
        scissor_offset: Offset2D { x: 0, y: 0 },
        scissor_extent: Extent2D { width: 640, height: 480 },
    }
}

#[test]
fn collection_setup_sets_all_three_families_up() {
    let mut context = new_context();
    let reported = vec![
        QueueFamilyProperties { queue_flags: 0x4, queue_count: 1, supports_present: false },
        QueueFamilyProperties { queue_flags: 0x7, queue_count: 2, supports_present: true },
    ];
    let mut families = QueueFamilyCollection::new(&reported).expect("families");
    families.setup(&mut context).expect("setup");
    assert_eq!(context.calls().len(), 8 + 8 + 6);
    assert_eq!(
        context.calls()[16],
        DeviceCall::GetDeviceQueue { queue: 9, family_index: 0, queue_index: 0 }
    );
    assert!(families.present().queues().is_some());
    assert_eq!(families.graphics().queues().expect("queues").len(), 2);
    assert!(families.transfer().command_pools().is_some());
    let again = families.setup(&mut context).expect_err("set up twice");
    assert_eq!(again.kind(), ErrorKind::IllegalState);
    assert_eq!(again.description(), "Queue family is already set up");
}

#[test]
fn transfer_buffers_refuse_graphics_commands() {
    let mut context = new_context();
    let mut families = set_up_families(&mut context);
    let image = Image2D::new(
        &mut context,
        Extent2D { width: 4, height: 4 },
        0x6,
        &[],
        None,
        None,
        None,
        requirements(64),
    )
    .expect("image");
    let staging = Buffer::new(&mut context, 64, 0x1, 0x6, None, None, requirements(64)).expect("buffer");
    let render_pass = RenderPass::new(&mut context, &[], &[]).expect("render pass");
    let framebuffer = Framebuffer::new(&mut context, &render_pass, Vec::new()).expect("framebuffer");
    let pool = families.transfer_mut().command_pools_mut().expect("pools").transient_mut();
    let (_, buffers) = pool.create_command_buffers(&mut context, 1).expect("batch");
    let target = buffers[0].handle();
    context.take_calls();
    let mut writer = buffers[0].begin(&mut context, true, false).expect("begin");
    let area = Rect2D { offset: Offset2D { x: 0, y: 0 }, extent: Extent2D { width: 4, height: 4 } };
    let refused_pass = writer
        .begin_render_pass(&mut context, &render_pass, &framebuffer, area, &[])
        .err()
        .expect("no render passes on transfer queues");
    assert_eq!(refused_pass.kind(), ErrorKind::IllegalState);
    assert_eq!(
        refused_pass.description(),
        "Wrong kind of command buffer (Transfer) - Expected one of [Graphics]"
    );
    let clear = ClearValue { words: [0, 0, 0, 0x3f80_0000] };
    let refused_clear = writer
        .clear_color_image(&mut context, &image, 1, &clear, &[image.range_color_basic()])
        .expect_err("no clears on transfer queues");
    assert_eq!(refused_clear.kind(), ErrorKind::IllegalState);
    writer
        .pipeline_barrier(
            &mut context,
            0x1,
            0x1000,
            None,
            Some(&[MemoryBarrier { src_access_mask: 1, dst_access_mask: 2 }]),
            Some(&[BufferMemoryBarrier {
                src_access_mask: 0,
                dst_access_mask: 0x1000,
                src_queue_family_index: 0,
                dst_queue_family_index: 0,
                buffer: staging.handle(),
                offset: 0,
                size: 64,
            }]),
            None,
        )
        .expect("barriers are taken");
    let copy = Buffer::copy_to_image(0, &image, 0x1, 0);
    writer
        .copy_buffer_to_image(&mut context, &staging, &image, 7, &[copy])
        .expect("copies are taken");
    writer.end(&mut context);
    assert_eq!(
        context.calls(),
        &vec![
            DeviceCall::BeginCommandBuffer { command_buffer: target, flags: 1 },
            DeviceCall::CmdPipelineBarrier {
                command_buffer: target,
                src_stage: 0x1,
                dst_stage: 0x1000,
                dependency_flags: 0,
                memory_barriers: vec![MemoryBarrier { src_access_mask: 1, dst_access_mask: 2 }],
                buffer_memory_barriers: vec![BufferMemoryBarrier {
                    src_access_mask: 0,
                    dst_access_mask: 0x1000,
                    src_queue_family_index: 0,
                    dst_queue_family_index: 0,
                    buffer: staging.handle(),
                    offset: 0,
                    size: 64,
                }],
                image_memory_barriers: vec![],
            },
            DeviceCall::CmdCopyBufferToImage {
                command_buffer: target,
                source: staging.handle(),
                destination: image.handle(),
                destination_layout: 7,
                regions: vec![BufferImageCopy {
                    buffer_offset: 0,
                    buffer_row_length: 4,
                    buffer_image_height: 4,
                    image_subresource: ImageSubresourceLayers {
                        aspect_mask: 1,
                        mip_level: 0,
                        base_array_layer: 0,
                        layer_count: 1,
                    },
                    image_offset: Offset3D { x: 0, y: 0, z: 0 },
                    image_extent: Extent3D { width: 4, height: 4, depth: 1 },
                }],
            },
            DeviceCall::EndCommandBuffer { command_buffer: target },
        ]
    );
}

#[test]
fn copies_must_lie_inside_the_image() {
    let mut context = new_context();
    let mut families = set_up_families(&mut context);
    let image = Image2D::new(
        &mut context,
        Extent2D { width: 4, height: 4 },
        0x6,
        &[],
        None,
        None,
        None,
        requirements(64),
    )
    .expect("image")
    .with_name(&mut context, "atlas")
    .expect("named");
    let staging = Buffer::new(&mut context, 64, 0x1, 0x6, None, None, requirements(64)).expect("buffer");
    let pool = families.graphics_mut().command_pools_mut().expect("pools").transient_mut();
    let (_, buffers) = pool.create_command_buffers(&mut context, 1).expect("batch");
    let writer = buffers[0].begin(&mut context, true, false).expect("begin");
    context.take_calls();
    let mut outside = Buffer::copy_to_image(0, &image, 0x1, 0);
    outside.image_offset = Offset3D { x: 2, y: 0, z: 0 };
    let inside = Buffer::copy_to_image(0, &image, 0x1, 0);
    let refused = writer
        .copy_buffer_to_image(&mut context, &staging, &image, 7, &[inside, outside])
        .expect_err("outside");
    assert_eq!(refused.kind(), ErrorKind::OutOfRange);
    assert_eq!(
        refused.description(),
        "+X edge of region in image (atlas) is 6 which falls outside of the image"
    );
    assert!(context.calls().is_empty());
    writer.end(&mut context);
}

#[test]
fn draws_need_something_to_draw() {
    let mut context = new_context();
    let mut families = set_up_families(&mut context);
    let render_pass = RenderPass::new(&mut context, &[], &[]).expect("render pass");
    let framebuffer = Framebuffer::new(&mut context, &render_pass, Vec::new()).expect("framebuffer");
    let pipeline = GraphicsPipeline::new(
        &mut context,
        &render_pass,
        0,
        &[],
        &[],
        3,
        Vec::new(),
        &[viewport()],
        &states(),
        None,
    )
    .expect("pipeline");
    let index_buffer =
        Buffer::new(&mut context, 12, 0x40, 0x6, None, None, requirements(12)).expect("indices");
    let pool = families.graphics_mut().command_pools_mut().expect("pools").long_term_mut();
    let (_, buffers) = pool.create_command_buffers(&mut context, 1).expect("batch");
    let target = buffers[0].handle();
    let mut writer = buffers[0].begin(&mut context, false, true).expect("begin");
    let area = Rect2D { offset: Offset2D { x: 0, y: 0 }, extent: Extent2D { width: 4, height: 4 } };
    let clears = [ClearValue { words: [0, 0, 0, 0] }];
    context.take_calls();
    let pass = writer
        .begin_render_pass(&mut context, &render_pass, &framebuffer, area, &clears)
        .expect("render pass");
    let bound = pass.bind_graphics_pipeline(&mut context, &pipeline).expect("pipeline");
    bound.bind_index_buffer(&mut context, &index_buffer, 4, 1).expect("indices");
    bound.bind_descriptor_sets(&mut context, &[], 0).expect("sets");
    let before = context.calls().len();
    let no_vertices = bound.draw(&mut context, 0, 0, 0, 1).expect_err("no vertices");
    assert_eq!(no_vertices.kind(), ErrorKind::OutOfRange);
    assert_eq!(no_vertices.description(), "Vertex count was 0");
    let no_instances = bound.draw(&mut context, 0, 3, 0, 0).expect_err("no instances");
    assert_eq!(no_instances.kind(), ErrorKind::OutOfRange);
    assert_eq!(no_instances.description(), "Instance count was 0");
    let no_indices = bound.draw_indexed(&mut context, 0, 0, 0, 0, 1).expect_err("no indices");
    assert_eq!(no_indices.kind(), ErrorKind::OutOfRange);
    assert_eq!(no_indices.description(), "Index count was 0");
    assert_eq!(
        bound.draw_indexed(&mut context, 0, 6, 0, 0, 0).expect_err("no instances").description(),
        "Instance count was 0"
    );
    assert_eq!(context.calls().len(), before);
    bound.draw(&mut context, 0, 3, 0, 1).expect("a triangle");
    assert_eq!(context.calls().len(), before + 1);
    bound.draw_indexed(&mut context, 2, 6, -1, 5, 7).expect("indexed");
    bound.end();
    pass.end(&mut context);
    writer.end(&mut context);
    assert_eq!(
        context.calls(),
        &vec![
            DeviceCall::CmdBeginRenderPass {
                command_buffer: target,
                render_pass: render_pass.handle(),
                framebuffer: framebuffer.handle(),
                render_area: area,
                clear_values: vec![ClearValue { words: [0, 0, 0, 0] }],
            },
            DeviceCall::CmdBindPipeline { command_buffer: target, pipeline: pipeline.handle() },
            DeviceCall::CmdBindIndexBuffer {
                command_buffer: target,
                buffer: index_buffer.handle(),
                offset: 4,
                index_type: 1,
            },
            DeviceCall::CmdBindDescriptorSets {
                command_buffer: target,
                layout: pipeline.handle() - 1,
                first_set: 0,
                descriptor_sets: vec![],
            },
            DeviceCall::CmdDraw {
                command_buffer: target,
                vertex_count: 3,
                instance_count: 1,
                first_vertex: 0,
                first_instance: 0,
            },
            DeviceCall::CmdDrawIndexed {
                command_buffer: target,
                index_count: 6,
                instance_count: 7,
                first_index: 2,
                vertex_offset: -1,
                first_instance: 5,
            },
            DeviceCall::CmdEndRenderPass { command_buffer: target },
            DeviceCall::EndCommandBuffer { command_buffer: target },
        ]
    );
}

#[test]
fn a_render_pass_left_open_is_ended_with_the_recording() {
    let mut context = new_context();
    let mut families = set_up_families(&mut context);
    let render_pass = RenderPass::new(&mut context, &[], &[]).expect("render pass");
    let framebuffer = Framebuffer::new(&mut context, &render_pass, Vec::new()).expect("framebuffer");
    let pool = families.graphics_mut().command_pools_mut().expect("pools").transient_mut();
    let (_, buffers) = pool.create_command_buffers(&mut context, 1).expect("batch");
    let target = buffers[0].handle();
    let mut writer = buffers[0].begin(&mut context, false, false).expect("begin");
    let area = Rect2D { offset: Offset2D { x: 1, y: 2 }, extent: Extent2D { width: 3, height: 4 } };
    context.take_calls();
    {
        let pass = writer
            .begin_render_pass(&mut context, &render_pass, &framebuffer, area, &[])
            .expect("render pass");
        pass.writer()
            .pipeline_barrier(&mut context, 0x400, 0x80, Some(1), None, None, None)
            .expect("barrier inside the pass");
    }
    let twice = writer
        .begin_render_pass(&mut context, &render_pass, &framebuffer, area, &[])
        .err()
        .expect("still open");
    assert_eq!(twice.kind(), ErrorKind::IllegalState);
    assert_eq!(twice.description(), "A render pass is already open");
    writer.end(&mut context);
    let calls = context.take_calls();
    assert_eq!(calls.len(), 4);
    assert_eq!(calls[2], DeviceCall::CmdEndRenderPass { command_buffer: target });
    assert_eq!(calls[3], DeviceCall::EndCommandBuffer { command_buffer: target });
    assert!(!buffers[0].writing());
}

#[test]
fn commands_need_a_context_that_is_not_exclusively_borrowed() {
    let mut context = new_context();
    let mut families = set_up_families(&mut context);
    let pool = families.graphics_mut().command_pools_mut().expect("pools").transient_mut();
    let (_, buffers) = pool.create_command_buffers(&mut context, 1).expect("batch");
    context.try_borrow_mut().expect("exclusive");
    let refused = buffers[0].begin(&mut context, false, false).err().expect("borrowed");
    assert_eq!(refused.kind(), ErrorKind::BorrowConflict);
    assert!(!buffers[0].writing());
    context.release_borrow_mut();
    let writer = buffers[0].begin(&mut context, false, false).expect("begin");
    context.try_borrow_mut().expect("exclusive");
    let refused = writer
        .pipeline_barrier(&mut context, 1, 2, None, None, None, None)
        .expect_err("borrowed");
    assert_eq!(refused.kind(), ErrorKind::BorrowConflict);
    context.release_borrow_mut();
    writer.end(&mut context);
}

#[test]
fn verify_kind_accepts_the_listed_kinds_only() {
    let mut context = new_context();
    let mut families = set_up_families(&mut context);
    let pool = families.graphics_mut().command_pools_mut().expect("pools").transient_mut();
    let (_, buffers) = pool.create_command_buffers(&mut context, 1).expect("batch");
    assert!(buffers[0].verify_kind(&[QueueKind::Transfer, QueueKind::Graphics]).is_ok());
    let refused = buffers[0].verify_kind(&[QueueKind::Transfer, QueueKind::Compute]).expect_err("graphics");
    assert_eq!(refused.kind(), ErrorKind::IllegalState);
    assert_eq!(
        refused.description(),
        "Wrong kind of command buffer (Graphics) - Expected one of [Transfer, Compute]"
    );
    assert!(buffers[0].verify_kind(&[]).is_err());
    assert_eq!(
        wrong_kind_error(QueueKind::Present, &[QueueKind::Transfer, QueueKind::Graphics, QueueKind::Compute])
            .description(),
        "Wrong kind of command buffer (Present) - Expected one of [Transfer, Graphics, Compute]"
    );
    assert_eq!(
        wrong_kind_error(QueueKind::Compute, &[]).description(),
        "Wrong kind of command buffer (Compute) - Expected one of []"
    );
    assert!(QueueKind::Graphics.takes_render_passes() && !QueueKind::Compute.takes_render_passes());
    assert!(QueueKind::Compute.takes_clears() && !QueueKind::Transfer.takes_clears());
    assert!(QueueKind::Transfer.takes_transfers() && !QueueKind::Present.takes_transfers());
}

#[test]
fn pools_name_their_command_buffers_after_themselves() {
    let mut context = new_context();
    let mut families = set_up_families(&mut context);
    let pool = families.graphics_mut().command_pools_mut().expect("pools").long_term_mut();
    let (first, _) = pool.create_command_buffers(&mut context, 2).expect("batch");
    let (second, _) = pool.create_command_buffers(&mut context, 1).expect("batch");
    context.take_calls();
    pool.set_name(&mut context, "pool").expect("named");
    assert_eq!(pool.name(), "pool");
    let calls = context.take_calls();
    assert_eq!(calls.len(), 4);
    assert_eq!(
        calls[0],
        DeviceCall::SetObjectName {
            handle_type: HandleType::CommandPool,
            handle: pool.handle(),
            name: String::from("pool"),
        }
    );
    let names: Vec<String> = pool
        .command_buffers(first)
        .expect("first")
        .iter()
        .chain(pool.command_buffers(second).expect("second").iter())
        .map(|buffer| String::from(buffer.name()))
        .collect();
    assert_eq!(names, vec!["pool[Handle { index: 1 }].0", "pool[Handle { index: 1 }].1", "pool[Handle { index: 2 }].0"]);
    let mut named: Vec<String> = calls[1..]
        .iter()
        .map(|call| match call {
            DeviceCall::SetObjectName { handle_type: HandleType::CommandBuffer, name, .. } => name.clone(),
            other => panic!("not a name: {:?}", other),
        })
        .collect();
    named.sort();
    assert_eq!(named, vec!["pool[Handle { index: 1 }].0", "pool[Handle { index: 1 }].1", "pool[Handle { index: 2 }].0"]);
    assert_eq!(make_batch_member_name("p", 12, 3), "p[Handle { index: 12 }].3");
    let batch = pool.command_buffers_mut(first).expect("first");
    name_batch(batch, &mut context, "q", 7).expect("named");
    assert_eq!(batch[1].name(), "q[Handle { index: 7 }].1");
}

#[test]
fn submission_lists_what_is_waited_for_and_signaled() {
    let mut context = new_context();
    let mut families = set_up_families(&mut context);
    let wait = Semaphore::new(&mut context).expect("semaphore");
    let signal = Semaphore::new(&mut context).expect("semaphore");
    let fence = Fence::new(&mut context, false).expect("fence");
    let pool = families.graphics_mut().command_pools_mut().expect("pools").transient_mut();
    let (handle, _) = pool.create_command_buffers(&mut context, 2).expect("batch");
    context.take_calls();
    let graphics = families.graphics();
    let queue: &Queue = graphics.queue_of_priority(Priority::highest()).expect("queue");
    assert_eq!(queue.kind(), QueueKind::Graphics);
    let buffers = graphics.command_pools().expect("pools").transient().command_buffers(handle).expect("batch");
    queue
        .submit(
            &mut context,
            Some(&[&buffers[1], &buffers[0]]),
            Some(&[(&wait, 0x400)]),
            Some(&[&signal]),
            Some(&fence),
        )
        .expect("submitted");
    queue.submit(&mut context, None, None, None, None).expect("empty submission");
    queue.wait(&mut context).expect("idle");
    assert_eq!(
        context.calls(),
        &vec![
            DeviceCall::QueueSubmit {
                queue: queue.handle(),
                command_buffers: vec![buffers[1].handle(), buffers[0].handle()],
                wait_semaphores: vec![fennec::vm::graphicsengine::device::SemaphoreWait {
                    semaphore: wait.handle(),
                    stage: 0x400,
                }],
                signal_semaphores: vec![signal.handle()],
                fence: fence.handle(),
            },
            DeviceCall::QueueSubmit {
                queue: queue.handle(),
                command_buffers: vec![],
                wait_semaphores: vec![],
                signal_semaphores: vec![],
                fence: 0,
            },
            DeviceCall::QueueWaitIdle { queue: queue.handle() },
        ]
    );
}

#[test]
fn a_buffer_that_is_still_recorded_is_not_submitted() {
    let mut context = new_context();
    let mut families = set_up_families(&mut context);
    let pool = families.graphics_mut().command_pools_mut().expect("pools").transient_mut();
    let (handle, buffers) = pool.create_command_buffers(&mut context, 1).expect("batch");
    let _writer = buffers[0].begin(&mut context, false, false).expect("begin");
    context.take_calls();
    let graphics = families.graphics();
    let queue = graphics.queue_of_priority(Priority::highest()).expect("queue");
    let buffers = graphics.command_pools().expect("pools").transient().command_buffers(handle).expect("batch");
    let refused = queue
        .submit(&mut context, Some(&[&buffers[0]]), None, None, None)
        .expect_err("still recording");
    assert_eq!(refused.kind(), ErrorKind::IllegalState);
    assert_eq!(refused.description(), "CommandBuffer is still being written to");
    assert!(context.calls().is_empty());
}

#[test]
fn image_ranges_cover_what_they_say() {
    let mut context = new_context();
    let image = Image2D::new(
        &mut context,
        Extent2D { width: 4, height: 4 },
        0x6,
        &[],
        None,
        None,
        None,
        requirements(64),
    )
    .expect("image");
    assert_eq!(
        image.range(3, 1, 2, 4, 5),
        ImageSubresourceRange {
            aspect_mask: 3,
            base_mip_level: 4,
            level_count: 5,
            base_array_layer: 1,
            layer_count: 2,
        }
    );
    assert_eq!(image.range_color_basic().aspect_mask, 1);
    assert_eq!(image.range_depth_stencil_basic().aspect_mask, 6);
    assert_eq!(image.layers_color_basic().aspect_mask, 1);
    assert_eq!(image.layers_depth_stencil_basic().aspect_mask, 6);
    assert_eq!(
        image.layers(1, 2, 3, 4),
        ImageSubresourceLayers { aspect_mask: 1, mip_level: 4, base_array_layer: 2, layer_count: 3 }
    );
}

#[test]
fn recording_left_open_is_ended_from_the_buffer() {
    let mut context = new_context();
    let mut families = set_up_families(&mut context);
    let pool = families.graphics_mut().command_pools_mut().expect("pools").long_term_mut();
    let (_, buffers) = pool.create_command_buffers(&mut context, 1).expect("batch");
    let buffer = &mut buffers[0];
    let handle = buffer.handle();
    context.take_calls();
    {
        let _writer = buffer.begin(&mut context, false, false).expect("writer");
    }
    assert!(buffer.writing());
    assert!(!buffer.in_render_pass());
    assert_eq!(buffer.begin(&mut context, false, false).err().expect("still open").kind(), ErrorKind::IllegalState);
    context.take_calls();
    context.try_borrow_mut().expect("exclusive");
    assert_eq!(buffer.end_recording(&mut context).expect_err("borrowed").kind(), ErrorKind::BorrowConflict);
    assert!(buffer.writing());
    context.release_borrow_mut();
    buffer.end_recording(&mut context).expect("ended");
    assert!(!buffer.writing());
    assert_eq!(context.take_calls(), vec![DeviceCall::EndCommandBuffer { command_buffer: handle }]);
    buffer.end_recording(&mut context).expect("idle already");
    assert!(context.calls().is_empty());
    let writer = buffer.begin(&mut context, false, false).expect("a new recording");
    writer.end(&mut context);
    assert!(!buffer.writing());
}

#[test]
fn guards_put_together_by_hand_are_refused() {
    let mut context = new_context();
    let mut families = set_up_families(&mut context);
    let render_pass = RenderPass::new(&mut context, &[], &[]).expect("render pass");
    let pipeline = GraphicsPipeline::new(
        &mut context,
        &render_pass,
        0,
        &[],
        &[],
        3,
        Vec::new(),
        &[viewport()],
        &states(),
        None,
    )
    .expect("pipeline");
    let pool = families.graphics_mut().command_pools_mut().expect("pools").long_term_mut();
    let (_, buffers) = pool.create_command_buffers(&mut context, 1).expect("batch");
    context.take_calls();
    {
        let writer = CommandBufferWriter { command_buffer: &mut buffers[0] };
        let refused = writer
            .pipeline_barrier(&mut context, 0x1, 0x1000, None, None, None, None)
            .expect_err("no recording is open");
        assert_eq!(refused.kind(), ErrorKind::IllegalState);
        assert_eq!(refused.description(), "CommandBuffer is not being written to");
        writer.end(&mut context);
    }
    assert!(context.calls().is_empty());
    assert!(!buffers[0].writing());
    let mut writer = buffers[0].begin(&mut context, false, false).expect("begin");
    context.take_calls();
    {
        let pass = ActiveRenderPass { command_buffer_writer: &mut writer };
        let unbound = pass.bind_graphics_pipeline(&mut context, &pipeline).err().expect("no render pass");
        assert_eq!(unbound.kind(), ErrorKind::IllegalState);
        assert_eq!(unbound.description(), "No render pass is open");
        assert_eq!(pass.writer().pipeline_barrier(&mut context, 0x1, 0x1000, None, None, None, None).is_ok(), true);
        pass.end(&mut context);
    }
    assert_eq!(context.take_calls().len(), 1);
    writer.end(&mut context);
    assert_eq!(context.take_calls().len(), 1);
}
