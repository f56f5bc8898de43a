use fennec::error::ErrorKind;
use fennec::vm::graphicsengine::commandbuffer::CommandBuffer;
use fennec::vm::graphicsengine::device::DeviceCall;
use fennec::vm::graphicsengine::device::MemoryType;
use fennec::vm::graphicsengine::device::SemaphoreWait;
use fennec::vm::graphicsengine::device::SurfaceCapabilities;
use fennec::vm::graphicsengine::device::SurfaceFormat;
use fennec::vm::graphicsengine::device::Extent2D;
use fennec::vm::graphicsengine::layerrenderer::LayerRenderer;
use fennec::vm::graphicsengine::layerrenderer::RenderStage;
use fennec::vm::graphicsengine::presenttransitioner::PresentTransitioner;
use fennec::vm::graphicsengine::priority::Priority;
use fennec::vm::graphicsengine::queuefamily::QueueFamilyCollection;
use fennec::vm::graphicsengine::queuefamily::QueueFamilyProperties;
use fennec::vm::graphicsengine::queuefamily::QueueKind;
use fennec::vm::graphicsengine::swapchain::SurfaceSupport;
use fennec::vm::graphicsengine::swapchain::Swapchain;
use fennec::vm::graphicsengine::sync::Fence;
use fennec::vm::graphicsengine::sync::FenceStatus;
use fennec::vm::graphicsengine::sync::Semaphore;
use fennec::vm::graphicsengine::vkobject::HandleType;
use fennec::vm::graphicsengine::vkobject::VKHandle;
use fennec::vm::graphicsengine::vkobject::VKObject;
use fennec::vm::graphicsengine::Context;
use fennec::vm::graphicsengine::GraphicsEngine;

fn new_context() -> Context {
    Context::new(
        1,
        vec![
            MemoryType { property_flags: 0x1, heap_index: 0 },
            MemoryType { property_flags: 0x6, heap_index: 1 },
        ],
    )
}

fn families() -> QueueFamilyCollection {
    let reported = vec![
        QueueFamilyProperties { queue_flags: 0x4, queue_count: 1, supports_present: false },
        QueueFamilyProperties { queue_flags: 0x7, queue_count: 2, supports_present: true },
    ];
    QueueFamilyCollection::new(&reported).expect("families")
}

fn support() -> SurfaceSupport {
    SurfaceSupport {
        formats: vec![
            SurfaceFormat { format: 37, color_space: 0 },
            SurfaceFormat { format: 44, color_space: 0 },
        ],
        capabilities: SurfaceCapabilities {
            min_image_count: 2,
            max_image_count: 8,
            current_extent: Extent2D { width: 640, height: 480 },
            current_transform: 1,
        },
        present_modes: vec![2, 1],
        client_size_pixels: Some((800, 600)),
    }
}

#[test]
fn protected_handle_is_never_destroyed() {
    let mut context = new_context();
    let protected = VKHandle::new(&context, HandleType::Image, 7, true);
    protected.release(&mut context);
    assert!(context.calls().is_empty());
    let owned = VKHandle::new(&context, HandleType::Image, 8, false);
    owned.release(&mut context);
    assert_eq!(
        context.calls(),
        &vec![DeviceCall::Destroy { handle_type: HandleType::Image, handle: 8 }]
    );
}

#[test]
fn kinds_without_a_destroy_call_issue_nothing() {
    let mut context = new_context();
    for kind in [HandleType::Queue, HandleType::CommandBuffer, HandleType::DescriptorSet] {
        VKHandle::new(&context, kind, 3, false).release(&mut context);
    }
    assert!(context.calls().is_empty());
}

#[test]
fn naming_keeps_the_name_when_the_device_cannot_be_told() {
    let mut context = new_context();
    let mut semaphore = Semaphore::new(&mut context).expect("semaphore");
    assert_eq!(semaphore.name(), "Unnamed");
    context.try_borrow_mut().expect("exclusive");
    let refused = semaphore.set_name(&mut context, "frame").expect_err("borrowed");
    assert_eq!(refused.kind(), ErrorKind::BorrowConflict);
    assert_eq!(semaphore.name(), "frame");
    context.release_borrow_mut();
    semaphore.set_name(&mut context, "frame done").expect("named");
    assert_eq!(
        context.calls().last(),
        Some(&DeviceCall::SetObjectName {
            handle_type: HandleType::Semaphore,
            handle: semaphore.handle(),
            name: String::from("frame done"),
        })
    );
}

#[test]
fn context_borrows_are_checked() {
    let mut context = new_context();
    context.try_borrow().expect("shared");
    context.try_borrow().expect("shared twice");
    assert_eq!(context.try_borrow_mut().expect_err("shared held").kind(), ErrorKind::BorrowConflict);
    context.release_borrow();
    context.release_borrow();
    context.try_borrow_mut().expect("exclusive");
    assert_eq!(context.try_borrow().expect_err("exclusive held").kind(), ErrorKind::BorrowConflict);
    assert_eq!(context.try_borrow_mut().expect_err("exclusive held").kind(), ErrorKind::BorrowConflict);
    context.release_borrow_mut();
    context.try_borrow().expect("free again");
}

#[test]
fn fence_status_is_read_from_the_device_status() {
    let mut context = new_context();
    let mut fence = Fence::new(&mut context, true).expect("fence");
    assert_eq!(context.calls(), &vec![DeviceCall::CreateFence { fence: 1, flags: 1 }]);
    assert_eq!(fence.status(&context, 0).expect("signaled"), FenceStatus::Signaled);
    assert_eq!(fence.status(&context, 1).expect("unsignaled"), FenceStatus::Unsignaled);
    assert!(fence.signaled(&context, 0).expect("signaled"));
    assert!(!fence.signaled(&context, 1).expect("unsignaled"));
    let lost = fence.status(&context, -4).expect_err("device lost");
    assert_eq!(lost.kind(), ErrorKind::ApiCall);
    assert_eq!(lost.description(), "Status was ERROR_DEVICE_LOST");
    assert_eq!(
        lost.message(),
        format!("Status was ERROR_DEVICE_LOST: {}", ash::vk::Result::ERROR_DEVICE_LOST)
    );
    fence.wait(&mut context, None).expect("wait");
    fence.wait(&mut context, Some(5)).expect("wait");
    fence.reset(&mut context).expect("reset");
    assert_eq!(
        &context.calls()[1..],
        &[
            DeviceCall::WaitForFences { fence: 1, timeout: u64::MAX },
            DeviceCall::WaitForFences { fence: 1, timeout: 5 },
            DeviceCall::ResetFences { fence: 1 },
        ]
    );
    let unsignaled = Fence::new(&mut context, false).expect("fence");
    assert_eq!(context.calls().last(), Some(&DeviceCall::CreateFence { fence: 2, flags: 0 }));
    unsignaled.destroy(&mut context);
    assert_eq!(
        context.calls().last(),
        Some(&DeviceCall::Destroy { handle_type: HandleType::Fence, handle: 2 })
    );
}

#[test]
fn families_are_chosen_first_fit() {
    let collection = families();
    assert_eq!(collection.present().index(), 1);
    assert_eq!(collection.graphics().index(), 1);
    assert_eq!(collection.transfer().index(), 0);
    assert_eq!(collection.graphics().queue_count(), 2);
    assert_eq!(collection.graphics().kind(), QueueKind::Graphics);
    assert_eq!(collection.transfer().name(), "GraphicsEngine::queue_family_collection.transfer");
    let none = QueueFamilyCollection::new(&[QueueFamilyProperties {
        queue_flags: 0x4,
        queue_count: 1,
        supports_present: false,
    }]);
    let error = none.err().expect("no present family");
    assert_eq!(error.kind(), ErrorKind::General);
    assert_eq!(
        error.description(),
        "Could not choose a Present queue family that meets the requirements"
    );
}

#[test]
fn queue_priorities_are_reduced_to_one_entry_for_each_family() {
    let collection = families();
    let priorities = collection.queue_priorities();
    let seen: Vec<(u32, Vec<(u32, u32)>)> = priorities
        .iter()
        .map(|(family, list)| {
            (*family, list.iter().map(|p| (p.numerator(), p.denominator())).collect())
        })
        .collect();
    assert_eq!(seen, vec![(1, vec![(2, 2), (1, 2)]), (0, vec![(1, 1)])]);
}

#[test]
fn family_setup_fetches_queues_and_creates_pools() {
    let mut context = new_context();
    let mut collection = families();
    collection.graphics_mut().setup(&mut context).expect("setup");
    let name = |handle: u64, kind: HandleType, text: &str| DeviceCall::SetObjectName {
        handle_type: kind,
        handle,
        name: String::from(text),
    };
    assert_eq!(
        context.calls(),
        &vec![
            DeviceCall::GetDeviceQueue { queue: 1, family_index: 1, queue_index: 0 },
            name(1, HandleType::Queue, "GraphicsEngine::queue_family_collection.graphics.queues[0]"),
            DeviceCall::GetDeviceQueue { queue: 2, family_index: 1, queue_index: 1 },
            name(2, HandleType::Queue, "GraphicsEngine::queue_family_collection.graphics.queues[1]"),
            DeviceCall::CreateCommandPool { pool: 3, flags: 3, family_index: 1 },
            name(
                3,
                HandleType::CommandPool,
                "GraphicsEngine::queue_family_collection.graphics.command_pools.transient"
            ),
            DeviceCall::CreateCommandPool { pool: 4, flags: 2, family_index: 1 },
            name(
                4,
                HandleType::CommandPool,
                "GraphicsEngine::queue_family_collection.graphics.command_pools.long_term"
            ),
        ]
    );
    let again = collection.graphics_mut().setup(&mut context).expect_err("set up twice");
    assert_eq!(again.kind(), ErrorKind::IllegalState);
    let graphics = collection.graphics();
    assert_eq!(graphics.queue_of_priority(Priority::highest()).expect("first").handle(), 1);
    assert_eq!(graphics.queue_of_priority(Priority::lowest()).expect("last").handle(), 2);
    assert_eq!(
        graphics.queue_of_priority(Priority::new(1, 2).expect("half")).expect("second").handle(),
        2
    );
    let range = (Priority::lowest(), Priority::highest());
    assert_eq!(graphics.queue_n_in_priority_range(0, range).expect("first").handle(), 1);
    assert_eq!(graphics.queue_n_in_priority_range(1, range).expect("second").handle(), 2);
    assert_eq!(graphics.queue_n_in_priority_range(2, range).expect("round").handle(), 1);
    assert!(collection.transfer().queue_of_priority(Priority::highest()).is_none());
}

#[test]
fn priorities_lie_between_zero_and_one() {
    assert!(Priority::new(1, 0).is_err());
    assert_eq!(Priority::new(3, 2).expect_err("above one").kind(), ErrorKind::OutOfRange);
    let half = Priority::new(2, 4).expect("half");
    assert!(half.lt(&Priority::highest()));
    assert!(Priority::lowest().lt(&half));
    assert!(!half.lt(&Priority::new(1, 2).expect("half")));
    assert_eq!(half.queue_index_among(4), 2);
    for queue in 0..7u32 {
        assert_eq!(Priority::of_queue(queue, 7).queue_index_among(7), queue);
    }
}

#[test]
fn batches_are_created_and_freed_as_a_whole() {
    let mut context = new_context();
    let mut collection = families();
    collection.transfer_mut().setup(&mut context).expect("setup");
    context.take_calls();
    let pool = collection.transfer_mut().command_pools_mut().expect("pools").transient_mut();
    let (handle, buffers) = pool.create_command_buffers(&mut context, 4).expect("batch");
    assert_eq!(buffers.len(), 4);
    assert!(buffers.iter().all(|buffer| buffer.kind() == QueueKind::Transfer && !buffer.writing()));
    let handles: Vec<u64> = buffers.iter().map(|buffer| buffer.handle()).collect();
    assert_eq!(handles, vec![4, 5, 6, 7]);
    assert_eq!(pool.command_buffers(handle).expect("alive").len(), 4);
    pool.destroy_command_buffers(&mut context, handle).expect("freed");
    assert_eq!(
        context.calls(),
        &vec![
            DeviceCall::AllocateCommandBuffers { pool: 2, first: 4, count: 4 },
            DeviceCall::FreeCommandBuffers { pool: 2, command_buffers: vec![4, 5, 6, 7] },
        ]
    );
    let stale = pool.command_buffers(handle).err().expect("stale");
    assert_eq!(stale.kind(), ErrorKind::NotFound);
    assert_eq!(stale.description(), "No command buffers exist under handle Handle { index: 1 }");
    assert_eq!(pool.command_buffers_mut(handle).err().expect("stale").kind(), ErrorKind::NotFound);
    assert_eq!(
        pool.destroy_command_buffers(&mut context, handle).expect_err("stale").kind(),
        ErrorKind::NotFound
    );
    let (next, _) = pool.create_command_buffers(&mut context, 1).expect("batch");
    assert!(next.index() > handle.index());
}

fn recorded_engine(stage_count: usize) -> GraphicsEngine<RenderStage> {
    let mut context = new_context();
    let mut collection = families();
    collection.present_mut().setup(&mut context).expect("present");
    collection.graphics_mut().setup(&mut context).expect("graphics");
    let mut swapchain = Swapchain::new(&mut context, &support()).expect("swapchain");
    swapchain.fetch_images(&mut context, 3).expect("images");
    let mut stages = Vec::new();
    for _ in 0..stage_count {
        let pool = collection.graphics_mut().command_pools_mut().expect("pools").long_term_mut();
        let (handle, _) = pool.create_command_buffers(&mut context, 3).expect("batch");
        let finished = Semaphore::new(&mut context).expect("semaphore");
        stages.push(RenderStage::new(handle, finished, 0x1, (0x400, 2, 0x100)));
    }
    let transitioner =
        PresentTransitioner::new(&mut context, &mut collection, &swapchain, (0x400, 2, 0x100))
            .expect("transitioner");
    GraphicsEngine::new(context, collection, swapchain, stages, transitioner).expect("engine")
}

#[test]
fn frame_chains_three_stages_and_presents_after_the_last() {
    let mut engine = recorded_engine(3);
    let a = engine.stages[0].submit_draw(
        &mut engine.context,
        &engine.image_available_semaphore,
        &engine.queue_family_collection,
        0,
        None,
    );
    let a = a.expect("stage").handle();
    engine.context.take_calls();
    let available = engine.image_available_semaphore.handle();
    let swapchain = engine.swapchain.handle();
    let graphics_queue = engine
        .queue_family_collection
        .graphics()
        .queue_of_priority(Priority::highest())
        .expect("graphics queue")
        .handle();
    let present_queue = engine
        .queue_family_collection
        .present()
        .queue_of_priority(Priority::highest())
        .expect("present queue")
        .handle();
    assert!(graphics_queue != present_queue);
    engine.acquire_next_image().expect("acquire");
    engine.draw(1).expect("frame");
    let calls = engine.context.take_calls();
    assert_eq!(calls.len(), 6);
    assert_eq!(
        calls[0],
        DeviceCall::AcquireNextImage { swapchain, timeout: u64::MAX, semaphore: available, fence: 0 }
    );
    let mut waits = Vec::new();
    let mut signals = Vec::new();
    for call in &calls[1..5] {
        match call {
            DeviceCall::QueueSubmit { queue, command_buffers, wait_semaphores, signal_semaphores, fence } => {
                assert_eq!(*queue, graphics_queue);
                assert_eq!(command_buffers.len(), 1);
                assert_eq!(*fence, 0);
                assert_eq!(wait_semaphores.len(), 1);
                assert_eq!(signal_semaphores.len(), 1);
                waits.push(wait_semaphores[0]);
                signals.push(signal_semaphores[0]);
            }
            other => panic!("not a submission: {:?}", other),
        }
    }
    assert_eq!(signals[0], a);
    assert_eq!(waits[0], SemaphoreWait { semaphore: available, stage: 0x1 });
    assert_eq!(waits[1], SemaphoreWait { semaphore: signals[0], stage: 0x1 });
    assert_eq!(waits[2], SemaphoreWait { semaphore: signals[1], stage: 0x1 });
    assert_eq!(waits[3], SemaphoreWait { semaphore: signals[2], stage: 0x2000 });
    assert!(signals[0] != signals[1] && signals[1] != signals[2] && signals[2] != signals[3]);
    assert_eq!(
        calls[5],
        DeviceCall::QueuePresent {
            queue: present_queue,
            swapchain,
            image_index: 1,
            wait_semaphore: signals[3],
        }
    );
    engine.stop().expect("stop");
    assert_eq!(engine.context.calls(), &vec![DeviceCall::DeviceWaitIdle]);
}

#[test]
fn frame_stops_at_the_stage_that_is_refused() {
    let mut engine = recorded_engine(2);
    engine.context.take_calls();
    let refused = engine.draw(3).expect_err("no such image");
    assert_eq!(refused.kind(), ErrorKind::OutOfRange);
    assert_eq!(refused.description(), "No command buffer was recorded for image 3 (of 3)");
    assert!(engine.context.calls().is_empty());
}

#[test]
fn swapchain_prefers_format_and_mailbox() {
    let mut context = new_context();
    let swapchain = Swapchain::new(&mut context, &support()).expect("swapchain");
    assert_eq!(swapchain.format(), 44);
    assert_eq!(swapchain.extent(), Extent2D { width: 640, height: 480 });
    match &context.calls()[0] {
        DeviceCall::CreateSwapchain { swapchain, info } => {
            assert_eq!(*swapchain, 1);
            assert_eq!(info.min_image_count, 4);
            assert_eq!(info.image_format, 44);
            assert_eq!(info.present_mode, 1);
            assert_eq!(info.image_usage, 0x12);
            assert_eq!(info.composite_alpha, 1);
            assert!(info.clipped);
        }
        other => panic!("not a swapchain: {:?}", other),
    }
    let mut open = support();
    open.capabilities.current_extent.width = u32::MAX;
    open.present_modes = vec![3];
    open.formats = vec![SurfaceFormat { format: 50, color_space: 7 }];
    let fallback = Swapchain::new(&mut context, &open).expect("swapchain");
    assert_eq!(fallback.format(), 50);
    assert_eq!(fallback.extent(), Extent2D { width: 800, height: 600 });
    open.client_size_pixels = None;
    assert_eq!(
        Swapchain::new(&mut context, &open).err().expect("no window").description(),
        "Window does not exist"
    );
    open.formats.clear();
    assert!(Swapchain::new(&mut context, &open).is_err());
}

#[test]
fn command_buffer_law_holds_for_a_fresh_batch() {
    let mut context = new_context();
    let mut collection = families();
    collection.graphics_mut().setup(&mut context).expect("setup");
    let pool = collection.graphics_mut().command_pools_mut().expect("pools").transient_mut();
    let (_, buffers) = pool.create_command_buffers(&mut context, 1).expect("batch");
    let buffer: &mut CommandBuffer = &mut buffers[0];
    context.take_calls();
    let writer = buffer.begin(&mut context, true, true).expect("begin");
    writer.end(&mut context);
    assert!(!buffer.writing());
    assert_eq!(
        context.calls(),
        &vec![
            DeviceCall::BeginCommandBuffer { command_buffer: buffer.handle(), flags: 5 },
            DeviceCall::EndCommandBuffer { command_buffer: buffer.handle() },
        ]
    );
    let _leaked = buffer.begin(&mut context, false, false).expect("begin again");
    assert!(buffer.writing());
    let refused = buffer.begin(&mut context, false, false).err().expect("recording");
    assert_eq!(refused.kind(), ErrorKind::IllegalState);
    assert_eq!(refused.description(), "CommandBuffer is already being written to");
}

#[test]
fn handle_can_be_replaced_in_place() {
    let mut context = new_context();
    let mut object = VKHandle::new(&context, HandleType::Sampler, 4, false);
    *object.handle_mut() = 9;
    assert_eq!(object.handle(), 9);
    assert_eq!(object.context(), context.id());
    *object.context_mut() = 5;
    assert_eq!(object.context(), 5);
    assert_eq!(object.handle(), 9);
    assert_eq!(object.handle_type(), HandleType::Sampler);
    assert!(!object.protected());
    *object.context_mut() = context.id();
    object.release(&mut context);
    assert_eq!(
        context.calls(),
        &vec![DeviceCall::Destroy { handle_type: HandleType::Sampler, handle: 9 }]
    );
}
