use fennec::error::ErrorKind;
use fennec::vm::graphicsengine::buffer::Buffer;
use fennec::vm::graphicsengine::descriptorpool::name_sets;
use fennec::vm::graphicsengine::descriptorpool::AdvancedDescriptorPoolSettings;
use fennec::vm::graphicsengine::descriptorpool::BufferWrite;
use fennec::vm::graphicsengine::descriptorpool::Descriptor;
use fennec::vm::graphicsengine::descriptorpool::DescriptorPool;
use fennec::vm::graphicsengine::descriptorpool::DescriptorSetLayout;
use fennec::vm::graphicsengine::device::DescriptorBufferInfo;
use fennec::vm::graphicsengine::device::DescriptorPoolSize;
use fennec::vm::graphicsengine::device::DescriptorSetLayoutBinding;
use fennec::vm::graphicsengine::device::DeviceCall;
use fennec::vm::graphicsengine::device::MemoryRequirements;
use fennec::vm::graphicsengine::device::MemoryType;
use fennec::vm::graphicsengine::device::WriteDescriptorSet;
use fennec::vm::graphicsengine::vkobject::HandleType;
use fennec::vm::graphicsengine::vkobject::VKObject;
use fennec::vm::graphicsengine::Context;
use std::rc::Rc;

fn new_context() -> Context {
    Context::new(3, vec![MemoryType { property_flags: 0x7, heap_index: 0 }])
}

fn descriptor(descriptor_type: i32, count: u32, location: u32) -> Descriptor {
    Descriptor { shader_stage: 0x10, shader_binding_location: location, descriptor_type, count }
}

fn name(kind: HandleType, handle: u64, text: &str) -> DeviceCall {
    DeviceCall::SetObjectName { handle_type: kind, handle, name: String::from(text) }
}

#[test]
fn layout_hands_its_descriptors_to_the_device() {
    let mut context = new_context();
    let layout = DescriptorSetLayout::new(&mut context, 3, vec![descriptor(6, 2, 0), descriptor(1, 1, 4)])
        .expect("layout");
    assert_eq!(layout.count(), 3);
    assert_eq!(layout.descriptors().len(), 2);
    assert_eq!(
        descriptor(6, 2, 5).binding(),
        DescriptorSetLayoutBinding { binding: 5, descriptor_type: 6, descriptor_count: 2, stage_flags: 0x10 }
    );
    assert_eq!(
        context.take_calls(),
        vec![DeviceCall::CreateDescriptorSetLayout {
            layout: 1,
            bindings: vec![
                DescriptorSetLayoutBinding { binding: 0, descriptor_type: 6, descriptor_count: 2, stage_flags: 0x10 },
                DescriptorSetLayoutBinding { binding: 4, descriptor_type: 1, descriptor_count: 1, stage_flags: 0x10 },
            ],
        }]
    );
    layout.destroy(&mut context);
    assert_eq!(
        context.calls(),
        &vec![DeviceCall::Destroy { handle_type: HandleType::DescriptorSetLayout, handle: 1 }]
    );
}

#[test]
fn pool_holds_the_total_of_each_type() {
    let mut context = new_context();
    let first = DescriptorSetLayout::new(&mut context, 3, vec![descriptor(6, 2, 0), descriptor(1, 1, 1)])
        .expect("layout");
    let second =
        DescriptorSetLayout::new(&mut context, 2, vec![descriptor(1, 5, 0), descriptor(6, 1, 1), descriptor(8, 4, 2)])
            .expect("layout");
    context.take_calls();
    let settings = AdvancedDescriptorPoolSettings { update_after_bind: Some(true) };
    let pool = DescriptorPool::new(&mut context, &[&first, &second], Some(settings)).expect("pool");
    assert_eq!(pool.handle(), 3);
    assert_eq!(
        context.take_calls(),
        vec![DeviceCall::CreateDescriptorPool {
            pool: 3,
            flags: 2,
            max_sets: 5,
            pool_sizes: vec![
                DescriptorPoolSize { ty: 6, descriptor_count: 2 * 3 + 1 * 2 },
                DescriptorPoolSize { ty: 1, descriptor_count: 1 * 3 + 5 * 2 },
                DescriptorPoolSize { ty: 8, descriptor_count: 4 * 2 },
            ],
        }]
    );
    let empty = DescriptorPool::new(&mut context, &[], None).expect("pool");
    assert_eq!(
        context.take_calls(),
        vec![DeviceCall::CreateDescriptorPool { pool: 4, flags: 0, max_sets: 0, pool_sizes: vec![] }]
    );
    assert!(AdvancedDescriptorPoolSettings::default().update_after_bind.is_none());
    let unset = AdvancedDescriptorPoolSettings { update_after_bind: Some(false) };
    DescriptorPool::new(&mut context, &[], Some(unset)).expect("pool");
    match &context.calls()[0] {
        DeviceCall::CreateDescriptorPool { flags, .. } => assert_eq!(*flags, 0),
        other => panic!("not a pool: {:?}", other),
    }
    empty.destroy(&mut context);
}

#[test]
fn pool_refuses_more_than_it_can_count() {
    let mut context = new_context();
    let many = DescriptorSetLayout::new(&mut context, 65536, vec![descriptor(6, 65536, 0)]).expect("layout");
    context.take_calls();
    let refused = DescriptorPool::new(&mut context, &[&many], None).err().expect("too many");
    assert_eq!(refused.kind(), ErrorKind::OutOfRange);
    assert_eq!(refused.description(), "The layouts ask for more descriptors than a pool can hold");
    let half = DescriptorSetLayout::new(&mut context, 0x8000_0000, vec![]).expect("layout");
    context.take_calls();
    let refused = DescriptorPool::new(&mut context, &[&half, &half], None).err().expect("too many sets");
    assert_eq!(refused.kind(), ErrorKind::OutOfRange);
    let split = DescriptorSetLayout::new(&mut context, 1, vec![descriptor(6, u32::MAX, 0), descriptor(6, 1, 1)])
        .expect("layout");
    context.take_calls();
    assert!(DescriptorPool::new(&mut context, &[&split], None).is_err());
    assert!(context.calls().is_empty());
    let most = DescriptorSetLayout::new(&mut context, 1, vec![descriptor(6, u32::MAX, 0)]).expect("layout");
    assert!(DescriptorPool::new(&mut context, &[&most], None).is_ok());
}

#[test]
fn sets_are_allocated_named_and_found_again() {
    let mut context = new_context();
    let layout = Rc::new(
        DescriptorSetLayout::new(&mut context, 2, vec![descriptor(6, 2, 0)])
            .expect("layout"),
    );
    let pool = DescriptorPool::new(&mut context, &[layout.as_ref()], None).expect("pool");
    let mut pool = pool.with_name(&mut context, "sets").expect("named");
    context.take_calls();
    let (handle, sets) = pool.create_descriptor_sets(&mut context, &layout).expect("sets");
    assert_eq!(sets.len(), 2);
    assert_eq!(sets[1].name(), "sets[Handle { index: 1 }].1");
    assert_eq!(sets[0].layout().count(), 2);
    assert_eq!(
        context.take_calls(),
        vec![
            DeviceCall::AllocateDescriptorSets { pool: 2, layout: 1, first: 3, count: 2 },
            name(HandleType::DescriptorSet, 3, "sets[Handle { index: 1 }].0"),
            name(HandleType::DescriptorSet, 4, "sets[Handle { index: 1 }].1"),
        ]
    );
    assert_eq!(pool.descriptor_sets(handle).expect("alive").len(), 2);
    pool.set_name(&mut context, "renamed").expect("named");
    assert_eq!(pool.descriptor_sets(handle).expect("alive")[0].name(), "renamed[Handle { index: 1 }].0");
    assert_eq!(context.take_calls().len(), 3);
    let sets = pool.descriptor_sets_mut(handle).expect("alive");
    name_sets(sets, &mut context, "x", 9).expect("named");
    assert_eq!(sets[1].name(), "x[Handle { index: 9 }].1");
    let stranger = fennec::cache::Handle::new(5);
    let missing = pool.descriptor_sets(stranger).err().expect("unknown");
    assert_eq!(missing.kind(), ErrorKind::NotFound);
    assert_eq!(missing.description(), "No descriptor sets exist under handle Handle { index: 5 }");
    assert!(pool.descriptor_sets_mut(stranger).is_err());
    context.take_calls();
    pool.destroy(&mut context);
    assert_eq!(
        context.calls(),
        &vec![DeviceCall::Destroy { handle_type: HandleType::DescriptorPool, handle: 2 }]
    );
}

#[test]
fn writes_are_checked_against_the_layout() {
    let mut context = new_context();
    let layout = Rc::new(
        DescriptorSetLayout::new(&mut context, 1, vec![descriptor(6, 3, 0), descriptor(1, 1, 1)]).expect("layout"),
    );
    let mut pool = DescriptorPool::new(&mut context, &[layout.as_ref()], None).expect("pool");
    let requirements = MemoryRequirements { size: 64, alignment: 4, memory_type_bits: 1 };
    let uniforms = Buffer::new(&mut context, 64, 0x10, 0x2, None, None, requirements).expect("buffer");
    let (handle, _) = pool.create_descriptor_sets(&mut context, &layout).expect("sets");
    let set = &pool.descriptor_sets(handle).expect("sets")[0];
    let writes = [
        BufferWrite { buffer: &uniforms, offset: 0, length: 16 },
        BufferWrite { buffer: &uniforms, offset: 16, length: 48 },
    ];
    let write = set.write_uniform_buffers(0, 1, &writes).expect("allowed");
    assert_eq!(
        write,
        WriteDescriptorSet {
            dst_set: set.handle(),
            dst_binding: 0,
            dst_array_element: 1,
            descriptor_type: 6,
            buffer_info: vec![
                DescriptorBufferInfo { buffer: uniforms.handle(), offset: 0, range: 16 },
                DescriptorBufferInfo { buffer: uniforms.handle(), offset: 16, range: 48 },
            ],
        }
    );
    let no_descriptor = set.write_uniform_buffers(2, 0, &writes).err().expect("no such descriptor");
    assert_eq!(no_descriptor.kind(), ErrorKind::OutOfRange);
    assert_eq!(no_descriptor.description(), "Index 2 is not a valid descriptor index in Unnamed[Handle { index: 1 }].0");
    let outside = set.write_uniform_buffers(0, 2, &writes).err().expect("outside");
    assert_eq!(outside.kind(), ErrorKind::OutOfRange);
    assert_eq!(
        outside.description(),
        "Range (start=2, count=2) is not within the range of descriptor 0 in Unnamed[Handle { index: 1 }].0"
    );
    assert!(set.write_argument_check(0, u32::MAX, 1, 6).is_err());
    assert!(set.write_argument_check(0, 3, 0, 6).is_ok());
    let wrong_type = set.write_uniform_buffers(1, 0, &writes[..1]).err().expect("wrong type");
    assert_eq!(wrong_type.kind(), ErrorKind::IllegalState);
    assert_eq!(wrong_type.description(), "Expected descriptor's type to be UNIFORM_BUFFER but it was COMBINED_IMAGE_SAMPLER");
    context.take_calls();
    pool.update_descriptor_sets(&mut context, vec![write]).expect("updated");
    match &context.calls()[0] {
        DeviceCall::UpdateDescriptorSets { writes } => assert_eq!(writes.len(), 1),
        other => panic!("not an update: {:?}", other),
    }
}
