use fennec::error::ErrorKind;
use fennec::vm::graphicsengine::buffer::Buffer;
use fennec::vm::graphicsengine::device::AttachmentDescription;
use fennec::vm::graphicsengine::device::AttachmentReference;
use fennec::vm::graphicsengine::device::ComponentMapping;
use fennec::vm::graphicsengine::device::DeviceCall;
use fennec::vm::graphicsengine::device::Extent2D;
use fennec::vm::graphicsengine::device::Extent3D;
use fennec::vm::graphicsengine::device::Float;
use fennec::vm::graphicsengine::device::ImageCreateInfo;
use fennec::vm::graphicsengine::device::ImageMemoryBarrier;
use fennec::vm::graphicsengine::device::ImageSubresourceRange;
use fennec::vm::graphicsengine::device::MemoryRequirements;
use fennec::vm::graphicsengine::device::MemoryType;
use fennec::vm::graphicsengine::device::Offset3D;
use fennec::vm::graphicsengine::device::SamplerCreateInfo;
use fennec::vm::graphicsengine::device::SubpassDependency;
use fennec::vm::graphicsengine::device::SubpassDescription;
use fennec::vm::graphicsengine::device::SurfaceCapabilities;
use fennec::vm::graphicsengine::device::SurfaceFormat;
use fennec::vm::graphicsengine::framebuffer::Framebuffer;
use fennec::vm::graphicsengine::image::AdvancedImageSettings;
use fennec::vm::graphicsengine::image::Image;
use fennec::vm::graphicsengine::image::Image2D;
use fennec::vm::graphicsengine::imageload::load_compressed_image;
use fennec::vm::graphicsengine::imageview::ImageView;
use fennec::vm::graphicsengine::memory::get_memory_type_index;
use fennec::vm::graphicsengine::memory::Memory;
use fennec::vm::graphicsengine::presenttransitioner::PresentTransitioner;
use fennec::vm::graphicsengine::queuefamily::QueueFamilyCollection;
use fennec::vm::graphicsengine::queuefamily::QueueFamilyProperties;
use fennec::vm::graphicsengine::renderpass::Dependency;
use fennec::vm::graphicsengine::renderpass::DependsOn;
use fennec::vm::graphicsengine::renderpass::RenderPass;
use fennec::vm::graphicsengine::renderpass::Subpass;
use fennec::vm::graphicsengine::sampler::AddressModes;
use fennec::vm::graphicsengine::sampler::AdvancedSamplerSettings;
use fennec::vm::graphicsengine::sampler::AnisotropySettings;
use fennec::vm::graphicsengine::sampler::Filters;
use fennec::vm::graphicsengine::sampler::Sampler;
use fennec::vm::graphicsengine::shadermodule::ShaderModule;
use fennec::vm::graphicsengine::shadermodule::MAX_SHADER_SIZE;
use fennec::vm::graphicsengine::swapchain::SurfaceSupport;
use fennec::vm::graphicsengine::swapchain::Swapchain;
use fennec::vm::graphicsengine::vkobject::HandleType;
use fennec::vm::graphicsengine::vkobject::VKObject;
use fennec::vm::graphicsengine::Context;

fn new_context() -> Context {
    Context::new(
        2,
        vec![
            MemoryType { property_flags: 0x1, heap_index: 0 },
            MemoryType { property_flags: 0x6, heap_index: 1 },
            MemoryType { property_flags: 0x26, heap_index: 1 },
        ],
    )
}

fn requirements(size: u64, bits: u32) -> MemoryRequirements {
    MemoryRequirements { size, alignment: 4, memory_type_bits: bits }
}

fn name(kind: HandleType, handle: u64, text: &str) -> DeviceCall {
    DeviceCall::SetObjectName { handle_type: kind, handle, name: String::from(text) }
}

#[test]
fn memory_type_is_the_first_that_fits() {
    let context = new_context();
    assert_eq!(get_memory_type_index(&context, 0x7, 0x1).expect("device local"), 0);
    assert_eq!(get_memory_type_index(&context, 0x7, 0x2).expect("host visible"), 1);
    assert_eq!(get_memory_type_index(&context, 0x4, 0x2).expect("allowed by bits"), 2);
    assert_eq!(get_memory_type_index(&context, 0x7, 0x20).expect("protected"), 2);
    let none = get_memory_type_index(&context, 0x1, 0x2).expect_err("no fit");
    assert_eq!(none.kind(), ErrorKind::General);
    assert_eq!(none.description(), "Memory type not available: type_bits=1 properties=HOST_VISIBLE");
    assert!(get_memory_type_index(&context, 0x8, 0x1).is_err());
}

#[test]
fn memory_is_mapped_region_by_region() {
    let mut context = new_context();
    let mut memory = Memory::new(&mut context, requirements(16, 0x2), 0x6).expect("memory");
    assert_eq!(memory.size(), 16);
    assert!(memory.mappable());
    assert_eq!(
        context.take_calls(),
        vec![DeviceCall::AllocateMemory { memory: 1, size: 16, memory_type_index: 1 }]
    );
    memory.set_name(&mut context, "m").expect("named");
    let outside = memory.map_region(&mut context, 8, 9).err().expect("outside");
    assert_eq!(outside.kind(), ErrorKind::OutOfRange);
    assert_eq!(
        outside.description(),
        "Region (offset=8 size=9) is not within m's mappable range (size=16)"
    );
    assert!(memory.map_region(&mut context, u64::MAX, 2).is_err());
    context.take_calls();
    let map = memory.map_region(&mut context, 4, 8).expect("mapped");
    map.write(&mut context, 2, &[1, 2, 3]).expect("written");
    let spilled = map.write(&mut context, 6, &[1, 2, 3]).expect_err("outside the region");
    assert_eq!(spilled.kind(), ErrorKind::OutOfRange);
    assert_eq!(
        spilled.description(),
        "Write (offset=6 length=3) is not within the mapped region (size=8)"
    );
    map.unmap(&mut context);
    assert_eq!(
        context.take_calls(),
        vec![
            DeviceCall::MapMemory { memory: 1, offset: 4, size: 8 },
            DeviceCall::WriteMemory { memory: 1, offset: 6, bytes: vec![1, 2, 3] },
            DeviceCall::UnmapMemory { memory: 1 },
        ]
    );
    let _left_mapped = memory.map_all(&mut context).expect("mapped");
    let twice = memory.map_all(&mut context).err().expect("mapped already");
    assert_eq!(twice.kind(), ErrorKind::IllegalState);
    assert_eq!(twice.description(), "Cannot map m as it is mapped already");
}

#[test]
fn memory_that_the_host_cannot_see_is_not_mapped() {
    let mut context = new_context();
    let mut local = Memory::new(&mut context, requirements(16, 0x1), 0x1).expect("memory");
    assert!(!local.mappable());
    let refused = local.map_all(&mut context).err().expect("not mappable");
    assert_eq!(refused.kind(), ErrorKind::IllegalState);
    assert_eq!(
        refused.description(),
        "Cannot map Unnamed as it is either protected or host-invisible"
    );
    let mut protected = Memory::new(&mut context, requirements(16, 0x4), 0x22).expect("memory");
    assert!(!protected.mappable());
    assert!(protected.map_all(&mut context).is_err());
    let unavailable = Memory::new(&mut context, requirements(16, 0x1), 0x2).err().expect("no type");
    assert_eq!(unavailable.kind(), ErrorKind::General);
    local.destroy(&mut context);
    assert_eq!(
        context.calls().last(),
        Some(&DeviceCall::Destroy { handle_type: HandleType::DeviceMemory, handle: 1 })
    );
}

#[test]
fn buffer_owns_its_memory() {
    let mut context = new_context();
    let reported = vec![QueueFamilyProperties { queue_flags: 0x7, queue_count: 1, supports_present: true }];
    let families = QueueFamilyCollection::new(&reported).expect("families");
    let shared = [families.graphics(), families.transfer()];
    let buffer =
        Buffer::new(&mut context, 32, 0x80, 0x1, Some(&shared), Some(4), requirements(48, 0x1)).expect("buffer");
    assert_eq!(buffer.size(), 32);
    assert_eq!(buffer.memory().size(), 48);
    assert_eq!(
        context.take_calls(),
        vec![
            DeviceCall::CreateBuffer {
                buffer: 1,
                flags: 4,
                size: 32,
                usage: 0x80,
                sharing_mode: 1,
                queue_family_indices: vec![0, 0],
            },
            DeviceCall::AllocateMemory { memory: 2, size: 48, memory_type_index: 0 },
            DeviceCall::BindBufferMemory { buffer: 1, memory: 2, offset: 0 },
        ]
    );
    let buffer = buffer.with_name(&mut context, "vertices").expect("named");
    assert_eq!(buffer.name(), "vertices");
    assert_eq!(buffer.memory().name(), "vertices.memory");
    assert_eq!(
        context.take_calls(),
        vec![name(HandleType::Buffer, 1, "vertices"), name(HandleType::DeviceMemory, 2, "vertices.memory")]
    );
    buffer.destroy(&mut context);
    assert_eq!(
        context.take_calls(),
        vec![
            DeviceCall::Destroy { handle_type: HandleType::Buffer, handle: 1 },
            DeviceCall::Destroy { handle_type: HandleType::DeviceMemory, handle: 2 },
        ]
    );
    let exclusive = Buffer::new(&mut context, 8, 0x1, 0x1, None, None, requirements(8, 0x1)).expect("buffer");
    match &context.calls()[0] {
        DeviceCall::CreateBuffer { sharing_mode, flags, queue_family_indices, .. } => {
            assert_eq!((*sharing_mode, *flags), (0, 0));
            assert!(queue_family_indices.is_empty());
        }
        other => panic!("not a buffer: {:?}", other),
    }
    drop(exclusive);
}

#[test]
fn buffer_is_filled_from_bytes() {
    let mut context = new_context();
    let buffer =
        Buffer::from_bytes(&mut context, &[9, 8, 7, 6], 3, 0x1, None, None, requirements(8, 0x6)).expect("buffer");
    assert_eq!(buffer.size(), 3);
    assert_eq!(
        context.take_calls(),
        vec![
            DeviceCall::CreateBuffer {
                buffer: 1,
                flags: 0,
                size: 3,
                usage: 0x1,
                sharing_mode: 0,
                queue_family_indices: vec![],
            },
            DeviceCall::AllocateMemory { memory: 2, size: 8, memory_type_index: 1 },
            DeviceCall::BindBufferMemory { buffer: 1, memory: 2, offset: 0 },
            DeviceCall::MapMemory { memory: 2, offset: 0, size: 8 },
            DeviceCall::WriteMemory { memory: 2, offset: 0, bytes: vec![9, 8, 7] },
            DeviceCall::UnmapMemory { memory: 2 },
        ]
    );
    let small = Buffer::from_bytes(&mut context, &[1, 2, 3], 3, 0x1, None, None, requirements(2, 0x6))
        .err()
        .expect("does not fit");
    assert_eq!(small.kind(), ErrorKind::OutOfRange);
    assert_eq!(small.description(), "Cannot fill a buffer with 3 bytes: its memory holds 2");
    assert!(context.calls().is_empty());
}

#[test]
fn image_needs_size_and_mip_levels() {
    let mut context = new_context();
    let extent = Extent2D { width: 8, height: 4 };
    let no_mips = AdvancedImageSettings { mip_count: Some(0), ..AdvancedImageSettings::default() };
    let refused = Image2D::new(&mut context, extent, 1, &[], None, None, Some(no_mips), requirements(1, 1));
    let refused = refused.err().expect("no mips");
    assert_eq!(refused.kind(), ErrorKind::OutOfRange);
    assert_eq!(refused.description(), "# of mipmap levels must be greater than 0");
    let flat = Extent2D { width: 0, height: 4 };
    let refused = Image2D::new(&mut context, flat, 1, &[], None, None, None, requirements(1, 1));
    assert_eq!(refused.err().expect("no width").description(), "extent.width must be greater than 0");
    let flat = Extent2D { width: 4, height: 0 };
    let refused = Image2D::new(&mut context, flat, 1, &[], None, None, None, requirements(1, 1));
    assert_eq!(refused.err().expect("no height").description(), "extent.height must be greater than 0");
    assert!(context.calls().is_empty());
    let settings = AdvancedImageSettings {
        flags: Some(8),
        simultaneous_use: Some(true),
        mip_count: Some(3),
        sample_count: Some(4),
        image_tiling: Some(1),
    };
    let image = Image2D::new(&mut context, extent, 0x14, &[], Some(50), Some(2), Some(settings), requirements(128, 1))
        .expect("image");
    assert_eq!(image.format(), 50);
    assert_eq!(image.mip_count(), 3);
    assert_eq!(image.layer_count(), 1);
    assert_eq!(image.image_view_type(), 1);
    assert_eq!(image.extent(), Extent3D { width: 8, height: 4, depth: 1 });
    assert_eq!(image.memory().expect("memory").size(), 128);
    assert_eq!(image.image_handle().handle(), 1);
    assert_eq!(
        context.take_calls(),
        vec![
            DeviceCall::CreateImage {
                image: 1,
                info: ImageCreateInfo {
                    flags: 8,
                    image_type: 1,
                    format: 50,
                    extent: Extent3D { width: 8, height: 4, depth: 1 },
                    mip_levels: 3,
                    array_layers: 1,
                    samples: 4,
                    tiling: 1,
                    usage: 0x14,
                    sharing_mode: 1,
                    initial_layout: 2,
                },
                queue_family_indices: vec![],
            },
            DeviceCall::AllocateMemory { memory: 2, size: 128, memory_type_index: 0 },
            DeviceCall::BindImageMemory { image: 1, memory: 2, offset: 0 },
        ]
    );
    let usual = Image2D::new(&mut context, extent, 0x14, &[], None, None, None, requirements(128, 1)).expect("image");
    match &context.calls()[0] {
        DeviceCall::CreateImage { info, .. } => {
            assert_eq!(
                (info.flags, info.format, info.mip_levels, info.samples, info.tiling, info.sharing_mode),
                (0, 44, 1, 1, 0, 0)
            );
            assert_eq!(info.initial_layout, 0);
        }
        other => panic!("not an image: {:?}", other),
    }
    context.take_calls();
    usual.destroy(&mut context);
    assert_eq!(
        context.take_calls(),
        vec![
            DeviceCall::Destroy { handle_type: HandleType::Image, handle: 3 },
            DeviceCall::Destroy { handle_type: HandleType::DeviceMemory, handle: 4 },
        ]
    );
}

#[test]
fn regions_are_checked_edge_by_edge() {
    let mut context = new_context();
    let extent = Extent2D { width: 8, height: 4 };
    let image = Image2D::new(&mut context, extent, 1, &[], None, None, None, requirements(128, 1))
        .expect("image")
        .with_name(&mut context, "map")
        .expect("named");
    let whole = Extent3D { width: 8, height: 4, depth: 1 };
    assert!(image.verify_region_is_inside(Offset3D { x: 0, y: 0, z: 0 }, whole).is_ok());
    let check = |x: i32, y: i32, z: i32, w: u32, h: u32, d: u32| {
        image
            .verify_region_is_inside(Offset3D { x, y, z }, Extent3D { width: w, height: h, depth: d })
            .map_err(|error| {
                assert_eq!(error.kind(), ErrorKind::OutOfRange);
                String::from(error.description())
            })
    };
    assert_eq!(check(7, 3, 0, 1, 1, 1), Ok(()));
    assert_eq!(
        check(-1, 0, 0, 1, 1, 1),
        Err(String::from("-X edge of region in image (map) is -1 which falls outside of the image"))
    );
    assert_eq!(
        check(1, 0, 0, 8, 1, 1),
        Err(String::from("+X edge of region in image (map) is 9 which falls outside of the image"))
    );
    assert_eq!(
        check(0, -2, 0, 1, 1, 1),
        Err(String::from("-Y edge of region in image (map) is -2 which falls outside of the image"))
    );
    assert_eq!(
        check(0, 4, 0, 1, 1, 1),
        Err(String::from("+Y edge of region in image (map) is 5 which falls outside of the image"))
    );
    assert_eq!(
        check(0, 0, -3, 1, 1, 1),
        Err(String::from("-Z edge of region in image (map) is -3 which falls outside of the image"))
    );
    assert_eq!(
        check(0, 0, 0, 1, 1, 2),
        Err(String::from("+Z edge of region in image (map) is 2 which falls outside of the image"))
    );
    assert_eq!(
        check(2147483647, 0, 0, 4294967295, 1, 1),
        Err(String::from("+X edge of region in image (map) is 6442450942 which falls outside of the image"))
    );
}

#[test]
fn views_are_named_after_their_image() {
    let mut context = new_context();
    let extent = Extent2D { width: 8, height: 4 };
    let image = Image2D::new(&mut context, extent, 1, &[], None, None, None, requirements(128, 1))
        .expect("image")
        .with_name(&mut context, "sky")
        .expect("named");
    context.take_calls();
    let range = image.range_color_basic();
    let view = image.image_view(&mut context, &range, None).expect("view");
    assert_eq!(view.name(), "view into sky");
    assert_eq!(view.extent(), Extent3D { width: 8, height: 4, depth: 1 });
    let swizzled =
        ImageView::new(&mut context, &image, &range, Some(ComponentMapping { r: 3, g: 4, b: 5, a: 6 }))
            .expect("view");
    let identity = ComponentMapping { r: 0, g: 0, b: 0, a: 0 };
    assert_eq!(
        context.take_calls(),
        vec![
            DeviceCall::CreateImageView {
                view: 3,
                image: 1,
                view_type: 1,
                format: 44,
                components: identity,
                subresource_range: range,
            },
            name(HandleType::ImageView, 3, "view into sky"),
            DeviceCall::CreateImageView {
                view: 4,
                image: 1,
                view_type: 1,
                format: 44,
                components: ComponentMapping { r: 3, g: 4, b: 5, a: 6 },
                subresource_range: range,
            },
        ]
    );
    swizzled.destroy(&mut context);
    assert_eq!(
        context.calls(),
        &vec![DeviceCall::Destroy { handle_type: HandleType::ImageView, handle: 4 }]
    );
}

#[test]
fn render_pass_hands_dependencies_on_with_their_subpass() {
    let mut context = new_context();
    let attachment = AttachmentDescription {
        flags: 0,
        format: 44,
        samples: 1,
        load_op: 1,
        store_op: 0,
        stencil_load_op: 2,
        stencil_store_op: 1,
        initial_layout: 0,
        final_layout: 2,
    };
    let color = AttachmentReference { attachment: 0, layout: 2 };
    let first = Subpass {
        input_attachments: Vec::new(),
        color_attachments: vec![color],
        depth_stencil_attachment: None,
        preserve_attachments: Vec::new(),
        dependencies: vec![Dependency {
            depends_on: DependsOn::default(),
            src_stage: 0x400,
            dst_stage: 0x400,
            src_access: 0,
            dst_access: 0x180,
        }],
    };
    let second = Subpass {
        input_attachments: vec![color],
        color_attachments: Vec::new(),
        depth_stencil_attachment: Some(AttachmentReference { attachment: 1, layout: 3 }),
        preserve_attachments: vec![0],
        dependencies: vec![
            Dependency {
                depends_on: DependsOn::Subpass(0),
                src_stage: 0x400,
                dst_stage: 0x80,
                src_access: 0x100,
                dst_access: 0x20,
            },
            Dependency {
                depends_on: DependsOn::ExternalSubpass,
                src_stage: 1,
                dst_stage: 2,
                src_access: 3,
                dst_access: 4,
            },
        ],
    };
    assert_eq!(DependsOn::default(), DependsOn::ExternalSubpass);
    assert_eq!(DependsOn::ExternalSubpass.source(), u32::MAX);
    assert_eq!(DependsOn::Subpass(4).source(), 4);
    let render_pass = RenderPass::new(&mut context, &[attachment], &[first, second]).expect("render pass");
    assert_eq!(render_pass.handle(), 1);
    assert_eq!(
        context.take_calls(),
        vec![DeviceCall::CreateRenderPass {
            render_pass: 1,
            attachments: vec![attachment],
            subpasses: vec![
                SubpassDescription {
                    input_attachments: vec![],
                    color_attachments: vec![color],
                    depth_stencil_attachment: None,
                    preserve_attachments: vec![],
                },
                SubpassDescription {
                    input_attachments: vec![color],
                    color_attachments: vec![],
                    depth_stencil_attachment: Some(AttachmentReference { attachment: 1, layout: 3 }),
                    preserve_attachments: vec![0],
                },
            ],
            dependencies: vec![
                SubpassDependency {
                    src_subpass: u32::MAX,
                    dst_subpass: 0,
                    src_stage_mask: 0x400,
                    dst_stage_mask: 0x400,
                    src_access_mask: 0,
                    dst_access_mask: 0x180,
                },
                SubpassDependency {
                    src_subpass: 0,
                    dst_subpass: 1,
                    src_stage_mask: 0x400,
                    dst_stage_mask: 0x80,
                    src_access_mask: 0x100,
                    dst_access_mask: 0x20,
                },
                SubpassDependency {
                    src_subpass: u32::MAX,
                    dst_subpass: 1,
                    src_stage_mask: 1,
                    dst_stage_mask: 2,
                    src_access_mask: 3,
                    dst_access_mask: 4,
                },
            ],
        }]
    );
    let render_pass = render_pass.with_name(&mut context, "main pass").expect("named");
    assert_eq!(render_pass.name(), "main pass");
    render_pass.destroy(&mut context);
    assert_eq!(
        context.calls().last(),
        Some(&DeviceCall::Destroy { handle_type: HandleType::RenderPass, handle: 1 })
    );
}

#[test]
fn framebuffer_is_as_large_as_its_largest_attachment() {
    let mut context = new_context();
    let render_pass = RenderPass::new(&mut context, &[], &[]).expect("render pass");
    let range = ImageSubresourceRange {
        aspect_mask: 1,
        base_mip_level: 0,
        level_count: 1,
        base_array_layer: 0,
        layer_count: 1,
    };
    let small = ImageView::of_image(&mut context, 50, 1, 44, Extent3D { width: 4, height: 9, depth: 1 }, &range, None)
        .expect("view");
    let large = ImageView::of_image(&mut context, 51, 1, 44, Extent3D { width: 7, height: 2, depth: 3 }, &range, None)
        .expect("view");
    context.take_calls();
    let framebuffer = Framebuffer::new(&mut context, &render_pass, vec![small, large]).expect("framebuffer");
    assert_eq!(framebuffer.attachments().len(), 2);
    let empty = Framebuffer::new(&mut context, &render_pass, Vec::new()).expect("framebuffer");
    assert_eq!(
        context.take_calls(),
        vec![
            DeviceCall::CreateFramebuffer {
                framebuffer: 4,
                render_pass: 1,
                attachments: vec![2, 3],
                width: 7,
                height: 9,
                layers: 3,
            },
            DeviceCall::CreateFramebuffer {
                framebuffer: 5,
                render_pass: 1,
                attachments: vec![],
                width: 1,
                height: 1,
                layers: 1,
            },
        ]
    );
    framebuffer.destroy(&mut context);
    empty.destroy(&mut context);
    assert_eq!(
        context.take_calls(),
        vec![
            DeviceCall::Destroy { handle_type: HandleType::Framebuffer, handle: 4 },
            DeviceCall::Destroy { handle_type: HandleType::ImageView, handle: 2 },
            DeviceCall::Destroy { handle_type: HandleType::ImageView, handle: 3 },
            DeviceCall::Destroy { handle_type: HandleType::Framebuffer, handle: 5 },
        ]
    );
}

#[test]
fn sampler_takes_the_usual_settings() {
    let mut context = new_context();
    let anisotropy = AnisotropySettings { enabled: true, max: Float { bits: 0x4180_0000 } };
    let sampler = Sampler::new(
        &mut context,
        Filters::default(),
        AddressModes::default(),
        anisotropy,
        &AdvancedSamplerSettings::default(),
    )
    .expect("sampler");
    assert_eq!(AnisotropySettings::default(), AnisotropySettings { enabled: false, max: Float { bits: 0 } });
    assert_eq!(
        context.take_calls(),
        vec![DeviceCall::CreateSampler {
            sampler: 1,
            info: SamplerCreateInfo {
                min_filter: 1,
                mag_filter: 1,
                address_mode_u: 0,
                address_mode_v: 0,
                border_color: 2,
                anisotropy_enable: true,
                max_anisotropy: Float { bits: 0x4180_0000 },
                mipmap_mode: 1,
            },
        }]
    );
    sampler.destroy(&mut context);
    assert_eq!(
        context.calls(),
        &vec![DeviceCall::Destroy { handle_type: HandleType::Sampler, handle: 1 }]
    );
}

fn words(list: &[u32]) -> Vec<u8> {
    list.iter().flat_map(|word| word.to_le_bytes()).collect()
}

fn compute_shader(entry_point: [u8; 8]) -> Vec<u8> {
    let name_low = u32::from_le_bytes([entry_point[0], entry_point[1], entry_point[2], entry_point[3]]);
    let name_high = u32::from_le_bytes([entry_point[4], entry_point[5], entry_point[6], entry_point[7]]);
    words(&[
        0x0723_0203,
        0x0001_0000,
        0,
        5,
        0,
        (2 << 16) | 17,
        1,
        (3 << 16) | 14,
        0,
        1,
        (5 << 16) | 15,
        5,
        1,
        name_low,
        name_high,
        (6 << 16) | 16,
        1,
        17,
        1,
        1,
        1,
        (2 << 16) | 19,
        2,
        (3 << 16) | 33,
        3,
        2,
        (5 << 16) | 54,
        2,
        1,
        0,
        3,
        (2 << 16) | 248,
        4,
        (1 << 16) | 253,
        (1 << 16) | 56,
    ])
}

fn reflect(code: &[u8]) -> Result<String, String> {
    match spirv_reflect::create_shader_module(code) {
        Ok(module) => Ok(module.get_entry_point_name()),
        Err(refusal) => Err(String::from(refusal)),
    }
}

#[test]
fn shader_module_knows_its_entry_point() {
    let mut context = new_context();
    let code = compute_shader(*b"main\0\0\0\0");
    let module = ShaderModule::new(&mut context, &code, reflect(&code)).expect("module");
    assert_eq!(module.entry_point(), "main");
    assert_eq!(context.take_calls(), vec![DeviceCall::CreateShaderModule { module: 1, code: code.clone() }]);
    let other_code = compute_shader(*b"shade\0\0\0");
    let other = ShaderModule::new(&mut context, &other_code, reflect(&other_code)).expect("module");
    assert_eq!(other.entry_point(), "shade");
    let given = ShaderModule::from_reflection(&mut context, &code, Ok(String::from("given"))).expect("module");
    assert_eq!(given.entry_point(), "given");
}

#[test]
fn shader_code_is_whole_words_that_reflection_accepts() {
    let mut context = new_context();
    let odd = ShaderModule::new(&mut context, &[1, 2, 3], Ok(String::from("main"))).err().expect("odd length");
    assert_eq!(odd.kind(), ErrorKind::OutOfRange);
    assert_eq!(odd.description(), "Shader source length is not a multiple of 4");
    let garbage = ShaderModule::new(&mut context, &[0u8; 16], Err(String::from("no SPIR-V")))
        .err()
        .expect("refused by reflection");
    assert_eq!(garbage.kind(), ErrorKind::General);
    assert_eq!(garbage.description(), "no SPIR-V");
    let refused = ShaderModule::from_reflection(&mut context, &[0u8; 8], Err(String::from("no")));
    assert_eq!(refused.err().expect("refused").description(), "no");
    let long = vec![0u8; MAX_SHADER_SIZE + 3];
    assert_eq!(ShaderModule::code_of(&long).len(), MAX_SHADER_SIZE);
    assert_eq!(ShaderModule::code_of(&[1, 2, 3]), &[1, 2, 3]);
    let cut = ShaderModule::new(&mut context, &long, Ok(String::from("main"))).expect("cut to the greatest size");
    assert_eq!(cut.entry_point(), "main");
    assert_eq!(
        context.take_calls(),
        vec![DeviceCall::CreateShaderModule { module: 1, code: vec![0u8; MAX_SHADER_SIZE] }]
    );
    context.try_borrow_mut().expect("exclusive");
    let borrowed = ShaderModule::new(&mut context, &[0u8; 8], Ok(String::from("main"))).err().expect("borrowed");
    assert_eq!(borrowed.kind(), ErrorKind::BorrowConflict);
}

fn set_up_families(context: &mut Context) -> QueueFamilyCollection {
    let reported = vec![QueueFamilyProperties { queue_flags: 0x7, queue_count: 1, supports_present: true }];
    let mut families = QueueFamilyCollection::new(&reported).expect("families");
    families.setup(context).expect("setup");
    context.take_calls();
    families
}

#[test]
fn image_is_loaded_through_a_staging_buffer() {
    let mut context = new_context();
    let mut families = set_up_families(&mut context);
    let extent = Extent2D { width: 2, height: 1 };
    let image = Image2D::new(&mut context, extent, 0x6, &[], None, None, None, requirements(8, 1))
        .expect("image")
        .with_name(&mut context, "tex")
        .expect("named");
    context.take_calls();
    let next = u64::MAX - context.remaining_handles();
    let texels = [1u8, 2, 3, 4, 5, 6, 7, 8];
    load_compressed_image(&image, &mut context, &mut families, &texels, 0x80, 5, 0x20, requirements(8, 0x2))
        .expect("loaded");
    let calls = context.take_calls();
    let queue = families
        .graphics()
        .queue_of_priority(fennec::vm::graphicsengine::priority::Priority::highest())
        .expect("queue")
        .handle();
    let pool = families.graphics().command_pools().expect("pools").transient().handle();
    let (buffer, memory, commands) = (next, next + 1, next + 2);
    let barrier = |old_layout: i32, new_layout: i32, src: u32, dst: u32| ImageMemoryBarrier {
        src_access_mask: src,
        dst_access_mask: dst,
        old_layout,
        new_layout,
        src_queue_family_index: 0,
        dst_queue_family_index: 0,
        image: image.handle(),
        subresource_range: image.range_color_basic(),
    };
    assert_eq!(
        calls,
        vec![
            DeviceCall::CreateBuffer {
                buffer,
                flags: 0,
                size: 8,
                usage: 0x1,
                sharing_mode: 0,
                queue_family_indices: vec![],
            },
            DeviceCall::AllocateMemory { memory, size: 8, memory_type_index: 1 },
            DeviceCall::BindBufferMemory { buffer, memory, offset: 0 },
            DeviceCall::MapMemory { memory, offset: 0, size: 8 },
            DeviceCall::WriteMemory { memory, offset: 0, bytes: texels.to_vec() },
            DeviceCall::UnmapMemory { memory },
            name(HandleType::Buffer, buffer, "Image::load_compressed_image::staging_buffer(tex)"),
            name(HandleType::DeviceMemory, memory, "Image::load_compressed_image::staging_buffer(tex).memory"),
            DeviceCall::AllocateCommandBuffers { pool, first: commands, count: 1 },
            DeviceCall::BeginCommandBuffer { command_buffer: commands, flags: 1 },
            DeviceCall::CmdPipelineBarrier {
                command_buffer: commands,
                src_stage: 0x1,
                dst_stage: 0x1000,
                dependency_flags: 0,
                memory_barriers: vec![],
                buffer_memory_barriers: vec![],
                image_memory_barriers: vec![barrier(0, 7, 0, 0x1000)],
            },
            DeviceCall::CmdCopyBufferToImage {
                command_buffer: commands,
                source: buffer,
                destination: image.handle(),
                destination_layout: 7,
                regions: vec![Buffer::copy_to_image(0, &image, 1, 0)],
            },
            DeviceCall::CmdPipelineBarrier {
                command_buffer: commands,
                src_stage: 0x1000,
                dst_stage: 0x80,
                dependency_flags: 0,
                memory_barriers: vec![],
                buffer_memory_barriers: vec![],
                image_memory_barriers: vec![barrier(7, 5, 0x1000, 0x20)],
            },
            DeviceCall::EndCommandBuffer { command_buffer: commands },
            DeviceCall::QueueSubmit {
                queue,
                command_buffers: vec![commands],
                wait_semaphores: vec![],
                signal_semaphores: vec![],
                fence: 0,
            },
            DeviceCall::QueueWaitIdle { queue },
            DeviceCall::FreeCommandBuffers { pool, command_buffers: vec![commands] },
            DeviceCall::Destroy { handle_type: HandleType::Buffer, handle: buffer },
            DeviceCall::Destroy { handle_type: HandleType::DeviceMemory, handle: memory },
        ]
    );
    let refused = load_compressed_image(&image, &mut context, &mut families, &texels, 0x80, 5, 0x20, requirements(4, 0x2))
        .expect_err("does not fit");
    assert_eq!(refused.kind(), ErrorKind::OutOfRange);
    assert!(context.calls().is_empty());
    let reported = vec![QueueFamilyProperties { queue_flags: 0x7, queue_count: 1, supports_present: true }];
    let mut not_set_up = QueueFamilyCollection::new(&reported).expect("families");
    let refused =
        load_compressed_image(&image, &mut context, &mut not_set_up, &texels, 0x80, 5, 0x20, requirements(8, 0x2))
            .expect_err("not set up");
    assert_eq!(refused.kind(), ErrorKind::IllegalState);
    assert_eq!(refused.description(), "The graphics queue family is not set up");
}

fn support() -> SurfaceSupport {
    SurfaceSupport {
        formats: vec![SurfaceFormat { format: 44, color_space: 3 }, SurfaceFormat { format: 44, color_space: 0 }],
        capabilities: SurfaceCapabilities {
            min_image_count: 2,
            max_image_count: 3,
            current_extent: Extent2D { width: 64, height: 48 },
            current_transform: 1,
        },
        present_modes: vec![0, 2],
        client_size_pixels: None,
    }
}

#[test]
fn swapchain_images_are_fetched_and_named_once() {
    let mut context = new_context();
    let mut swapchain = Swapchain::new(&mut context, &support()).expect("swapchain");
    match &context.calls()[0] {
        DeviceCall::CreateSwapchain { info, .. } => {
            assert_eq!((info.image_format, info.image_color_space), (44, 0));
            assert_eq!(info.min_image_count, 2);
            assert_eq!(info.present_mode, 0);
            assert_eq!(info.image_sharing_mode, 0);
        }
        other => panic!("not a swapchain: {:?}", other),
    }
    context.take_calls();
    swapchain.fetch_images(&mut context, 2).expect("images");
    assert_eq!(
        context.take_calls(),
        vec![
            DeviceCall::GetSwapchainImages { swapchain: 1, first: 2, count: 2 },
            name(HandleType::Image, 2, "Swapchain.0"),
            name(HandleType::Image, 3, "Swapchain.1"),
        ]
    );
    assert_eq!(swapchain.images().len(), 2);
    assert_eq!(swapchain.images()[1].name(), "Swapchain.1");
    assert_eq!(swapchain.images()[1].format(), 44);
    assert_eq!(swapchain.images()[1].extent(), Extent3D { width: 64, height: 48, depth: 1 });
    assert!(swapchain.images()[0].memory().is_none());
    let view = swapchain.images()[0]
        .image_view(&mut context, &swapchain.images()[0].range_color_basic(), None)
        .expect("view");
    assert_eq!(view.name(), "View into Swapchain.0");
    context.take_calls();
    let twice = swapchain.fetch_images(&mut context, 2).expect_err("fetched already");
    assert_eq!(twice.kind(), ErrorKind::IllegalState);
    swapchain.set_name(&mut context, "GraphicsEngine::swapchain").expect("named");
    assert_eq!(
        context.take_calls(),
        vec![
            name(HandleType::Swapchain, 1, "GraphicsEngine::swapchain"),
            name(HandleType::Image, 2, "GraphicsEngine::swapchain.0"),
            name(HandleType::Image, 3, "GraphicsEngine::swapchain.1"),
        ]
    );
    swapchain.destroy(&mut context);
    assert_eq!(
        context.calls(),
        &vec![DeviceCall::Destroy { handle_type: HandleType::Swapchain, handle: 1 }]
    );
}

#[test]
fn transition_is_recorded_for_every_image() {
    let mut context = new_context();
    let mut families = set_up_families(&mut context);
    let mut swapchain = Swapchain::new(&mut context, &support()).expect("swapchain");
    swapchain.fetch_images(&mut context, 2).expect("images");
    context.take_calls();
    let first = u64::MAX - context.remaining_handles();
    let transitioner = PresentTransitioner::new(&mut context, &mut families, &swapchain, (0x400, 2, 0x100));
    transitioner.expect("transitioner");
    let calls = context.take_calls();
    let pool = families.graphics().command_pools().expect("pools").long_term().handle();
    let images: Vec<u64> = swapchain.images().iter().map(|image| image.handle()).collect();
    let recorded = |commands: u64, image: u64| {
        vec![
            DeviceCall::BeginCommandBuffer { command_buffer: commands, flags: 4 },
            DeviceCall::CmdPipelineBarrier {
                command_buffer: commands,
                src_stage: 0x400,
                dst_stage: 0x2000,
                dependency_flags: 0,
                memory_barriers: vec![],
                buffer_memory_barriers: vec![],
                image_memory_barriers: vec![ImageMemoryBarrier {
                    src_access_mask: 0x100,
                    dst_access_mask: 0x8000,
                    old_layout: 2,
                    new_layout: 1000001002,
                    src_queue_family_index: 0,
                    dst_queue_family_index: 0,
                    image,
                    subresource_range: ImageSubresourceRange {
                        aspect_mask: 1,
                        base_mip_level: 0,
                        level_count: 1,
                        base_array_layer: 0,
                        layer_count: 1,
                    },
                }],
            },
            DeviceCall::EndCommandBuffer { command_buffer: commands },
        ]
    };
    let mut expected = vec![DeviceCall::AllocateCommandBuffers { pool, first, count: 2 }];
    expected.extend(recorded(first, images[0]));
    expected.extend(recorded(first + 1, images[1]));
    expected.push(DeviceCall::CreateSemaphore { semaphore: first + 2 });
    assert_eq!(calls, expected);
    let reported = vec![QueueFamilyProperties { queue_flags: 0x7, queue_count: 1, supports_present: true }];
    let mut not_set_up = QueueFamilyCollection::new(&reported).expect("families");
    let refused = PresentTransitioner::new(&mut context, &mut not_set_up, &swapchain, (0x400, 2, 0x100));
    assert_eq!(refused.err().expect("not set up").kind(), ErrorKind::IllegalState);
}

#[test]
fn buffer_takes_what_was_read() {
    let mut context = new_context();
    let start = u64::MAX - context.remaining_handles();
    let buffer =
        Buffer::from_read(&mut context, &[9, 8, 7, 6], 3, 0x1, None, None, requirements(8, 0x6)).expect("buffer");
    assert_eq!(buffer.size(), 3);
    let calls = context.take_calls();
    let written: Vec<&DeviceCall> =
        calls.iter().filter(|call| matches!(call, DeviceCall::WriteMemory { .. })).collect();
    assert_eq!(written.len(), 1);
    match written[0] {
        DeviceCall::WriteMemory { memory, offset, bytes } => {
            assert_eq!(*memory, start + 1);
            assert_eq!(*offset, 0);
            assert_eq!(bytes, &vec![9, 8, 7]);
        }
        _ => unreachable!(),
    }
}

#[test]
fn buffer_of_a_short_read_keeps_its_length() {
    let mut context = new_context();
    let buffer =
        Buffer::from_read(&mut context, &[5, 4], 6, 0x1, None, None, requirements(8, 0x6)).expect("buffer");
    assert_eq!(buffer.size(), 6);
    let calls = context.take_calls();
    let bytes: Vec<Vec<u8>> = calls
        .into_iter()
        .filter_map(|call| match call {
            DeviceCall::WriteMemory { bytes, .. } => Some(bytes),
            _ => None,
        })
        .collect();
    assert_eq!(bytes, vec![vec![5, 4]]);
}
