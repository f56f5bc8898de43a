use fennec::error::ErrorKind;
use fennec::vm::graphicsengine::device::ColorBlendAttachment;
use fennec::vm::graphicsengine::device::DeviceCall;
use fennec::vm::graphicsengine::device::Extent2D;
use fennec::vm::graphicsengine::device::Float;
use fennec::vm::graphicsengine::device::MemoryType;
use fennec::vm::graphicsengine::device::Offset2D;
use fennec::vm::graphicsengine::device::Rect2D;
use fennec::vm::graphicsengine::device::ShaderStage;
use fennec::vm::graphicsengine::device::StencilOpState;
use fennec::vm::graphicsengine::device::VertexInputAttributeDescription;
use fennec::vm::graphicsengine::device::VertexInputBindingDescription;
use fennec::vm::graphicsengine::device::ViewportDescription;
use fennec::vm::graphicsengine::pipeline::AdvancedGraphicsPipelineSettings;
use fennec::vm::graphicsengine::pipeline::AttributeFormat;
use fennec::vm::graphicsengine::pipeline::BlendState;
use fennec::vm::graphicsengine::pipeline::CullingState;
use fennec::vm::graphicsengine::pipeline::DepthBias;
use fennec::vm::graphicsengine::pipeline::DepthState;
use fennec::vm::graphicsengine::pipeline::GraphicsPipeline;
use fennec::vm::graphicsengine::pipeline::GraphicsStates;
use fennec::vm::graphicsengine::pipeline::Pipeline;
use fennec::vm::graphicsengine::pipeline::PipelineLayout;
use fennec::vm::graphicsengine::pipeline::VertexInputAttribute;
use fennec::vm::graphicsengine::pipeline::VertexInputBinding;
use fennec::vm::graphicsengine::pipeline::Viewport;
use fennec::vm::graphicsengine::renderpass::RenderPass;
use fennec::vm::graphicsengine::vkobject::HandleType;
use fennec::vm::graphicsengine::vkobject::VKObject;
use fennec::vm::graphicsengine::Context;

fn new_context() -> Context {
    Context::new(4, vec![MemoryType { property_flags: 0x7, heap_index: 0 }])
}

fn float(value: f32) -> Float {
    Float { bits: value.to_bits() }
}

fn stencil(reference: u32) -> StencilOpState {
    StencilOpState {
        fail_op: 0,
        pass_op: 1,
        depth_fail_op: 2,
        compare_op: 3,
        compare_mask: 0xff,
        write_mask: 0xf0,
        reference,
    }
}

fn blend() -> ColorBlendAttachment {
    ColorBlendAttachment {
        blend_enable: true,
        src_color_blend_factor: 6,
        dst_color_blend_factor: 7,
        color_blend_op: 0,
        src_alpha_blend_factor: 1,
        dst_alpha_blend_factor: 0,
        alpha_blend_op: 0,
        color_write_mask: 0xf,
    }
}

fn states(cull: bool) -> GraphicsStates {
    GraphicsStates {
        culling_state: CullingState { enable: cull, front_face: 1 },
        depth_state: DepthState {
            enable_test: true,
            enable_write: false,
            compare_op: 3,
            enable_bounds_test: true,
            bounds_min: float(0.25),
            bounds_max: float(0.75),
            enable_stencil_test: true,
            stencil_front: stencil(1),
            stencil_back: stencil(2),
        },
        blend_state: BlendState {
            enable_logic_op: true,
            logic_op: 3,
            color_attachment_blend_functions: vec![blend()],
            blend_constant: (float(0.1), float(0.2), float(0.3), float(0.4)),
        },
    }
}

fn viewport(width: f32, height: f32, scissor: (u32, u32)) -> Viewport {
    Viewport {
        x: float(1.0),
        y: float(2.0),
        width: float(width),
        height: float(height),
        min_depth: float(0.0),
        max_depth: float(1.0),
        scissor_offset: Offset2D { x: 3, y: 4 },
        scissor_extent: Extent2D { width: scissor.0, height: scissor.1 },
    }
}

#[test]
fn floats_below_a_hundred_thousandth_are_vanishing() {
    assert!(float(0.0).is_vanishing());
    assert!(float(-0.0).is_vanishing());
    assert!(float(0.000009).is_vanishing());
    assert!(!float(0.00001).is_vanishing());
    assert!(!float(0.0000101).is_vanishing());
    assert!(float(-5.0).is_vanishing());
    assert!(float(f32::NEG_INFINITY).is_vanishing());
    assert!(!float(f32::INFINITY).is_vanishing());
    assert!(!float(f32::NAN).is_vanishing());
    assert!(!float(640.0).is_vanishing());
    assert!(float(f32::MIN_POSITIVE).is_vanishing());
    assert_eq!(Float::one(), float(1.0));
    assert_eq!(Float::zero(), float(0.0));
    for value in [0.0f32, -0.0, 1e-6, 1e-5, 9.99e-6, 1.0, -1.0, f32::NAN, f32::INFINITY, f32::MAX, f32::MIN] {
        assert_eq!(float(value).is_vanishing(), value < 0.00001, "{}", value);
    }
}

#[test]
fn attribute_formats_are_those_of_the_device() {
    let formats = [
        (AttributeFormat::Float, 100),
        (AttributeFormat::Float2, 103),
        (AttributeFormat::Float3, 106),
        (AttributeFormat::Float4, 109),
        (AttributeFormat::Double, 112),
        (AttributeFormat::Double2, 115),
        (AttributeFormat::Double3, 118),
        (AttributeFormat::Double4, 121),
        (AttributeFormat::Int, 99),
        (AttributeFormat::Int2, 102),
        (AttributeFormat::Int3, 105),
        (AttributeFormat::Int4, 108),
        (AttributeFormat::Long, 111),
        (AttributeFormat::Long2, 114),
        (AttributeFormat::Long3, 117),
        (AttributeFormat::Long4, 120),
    ];
    for (format, raw) in formats {
        assert_eq!(format.format(), raw, "{:?}", format);
    }
}

#[test]
fn pipeline_layout_lists_its_set_layouts() {
    let mut context = new_context();
    let mut layout = PipelineLayout::new(&mut context, &[7, 8]).expect("layout");
    layout.set_name(&mut context, "l").expect("named");
    assert_eq!(layout.name(), "l");
    layout.destroy(&mut context);
    assert_eq!(
        context.calls(),
        &vec![
            DeviceCall::CreatePipelineLayout { layout: 1, set_layouts: vec![7, 8] },
            DeviceCall::SetObjectName {
                handle_type: HandleType::PipelineLayout,
                handle: 1,
                name: String::from("l"),
            },
            DeviceCall::Destroy { handle_type: HandleType::PipelineLayout, handle: 1 },
        ]
    );
}

#[test]
fn pipeline_numbers_its_bindings_and_keeps_their_attributes() {
    let mut context = new_context();
    let render_pass = RenderPass::new(&mut context, &[], &[]).expect("render pass");
    context.take_calls();
    let bindings = [
        VertexInputBinding {
            stride: 20,
            rate: 0,
            attributes: vec![
                VertexInputAttribute { offset: 0, shader_binding_location: 0, format: AttributeFormat::Float3 },
                VertexInputAttribute { offset: 12, shader_binding_location: 1, format: AttributeFormat::Float2 },
            ],
        },
        VertexInputBinding { stride: 4, rate: 1, attributes: Vec::new() },
        VertexInputBinding {
            stride: 8,
            rate: 1,
            attributes: vec![VertexInputAttribute {
                offset: 4,
                shader_binding_location: 2,
                format: AttributeFormat::Int,
            }],
        },
    ];
    let stages = vec![ShaderStage { stage: 1, module: 40, entry_point: String::from("main") }];
    let settings = AdvancedGraphicsPipelineSettings {
        flags: Some(2),
        enable_depth_clamp: Some(true),
        disable_rasterization: Some(true),
        depth_bias: Some(DepthBias {
            enable: true,
            constant_factor: float(1.5),
            clamp: float(2.5),
            slope_factor: float(3.5),
        }),
        line_width: Some(float(2.0)),
        sample_count: Some(8),
        dynamic_states: Some(vec![0, 1]),
    };
    let viewports = [viewport(640.0, 480.0, (640, 480)), viewport(1.0, 1.0, (1, 1))];
    let pipeline = GraphicsPipeline::new(
        &mut context,
        &render_pass,
        2,
        &[9],
        &bindings,
        1,
        stages,
        &viewports,
        &states(true),
        Some(settings),
    )
    .expect("pipeline");
    assert_eq!(pipeline.handle(), 3);
    assert_eq!(pipeline.layout().handle(), 2);
    assert_eq!(pipeline.pipeline_handle().handle(), 3);
    let calls = context.take_calls();
    assert_eq!(calls[0], DeviceCall::CreatePipelineLayout { layout: 2, set_layouts: vec![9] });
    match &calls[1] {
        DeviceCall::CreateGraphicsPipeline {
            pipeline,
            info,
            stages,
            vertex_bindings,
            vertex_attributes,
            viewports,
            scissors,
            blend_attachments,
            dynamic_states,
        } => {
            assert_eq!(*pipeline, 3);
            assert_eq!((info.render_pass, info.subpass, info.layout), (1, 2, 2));
            assert_eq!((info.flags, info.topology, info.polygon_mode), (2, 1, 1));
            assert!(info.depth_clamp_enable && info.rasterizer_discard_enable && info.depth_bias_enable);
            assert_eq!((info.cull_mode, info.front_face), (2, 1));
            assert_eq!(info.depth_bias_constant_factor, float(1.5));
            assert_eq!(info.depth_bias_clamp, float(2.5));
            assert_eq!(info.depth_bias_slope_factor, float(3.5));
            assert_eq!(info.line_width, float(2.0));
            assert_eq!(info.rasterization_samples, 1);
            assert!(info.depth_test_enable && !info.depth_write_enable && info.depth_bounds_test_enable);
            assert_eq!(info.depth_compare_op, 3);
            assert!(info.stencil_test_enable && info.logic_op_enable);
            assert_eq!((info.stencil_front, info.stencil_back), (stencil(1), stencil(2)));
            assert_eq!((info.min_depth_bounds, info.max_depth_bounds), (float(0.25), float(0.75)));
            assert_eq!(info.logic_op, 3);
            assert_eq!(info.blend_constants, [float(0.1), float(0.2), float(0.3), float(0.4)]);
            assert_eq!(stages, &vec![ShaderStage { stage: 1, module: 40, entry_point: String::from("main") }]);
            assert_eq!(
                vertex_bindings,
                &vec![
                    VertexInputBindingDescription { binding: 0, stride: 20, input_rate: 0 },
                    VertexInputBindingDescription { binding: 1, stride: 4, input_rate: 1 },
                    VertexInputBindingDescription { binding: 2, stride: 8, input_rate: 1 },
                ]
            );
            assert_eq!(
                vertex_attributes,
                &vec![
                    VertexInputAttributeDescription { location: 0, binding: 0, format: 106, offset: 0 },
                    VertexInputAttributeDescription { location: 1, binding: 0, format: 103, offset: 12 },
                    VertexInputAttributeDescription { location: 2, binding: 2, format: 99, offset: 4 },
                ]
            );
            assert_eq!(
                viewports[0],
                ViewportDescription {
                    x: float(1.0),
                    y: float(2.0),
                    width: float(640.0),
                    height: float(480.0),
                    min_depth: float(0.0),
                    max_depth: float(1.0),
                }
            );
            assert_eq!(viewports.len(), 2);
            assert_eq!(
                scissors,
                &vec![
                    Rect2D { offset: Offset2D { x: 3, y: 4 }, extent: Extent2D { width: 640, height: 480 } },
                    Rect2D { offset: Offset2D { x: 3, y: 4 }, extent: Extent2D { width: 1, height: 1 } },
                ]
            );
            assert_eq!(blend_attachments, &vec![blend()]);
            assert_eq!(dynamic_states, &vec![0, 1]);
        }
        other => panic!("not a pipeline: {:?}", other),
    }
    let pipeline = pipeline.with_name(&mut context, "sprites").expect("named");
    assert_eq!((pipeline.name(), pipeline.layout().name()), ("sprites", "sprites.layout"));
    context.take_calls();
    pipeline.destroy(&mut context);
    assert_eq!(
        context.calls(),
        &vec![
            DeviceCall::Destroy { handle_type: HandleType::Pipeline, handle: 3 },
            DeviceCall::Destroy { handle_type: HandleType::PipelineLayout, handle: 2 },
        ]
    );
}

fn polygon_mode(topology: i32, cull: bool) -> (i32, u32, Float, u32) {
    let mut context = new_context();
    let render_pass = RenderPass::new(&mut context, &[], &[]).expect("render pass");
    GraphicsPipeline::new(&mut context, &render_pass, 0, &[], &[], topology, Vec::new(), &[], &states(cull), None)
        .expect("pipeline");
    match context.calls().last() {
        Some(DeviceCall::CreateGraphicsPipeline { info, .. }) => {
            assert!(!info.depth_clamp_enable && !info.rasterizer_discard_enable && !info.depth_bias_enable);
            (info.polygon_mode, info.cull_mode, info.line_width, info.flags)
        }
        other => panic!("not a pipeline: {:?}", other),
    }
}

#[test]
fn polygon_mode_follows_the_topology() {
    assert_eq!(polygon_mode(0, false), (2, 0, float(1.0), 0));
    for lines in [1, 2, 6, 7] {
        assert_eq!(polygon_mode(lines, true).0, 1);
    }
    for filled in [3, 4, 5, 8, 9, 10] {
        assert_eq!(polygon_mode(filled, true), (0, 2, float(1.0), 0));
    }
    assert_eq!(DepthBias::default().enable, false);
}

#[test]
fn viewports_and_scissors_need_a_size() {
    let cases = [
        (vec![viewport(0.0, 4.0, (1, 1))], "Viewport 0 has an invalid width; must be greater than 0"),
        (vec![viewport(4.0, -1.0, (1, 1))], "Viewport 0 has an invalid height; must be greater than 0"),
        (
            vec![viewport(4.0, 4.0, (0, 1)), viewport(0.0, 4.0, (1, 1))],
            "Viewport 1 has an invalid width; must be greater than 0",
        ),
        (
            vec![viewport(4.0, 4.0, (1, 1)), viewport(4.0, 4.0, (0, 0))],
            "Viewport 1's scissor has an invalid width; must be greater than 0",
        ),
        (vec![viewport(4.0, 4.0, (1, 0))], "Viewport 0's scissor has an invalid height; must be greater than 0"),
    ];
    for (viewports, description) in cases {
        let mut context = new_context();
        let render_pass = RenderPass::new(&mut context, &[], &[]).expect("render pass");
        context.take_calls();
        let refused = GraphicsPipeline::new(
            &mut context,
            &render_pass,
            0,
            &[],
            &[],
            3,
            Vec::new(),
            &viewports,
            &states(false),
            None,
        )
        .err()
        .expect("no size");
        assert_eq!(refused.kind(), ErrorKind::OutOfRange);
        assert_eq!(refused.description(), description);
        assert_eq!(
            context.calls(),
            &vec![
                DeviceCall::CreatePipelineLayout { layout: 2, set_layouts: vec![] },
                DeviceCall::Destroy { handle_type: HandleType::PipelineLayout, handle: 2 },
            ]
        );
    }
}
