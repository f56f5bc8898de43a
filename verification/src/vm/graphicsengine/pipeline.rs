//! Graphics pipelines and their layouts.

use crate::error::out_of_range;
use crate::error::ErrorKind;
use crate::error::ErrorView;
use crate::error::FennecError;
use crate::text::decimal;
use crate::text::decimal_digits;
use crate::text::join;
use crate::vm::graphicsengine::device::ColorBlendAttachment;
use crate::vm::graphicsengine::device::DeviceCall;
use crate::vm::graphicsengine::device::DeviceCallView;
use crate::vm::graphicsengine::device::Extent2D;
use crate::vm::graphicsengine::device::Float;
use crate::vm::graphicsengine::device::GraphicsPipelineCreateInfo;
use crate::vm::graphicsengine::device::Offset2D;
use crate::vm::graphicsengine::device::Rect2D;
use crate::vm::graphicsengine::device::ShaderStage;
use crate::vm::graphicsengine::device::StencilOpState;
use crate::vm::graphicsengine::device::VertexInputAttributeDescription;
use crate::vm::graphicsengine::device::VertexInputBindingDescription;
use crate::vm::graphicsengine::device::ViewportDescription;
use crate::vm::graphicsengine::renderpass::RenderPass;
use crate::vm::graphicsengine::vk;
use crate::vm::graphicsengine::vkobject::unnamed;
use crate::vm::graphicsengine::vkobject::HandleType;
use crate::vm::graphicsengine::vkobject::naming_error;
use crate::vm::graphicsengine::vkobject::lemma_naming_error_of_longer_name;
use crate::vm::graphicsengine::vkobject::VKHandle;
use crate::vm::graphicsengine::vkobject::VKHandleView;
use crate::vm::graphicsengine::vkobject::VKObject;
use crate::vm::graphicsengine::Context;
use crate::vm::graphicsengine::ContextView;
use vstd::prelude::*;
use vstd::slice::slice_to_vec;

verus! {

/// The layout of a pipeline: the descriptor set layouts its shaders read
/// through.
#[derive(Debug)]
pub struct PipelineLayout {
    layout: VKHandle,
}

impl View for PipelineLayout {
    type V = VKHandleView;

    closed spec fn view(&self) -> VKHandleView {
        self.layout@
    }
}

impl VKObject for PipelineLayout {
    open spec fn wrapped(&self) -> VKHandleView {
        self@
    }

    fn wrapped_handle(&self) -> (wrapped: &VKHandle) {
        &self.layout
    }
}

/// The mathematical value of a [`GraphicsPipeline`].
pub struct GraphicsPipelineView {
    pub pipeline: VKHandleView,
    pub layout: VKHandleView,
}

/// A graphics pipeline.
#[derive(Debug)]
pub struct GraphicsPipeline {
    pipeline: VKHandle,
    layout: PipelineLayout,
}

impl View for GraphicsPipeline {
    type V = GraphicsPipelineView;

    closed spec fn view(&self) -> GraphicsPipelineView {
        GraphicsPipelineView { pipeline: self.pipeline@, layout: self.layout@ }
    }
}

impl VKObject for GraphicsPipeline {
    open spec fn wrapped(&self) -> VKHandleView {
        self@.pipeline
    }

    fn wrapped_handle(&self) -> (wrapped: &VKHandle) {
        &self.pipeline
    }
}

/// What every pipeline offers.
pub trait Pipeline {
    /// The value of the pipeline's own handle.
    spec fn pipeline_view(&self) -> VKHandleView;

    /// The value of the pipeline's layout.
    spec fn layout_view(&self) -> VKHandleView;

    /// The handle of the pipeline.
    fn pipeline_handle(&self) -> (handle: &VKHandle)
        ensures
            handle@ == self.pipeline_view(),
    ;

    /// The layout of the pipeline.
    fn layout(&self) -> (layout: &PipelineLayout)
        ensures
            layout@ == self.layout_view(),
    ;
}

impl Pipeline for GraphicsPipeline {
    open spec fn pipeline_view(&self) -> VKHandleView {
        self@.pipeline
    }

    open spec fn layout_view(&self) -> VKHandleView {
        self@.layout
    }

    fn pipeline_handle(&self) -> (handle: &VKHandle) {
        &self.pipeline
    }

    fn layout(&self) -> (layout: &PipelineLayout) {
        &self.layout
    }
}

impl PipelineLayout {
    /// Creates the layout of a pipeline whose shaders read through the
    /// descriptor set layouts `set_layouts`.
    pub fn new(context: &mut Context, set_layouts: &[u64]) -> (result: Result<Self, FennecError>)
        requires
            old(context)@.can_create(1),
        ensures
            match result {
                Ok(layout) => old(context)@.readable() && layout@ == (VKHandleView {
                    context: old(context)@.id,
                    handle_type: HandleType::PipelineLayout,
                    handle: old(context)@.next_handle,
                    protected: false,
                    name: unnamed(),
                }) && final(context)@ == old(context)@.create(1).issue(
                    DeviceCallView::CreatePipelineLayout {
                        layout: old(context)@.next_handle,
                        set_layouts: set_layouts@,
                    },
                ),
                Err(error) => !old(context)@.readable() && error@ == old(context)@.borrow_error()
                    && final(context)@ == old(context)@,
            },
    {
        context.check_readable()?;
        let layout = context.create_handle();
        context.issue(
            DeviceCall::CreatePipelineLayout { layout, set_layouts: slice_to_vec(set_layouts) },
        );
        Ok(Self { layout: VKHandle::new(context, HandleType::PipelineLayout, layout, false) })
    }

    /// Names the layout, here and on the device.
    pub fn set_name(&mut self, context: &mut Context, name: &str) -> (result: Result<
        (),
        FennecError,
    >)
        ensures
            final(self)@ == (VKHandleView { name: name@, ..old(self)@ }),
            match result {
                Ok(()) => naming_error(old(context)@, name@) is None && final(context)@ == old(context)@.issue(
                    VKHandle::naming(old(self)@, name@),
                ),
                Err(error) => naming_error(old(context)@, name@) == Some(error@)
                    && final(context)@ == old(context)@,
            },
    {
        self.layout.annotate(context, name)
    }

    /// Ends the life of the layout: it is destroyed unless it is protected.
    pub fn destroy(self, context: &mut Context)
        requires
            !self@.protected && self@.handle_type.spec_has_destroy_call() ==> old(context)@.readable(),
        ensures
            final(context)@ == VKHandle::released(self@, old(context)@),
    {
        self.layout.release(context)
    }
}

/// The format of an attribute of a vertex.
#[derive(Clone, Copy, Debug, PartialEq, Eq, Structural)]
pub enum AttributeFormat {
    Float,
    Float2,
    Float3,
    Float4,
    Double,
    Double2,
    Double3,
    Double4,
    Int,
    Int2,
    Int3,
    Int4,
    Long,
    Long2,
    Long3,
    Long4,
}

impl AttributeFormat {
    /// The format as the device knows it.
    pub open spec fn spec_format(self) -> i32 {
        match self {
            AttributeFormat::Float => vk::FORMAT_R32_SFLOAT,
            AttributeFormat::Float2 => vk::FORMAT_R32G32_SFLOAT,
            AttributeFormat::Float3 => vk::FORMAT_R32G32B32_SFLOAT,
            AttributeFormat::Float4 => vk::FORMAT_R32G32B32A32_SFLOAT,
            AttributeFormat::Double => vk::FORMAT_R64_SFLOAT,
            AttributeFormat::Double2 => vk::FORMAT_R64G64_SFLOAT,
            AttributeFormat::Double3 => vk::FORMAT_R64G64B64_SFLOAT,
            AttributeFormat::Double4 => vk::FORMAT_R64G64B64A64_SFLOAT,
            AttributeFormat::Int => vk::FORMAT_R32_SINT,
            AttributeFormat::Int2 => vk::FORMAT_R32G32_SINT,
            AttributeFormat::Int3 => vk::FORMAT_R32G32B32_SINT,
            AttributeFormat::Int4 => vk::FORMAT_R32G32B32A32_SINT,
            AttributeFormat::Long => vk::FORMAT_R64_SINT,
            AttributeFormat::Long2 => vk::FORMAT_R64G64_SINT,
            AttributeFormat::Long3 => vk::FORMAT_R64G64B64_SINT,
            AttributeFormat::Long4 => vk::FORMAT_R64G64B64A64_SINT,
        }
    }

    /// The format as the device knows it.
    #[verifier::when_used_as_spec(spec_format)]
    pub fn format(self) -> (format: i32)
        ensures
            format == self.spec_format(),
    {
        match self {
            AttributeFormat::Float => vk::format_r32_sfloat(),
            AttributeFormat::Float2 => vk::format_r32g32_sfloat(),
            AttributeFormat::Float3 => vk::format_r32g32b32_sfloat(),
            AttributeFormat::Float4 => vk::format_r32g32b32a32_sfloat(),
            AttributeFormat::Double => vk::format_r64_sfloat(),
            AttributeFormat::Double2 => vk::format_r64g64_sfloat(),
            AttributeFormat::Double3 => vk::format_r64g64b64_sfloat(),
            AttributeFormat::Double4 => vk::format_r64g64b64a64_sfloat(),
            AttributeFormat::Int => vk::format_r32_sint(),
            AttributeFormat::Int2 => vk::format_r32g32_sint(),
            AttributeFormat::Int3 => vk::format_r32g32b32_sint(),
            AttributeFormat::Int4 => vk::format_r32g32b32a32_sint(),
            AttributeFormat::Long => vk::format_r64_sint(),
            AttributeFormat::Long2 => vk::format_r64g64_sint(),
            AttributeFormat::Long3 => vk::format_r64g64b64_sint(),
            AttributeFormat::Long4 => vk::format_r64g64b64a64_sint(),
        }
    }
}

/// An attribute of the vertices of a binding.
#[derive(Clone, Copy, Debug)]
pub struct VertexInputAttribute {
    /// Where the attribute starts in a vertex, in bytes.
    pub offset: u32,
    /// The location that the shader knows the attribute by.
    pub shader_binding_location: u32,
    /// The format of the attribute.
    pub format: AttributeFormat,
}

/// A binding that vertices are read from, with the attributes of a vertex.
#[derive(Debug)]
pub struct VertexInputBinding {
    /// The distance from one vertex to the next, in bytes.
    pub stride: u32,
    /// Whether the binding moves on with each vertex or with each instance.
    pub rate: i32,
    /// The attributes of a vertex.
    pub attributes: Vec<VertexInputAttribute>,
}

/// The part of the framebuffer that is drawn to, the range of depths, and
/// the rectangle outside of which nothing is drawn.
#[derive(Clone, Copy, Debug)]
pub struct Viewport {
    pub x: Float,
    pub y: Float,
    pub width: Float,
    pub height: Float,
    pub min_depth: Float,
    pub max_depth: Float,
    pub scissor_offset: Offset2D,
    pub scissor_extent: Extent2D,
}

/// Whether faces that look away are left out, and which faces look away.
#[derive(Clone, Copy, Debug)]
pub struct CullingState {
    pub enable: bool,
    pub front_face: i32,
}

/// How depths and stencil values are tested and written.
#[derive(Clone, Copy, Debug)]
pub struct DepthState {
    pub enable_test: bool,
    pub enable_write: bool,
    /// The comparison of the depth of a fragment with the depth that is
    /// there already.
    pub compare_op: i32,
    pub enable_bounds_test: bool,
    pub bounds_min: Float,
    pub bounds_max: Float,
    pub enable_stencil_test: bool,
    pub stencil_front: StencilOpState,
    pub stencil_back: StencilOpState,
}

/// How colors are blended.
#[derive(Debug)]
pub struct BlendState {
    pub enable_logic_op: bool,
    pub logic_op: i32,
    /// The blending for each color attachment of the subpass.
    pub color_attachment_blend_functions: Vec<ColorBlendAttachment>,
    /// The constant color of the blending.
    pub blend_constant: (Float, Float, Float, Float),
}

/// The states of a graphics pipeline.
#[derive(Debug)]
pub struct GraphicsStates {
    pub culling_state: CullingState,
    pub depth_state: DepthState,
    pub blend_state: BlendState,
}

/// How depths are moved before they are tested.
#[derive(Clone, Copy, Debug)]
pub struct DepthBias {
    pub enable: bool,
    pub constant_factor: Float,
    pub clamp: Float,
    pub slope_factor: Float,
}

impl Default for DepthBias {
    fn default() -> (bias: Self)
        ensures
            bias == DepthBias::none(),
    {
        DepthBias {
            enable: false,
            constant_factor: Float::zero(),
            clamp: Float::zero(),
            slope_factor: Float::zero(),
        }
    }
}

impl DepthBias {
    /// No bias.
    pub open spec fn none() -> DepthBias {
        DepthBias {
            enable: false,
            constant_factor: Float::spec_zero(),
            clamp: Float::spec_zero(),
            slope_factor: Float::spec_zero(),
        }
    }
}

/// Settings of a graphics pipeline that are rarely changed. A setting that
/// is left out takes its usual value.
#[derive(Debug)]
pub struct AdvancedGraphicsPipelineSettings {
    /// Creation flags (usually none).
    pub flags: Option<u32>,
    /// Whether depths are clamped (usually not).
    pub enable_depth_clamp: Option<bool>,
    /// Whether nothing is rasterized (usually not).
    pub disable_rasterization: Option<bool>,
    /// The bias of depths (usually none).
    pub depth_bias: Option<DepthBias>,
    /// The width of lines (usually one).
    pub line_width: Option<Float>,
    /// The number of samples (one, whatever is asked for).
    pub sample_count: Option<u32>,
    /// The states that commands can change.
    pub dynamic_states: Option<Vec<i32>>,
}

/// The bindings of a pipeline as the device takes them: each with its
/// place in the list as its number.
pub open spec fn binding_descriptions(bindings: Seq<VertexInputBinding>) -> Seq<
    VertexInputBindingDescription,
> {
    Seq::new(
        bindings.len(),
        |i: int|
            VertexInputBindingDescription {
                binding: i as u32,
                stride: bindings[i].stride,
                input_rate: bindings[i].rate,
            },
    )
}

/// The attributes of the binding with the number `binding`, as the device
/// takes them.
pub open spec fn binding_attributes(binding: VertexInputBinding, number: u32) -> Seq<
    VertexInputAttributeDescription,
> {
    Seq::new(
        binding.attributes@.len(),
        |k: int|
            VertexInputAttributeDescription {
                location: binding.attributes@[k].shader_binding_location,
                binding: number,
                format: binding.attributes@[k].format.spec_format(),
                offset: binding.attributes@[k].offset,
            },
    )
}

/// The attributes of the first `upto` bindings of a pipeline, binding by
/// binding.
pub open spec fn attribute_descriptions(bindings: Seq<VertexInputBinding>, upto: nat) -> Seq<
    VertexInputAttributeDescription,
>
    decreases upto,
{
    if upto == 0 {
        Seq::empty()
    } else {
        attribute_descriptions(bindings, (upto - 1) as nat) + binding_attributes(
            bindings[upto - 1],
            (upto - 1) as u32,
        )
    }
}

/// The viewports of a pipeline as the device takes them.
pub open spec fn viewport_descriptions(viewports: Seq<Viewport>) -> Seq<ViewportDescription> {
    Seq::new(
        viewports.len(),
        |i: int|
            ViewportDescription {
                x: viewports[i].x,
                y: viewports[i].y,
                width: viewports[i].width,
                height: viewports[i].height,
                min_depth: viewports[i].min_depth,
                max_depth: viewports[i].max_depth,
            },
    )
}

/// The scissors of the viewports of a pipeline.
pub open spec fn scissors(viewports: Seq<Viewport>) -> Seq<Rect2D> {
    Seq::new(
        viewports.len(),
        |i: int|
            Rect2D { offset: viewports[i].scissor_offset, extent: viewports[i].scissor_extent },
    )
}

/// The description of the error for a viewport or scissor without size.
pub open spec fn invalid_size(viewport: nat, what: Seq<char>) -> Seq<char> {
    "Viewport "@ + decimal_digits(viewport) + what + "; must be greater than 0"@
}

/// The error for the first of the viewports from `from` on that has no
/// width or no height, if there is one.
pub open spec fn viewport_error(viewports: Seq<Viewport>, from: int) -> Option<ErrorView>
    decreases viewports.len() - from,
{
    if from < 0 || from >= viewports.len() {
        None
    } else if viewports[from].width.spec_is_vanishing() {
        Some(out_of_range(invalid_size(from as nat, " has an invalid width"@)))
    } else if viewports[from].height.spec_is_vanishing() {
        Some(out_of_range(invalid_size(from as nat, " has an invalid height"@)))
    } else {
        viewport_error(viewports, from + 1)
    }
}

/// The error for the first of the viewports from `from` on whose scissor
/// has no width or no height, if there is one.
pub open spec fn scissor_error(viewports: Seq<Viewport>, from: int) -> Option<ErrorView>
    decreases viewports.len() - from,
{
    if from < 0 || from >= viewports.len() {
        None
    } else if viewports[from].scissor_extent.width < 1 {
        Some(out_of_range(invalid_size(from as nat, "'s scissor has an invalid width"@)))
    } else if viewports[from].scissor_extent.height < 1 {
        Some(out_of_range(invalid_size(from as nat, "'s scissor has an invalid height"@)))
    } else {
        scissor_error(viewports, from + 1)
    }
}

/// The error that the viewports of a pipeline are refused with, if they
/// are: the first viewport without size, then the first scissor without
/// size.
pub open spec fn viewports_error(viewports: Seq<Viewport>) -> Option<ErrorView> {
    if viewport_error(viewports, 0) is Some {
        viewport_error(viewports, 0)
    } else {
        scissor_error(viewports, 0)
    }
}

/// How polygons are drawn for a topology: lines as lines, points as
/// points, everything else filled.
pub open spec fn polygon_mode_of(topology: i32) -> i32 {
    if topology == vk::TOPOLOGY_LINE_LIST || topology == vk::TOPOLOGY_LINE_LIST_WITH_ADJACENCY
        || topology == vk::TOPOLOGY_LINE_STRIP || topology
        == vk::TOPOLOGY_LINE_STRIP_WITH_ADJACENCY {
        vk::POLYGON_LINE
    } else if topology == vk::TOPOLOGY_POINT_LIST {
        vk::POLYGON_POINT
    } else {
        vk::POLYGON_FILL
    }
}

fn invalid_size_error(viewport: usize, what: &str) -> (error: FennecError)
    ensures
        error@ == out_of_range(invalid_size(viewport as nat, what@)),
{
    let number = decimal(viewport as u64);
    let a = join("Viewport ", number.as_str());
    let b = join(a.as_str(), what);
    let description = join(b.as_str(), "; must be greater than 0");
    assert(description@ =~= invalid_size(viewport as nat, what@));
    FennecError::with_kind(ErrorKind::OutOfRange, description.as_str())
}

fn check_viewports(viewports: &[Viewport]) -> (result: Result<(), FennecError>)
    ensures
        match result {
            Ok(()) => viewports_error(viewports@) is None,
            Err(error) => viewports_error(viewports@) == Some(error@),
        },
{
    let mut i: usize = 0;
    while i < viewports.len()
        invariant
            i <= viewports@.len(),
            viewport_error(viewports@, 0) == viewport_error(viewports@, i as int),
        decreases viewports@.len() - i,
    {
        if viewports[i].width.is_vanishing() {
            return Err(invalid_size_error(i, " has an invalid width"));
        }
        if viewports[i].height.is_vanishing() {
            return Err(invalid_size_error(i, " has an invalid height"));
        }
        i += 1;
    }
    let mut i: usize = 0;
    while i < viewports.len()
        invariant
            i <= viewports@.len(),
            viewport_error(viewports@, 0) is None,
            scissor_error(viewports@, 0) == scissor_error(viewports@, i as int),
        decreases viewports@.len() - i,
    {
        if viewports[i].scissor_extent.width < 1 {
            return Err(invalid_size_error(i, "'s scissor has an invalid width"));
        }
        if viewports[i].scissor_extent.height < 1 {
            return Err(invalid_size_error(i, "'s scissor has an invalid height"));
        }
        i += 1;
    }
    Ok(())
}

/// The name of the layout of a pipeline called `name`.
pub open spec fn layout_name(name: Seq<char>) -> Seq<char> {
    name + ".layout"@
}

impl GraphicsPipeline {
    /// The fixed state that a pipeline is created with. What is left out
    /// of the settings takes its usual value.
    pub open spec fn create_info(
        render_pass: u64,
        subpass: u32,
        layout: u64,
        topology: i32,
        states: GraphicsStates,
        advanced_settings: Option<AdvancedGraphicsPipelineSettings>,
    ) -> GraphicsPipelineCreateInfo {
        let depth_bias = match advanced_settings {
            Some(settings) => match settings.depth_bias {
                Some(bias) => bias,
                None => DepthBias::none(),
            },
            None => DepthBias::none(),
        };
        GraphicsPipelineCreateInfo {
            flags: match advanced_settings {
                Some(settings) => match settings.flags {
                    Some(flags) => flags,
                    None => 0,
                },
                None => 0,
            },
            render_pass,
            subpass,
            layout,
            topology,
            depth_clamp_enable: advanced_settings matches Some(settings)
                && settings.enable_depth_clamp == Some(true),
            rasterizer_discard_enable: advanced_settings matches Some(settings)
                && settings.disable_rasterization == Some(true),
            polygon_mode: polygon_mode_of(topology),
            cull_mode: if states.culling_state.enable {
                vk::CULL_BACK
            } else {
                vk::CULL_NONE
            },
            front_face: states.culling_state.front_face,
            depth_bias_enable: depth_bias.enable,
            depth_bias_constant_factor: depth_bias.constant_factor,
            depth_bias_clamp: depth_bias.clamp,
            depth_bias_slope_factor: depth_bias.slope_factor,
            line_width: match advanced_settings {
                Some(settings) => match settings.line_width {
                    Some(width) => width,
                    None => Float::spec_one(),
                },
                None => Float::spec_one(),
            },
            rasterization_samples: vk::SAMPLES_ONE,
            depth_test_enable: states.depth_state.enable_test,
            depth_write_enable: states.depth_state.enable_write,
            depth_compare_op: states.depth_state.compare_op,
            depth_bounds_test_enable: states.depth_state.enable_bounds_test,
            stencil_test_enable: states.depth_state.enable_stencil_test,
            stencil_front: states.depth_state.stencil_front,
            stencil_back: states.depth_state.stencil_back,
            min_depth_bounds: states.depth_state.bounds_min,
            max_depth_bounds: states.depth_state.bounds_max,
            logic_op_enable: states.blend_state.enable_logic_op,
            logic_op: states.blend_state.logic_op,
            blend_constants: [
                states.blend_state.blend_constant.0,
                states.blend_state.blend_constant.1,
                states.blend_state.blend_constant.2,
                states.blend_state.blend_constant.3,
            ],
        }
    }

    /// The states that commands can change, as the settings list them.
    pub open spec fn dynamic_states(advanced_settings: Option<AdvancedGraphicsPipelineSettings>) -> Seq<
        i32,
    > {
        match advanced_settings {
            Some(settings) => match settings.dynamic_states {
                Some(states) => states@,
                None => Seq::empty(),
            },
            None => Seq::empty(),
        }
    }

    /// Creates a graphics pipeline for the subpass `subpass` of
    /// `render_pass`, with a layout of its own.
    ///
    /// The layout is created first. Viewports and scissors without size are
    /// refused after that; the layout is then destroyed again.
    pub fn new(
        context: &mut Context,
        render_pass: &RenderPass,
        subpass: u32,
        set_layouts: &[u64],
        vertex_input_bindings: &[VertexInputBinding],
        topology: i32,
        stages: Vec<ShaderStage>,
        viewports: &[Viewport],
        states: &GraphicsStates,
        advanced_settings: Option<AdvancedGraphicsPipelineSettings>,
    ) -> (result: Result<Self, FennecError>)
        requires
            old(context)@.can_create(2),
            vertex_input_bindings@.len() <= u32::MAX,
        ensures
            match result {
                Ok(pipeline) => {
                    &&& old(context)@.readable()
                    &&& viewports_error(viewports@) is None
                    &&& final(context)@ == old(context)@.create(2).issue(
                        DeviceCallView::CreatePipelineLayout {
                            layout: old(context)@.next_handle,
                            set_layouts: set_layouts@,
                        },
                    ).issue(
                        DeviceCallView::CreateGraphicsPipeline {
                            pipeline: (old(context)@.next_handle + 1) as u64,
                            info: GraphicsPipeline::create_info(
                                render_pass@.handle.handle,
                                subpass,
                                old(context)@.next_handle,
                                topology,
                                *states,
                                advanced_settings,
                            ),
                            stages: stages@.map_values(|item: ShaderStage| item@),
                            vertex_bindings: binding_descriptions(vertex_input_bindings@),
                            vertex_attributes: attribute_descriptions(
                                vertex_input_bindings@,
                                vertex_input_bindings@.len(),
                            ),
                            viewports: viewport_descriptions(viewports@),
                            scissors: scissors(viewports@),
                            blend_attachments: states.blend_state.color_attachment_blend_functions@,
                            dynamic_states: GraphicsPipeline::dynamic_states(advanced_settings),
                        },
                    )
                    &&& pipeline@ == (GraphicsPipelineView {
                        pipeline: VKHandleView {
                            context: old(context)@.id,
                            handle_type: HandleType::Pipeline,
                            handle: (old(context)@.next_handle + 1) as u64,
                            protected: false,
                            name: unnamed(),
                        },
                        layout: VKHandleView {
                            context: old(context)@.id,
                            handle_type: HandleType::PipelineLayout,
                            handle: old(context)@.next_handle,
                            protected: false,
                            name: unnamed(),
                        },
                    })
                },
                Err(error) => if !old(context)@.readable() {
                    error@ == old(context)@.borrow_error() && final(context)@ == old(context)@
                } else {
                    viewports_error(viewports@) == Some(error@) && final(context)@ == old(context)@.create(1).issue(
                        DeviceCallView::CreatePipelineLayout {
                            layout: old(context)@.next_handle,
                            set_layouts: set_layouts@,
                        },
                    ).issue(
                        DeviceCallView::Destroy {
                            handle_type: HandleType::PipelineLayout,
                            handle: old(context)@.next_handle,
                        },
                    )
                },
            },
    {
        let layout = PipelineLayout::new(context, set_layouts)?;
        match check_viewports(viewports) {
            Ok(()) => {},
            Err(error) => {
                layout.destroy(context);
                return Err(error);
            },
        }
        let mut vertex_bindings: Vec<VertexInputBindingDescription> = Vec::new();
        let mut vertex_attributes: Vec<VertexInputAttributeDescription> = Vec::new();
        let mut index: usize = 0;
        while index < vertex_input_bindings.len()
            invariant
                index <= vertex_input_bindings@.len(),
                vertex_input_bindings@.len() <= u32::MAX,
                vertex_bindings@ == binding_descriptions(vertex_input_bindings@).take(
                    index as int,
                ),
                vertex_attributes@ == attribute_descriptions(vertex_input_bindings@, index as nat),
            decreases vertex_input_bindings@.len() - index,
        {
            let binding = &vertex_input_bindings[index];
            vertex_bindings.push(
                VertexInputBindingDescription {
                    binding: index as u32,
                    stride: binding.stride,
                    input_rate: binding.rate,
                },
            );
            assert(vertex_bindings@ =~= binding_descriptions(vertex_input_bindings@).take(
                index + 1,
            ));
            let ghost before = vertex_attributes@;
            let mut k: usize = 0;
            while k < binding.attributes.len()
                invariant
                    k <= binding.attributes@.len(),
                    index < vertex_input_bindings@.len(),
                    vertex_input_bindings@.len() <= u32::MAX,
                    *binding == vertex_input_bindings@[index as int],
                    vertex_attributes@ == before + binding_attributes(*binding, index as u32).take(
                        k as int,
                    ),
                decreases binding.attributes@.len() - k,
            {
                let attribute = binding.attributes[k];
                vertex_attributes.push(
                    VertexInputAttributeDescription {
                        location: attribute.shader_binding_location,
                        binding: index as u32,
                        format: attribute.format.format(),
                        offset: attribute.offset,
                    },
                );
                assert(vertex_attributes@ =~= before + binding_attributes(
                    *binding,
                    index as u32,
                ).take(k + 1));
                k += 1;
            }
            assert(binding_attributes(*binding, index as u32).take(
                binding.attributes@.len() as int,
            ) =~= binding_attributes(*binding, index as u32));
            index += 1;
        }
        assert(vertex_bindings@ =~= binding_descriptions(vertex_input_bindings@));
        let mut described: Vec<ViewportDescription> = Vec::new();
        let mut rectangles: Vec<Rect2D> = Vec::new();
        let mut i: usize = 0;
        while i < viewports.len()
            invariant
                i <= viewports@.len(),
                described@ == viewport_descriptions(viewports@).take(i as int),
                rectangles@ == scissors(viewports@).take(i as int),
            decreases viewports@.len() - i,
        {
            described.push(
                ViewportDescription {
                    x: viewports[i].x,
                    y: viewports[i].y,
                    width: viewports[i].width,
                    height: viewports[i].height,
                    min_depth: viewports[i].min_depth,
                    max_depth: viewports[i].max_depth,
                },
            );
            rectangles.push(
                Rect2D { offset: viewports[i].scissor_offset, extent: viewports[i].scissor_extent },
            );
            assert(described@ =~= viewport_descriptions(viewports@).take(i + 1));
            assert(rectangles@ =~= scissors(viewports@).take(i + 1));
            i += 1;
        }
        assert(described@ =~= viewport_descriptions(viewports@));
        assert(rectangles@ =~= scissors(viewports@));
        let polygon_mode = if topology == vk::topology_line_list() || topology
            == vk::topology_line_list_with_adjacency() || topology == vk::topology_line_strip()
            || topology == vk::topology_line_strip_with_adjacency() {
            vk::polygon_line()
        } else if topology == vk::topology_point_list() {
            vk::polygon_point()
        } else {
            vk::polygon_fill()
        };
        let depth_bias = match &advanced_settings {
            Some(settings) => match settings.depth_bias {
                Some(bias) => bias,
                None => DepthBias::default(),
            },
            None => DepthBias::default(),
        };
        let info = GraphicsPipelineCreateInfo {
            flags: match &advanced_settings {
                Some(settings) => match settings.flags {
                    Some(flags) => flags,
                    None => 0,
                },
                None => 0,
            },
            render_pass: render_pass.handle(),
            subpass,
            layout: layout.handle(),
            topology,
            depth_clamp_enable: match &advanced_settings {
                Some(settings) => match settings.enable_depth_clamp {
                    Some(enable) => enable,
                    None => false,
                },
                None => false,
            },
            rasterizer_discard_enable: match &advanced_settings {
                Some(settings) => match settings.disable_rasterization {
                    Some(disable) => disable,
                    None => false,
                },
                None => false,
            },
            polygon_mode,
            cull_mode: if states.culling_state.enable {
                vk::cull_back()
            } else {
                vk::cull_none()
            },
            front_face: states.culling_state.front_face,
            depth_bias_enable: depth_bias.enable,
            depth_bias_constant_factor: depth_bias.constant_factor,
            depth_bias_clamp: depth_bias.clamp,
            depth_bias_slope_factor: depth_bias.slope_factor,
            line_width: match &advanced_settings {
                Some(settings) => match settings.line_width {
                    Some(width) => width,
                    None => Float::one(),
                },
                None => Float::one(),
            },
            rasterization_samples: vk::samples_one(),
            depth_test_enable: states.depth_state.enable_test,
            depth_write_enable: states.depth_state.enable_write,
            depth_compare_op: states.depth_state.compare_op,
            depth_bounds_test_enable: states.depth_state.enable_bounds_test,
            stencil_test_enable: states.depth_state.enable_stencil_test,
            stencil_front: states.depth_state.stencil_front,
            stencil_back: states.depth_state.stencil_back,
            min_depth_bounds: states.depth_state.bounds_min,
            max_depth_bounds: states.depth_state.bounds_max,
            logic_op_enable: states.blend_state.enable_logic_op,
            logic_op: states.blend_state.logic_op,
            blend_constants: [
                states.blend_state.blend_constant.0,
                states.blend_state.blend_constant.1,
                states.blend_state.blend_constant.2,
                states.blend_state.blend_constant.3,
            ],
        };
        let dynamic_states = match &advanced_settings {
            Some(settings) => match &settings.dynamic_states {
                Some(states) => slice_to_vec(states.as_slice()),
                None => Vec::new(),
            },
            None => Vec::new(),
        };
        let pipeline = context.create_handle();
        context.issue(
            DeviceCall::CreateGraphicsPipeline {
                pipeline,
                info,
                stages,
                vertex_bindings,
                vertex_attributes,
                viewports: described,
                scissors: rectangles,
                blend_attachments: slice_to_vec(
                    states.blend_state.color_attachment_blend_functions.as_slice(),
                ),
                dynamic_states,
            },
        );
        Ok(Self { pipeline: VKHandle::new(context, HandleType::Pipeline, pipeline, false), layout })
    }

    /// The pipeline under another name, with its layout named after it.
    pub open spec fn renamed(pipeline: GraphicsPipelineView, name: Seq<char>) -> GraphicsPipelineView {
        GraphicsPipelineView {
            pipeline: VKHandleView { name, ..pipeline.pipeline },
            layout: VKHandleView { name: layout_name(name), ..pipeline.layout },
        }
    }

    /// Names the pipeline, here and on the device, and its layout after
    /// it. Where the context is exclusively borrowed the call fails; the
    /// pipeline keeps its new name on this side, and its layout is not
    /// touched.
    pub fn set_name(&mut self, context: &mut Context, name: &str) -> (result: Result<
        (),
        FennecError,
    >)
        ensures
            match result {
                Ok(()) => naming_error(old(context)@, name@) is None && final(self)@ == GraphicsPipeline::renamed(
                    old(self)@,
                    name@,
                ) && final(context)@ == old(context)@.issue(
                    VKHandle::naming(old(self)@.pipeline, name@),
                ).issue(VKHandle::naming(old(self)@.layout, layout_name(name@))),
                Err(error) => naming_error(old(context)@, name@) == Some(error@)
                    && final(context)@ == old(context)@ && final(self)@ == (GraphicsPipelineView {
                    pipeline: VKHandleView { name: name@, ..old(self)@.pipeline },
                    ..old(self)@
                }),
            },
    {
        let annotated = self.pipeline.annotate(context, name);
        match annotated {
            Ok(()) => {},
            Err(error) => {
                return Err(error);
            },
        }
        let child = join(name, ".layout");
        proof {
            reveal_strlit(".layout");
            lemma_naming_error_of_longer_name(context@, name@, ".layout"@);
        }
        self.layout.set_name(context, child.as_str())
    }

    /// What the context looks like after an object that could not be named
    /// was given up: the object is destroyed where a call can be issued.
    pub open spec fn abandoned(value: GraphicsPipelineView, context: ContextView) -> ContextView {
        if context.readable() {
            VKHandle::released(
                value.layout,
                VKHandle::released(value.pipeline, context),
            )
        } else {
            context
        }
    }

    /// Names the pipeline and hands it back. Where it cannot be
    /// named it is given up: destroyed, where the context lets a call
    /// through.
    pub fn with_name(self, context: &mut Context, name: &str) -> (result: Result<
        Self,
        FennecError,
    >)
        ensures
            match result {
                Ok(named) => naming_error(old(context)@, name@) is None && named@ == GraphicsPipeline::renamed(
                    self@,
                    name@,
                ) && final(context)@ == old(context)@.issue(
                    VKHandle::naming(self@.pipeline, name@),
                ).issue(VKHandle::naming(self@.layout, layout_name(name@))),
                Err(error) => naming_error(old(context)@, name@) == Some(error@)
                    && final(context)@ == Self::abandoned(self@, old(context)@),
            },
    {
        let mut named = self;
        match named.set_name(context, name) {
            Ok(()) => Ok(named),
            Err(error) => {
                match context.check_readable() {
                    Ok(()) => named.destroy(context),
                    Err(_) => {},
                }
                Err(error)
            },
        }
    }

    /// Ends the life of the pipeline: the pipeline is destroyed, then its
    /// layout.
    pub fn destroy(self, context: &mut Context)
        requires
            old(context)@.readable(),
        ensures
            final(context)@ == VKHandle::released(
                self@.layout,
                VKHandle::released(self@.pipeline, old(context)@),
            ),
    {
        self.pipeline.release(context);
        self.layout.destroy(context);
    }
}

} // verus!
