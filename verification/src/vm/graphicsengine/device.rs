//! The calls that the engine makes into the device, as plain values. The
//! engine issues them in order; whoever drives the device carries them out.
//!
//! A call is issued before it is carried out, so the device's answer to it
//! never reaches the engine: what the engine keeps (a buffer that is
//! recording, a family that is set up) stands for a device on which every
//! call so far went through. Where the device refuses a call, the engine's
//! state and the device have parted, and the run ends there: whoever drives
//! the device stops at the first call that fails and carries out none of
//! the calls behind it.

use crate::vm::graphicsengine::vkobject::HandleType;
use vstd::prelude::*;

verus! {

/// A width and a height, in texels.
#[derive(Clone, Copy, Debug, PartialEq, Eq)]
pub struct Extent2D {
    pub width: u32,
    pub height: u32,
}

/// A width, a height and a depth, in texels.
#[derive(Clone, Copy, Debug, PartialEq, Eq)]
pub struct Extent3D {
    pub width: u32,
    pub height: u32,
    pub depth: u32,
}

/// A position in two dimensions.
#[derive(Clone, Copy, Debug, PartialEq, Eq)]
pub struct Offset2D {
    pub x: i32,
    pub y: i32,
}

/// A position in three dimensions.
#[derive(Clone, Copy, Debug, PartialEq, Eq)]
pub struct Offset3D {
    pub x: i32,
    pub y: i32,
    pub z: i32,
}

/// A rectangle.
#[derive(Clone, Copy, Debug, PartialEq, Eq)]
pub struct Rect2D {
    pub offset: Offset2D,
    pub extent: Extent2D,
}

/// A range of mip levels and array layers of some aspects of an image.
#[derive(Clone, Copy, Debug, PartialEq, Eq)]
pub struct ImageSubresourceRange {
    pub aspect_mask: u32,
    pub base_mip_level: u32,
    pub level_count: u32,
    pub base_array_layer: u32,
    pub layer_count: u32,
}

/// A range of array layers of one mip level of some aspects of an image.
#[derive(Clone, Copy, Debug, PartialEq, Eq)]
pub struct ImageSubresourceLayers {
    pub aspect_mask: u32,
    pub mip_level: u32,
    pub base_array_layer: u32,
    pub layer_count: u32,
}

/// A copy from a place in a buffer to a region of an image.
#[derive(Clone, Copy, Debug, PartialEq, Eq)]
pub struct BufferImageCopy {
    pub buffer_offset: u64,
    pub buffer_row_length: u32,
    pub buffer_image_height: u32,
    pub image_subresource: ImageSubresourceLayers,
    pub image_offset: Offset3D,
    pub image_extent: Extent3D,
}

/// A dependency between all accesses of two kinds.
#[derive(Clone, Copy, Debug, PartialEq, Eq)]
pub struct MemoryBarrier {
    pub src_access_mask: u32,
    pub dst_access_mask: u32,
}

/// A dependency between accesses to a range of a buffer.
#[derive(Clone, Copy, Debug, PartialEq, Eq)]
pub struct BufferMemoryBarrier {
    pub src_access_mask: u32,
    pub dst_access_mask: u32,
    pub src_queue_family_index: u32,
    pub dst_queue_family_index: u32,
    pub buffer: u64,
    pub offset: u64,
    pub size: u64,
}

/// A dependency between accesses to a part of an image, with a change of
/// its layout.
#[derive(Clone, Copy, Debug, PartialEq, Eq)]
pub struct ImageMemoryBarrier {
    pub src_access_mask: u32,
    pub dst_access_mask: u32,
    pub old_layout: i32,
    pub new_layout: i32,
    pub src_queue_family_index: u32,
    pub dst_queue_family_index: u32,
    pub image: u64,
    pub subresource_range: ImageSubresourceRange,
}

/// The value that an attachment is cleared to, as the four 32-bit words the
/// device reads: a color, or a depth in the first word and a stencil value
/// in the second.
#[derive(Clone, Copy, Debug, PartialEq, Eq)]
pub struct ClearValue {
    pub words: [u32; 4],
}

/// A semaphore to wait for, and the pipeline stages that wait for it.
#[derive(Clone, Copy, Debug, PartialEq, Eq)]
pub struct SemaphoreWait {
    pub semaphore: u64,
    pub stage: u32,
}

/// One kind of memory that the device offers.
#[derive(Clone, Copy, Debug, PartialEq, Eq)]
pub struct MemoryType {
    pub property_flags: u32,
    pub heap_index: u32,
}

/// What a resource asks of the memory that backs it.
#[derive(Clone, Copy, Debug, PartialEq, Eq)]
pub struct MemoryRequirements {
    pub size: u64,
    pub alignment: u64,
    pub memory_type_bits: u32,
}

/// How the channels of an image are mapped onto the channels of a view.
/// Zero stands for the channel itself.
#[derive(Clone, Copy, Debug, PartialEq, Eq)]
pub struct ComponentMapping {
    pub r: i32,
    pub g: i32,
    pub b: i32,
    pub a: i32,
}

/// The description of an image to create.
#[derive(Clone, Copy, Debug, PartialEq, Eq)]
pub struct ImageCreateInfo {
    pub flags: u32,
    pub image_type: i32,
    pub format: i32,
    pub extent: Extent3D,
    pub mip_levels: u32,
    pub array_layers: u32,
    pub samples: u32,
    pub tiling: i32,
    pub usage: u32,
    pub sharing_mode: i32,
    pub initial_layout: i32,
}

/// The description of an attachment of a render pass.
#[derive(Clone, Copy, Debug, PartialEq, Eq)]
pub struct AttachmentDescription {
    pub flags: u32,
    pub format: i32,
    pub samples: u32,
    pub load_op: i32,
    pub store_op: i32,
    pub stencil_load_op: i32,
    pub stencil_store_op: i32,
    pub initial_layout: i32,
    pub final_layout: i32,
}

/// A reference to an attachment of a render pass, with the layout that the
/// attachment has while it is used.
#[derive(Clone, Copy, Debug, PartialEq, Eq)]
pub struct AttachmentReference {
    pub attachment: u32,
    pub layout: i32,
}

/// The attachments that a subpass of a render pass works with.
#[derive(Debug, PartialEq, Eq)]
pub struct SubpassDescription {
    pub input_attachments: Vec<AttachmentReference>,
    pub color_attachments: Vec<AttachmentReference>,
    pub depth_stencil_attachment: Option<AttachmentReference>,
    pub preserve_attachments: Vec<u32>,
}

/// The mathematical value of a [`SubpassDescription`].
pub struct SubpassDescriptionView {
    pub input_attachments: Seq<AttachmentReference>,
    pub color_attachments: Seq<AttachmentReference>,
    pub depth_stencil_attachment: Option<AttachmentReference>,
    pub preserve_attachments: Seq<u32>,
}

impl View for SubpassDescription {
    type V = SubpassDescriptionView;

    open spec fn view(&self) -> SubpassDescriptionView {
        SubpassDescriptionView {
            input_attachments: self.input_attachments@,
            color_attachments: self.color_attachments@,
            depth_stencil_attachment: self.depth_stencil_attachment,
            preserve_attachments: self.preserve_attachments@,
        }
    }
}

/// A dependency of one subpass of a render pass on another.
#[derive(Clone, Copy, Debug, PartialEq, Eq)]
pub struct SubpassDependency {
    pub src_subpass: u32,
    pub dst_subpass: u32,
    pub src_stage_mask: u32,
    pub dst_stage_mask: u32,
    pub src_access_mask: u32,
    pub dst_access_mask: u32,
}

/// One binding of the layout of a descriptor set.
#[derive(Clone, Copy, Debug, PartialEq, Eq)]
pub struct DescriptorSetLayoutBinding {
    pub binding: u32,
    pub descriptor_type: i32,
    pub descriptor_count: u32,
    pub stage_flags: u32,
}

/// How many descriptors of one type a descriptor pool holds.
#[derive(Clone, Copy, Debug, PartialEq, Eq)]
pub struct DescriptorPoolSize {
    pub ty: i32,
    pub descriptor_count: u32,
}

/// A range of a buffer that a descriptor refers to.
#[derive(Clone, Copy, Debug, PartialEq, Eq)]
pub struct DescriptorBufferInfo {
    pub buffer: u64,
    pub offset: u64,
    pub range: u64,
}

/// A write of buffer ranges into the elements of one descriptor of a set.
#[derive(Debug, PartialEq, Eq)]
pub struct WriteDescriptorSet {
    pub dst_set: u64,
    pub dst_binding: u32,
    pub dst_array_element: u32,
    pub descriptor_type: i32,
    pub buffer_info: Vec<DescriptorBufferInfo>,
}

/// The mathematical value of a [`WriteDescriptorSet`].
pub struct WriteDescriptorSetView {
    pub dst_set: u64,
    pub dst_binding: u32,
    pub dst_array_element: u32,
    pub descriptor_type: i32,
    pub buffer_info: Seq<DescriptorBufferInfo>,
}

impl View for WriteDescriptorSet {
    type V = WriteDescriptorSetView;

    open spec fn view(&self) -> WriteDescriptorSetView {
        WriteDescriptorSetView {
            dst_set: self.dst_set,
            dst_binding: self.dst_binding,
            dst_array_element: self.dst_array_element,
            descriptor_type: self.descriptor_type,
            buffer_info: self.buffer_info@,
        }
    }
}

/// A format of the surface with the color space it is shown in.
#[derive(Clone, Copy, Debug, PartialEq, Eq)]
pub struct SurfaceFormat {
    pub format: i32,
    pub color_space: i32,
}

/// What the surface can do, as the device reports it.
#[derive(Clone, Copy, Debug, PartialEq, Eq)]
pub struct SurfaceCapabilities {
    pub min_image_count: u32,
    pub max_image_count: u32,
    pub current_extent: Extent2D,
    pub current_transform: u32,
}

/// The description of a swapchain to create.
#[derive(Clone, Copy, Debug, PartialEq, Eq)]
pub struct SwapchainCreateInfo {
    pub min_image_count: u32,
    pub image_format: i32,
    pub image_color_space: i32,
    pub image_extent: Extent2D,
    pub image_array_layers: u32,
    pub image_usage: u32,
    pub image_sharing_mode: i32,
    pub pre_transform: u32,
    pub composite_alpha: u32,
    pub present_mode: i32,
    pub clipped: bool,
}

/// A 32-bit floating-point number, carried by its bits.
#[derive(Clone, Copy, Debug, PartialEq, Eq)]
pub struct Float {
    pub bits: u32,
}

impl Float {
    /// The number zero.
    pub open spec fn spec_zero() -> Float {
        Float { bits: 0 }
    }

    /// The number zero.
    #[verifier::when_used_as_spec(spec_zero)]
    pub fn zero() -> (zero: Float)
        ensures
            zero == Float::spec_zero(),
    {
        Float { bits: 0 }
    }

    /// The number one.
    pub open spec fn spec_one() -> Float {
        Float { bits: 0x3f80_0000 }
    }

    /// The number one.
    #[verifier::when_used_as_spec(spec_one)]
    pub fn one() -> (one: Float)
        ensures
            one == Float::spec_one(),
    {
        Float { bits: 0x3f80_0000 }
    }

    /// Whether the bits stand for no number at all.
    pub open spec fn is_nan(self) -> bool {
        (self.bits & 0x7fff_ffff) > 0x7f80_0000
    }

    /// Whether the number is smaller than one hundred-thousandth: it is a
    /// number, and it is negative or its bits lie below those of
    /// 0.00001. Sizes that small do not make a viewport.
    pub open spec fn spec_is_vanishing(self) -> bool {
        !self.is_nan() && (self.bits >= 0x8000_0000 || self.bits < 0x3727_c5ac)
    }

    /// Whether the number is smaller than one hundred-thousandth.
    #[verifier::when_used_as_spec(spec_is_vanishing)]
    pub fn is_vanishing(self) -> (vanishing: bool)
        ensures
            vanishing == self.spec_is_vanishing(),
    {
        (self.bits & 0x7fff_ffff) <= 0x7f80_0000 && (self.bits >= 0x8000_0000 || self.bits
            < 0x3727_c5ac)
    }
}

/// A stage of a pipeline: the kind of stage, the shader module that holds
/// its code and the name of the function that it starts at.
#[derive(Debug, PartialEq, Eq)]
pub struct ShaderStage {
    pub stage: u32,
    pub module: u64,
    pub entry_point: String,
}

/// The mathematical value of a [`ShaderStage`].
pub struct ShaderStageView {
    pub stage: u32,
    pub module: u64,
    pub entry_point: Seq<char>,
}

impl View for ShaderStage {
    type V = ShaderStageView;

    open spec fn view(&self) -> ShaderStageView {
        ShaderStageView { stage: self.stage, module: self.module, entry_point: self.entry_point@ }
    }
}

/// A binding that vertices are read from.
#[derive(Clone, Copy, Debug, PartialEq, Eq)]
pub struct VertexInputBindingDescription {
    pub binding: u32,
    pub stride: u32,
    pub input_rate: i32,
}

/// An attribute of the vertices of a binding.
#[derive(Clone, Copy, Debug, PartialEq, Eq)]
pub struct VertexInputAttributeDescription {
    pub location: u32,
    pub binding: u32,
    pub format: i32,
    pub offset: u32,
}

/// The part of the framebuffer that is drawn to, and the range of depths.
#[derive(Clone, Copy, Debug, PartialEq, Eq)]
pub struct ViewportDescription {
    pub x: Float,
    pub y: Float,
    pub width: Float,
    pub height: Float,
    pub min_depth: Float,
    pub max_depth: Float,
}

/// What is done with the stencil value of a fragment.
#[derive(Clone, Copy, Debug, PartialEq, Eq)]
pub struct StencilOpState {
    pub fail_op: i32,
    pub pass_op: i32,
    pub depth_fail_op: i32,
    pub compare_op: i32,
    pub compare_mask: u32,
    pub write_mask: u32,
    pub reference: u32,
}

/// How the color of a fragment is blended into a color attachment.
#[derive(Clone, Copy, Debug, PartialEq, Eq)]
pub struct ColorBlendAttachment {
    pub blend_enable: bool,
    pub src_color_blend_factor: i32,
    pub dst_color_blend_factor: i32,
    pub color_blend_op: i32,
    pub src_alpha_blend_factor: i32,
    pub dst_alpha_blend_factor: i32,
    pub alpha_blend_op: i32,
    pub color_write_mask: u32,
}

/// The fixed state of a graphics pipeline to create.
#[derive(Clone, Copy, Debug, PartialEq, Eq)]
pub struct GraphicsPipelineCreateInfo {
    pub flags: u32,
    pub render_pass: u64,
    pub subpass: u32,
    pub layout: u64,
    pub topology: i32,
    pub depth_clamp_enable: bool,
    pub rasterizer_discard_enable: bool,
    pub polygon_mode: i32,
    pub cull_mode: u32,
    pub front_face: i32,
    pub depth_bias_enable: bool,
    pub depth_bias_constant_factor: Float,
    pub depth_bias_clamp: Float,
    pub depth_bias_slope_factor: Float,
    pub line_width: Float,
    pub rasterization_samples: u32,
    pub depth_test_enable: bool,
    pub depth_write_enable: bool,
    pub depth_compare_op: i32,
    pub depth_bounds_test_enable: bool,
    pub stencil_test_enable: bool,
    pub stencil_front: StencilOpState,
    pub stencil_back: StencilOpState,
    pub min_depth_bounds: Float,
    pub max_depth_bounds: Float,
    pub logic_op_enable: bool,
    pub logic_op: i32,
    pub blend_constants: [Float; 4],
}

/// The description of a sampler to create.
#[derive(Clone, Copy, Debug, PartialEq, Eq)]
pub struct SamplerCreateInfo {
    pub min_filter: i32,
    pub mag_filter: i32,
    pub address_mode_u: i32,
    pub address_mode_v: i32,
    pub border_color: i32,
    pub anisotropy_enable: bool,
    pub max_anisotropy: Float,
    pub mipmap_mode: i32,
}

/// One call into the device.
#[derive(Debug, PartialEq, Eq)]
#[allow(inconsistent_fields)]
pub enum DeviceCall {
    /// Gives an object a name for diagnostics.
    SetObjectName { handle_type: HandleType, handle: u64, name: String },
    /// Destroys an object by the call of its kind.
    Destroy { handle_type: HandleType, handle: u64 },
    /// Waits until the device has finished all work.
    DeviceWaitIdle,
    /// Fetches a queue of a family and binds it to `queue`.
    GetDeviceQueue { queue: u64, family_index: u32, queue_index: u32 },
    /// Creates a command pool for a queue family.
    CreateCommandPool { pool: u64, flags: u32, family_index: u32 },
    /// Allocates `count` primary command buffers from a pool and binds them
    /// to the handles `first`, `first + 1` and so on.
    AllocateCommandBuffers { pool: u64, first: u64, count: u32 },
    /// Gives command buffers back to their pool.
    FreeCommandBuffers { pool: u64, command_buffers: Vec<u64> },
    /// Starts recording into a command buffer.
    BeginCommandBuffer { command_buffer: u64, flags: u32 },
    /// Ends recording into a command buffer.
    EndCommandBuffer { command_buffer: u64 },
    /// Records a pipeline barrier.
    CmdPipelineBarrier {
        command_buffer: u64,
        src_stage: u32,
        dst_stage: u32,
        dependency_flags: u32,
        memory_barriers: Vec<MemoryBarrier>,
        buffer_memory_barriers: Vec<BufferMemoryBarrier>,
        image_memory_barriers: Vec<ImageMemoryBarrier>,
    },
    /// Records a clear of parts of a color image.
    CmdClearColorImage {
        command_buffer: u64,
        image: u64,
        layout: i32,
        clear_color: ClearValue,
        ranges: Vec<ImageSubresourceRange>,
    },
    /// Records the start of a render pass.
    CmdBeginRenderPass {
        command_buffer: u64,
        render_pass: u64,
        framebuffer: u64,
        render_area: Rect2D,
        clear_values: Vec<ClearValue>,
    },
    /// Records the end of the render pass.
    CmdEndRenderPass { command_buffer: u64 },
    /// Records copies from a buffer into an image.
    CmdCopyBufferToImage {
        command_buffer: u64,
        source: u64,
        destination: u64,
        destination_layout: i32,
        regions: Vec<BufferImageCopy>,
    },
    /// Records the binding of a graphics pipeline.
    CmdBindPipeline { command_buffer: u64, pipeline: u64 },
    /// Records the binding of an index buffer.
    CmdBindIndexBuffer { command_buffer: u64, buffer: u64, offset: u64, index_type: i32 },
    /// Records the binding of descriptor sets to a graphics pipeline layout.
    CmdBindDescriptorSets {
        command_buffer: u64,
        layout: u64,
        first_set: u32,
        descriptor_sets: Vec<u64>,
    },
    /// Records a draw.
    CmdDraw {
        command_buffer: u64,
        vertex_count: u32,
        instance_count: u32,
        first_vertex: u32,
        first_instance: u32,
    },
    /// Records an indexed draw.
    CmdDrawIndexed {
        command_buffer: u64,
        index_count: u32,
        instance_count: u32,
        first_index: u32,
        vertex_offset: i32,
        first_instance: u32,
    },
    /// Submits command buffers to a queue as one batch. A `fence` of zero
    /// stands for no fence.
    QueueSubmit {
        queue: u64,
        command_buffers: Vec<u64>,
        wait_semaphores: Vec<SemaphoreWait>,
        signal_semaphores: Vec<u64>,
        fence: u64,
    },
    /// Blocks until a queue has finished all work submitted to it.
    QueueWaitIdle { queue: u64 },
    /// Creates a fence.
    CreateFence { fence: u64, flags: u32 },
    /// Blocks until a fence is signaled or the timeout has passed.
    WaitForFences { fence: u64, timeout: u64 },
    /// Sets a fence back to unsignaled.
    ResetFences { fence: u64 },
    /// Creates a semaphore.
    CreateSemaphore { semaphore: u64 },
    /// Asks the swapchain for the next image to draw to. A `semaphore` or
    /// `fence` of zero stands for none.
    AcquireNextImage { swapchain: u64, timeout: u64, semaphore: u64, fence: u64 },
    /// Queues an image of the swapchain for presentation.
    QueuePresent { queue: u64, swapchain: u64, image_index: u32, wait_semaphore: u64 },
    /// Allocates device memory of one of the device's memory types.
    AllocateMemory { memory: u64, size: u64, memory_type_index: u32 },
    /// Maps a region of device memory into host memory.
    MapMemory { memory: u64, offset: u64, size: u64 },
    /// Writes bytes into mapped device memory, `offset` bytes from the start
    /// of the allocation.
    WriteMemory { memory: u64, offset: u64, bytes: Vec<u8> },
    /// Takes device memory out of host memory again.
    UnmapMemory { memory: u64 },
    /// Creates a buffer.
    CreateBuffer {
        buffer: u64,
        flags: u32,
        size: u64,
        usage: u32,
        sharing_mode: i32,
        queue_family_indices: Vec<u32>,
    },
    /// Binds device memory to a buffer.
    BindBufferMemory { buffer: u64, memory: u64, offset: u64 },
    /// Creates an image.
    CreateImage { image: u64, info: ImageCreateInfo, queue_family_indices: Vec<u32> },
    /// Binds device memory to an image.
    BindImageMemory { image: u64, memory: u64, offset: u64 },
    /// Creates a view of a part of an image.
    CreateImageView {
        view: u64,
        image: u64,
        view_type: i32,
        format: i32,
        components: ComponentMapping,
        subresource_range: ImageSubresourceRange,
    },
    /// Creates a render pass.
    CreateRenderPass {
        render_pass: u64,
        attachments: Vec<AttachmentDescription>,
        subpasses: Vec<SubpassDescription>,
        dependencies: Vec<SubpassDependency>,
    },
    /// Creates a framebuffer for a render pass.
    CreateFramebuffer {
        framebuffer: u64,
        render_pass: u64,
        attachments: Vec<u64>,
        width: u32,
        height: u32,
        layers: u32,
    },
    /// Creates the layout of a kind of descriptor set.
    CreateDescriptorSetLayout { layout: u64, bindings: Vec<DescriptorSetLayoutBinding> },
    /// Creates a descriptor pool.
    CreateDescriptorPool {
        pool: u64,
        flags: u32,
        max_sets: u32,
        pool_sizes: Vec<DescriptorPoolSize>,
    },
    /// Allocates `count` descriptor sets of one layout from a pool and binds
    /// them to the handles `first`, `first + 1` and so on.
    AllocateDescriptorSets { pool: u64, layout: u64, first: u64, count: u32 },
    /// Writes resources into descriptor sets.
    UpdateDescriptorSets { writes: Vec<WriteDescriptorSet> },
    /// Creates a swapchain for the surface.
    CreateSwapchain { swapchain: u64, info: SwapchainCreateInfo },
    /// Fetches the images of a swapchain and binds the first `count` of them
    /// to the handles `first`, `first + 1` and so on.
    GetSwapchainImages { swapchain: u64, first: u64, count: u32 },
    /// Creates a pipeline layout.
    CreatePipelineLayout { layout: u64, set_layouts: Vec<u64> },
    /// Creates a shader module from SPIR-V code.
    CreateShaderModule { module: u64, code: Vec<u8> },
    /// Creates a graphics pipeline.
    CreateGraphicsPipeline {
        pipeline: u64,
        info: GraphicsPipelineCreateInfo,
        stages: Vec<ShaderStage>,
        vertex_bindings: Vec<VertexInputBindingDescription>,
        vertex_attributes: Vec<VertexInputAttributeDescription>,
        viewports: Vec<ViewportDescription>,
        scissors: Vec<Rect2D>,
        blend_attachments: Vec<ColorBlendAttachment>,
        dynamic_states: Vec<i32>,
    },
    /// Creates a sampler.
    CreateSampler { sampler: u64, info: SamplerCreateInfo },
}

/// The mathematical value of a [`DeviceCall`]: the same call, with lists and
/// text as sequences.
#[allow(inconsistent_fields)]
pub enum DeviceCallView {
    SetObjectName { handle_type: HandleType, handle: u64, name: Seq<char> },
    Destroy { handle_type: HandleType, handle: u64 },
    DeviceWaitIdle,
    GetDeviceQueue { queue: u64, family_index: u32, queue_index: u32 },
    CreateCommandPool { pool: u64, flags: u32, family_index: u32 },
    AllocateCommandBuffers { pool: u64, first: u64, count: u32 },
    FreeCommandBuffers { pool: u64, command_buffers: Seq<u64> },
    BeginCommandBuffer { command_buffer: u64, flags: u32 },
    EndCommandBuffer { command_buffer: u64 },
    CmdPipelineBarrier {
        command_buffer: u64,
        src_stage: u32,
        dst_stage: u32,
        dependency_flags: u32,
        memory_barriers: Seq<MemoryBarrier>,
        buffer_memory_barriers: Seq<BufferMemoryBarrier>,
        image_memory_barriers: Seq<ImageMemoryBarrier>,
    },
    CmdClearColorImage {
        command_buffer: u64,
        image: u64,
        layout: i32,
        clear_color: ClearValue,
        ranges: Seq<ImageSubresourceRange>,
    },
    CmdBeginRenderPass {
        command_buffer: u64,
        render_pass: u64,
        framebuffer: u64,
        render_area: Rect2D,
        clear_values: Seq<ClearValue>,
    },
    CmdEndRenderPass { command_buffer: u64 },
    CmdCopyBufferToImage {
        command_buffer: u64,
        source: u64,
        destination: u64,
        destination_layout: i32,
        regions: Seq<BufferImageCopy>,
    },
    CmdBindPipeline { command_buffer: u64, pipeline: u64 },
    CmdBindIndexBuffer { command_buffer: u64, buffer: u64, offset: u64, index_type: i32 },
    CmdBindDescriptorSets {
        command_buffer: u64,
        layout: u64,
        first_set: u32,
        descriptor_sets: Seq<u64>,
    },
    CmdDraw {
        command_buffer: u64,
        vertex_count: u32,
        instance_count: u32,
        first_vertex: u32,
        first_instance: u32,
    },
    CmdDrawIndexed {
        command_buffer: u64,
        index_count: u32,
        instance_count: u32,
        first_index: u32,
        vertex_offset: i32,
        first_instance: u32,
    },
    QueueSubmit {
        queue: u64,
        command_buffers: Seq<u64>,
        wait_semaphores: Seq<SemaphoreWait>,
        signal_semaphores: Seq<u64>,
        fence: u64,
    },
    QueueWaitIdle { queue: u64 },
    CreateFence { fence: u64, flags: u32 },
    WaitForFences { fence: u64, timeout: u64 },
    ResetFences { fence: u64 },
    CreateSemaphore { semaphore: u64 },
    AcquireNextImage { swapchain: u64, timeout: u64, semaphore: u64, fence: u64 },
    QueuePresent { queue: u64, swapchain: u64, image_index: u32, wait_semaphore: u64 },
    AllocateMemory { memory: u64, size: u64, memory_type_index: u32 },
    MapMemory { memory: u64, offset: u64, size: u64 },
    WriteMemory { memory: u64, offset: u64, bytes: Seq<u8> },
    UnmapMemory { memory: u64 },
    CreateBuffer {
        buffer: u64,
        flags: u32,
        size: u64,
        usage: u32,
        sharing_mode: i32,
        queue_family_indices: Seq<u32>,
    },
    BindBufferMemory { buffer: u64, memory: u64, offset: u64 },
    CreateImage { image: u64, info: ImageCreateInfo, queue_family_indices: Seq<u32> },
    BindImageMemory { image: u64, memory: u64, offset: u64 },
    CreateImageView {
        view: u64,
        image: u64,
        view_type: i32,
        format: i32,
        components: ComponentMapping,
        subresource_range: ImageSubresourceRange,
    },
    CreateRenderPass {
        render_pass: u64,
        attachments: Seq<AttachmentDescription>,
        subpasses: Seq<SubpassDescriptionView>,
        dependencies: Seq<SubpassDependency>,
    },
    CreateFramebuffer {
        framebuffer: u64,
        render_pass: u64,
        attachments: Seq<u64>,
        width: u32,
        height: u32,
        layers: u32,
    },
    CreateDescriptorSetLayout { layout: u64, bindings: Seq<DescriptorSetLayoutBinding> },
    CreateDescriptorPool {
        pool: u64,
        flags: u32,
        max_sets: u32,
        pool_sizes: Seq<DescriptorPoolSize>,
    },
    AllocateDescriptorSets { pool: u64, layout: u64, first: u64, count: u32 },
    UpdateDescriptorSets { writes: Seq<WriteDescriptorSetView> },
    CreateSwapchain { swapchain: u64, info: SwapchainCreateInfo },
    GetSwapchainImages { swapchain: u64, first: u64, count: u32 },
    CreatePipelineLayout { layout: u64, set_layouts: Seq<u64> },
    CreateShaderModule { module: u64, code: Seq<u8> },
    CreateGraphicsPipeline {
        pipeline: u64,
        info: GraphicsPipelineCreateInfo,
        stages: Seq<ShaderStageView>,
        vertex_bindings: Seq<VertexInputBindingDescription>,
        vertex_attributes: Seq<VertexInputAttributeDescription>,
        viewports: Seq<ViewportDescription>,
        scissors: Seq<Rect2D>,
        blend_attachments: Seq<ColorBlendAttachment>,
        dynamic_states: Seq<i32>,
    },
    CreateSampler { sampler: u64, info: SamplerCreateInfo },
}

impl View for DeviceCall {
    type V = DeviceCallView;

    open spec fn view(&self) -> DeviceCallView {
        match self {
            DeviceCall::SetObjectName { handle_type, handle, name } => DeviceCallView::SetObjectName {
                handle_type: *handle_type,
                handle: *handle,
                name: name@,
            },
            DeviceCall::Destroy { handle_type, handle } => DeviceCallView::Destroy {
                handle_type: *handle_type,
                handle: *handle,
            },
            DeviceCall::DeviceWaitIdle => DeviceCallView::DeviceWaitIdle,
            DeviceCall::GetDeviceQueue { queue, family_index, queue_index } => DeviceCallView::GetDeviceQueue {
                queue: *queue,
                family_index: *family_index,
                queue_index: *queue_index,
            },
            DeviceCall::CreateCommandPool { pool, flags, family_index } => DeviceCallView::CreateCommandPool {
                pool: *pool,
                flags: *flags,
                family_index: *family_index,
            },
            DeviceCall::AllocateCommandBuffers { pool, first, count } => DeviceCallView::AllocateCommandBuffers {
                pool: *pool,
                first: *first,
                count: *count,
            },
            DeviceCall::FreeCommandBuffers { pool, command_buffers } => DeviceCallView::FreeCommandBuffers {
                pool: *pool,
                command_buffers: command_buffers@,
            },
            DeviceCall::BeginCommandBuffer { command_buffer, flags } => DeviceCallView::BeginCommandBuffer {
                command_buffer: *command_buffer,
                flags: *flags,
            },
            DeviceCall::EndCommandBuffer { command_buffer } => DeviceCallView::EndCommandBuffer {
                command_buffer: *command_buffer,
            },
            DeviceCall::CmdPipelineBarrier { command_buffer, src_stage, dst_stage, dependency_flags, memory_barriers, buffer_memory_barriers, image_memory_barriers } => DeviceCallView::CmdPipelineBarrier {
                command_buffer: *command_buffer,
                src_stage: *src_stage,
                dst_stage: *dst_stage,
                dependency_flags: *dependency_flags,
                memory_barriers: memory_barriers@,
                buffer_memory_barriers: buffer_memory_barriers@,
                image_memory_barriers: image_memory_barriers@,
            },
            DeviceCall::CmdClearColorImage { command_buffer, image, layout, clear_color, ranges } => DeviceCallView::CmdClearColorImage {
                command_buffer: *command_buffer,
                image: *image,
                layout: *layout,
                clear_color: *clear_color,
                ranges: ranges@,
            },
            DeviceCall::CmdBeginRenderPass { command_buffer, render_pass, framebuffer, render_area, clear_values } => DeviceCallView::CmdBeginRenderPass {
                command_buffer: *command_buffer,
                render_pass: *render_pass,
                framebuffer: *framebuffer,
                render_area: *render_area,
                clear_values: clear_values@,
            },
            DeviceCall::CmdEndRenderPass { command_buffer } => DeviceCallView::CmdEndRenderPass {
                command_buffer: *command_buffer,
            },
            DeviceCall::CmdCopyBufferToImage { command_buffer, source, destination, destination_layout, regions } => DeviceCallView::CmdCopyBufferToImage {
                command_buffer: *command_buffer,
                source: *source,
                destination: *destination,
                destination_layout: *destination_layout,
                regions: regions@,
            },
            DeviceCall::CmdBindPipeline { command_buffer, pipeline } => DeviceCallView::CmdBindPipeline {
                command_buffer: *command_buffer,
                pipeline: *pipeline,
            },
            DeviceCall::CmdBindIndexBuffer { command_buffer, buffer, offset, index_type } => DeviceCallView::CmdBindIndexBuffer {
                command_buffer: *command_buffer,
                buffer: *buffer,
                offset: *offset,
                index_type: *index_type,
            },
            DeviceCall::CmdBindDescriptorSets { command_buffer, layout, first_set, descriptor_sets } => DeviceCallView::CmdBindDescriptorSets {
                command_buffer: *command_buffer,
                layout: *layout,
                first_set: *first_set,
                descriptor_sets: descriptor_sets@,
            },
            DeviceCall::CmdDraw { command_buffer, vertex_count, instance_count, first_vertex, first_instance } => DeviceCallView::CmdDraw {
                command_buffer: *command_buffer,
                vertex_count: *vertex_count,
                instance_count: *instance_count,
                first_vertex: *first_vertex,
                first_instance: *first_instance,
            },
            DeviceCall::CmdDrawIndexed { command_buffer, index_count, instance_count, first_index, vertex_offset, first_instance } => DeviceCallView::CmdDrawIndexed {
                command_buffer: *command_buffer,
                index_count: *index_count,
                instance_count: *instance_count,
                first_index: *first_index,
                vertex_offset: *vertex_offset,
                first_instance: *first_instance,
            },
            DeviceCall::QueueSubmit { queue, command_buffers, wait_semaphores, signal_semaphores, fence } => DeviceCallView::QueueSubmit {
                queue: *queue,
                command_buffers: command_buffers@,
                wait_semaphores: wait_semaphores@,
                signal_semaphores: signal_semaphores@,
                fence: *fence,
            },
            DeviceCall::QueueWaitIdle { queue } => DeviceCallView::QueueWaitIdle {
                queue: *queue,
            },
            DeviceCall::CreateFence { fence, flags } => DeviceCallView::CreateFence {
                fence: *fence,
                flags: *flags,
            },
            DeviceCall::WaitForFences { fence, timeout } => DeviceCallView::WaitForFences {
                fence: *fence,
                timeout: *timeout,
            },
            DeviceCall::ResetFences { fence } => DeviceCallView::ResetFences {
                fence: *fence,
            },
            DeviceCall::CreateSemaphore { semaphore } => DeviceCallView::CreateSemaphore {
                semaphore: *semaphore,
            },
            DeviceCall::AcquireNextImage { swapchain, timeout, semaphore, fence } => DeviceCallView::AcquireNextImage {
                swapchain: *swapchain,
                timeout: *timeout,
                semaphore: *semaphore,
                fence: *fence,
            },
            DeviceCall::QueuePresent { queue, swapchain, image_index, wait_semaphore } => DeviceCallView::QueuePresent {
                queue: *queue,
                swapchain: *swapchain,
                image_index: *image_index,
                wait_semaphore: *wait_semaphore,
            },
            DeviceCall::AllocateMemory { memory, size, memory_type_index } => DeviceCallView::AllocateMemory {
                memory: *memory,
                size: *size,
                memory_type_index: *memory_type_index,
            },
            DeviceCall::MapMemory { memory, offset, size } => DeviceCallView::MapMemory {
                memory: *memory,
                offset: *offset,
                size: *size,
            },
            DeviceCall::WriteMemory { memory, offset, bytes } => DeviceCallView::WriteMemory {
                memory: *memory,
                offset: *offset,
                bytes: bytes@,
            },
            DeviceCall::UnmapMemory { memory } => DeviceCallView::UnmapMemory {
                memory: *memory,
            },
            DeviceCall::CreateBuffer { buffer, flags, size, usage, sharing_mode, queue_family_indices } => DeviceCallView::CreateBuffer {
                buffer: *buffer,
                flags: *flags,
                size: *size,
                usage: *usage,
                sharing_mode: *sharing_mode,
                queue_family_indices: queue_family_indices@,
            },
            DeviceCall::BindBufferMemory { buffer, memory, offset } => DeviceCallView::BindBufferMemory {
                buffer: *buffer,
                memory: *memory,
                offset: *offset,
            },
            DeviceCall::CreateImage { image, info, queue_family_indices } => DeviceCallView::CreateImage {
                image: *image,
                info: *info,
                queue_family_indices: queue_family_indices@,
            },
            DeviceCall::BindImageMemory { image, memory, offset } => DeviceCallView::BindImageMemory {
                image: *image,
                memory: *memory,
                offset: *offset,
            },
            DeviceCall::CreateImageView { view, image, view_type, format, components, subresource_range } => DeviceCallView::CreateImageView {
                view: *view,
                image: *image,
                view_type: *view_type,
                format: *format,
                components: *components,
                subresource_range: *subresource_range,
            },
            DeviceCall::CreateRenderPass { render_pass, attachments, subpasses, dependencies } => DeviceCallView::CreateRenderPass {
                render_pass: *render_pass,
                attachments: attachments@,
                subpasses: subpasses@.map_values(|item: SubpassDescription| item@),
                dependencies: dependencies@,
            },
            DeviceCall::CreateFramebuffer { framebuffer, render_pass, attachments, width, height, layers } => DeviceCallView::CreateFramebuffer {
                framebuffer: *framebuffer,
                render_pass: *render_pass,
                attachments: attachments@,
                width: *width,
                height: *height,
                layers: *layers,
            },
            DeviceCall::CreateDescriptorSetLayout { layout, bindings } => DeviceCallView::CreateDescriptorSetLayout {
                layout: *layout,
                bindings: bindings@,
            },
            DeviceCall::CreateDescriptorPool { pool, flags, max_sets, pool_sizes } => DeviceCallView::CreateDescriptorPool {
                pool: *pool,
                flags: *flags,
                max_sets: *max_sets,
                pool_sizes: pool_sizes@,
            },
            DeviceCall::AllocateDescriptorSets { pool, layout, first, count } => DeviceCallView::AllocateDescriptorSets {
                pool: *pool,
                layout: *layout,
                first: *first,
                count: *count,
            },
            DeviceCall::UpdateDescriptorSets { writes } => DeviceCallView::UpdateDescriptorSets {
                writes: writes@.map_values(|item: WriteDescriptorSet| item@),
            },
            DeviceCall::CreateSwapchain { swapchain, info } => DeviceCallView::CreateSwapchain {
                swapchain: *swapchain,
                info: *info,
            },
            DeviceCall::GetSwapchainImages { swapchain, first, count } => DeviceCallView::GetSwapchainImages {
                swapchain: *swapchain,
                first: *first,
                count: *count,
            },
            DeviceCall::CreatePipelineLayout { layout, set_layouts } => DeviceCallView::CreatePipelineLayout {
                layout: *layout,
                set_layouts: set_layouts@,
            },
            DeviceCall::CreateShaderModule { module, code } => DeviceCallView::CreateShaderModule {
                module: *module,
                code: code@,
            },
            DeviceCall::CreateGraphicsPipeline { pipeline, info, stages, vertex_bindings, vertex_attributes, viewports, scissors, blend_attachments, dynamic_states } => DeviceCallView::CreateGraphicsPipeline {
                pipeline: *pipeline,
                info: *info,
                stages: stages@.map_values(|item: ShaderStage| item@),
                vertex_bindings: vertex_bindings@,
                vertex_attributes: vertex_attributes@,
                viewports: viewports@,
                scissors: scissors@,
                blend_attachments: blend_attachments@,
                dynamic_states: dynamic_states@,
            },
            DeviceCall::CreateSampler { sampler, info } => DeviceCallView::CreateSampler {
                sampler: *sampler,
                info: *info,
            },
        }
    }
}

} // verus!
