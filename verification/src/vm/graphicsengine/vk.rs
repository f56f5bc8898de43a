//! The values that the device interface gives to the flags, layouts, formats
//! and status codes this engine decides on. The constants are what contracts
//! speak of; the functions read the same values from `ash`.

use vstd::prelude::*;

verus! {

/// The raw value that stands for queues that take graphics work.
pub const QUEUE_GRAPHICS: u32 = 0x1;

/// The raw value that stands for queues that take compute work.
pub const QUEUE_COMPUTE: u32 = 0x2;

/// The raw value that stands for queues that take transfer work.
pub const QUEUE_TRANSFER: u32 = 0x4;

/// The raw value that stands for memory that lives on the device.
pub const MEMORY_DEVICE_LOCAL: u32 = 0x1;

/// The raw value that stands for memory that the host can map.
pub const MEMORY_HOST_VISIBLE: u32 = 0x2;

/// The raw value that stands for memory whose host writes need no flush.
pub const MEMORY_HOST_COHERENT: u32 = 0x4;

/// The raw value that stands for memory that only protected work may touch.
pub const MEMORY_PROTECTED: u32 = 0x20;

/// The raw value that stands for a fence created in the signaled state.
pub const FENCE_SIGNALED: u32 = 0x1;

/// The raw value that stands for a recording that is submitted once.
pub const USAGE_ONE_TIME_SUBMIT: u32 = 0x1;

/// The raw value that stands for a recording that may be pending more than once.
pub const USAGE_SIMULTANEOUS_USE: u32 = 0x4;

/// The raw value that stands for a pool of short-lived command buffers.
pub const POOL_TRANSIENT: u32 = 0x1;

/// The raw value that stands for a pool whose buffers can be reset one by one.
pub const POOL_RESET_COMMAND_BUFFER: u32 = 0x2;

/// The raw value that stands for the stage before any command runs.
pub const STAGE_TOP_OF_PIPE: u32 = 0x1;

/// The raw value that stands for the stage of copies and clears.
pub const STAGE_TRANSFER: u32 = 0x1000;

/// The raw value that stands for the stage after all commands have run.
pub const STAGE_BOTTOM_OF_PIPE: u32 = 0x2000;

/// The raw value that stands for writes made by a copy or clear.
pub const ACCESS_TRANSFER_WRITE: u32 = 0x1000;

/// The raw value that stands for reads of any kind.
pub const ACCESS_MEMORY_READ: u32 = 0x8000;

/// The raw value that stands for the color aspect of an image.
pub const ASPECT_COLOR: u32 = 0x1;

/// The raw value that stands for the depth aspect of an image.
pub const ASPECT_DEPTH: u32 = 0x2;

/// The raw value that stands for the stencil aspect of an image.
pub const ASPECT_STENCIL: u32 = 0x4;

/// The raw value that stands for a descriptor pool whose sets may be updated while bound.
pub const POOL_UPDATE_AFTER_BIND: u32 = 0x2;

/// The raw value that stands for a buffer that copies read from.
pub const BUFFER_USAGE_TRANSFER_SRC: u32 = 0x1;

/// The raw value that stands for an image that copies write to.
pub const IMAGE_USAGE_TRANSFER_DST: u32 = 0x2;

/// The raw value that stands for an image that is rendered to as a color attachment.
pub const IMAGE_USAGE_COLOR_ATTACHMENT: u32 = 0x10;

/// The raw value that stands for one sample per texel.
pub const SAMPLES_ONE: u32 = 0x1;

/// The raw value that stands for a surface whose alpha channel is ignored.
pub const COMPOSITE_ALPHA_OPAQUE: u32 = 0x1;

/// The raw value that stands for a call that completed.
pub const STATUS_SUCCESS: i32 = 0;

/// The raw value that stands for a fence that has not been signaled yet.
pub const STATUS_NOT_READY: i32 = 1;

/// The raw value that stands for an image whose contents need not be kept.
pub const LAYOUT_UNDEFINED: i32 = 0;

/// The raw value that stands for an image that a copy writes to.
pub const LAYOUT_TRANSFER_DST: i32 = 7;

/// The raw value that stands for an image that is handed to the presentation engine.
pub const LAYOUT_PRESENT_SRC: i32 = 1000001002;

/// The raw value that stands for four 8-bit channels in the order blue, green, red, alpha.
pub const FORMAT_B8G8R8A8_UNORM: i32 = 44;

/// The raw value that stands for the sRGB color space.
pub const COLOR_SPACE_SRGB_NONLINEAR: i32 = 0;

/// The raw value that stands for presentation that replaces a waiting image with a newer one.
pub const PRESENT_MODE_MAILBOX: i32 = 1;

/// The raw value that stands for a descriptor that refers to a uniform buffer.
pub const DESCRIPTOR_UNIFORM_BUFFER: i32 = 6;

/// The raw value that stands for a resource that one queue family owns at a time.
pub const SHARING_EXCLUSIVE: i32 = 0;

/// The raw value that stands for a resource that several queue families use at once.
pub const SHARING_CONCURRENT: i32 = 1;

/// The raw value that stands for an image of two dimensions.
pub const IMAGE_TYPE_2D: i32 = 1;

/// The raw value that stands for a view of two dimensions.
pub const IMAGE_VIEW_TYPE_2D: i32 = 1;

/// The raw value that stands for texels laid out as the device likes best.
pub const TILING_OPTIMAL: i32 = 0;

/// The raw value that stands for separate points.
pub const TOPOLOGY_POINT_LIST: i32 = 0;

/// The raw value that stands for separate lines.
pub const TOPOLOGY_LINE_LIST: i32 = 1;

/// The raw value that stands for connected lines.
pub const TOPOLOGY_LINE_STRIP: i32 = 2;

/// The raw value that stands for separate lines with their neighbours.
pub const TOPOLOGY_LINE_LIST_WITH_ADJACENCY: i32 = 6;

/// The raw value that stands for connected lines with their neighbours.
pub const TOPOLOGY_LINE_STRIP_WITH_ADJACENCY: i32 = 7;

/// The raw value that stands for polygons that are filled.
pub const POLYGON_FILL: i32 = 0;

/// The raw value that stands for polygons drawn as their edges.
pub const POLYGON_LINE: i32 = 1;

/// The raw value that stands for polygons drawn as their corners.
pub const POLYGON_POINT: i32 = 2;

/// The raw value that stands for no culling.
pub const CULL_NONE: u32 = 0x0;

/// The raw value that stands for culling of faces that look away.
pub const CULL_BACK: u32 = 0x2;

/// The raw value that stands for an attribute of one 32-bit float.
pub const FORMAT_R32_SFLOAT: i32 = 100;

/// The raw value that stands for an attribute of two 32-bit floats.
pub const FORMAT_R32G32_SFLOAT: i32 = 103;

/// The raw value that stands for an attribute of three 32-bit floats.
pub const FORMAT_R32G32B32_SFLOAT: i32 = 106;

/// The raw value that stands for an attribute of four 32-bit floats.
pub const FORMAT_R32G32B32A32_SFLOAT: i32 = 109;

/// The raw value that stands for an attribute of one 64-bit float.
pub const FORMAT_R64_SFLOAT: i32 = 112;

/// The raw value that stands for an attribute of two 64-bit floats.
pub const FORMAT_R64G64_SFLOAT: i32 = 115;

/// The raw value that stands for an attribute of three 64-bit floats.
pub const FORMAT_R64G64B64_SFLOAT: i32 = 118;

/// The raw value that stands for an attribute of four 64-bit floats.
pub const FORMAT_R64G64B64A64_SFLOAT: i32 = 121;

/// The raw value that stands for an attribute of one 32-bit integer.
pub const FORMAT_R32_SINT: i32 = 99;

/// The raw value that stands for an attribute of two 32-bit integers.
pub const FORMAT_R32G32_SINT: i32 = 102;

/// The raw value that stands for an attribute of three 32-bit integers.
pub const FORMAT_R32G32B32_SINT: i32 = 105;

/// The raw value that stands for an attribute of four 32-bit integers.
pub const FORMAT_R32G32B32A32_SINT: i32 = 108;

/// The raw value that stands for an attribute of one 64-bit integer.
pub const FORMAT_R64_SINT: i32 = 111;

/// The raw value that stands for an attribute of two 64-bit integers.
pub const FORMAT_R64G64_SINT: i32 = 114;

/// The raw value that stands for an attribute of three 64-bit integers.
pub const FORMAT_R64G64B64_SINT: i32 = 117;

/// The raw value that stands for an attribute of four 64-bit integers.
pub const FORMAT_R64G64B64A64_SINT: i32 = 120;

/// The raw value that stands for texels that are blended with their neighbours.
pub const FILTER_LINEAR: i32 = 1;

/// The raw value that stands for an image that repeats beyond its edges.
pub const ADDRESS_MODE_REPEAT: i32 = 0;

/// The raw value that stands for a border of opaque black.
pub const BORDER_FLOAT_OPAQUE_BLACK: i32 = 2;

/// The raw value that stands for mip levels that are blended with their neighbours.
pub const MIPMAP_MODE_LINEAR: i32 = 1;

/// The subpass index that stands for work outside the render pass.
pub const SUBPASS_EXTERNAL: u32 = 0xffff_ffff;

/// Whether every bit of `wanted` is set in `flags`.
pub open spec fn spec_contains(flags: u32, wanted: u32) -> bool {
    flags & wanted == wanted
}

/// Whether every bit of `wanted` is set in `flags`.
#[verifier::when_used_as_spec(spec_contains)]
pub fn contains(flags: u32, wanted: u32) -> (all: bool)
    ensures
        all == spec_contains(flags, wanted),
{
    flags & wanted == wanted
}

/// Reads `ash::vk::QueueFlags::GRAPHICS` through `as_raw`. The contract states the
/// value that `ash` defines for it: `0x1`.
#[verifier::external_body]
pub(crate) fn queue_graphics() -> (raw: u32)
    ensures
        raw == QUEUE_GRAPHICS,
{
    ash::vk::QueueFlags::GRAPHICS.as_raw()
}

/// Reads `ash::vk::QueueFlags::COMPUTE` through `as_raw`. The contract states the
/// value that `ash` defines for it: `0x2`.
#[verifier::external_body]
pub(crate) fn queue_compute() -> (raw: u32)
    ensures
        raw == QUEUE_COMPUTE,
{
    ash::vk::QueueFlags::COMPUTE.as_raw()
}

/// Reads `ash::vk::QueueFlags::TRANSFER` through `as_raw`. The contract states the
/// value that `ash` defines for it: `0x4`.
#[verifier::external_body]
pub(crate) fn queue_transfer() -> (raw: u32)
    ensures
        raw == QUEUE_TRANSFER,
{
    ash::vk::QueueFlags::TRANSFER.as_raw()
}

/// Reads `ash::vk::MemoryPropertyFlags::DEVICE_LOCAL` through `as_raw`. The contract states the
/// value that `ash` defines for it: `0x1`.
#[verifier::external_body]
pub(crate) fn memory_device_local() -> (raw: u32)
    ensures
        raw == MEMORY_DEVICE_LOCAL,
{
    ash::vk::MemoryPropertyFlags::DEVICE_LOCAL.as_raw()
}

/// Reads `ash::vk::MemoryPropertyFlags::HOST_VISIBLE` through `as_raw`. The contract states the
/// value that `ash` defines for it: `0x2`.
#[verifier::external_body]
pub(crate) fn memory_host_visible() -> (raw: u32)
    ensures
        raw == MEMORY_HOST_VISIBLE,
{
    ash::vk::MemoryPropertyFlags::HOST_VISIBLE.as_raw()
}

/// Reads `ash::vk::MemoryPropertyFlags::HOST_COHERENT` through `as_raw`. The contract states the
/// value that `ash` defines for it: `0x4`.
#[verifier::external_body]
pub(crate) fn memory_host_coherent() -> (raw: u32)
    ensures
        raw == MEMORY_HOST_COHERENT,
{
    ash::vk::MemoryPropertyFlags::HOST_COHERENT.as_raw()
}

/// Reads `ash::vk::MemoryPropertyFlags::PROTECTED` through `as_raw`. The contract states the
/// value that `ash` defines for it: `0x20`.
#[verifier::external_body]
pub(crate) fn memory_protected() -> (raw: u32)
    ensures
        raw == MEMORY_PROTECTED,
{
    ash::vk::MemoryPropertyFlags::PROTECTED.as_raw()
}

/// Reads `ash::vk::FenceCreateFlags::SIGNALED` through `as_raw`. The contract states the
/// value that `ash` defines for it: `0x1`.
#[verifier::external_body]
pub(crate) fn fence_signaled() -> (raw: u32)
    ensures
        raw == FENCE_SIGNALED,
{
    ash::vk::FenceCreateFlags::SIGNALED.as_raw()
}

/// Reads `ash::vk::CommandBufferUsageFlags::ONE_TIME_SUBMIT` through `as_raw`. The contract states the
/// value that `ash` defines for it: `0x1`.
#[verifier::external_body]
pub(crate) fn usage_one_time_submit() -> (raw: u32)
    ensures
        raw == USAGE_ONE_TIME_SUBMIT,
{
    ash::vk::CommandBufferUsageFlags::ONE_TIME_SUBMIT.as_raw()
}

/// Reads `ash::vk::CommandBufferUsageFlags::SIMULTANEOUS_USE` through `as_raw`. The contract states the
/// value that `ash` defines for it: `0x4`.
#[verifier::external_body]
pub(crate) fn usage_simultaneous_use() -> (raw: u32)
    ensures
        raw == USAGE_SIMULTANEOUS_USE,
{
    ash::vk::CommandBufferUsageFlags::SIMULTANEOUS_USE.as_raw()
}

/// Reads `ash::vk::CommandPoolCreateFlags::TRANSIENT` through `as_raw`. The contract states the
/// value that `ash` defines for it: `0x1`.
#[verifier::external_body]
pub(crate) fn pool_transient() -> (raw: u32)
    ensures
        raw == POOL_TRANSIENT,
{
    ash::vk::CommandPoolCreateFlags::TRANSIENT.as_raw()
}

/// Reads `ash::vk::CommandPoolCreateFlags::RESET_COMMAND_BUFFER` through `as_raw`. The contract states the
/// value that `ash` defines for it: `0x2`.
#[verifier::external_body]
pub(crate) fn pool_reset_command_buffer() -> (raw: u32)
    ensures
        raw == POOL_RESET_COMMAND_BUFFER,
{
    ash::vk::CommandPoolCreateFlags::RESET_COMMAND_BUFFER.as_raw()
}

/// Reads `ash::vk::PipelineStageFlags::TOP_OF_PIPE` through `as_raw`. The contract states the
/// value that `ash` defines for it: `0x1`.
#[verifier::external_body]
pub(crate) fn stage_top_of_pipe() -> (raw: u32)
    ensures
        raw == STAGE_TOP_OF_PIPE,
{
    ash::vk::PipelineStageFlags::TOP_OF_PIPE.as_raw()
}

/// Reads `ash::vk::PipelineStageFlags::TRANSFER` through `as_raw`. The contract states the
/// value that `ash` defines for it: `0x1000`.
#[verifier::external_body]
pub(crate) fn stage_transfer() -> (raw: u32)
    ensures
        raw == STAGE_TRANSFER,
{
    ash::vk::PipelineStageFlags::TRANSFER.as_raw()
}

/// Reads `ash::vk::PipelineStageFlags::BOTTOM_OF_PIPE` through `as_raw`. The contract states the
/// value that `ash` defines for it: `0x2000`.
#[verifier::external_body]
pub(crate) fn stage_bottom_of_pipe() -> (raw: u32)
    ensures
        raw == STAGE_BOTTOM_OF_PIPE,
{
    ash::vk::PipelineStageFlags::BOTTOM_OF_PIPE.as_raw()
}

/// Reads `ash::vk::AccessFlags::TRANSFER_WRITE` through `as_raw`. The contract states the
/// value that `ash` defines for it: `0x1000`.
#[verifier::external_body]
pub(crate) fn access_transfer_write() -> (raw: u32)
    ensures
        raw == ACCESS_TRANSFER_WRITE,
{
    ash::vk::AccessFlags::TRANSFER_WRITE.as_raw()
}

/// Reads `ash::vk::AccessFlags::MEMORY_READ` through `as_raw`. The contract states the
/// value that `ash` defines for it: `0x8000`.
#[verifier::external_body]
pub(crate) fn access_memory_read() -> (raw: u32)
    ensures
        raw == ACCESS_MEMORY_READ,
{
    ash::vk::AccessFlags::MEMORY_READ.as_raw()
}

/// Reads `ash::vk::ImageAspectFlags::COLOR` through `as_raw`. The contract states the
/// value that `ash` defines for it: `0x1`.
#[verifier::external_body]
pub(crate) fn aspect_color() -> (raw: u32)
    ensures
        raw == ASPECT_COLOR,
{
    ash::vk::ImageAspectFlags::COLOR.as_raw()
}

/// Reads `ash::vk::ImageAspectFlags::DEPTH` through `as_raw`. The contract states the
/// value that `ash` defines for it: `0x2`.
#[verifier::external_body]
pub(crate) fn aspect_depth() -> (raw: u32)
    ensures
        raw == ASPECT_DEPTH,
{
    ash::vk::ImageAspectFlags::DEPTH.as_raw()
}

/// Reads `ash::vk::ImageAspectFlags::STENCIL` through `as_raw`. The contract states the
/// value that `ash` defines for it: `0x4`.
#[verifier::external_body]
pub(crate) fn aspect_stencil() -> (raw: u32)
    ensures
        raw == ASPECT_STENCIL,
{
    ash::vk::ImageAspectFlags::STENCIL.as_raw()
}

/// Reads `ash::vk::DescriptorPoolCreateFlags::UPDATE_AFTER_BIND_EXT` through `as_raw`. The contract states the
/// value that `ash` defines for it: `0x2`.
#[verifier::external_body]
pub(crate) fn pool_update_after_bind() -> (raw: u32)
    ensures
        raw == POOL_UPDATE_AFTER_BIND,
{
    ash::vk::DescriptorPoolCreateFlags::UPDATE_AFTER_BIND_EXT.as_raw()
}

/// Reads `ash::vk::BufferUsageFlags::TRANSFER_SRC` through `as_raw`. The contract states the
/// value that `ash` defines for it: `0x1`.
#[verifier::external_body]
pub(crate) fn buffer_usage_transfer_src() -> (raw: u32)
    ensures
        raw == BUFFER_USAGE_TRANSFER_SRC,
{
    ash::vk::BufferUsageFlags::TRANSFER_SRC.as_raw()
}

/// Reads `ash::vk::ImageUsageFlags::TRANSFER_DST` through `as_raw`. The contract states the
/// value that `ash` defines for it: `0x2`.
#[verifier::external_body]
pub(crate) fn image_usage_transfer_dst() -> (raw: u32)
    ensures
        raw == IMAGE_USAGE_TRANSFER_DST,
{
    ash::vk::ImageUsageFlags::TRANSFER_DST.as_raw()
}

/// Reads `ash::vk::ImageUsageFlags::COLOR_ATTACHMENT` through `as_raw`. The contract states the
/// value that `ash` defines for it: `0x10`.
#[verifier::external_body]
pub(crate) fn image_usage_color_attachment() -> (raw: u32)
    ensures
        raw == IMAGE_USAGE_COLOR_ATTACHMENT,
{
    ash::vk::ImageUsageFlags::COLOR_ATTACHMENT.as_raw()
}

/// Reads `ash::vk::SampleCountFlags::TYPE_1` through `as_raw`. The contract states the
/// value that `ash` defines for it: `0x1`.
#[verifier::external_body]
pub(crate) fn samples_one() -> (raw: u32)
    ensures
        raw == SAMPLES_ONE,
{
    ash::vk::SampleCountFlags::TYPE_1.as_raw()
}

/// Reads `ash::vk::CompositeAlphaFlagsKHR::OPAQUE` through `as_raw`. The contract states the
/// value that `ash` defines for it: `0x1`.
#[verifier::external_body]
pub(crate) fn composite_alpha_opaque() -> (raw: u32)
    ensures
        raw == COMPOSITE_ALPHA_OPAQUE,
{
    ash::vk::CompositeAlphaFlagsKHR::OPAQUE.as_raw()
}

/// Reads `ash::vk::Result::SUCCESS` through `as_raw`. The contract states the
/// value that `ash` defines for it: `0`.
#[verifier::external_body]
pub(crate) fn status_success() -> (raw: i32)
    ensures
        raw == STATUS_SUCCESS,
{
    ash::vk::Result::SUCCESS.as_raw()
}

/// Reads `ash::vk::Result::NOT_READY` through `as_raw`. The contract states the
/// value that `ash` defines for it: `1`.
#[verifier::external_body]
pub(crate) fn status_not_ready() -> (raw: i32)
    ensures
        raw == STATUS_NOT_READY,
{
    ash::vk::Result::NOT_READY.as_raw()
}

/// Reads `ash::vk::ImageLayout::UNDEFINED` through `as_raw`. The contract states the
/// value that `ash` defines for it: `0`.
#[verifier::external_body]
pub(crate) fn layout_undefined() -> (raw: i32)
    ensures
        raw == LAYOUT_UNDEFINED,
{
    ash::vk::ImageLayout::UNDEFINED.as_raw()
}

/// Reads `ash::vk::ImageLayout::TRANSFER_DST_OPTIMAL` through `as_raw`. The contract states the
/// value that `ash` defines for it: `7`.
#[verifier::external_body]
pub(crate) fn layout_transfer_dst() -> (raw: i32)
    ensures
        raw == LAYOUT_TRANSFER_DST,
{
    ash::vk::ImageLayout::TRANSFER_DST_OPTIMAL.as_raw()
}

/// Reads `ash::vk::ImageLayout::PRESENT_SRC_KHR` through `as_raw`. The contract states the
/// value that `ash` defines for it: `1000001002`.
#[verifier::external_body]
pub(crate) fn layout_present_src() -> (raw: i32)
    ensures
        raw == LAYOUT_PRESENT_SRC,
{
    ash::vk::ImageLayout::PRESENT_SRC_KHR.as_raw()
}

/// Reads `ash::vk::Format::B8G8R8A8_UNORM` through `as_raw`. The contract states the
/// value that `ash` defines for it: `44`.
#[verifier::external_body]
pub(crate) fn format_b8g8r8a8_unorm() -> (raw: i32)
    ensures
        raw == FORMAT_B8G8R8A8_UNORM,
{
    ash::vk::Format::B8G8R8A8_UNORM.as_raw()
}

/// Reads `ash::vk::ColorSpaceKHR::SRGB_NONLINEAR` through `as_raw`. The contract states the
/// value that `ash` defines for it: `0`.
#[verifier::external_body]
pub(crate) fn color_space_srgb_nonlinear() -> (raw: i32)
    ensures
        raw == COLOR_SPACE_SRGB_NONLINEAR,
{
    ash::vk::ColorSpaceKHR::SRGB_NONLINEAR.as_raw()
}

/// Reads `ash::vk::PresentModeKHR::MAILBOX` through `as_raw`. The contract states the
/// value that `ash` defines for it: `1`.
#[verifier::external_body]
pub(crate) fn present_mode_mailbox() -> (raw: i32)
    ensures
        raw == PRESENT_MODE_MAILBOX,
{
    ash::vk::PresentModeKHR::MAILBOX.as_raw()
}

/// Reads `ash::vk::DescriptorType::UNIFORM_BUFFER` through `as_raw`. The contract states the
/// value that `ash` defines for it: `6`.
#[verifier::external_body]
pub(crate) fn descriptor_uniform_buffer() -> (raw: i32)
    ensures
        raw == DESCRIPTOR_UNIFORM_BUFFER,
{
    ash::vk::DescriptorType::UNIFORM_BUFFER.as_raw()
}

/// Reads `ash::vk::SharingMode::EXCLUSIVE` through `as_raw`. The contract states the
/// value that `ash` defines for it: `0`.
#[verifier::external_body]
pub(crate) fn sharing_exclusive() -> (raw: i32)
    ensures
        raw == SHARING_EXCLUSIVE,
{
    ash::vk::SharingMode::EXCLUSIVE.as_raw()
}

/// Reads `ash::vk::SharingMode::CONCURRENT` through `as_raw`. The contract states the
/// value that `ash` defines for it: `1`.
#[verifier::external_body]
pub(crate) fn sharing_concurrent() -> (raw: i32)
    ensures
        raw == SHARING_CONCURRENT,
{
    ash::vk::SharingMode::CONCURRENT.as_raw()
}

/// Reads `ash::vk::ImageType::TYPE_2D` through `as_raw`. The contract states the
/// value that `ash` defines for it: `1`.
#[verifier::external_body]
pub(crate) fn image_type_2d() -> (raw: i32)
    ensures
        raw == IMAGE_TYPE_2D,
{
    ash::vk::ImageType::TYPE_2D.as_raw()
}

/// Reads `ash::vk::ImageViewType::TYPE_2D` through `as_raw`. The contract states the
/// value that `ash` defines for it: `1`.
#[verifier::external_body]
pub(crate) fn image_view_type_2d() -> (raw: i32)
    ensures
        raw == IMAGE_VIEW_TYPE_2D,
{
    ash::vk::ImageViewType::TYPE_2D.as_raw()
}

/// Reads `ash::vk::ImageTiling::OPTIMAL` through `as_raw`. The contract states the
/// value that `ash` defines for it: `0`.
#[verifier::external_body]
pub(crate) fn tiling_optimal() -> (raw: i32)
    ensures
        raw == TILING_OPTIMAL,
{
    ash::vk::ImageTiling::OPTIMAL.as_raw()
}

/// Reads `ash::vk::PrimitiveTopology::POINT_LIST` through `as_raw`. The contract states the
/// value that `ash` defines for it: `0`.
#[verifier::external_body]
pub(crate) fn topology_point_list() -> (raw: i32)
    ensures
        raw == TOPOLOGY_POINT_LIST,
{
    ash::vk::PrimitiveTopology::POINT_LIST.as_raw()
}

/// Reads `ash::vk::PrimitiveTopology::LINE_LIST` through `as_raw`. The contract states the
/// value that `ash` defines for it: `1`.
#[verifier::external_body]
pub(crate) fn topology_line_list() -> (raw: i32)
    ensures
        raw == TOPOLOGY_LINE_LIST,
{
    ash::vk::PrimitiveTopology::LINE_LIST.as_raw()
}

/// Reads `ash::vk::PrimitiveTopology::LINE_STRIP` through `as_raw`. The contract states the
/// value that `ash` defines for it: `2`.
#[verifier::external_body]
pub(crate) fn topology_line_strip() -> (raw: i32)
    ensures
        raw == TOPOLOGY_LINE_STRIP,
{
    ash::vk::PrimitiveTopology::LINE_STRIP.as_raw()
}

/// Reads `ash::vk::PrimitiveTopology::LINE_LIST_WITH_ADJACENCY` through `as_raw`. The contract states the
/// value that `ash` defines for it: `6`.
#[verifier::external_body]
pub(crate) fn topology_line_list_with_adjacency() -> (raw: i32)
    ensures
        raw == TOPOLOGY_LINE_LIST_WITH_ADJACENCY,
{
    ash::vk::PrimitiveTopology::LINE_LIST_WITH_ADJACENCY.as_raw()
}

/// Reads `ash::vk::PrimitiveTopology::LINE_STRIP_WITH_ADJACENCY` through `as_raw`. The contract states the
/// value that `ash` defines for it: `7`.
#[verifier::external_body]
pub(crate) fn topology_line_strip_with_adjacency() -> (raw: i32)
    ensures
        raw == TOPOLOGY_LINE_STRIP_WITH_ADJACENCY,
{
    ash::vk::PrimitiveTopology::LINE_STRIP_WITH_ADJACENCY.as_raw()
}

/// Reads `ash::vk::PolygonMode::FILL` through `as_raw`. The contract states the
/// value that `ash` defines for it: `0`.
#[verifier::external_body]
pub(crate) fn polygon_fill() -> (raw: i32)
    ensures
        raw == POLYGON_FILL,
{
    ash::vk::PolygonMode::FILL.as_raw()
}

/// Reads `ash::vk::PolygonMode::LINE` through `as_raw`. The contract states the
/// value that `ash` defines for it: `1`.
#[verifier::external_body]
pub(crate) fn polygon_line() -> (raw: i32)
    ensures
        raw == POLYGON_LINE,
{
    ash::vk::PolygonMode::LINE.as_raw()
}

/// Reads `ash::vk::PolygonMode::POINT` through `as_raw`. The contract states the
/// value that `ash` defines for it: `2`.
#[verifier::external_body]
pub(crate) fn polygon_point() -> (raw: i32)
    ensures
        raw == POLYGON_POINT,
{
    ash::vk::PolygonMode::POINT.as_raw()
}

/// Reads `ash::vk::CullModeFlags::NONE` through `as_raw`. The contract states the
/// value that `ash` defines for it: `0x0`.
#[verifier::external_body]
pub(crate) fn cull_none() -> (raw: u32)
    ensures
        raw == CULL_NONE,
{
    ash::vk::CullModeFlags::NONE.as_raw()
}

/// Reads `ash::vk::CullModeFlags::BACK` through `as_raw`. The contract states the
/// value that `ash` defines for it: `0x2`.
#[verifier::external_body]
pub(crate) fn cull_back() -> (raw: u32)
    ensures
        raw == CULL_BACK,
{
    ash::vk::CullModeFlags::BACK.as_raw()
}

/// Reads `ash::vk::Format::R32_SFLOAT` through `as_raw`. The contract states the
/// value that `ash` defines for it: `100`.
#[verifier::external_body]
pub(crate) fn format_r32_sfloat() -> (raw: i32)
    ensures
        raw == FORMAT_R32_SFLOAT,
{
    ash::vk::Format::R32_SFLOAT.as_raw()
}

/// Reads `ash::vk::Format::R32G32_SFLOAT` through `as_raw`. The contract states the
/// value that `ash` defines for it: `103`.
#[verifier::external_body]
pub(crate) fn format_r32g32_sfloat() -> (raw: i32)
    ensures
        raw == FORMAT_R32G32_SFLOAT,
{
    ash::vk::Format::R32G32_SFLOAT.as_raw()
}

/// Reads `ash::vk::Format::R32G32B32_SFLOAT` through `as_raw`. The contract states the
/// value that `ash` defines for it: `106`.
#[verifier::external_body]
pub(crate) fn format_r32g32b32_sfloat() -> (raw: i32)
    ensures
        raw == FORMAT_R32G32B32_SFLOAT,
{
    ash::vk::Format::R32G32B32_SFLOAT.as_raw()
}

/// Reads `ash::vk::Format::R32G32B32A32_SFLOAT` through `as_raw`. The contract states the
/// value that `ash` defines for it: `109`.
#[verifier::external_body]
pub(crate) fn format_r32g32b32a32_sfloat() -> (raw: i32)
    ensures
        raw == FORMAT_R32G32B32A32_SFLOAT,
{
    ash::vk::Format::R32G32B32A32_SFLOAT.as_raw()
}

/// Reads `ash::vk::Format::R64_SFLOAT` through `as_raw`. The contract states the
/// value that `ash` defines for it: `112`.
#[verifier::external_body]
pub(crate) fn format_r64_sfloat() -> (raw: i32)
    ensures
        raw == FORMAT_R64_SFLOAT,
{
    ash::vk::Format::R64_SFLOAT.as_raw()
}

/// Reads `ash::vk::Format::R64G64_SFLOAT` through `as_raw`. The contract states the
/// value that `ash` defines for it: `115`.
#[verifier::external_body]
pub(crate) fn format_r64g64_sfloat() -> (raw: i32)
    ensures
        raw == FORMAT_R64G64_SFLOAT,
{
    ash::vk::Format::R64G64_SFLOAT.as_raw()
}

/// Reads `ash::vk::Format::R64G64B64_SFLOAT` through `as_raw`. The contract states the
/// value that `ash` defines for it: `118`.
#[verifier::external_body]
pub(crate) fn format_r64g64b64_sfloat() -> (raw: i32)
    ensures
        raw == FORMAT_R64G64B64_SFLOAT,
{
    ash::vk::Format::R64G64B64_SFLOAT.as_raw()
}

/// Reads `ash::vk::Format::R64G64B64A64_SFLOAT` through `as_raw`. The contract states the
/// value that `ash` defines for it: `121`.
#[verifier::external_body]
pub(crate) fn format_r64g64b64a64_sfloat() -> (raw: i32)
    ensures
        raw == FORMAT_R64G64B64A64_SFLOAT,
{
    ash::vk::Format::R64G64B64A64_SFLOAT.as_raw()
}

/// Reads `ash::vk::Format::R32_SINT` through `as_raw`. The contract states the
/// value that `ash` defines for it: `99`.
#[verifier::external_body]
pub(crate) fn format_r32_sint() -> (raw: i32)
    ensures
        raw == FORMAT_R32_SINT,
{
    ash::vk::Format::R32_SINT.as_raw()
}

/// Reads `ash::vk::Format::R32G32_SINT` through `as_raw`. The contract states the
/// value that `ash` defines for it: `102`.
#[verifier::external_body]
pub(crate) fn format_r32g32_sint() -> (raw: i32)
    ensures
        raw == FORMAT_R32G32_SINT,
{
    ash::vk::Format::R32G32_SINT.as_raw()
}

/// Reads `ash::vk::Format::R32G32B32_SINT` through `as_raw`. The contract states the
/// value that `ash` defines for it: `105`.
#[verifier::external_body]
pub(crate) fn format_r32g32b32_sint() -> (raw: i32)
    ensures
        raw == FORMAT_R32G32B32_SINT,
{
    ash::vk::Format::R32G32B32_SINT.as_raw()
}

/// Reads `ash::vk::Format::R32G32B32A32_SINT` through `as_raw`. The contract states the
/// value that `ash` defines for it: `108`.
#[verifier::external_body]
pub(crate) fn format_r32g32b32a32_sint() -> (raw: i32)
    ensures
        raw == FORMAT_R32G32B32A32_SINT,
{
    ash::vk::Format::R32G32B32A32_SINT.as_raw()
}

/// Reads `ash::vk::Format::R64_SINT` through `as_raw`. The contract states the
/// value that `ash` defines for it: `111`.
#[verifier::external_body]
pub(crate) fn format_r64_sint() -> (raw: i32)
    ensures
        raw == FORMAT_R64_SINT,
{
    ash::vk::Format::R64_SINT.as_raw()
}

/// Reads `ash::vk::Format::R64G64_SINT` through `as_raw`. The contract states the
/// value that `ash` defines for it: `114`.
#[verifier::external_body]
pub(crate) fn format_r64g64_sint() -> (raw: i32)
    ensures
        raw == FORMAT_R64G64_SINT,
{
    ash::vk::Format::R64G64_SINT.as_raw()
}

/// Reads `ash::vk::Format::R64G64B64_SINT` through `as_raw`. The contract states the
/// value that `ash` defines for it: `117`.
#[verifier::external_body]
pub(crate) fn format_r64g64b64_sint() -> (raw: i32)
    ensures
        raw == FORMAT_R64G64B64_SINT,
{
    ash::vk::Format::R64G64B64_SINT.as_raw()
}

/// Reads `ash::vk::Format::R64G64B64A64_SINT` through `as_raw`. The contract states the
/// value that `ash` defines for it: `120`.
#[verifier::external_body]
pub(crate) fn format_r64g64b64a64_sint() -> (raw: i32)
    ensures
        raw == FORMAT_R64G64B64A64_SINT,
{
    ash::vk::Format::R64G64B64A64_SINT.as_raw()
}

/// Reads `ash::vk::Filter::LINEAR` through `as_raw`. The contract states the
/// value that `ash` defines for it: `1`.
#[verifier::external_body]
pub(crate) fn filter_linear() -> (raw: i32)
    ensures
        raw == FILTER_LINEAR,
{
    ash::vk::Filter::LINEAR.as_raw()
}

/// Reads `ash::vk::SamplerAddressMode::REPEAT` through `as_raw`. The contract states the
/// value that `ash` defines for it: `0`.
#[verifier::external_body]
pub(crate) fn address_mode_repeat() -> (raw: i32)
    ensures
        raw == ADDRESS_MODE_REPEAT,
{
    ash::vk::SamplerAddressMode::REPEAT.as_raw()
}

/// Reads `ash::vk::BorderColor::FLOAT_OPAQUE_BLACK` through `as_raw`. The contract states the
/// value that `ash` defines for it: `2`.
#[verifier::external_body]
pub(crate) fn border_float_opaque_black() -> (raw: i32)
    ensures
        raw == BORDER_FLOAT_OPAQUE_BLACK,
{
    ash::vk::BorderColor::FLOAT_OPAQUE_BLACK.as_raw()
}

/// Reads `ash::vk::SamplerMipmapMode::LINEAR` through `as_raw`. The contract states the
/// value that `ash` defines for it: `1`.
#[verifier::external_body]
pub(crate) fn mipmap_mode_linear() -> (raw: i32)
    ensures
        raw == MIPMAP_MODE_LINEAR,
{
    ash::vk::SamplerMipmapMode::LINEAR.as_raw()
}

/// Reads `ash::vk::SUBPASS_EXTERNAL`. The contract states the value that
/// `ash` defines for it: all 32 bits set.
#[verifier::external_body]
pub(crate) fn subpass_external() -> (raw: u32)
    ensures
        raw == SUBPASS_EXTERNAL,
{
    ash::vk::SUBPASS_EXTERNAL
}

} // verus!
