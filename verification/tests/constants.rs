use ash::vk;
use fennec::vm::graphicsengine::vk as values;

#[test]
fn flags_are_those_of_the_device_interface() {
    assert_eq!(values::QUEUE_GRAPHICS, vk::QueueFlags::GRAPHICS.as_raw());
    assert_eq!(values::QUEUE_COMPUTE, vk::QueueFlags::COMPUTE.as_raw());
    assert_eq!(values::QUEUE_TRANSFER, vk::QueueFlags::TRANSFER.as_raw());
    assert_eq!(values::MEMORY_DEVICE_LOCAL, vk::MemoryPropertyFlags::DEVICE_LOCAL.as_raw());
    assert_eq!(values::MEMORY_HOST_VISIBLE, vk::MemoryPropertyFlags::HOST_VISIBLE.as_raw());
    assert_eq!(values::MEMORY_HOST_COHERENT, vk::MemoryPropertyFlags::HOST_COHERENT.as_raw());
    assert_eq!(values::MEMORY_PROTECTED, vk::MemoryPropertyFlags::PROTECTED.as_raw());
    assert_eq!(values::FENCE_SIGNALED, vk::FenceCreateFlags::SIGNALED.as_raw());
    assert_eq!(values::USAGE_ONE_TIME_SUBMIT, vk::CommandBufferUsageFlags::ONE_TIME_SUBMIT.as_raw());
    assert_eq!(values::USAGE_SIMULTANEOUS_USE, vk::CommandBufferUsageFlags::SIMULTANEOUS_USE.as_raw());
    assert_eq!(values::POOL_TRANSIENT, vk::CommandPoolCreateFlags::TRANSIENT.as_raw());
    assert_eq!(values::POOL_RESET_COMMAND_BUFFER, vk::CommandPoolCreateFlags::RESET_COMMAND_BUFFER.as_raw());
    assert_eq!(values::STAGE_TOP_OF_PIPE, vk::PipelineStageFlags::TOP_OF_PIPE.as_raw());
    assert_eq!(values::STAGE_TRANSFER, vk::PipelineStageFlags::TRANSFER.as_raw());
    assert_eq!(values::STAGE_BOTTOM_OF_PIPE, vk::PipelineStageFlags::BOTTOM_OF_PIPE.as_raw());
    assert_eq!(values::ACCESS_TRANSFER_WRITE, vk::AccessFlags::TRANSFER_WRITE.as_raw());
    assert_eq!(values::ACCESS_MEMORY_READ, vk::AccessFlags::MEMORY_READ.as_raw());
    assert_eq!(values::ASPECT_COLOR, vk::ImageAspectFlags::COLOR.as_raw());
    assert_eq!(values::ASPECT_DEPTH, vk::ImageAspectFlags::DEPTH.as_raw());
    assert_eq!(values::ASPECT_STENCIL, vk::ImageAspectFlags::STENCIL.as_raw());
    assert_eq!(values::POOL_UPDATE_AFTER_BIND, vk::DescriptorPoolCreateFlags::UPDATE_AFTER_BIND_EXT.as_raw());
    assert_eq!(values::BUFFER_USAGE_TRANSFER_SRC, vk::BufferUsageFlags::TRANSFER_SRC.as_raw());
    assert_eq!(values::IMAGE_USAGE_TRANSFER_DST, vk::ImageUsageFlags::TRANSFER_DST.as_raw());
    assert_eq!(values::IMAGE_USAGE_COLOR_ATTACHMENT, vk::ImageUsageFlags::COLOR_ATTACHMENT.as_raw());
    assert_eq!(values::SAMPLES_ONE, vk::SampleCountFlags::TYPE_1.as_raw());
    assert_eq!(values::COMPOSITE_ALPHA_OPAQUE, vk::CompositeAlphaFlagsKHR::OPAQUE.as_raw());
    assert_eq!(values::CULL_NONE, vk::CullModeFlags::NONE.as_raw());
    assert_eq!(values::CULL_BACK, vk::CullModeFlags::BACK.as_raw());
    assert_eq!(values::SUBPASS_EXTERNAL, vk::SUBPASS_EXTERNAL);
}

#[test]
fn codes_are_those_of_the_device_interface() {
    assert_eq!(values::STATUS_SUCCESS, vk::Result::SUCCESS.as_raw());
    assert_eq!(values::STATUS_NOT_READY, vk::Result::NOT_READY.as_raw());
    assert_eq!(values::LAYOUT_UNDEFINED, vk::ImageLayout::UNDEFINED.as_raw());
    assert_eq!(values::LAYOUT_TRANSFER_DST, vk::ImageLayout::TRANSFER_DST_OPTIMAL.as_raw());
    assert_eq!(values::LAYOUT_PRESENT_SRC, vk::ImageLayout::PRESENT_SRC_KHR.as_raw());
    assert_eq!(values::FORMAT_B8G8R8A8_UNORM, vk::Format::B8G8R8A8_UNORM.as_raw());
    assert_eq!(values::COLOR_SPACE_SRGB_NONLINEAR, vk::ColorSpaceKHR::SRGB_NONLINEAR.as_raw());
    assert_eq!(values::PRESENT_MODE_MAILBOX, vk::PresentModeKHR::MAILBOX.as_raw());
    assert_eq!(values::DESCRIPTOR_UNIFORM_BUFFER, vk::DescriptorType::UNIFORM_BUFFER.as_raw());
    assert_eq!(values::SHARING_EXCLUSIVE, vk::SharingMode::EXCLUSIVE.as_raw());
    assert_eq!(values::SHARING_CONCURRENT, vk::SharingMode::CONCURRENT.as_raw());
    assert_eq!(values::IMAGE_TYPE_2D, vk::ImageType::TYPE_2D.as_raw());
    assert_eq!(values::IMAGE_VIEW_TYPE_2D, vk::ImageViewType::TYPE_2D.as_raw());
    assert_eq!(values::TILING_OPTIMAL, vk::ImageTiling::OPTIMAL.as_raw());
    assert_eq!(values::TOPOLOGY_POINT_LIST, vk::PrimitiveTopology::POINT_LIST.as_raw());
    assert_eq!(values::TOPOLOGY_LINE_LIST, vk::PrimitiveTopology::LINE_LIST.as_raw());
    assert_eq!(values::TOPOLOGY_LINE_STRIP, vk::PrimitiveTopology::LINE_STRIP.as_raw());
    assert_eq!(
        values::TOPOLOGY_LINE_LIST_WITH_ADJACENCY,
        vk::PrimitiveTopology::LINE_LIST_WITH_ADJACENCY.as_raw()
    );
    assert_eq!(
        values::TOPOLOGY_LINE_STRIP_WITH_ADJACENCY,
        vk::PrimitiveTopology::LINE_STRIP_WITH_ADJACENCY.as_raw()
    );
    assert_eq!(values::POLYGON_FILL, vk::PolygonMode::FILL.as_raw());
    assert_eq!(values::POLYGON_LINE, vk::PolygonMode::LINE.as_raw());
    assert_eq!(values::POLYGON_POINT, vk::PolygonMode::POINT.as_raw());
    assert_eq!(values::FILTER_LINEAR, vk::Filter::LINEAR.as_raw());
    assert_eq!(values::ADDRESS_MODE_REPEAT, vk::SamplerAddressMode::REPEAT.as_raw());
    assert_eq!(values::BORDER_FLOAT_OPAQUE_BLACK, vk::BorderColor::FLOAT_OPAQUE_BLACK.as_raw());
    assert_eq!(values::MIPMAP_MODE_LINEAR, vk::SamplerMipmapMode::LINEAR.as_raw());
}

#[test]
fn formats_are_those_of_the_device_interface() {
    assert_eq!(values::FORMAT_R32_SFLOAT, vk::Format::R32_SFLOAT.as_raw());
    assert_eq!(values::FORMAT_R32G32_SFLOAT, vk::Format::R32G32_SFLOAT.as_raw());
    assert_eq!(values::FORMAT_R32G32B32_SFLOAT, vk::Format::R32G32B32_SFLOAT.as_raw());
    assert_eq!(values::FORMAT_R32G32B32A32_SFLOAT, vk::Format::R32G32B32A32_SFLOAT.as_raw());
    assert_eq!(values::FORMAT_R64_SFLOAT, vk::Format::R64_SFLOAT.as_raw());
    assert_eq!(values::FORMAT_R64G64_SFLOAT, vk::Format::R64G64_SFLOAT.as_raw());
    assert_eq!(values::FORMAT_R64G64B64_SFLOAT, vk::Format::R64G64B64_SFLOAT.as_raw());
    assert_eq!(values::FORMAT_R64G64B64A64_SFLOAT, vk::Format::R64G64B64A64_SFLOAT.as_raw());
    assert_eq!(values::FORMAT_R32_SINT, vk::Format::R32_SINT.as_raw());
    assert_eq!(values::FORMAT_R32G32_SINT, vk::Format::R32G32_SINT.as_raw());
    assert_eq!(values::FORMAT_R32G32B32_SINT, vk::Format::R32G32B32_SINT.as_raw());
    assert_eq!(values::FORMAT_R32G32B32A32_SINT, vk::Format::R32G32B32A32_SINT.as_raw());
    assert_eq!(values::FORMAT_R64_SINT, vk::Format::R64_SINT.as_raw());
    assert_eq!(values::FORMAT_R64G64_SINT, vk::Format::R64G64_SINT.as_raw());
    assert_eq!(values::FORMAT_R64G64B64_SINT, vk::Format::R64G64B64_SINT.as_raw());
    assert_eq!(values::FORMAT_R64G64B64A64_SINT, vk::Format::R64G64B64A64_SINT.as_raw());
}

#[test]
fn contains_asks_for_every_bit() {
    assert!(values::contains(0x7, 0x5));
    assert!(!values::contains(0x6, 0x5));
    assert!(values::contains(0x6, 0));
    assert_eq!(
        values::contains(0x26, values::MEMORY_PROTECTED),
        vk::MemoryPropertyFlags::from_raw(0x26).contains(vk::MemoryPropertyFlags::PROTECTED)
    );
}
