//! Images: what every image offers, and images of two dimensions that own
//! the memory behind them.

use crate::error::out_of_range;
use crate::error::plain_error;
use crate::error::ErrorKind;
use crate::error::ErrorView;
use crate::error::FennecError;
use crate::text::join;
use crate::text::signed_decimal;
use crate::text::signed_decimal_digits;
use crate::vm::graphicsengine::device::ComponentMapping;
use crate::vm::graphicsengine::device::DeviceCall;
use crate::vm::graphicsengine::device::DeviceCallView;
use crate::vm::graphicsengine::device::Extent2D;
use crate::vm::graphicsengine::device::Extent3D;
use crate::vm::graphicsengine::device::ImageCreateInfo;
use crate::vm::graphicsengine::device::ImageSubresourceLayers;
use crate::vm::graphicsengine::device::ImageSubresourceRange;
use crate::vm::graphicsengine::device::MemoryRequirements;
use crate::vm::graphicsengine::device::Offset3D;
use crate::vm::graphicsengine::imageview::ImageView;
use crate::vm::graphicsengine::memory::find_memory_type;
use crate::vm::graphicsengine::memory::memory_type_unavailable;
use crate::vm::graphicsengine::memory::Memory;
use crate::vm::graphicsengine::memory::MemoryView;
use crate::vm::graphicsengine::queuefamily::QueueFamily;
use crate::vm::graphicsengine::vk;
use crate::vm::graphicsengine::vkobject::unnamed;
use crate::vm::graphicsengine::vkobject::HandleType;
use crate::vm::graphicsengine::vkobject::naming_error;
use crate::vm::graphicsengine::vkobject::lemma_naming_error_of_longer_name;
use crate::vm::graphicsengine::vkobject::VKHandle;
use crate::vm::graphicsengine::vkobject::VKHandleView;
use crate::vm::graphicsengine::vkobject::VKObject;
use crate::vm::graphicsengine::Context;
use crate::vm::graphicsengine::ContextView;
use crate::vm::graphicsengine::vkobject::check_name;
use vstd::prelude::*;

verus! {

/// The format that an image has where none is asked for.
pub const DEFAULT_FORMAT: i32 = vk::FORMAT_B8G8R8A8_UNORM;

/// The description of the error for an edge of a region that leaves the
/// image called `name`.
pub open spec fn edge_outside(edge: Seq<char>, name: Seq<char>, value: int) -> Seq<char> {
    edge + " edge of region in image ("@ + name + ") is "@ + signed_decimal_digits(value)
        + " which falls outside of the image"@
}

/// The error for a region that does not lie inside an image of the extent
/// `image`, if it does not: the first edge that leaves the image, in the
/// order left, right, top, bottom, front, back.
pub open spec fn region_error(
    name: Seq<char>,
    image: Extent3D,
    offset: Offset3D,
    extent: Extent3D,
) -> Option<ErrorView> {
    if offset.x < 0 {
        Some(out_of_range(edge_outside("-X"@, name, offset.x as int)))
    } else if offset.x + extent.width > image.width {
        Some(out_of_range(edge_outside("+X"@, name, offset.x + extent.width)))
    } else if offset.y < 0 {
        Some(out_of_range(edge_outside("-Y"@, name, offset.y as int)))
    } else if offset.y + extent.height > image.height {
        Some(out_of_range(edge_outside("+Y"@, name, offset.y + extent.height)))
    } else if offset.z < 0 {
        Some(out_of_range(edge_outside("-Z"@, name, offset.z as int)))
    } else if offset.z + extent.depth > image.depth {
        Some(out_of_range(edge_outside("+Z"@, name, offset.z + extent.depth)))
    } else {
        None
    }
}

/// Whether the region of `extent` at `offset` lies inside an image of the
/// extent `image`.
pub open spec fn region_is_inside(image: Extent3D, offset: Offset3D, extent: Extent3D) -> bool {
    &&& 0 <= offset.x && offset.x + extent.width <= image.width
    &&& 0 <= offset.y && offset.y + extent.height <= image.height
    &&& 0 <= offset.z && offset.z + extent.depth <= image.depth
}

/// A region is refused exactly when it does not lie inside the image.
pub proof fn lemma_region_error_iff_outside(
    name: Seq<char>,
    image: Extent3D,
    offset: Offset3D,
    extent: Extent3D,
)
    ensures
        region_error(name, image, offset, extent) is None <==> region_is_inside(
            image,
            offset,
            extent,
        ),
        region_error(name, image, offset, extent) matches Some(error) ==> error.kind
            == ErrorKind::OutOfRange,
{
}

fn edge_error(edge: &str, name: &str, value: i64) -> (error: FennecError)
    ensures
        error@ == out_of_range(edge_outside(edge@, name@, value as int)),
{
    let number = signed_decimal(value);
    let a = join(edge, " edge of region in image (");
    let b = join(a.as_str(), name);
    let c = join(b.as_str(), ") is ");
    let d = join(c.as_str(), number.as_str());
    let description = join(d.as_str(), " which falls outside of the image");
    assert(description@ =~= edge_outside(edge@, name@, value as int));
    FennecError::with_kind(ErrorKind::OutOfRange, description.as_str())
}

/// The name of a view of an image called `name`, where the names of views
/// begin with `prefix`.
pub open spec fn view_name(prefix: Seq<char>, name: Seq<char>) -> Seq<char> {
    prefix + name
}

/// The range that covers the color aspect of the first layer and the first
/// mip level of an image.
pub open spec fn color_basic_range() -> ImageSubresourceRange {
    ImageSubresourceRange {
        aspect_mask: vk::ASPECT_COLOR,
        base_mip_level: 0,
        level_count: 1,
        base_array_layer: 0,
        layer_count: 1,
    }
}

/// What every image offers.
pub trait Image: VKObject + Sized {
    /// The format of the texels.
    spec fn spec_format(&self) -> i32;

    /// The type that a view of the image has.
    spec fn spec_view_type(&self) -> i32;

    /// The extent of the image.
    spec fn spec_extent(&self) -> Extent3D;

    /// The number of array layers.
    spec fn spec_layer_count(&self) -> u32;

    /// The number of mip levels.
    spec fn spec_mip_count(&self) -> u32;

    /// The value of the memory behind the image, where the image owns it.
    spec fn spec_memory(&self) -> Option<MemoryView>;

    /// What the names of the views of the image begin with.
    spec fn spec_view_prefix(&self) -> Seq<char>;

    /// What the names of the views of the image begin with.
    fn view_prefix(&self) -> (prefix: &'static str)
        ensures
            prefix@ == self.spec_view_prefix(),
    ;

    /// The handle of the image.
    fn image_handle(&self) -> (handle: &VKHandle)
        ensures
            handle@ == self.wrapped(),
    ;

    /// The memory behind the image, where the image owns it, and nothing
    /// for an image whose memory belongs to somebody else.
    fn memory(&self) -> (memory: Option<&Memory>)
        ensures
            match memory {
                Some(owned) => self.spec_memory() == Some(owned@),
                None => self.spec_memory() is None,
            },
    ;

    /// The format of the texels.
    fn format(&self) -> (format: i32)
        ensures
            format == self.spec_format(),
    ;

    /// The type that a view of the image has.
    fn image_view_type(&self) -> (view_type: i32)
        ensures
            view_type == self.spec_view_type(),
    ;

    /// The extent of the image.
    fn extent(&self) -> (extent: Extent3D)
        ensures
            extent == self.spec_extent(),
    ;

    /// The number of array layers.
    fn layer_count(&self) -> (count: u32)
        ensures
            count == self.spec_layer_count(),
    ;

    /// The number of mip levels.
    fn mip_count(&self) -> (count: u32)
        ensures
            count == self.spec_mip_count(),
    ;

    /// Creates a view of `range` of the image and names it after the image.
    /// Where the device cannot be told the name of the view, nothing is
    /// created.
    fn image_view(
        &self,
        context: &mut Context,
        range: &ImageSubresourceRange,
        components: Option<ComponentMapping>,
    ) -> (result: Result<ImageView, FennecError>)
        requires
            old(context)@.can_create(1),
        ensures
            match result {
                Ok(view) => naming_error(old(context)@, view_name(self.spec_view_prefix(), self.wrapped().name)) is None && view@ == ImageView::renamed(
                    ImageView::fresh(
                        old(context)@.id,
                        old(context)@.next_handle,
                        self.spec_extent(),
                    ),
                    view_name(self.spec_view_prefix(), self.wrapped().name),
                ) && final(context)@ == old(context)@.create(1).issue(
                    ImageView::creation(
                        old(context)@.next_handle,
                        self.wrapped().handle,
                        self.spec_view_type(),
                        self.spec_format(),
                        *range,
                        components,
                    ),
                ).issue(
                    VKHandle::naming(
                        ImageView::fresh(
                            old(context)@.id,
                            old(context)@.next_handle,
                            self.spec_extent(),
                        ).handle,
                        view_name(self.spec_view_prefix(), self.wrapped().name),
                    ),
                ),
                Err(error) => naming_error(old(context)@, view_name(self.spec_view_prefix(), self.wrapped().name)) == Some(
                    error@,
                ) && final(context)@ == old(context)@,
            },
    {
        let name = join(self.view_prefix(), self.name());
        check_name(context, name.as_str())?;
        let view = match ImageView::of_image(
            context,
            self.handle(),
            self.image_view_type(),
            self.format(),
            self.extent(),
            range,
            components,
        ) {
            Ok(view) => view,
            Err(error) => {
                assert(false);
                return Err(error);
            },
        };
        match view.with_name(context, name.as_str()) {
            Ok(view) => Ok(view),
            Err(error) => {
                assert(false);
                Err(error)
            },
        }
    }

    /// Checks that the region of `extent` at `offset` lies inside the image.
    fn verify_region_is_inside(&self, offset: Offset3D, extent: Extent3D) -> (result: Result<
        (),
        FennecError,
    >)
        ensures
            match result {
                Ok(()) => region_error(self.wrapped().name, self.spec_extent(), offset, extent)
                    is None,
                Err(error) => region_error(
                    self.wrapped().name,
                    self.spec_extent(),
                    offset,
                    extent,
                ) == Some(error@),
            },
    {
        let image = self.extent();
        let region_mx = offset.x as i64;
        let region_px = region_mx + extent.width as i64;
        let region_my = offset.y as i64;
        let region_py = region_my + extent.height as i64;
        let region_mz = offset.z as i64;
        let region_pz = region_mz + extent.depth as i64;
        proof {
            reveal_strlit("-X");
            reveal_strlit("+X");
            reveal_strlit("-Y");
            reveal_strlit("+Y");
            reveal_strlit("-Z");
            reveal_strlit("+Z");
        }
        if region_mx < 0 {
            return Err(edge_error("-X", self.name(), region_mx));
        }
        if region_px > image.width as i64 {
            return Err(edge_error("+X", self.name(), region_px));
        }
        if region_my < 0 {
            return Err(edge_error("-Y", self.name(), region_my));
        }
        if region_py > image.height as i64 {
            return Err(edge_error("+Y", self.name(), region_py));
        }
        if region_mz < 0 {
            return Err(edge_error("-Z", self.name(), region_mz));
        }
        if region_pz > image.depth as i64 {
            return Err(edge_error("+Z", self.name(), region_pz));
        }
        Ok(())
    }

    /// A range of mip levels and array layers of some aspects of the image.
    fn range(
        &self,
        aspects: u32,
        base_layer: u32,
        layer_count: u32,
        base_mip: u32,
        mip_count: u32,
    ) -> (range: ImageSubresourceRange)
        ensures
            range == (ImageSubresourceRange {
                aspect_mask: aspects,
                base_mip_level: base_mip,
                level_count: mip_count,
                base_array_layer: base_layer,
                layer_count,
            }),
    {
        ImageSubresourceRange {
            aspect_mask: aspects,
            base_mip_level: base_mip,
            level_count: mip_count,
            base_array_layer: base_layer,
            layer_count,
        }
    }

    /// The range that covers the color aspect of the first layer and the
    /// first mip level.
    fn range_color_basic(&self) -> (range: ImageSubresourceRange)
        ensures
            range == color_basic_range(),
    {
        ImageSubresourceRange {
            aspect_mask: vk::aspect_color(),
            base_mip_level: 0,
            level_count: 1,
            base_array_layer: 0,
            layer_count: 1,
        }
    }

    /// The range that covers the depth and stencil aspects of the first
    /// layer and the first mip level.
    fn range_depth_stencil_basic(&self) -> (range: ImageSubresourceRange)
        ensures
            range == (ImageSubresourceRange {
                aspect_mask: vk::ASPECT_DEPTH | vk::ASPECT_STENCIL,
                base_mip_level: 0,
                level_count: 1,
                base_array_layer: 0,
                layer_count: 1,
            }),
    {
        ImageSubresourceRange {
            aspect_mask: vk::aspect_depth() | vk::aspect_stencil(),
            base_mip_level: 0,
            level_count: 1,
            base_array_layer: 0,
            layer_count: 1,
        }
    }

    /// A range of array layers of one mip level of some aspects of the
    /// image.
    fn layers(&self, aspects: u32, base_layer: u32, layer_count: u32, mip_level: u32) -> (layers:
        ImageSubresourceLayers)
        ensures
            layers == (ImageSubresourceLayers {
                aspect_mask: aspects,
                mip_level,
                base_array_layer: base_layer,
                layer_count,
            }),
    {
        ImageSubresourceLayers {
            aspect_mask: aspects,
            mip_level,
            base_array_layer: base_layer,
            layer_count,
        }
    }

    /// The color aspect of the first layer at the first mip level.
    fn layers_color_basic(&self) -> (layers: ImageSubresourceLayers)
        ensures
            layers == (ImageSubresourceLayers {
                aspect_mask: vk::ASPECT_COLOR,
                mip_level: 0,
                base_array_layer: 0,
                layer_count: 1,
            }),
    {
        ImageSubresourceLayers {
            aspect_mask: vk::aspect_color(),
            mip_level: 0,
            base_array_layer: 0,
            layer_count: 1,
        }
    }

    /// The depth and stencil aspects of the first layer at the first mip
    /// level.
    fn layers_depth_stencil_basic(&self) -> (layers: ImageSubresourceLayers)
        ensures
            layers == (ImageSubresourceLayers {
                aspect_mask: vk::ASPECT_DEPTH | vk::ASPECT_STENCIL,
                mip_level: 0,
                base_array_layer: 0,
                layer_count: 1,
            }),
    {
        ImageSubresourceLayers {
            aspect_mask: vk::aspect_depth() | vk::aspect_stencil(),
            mip_level: 0,
            base_array_layer: 0,
            layer_count: 1,
        }
    }
}

/// The indices of a list of queue families, in order.
pub open spec fn family_indices(families: Seq<&QueueFamily>) -> Seq<u32> {
    Seq::new(families.len(), |i: int| families[i]@.index)
}

/// Collects the indices of a list of queue families.
pub fn collect_family_indices(families: &[&QueueFamily]) -> (indices: Vec<u32>)
    ensures
        indices@ == family_indices(families@),
{
    let mut indices: Vec<u32> = Vec::new();
    let mut i: usize = 0;
    while i < families.len()
        invariant
            i <= families@.len(),
            indices@ == Seq::new(i as nat, |k: int| families@[k]@.index),
        decreases families@.len() - i,
    {
        indices.push(families[i].index());
        assert(indices@ =~= Seq::new((i + 1) as nat, |k: int| families@[k]@.index));
        i += 1;
    }
    indices
}

/// Settings of an image that are rarely changed. A setting that is left out
/// takes its usual value.
#[derive(Clone, Copy, Debug)]
pub struct AdvancedImageSettings {
    /// Creation flags (usually none).
    pub flags: Option<u32>,
    /// Whether several queue families use the image at once (usually not).
    pub simultaneous_use: Option<bool>,
    /// The number of mip levels (usually one).
    pub mip_count: Option<u32>,
    /// The number of samples for each texel (usually one).
    pub sample_count: Option<u32>,
    /// How the texels are laid out (usually as the device likes best).
    pub image_tiling: Option<i32>,
}

impl Default for AdvancedImageSettings {
    fn default() -> (settings: Self)
        ensures
            settings == AdvancedImageSettings::usual(),
    {
        AdvancedImageSettings {
            flags: None,
            simultaneous_use: None,
            mip_count: None,
            sample_count: None,
            image_tiling: None,
        }
    }
}

impl AdvancedImageSettings {
    /// The settings with everything left out.
    pub open spec fn usual() -> Self {
        AdvancedImageSettings {
            flags: None,
            simultaneous_use: None,
            mip_count: None,
            sample_count: None,
            image_tiling: None,
        }
    }
}

/// The mathematical value of an [`Image2D`].
pub struct Image2DView {
    pub handle: VKHandleView,
    pub memory: MemoryView,
    pub format: i32,
    pub extent: Extent2D,
    pub mip_count: u32,
}

/// An image of two dimensions that owns the memory behind it.
#[derive(Debug)]
pub struct Image2D {
    image: VKHandle,
    memory: Memory,
    format: i32,
    extent: Extent2D,
    mip_count: u32,
}

impl View for Image2D {
    type V = Image2DView;

    closed spec fn view(&self) -> Image2DView {
        Image2DView {
            handle: self.image@,
            memory: self.memory@,
            format: self.format,
            extent: self.extent,
            mip_count: self.mip_count,
        }
    }
}

impl VKObject for Image2D {
    open spec fn wrapped(&self) -> VKHandleView {
        self@.handle
    }

    fn wrapped_handle(&self) -> (wrapped: &VKHandle) {
        &self.image
    }
}

impl Image for Image2D {
    open spec fn spec_format(&self) -> i32 {
        self@.format
    }

    open spec fn spec_view_type(&self) -> i32 {
        vk::IMAGE_VIEW_TYPE_2D
    }

    open spec fn spec_extent(&self) -> Extent3D {
        Extent3D { width: self@.extent.width, height: self@.extent.height, depth: 1 }
    }

    open spec fn spec_layer_count(&self) -> u32 {
        1
    }

    open spec fn spec_mip_count(&self) -> u32 {
        self@.mip_count
    }

    open spec fn spec_memory(&self) -> Option<MemoryView> {
        Some(self@.memory)
    }

    open spec fn spec_view_prefix(&self) -> Seq<char> {
        "view into "@
    }

    fn view_prefix(&self) -> (prefix: &'static str) {
        "view into "
    }

    fn image_handle(&self) -> (handle: &VKHandle) {
        &self.image
    }

    fn memory(&self) -> (memory: Option<&Memory>) {
        Some(&self.memory)
    }

    fn format(&self) -> (format: i32) {
        self.format
    }

    fn image_view_type(&self) -> (view_type: i32) {
        vk::image_view_type_2d()
    }

    fn extent(&self) -> (extent: Extent3D) {
        Extent3D { width: self.extent.width, height: self.extent.height, depth: 1 }
    }

    fn layer_count(&self) -> (count: u32) {
        1
    }

    fn mip_count(&self) -> (count: u32) {
        self.mip_count
    }
}

/// The description of the error for an image without mip levels.
pub open spec fn no_mip_levels() -> Seq<char> {
    "# of mipmap levels must be greater than 0"@
}

/// The description of the error for an image without width.
pub open spec fn no_width() -> Seq<char> {
    "extent.width must be greater than 0"@
}

/// The description of the error for an image without height.
pub open spec fn no_height() -> Seq<char> {
    "extent.height must be greater than 0"@
}

/// The name of the memory behind a resource called `name`.
pub open spec fn memory_name(name: Seq<char>) -> Seq<char> {
    name + ".memory"@
}

impl Image2D {
    /// The error that the description of an image is refused with, if it
    /// is: no mip levels, no width and no height, in this order.
    pub open spec fn description_error(
        extent: Extent2D,
        advanced_settings: Option<AdvancedImageSettings>,
    ) -> Option<ErrorView> {
        if advanced_settings matches Some(settings) && settings.mip_count == Some(0u32) {
            Some(out_of_range(no_mip_levels()))
        } else if extent.width == 0 {
            Some(out_of_range(no_width()))
        } else if extent.height == 0 {
            Some(out_of_range(no_height()))
        } else {
            None
        }
    }

    /// The description that an image is created from. What is left out of
    /// the settings takes its usual value.
    pub open spec fn create_info(
        extent: Extent2D,
        usage: u32,
        format: Option<i32>,
        initial_layout: Option<i32>,
        advanced_settings: Option<AdvancedImageSettings>,
    ) -> ImageCreateInfo {
        let settings = match advanced_settings {
            Some(settings) => settings,
            None => AdvancedImageSettings::usual(),
        };
        ImageCreateInfo {
            flags: match settings.flags {
                Some(flags) => flags,
                None => 0,
            },
            image_type: vk::IMAGE_TYPE_2D,
            format: match format {
                Some(format) => format,
                None => DEFAULT_FORMAT,
            },
            extent: Extent3D { width: extent.width, height: extent.height, depth: 1 },
            mip_levels: match settings.mip_count {
                Some(count) => count,
                None => 1,
            },
            array_layers: 1,
            samples: match settings.sample_count {
                Some(count) => count,
                None => vk::SAMPLES_ONE,
            },
            tiling: match settings.image_tiling {
                Some(tiling) => tiling,
                None => vk::TILING_OPTIMAL,
            },
            usage,
            sharing_mode: if settings.simultaneous_use == Some(true) {
                vk::SHARING_CONCURRENT
            } else {
                vk::SHARING_EXCLUSIVE
            },
            initial_layout: match initial_layout {
                Some(layout) => layout,
                None => vk::LAYOUT_UNDEFINED,
            },
        }
    }

    /// Creates an image of two dimensions with memory of its own on the
    /// device. `memory_reqs` is what the device asks of the memory behind an
    /// image of this description.
    ///
    /// A description without mip levels, width or height is refused before
    /// anything is issued. Where the device offers no memory that fits, the
    /// image has been created already and is left behind.
    pub fn new(
        context: &mut Context,
        extent: Extent2D,
        usage: u32,
        shared_among: &[&QueueFamily],
        format: Option<i32>,
        initial_layout: Option<i32>,
        advanced_settings: Option<AdvancedImageSettings>,
        memory_reqs: MemoryRequirements,
    ) -> (result: Result<Self, FennecError>)
        requires
            old(context)@.can_create(2),
        ensures
            match result {
                Ok(image) => {
                    &&& Image2D::description_error(extent, advanced_settings) is None
                    &&& old(context)@.readable()
                    &&& find_memory_type(
                        old(context)@.memory_types,
                        memory_reqs.memory_type_bits,
                        vk::MEMORY_DEVICE_LOCAL,
                        0,
                    ) matches Some(memory_type_index)
                    &&& final(context)@ == old(context)@.create(2).issue(
                        DeviceCallView::CreateImage {
                            image: old(context)@.next_handle,
                            info: Image2D::create_info(
                                extent,
                                usage,
                                format,
                                initial_layout,
                                advanced_settings,
                            ),
                            queue_family_indices: family_indices(shared_among@),
                        },
                    ).issue(
                        DeviceCallView::AllocateMemory {
                            memory: (old(context)@.next_handle + 1) as u64,
                            size: memory_reqs.size,
                            memory_type_index,
                        },
                    ).issue(
                        DeviceCallView::BindImageMemory {
                            image: old(context)@.next_handle,
                            memory: (old(context)@.next_handle + 1) as u64,
                            offset: 0,
                        },
                    )
                    &&& image@ == (Image2DView {
                        handle: VKHandleView {
                            context: old(context)@.id,
                            handle_type: HandleType::Image,
                            handle: old(context)@.next_handle,
                            protected: false,
                            name: unnamed(),
                        },
                        memory: Memory::fresh(
                            old(context)@.id,
                            (old(context)@.next_handle + 1) as u64,
                            vk::MEMORY_DEVICE_LOCAL,
                            memory_reqs.size,
                        ),
                        format: Image2D::create_info(
                            extent,
                            usage,
                            format,
                            initial_layout,
                            advanced_settings,
                        ).format,
                        extent,
                        mip_count: Image2D::create_info(
                            extent,
                            usage,
                            format,
                            initial_layout,
                            advanced_settings,
                        ).mip_levels,
                    })
                },
                Err(error) => {
                    if Image2D::description_error(extent, advanced_settings) is Some {
                        Image2D::description_error(extent, advanced_settings) == Some(error@)
                            && final(context)@ == old(context)@
                    } else if !old(context)@.readable() {
                        error@ == old(context)@.borrow_error() && final(context)@ == old(context)@
                    } else {
                        &&& find_memory_type(
                            old(context)@.memory_types,
                            memory_reqs.memory_type_bits,
                            vk::MEMORY_DEVICE_LOCAL,
                            0,
                        ) is None
                        &&& error@ == plain_error(
                            ErrorKind::General,
                            memory_type_unavailable(
                                memory_reqs.memory_type_bits,
                                vk::MEMORY_DEVICE_LOCAL,
                            ),
                        )
                        &&& final(context)@ == old(context)@.create(1).issue(
                            DeviceCallView::CreateImage {
                                image: old(context)@.next_handle,
                                info: Image2D::create_info(
                                    extent,
                                    usage,
                                    format,
                                    initial_layout,
                                    advanced_settings,
                                ),
                                queue_family_indices: family_indices(shared_among@),
                            },
                        )
                    }
                },
            },
    {
        let settings = match advanced_settings {
            Some(settings) => settings,
            None => AdvancedImageSettings::default(),
        };
        if let Some(mip_levels) = settings.mip_count {
            if mip_levels == 0 {
                return Err(
                    FennecError::with_kind(
                        ErrorKind::OutOfRange,
                        "# of mipmap levels must be greater than 0",
                    ),
                );
            }
        }
        if extent.width == 0 {
            return Err(
                FennecError::with_kind(
                    ErrorKind::OutOfRange,
                    "extent.width must be greater than 0",
                ),
            );
        }
        if extent.height == 0 {
            return Err(
                FennecError::with_kind(
                    ErrorKind::OutOfRange,
                    "extent.height must be greater than 0",
                ),
            );
        }
        context.check_readable()?;
        let image_format = match format {
            Some(format) => format,
            None => vk::format_b8g8r8a8_unorm(),
        };
        let mip_count = match settings.mip_count {
            Some(count) => count,
            None => 1,
        };
        let simultaneous_use = match settings.simultaneous_use {
            Some(simultaneous_use) => simultaneous_use,
            None => false,
        };
        let info = ImageCreateInfo {
            flags: match settings.flags {
                Some(flags) => flags,
                None => 0,
            },
            image_type: vk::image_type_2d(),
            format: image_format,
            extent: Extent3D { width: extent.width, height: extent.height, depth: 1 },
            mip_levels: mip_count,
            array_layers: 1,
            samples: match settings.sample_count {
                Some(count) => count,
                None => vk::samples_one(),
            },
            tiling: match settings.image_tiling {
                Some(tiling) => tiling,
                None => vk::tiling_optimal(),
            },
            usage,
            sharing_mode: if simultaneous_use {
                vk::sharing_concurrent()
            } else {
                vk::sharing_exclusive()
            },
            initial_layout: match initial_layout {
                Some(layout) => layout,
                None => vk::layout_undefined(),
            },
        };
        let image = context.create_handle();
        context.issue(
            DeviceCall::CreateImage {
                image,
                info,
                queue_family_indices: collect_family_indices(shared_among),
            },
        );
        let memory = Memory::new(context, memory_reqs, vk::memory_device_local())?;
        context.issue(DeviceCall::BindImageMemory { image, memory: memory.handle(), offset: 0 });
        Ok(
            Self {
                image: VKHandle::new(context, HandleType::Image, image, false),
                memory,
                format: image_format,
                extent,
                mip_count,
            },
        )
    }

    /// The image under another name, with its memory named after it.
    pub open spec fn renamed(image: Image2DView, name: Seq<char>) -> Image2DView {
        Image2DView {
            handle: VKHandleView { name, ..image.handle },
            memory: MemoryView {
                handle: VKHandleView { name: memory_name(name), ..image.memory.handle },
                ..image.memory
            },
            ..image
        }
    }

    /// Names the image, here and on the device, and its memory after it.
    /// Where the context is exclusively borrowed the call fails; the image
    /// keeps its new name on this side, and its memory is not touched.
    pub fn set_name(&mut self, context: &mut Context, name: &str) -> (result: Result<
        (),
        FennecError,
    >)
        ensures
            match result {
                Ok(()) => naming_error(old(context)@, name@) is None && final(self)@ == Image2D::renamed(
                    old(self)@,
                    name@,
                ) && final(context)@ == old(context)@.issue(
                    VKHandle::naming(old(self)@.handle, name@),
                ).issue(VKHandle::naming(old(self)@.memory.handle, memory_name(name@))),
                Err(error) => naming_error(old(context)@, name@) == Some(error@)
                    && final(context)@ == old(context)@ && final(self)@ == (Image2DView {
                    handle: VKHandleView { name: name@, ..old(self)@.handle },
                    ..old(self)@
                }),
            },
    {
        let annotated = self.image.annotate(context, name);
        match annotated {
            Ok(()) => {},
            Err(error) => {
                return Err(error);
            },
        }
        let memory_name = join(name, ".memory");
        proof {
            reveal_strlit(".memory");
            lemma_naming_error_of_longer_name(context@, name@, ".memory"@);
        }
        self.memory.set_name(context, memory_name.as_str())
    }

    /// What the context looks like after an object that could not be named
    /// was given up: the object is destroyed where a call can be issued.
    pub open spec fn abandoned(value: Image2DView, context: ContextView) -> ContextView {
        if context.readable() {
            VKHandle::released(
                value.memory.handle,
                VKHandle::released(value.handle, context),
            )
        } else {
            context
        }
    }

    /// Names the image and hands it back. Where it cannot be
    /// named it is given up: destroyed, where the context lets a call
    /// through.
    pub fn with_name(self, context: &mut Context, name: &str) -> (result: Result<
        Self,
        FennecError,
    >)
        ensures
            match result {
                Ok(named) => naming_error(old(context)@, name@) is None && named@ == Image2D::renamed(self@, name@)
                    && final(context)@ == old(context)@.issue(
                    VKHandle::naming(self@.handle, name@),
                ).issue(VKHandle::naming(self@.memory.handle, memory_name(name@))),
                Err(error) => naming_error(old(context)@, name@) == Some(error@)
                    && final(context)@ == Self::abandoned(self@, old(context)@),
            },
    {
        let mut named = self;
        match named.set_name(context, name) {
            Ok(()) => Ok(named),
            Err(error) => {
                match context.check_readable() {
                    Ok(()) => named.destroy(context),
                    Err(_) => {},
                }
                Err(error)
            },
        }
    }

    /// Ends the life of the image: the image is destroyed, then its memory
    /// is freed.
    pub fn destroy(self, context: &mut Context)
        requires
            old(context)@.readable(),
        ensures
            final(context)@ == VKHandle::released(
                self@.memory.handle,
                VKHandle::released(self@.handle, old(context)@),
            ),
    {
        self.image.release(context);
        self.memory.destroy(context);
    }
}

} // verus!
