//! The swapchain: the images that are shown on the surface, and the
//! choices made when it is created.

use crate::error::illegal_state;
use crate::error::plain_error;
use crate::error::ErrorKind;
use crate::error::ErrorView;
use crate::error::FennecError;
use crate::text::decimal;
use crate::text::decimal_digits;
use crate::text::join;
use crate::vm::graphicsengine::device::DeviceCall;
use crate::vm::graphicsengine::device::DeviceCallView;
use crate::vm::graphicsengine::device::Extent2D;
use crate::vm::graphicsengine::device::Extent3D;
use crate::vm::graphicsengine::device::SurfaceCapabilities;
use crate::vm::graphicsengine::device::SurfaceFormat;
use crate::vm::graphicsengine::device::SwapchainCreateInfo;
use crate::vm::graphicsengine::image::Image;
use crate::vm::graphicsengine::memory::Memory;
use crate::vm::graphicsengine::memory::MemoryView;
use crate::vm::graphicsengine::queue::fence_handle;
use crate::vm::graphicsengine::queue::Queue;
use crate::vm::graphicsengine::sync::Fence;
use crate::vm::graphicsengine::sync::Semaphore;
use crate::vm::graphicsengine::vk;
use crate::vm::graphicsengine::vkobject::unnamed;
use crate::vm::graphicsengine::vkobject::HandleType;
use crate::vm::graphicsengine::vkobject::naming_error;
use crate::vm::graphicsengine::vkobject::VKHandle;
use crate::vm::graphicsengine::vkobject::VKHandleView;
use crate::vm::graphicsengine::vkobject::VKObject;
use crate::vm::graphicsengine::Context;
use crate::vm::graphicsengine::ContextView;
use crate::text::lemma_digits_have_no_nul;
use crate::text::lemma_has_nul_of_pieces;
use crate::vm::graphicsengine::vkobject::lemma_naming_error_of_longer_name;
use vstd::prelude::*;

verus! {

/// The format that the images of the swapchain should have.
pub const PREFERRED_SURFACE_FORMAT: i32 = vk::FORMAT_B8G8R8A8_UNORM;

/// The color space that the images of the swapchain should be shown in.
pub const PREFERRED_COLOR_SPACE: i32 = vk::COLOR_SPACE_SRGB_NONLINEAR;

/// The way in which images should be presented.
pub const PREFERRED_PRESENT_MODE: i32 = vk::PRESENT_MODE_MAILBOX;

/// What the device reports of the surface, and the size of the window
/// behind it in pixels, if the window exists.
#[derive(Debug)]
pub struct SurfaceSupport {
    pub formats: Vec<SurfaceFormat>,
    pub capabilities: SurfaceCapabilities,
    pub present_modes: Vec<i32>,
    pub client_size_pixels: Option<(u32, u32)>,
}

/// Whether a surface format has the preferred format and color space.
pub open spec fn is_preferred(format: SurfaceFormat) -> bool {
    format.format == PREFERRED_SURFACE_FORMAT && format.color_space == PREFERRED_COLOR_SPACE
}

/// The first of the formats from `from` on that is the preferred one.
pub open spec fn first_preferred(formats: Seq<SurfaceFormat>, from: int) -> Option<SurfaceFormat>
    decreases formats.len() - from,
{
    if from < 0 || from >= formats.len() {
        None
    } else if is_preferred(formats[from]) {
        Some(formats[from])
    } else {
        first_preferred(formats, from + 1)
    }
}

/// The first of the formats from `from` on that has the preferred format,
/// in whatever color space.
pub open spec fn first_of_format(formats: Seq<SurfaceFormat>, from: int) -> Option<SurfaceFormat>
    decreases formats.len() - from,
{
    if from < 0 || from >= formats.len() {
        None
    } else if formats[from].format == PREFERRED_SURFACE_FORMAT {
        Some(formats[from])
    } else {
        first_of_format(formats, from + 1)
    }
}

/// The surface format that a swapchain is created with: the preferred one
/// where the surface offers it, else the first with the preferred format,
/// else the first that the surface offers.
pub open spec fn chosen_format(formats: Seq<SurfaceFormat>) -> Option<SurfaceFormat> {
    if first_preferred(formats, 0) is Some {
        first_preferred(formats, 0)
    } else if first_of_format(formats, 0) is Some {
        first_of_format(formats, 0)
    } else if formats.len() > 0 {
        Some(formats[0])
    } else {
        None
    }
}

/// Whether `mode` is among the modes from `from` on.
pub open spec fn offers_mode(present_modes: Seq<i32>, mode: i32, from: int) -> bool
    decreases present_modes.len() - from,
{
    if from < 0 || from >= present_modes.len() {
        false
    } else if present_modes[from] == mode {
        true
    } else {
        offers_mode(present_modes, mode, from + 1)
    }
}

/// The present mode that a swapchain is created with: the preferred one
/// where the surface offers it, else the first that the surface offers.
pub open spec fn chosen_present_mode(present_modes: Seq<i32>) -> Option<i32> {
    if offers_mode(present_modes, PREFERRED_PRESENT_MODE, 0) {
        Some(PREFERRED_PRESENT_MODE)
    } else if present_modes.len() > 0 {
        Some(present_modes[0])
    } else {
        None
    }
}

/// The number of images that a swapchain asks for: a third of the way from
/// the least to the most that the surface allows.
pub open spec fn chosen_image_count(capabilities: SurfaceCapabilities) -> u32 {
    ((capabilities.max_image_count + capabilities.min_image_count * 2) / 3) as u32
}

/// The extent that the images of a swapchain have: the current extent of
/// the surface, or the size of the window where the surface leaves the
/// extent open.
pub open spec fn chosen_extent(
    capabilities: SurfaceCapabilities,
    client_size_pixels: Option<(u32, u32)>,
) -> Option<Extent2D> {
    if capabilities.current_extent.width == u32::MAX {
        match client_size_pixels {
            Some(size) => Some(Extent2D { width: size.0, height: size.1 }),
            None => None,
        }
    } else {
        Some(capabilities.current_extent)
    }
}

/// The description of the error for a surface without formats.
pub open spec fn no_surface_formats() -> Seq<char> {
    "No surface formats available on this physical device... somehow?"@
}

/// The description of the error for a surface without present modes.
pub open spec fn no_present_modes() -> Seq<char> {
    "No present modes available on this physical device... somehow?"@
}

/// The description of the error for a window that is gone.
pub open spec fn no_window() -> Seq<char> {
    "Window does not exist"@
}

/// Chooses the surface format of a swapchain.
pub fn choose_format(formats: &Vec<SurfaceFormat>) -> (result: Result<SurfaceFormat, FennecError>)
    ensures
        match result {
            Ok(format) => chosen_format(formats@) == Some(format),
            Err(error) => chosen_format(formats@) is None && error@ == plain_error(
                ErrorKind::General,
                no_surface_formats(),
            ),
        },
{
    let mut i: usize = 0;
    while i < formats.len()
        invariant
            i <= formats@.len(),
            first_preferred(formats@, 0) == first_preferred(formats@, i as int),
        decreases formats@.len() - i,
    {
        if formats[i].format == vk::format_b8g8r8a8_unorm() && formats[i].color_space
            == vk::color_space_srgb_nonlinear() {
            return Ok(formats[i]);
        }
        i += 1;
    }
    let mut i: usize = 0;
    while i < formats.len()
        invariant
            i <= formats@.len(),
            first_preferred(formats@, 0) is None,
            first_of_format(formats@, 0) == first_of_format(formats@, i as int),
        decreases formats@.len() - i,
    {
        if formats[i].format == vk::format_b8g8r8a8_unorm() {
            return Ok(formats[i]);
        }
        i += 1;
    }
    if formats.len() > 0 {
        Ok(formats[0])
    } else {
        Err(
            FennecError::with_kind(
                ErrorKind::General,
                "No surface formats available on this physical device... somehow?",
            ),
        )
    }
}

/// Chooses the present mode of a swapchain.
pub fn choose_present_mode(present_modes: &Vec<i32>) -> (result: Result<i32, FennecError>)
    ensures
        match result {
            Ok(mode) => chosen_present_mode(present_modes@) == Some(mode),
            Err(error) => chosen_present_mode(present_modes@) is None && error@ == plain_error(
                ErrorKind::General,
                no_present_modes(),
            ),
        },
{
    let preferred = vk::present_mode_mailbox();
    let mut i: usize = 0;
    while i < present_modes.len()
        invariant
            i <= present_modes@.len(),
            preferred == PREFERRED_PRESENT_MODE,
            offers_mode(present_modes@, PREFERRED_PRESENT_MODE, 0) == offers_mode(
                present_modes@,
                PREFERRED_PRESENT_MODE,
                i as int,
            ),
        decreases present_modes@.len() - i,
    {
        if present_modes[i] == preferred {
            return Ok(preferred);
        }
        i += 1;
    }
    if present_modes.len() > 0 {
        Ok(present_modes[0])
    } else {
        Err(
            FennecError::with_kind(
                ErrorKind::General,
                "No present modes available on this physical device... somehow?",
            ),
        )
    }
}

/// Chooses the number of images of a swapchain.
pub fn choose_image_count(capabilities: &SurfaceCapabilities) -> (count: u32)
    ensures
        count == chosen_image_count(*capabilities),
{
    let sum: u64 = capabilities.max_image_count as u64 + capabilities.min_image_count as u64 * 2;
    (sum / 3) as u32
}

/// Chooses the extent of the images of a swapchain.
pub fn choose_extent(capabilities: &SurfaceCapabilities, client_size_pixels: Option<(u32, u32)>) -> (result:
    Result<Extent2D, FennecError>)
    ensures
        match result {
            Ok(extent) => chosen_extent(*capabilities, client_size_pixels) == Some(extent),
            Err(error) => chosen_extent(*capabilities, client_size_pixels) is None && error@
                == plain_error(ErrorKind::General, no_window()),
        },
{
    if capabilities.current_extent.width == u32::MAX {
        match client_size_pixels {
            Some(size) => Ok(Extent2D { width: size.0, height: size.1 }),
            None => Err(FennecError::with_kind(ErrorKind::General, "Window does not exist")),
        }
    } else {
        Ok(capabilities.current_extent)
    }
}

/// The mathematical value of a [`SwapchainImage`].
pub struct SwapchainImageView {
    pub handle: VKHandleView,
    pub format: i32,
    pub extent: Extent2D,
}

/// An image of the swapchain. It belongs to the presentation engine: its
/// handle is protected and never destroyed.
#[derive(Debug)]
pub struct SwapchainImage {
    image: VKHandle,
    format: i32,
    extent: Extent2D,
}

impl View for SwapchainImage {
    type V = SwapchainImageView;

    closed spec fn view(&self) -> SwapchainImageView {
        SwapchainImageView { handle: self.image@, format: self.format, extent: self.extent }
    }
}

impl VKObject for SwapchainImage {
    open spec fn wrapped(&self) -> VKHandleView {
        self@.handle
    }

    fn wrapped_handle(&self) -> (wrapped: &VKHandle) {
        &self.image
    }
}

impl Image for SwapchainImage {
    open spec fn spec_format(&self) -> i32 {
        self@.format
    }

    open spec fn spec_view_type(&self) -> i32 {
        vk::IMAGE_VIEW_TYPE_2D
    }

    open spec fn spec_extent(&self) -> Extent3D {
        Extent3D { width: self@.extent.width, height: self@.extent.height, depth: 1 }
    }

    open spec fn spec_layer_count(&self) -> u32 {
        1
    }

    open spec fn spec_mip_count(&self) -> u32 {
        1
    }

    open spec fn spec_memory(&self) -> Option<MemoryView> {
        None
    }

    open spec fn spec_view_prefix(&self) -> Seq<char> {
        "View into "@
    }

    fn view_prefix(&self) -> (prefix: &'static str) {
        "View into "
    }

    fn image_handle(&self) -> (handle: &VKHandle) {
        &self.image
    }

    fn memory(&self) -> (memory: Option<&Memory>) {
        None
    }

    fn format(&self) -> (format: i32) {
        self.format
    }

    fn image_view_type(&self) -> (view_type: i32) {
        vk::image_view_type_2d()
    }

    fn extent(&self) -> (extent: Extent3D) {
        Extent3D { width: self.extent.width, height: self.extent.height, depth: 1 }
    }

    fn layer_count(&self) -> (count: u32) {
        1
    }

    fn mip_count(&self) -> (count: u32) {
        1
    }
}

/// The name of image number `index` of a swapchain called `swapchain`.
pub open spec fn swapchain_image_name(swapchain: Seq<char>, index: nat) -> Seq<char> {
    swapchain + "."@ + decimal_digits(index)
}

/// An image of a swapchain can be named exactly when the swapchain can, and
/// fails with the same error: what is added behind the name of the
/// swapchain holds no NUL character.
pub proof fn lemma_image_name_follows_swapchain(
    context: ContextView,
    swapchain: Seq<char>,
    index: nat,
)
    ensures
        naming_error(context, swapchain_image_name(swapchain, index)) == naming_error(
            context,
            swapchain,
        ),
{
    reveal_strlit(".");
    lemma_digits_have_no_nul(index);
    lemma_has_nul_of_pieces("."@, decimal_digits(index));
    assert(swapchain_image_name(swapchain, index) =~= swapchain + ("."@ + decimal_digits(index)));
    lemma_naming_error_of_longer_name(context, swapchain, "."@ + decimal_digits(index));
}

fn make_swapchain_image_name(swapchain: &str, index: usize) -> (name: String)
    ensures
        name@ == swapchain_image_name(swapchain@, index as nat),
{
    let number = decimal(index as u64);
    let head = join(swapchain, ".");
    let name = join(head.as_str(), number.as_str());
    assert(name@ =~= swapchain_image_name(swapchain@, index as nat));
    name
}

impl SwapchainImage {
    /// The value of image number `index` of a swapchain, bound to `handle`
    /// and named after the swapchain.
    pub open spec fn fetched(
        context: u64,
        handle: u64,
        format: i32,
        extent: Extent2D,
        name: Seq<char>,
    ) -> SwapchainImageView {
        SwapchainImageView {
            handle: VKHandleView {
                context,
                handle_type: HandleType::Image,
                handle,
                protected: true,
                name,
            },
            format,
            extent,
        }
    }

    fn new(context: &Context, swapchain_image: u64, format: i32, extent: Extent2D) -> (image: Self)
        ensures
            image@ == SwapchainImage::fetched(
                context@.id,
                swapchain_image,
                format,
                extent,
                unnamed(),
            ),
    {
        Self {
            image: VKHandle::new(context, HandleType::Image, swapchain_image, true),
            format,
            extent,
        }
    }

    /// The image under another name.
    pub open spec fn renamed(image: SwapchainImageView, name: Seq<char>) -> SwapchainImageView {
        SwapchainImageView { handle: VKHandleView { name, ..image.handle }, ..image }
    }

    /// Names the image, here and on the device.
    pub fn set_name(&mut self, context: &mut Context, name: &str) -> (result: Result<
        (),
        FennecError,
    >)
        ensures
            final(self)@ == SwapchainImage::renamed(old(self)@, name@),
            match result {
                Ok(()) => naming_error(old(context)@, name@) is None && final(context)@ == old(context)@.issue(
                    VKHandle::naming(old(self)@.handle, name@),
                ),
                Err(error) => naming_error(old(context)@, name@) == Some(error@)
                    && final(context)@ == old(context)@,
            },
    {
        self.image.annotate(context, name)
    }
}

/// The mathematical value of a [`Swapchain`].
pub struct SwapchainView {
    pub handle: VKHandleView,
    /// The images of the swapchain, once they are fetched.
    pub images: Seq<SwapchainImage>,
    pub format: i32,
    pub extent: Extent2D,
}

/// The swapchain.
#[derive(Debug)]
pub struct Swapchain {
    swapchain: VKHandle,
    swapchain_images: Vec<SwapchainImage>,
    format: i32,
    extent: Extent2D,
}

impl View for Swapchain {
    type V = SwapchainView;

    closed spec fn view(&self) -> SwapchainView {
        SwapchainView {
            handle: self.swapchain@,
            images: self.swapchain_images@,
            format: self.format,
            extent: self.extent,
        }
    }
}

impl VKObject for Swapchain {
    open spec fn wrapped(&self) -> VKHandleView {
        self@.handle
    }

    fn wrapped_handle(&self) -> (wrapped: &VKHandle) {
        &self.swapchain
    }
}

/// The calls that name the first `count` images of a swapchain after the
/// name `swapchain`. The images are bound to the handles from `first` on.
pub open spec fn image_naming(swapchain: Seq<char>, first: u64, count: nat) -> Seq<DeviceCallView> {
    Seq::new(
        count,
        |i: int|
            DeviceCallView::SetObjectName {
                handle_type: HandleType::Image,
                handle: (first + i) as u64,
                name: swapchain_image_name(swapchain, i as nat),
            },
    )
}

/// The description of the error for a swapchain whose images are fetched
/// twice.
pub open spec fn images_already_fetched() -> Seq<char> {
    "The images of the swapchain are fetched already"@
}

/// The name that the images of a swapchain are given when they are fetched.
pub open spec fn fetched_image_prefix() -> Seq<char> {
    "Swapchain"@
}

impl Swapchain {
    /// The error that the creation of a swapchain is refused with, if it
    /// is: a context that is exclusively borrowed, a surface without
    /// formats, a surface that leaves the extent open while the window is
    /// gone, and a surface without present modes, in this order.
    pub open spec fn support_error(context: ContextView, support: SurfaceSupport) -> Option<
        ErrorView,
    > {
        if !context.readable() {
            Some(context.borrow_error())
        } else if chosen_format(support.formats@) is None {
            Some(plain_error(ErrorKind::General, no_surface_formats()))
        } else if chosen_extent(support.capabilities, support.client_size_pixels) is None {
            Some(plain_error(ErrorKind::General, no_window()))
        } else if chosen_present_mode(support.present_modes@) is None {
            Some(plain_error(ErrorKind::General, no_present_modes()))
        } else {
            None
        }
    }

    /// The description that a swapchain is created from, where the surface
    /// supports one.
    pub open spec fn create_info(support: SurfaceSupport) -> SwapchainCreateInfo {
        SwapchainCreateInfo {
            min_image_count: chosen_image_count(support.capabilities),
            image_format: chosen_format(support.formats@)->Some_0.format,
            image_color_space: chosen_format(support.formats@)->Some_0.color_space,
            image_extent: chosen_extent(support.capabilities, support.client_size_pixels)->Some_0,
            image_array_layers: 1,
            image_usage: vk::IMAGE_USAGE_COLOR_ATTACHMENT | vk::IMAGE_USAGE_TRANSFER_DST,
            image_sharing_mode: vk::SHARING_EXCLUSIVE,
            pre_transform: support.capabilities.current_transform,
            composite_alpha: vk::COMPOSITE_ALPHA_OPAQUE,
            present_mode: chosen_present_mode(support.present_modes@)->Some_0,
            clipped: true,
        }
    }

    /// Creates the swapchain for the surface. Its images are fetched by
    /// [`Swapchain::fetch_images`] once the device has made them.
    pub fn new(context: &mut Context, support: &SurfaceSupport) -> (result: Result<
        Self,
        FennecError,
    >)
        requires
            old(context)@.can_create(1),
        ensures
            match result {
                Ok(swapchain) => {
                    &&& Swapchain::support_error(old(context)@, *support) is None
                    &&& final(context)@ == old(context)@.create(1).issue(
                        DeviceCallView::CreateSwapchain {
                            swapchain: old(context)@.next_handle,
                            info: Swapchain::create_info(*support),
                        },
                    )
                    &&& swapchain@ == (SwapchainView {
                        handle: VKHandleView {
                            context: old(context)@.id,
                            handle_type: HandleType::Swapchain,
                            handle: old(context)@.next_handle,
                            protected: false,
                            name: unnamed(),
                        },
                        images: Seq::empty(),
                        format: Swapchain::create_info(*support).image_format,
                        extent: Swapchain::create_info(*support).image_extent,
                    })
                },
                Err(error) => Swapchain::support_error(old(context)@, *support) == Some(error@)
                    && final(context)@ == old(context)@,
            },
    {
        context.check_readable()?;
        let format = choose_format(&support.formats)?;
        let image_count = choose_image_count(&support.capabilities);
        let resolution = choose_extent(&support.capabilities, support.client_size_pixels)?;
        let present_mode = choose_present_mode(&support.present_modes)?;
        let info = SwapchainCreateInfo {
            min_image_count: image_count,
            image_format: format.format,
            image_color_space: format.color_space,
            image_extent: resolution,
            image_array_layers: 1,
            image_usage: vk::image_usage_color_attachment() | vk::image_usage_transfer_dst(),
            image_sharing_mode: vk::sharing_exclusive(),
            pre_transform: support.capabilities.current_transform,
            composite_alpha: vk::composite_alpha_opaque(),
            present_mode,
            clipped: true,
        };
        let swapchain = context.create_handle();
        context.issue(DeviceCall::CreateSwapchain { swapchain, info });
        Ok(
            Self {
                swapchain: VKHandle::new(context, HandleType::Swapchain, swapchain, false),
                swapchain_images: Vec::new(),
                format: format.format,
                extent: resolution,
            },
        )
    }

    /// The error that fetching the images is refused with, if it is: images
    /// that are fetched already, and a context that is exclusively
    /// borrowed, in this order.
    pub open spec fn fetch_error(swapchain: SwapchainView, context: ContextView) -> Option<
        ErrorView,
    > {
        if swapchain.images.len() > 0 {
            Some(illegal_state(images_already_fetched()))
        } else if !context.readable() {
            Some(context.borrow_error())
        } else {
            None
        }
    }

    /// Fetches the `count` images that the device made for the swapchain,
    /// and names each after its number. The images belong to the
    /// presentation engine: they are protected.
    pub fn fetch_images(&mut self, context: &mut Context, count: u32) -> (result: Result<
        (),
        FennecError,
    >)
        requires
            old(context)@.can_create(count as nat),
        ensures
            match result {
                Ok(()) => {
                    &&& Swapchain::fetch_error(old(self)@, old(context)@) is None
                    &&& final(context)@ == old(context)@.create(count as nat).issue(
                        DeviceCallView::GetSwapchainImages {
                            swapchain: old(self)@.handle.handle,
                            first: old(context)@.next_handle,
                            count,
                        },
                    ).issue_all(
                        image_naming(fetched_image_prefix(), old(context)@.next_handle, count as nat),
                    )
                    &&& final(self)@.handle == old(self)@.handle
                    &&& final(self)@.format == old(self)@.format
                    &&& final(self)@.extent == old(self)@.extent
                    &&& final(self)@.images.len() == count
                    &&& forall|i: int|
                        0 <= i < count ==> (#[trigger] final(self)@.images[i])@
                            == SwapchainImage::fetched(
                            old(context)@.id,
                            (old(context)@.next_handle + i) as u64,
                            old(self)@.format,
                            old(self)@.extent,
                            swapchain_image_name(fetched_image_prefix(), i as nat),
                        )
                },
                Err(error) => Swapchain::fetch_error(old(self)@, old(context)@) == Some(error@)
                    && final(self)@ == old(self)@ && final(context)@ == old(context)@,
            },
    {
        if self.swapchain_images.len() > 0 {
            return Err(
                FennecError::with_kind(
                    ErrorKind::IllegalState,
                    "The images of the swapchain are fetched already",
                ),
            );
        }
        context.check_readable()?;
        let first = context.create_handles(count);
        context.issue(
            DeviceCall::GetSwapchainImages { swapchain: self.swapchain.handle(), first, count },
        );
        let ghost fetched = context@;
        let ghost names = image_naming(fetched_image_prefix(), first, count as nat);
        proof {
            fetched.lemma_issue_all_advances(Seq::empty());
            assert(names.take(0) =~= Seq::empty());
        }
        let mut idx: u32 = 0;
        while idx < count
            invariant
                idx <= count,
                first + count <= u64::MAX,
                fetched.readable(),
                fetched.id == old(context)@.id,
                names == image_naming(fetched_image_prefix(), first, count as nat),
                context@ == fetched.issue_all(names.take(idx as int)),
                self.swapchain == old(self).swapchain,
                self.format == old(self).format,
                self.extent == old(self).extent,
                self.swapchain_images@.len() == idx,
                forall|i: int|
                    0 <= i < idx ==> (#[trigger] self.swapchain_images@[i])@
                        == SwapchainImage::fetched(
                        old(context)@.id,
                        (first + i) as u64,
                        self.format,
                        self.extent,
                        swapchain_image_name(fetched_image_prefix(), i as nat),
                    ),
            decreases count - idx,
        {
            let mut wrapped = SwapchainImage::new(
                context,
                first + idx as u64,
                self.format,
                self.extent,
            );
            let name = make_swapchain_image_name("Swapchain", idx as usize);
            proof {
                reveal_strlit("Swapchain");
                lemma_image_name_follows_swapchain(context@, "Swapchain"@, idx as nat);
            }
            let named = wrapped.set_name(context, name.as_str());
            assert(named is Ok);
            self.swapchain_images.push(wrapped);
            proof {
                assert(names.take(idx as int).push(names[idx as int]) =~= names.take(idx + 1));
                assert((fetched.calls + names.take(idx as int)).push(names[idx as int])
                    =~= fetched.calls + names.take(idx + 1));
            }
            idx += 1;
        }
        proof {
            assert(names.take(count as int) =~= names);
        }
        Ok(())
    }

    /// The images of the swapchain.
    pub fn images(&self) -> (images: &[SwapchainImage])
        ensures
            images@ == self@.images,
    {
        self.swapchain_images.as_slice()
    }

    /// Asks for the next image of the swapchain to draw to. The device
    /// answers with the number of the image; `semaphore` and `fence` are
    /// signaled when the image can be drawn to. Without a timeout the call
    /// waits as long as it takes.
    pub fn acquire_next_image(
        &self,
        context: &mut Context,
        timeout_nanoseconds: Option<u64>,
        semaphore: Option<&Semaphore>,
        fence: Option<&Fence>,
    ) -> (result: Result<(), FennecError>)
        ensures
            match result {
                Ok(()) => old(context)@.readable() && final(context)@ == old(context)@.issue(
                    DeviceCallView::AcquireNextImage {
                        swapchain: self@.handle.handle,
                        timeout: Fence::timeout_of(timeout_nanoseconds),
                        semaphore: match semaphore {
                            Some(semaphore) => semaphore@.handle,
                            None => 0,
                        },
                        fence: fence_handle(fence),
                    },
                ),
                Err(error) => !old(context)@.readable() && error@ == old(context)@.borrow_error()
                    && final(context)@ == old(context)@,
            },
    {
        context.check_readable()?;
        context.issue(
            DeviceCall::AcquireNextImage {
                swapchain: self.swapchain.handle(),
                timeout: match timeout_nanoseconds {
                    Some(timeout) => timeout,
                    None => u64::MAX,
                },
                semaphore: match semaphore {
                    Some(semaphore) => semaphore.handle(),
                    None => 0,
                },
                fence: match fence {
                    Some(fence) => fence.handle(),
                    None => 0,
                },
            },
        );
        Ok(())
    }

    /// Queues image number `image_index` for presentation on `queue`, once
    /// `semaphore` is signaled.
    pub fn present(&self, context: &mut Context, image_index: u32, queue: &Queue, semaphore: &Semaphore) -> (result:
        Result<(), FennecError>)
        ensures
            match result {
                Ok(()) => old(context)@.readable() && final(context)@ == old(context)@.issue(
                    DeviceCallView::QueuePresent {
                        queue: queue@.handle.handle,
                        swapchain: self@.handle.handle,
                        image_index,
                        wait_semaphore: semaphore@.handle,
                    },
                ),
                Err(error) => !old(context)@.readable() && error@ == old(context)@.borrow_error()
                    && final(context)@ == old(context)@,
            },
    {
        context.check_readable()?;
        context.issue(
            DeviceCall::QueuePresent {
                queue: queue.handle(),
                swapchain: self.swapchain.handle(),
                image_index,
                wait_semaphore: semaphore.handle(),
            },
        );
        Ok(())
    }

    /// The format of the images.
    pub fn format(&self) -> (format: i32)
        ensures
            format == self@.format,
    {
        self.format
    }

    /// The extent of the images.
    pub fn extent(&self) -> (extent: Extent2D)
        ensures
            extent == self@.extent,
    {
        self.extent
    }

    /// Whether `named` are the images `images`, each under the name that
    /// its number gives it in a swapchain called `swapchain`.
    pub open spec fn images_named(
        named: Seq<SwapchainImage>,
        images: Seq<SwapchainImage>,
        swapchain: Seq<char>,
    ) -> bool {
        &&& named.len() == images.len()
        &&& forall|i: int|
            0 <= i < images.len() ==> (#[trigger] named[i])@ == SwapchainImage::renamed(
                images[i]@,
                swapchain_image_name(swapchain, i as nat),
            )
    }

    /// The calls that name the images of a swapchain after the name
    /// `swapchain`.
    pub open spec fn renaming(images: Seq<SwapchainImage>, swapchain: Seq<char>) -> Seq<
        DeviceCallView,
    > {
        Seq::new(
            images.len(),
            |i: int|
                VKHandle::naming(images[i]@.handle, swapchain_image_name(swapchain, i as nat)),
        )
    }

    /// Names the swapchain, here and on the device, and then its images
    /// after it, each with its number. Where the context is exclusively
    /// borrowed, or the name holds a NUL character, the call fails; the
    /// swapchain keeps its new name on this side, and its images are not
    /// touched.
    pub fn set_name(&mut self, context: &mut Context, name: &str) -> (result: Result<
        (),
        FennecError,
    >)
        ensures
            final(self)@.handle == (VKHandleView { name: name@, ..old(self)@.handle }),
            final(self)@.format == old(self)@.format,
            final(self)@.extent == old(self)@.extent,
            match result {
                Ok(()) => {
                    &&& naming_error(old(context)@, name@) is None
                    &&& final(context)@ == old(context)@.issue(
                        VKHandle::naming(old(self)@.handle, name@),
                    ).issue_all(Swapchain::renaming(old(self)@.images, name@))
                    &&& Swapchain::images_named(final(self)@.images, old(self)@.images, name@)
                },
                Err(error) => naming_error(old(context)@, name@) == Some(error@)
                    && final(context)@ == old(context)@ && final(self)@.images == old(self)@.images,
            },
    {
        let annotated = self.swapchain.annotate(context, name);
        match annotated {
            Ok(()) => {},
            Err(error) => {
                return Err(error);
            },
        }
        let ghost named = context@;
        let ghost calls = Swapchain::renaming(old(self)@.images, name@);
        proof {
            named.lemma_issue_all_advances(Seq::empty());
            assert(calls.take(0) =~= Seq::empty());
        }
        let mut index: usize = 0;
        while index < self.swapchain_images.len()
            invariant
                index <= self.swapchain_images@.len(),
                self.swapchain_images@.len() == old(self).swapchain_images@.len(),
                self.swapchain@ == (VKHandleView { name: name@, ..old(self).swapchain@ }),
                self.format == old(self).format,
                self.extent == old(self).extent,
                naming_error(named, name@) is None,
                calls == Swapchain::renaming(old(self)@.images, name@),
                context@ == named.issue_all(calls.take(index as int)),
                forall|i: int|
                    0 <= i < index ==> (#[trigger] self.swapchain_images@[i])@
                        == SwapchainImage::renamed(
                        old(self).swapchain_images@[i]@,
                        swapchain_image_name(name@, i as nat),
                    ),
                forall|i: int|
                    index <= i < self.swapchain_images@.len() ==> #[trigger] self.swapchain_images@[i]
                        == old(self).swapchain_images@[i],
            decreases self.swapchain_images@.len() - index,
        {
            let image_name = make_swapchain_image_name(name, index);
            proof {
                lemma_image_name_follows_swapchain(context@, name@, index as nat);
            }
            let renamed = self.swapchain_images[index].set_name(context, image_name.as_str());
            assert(renamed is Ok);
            proof {
                assert(calls.take(index as int).push(calls[index as int]) =~= calls.take(
                    index + 1,
                ));
                assert((named.calls + calls.take(index as int)).push(calls[index as int])
                    =~= named.calls + calls.take(index + 1));
            }
            index += 1;
        }
        proof {
            assert(calls.take(calls.len() as int) =~= calls);
        }
        Ok(())
    }

    /// What the context looks like after an object that could not be named
    /// was given up: the object is destroyed where a call can be issued.
    pub open spec fn abandoned(value: SwapchainView, context: ContextView) -> ContextView {
        if context.readable() {
            VKHandle::released(value.handle, context)
        } else {
            context
        }
    }

    /// Names the swapchain and hands it back. Where it cannot be
    /// named it is given up: destroyed, where the context lets a call
    /// through.
    pub fn with_name(self, context: &mut Context, name: &str) -> (result: Result<
        Self,
        FennecError,
    >)
        ensures
            match result {
                Ok(named) => {
                    &&& naming_error(old(context)@, name@) is None
                    &&& named@.handle == (VKHandleView { name: name@, ..self@.handle })
                    &&& named@.format == self@.format
                    &&& named@.extent == self@.extent
                    &&& Swapchain::images_named(named@.images, self@.images, name@)
                    &&& final(context)@ == old(context)@.issue(
                        VKHandle::naming(self@.handle, name@),
                    ).issue_all(Swapchain::renaming(self@.images, name@))
                },
                Err(error) => naming_error(old(context)@, name@) == Some(error@)
                    && final(context)@ == Self::abandoned(self@, old(context)@),
            },
    {
        let mut named = self;
        match named.set_name(context, name) {
            Ok(()) => Ok(named),
            Err(error) => {
                match context.check_readable() {
                    Ok(()) => named.destroy(context),
                    Err(_) => {},
                }
                Err(error)
            },
        }
    }

    /// Ends the life of the swapchain: it is destroyed. Its images belong
    /// to the presentation engine and are left alone.
    pub fn destroy(self, context: &mut Context)
        requires
            !self@.handle.protected && self@.handle.handle_type.spec_has_destroy_call() ==> old(context)@.readable(),
        ensures
            final(context)@ == VKHandle::released(self@.handle, old(context)@),
    {
        self.swapchain.release(context)
    }
}

} // verus!
