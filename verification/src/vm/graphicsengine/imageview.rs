//! Views of parts of images.

use crate::error::FennecError;
use crate::vm::graphicsengine::device::ComponentMapping;
use crate::vm::graphicsengine::device::DeviceCall;
use crate::vm::graphicsengine::device::DeviceCallView;
use crate::vm::graphicsengine::device::Extent3D;
use crate::vm::graphicsengine::device::ImageSubresourceRange;
use crate::vm::graphicsengine::image::Image;
use crate::vm::graphicsengine::vkobject::unnamed;
use crate::vm::graphicsengine::vkobject::HandleType;
use crate::vm::graphicsengine::vkobject::naming_error;
use crate::vm::graphicsengine::vkobject::VKHandle;
use crate::vm::graphicsengine::vkobject::VKHandleView;
use crate::vm::graphicsengine::vkobject::VKObject;
use crate::vm::graphicsengine::Context;
use crate::vm::graphicsengine::ContextView;
use vstd::prelude::*;

verus! {

/// The mathematical value of an [`ImageView`].
pub struct ImageViewView {
    pub handle: VKHandleView,
    /// The extent of the image that the view looks into.
    pub extent: Extent3D,
}

/// A view of a part of an image.
#[derive(Debug)]
pub struct ImageView {
    image_view: VKHandle,
    extent: Extent3D,
}

impl View for ImageView {
    type V = ImageViewView;

    closed spec fn view(&self) -> ImageViewView {
        ImageViewView { handle: self.image_view@, extent: self.extent }
    }
}

impl VKObject for ImageView {
    open spec fn wrapped(&self) -> VKHandleView {
        self@.handle
    }

    fn wrapped_handle(&self) -> (wrapped: &VKHandle) {
        &self.image_view
    }
}

/// The mapping that leaves every channel where it is.
pub open spec fn identity_components() -> ComponentMapping {
    ComponentMapping { r: 0, g: 0, b: 0, a: 0 }
}

/// The mapping of channels that a view is created with.
pub open spec fn components_or_identity(components: Option<ComponentMapping>) -> ComponentMapping {
    match components {
        Some(components) => components,
        None => identity_components(),
    }
}

impl ImageView {
    /// The value of a view that was just created.
    pub open spec fn fresh(context: u64, handle: u64, extent: Extent3D) -> ImageViewView {
        ImageViewView {
            handle: VKHandleView {
                context,
                handle_type: HandleType::ImageView,
                handle,
                protected: false,
                name: unnamed(),
            },
            extent,
        }
    }

    /// The call that creates the view `view` of `range` of an image.
    pub open spec fn creation(
        view: u64,
        image: u64,
        view_type: i32,
        format: i32,
        range: ImageSubresourceRange,
        components: Option<ComponentMapping>,
    ) -> DeviceCallView {
        DeviceCallView::CreateImageView {
            view,
            image,
            view_type,
            format,
            components: components_or_identity(components),
            subresource_range: range,
        }
    }

    /// Creates a view of `range` of `image`, in the format of the image.
    pub fn new<I: Image>(
        context: &mut Context,
        image: &I,
        range: &ImageSubresourceRange,
        components: Option<ComponentMapping>,
    ) -> (result: Result<Self, FennecError>)
        requires
            old(context)@.can_create(1),
        ensures
            match result {
                Ok(view) => old(context)@.readable() && view@ == ImageView::fresh(
                    old(context)@.id,
                    old(context)@.next_handle,
                    image.spec_extent(),
                ) && final(context)@ == old(context)@.create(1).issue(
                    ImageView::creation(
                        old(context)@.next_handle,
                        image.wrapped().handle,
                        image.spec_view_type(),
                        image.spec_format(),
                        *range,
                        components,
                    ),
                ),
                Err(error) => !old(context)@.readable() && error@ == old(context)@.borrow_error()
                    && final(context)@ == old(context)@,
            },
    {
        ImageView::of_image(
            context,
            image.handle(),
            image.image_view_type(),
            image.format(),
            image.extent(),
            range,
            components,
        )
    }

    /// Creates a view of `range` of the image `image`, which has the given
    /// view type, format and extent.
    pub fn of_image(
        context: &mut Context,
        image: u64,
        view_type: i32,
        format: i32,
        extent: Extent3D,
        range: &ImageSubresourceRange,
        components: Option<ComponentMapping>,
    ) -> (result: Result<Self, FennecError>)
        requires
            old(context)@.can_create(1),
        ensures
            match result {
                Ok(view) => old(context)@.readable() && view@ == ImageView::fresh(
                    old(context)@.id,
                    old(context)@.next_handle,
                    extent,
                ) && final(context)@ == old(context)@.create(1).issue(
                    ImageView::creation(
                        old(context)@.next_handle,
                        image,
                        view_type,
                        format,
                        *range,
                        components,
                    ),
                ),
                Err(error) => !old(context)@.readable() && error@ == old(context)@.borrow_error()
                    && final(context)@ == old(context)@,
            },
    {
        context.check_readable()?;
        let components = match components {
            Some(components) => components,
            None => ComponentMapping { r: 0, g: 0, b: 0, a: 0 },
        };
        let view = context.create_handle();
        context.issue(
            DeviceCall::CreateImageView {
                view,
                image,
                view_type,
                format,
                components,
                subresource_range: *range,
            },
        );
        Ok(Self { image_view: VKHandle::new(context, HandleType::ImageView, view, false), extent })
    }

    /// The extent of the image that the view looks into.
    pub fn extent(&self) -> (extent: Extent3D)
        ensures
            extent == self@.extent,
    {
        self.extent
    }

    /// The view under another name.
    pub open spec fn renamed(view: ImageViewView, name: Seq<char>) -> ImageViewView {
        ImageViewView { handle: VKHandleView { name, ..view.handle }, ..view }
    }

    /// Names the view, here and on the device.
    pub fn set_name(&mut self, context: &mut Context, name: &str) -> (result: Result<
        (),
        FennecError,
    >)
        ensures
            final(self)@ == ImageView::renamed(old(self)@, name@),
            match result {
                Ok(()) => naming_error(old(context)@, name@) is None && final(context)@ == old(context)@.issue(
                    VKHandle::naming(old(self)@.handle, name@),
                ),
                Err(error) => naming_error(old(context)@, name@) == Some(error@)
                    && final(context)@ == old(context)@,
            },
    {
        self.image_view.annotate(context, name)
    }

    /// What the context looks like after an object that could not be named
    /// was given up: the object is destroyed where a call can be issued.
    pub open spec fn abandoned(value: ImageViewView, context: ContextView) -> ContextView {
        if context.readable() {
            VKHandle::released(value.handle, context)
        } else {
            context
        }
    }

    /// Names the view and hands it back. Where it cannot be
    /// named it is given up: destroyed, where the context lets a call
    /// through.
    pub fn with_name(self, context: &mut Context, name: &str) -> (result: Result<
        Self,
        FennecError,
    >)
        ensures
            match result {
                Ok(named) => named@ == ImageView::renamed(self@, name@) && naming_error(old(context)@, name@) is None && final(context)@ == old(context)@.issue(
                    VKHandle::naming(self@.handle, name@),
                ),
                Err(error) => naming_error(old(context)@, name@) == Some(error@)
                    && final(context)@ == Self::abandoned(self@, old(context)@),
            },
    {
        let mut named = self;
        match named.set_name(context, name) {
            Ok(()) => Ok(named),
            Err(error) => {
                match context.check_readable() {
                    Ok(()) => named.destroy(context),
                    Err(_) => {},
                }
                Err(error)
            },
        }
    }

    /// Ends the life of the view: it is destroyed unless it is protected.
    pub fn destroy(self, context: &mut Context)
        requires
            !self@.handle.protected && self@.handle.handle_type.spec_has_destroy_call() ==> old(context)@.readable(),
        ensures
            final(context)@ == VKHandle::released(self@.handle, old(context)@),
    {
        self.image_view.release(context)
    }
}

} // verus!
