//! Framebuffers: the image views that a render pass renders to.

use crate::error::FennecError;
use crate::vm::graphicsengine::device::DeviceCall;
use crate::vm::graphicsengine::device::DeviceCallView;
use crate::vm::graphicsengine::vkobject::unnamed;
use crate::vm::graphicsengine::vkobject::HandleType;
use crate::vm::graphicsengine::vkobject::naming_error;
use crate::vm::graphicsengine::vkobject::VKHandle;
use crate::vm::graphicsengine::vkobject::VKHandleView;
use crate::vm::graphicsengine::vkobject::VKObject;
use crate::vm::graphicsengine::Context;
use crate::vm::graphicsengine::ContextView;
use crate::vm::graphicsengine::imageview::ImageView;
use crate::vm::graphicsengine::renderpass::RenderPass;
use vstd::prelude::*;

verus! {

/// The greatest of the first `upto` of a list of numbers, and zero for none.
pub open spec fn greatest(values: Seq<u32>, upto: nat) -> u32
    decreases upto,
{
    if upto == 0 {
        0
    } else if values[upto - 1] > greatest(values, (upto - 1) as nat) {
        values[upto - 1]
    } else {
        greatest(values, (upto - 1) as nat)
    }
}

/// The greatest of a list of numbers, and one for an empty list.
pub open spec fn greatest_or_one(values: Seq<u32>) -> u32 {
    if values.len() == 0 {
        1
    } else {
        greatest(values, values.len())
    }
}

/// The raw handles of a list of image views, in order.
pub open spec fn view_handles(attachments: Seq<ImageView>) -> Seq<u64> {
    Seq::new(attachments.len(), |i: int| attachments[i]@.handle.handle)
}

/// The widths of a list of image views, in order.
pub open spec fn view_widths(attachments: Seq<ImageView>) -> Seq<u32> {
    Seq::new(attachments.len(), |i: int| attachments[i]@.extent.width)
}

/// The heights of a list of image views, in order.
pub open spec fn view_heights(attachments: Seq<ImageView>) -> Seq<u32> {
    Seq::new(attachments.len(), |i: int| attachments[i]@.extent.height)
}

/// The depths of a list of image views, in order.
pub open spec fn view_depths(attachments: Seq<ImageView>) -> Seq<u32> {
    Seq::new(attachments.len(), |i: int| attachments[i]@.extent.depth)
}

/// The context after the first `upto` of a list of image views were given
/// up through it, in their order.
pub open spec fn views_released(context: ContextView, views: Seq<ImageView>, upto: nat) -> ContextView
    decreases upto,
{
    if upto == 0 {
        context
    } else {
        VKHandle::released(
            views[upto - 1]@.handle,
            views_released(context, views, (upto - 1) as nat),
        )
    }
}

/// Giving image views up leaves a context that can be borrowed as it was.
pub proof fn lemma_views_released_readable(context: ContextView, views: Seq<ImageView>, upto: nat)
    ensures
        views_released(context, views, upto).readable() == context.readable(),
    decreases upto,
{
    if upto > 0 {
        lemma_views_released_readable(context, views, (upto - 1) as nat);
    }
}

/// The mathematical value of a [`Framebuffer`].
pub struct FramebufferView {
    pub handle: VKHandleView,
    /// The image views that are rendered to.
    pub attachments: Seq<ImageView>,
}

/// A framebuffer. It owns the image views that it renders to.
#[derive(Debug)]
pub struct Framebuffer {
    framebuffer: VKHandle,
    attachments: Vec<ImageView>,
}

impl View for Framebuffer {
    type V = FramebufferView;

    closed spec fn view(&self) -> FramebufferView {
        FramebufferView { handle: self.framebuffer@, attachments: self.attachments@ }
    }
}

impl VKObject for Framebuffer {
    open spec fn wrapped(&self) -> VKHandleView {
        self@.handle
    }

    fn wrapped_handle(&self) -> (wrapped: &VKHandle) {
        &self.framebuffer
    }
}

impl Framebuffer {
    /// Creates a framebuffer for `render_pass` that renders to
    /// `attachments`. It is as wide, as high and as deep as the greatest of
    /// its attachments, and one texel in each direction where it has none.
    pub fn new(context: &mut Context, render_pass: &RenderPass, attachments: Vec<ImageView>) -> (result:
        Result<Self, FennecError>)
        requires
            old(context)@.can_create(1),
        ensures
            match result {
                Ok(framebuffer) => old(context)@.readable() && framebuffer@ == (FramebufferView {
                    handle: VKHandleView {
                        context: old(context)@.id,
                        handle_type: HandleType::Framebuffer,
                        handle: old(context)@.next_handle,
                        protected: false,
                        name: unnamed(),
                    },
                    attachments: attachments@,
                }) && final(context)@ == old(context)@.create(1).issue(
                    DeviceCallView::CreateFramebuffer {
                        framebuffer: old(context)@.next_handle,
                        render_pass: render_pass@.handle.handle,
                        attachments: view_handles(attachments@),
                        width: greatest_or_one(view_widths(attachments@)),
                        height: greatest_or_one(view_heights(attachments@)),
                        layers: greatest_or_one(view_depths(attachments@)),
                    },
                ),
                Err(error) => !old(context)@.readable() && error@ == old(context)@.borrow_error()
                    && final(context)@ == old(context)@,
            },
    {
        context.check_readable()?;
        let mut handles: Vec<u64> = Vec::new();
        let mut width: u32 = 0;
        let mut height: u32 = 0;
        let mut layers: u32 = 0;
        let mut i: usize = 0;
        while i < attachments.len()
            invariant
                i <= attachments@.len(),
                handles@ == Seq::new(i as nat, |k: int| attachments@[k]@.handle.handle),
                width == greatest(view_widths(attachments@), i as nat),
                height == greatest(view_heights(attachments@), i as nat),
                layers == greatest(view_depths(attachments@), i as nat),
            decreases attachments@.len() - i,
        {
            let extent = attachments[i].extent();
            handles.push(attachments[i].handle());
            assert(handles@ =~= Seq::new((i + 1) as nat, |k: int| attachments@[k]@.handle.handle));
            if extent.width > width {
                width = extent.width;
            }
            if extent.height > height {
                height = extent.height;
            }
            if extent.depth > layers {
                layers = extent.depth;
            }
            i += 1;
        }
        if attachments.len() == 0 {
            width = 1;
            height = 1;
            layers = 1;
        }
        assert(handles@ =~= view_handles(attachments@));
        let framebuffer = context.create_handle();
        context.issue(
            DeviceCall::CreateFramebuffer {
                framebuffer,
                render_pass: render_pass.handle(),
                attachments: handles,
                width,
                height,
                layers,
            },
        );
        Ok(
            Self {
                framebuffer: VKHandle::new(context, HandleType::Framebuffer, framebuffer, false),
                attachments,
            },
        )
    }

    /// The image views that are rendered to.
    pub fn attachments(&self) -> (attachments: &Vec<ImageView>)
        ensures
            attachments@ == self@.attachments,
    {
        &self.attachments
    }

    /// The framebuffer under another name.
    pub open spec fn renamed(value: FramebufferView, name: Seq<char>) -> FramebufferView {
        FramebufferView { handle: VKHandleView { name, ..value.handle }, ..value }
    }

    /// Names the framebuffer, here and on the device.
    pub fn set_name(&mut self, context: &mut Context, name: &str) -> (result: Result<
        (),
        FennecError,
    >)
        ensures
            final(self)@ == Framebuffer::renamed(old(self)@, name@),
            match result {
                Ok(()) => naming_error(old(context)@, name@) is None && final(context)@ == old(context)@.issue(
                    VKHandle::naming(old(self)@.handle, name@),
                ),
                Err(error) => naming_error(old(context)@, name@) == Some(error@)
                    && final(context)@ == old(context)@,
            },
    {
        self.framebuffer.annotate(context, name)
    }

    /// What the context looks like after an object that could not be named
    /// was given up: the object is destroyed where a call can be issued.
    pub open spec fn abandoned(value: FramebufferView, context: ContextView) -> ContextView {
        if context.readable() {
            views_released(
                VKHandle::released(value.handle, context),
                value.attachments,
                value.attachments.len(),
            )
        } else {
            context
        }
    }

    /// Names the framebuffer and hands it back. Where it cannot be
    /// named it is given up: destroyed, where the context lets a call
    /// through.
    pub fn with_name(self, context: &mut Context, name: &str) -> (result: Result<
        Self,
        FennecError,
    >)
        ensures
            match result {
                Ok(named) => named@ == Framebuffer::renamed(self@, name@) && naming_error(old(context)@, name@) is None
                    && final(context)@ == old(context)@.issue(
                    VKHandle::naming(self@.handle, name@),
                ),
                Err(error) => naming_error(old(context)@, name@) == Some(error@)
                    && final(context)@ == Self::abandoned(self@, old(context)@),
            },
    {
        let mut named = self;
        match named.set_name(context, name) {
            Ok(()) => Ok(named),
            Err(error) => {
                match context.check_readable() {
                    Ok(()) => named.destroy(context),
                    Err(_) => {},
                }
                Err(error)
            },
        }
    }

    /// Ends the life of the framebuffer: the framebuffer is destroyed, then
    /// the image views that it rendered to, in their order.
    pub fn destroy(self, context: &mut Context)
        requires
            old(context)@.readable(),
        ensures
            final(context)@ == views_released(
                VKHandle::released(self@.handle, old(context)@),
                self@.attachments,
                self@.attachments.len(),
            ),
    {
        let ghost all = self.attachments@;
        self.framebuffer.release(context);
        let ghost started = context@;
        let mut remaining = self.attachments;
        let mut reversed: Vec<ImageView> = Vec::new();
        while remaining.len() > 0
            invariant
                context@ == started,
                remaining@.len() <= all.len(),
                remaining@ == all.take(remaining@.len() as int),
                reversed@.len() == all.len() - remaining@.len(),
                forall|k: int|
                    0 <= k < reversed@.len() ==> #[trigger] reversed@[k] == all[all.len() - 1 - k],
            decreases remaining@.len(),
        {
            let view = remaining.pop().unwrap();
            reversed.push(view);
        }
        let mut done: usize = 0;
        let count = reversed.len();
        while reversed.len() > 0
            invariant
                started.readable(),
                context@.readable(),
                done + reversed@.len() == count,
                count == all.len(),
                forall|k: int|
                    0 <= k < reversed@.len() ==> #[trigger] reversed@[k] == all[all.len() - 1 - k],
                context@ == views_released(started, all, done as nat),
            decreases reversed@.len(),
        {
            let view = reversed.pop().unwrap();
            assert(view == all[done as int]);
            proof {
                lemma_views_released_readable(started, all, done as nat);
                lemma_views_released_readable(started, all, (done + 1) as nat);
            }
            view.destroy(context);
            done += 1;
        }
    }
}

} // verus!
