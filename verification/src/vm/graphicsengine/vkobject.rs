//! Ownership of raw device handles: which kind a handle is of, what it is
//! called, and whether this engine may destroy it.

use crate::error::Cause;
use crate::error::CauseView;
use crate::error::ErrorKind;
use crate::error::ErrorView;
use crate::error::FennecError;
use crate::text::decimal;
use crate::text::decimal_digits;
use crate::text::find_nul;
use crate::text::has_nul;
use crate::text::join;
use crate::text::lemma_has_nul_of_pieces;
use crate::text::lemma_nul_position_of_start;
use crate::text::nul_position;
use crate::vm::graphicsengine::device::DeviceCall;
use crate::vm::graphicsengine::device::DeviceCallView;
use crate::vm::graphicsengine::Context;
use crate::vm::graphicsengine::ContextView;
use vstd::prelude::*;
use vstd::string::*;

verus! {

/// The kinds of device object that a handle can stand for.
#[derive(Clone, Copy, Debug, PartialEq, Eq, Structural)]
pub enum HandleType {
    Fence,
    Semaphore,
    Queue,
    CommandPool,
    CommandBuffer,
    Swapchain,
    Image,
    DeviceMemory,
    Pipeline,
    PipelineLayout,
    RenderPass,
    Framebuffer,
    ImageView,
    DescriptorPool,
    Buffer,
    ShaderModule,
    DescriptorSet,
    DescriptorSetLayout,
    Sampler,
}

impl HandleType {
    /// Whether objects of this kind are destroyed by a call of their own.
    /// Queues belong to the device, and command buffers and descriptor sets
    /// are given back through their pools.
    pub open spec fn spec_has_destroy_call(self) -> bool {
        !(self is Queue || self is CommandBuffer || self is DescriptorSet)
    }

    /// Whether objects of this kind are destroyed by a call of their own.
    #[verifier::when_used_as_spec(spec_has_destroy_call)]
    pub fn has_destroy_call(self) -> (has: bool)
        ensures
            has == self.spec_has_destroy_call(),
    {
        match self {
            HandleType::Queue => false,
            HandleType::CommandBuffer => false,
            HandleType::DescriptorSet => false,
            _ => true,
        }
    }

    /// What the context looks like after the object `handle` of this kind
    /// was destroyed through it.
    pub open spec fn destroyed(self, context: ContextView, handle: u64) -> ContextView {
        if self.spec_has_destroy_call() {
            context.issue(DeviceCallView::Destroy { handle_type: self, handle })
        } else {
            context
        }
    }

    /// Destroys the object that `handle` points at, where objects of this
    /// kind have a destroy call. Fails, and issues nothing, where a call is
    /// due and the context is exclusively borrowed.
    pub fn destroy(self, context: &mut Context, handle: u64) -> (result: Result<(), FennecError>)
        ensures
            match result {
                Ok(()) => (self.spec_has_destroy_call() ==> old(context)@.readable())
                    && final(context)@ == self.destroyed(old(context)@, handle),
                Err(error) => self.spec_has_destroy_call() && !old(context)@.readable()
                    && error@ == old(context)@.borrow_error() && final(context)@ == old(context)@,
            },
    {
        if !self.has_destroy_call() {
            return Ok(());
        }
        context.check_readable()?;
        context.issue(DeviceCall::Destroy { handle_type: self, handle });
        Ok(())
    }
}

/// What every owner of a device object offers: the wrapped handle, and
/// through it the raw handle and the name.
pub trait VKObject {
    /// The value of the wrapped handle.
    spec fn wrapped(&self) -> VKHandleView;

    /// The handle that the object wraps.
    fn wrapped_handle(&self) -> (wrapped: &VKHandle)
        ensures
            wrapped@ == self.wrapped(),
    ;

    /// The raw handle of the object.
    fn handle(&self) -> (handle: u64)
        ensures
            handle == self.wrapped().handle,
    {
        self.wrapped_handle().handle()
    }

    /// The name of the object.
    fn name(&self) -> (name: &str)
        ensures
            name@ == self.wrapped().name,
    {
        self.wrapped_handle().name()
    }
}

/// The description of the error for a name that cannot be handed to the
/// device.
pub open spec fn unusable_name() -> Seq<char> {
    "Could not convert object name to a CString"@
}

/// The words that say where in a name the NUL character was found, counted
/// in bytes.
pub open spec fn nul_found(position: nat) -> Seq<char> {
    "nul byte found in provided data at position: "@ + decimal_digits(position)
}

/// The error for a name that holds a NUL character: the device takes names
/// that end at the first NUL character, so such a name is refused.
pub open spec fn nul_error(name: Seq<char>) -> ErrorView {
    ErrorView {
        kind: ErrorKind::General,
        description: unusable_name(),
        cause: Some(CauseView::Message(nul_found(nul_position(name) as nat))),
    }
}

/// The error that stands in the way of telling the device the name of an
/// object, if there is one: the borrow error where the context is
/// exclusively borrowed, and otherwise the error for a name that holds a
/// NUL character.
pub open spec fn naming_error(context: ContextView, name: Seq<char>) -> Option<ErrorView> {
    if !context.readable() {
        Some(context.borrow_error())
    } else if has_nul(name) {
        Some(nul_error(name))
    } else {
        None
    }
}

/// What is added behind a name, if it holds no NUL character, changes
/// nothing about whether the device can be told the name, nor about the
/// error.
pub proof fn lemma_naming_error_of_longer_name(
    context: ContextView,
    name: Seq<char>,
    rest: Seq<char>,
)
    requires
        !has_nul(rest),
    ensures
        naming_error(context, name + rest) == naming_error(context, name),
{
    lemma_has_nul_of_pieces(name, rest);
    if has_nul(name) {
        lemma_nul_position_of_start(name, rest);
    }
}

/// Checks that the device can be told `name`: the context is not
/// exclusively borrowed and the name holds no NUL character.
pub fn check_name(context: &Context, name: &str) -> (result: Result<(), FennecError>)
    ensures
        match result {
            Ok(()) => naming_error(context@, name@) is None,
            Err(error) => naming_error(context@, name@) == Some(error@),
        },
{
    context.check_readable()?;
    match find_nul(name) {
        Some(position) => {
            let digits = decimal(position as u64);
            let found = join("nul byte found in provided data at position: ", digits.as_str());
            Err(
                FennecError::from_error(
                    "Could not convert object name to a CString",
                    Cause::Message(found),
                ),
            )
        },
        None => Ok(()),
    }
}

/// The name that an object has until it is given one.
pub open spec fn unnamed() -> Seq<char> {
    "Unnamed"@
}

/// The mathematical value of a [`VKHandle`].
pub struct VKHandleView {
    pub context: u64,
    pub handle_type: HandleType,
    pub handle: u64,
    pub protected: bool,
    pub name: Seq<char>,
}

/// A raw device handle together with the context it was created under, a
/// name for diagnostics and the right to destroy it. A protected handle is
/// owned by someone else and is never destroyed through this wrapper.
#[derive(Debug)]
pub struct VKHandle {
    context: u64,
    handle_type: HandleType,
    handle: u64,
    protected: bool,
    name: String,
}

impl View for VKHandle {
    type V = VKHandleView;

    closed spec fn view(&self) -> VKHandleView {
        VKHandleView {
            context: self.context,
            handle_type: self.handle_type,
            handle: self.handle,
            protected: self.protected,
            name: self.name@,
        }
    }
}

impl VKHandle {
    /// Takes ownership of `handle` under `context`.
    pub fn new(context: &Context, handle_type: HandleType, handle: u64, protected: bool) -> (wrapped:
        Self)
        ensures
            wrapped@ == (VKHandleView {
                context: context@.id,
                handle_type,
                handle,
                protected,
                name: unnamed(),
            }),
    {
        Self {
            context: context.id(),
            handle_type,
            handle,
            protected,
            name: String::from_str("Unnamed"),
        }
    }

    /// The identity of the context that the handle belongs to.
    pub fn context(&self) -> (id: u64)
        ensures
            id == self@.context,
    {
        self.context
    }

    /// The kind of object that the handle stands for.
    pub fn handle_type(&self) -> (handle_type: HandleType)
        ensures
            handle_type == self@.handle_type,
    {
        self.handle_type
    }

    /// The raw handle.
    pub fn handle(&self) -> (handle: u64)
        ensures
            handle == self@.handle,
    {
        self.handle
    }

    /// The raw handle, to be changed.
    pub fn handle_mut(&mut self) -> (handle: &mut u64)
        ensures
            *handle == old(self)@.handle,
            final(self)@ == (VKHandleView { handle: *final(handle), ..old(self)@ }),
    {
        &mut self.handle
    }

    /// The identity of the context that the handle belongs to, to be
    /// changed.
    pub fn context_mut(&mut self) -> (id: &mut u64)
        ensures
            *id == old(self)@.context,
            final(self)@ == (VKHandleView { context: *final(id), ..old(self)@ }),
    {
        &mut self.context
    }

    /// Whether the object is owned by someone else.
    pub fn protected(&self) -> (protected: bool)
        ensures
            protected == self@.protected,
    {
        self.protected
    }

    /// Changes the name kept on this side. The device is not told.
    pub fn set_name(&mut self, name: &str)
        ensures
            final(self)@ == (VKHandleView { name: name@, ..old(self)@ }),
    {
        self.name = String::from_str(name);
    }

    /// The name of the object.
    pub fn name(&self) -> (name: &str)
        ensures
            name@ == self@.name,
    {
        self.name.as_str()
    }

    /// What the context looks like after the handle `wrapped` was given up
    /// through it: unchanged for a protected handle, and otherwise with the
    /// destroy call of the handle's kind issued.
    pub open spec fn released(wrapped: VKHandleView, context: ContextView) -> ContextView {
        if wrapped.protected {
            context
        } else {
            wrapped.handle_type.destroyed(context, wrapped.handle)
        }
    }

    /// Gives the handle up at the end of its owner's life. Nothing is issued
    /// for a protected handle; any other is destroyed by the call of its
    /// kind. A destroy call needs a context that is not exclusively borrowed.
    pub fn release(self, context: &mut Context)
        requires
            !self@.protected && self@.handle_type.spec_has_destroy_call() ==> old(context)@.readable(),
        ensures
            final(context)@ == VKHandle::released(self@, old(context)@),
    {
        if self.protected {
            return ;
        }
        let destroyed = self.handle_type.destroy(context, self.handle);
        assert(destroyed is Ok);
    }

    /// A protected handle is never destroyed: giving it up leaves the context
    /// as it was, whatever the kind of the handle.
    pub proof fn lemma_protected_is_never_destroyed(wrapped: VKHandleView, context: ContextView)
        requires
            wrapped.protected,
        ensures
            VKHandle::released(wrapped, context) == context,
            VKHandle::released(wrapped, context).calls == context.calls,
    {
    }

    /// The call that tells the device the name of the object `wrapped`.
    pub open spec fn naming(wrapped: VKHandleView, name: Seq<char>) -> DeviceCallView {
        DeviceCallView::SetObjectName {
            handle_type: wrapped.handle_type,
            handle: wrapped.handle,
            name,
        }
    }

    /// Tells the device the name of the object, after the name was changed on
    /// this side. Where the context is exclusively borrowed, or the name holds
    /// a NUL character, the call fails: nothing is issued, and the new name
    /// stays on this side.
    pub fn annotate(&mut self, context: &mut Context, name: &str) -> (result: Result<
        (),
        FennecError,
    >)
        ensures
            final(self)@ == (VKHandleView { name: name@, ..old(self)@ }),
            match result {
                Ok(()) => naming_error(old(context)@, name@) is None && final(context)@ == old(context)@.issue(VKHandle::naming(old(self)@, name@)),
                Err(error) => naming_error(old(context)@, name@) == Some(error@) && final(context)@
                    == old(context)@,
            },
    {
        self.set_name(name);
        check_name(context, name)?;
        context.issue(
            DeviceCall::SetObjectName {
                handle_type: self.handle_type,
                handle: self.handle,
                name: String::from_str(name),
            },
        );
        Ok(())
    }
}

} // verus!
