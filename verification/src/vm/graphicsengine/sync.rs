//! Fences, which the host can wait for, and semaphores, which order work
//! on the device.

use crate::error::Cause;
use crate::error::CauseView;
use crate::error::ErrorKind;
use crate::error::ErrorView;
use crate::error::FennecError;
use crate::text::join;
use crate::vm::graphicsengine::device::DeviceCall;
use crate::vm::graphicsengine::device::DeviceCallView;
use crate::vm::graphicsengine::vk;
use crate::vm::graphicsengine::vkobject::unnamed;
use crate::vm::graphicsengine::vkobject::HandleType;
use crate::vm::graphicsengine::vkobject::naming_error;
use crate::vm::graphicsengine::vkobject::VKHandle;
use crate::vm::graphicsengine::vkobject::VKHandleView;
use crate::vm::graphicsengine::vkobject::VKObject;
use crate::vm::graphicsengine::Context;
use crate::vm::graphicsengine::ContextView;
use crate::vm::graphicsengine::vktext::status_name;
use crate::vm::graphicsengine::vktext::write_status_name;
use vstd::prelude::*;

verus! {

/// Whether a fence has been signaled.
#[derive(Clone, Copy, Debug, PartialEq, Eq, Structural)]
pub enum FenceStatus {
    Signaled,
    Unsignaled,
}

/// What a status reported for a fence means: signaled on success, unsignaled
/// where the device says "not ready", and a failed call otherwise.
pub open spec fn fence_status_of(reported: i32) -> Option<FenceStatus> {
    if reported == vk::STATUS_SUCCESS {
        Some(FenceStatus::Signaled)
    } else if reported == vk::STATUS_NOT_READY {
        Some(FenceStatus::Unsignaled)
    } else {
        None
    }
}

/// The error for a fence whose status could not be read.
pub open spec fn fence_status_error(reported: i32) -> ErrorView {
    ErrorView {
        kind: ErrorKind::ApiCall,
        description: "Status was "@ + status_name(reported),
        cause: Some(CauseView::Status(reported)),
    }
}

/// A fence: a signal from the device that the host can test and wait for.
#[derive(Debug)]
pub struct Fence {
    fence: VKHandle,
}

impl View for Fence {
    type V = VKHandleView;

    closed spec fn view(&self) -> VKHandleView {
        self.fence@
    }
}

impl VKObject for Fence {
    open spec fn wrapped(&self) -> VKHandleView {
        self@
    }

    fn wrapped_handle(&self) -> (wrapped: &VKHandle) {
        &self.fence
    }
}

impl Fence {
    /// The flags that a fence is created with.
    pub open spec fn create_flags(signaled: bool) -> u32 {
        if signaled {
            vk::FENCE_SIGNALED
        } else {
            0
        }
    }

    /// Creates a fence, signaled from the start if `signaled` is set.
    pub fn new(context: &mut Context, signaled: bool) -> (result: Result<Self, FennecError>)
        requires
            old(context)@.can_create(1),
        ensures
            match result {
                Ok(fence) => old(context)@.readable() && fence@ == (VKHandleView {
                    context: old(context)@.id,
                    handle_type: HandleType::Fence,
                    handle: old(context)@.next_handle,
                    protected: false,
                    name: unnamed(),
                }) && final(context)@ == old(context)@.create(1).issue(
                    DeviceCallView::CreateFence {
                        fence: old(context)@.next_handle,
                        flags: Fence::create_flags(signaled),
                    },
                ),
                Err(error) => !old(context)@.readable() && error@ == old(context)@.borrow_error() && final(context)@ == old(context)@,
            },
    {
        context.check_readable()?;
        let flags = if signaled {
            vk::fence_signaled()
        } else {
            0
        };
        let fence = context.create_handle();
        context.issue(DeviceCall::CreateFence { fence, flags });
        Ok(Self { fence: VKHandle::new(context, HandleType::Fence, fence, false) })
    }

    /// Reads the status of the fence out of what the device `reported` for
    /// it.
    pub fn status(&self, context: &Context, reported: i32) -> (result: Result<
        FenceStatus,
        FennecError,
    >)
        ensures
            match result {
                Ok(status) => context@.readable() && fence_status_of(reported) == Some(status),
                Err(error) => if context@.readable() {
                    fence_status_of(reported) is None && error@ == fence_status_error(reported)
                } else {
                    error@ == context@.borrow_error()
                },
            },
    {
        context.check_readable()?;
        if reported == vk::status_success() {
            Ok(FenceStatus::Signaled)
        } else if reported == vk::status_not_ready() {
            Ok(FenceStatus::Unsignaled)
        } else {
            let name = write_status_name(reported);
            let description = join("Status was ", name.as_str());
            Err(FennecError::from_error(description.as_str(), Cause::Status(reported)))
        }
    }

    /// Whether the fence is signaled, by what the device `reported` for it.
    pub fn signaled(&self, context: &Context, reported: i32) -> (result: Result<
        bool,
        FennecError,
    >)
        ensures
            match result {
                Ok(signaled) => context@.readable() && fence_status_of(reported) == Some(
                    if signaled {
                        FenceStatus::Signaled
                    } else {
                        FenceStatus::Unsignaled
                    },
                ),
                Err(error) => if context@.readable() {
                    fence_status_of(reported) is None && error@ == fence_status_error(reported)
                } else {
                    error@ == context@.borrow_error()
                },
            },
    {
        match self.status(context, reported)? {
            FenceStatus::Signaled => Ok(true),
            FenceStatus::Unsignaled => Ok(false),
        }
    }

    /// The time to wait that stands for "no limit".
    pub open spec fn timeout_of(timeout_nanoseconds: Option<u64>) -> u64 {
        match timeout_nanoseconds {
            Some(timeout) => timeout,
            None => u64::MAX,
        }
    }

    /// Blocks the calling thread until the fence is signaled, or until the
    /// timeout has passed where one is given.
    pub fn wait(&mut self, context: &mut Context, timeout_nanoseconds: Option<u64>) -> (result:
        Result<(), FennecError>)
        ensures
            final(self)@ == old(self)@,
            match result {
                Ok(()) => old(context)@.readable() && final(context)@ == old(context)@.issue(
                    DeviceCallView::WaitForFences {
                        fence: old(self)@.handle,
                        timeout: Fence::timeout_of(timeout_nanoseconds),
                    },
                ),
                Err(error) => !old(context)@.readable() && error@ == old(context)@.borrow_error() && final(context)@ == old(context)@,
            },
    {
        context.check_readable()?;
        let timeout = match timeout_nanoseconds {
            Some(timeout) => timeout,
            None => u64::MAX,
        };
        context.issue(DeviceCall::WaitForFences { fence: self.fence.handle(), timeout });
        Ok(())
    }

    /// Sets the fence back to unsignaled.
    pub fn reset(&mut self, context: &mut Context) -> (result: Result<(), FennecError>)
        ensures
            final(self)@ == old(self)@,
            match result {
                Ok(()) => old(context)@.readable() && final(context)@ == old(context)@.issue(
                    DeviceCallView::ResetFences { fence: old(self)@.handle },
                ),
                Err(error) => !old(context)@.readable() && error@ == old(context)@.borrow_error() && final(context)@ == old(context)@,
            },
    {
        context.check_readable()?;
        context.issue(DeviceCall::ResetFences { fence: self.fence.handle() });
        Ok(())
    }

    /// Names the fence, here and on the device.
    pub fn set_name(&mut self, context: &mut Context, name: &str) -> (result: Result<
        (),
        FennecError,
    >)
        ensures
            final(self)@ == (VKHandleView { name: name@, ..old(self)@ }),
            match result {
                Ok(()) => naming_error(old(context)@, name@) is None && final(context)@ == old(context)@.issue(VKHandle::naming(old(self)@, name@)),
                Err(error) => naming_error(old(context)@, name@) == Some(error@) && final(context)@ == old(context)@,
            },
    {
        self.fence.annotate(context, name)
    }

    /// What the context looks like after an object that could not be named
    /// was given up: the object is destroyed where a call can be issued.
    pub open spec fn abandoned(value: VKHandleView, context: ContextView) -> ContextView {
        if context.readable() {
            VKHandle::released(value, context)
        } else {
            context
        }
    }

    /// Names the fence and hands it back. Where it cannot be
    /// named it is given up: destroyed, where the context lets a call
    /// through.
    pub fn with_name(self, context: &mut Context, name: &str) -> (result: Result<
        Self,
        FennecError,
    >)
        ensures
            match result {
                Ok(named) => named@ == (VKHandleView { name: name@, ..self@ }) && naming_error(old(context)@, name@) is None && final(context)@ == old(context)@.issue(VKHandle::naming(self@, name@)),
                Err(error) => naming_error(old(context)@, name@) == Some(error@) && final(context)@ == Self::abandoned(self@, old(context)@),
            },
    {
        let mut named = self;
        match named.set_name(context, name) {
            Ok(()) => Ok(named),
            Err(error) => {
                match context.check_readable() {
                    Ok(()) => named.destroy(context),
                    Err(_) => {},
                }
                Err(error)
            },
        }
    }

    /// Ends the life of the fence: it is destroyed unless it is protected.
    pub fn destroy(self, context: &mut Context)
        requires
            !self@.protected && self@.handle_type.spec_has_destroy_call() ==> old(context)@.readable(),
        ensures
            final(context)@ == VKHandle::released(self@, old(context)@),
    {
        self.fence.release(context)
    }
}

/// A semaphore: a signal that one batch of work on the device raises and
/// another waits for. The host cannot observe it.
#[derive(Debug)]
pub struct Semaphore {
    semaphore: VKHandle,
}

impl View for Semaphore {
    type V = VKHandleView;

    closed spec fn view(&self) -> VKHandleView {
        self.semaphore@
    }
}

impl VKObject for Semaphore {
    open spec fn wrapped(&self) -> VKHandleView {
        self@
    }

    fn wrapped_handle(&self) -> (wrapped: &VKHandle) {
        &self.semaphore
    }
}

impl Semaphore {
    /// Creates a semaphore.
    pub fn new(context: &mut Context) -> (result: Result<Self, FennecError>)
        requires
            old(context)@.can_create(1),
        ensures
            match result {
                Ok(semaphore) => old(context)@.readable() && semaphore@ == (VKHandleView {
                    context: old(context)@.id,
                    handle_type: HandleType::Semaphore,
                    handle: old(context)@.next_handle,
                    protected: false,
                    name: unnamed(),
                }) && final(context)@ == old(context)@.create(1).issue(
                    DeviceCallView::CreateSemaphore { semaphore: old(context)@.next_handle },
                ),
                Err(error) => !old(context)@.readable() && error@ == old(context)@.borrow_error() && final(context)@ == old(context)@,
            },
    {
        context.check_readable()?;
        let semaphore = context.create_handle();
        context.issue(DeviceCall::CreateSemaphore { semaphore });
        Ok(Self { semaphore: VKHandle::new(context, HandleType::Semaphore, semaphore, false) })
    }

    /// Names the semaphore, here and on the device.
    pub fn set_name(&mut self, context: &mut Context, name: &str) -> (result: Result<
        (),
        FennecError,
    >)
        ensures
            final(self)@ == (VKHandleView { name: name@, ..old(self)@ }),
            match result {
                Ok(()) => naming_error(old(context)@, name@) is None && final(context)@ == old(context)@.issue(VKHandle::naming(old(self)@, name@)),
                Err(error) => naming_error(old(context)@, name@) == Some(error@) && final(context)@ == old(context)@,
            },
    {
        self.semaphore.annotate(context, name)
    }

    /// What the context looks like after an object that could not be named
    /// was given up: the object is destroyed where a call can be issued.
    pub open spec fn abandoned(value: VKHandleView, context: ContextView) -> ContextView {
        if context.readable() {
            VKHandle::released(value, context)
        } else {
            context
        }
    }

    /// Names the semaphore and hands it back. Where it cannot be
    /// named it is given up: destroyed, where the context lets a call
    /// through.
    pub fn with_name(self, context: &mut Context, name: &str) -> (result: Result<
        Self,
        FennecError,
    >)
        ensures
            match result {
                Ok(named) => named@ == (VKHandleView { name: name@, ..self@ }) && naming_error(old(context)@, name@) is None && final(context)@ == old(context)@.issue(VKHandle::naming(self@, name@)),
                Err(error) => naming_error(old(context)@, name@) == Some(error@) && final(context)@ == Self::abandoned(self@, old(context)@),
            },
    {
        let mut named = self;
        match named.set_name(context, name) {
            Ok(()) => Ok(named),
            Err(error) => {
                match context.check_readable() {
                    Ok(()) => named.destroy(context),
                    Err(_) => {},
                }
                Err(error)
            },
        }
    }

    /// Ends the life of the semaphore: it is destroyed unless it is
    /// protected.
    pub fn destroy(self, context: &mut Context)
        requires
            !self@.protected && self@.handle_type.spec_has_destroy_call() ==> old(context)@.readable(),
        ensures
            final(context)@ == VKHandle::released(self@, old(context)@),
    {
        self.semaphore.release(context)
    }
}

} // verus!
