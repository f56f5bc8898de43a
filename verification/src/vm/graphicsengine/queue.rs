//! Queues: where recorded command buffers are submitted, with the
//! semaphores and the fence that order the work.

use crate::error::illegal_state;
use crate::error::ErrorKind;
use crate::error::ErrorView;
use crate::error::FennecError;
use crate::vm::graphicsengine::commandbuffer::CommandBuffer;
use crate::vm::graphicsengine::device::DeviceCall;
use crate::vm::graphicsengine::device::DeviceCallView;
use crate::vm::graphicsengine::device::SemaphoreWait;
use crate::vm::graphicsengine::queuefamily::QueueKind;
use crate::vm::graphicsengine::sync::Fence;
use crate::vm::graphicsengine::sync::Semaphore;
use crate::vm::graphicsengine::vkobject::unnamed;
use crate::vm::graphicsengine::vkobject::HandleType;
use crate::vm::graphicsengine::vkobject::naming_error;
use crate::vm::graphicsengine::vkobject::VKHandle;
use crate::vm::graphicsengine::vkobject::VKHandleView;
use crate::vm::graphicsengine::vkobject::VKObject;
use crate::vm::graphicsengine::Context;
use crate::vm::graphicsengine::ContextView;
use vstd::prelude::*;

verus! {

/// The mathematical value of a [`Queue`].
pub struct QueueView {
    pub kind: QueueKind,
    pub handle: VKHandleView,
}

/// A queue of the device. Queues belong to the device: their handles are
/// protected and never destroyed.
#[derive(Debug)]
pub struct Queue {
    kind: QueueKind,
    queue: VKHandle,
}

impl View for Queue {
    type V = QueueView;

    closed spec fn view(&self) -> QueueView {
        QueueView { kind: self.kind, handle: self.queue@ }
    }
}

impl VKObject for Queue {
    open spec fn wrapped(&self) -> VKHandleView {
        self@.handle
    }

    fn wrapped_handle(&self) -> (wrapped: &VKHandle) {
        &self.queue
    }
}

/// The raw handles of the command buffers of a submission, in order.
pub open spec fn command_buffer_handles(command_buffers: Option<&[&CommandBuffer]>) -> Seq<u64> {
    match command_buffers {
        Some(list) => Seq::new(list@.len(), |i: int| list@[i]@.handle.handle),
        None => Seq::empty(),
    }
}

/// Whether the command buffer at `position` of a list has a recording open.
pub open spec fn writing_at(command_buffers: Seq<&CommandBuffer>, position: int) -> bool {
    command_buffers[position]@.writing
}

/// Whether one of the command buffers of a submission has a recording open.
pub open spec fn any_writing(command_buffers: Option<&[&CommandBuffer]>) -> bool {
    match command_buffers {
        Some(list) => exists|i: int| 0 <= i < list@.len() && #[trigger] writing_at(list@, i),
        None => false,
    }
}

/// The semaphores that a submission waits for, each with the stages that
/// wait, in order.
pub open spec fn semaphore_waits(wait_semaphores: Option<&[(&Semaphore, u32)]>) -> Seq<
    SemaphoreWait,
> {
    match wait_semaphores {
        Some(list) => Seq::new(
            list@.len(),
            |i: int| SemaphoreWait { semaphore: list@[i].0@.handle, stage: list@[i].1 },
        ),
        None => Seq::empty(),
    }
}

/// The raw handles of the semaphores that a submission signals, in order.
pub open spec fn semaphore_handles(signal_semaphores: Option<&[&Semaphore]>) -> Seq<u64> {
    match signal_semaphores {
        Some(list) => Seq::new(list@.len(), |i: int| list@[i]@.handle),
        None => Seq::empty(),
    }
}

/// The raw handle of the fence of a submission, or zero where there is none.
pub open spec fn fence_handle(fence: Option<&Fence>) -> u64 {
    match fence {
        Some(fence) => fence@.handle,
        None => 0,
    }
}

/// The description of the error for a command buffer that is submitted
/// while its recording is open.
pub open spec fn still_writing() -> Seq<char> {
    "CommandBuffer is still being written to"@
}

impl Queue {
    /// The value of a queue that was just fetched.
    pub open spec fn fetched(context: u64, handle: u64, kind: QueueKind) -> QueueView {
        QueueView {
            kind,
            handle: VKHandleView {
                context,
                handle_type: HandleType::Queue,
                handle,
                protected: true,
                name: unnamed(),
            },
        }
    }

    /// Fetches queue number `queue_index` of the family `family_index`.
    pub(crate) fn new(context: &mut Context, kind: QueueKind, family_index: u32, queue_index: u32) -> (result:
        Result<Self, FennecError>)
        requires
            old(context)@.can_create(1),
        ensures
            match result {
                Ok(queue) => old(context)@.readable() && queue@ == Queue::fetched(
                    old(context)@.id,
                    old(context)@.next_handle,
                    kind,
                ) && final(context)@ == old(context)@.create(1).issue(
                    DeviceCallView::GetDeviceQueue {
                        queue: old(context)@.next_handle,
                        family_index,
                        queue_index,
                    },
                ),
                Err(error) => !old(context)@.readable() && error@ == old(context)@.borrow_error()
                    && final(context)@ == old(context)@,
            },
    {
        context.check_readable()?;
        let queue = context.create_handle();
        context.issue(DeviceCall::GetDeviceQueue { queue, family_index, queue_index });
        Ok(Self { kind, queue: VKHandle::new(context, HandleType::Queue, queue, true) })
    }

    /// What the queue is used for.
    pub fn kind(&self) -> (kind: QueueKind)
        ensures
            kind == self@.kind,
    {
        self.kind
    }

    /// The error that a submission is refused with, if it is: a command
    /// buffer whose recording is still open, and a context that is
    /// exclusively borrowed, in this order.
    pub open spec fn submit_error(
        context: ContextView,
        command_buffers: Option<&[&CommandBuffer]>,
    ) -> Option<ErrorView> {
        if any_writing(command_buffers) {
            Some(illegal_state(still_writing()))
        } else if !context.readable() {
            Some(context.borrow_error())
        } else {
            None
        }
    }

    /// Submits one batch of work: the device waits for each of
    /// `wait_semaphores` at the stages given with it, runs the
    /// `command_buffers` in the order of the list, then signals each of
    /// `signal_semaphores` and the `fence`, if there is one. The call returns
    /// once the work is queued.
    pub fn submit(
        &self,
        context: &mut Context,
        command_buffers: Option<&[&CommandBuffer]>,
        wait_semaphores: Option<&[(&Semaphore, u32)]>,
        signal_semaphores: Option<&[&Semaphore]>,
        fence: Option<&Fence>,
    ) -> (result: Result<(), FennecError>)
        ensures
            match result {
                Ok(()) => {
                    &&& Queue::submit_error(old(context)@, command_buffers) is None
                    &&& final(context)@ == old(context)@.issue(
                        DeviceCallView::QueueSubmit {
                            queue: self@.handle.handle,
                            command_buffers: command_buffer_handles(command_buffers),
                            wait_semaphores: semaphore_waits(wait_semaphores),
                            signal_semaphores: semaphore_handles(signal_semaphores),
                            fence: fence_handle(fence),
                        },
                    )
                },
                Err(error) => {
                    &&& Queue::submit_error(old(context)@, command_buffers) == Some(error@)
                    &&& final(context)@ == old(context)@
                },
            },
    {
        let mut submit_wait_semaphores: Vec<SemaphoreWait> = Vec::new();
        if let Some(list) = wait_semaphores {
            let mut i: usize = 0;
            while i < list.len()
                invariant
                    i <= list@.len(),
                    submit_wait_semaphores@ == Seq::new(
                        i as nat,
                        |k: int| SemaphoreWait { semaphore: list@[k].0@.handle, stage: list@[k].1 },
                    ),
                decreases list@.len() - i,
            {
                submit_wait_semaphores.push(
                    SemaphoreWait { semaphore: list[i].0.handle(), stage: list[i].1 },
                );
                assert(submit_wait_semaphores@ =~= Seq::new(
                    (i + 1) as nat,
                    |k: int| SemaphoreWait { semaphore: list@[k].0@.handle, stage: list@[k].1 },
                ));
                i += 1;
            }
        }
        assert(submit_wait_semaphores@ =~= semaphore_waits(wait_semaphores));
        let mut submit_signal_semaphores: Vec<u64> = Vec::new();
        if let Some(list) = signal_semaphores {
            let mut i: usize = 0;
            while i < list.len()
                invariant
                    i <= list@.len(),
                    submit_signal_semaphores@ == Seq::new(i as nat, |k: int| list@[k]@.handle),
                decreases list@.len() - i,
            {
                submit_signal_semaphores.push(list[i].handle());
                assert(submit_signal_semaphores@ =~= Seq::new(
                    (i + 1) as nat,
                    |k: int| list@[k]@.handle,
                ));
                i += 1;
            }
        }
        assert(submit_signal_semaphores@ =~= semaphore_handles(signal_semaphores));
        let mut submit_command_buffers: Vec<u64> = Vec::new();
        if let Some(list) = command_buffers {
            let mut i: usize = 0;
            while i < list.len()
                invariant
                    i <= list@.len(),
                    submit_command_buffers@ == Seq::new(
                        i as nat,
                        |k: int| list@[k]@.handle.handle,
                    ),
                    command_buffers == Some(list),
                    forall|k: int| 0 <= k < i ==> !#[trigger] writing_at(list@, k),
                decreases list@.len() - i,
            {
                if list[i].writing() {
                    assert(any_writing(command_buffers)) by {
                        assert(writing_at(list@, i as int));
                        assert(match command_buffers {
                            Some(l) => exists|k: int|
                                0 <= k < l@.len() && #[trigger] writing_at(l@, k),
                            None => false,
                        });
                    }
                    return Err(
                        FennecError::with_kind(
                            ErrorKind::IllegalState,
                            "CommandBuffer is still being written to",
                        ),
                    );
                }
                submit_command_buffers.push(list[i].handle());
                assert(submit_command_buffers@ =~= Seq::new(
                    (i + 1) as nat,
                    |k: int| list@[k]@.handle.handle,
                ));
                i += 1;
            }
        }
        assert(submit_command_buffers@ =~= command_buffer_handles(command_buffers));
        context.check_readable()?;
        let submit_fence = match fence {
            Some(fence) => fence.handle(),
            None => 0,
        };
        context.issue(
            DeviceCall::QueueSubmit {
                queue: self.queue.handle(),
                command_buffers: submit_command_buffers,
                wait_semaphores: submit_wait_semaphores,
                signal_semaphores: submit_signal_semaphores,
                fence: submit_fence,
            },
        );
        Ok(())
    }

    /// Blocks the calling thread until the queue has finished all work that
    /// was submitted to it.
    pub fn wait(&self, context: &mut Context) -> (result: Result<(), FennecError>)
        ensures
            match result {
                Ok(()) => old(context)@.readable() && final(context)@ == old(context)@.issue(
                    DeviceCallView::QueueWaitIdle { queue: self@.handle.handle },
                ),
                Err(error) => !old(context)@.readable() && error@ == old(context)@.borrow_error()
                    && final(context)@ == old(context)@,
            },
    {
        context.check_readable()?;
        context.issue(DeviceCall::QueueWaitIdle { queue: self.queue.handle() });
        Ok(())
    }

    /// Names the queue, here and on the device.
    pub fn set_name(&mut self, context: &mut Context, name: &str) -> (result: Result<
        (),
        FennecError,
    >)
        ensures
            final(self)@ == (QueueView {
                handle: VKHandleView { name: name@, ..old(self)@.handle },
                ..old(self)@
            }),
            match result {
                Ok(()) => naming_error(old(context)@, name@) is None && final(context)@ == old(context)@.issue(VKHandle::naming(old(self)@.handle, name@)),
                Err(error) => naming_error(old(context)@, name@) == Some(error@)
                    && final(context)@ == old(context)@,
            },
    {
        self.queue.annotate(context, name)
    }

    /// Names the queue and hands it back.
    pub fn with_name(self, context: &mut Context, name: &str) -> (result: Result<
        Self,
        FennecError,
    >)
        ensures
            match result {
                Ok(named) => named@ == (QueueView {
                    handle: VKHandleView { name: name@, ..self@.handle },
                    ..self@
                }) && naming_error(old(context)@, name@) is None && final(context)@ == old(context)@.issue(VKHandle::naming(self@.handle, name@)),
                Err(error) => naming_error(old(context)@, name@) == Some(error@)
                    && final(context)@ == old(context)@,
            },
    {
        let mut named = self;
        named.set_name(context, name)?;
        Ok(named)
    }
}

} // verus!
