//! Command buffers and the scoped writers that record into them. A command
//! buffer is idle or recording. Recording is done through a writer, a render
//! pass is recorded through a guard that only a writer hands out, and draws
//! are recorded through a guard that only a render pass hands out.

use crate::error::illegal_state;
use crate::error::out_of_range;
use crate::error::ErrorKind;
use crate::error::ErrorView;
use crate::error::FennecError;
use crate::text::decimal;
use crate::text::decimal_digits;
use crate::text::join;
use crate::vm::graphicsengine::buffer::Buffer;
use crate::vm::graphicsengine::commandpool::CommandPool;
use crate::vm::graphicsengine::descriptorpool::DescriptorSet;
use crate::vm::graphicsengine::device::BufferImageCopy;
use crate::vm::graphicsengine::device::BufferMemoryBarrier;
use crate::vm::graphicsengine::device::ClearValue;
use crate::vm::graphicsengine::device::Extent3D;
use crate::vm::graphicsengine::device::ImageMemoryBarrier;
use crate::vm::graphicsengine::device::ImageSubresourceRange;
use crate::vm::graphicsengine::device::MemoryBarrier;
use crate::vm::graphicsengine::device::Rect2D;
use crate::vm::graphicsengine::framebuffer::Framebuffer;
use crate::vm::graphicsengine::image::region_error;
use crate::vm::graphicsengine::image::Image;
use crate::vm::graphicsengine::renderpass::RenderPass;
use crate::vm::graphicsengine::device::DeviceCall;
use crate::vm::graphicsengine::device::DeviceCallView;
use crate::vm::graphicsengine::pipeline::GraphicsPipeline;
use crate::vm::graphicsengine::pipeline::Pipeline;
use crate::vm::graphicsengine::queuefamily::QueueKind;
use crate::vm::graphicsengine::vk;
use crate::vm::graphicsengine::vkobject::unnamed;
use crate::vm::graphicsengine::vkobject::HandleType;
use crate::vm::graphicsengine::vkobject::naming_error;
use crate::vm::graphicsengine::vkobject::VKHandle;
use crate::vm::graphicsengine::vkobject::VKHandleView;
use crate::vm::graphicsengine::vkobject::VKObject;
use crate::vm::graphicsengine::Context;
use crate::vm::graphicsengine::ContextView;
use crate::text::lemma_digits_have_no_nul;
use crate::text::lemma_has_nul_of_pieces;
use crate::vm::graphicsengine::vkobject::lemma_naming_error_of_longer_name;
use crate::vm::graphicsengine::pipeline::GraphicsPipelineView;
use crate::cache::handle_text;
use crate::cache::lemma_handle_text_has_no_nul;
use crate::cache::make_handle_text;
use vstd::prelude::*;
use vstd::slice::slice_to_vec;

verus! {

/// The mathematical value of a [`CommandBuffer`].
pub struct CommandBufferView {
    pub handle: VKHandleView,
    /// Whether a recording is open.
    pub writing: bool,
    /// Whether the open recording has begun a render pass and not ended it.
    pub in_render_pass: bool,
    /// The kind of queue that the buffer's pool serves.
    pub kind: QueueKind,
}

/// A command buffer: a recorded sequence of device commands that is
/// submitted as a unit.
#[derive(Debug)]
pub struct CommandBuffer {
    command_buffer: VKHandle,
    writing: bool,
    in_render_pass: bool,
    kind: QueueKind,
}

impl View for CommandBuffer {
    type V = CommandBufferView;

    closed spec fn view(&self) -> CommandBufferView {
        CommandBufferView {
            handle: self.command_buffer@,
            writing: self.writing,
            in_render_pass: self.in_render_pass,
            kind: self.kind,
        }
    }
}

impl VKObject for CommandBuffer {
    open spec fn wrapped(&self) -> VKHandleView {
        self@.handle
    }

    fn wrapped_handle(&self) -> (wrapped: &VKHandle) {
        &self.command_buffer
    }
}

/// The description of the error for a command that is recorded while no
/// recording is open.
pub open spec fn not_recording() -> Seq<char> {
    "CommandBuffer is not being written to"@
}

/// The description of the error for a command that needs an open render
/// pass and finds none.
pub open spec fn no_render_pass() -> Seq<char> {
    "No render pass is open"@
}

/// The description of the error for a recording that is opened twice.
pub open spec fn already_writing() -> Seq<char> {
    "CommandBuffer is already being written to"@
}

/// Whether `kind` is one of `kinds`.
pub open spec fn kind_among(kind: QueueKind, kinds: Seq<QueueKind>) -> bool {
    exists|i: int| 0 <= i < kinds.len() && kinds[i] == kind
}

/// The kinds of queue that take barriers and copies.
pub open spec fn barrier_kinds() -> Seq<QueueKind> {
    seq![QueueKind::Transfer, QueueKind::Graphics, QueueKind::Compute]
}

/// The kinds of queue that take clears of color images.
pub open spec fn clear_kinds() -> Seq<QueueKind> {
    seq![QueueKind::Graphics, QueueKind::Compute]
}

/// The kinds of queue that take render passes.
pub open spec fn render_kinds() -> Seq<QueueKind> {
    seq![QueueKind::Graphics]
}

/// The three lists name the kinds that take the commands they stand for.
pub proof fn lemma_kinds_taken(kind: QueueKind)
    ensures
        kind_among(kind, barrier_kinds()) == kind.takes_transfers(),
        kind_among(kind, clear_kinds()) == kind.takes_clears(),
        kind_among(kind, render_kinds()) == kind.takes_render_passes(),
{
    assert(barrier_kinds()[0] == QueueKind::Transfer && barrier_kinds()[1] == QueueKind::Graphics
        && barrier_kinds()[2] == QueueKind::Compute);
    assert(clear_kinds()[0] == QueueKind::Graphics && clear_kinds()[1] == QueueKind::Compute);
    assert(render_kinds()[0] == QueueKind::Graphics);
}

/// The names of the first `upto` of a list of kinds, with a comma and a
/// blank between one and the next.
pub open spec fn kinds_listed(kinds: Seq<QueueKind>, upto: nat) -> Seq<char>
    decreases upto,
{
    if upto == 0 {
        Seq::empty()
    } else if upto == 1 {
        kinds[0].spec_name()
    } else {
        kinds_listed(kinds, (upto - 1) as nat) + ", "@ + kinds[upto - 1].spec_name()
    }
}

/// The description of the error for a command that the buffer's kind of
/// queue does not take: the kind, and the kinds that take the command.
pub open spec fn wrong_kind(kind: QueueKind, expected: Seq<QueueKind>) -> Seq<char> {
    "Wrong kind of command buffer ("@ + kind.spec_name() + ") - Expected one of ["@
        + kinds_listed(expected, expected.len()) + "]"@
}

/// The error for a command that the buffer's kind of queue does not take.
pub fn wrong_kind_error(kind: QueueKind, expected: &[QueueKind]) -> (error: FennecError)
    ensures
        error@ == illegal_state(wrong_kind(kind, expected@)),
{
    let mut listed = String::new();
    let mut i: usize = 0;
    while i < expected.len()
        invariant
            i <= expected@.len(),
            listed@ == kinds_listed(expected@, i as nat),
        decreases expected@.len() - i,
    {
        if i > 0 {
            listed.append(", ");
        }
        listed.append(expected[i].name());
        proof {
            if i == 0 {
                assert(listed@ =~= expected@[0].spec_name());
            }
        }
        i += 1;
    }
    let head = join("Wrong kind of command buffer (", kind.name());
    let middle = join(head.as_str(), ") - Expected one of [");
    let list = join(middle.as_str(), listed.as_str());
    let description = join(list.as_str(), "]");
    assert(description@ =~= wrong_kind(kind, expected@));
    FennecError::with_kind(ErrorKind::IllegalState, description.as_str())
}


impl CommandBufferView {
    /// The buffer with a recording open, and no render pass in it yet.
    pub open spec fn begun(self) -> Self {
        CommandBufferView { writing: true, in_render_pass: false, ..self }
    }

    /// The buffer with no recording open.
    pub open spec fn ended(self) -> Self {
        CommandBufferView { writing: false, in_render_pass: false, ..self }
    }

    /// The buffer with a render pass open in its recording.
    pub open spec fn pass_begun(self) -> Self {
        CommandBufferView { in_render_pass: true, ..self }
    }

    /// The buffer with no render pass open in its recording.
    pub open spec fn pass_ended(self) -> Self {
        CommandBufferView { in_render_pass: false, ..self }
    }

    /// The buffer under another name.
    pub open spec fn renamed(self, name: Seq<char>) -> Self {
        CommandBufferView { handle: VKHandleView { name, ..self.handle }, ..self }
    }

    /// The error that opening a recording refuses with, if it does: a
    /// recording that is already open, and a context that is exclusively
    /// borrowed, in this order.
    pub open spec fn begin_error(self, context: ContextView) -> Option<ErrorView> {
        if self.writing {
            Some(illegal_state(already_writing()))
        } else if !context.readable() {
            Some(context.borrow_error())
        } else {
            None
        }
    }

    /// Recording is exclusive, and ending a recording frees the buffer
    /// again: a buffer with a recording open refuses a second one with an
    /// illegal-state error, and once the recording has ended the next one is
    /// accepted, where the context can be borrowed.
    pub proof fn lemma_recording_is_exclusive(self, context: ContextView)
        ensures
            self.begun().begin_error(context) == Some(illegal_state(already_writing())),
            illegal_state(already_writing()).kind == ErrorKind::IllegalState,
            context.readable() ==> self.begun().ended().begin_error(context) is None,
    {
    }
}

/// The name given to the buffer at `position` of the batch under the handle
/// `batch` of a pool called `pool`.
pub open spec fn batch_member_name(pool: Seq<char>, batch: u64, position: nat) -> Seq<char> {
    pool + "["@ + handle_text(batch) + "]."@ + decimal_digits(position)
}

/// A member of a batch can be named exactly when its pool can, and fails
/// with the same error: what is added behind the pool's name holds no NUL
/// character.
pub proof fn lemma_member_name_follows_pool(
    context: ContextView,
    pool: Seq<char>,
    batch: u64,
    position: nat,
)
    ensures
        naming_error(context, batch_member_name(pool, batch, position)) == naming_error(
            context,
            pool,
        ),
{
    reveal_strlit("[");
    reveal_strlit("].");
    let rest = "["@ + handle_text(batch) + "]."@ + decimal_digits(position);
    lemma_handle_text_has_no_nul(batch);
    lemma_digits_have_no_nul(position);
    lemma_has_nul_of_pieces("["@, handle_text(batch));
    lemma_has_nul_of_pieces("["@ + handle_text(batch), "]."@);
    lemma_has_nul_of_pieces("["@ + handle_text(batch) + "]."@, decimal_digits(position));
    assert(batch_member_name(pool, batch, position) =~= pool + rest);
    lemma_naming_error_of_longer_name(context, pool, rest);
}

/// Builds the name of a member of a batch.
pub fn make_batch_member_name(pool: &str, batch: u64, position: usize) -> (name: String)
    ensures
        name@ == batch_member_name(pool@, batch, position as nat),
{
    let batch_text = make_handle_text(batch);
    let position_text = decimal(position as u64);
    let a = join(pool, "[");
    let b = join(a.as_str(), batch_text.as_str());
    let c = join(b.as_str(), "].");
    let name = join(c.as_str(), position_text.as_str());
    assert(name@ =~= batch_member_name(pool@, batch, position as nat));
    name
}

/// The calls that name the command buffers of a batch, in order.
pub open spec fn batch_naming(batch: Seq<CommandBuffer>, pool: Seq<char>, handle: u64) -> Seq<
    DeviceCallView,
> {
    Seq::new(
        batch.len(),
        |i: int| VKHandle::naming(batch[i]@.handle, batch_member_name(pool, handle, i as nat)),
    )
}

/// Names every command buffer of a batch after its pool, the handle of the
/// batch and its position in the batch. Where the batch is not empty and
/// the context is exclusively borrowed, or the name of the pool holds a NUL
/// character, the call fails at the first buffer, which keeps its new name
/// on this side.
pub fn name_batch(batch: &mut [CommandBuffer], context: &mut Context, pool: &str, handle: u64) -> (result:
    Result<(), FennecError>)
    ensures
        final(batch)@.len() == old(batch)@.len(),
        match result {
            Ok(()) => {
                &&& old(batch)@.len() > 0 ==> naming_error(old(context)@, pool@) is None
                &&& forall|i: int|
                    0 <= i < old(batch)@.len() ==> (#[trigger] final(batch)@[i])@ == old(batch)@[i]@.renamed(batch_member_name(pool@, handle, i as nat))
                &&& final(context)@ == old(context)@.issue_all(
                    batch_naming(old(batch)@, pool@, handle),
                )
            },
            Err(error) => {
                &&& old(batch)@.len() > 0
                &&& naming_error(old(context)@, pool@) == Some(error@)
                &&& final(context)@ == old(context)@
                &&& final(batch)@[0]@ == old(batch)@[0]@.renamed(
                    batch_member_name(pool@, handle, 0),
                )
                &&& forall|i: int|
                    0 < i < old(batch)@.len() ==> #[trigger] final(batch)@[i] == old(batch)@[i]
            },
        },
{
    let mut i: usize = 0;
    proof {
        context@.lemma_issue_all_advances(Seq::empty());
        assert(batch_naming(old(batch)@, pool@, handle).take(0) =~= Seq::empty());
    }
    while i < batch.len()
        invariant
            i <= batch@.len(),
            batch@.len() == old(batch)@.len(),
            i > 0 ==> naming_error(old(context)@, pool@) is None,
            forall|k: int|
                0 <= k < i ==> (#[trigger] batch@[k])@ == old(batch)@[k]@.renamed(
                    batch_member_name(pool@, handle, k as nat),
                ),
            forall|k: int| i <= k < batch@.len() ==> #[trigger] batch@[k] == old(batch)@[k],
            context@ == old(context)@.issue_all(
                batch_naming(old(batch)@, pool@, handle).take(i as int),
            ),
        decreases batch@.len() - i,
    {
        let name = make_batch_member_name(pool, handle, i);
        proof {
            lemma_member_name_follows_pool(context@, pool@, handle, i as nat);
        }
        let named = batch[i].set_name(context, name.as_str());
        match named {
            Ok(()) => {},
            Err(error) => {
                return Err(error);
            },
        }
        proof {
            let calls = batch_naming(old(batch)@, pool@, handle);
            assert(calls.take(i as int).push(calls[i as int]) =~= calls.take(i + 1));
            assert((old(context)@.calls + calls.take(i as int)).push(calls[i as int]) =~= old(context)@.calls + calls.take(i + 1));
        }
        i += 1;
    }
    proof {
        let calls = batch_naming(old(batch)@, pool@, handle);
        assert(calls.take(calls.len() as int) =~= calls);
    }
    Ok(())
}

impl CommandBuffer {
    /// The command buffer bound to `handle`, idle, for queues of `kind`.
    pub(crate) fn from_handle(context: &Context, handle: u64, kind: QueueKind) -> (buffer: Self)
        ensures
            buffer@ == CommandBuffer::fresh(context@.id, handle, kind),
    {
        Self {
            command_buffer: VKHandle::new(context, HandleType::CommandBuffer, handle, false),
            writing: false,
            in_render_pass: false,
            kind,
        }
    }

    /// The value of a command buffer that was just allocated.
    pub open spec fn fresh(context: u64, handle: u64, kind: QueueKind) -> CommandBufferView {
        CommandBufferView {
            handle: VKHandleView {
                context,
                handle_type: HandleType::CommandBuffer,
                handle,
                protected: false,
                name: unnamed(),
            },
            writing: false,
            in_render_pass: false,
            kind,
        }
    }

    /// Allocates `count` command buffers from `command_pool` as one batch.
    /// They are bound to the next `count` handles of the context, in order,
    /// and start idle.
    pub(crate) fn new(context: &mut Context, command_pool: &CommandPool, count: u32) -> (result:
        Result<Vec<Self>, FennecError>)
        requires
            old(context)@.can_create(count as nat),
        ensures
            match result {
                Ok(buffers) => {
                    &&& old(context)@.readable()
                    &&& final(context)@ == old(context)@.create(count as nat).issue(
                        DeviceCallView::AllocateCommandBuffers {
                            pool: command_pool@.handle.handle,
                            first: old(context)@.next_handle,
                            count,
                        },
                    )
                    &&& buffers@.len() == count
                    &&& forall|i: int|
                        0 <= i < count ==> (#[trigger] buffers@[i])@ == CommandBuffer::fresh(
                            old(context)@.id,
                            (old(context)@.next_handle + i) as u64,
                            command_pool@.kind,
                        )
                },
                Err(error) => !old(context)@.readable() && error@ == old(context)@.borrow_error()
                    && final(context)@ == old(context)@,
            },
    {
        context.check_readable()?;
        let first = context.create_handles(count);
        context.issue(
            DeviceCall::AllocateCommandBuffers { pool: command_pool.handle(), first, count },
        );
        let kind = command_pool.kind();
        let mut buffers: Vec<Self> = Vec::new();
        let mut i: u32 = 0;
        while i < count
            invariant
                i <= count,
                first + count <= u64::MAX,
                buffers@.len() == i,
                forall|k: int|
                    0 <= k < i ==> (#[trigger] buffers@[k])@ == CommandBuffer::fresh(
                        context@.id,
                        (first + k) as u64,
                        kind,
                    ),
            decreases count - i,
        {
            buffers.push(CommandBuffer::from_handle(context, first + i as u64, kind));
            i += 1;
        }
        Ok(buffers)
    }

    /// The kind of queue that the buffer is recorded for.
    pub fn kind(&self) -> (kind: QueueKind)
        ensures
            kind == self@.kind,
    {
        self.kind
    }

    /// Whether a recording is open.
    pub fn writing(&self) -> (writing: bool)
        ensures
            writing == self@.writing,
    {
        self.writing
    }

    /// Whether the open recording has begun a render pass and not ended it.
    pub fn in_render_pass(&self) -> (open: bool)
        ensures
            open == self@.in_render_pass,
    {
        self.in_render_pass
    }

    /// The usage flags that a recording is begun with.
    pub open spec fn begin_flags(used_once: bool, simultaneous_use: bool) -> u32 {
        (if used_once {
            vk::USAGE_ONE_TIME_SUBMIT
        } else {
            0u32
        }) | (if simultaneous_use {
            vk::USAGE_SIMULTANEOUS_USE
        } else {
            0u32
        })
    }

    /// Opens a recording and hands out the writer for it. Fails with an
    /// illegal-state error where a recording is already open, and with the
    /// borrow error where the context is exclusively borrowed; the buffer
    /// and the context are then unchanged.
    pub fn begin<'a>(
        &'a mut self,
        context: &mut Context,
        used_once: bool,
        simultaneous_use: bool,
    ) -> (result: Result<CommandBufferWriter<'a>, FennecError>)
        ensures
            match result {
                Ok(writer) => {
                    &&& old(self)@.begin_error(old(context)@) is None
                    &&& final(context)@ == old(context)@.issue(
                        DeviceCallView::BeginCommandBuffer {
                            command_buffer: old(self)@.handle.handle,
                            flags: CommandBuffer::begin_flags(used_once, simultaneous_use),
                        },
                    )
                    &&& writer.buffer()@ == old(self)@.begun()
                    &&& *final(self) == *final(writer.command_buffer)
                },
                Err(error) => {
                    &&& old(self)@.begin_error(old(context)@) == Some(error@)
                    &&& *final(self) == *old(self)
                    &&& final(context)@ == old(context)@
                },
            },
    {
        if self.writing {
            return Err(
                FennecError::with_kind(
                    ErrorKind::IllegalState,
                    "CommandBuffer is already being written to",
                ),
            );
        }
        context.check_readable()?;
        let flags = (if used_once {
            vk::usage_one_time_submit()
        } else {
            0u32
        }) | (if simultaneous_use {
            vk::usage_simultaneous_use()
        } else {
            0u32
        });
        context.issue(
            DeviceCall::BeginCommandBuffer { command_buffer: self.command_buffer.handle(), flags },
        );
        self.writing = true;
        self.in_render_pass = false;
        Ok(CommandBufferWriter { command_buffer: self })
    }

    /// What the context looks like after a recording that was left open
    /// was ended: unchanged for a buffer that is idle, and otherwise with
    /// the calls that end the recording.
    pub open spec fn closed_in(buffer: CommandBufferView, context: ContextView) -> ContextView {
        if buffer.writing {
            CommandBufferWriter::ended(context, buffer.handle.handle, buffer.in_render_pass)
        } else {
            context
        }
    }

    /// Ends a recording that was left open, because its writer went away
    /// without ending it. A render pass that is still open is ended first.
    /// The buffer is idle afterwards and can be recorded again; a buffer
    /// that is idle already is left as it is. Fails with the borrow error
    /// where the context is exclusively borrowed; nothing changes then.
    pub fn end_recording(&mut self, context: &mut Context) -> (result: Result<(), FennecError>)
        ensures
            match result {
                Ok(()) => {
                    &&& old(context)@.readable()
                    &&& final(self)@ == old(self)@.ended()
                    &&& final(context)@ == CommandBuffer::closed_in(old(self)@, old(context)@)
                },
                Err(error) => {
                    &&& !old(context)@.readable()
                    &&& error@ == old(context)@.borrow_error()
                    &&& *final(self) == *old(self)
                    &&& final(context)@ == old(context)@
                },
            },
    {
        context.check_readable()?;
        if self.writing {
            let target = self.command_buffer.handle();
            if self.in_render_pass {
                context.issue(DeviceCall::CmdEndRenderPass { command_buffer: target });
            }
            context.issue(DeviceCall::EndCommandBuffer { command_buffer: target });
        }
        self.writing = false;
        self.in_render_pass = false;
        Ok(())
    }

    /// Names the command buffer, here and on the device.
    pub fn set_name(&mut self, context: &mut Context, name: &str) -> (result: Result<
        (),
        FennecError,
    >)
        ensures
            final(self)@ == old(self)@.renamed(name@),
            match result {
                Ok(()) => naming_error(old(context)@, name@) is None && final(context)@ == old(context)@.issue(VKHandle::naming(old(self)@.handle, name@)),
                Err(error) => naming_error(old(context)@, name@) == Some(error@)
                    && final(context)@ == old(context)@,
            },
    {
        self.command_buffer.annotate(context, name)
    }

    /// Checks that the buffer is recorded for one of the `expected_kinds` of
    /// queue.
    pub fn verify_kind(&self, expected_kinds: &[QueueKind]) -> (result: Result<(), FennecError>)
        ensures
            match result {
                Ok(()) => kind_among(self@.kind, expected_kinds@),
                Err(error) => !kind_among(self@.kind, expected_kinds@) && error@ == illegal_state(
                    wrong_kind(self@.kind, expected_kinds@),
                ),
            },
    {
        let mut i: usize = 0;
        while i < expected_kinds.len()
            invariant
                i <= expected_kinds@.len(),
                forall|j: int| 0 <= j < i ==> expected_kinds@[j] != self@.kind,
            decreases expected_kinds@.len() - i,
        {
            if expected_kinds[i] == self.kind {
                return Ok(());
            }
            i += 1;
        }
        Err(wrong_kind_error(self.kind, expected_kinds))
    }
}

/// The description of the error for a render pass that is begun while
/// another is open.
pub open spec fn render_pass_open() -> Seq<char> {
    "A render pass is already open"@
}

/// The error for the first of the regions from `from` on that does not lie
/// inside an image called `name` of the given extent, if there is one.
pub open spec fn regions_error(
    name: Seq<char>,
    extent: Extent3D,
    regions: Seq<BufferImageCopy>,
    from: int,
) -> Option<ErrorView>
    decreases regions.len() - from,
{
    if from < 0 || from >= regions.len() {
        None
    } else if region_error(name, extent, regions[from].image_offset, regions[from].image_extent)
        is Some {
        region_error(name, extent, regions[from].image_offset, regions[from].image_extent)
    } else {
        regions_error(name, extent, regions, from + 1)
    }
}

/// The description of the error for a draw without vertices.
pub open spec fn no_vertices() -> Seq<char> {
    "Vertex count was 0"@
}

/// The description of the error for a draw without indices.
pub open spec fn no_indices() -> Seq<char> {
    "Index count was 0"@
}

/// The description of the error for a draw without instances.
pub open spec fn no_instances() -> Seq<char> {
    "Instance count was 0"@
}

/// The raw handles of a list of descriptor sets, in order.
pub open spec fn descriptor_set_handles(descriptor_sets: Seq<&DescriptorSet>) -> Seq<u64> {
    Seq::new(descriptor_sets.len(), |i: int| descriptor_sets[i]@.handle.handle)
}

/// The writer of an open recording. It borrows the command buffer until the
/// recording is ended. A writer is handed out by `CommandBuffer::begin`; one
/// that is put together around a buffer that no recording is open on is
/// refused by every command.
pub struct CommandBufferWriter<'a> {
    /// The buffer that is recorded into.
    pub command_buffer: &'a mut CommandBuffer,
}

impl<'a> CommandBufferWriter<'a> {
    /// The buffer that is recorded into, as it is now.
    pub open spec fn buffer(&self) -> CommandBuffer {
        *self.command_buffer
    }

    /// The raw handle of the buffer that is recorded into.
    pub open spec fn target(&self) -> u64 {
        self.buffer()@.handle.handle
    }

    /// The error that a command is refused with, if it is: a buffer that
    /// no recording is open on, a buffer whose kind of queue is none of the
    /// `expected` ones, and a context that is exclusively borrowed, in this
    /// order.
    pub open spec fn command_error(
        buffer: CommandBufferView,
        expected: Seq<QueueKind>,
        context: ContextView,
    ) -> Option<ErrorView> {
        if !buffer.writing {
            Some(illegal_state(not_recording()))
        } else if !kind_among(buffer.kind, expected) {
            Some(illegal_state(wrong_kind(buffer.kind, expected)))
        } else if !context.readable() {
            Some(context.borrow_error())
        } else {
            None
        }
    }

    /// A command buffer for transfer queues that is being recorded refuses
    /// clears and render passes with an illegal-state error, and takes
    /// barriers and copies wherever the context can be borrowed.
    pub proof fn lemma_transfer_buffers_refuse_graphics(
        buffer: CommandBufferView,
        context: ContextView,
    )
        requires
            buffer.writing,
            buffer.kind == QueueKind::Transfer,
        ensures
            CommandBufferWriter::command_error(buffer, clear_kinds(), context) == Some(
                illegal_state(wrong_kind(QueueKind::Transfer, clear_kinds())),
            ),
            CommandBufferWriter::render_pass_error(buffer, context) == Some(
                illegal_state(wrong_kind(QueueKind::Transfer, render_kinds())),
            ),
            illegal_state(wrong_kind(QueueKind::Transfer, clear_kinds())).kind
                == ErrorKind::IllegalState,
            illegal_state(wrong_kind(QueueKind::Transfer, render_kinds())).kind
                == ErrorKind::IllegalState,
            context.readable() ==> CommandBufferWriter::command_error(
                buffer,
                barrier_kinds(),
                context,
            ) is None,
            context.readable() ==> CommandBufferWriter::copy_error(
                buffer,
                context,
                Seq::empty(),
                Extent3D { width: 0, height: 0, depth: 0 },
                Seq::empty(),
            ) is None,
    {
        lemma_kinds_taken(QueueKind::Transfer);
    }

    /// Records a pipeline barrier. Lists that are left out are empty, and
    /// flags that are left out are none.
    pub fn pipeline_barrier(
        &self,
        context: &mut Context,
        src_stage: u32,
        dst_stage: u32,
        dependency_flags: Option<u32>,
        memory_barriers: Option<&[MemoryBarrier]>,
        buffer_memory_barriers: Option<&[BufferMemoryBarrier]>,
        image_memory_barriers: Option<&[ImageMemoryBarrier]>,
    ) -> (result: Result<(), FennecError>)
        ensures
            match result {
                Ok(()) => CommandBufferWriter::command_error(
                    self.buffer()@,
                    barrier_kinds(),
                    old(context)@,
                ) is None && final(context)@ == old(context)@.issue(
                    DeviceCallView::CmdPipelineBarrier {
                        command_buffer: self.buffer()@.handle.handle,
                        src_stage,
                        dst_stage,
                        dependency_flags: match dependency_flags {
                            Some(flags) => flags,
                            None => 0,
                        },
                        memory_barriers: match memory_barriers {
                            Some(barriers) => barriers@,
                            None => Seq::empty(),
                        },
                        buffer_memory_barriers: match buffer_memory_barriers {
                            Some(barriers) => barriers@,
                            None => Seq::empty(),
                        },
                        image_memory_barriers: match image_memory_barriers {
                            Some(barriers) => barriers@,
                            None => Seq::empty(),
                        },
                    },
                ),
                Err(error) => CommandBufferWriter::command_error(
                    self.buffer()@,
                    barrier_kinds(),
                    old(context)@,
                ) == Some(error@) && final(context)@ == old(context)@,
            },
    {
        if !self.command_buffer.writing {
            return Err(
                FennecError::with_kind(
                    ErrorKind::IllegalState,
                    "CommandBuffer is not being written to",
                ),
            );
        }
        let kinds = [QueueKind::Transfer, QueueKind::Graphics, QueueKind::Compute];
        assert(kinds@ =~= barrier_kinds());
        self.command_buffer.verify_kind(&kinds)?;
        context.check_readable()?;
        context.issue(
            DeviceCall::CmdPipelineBarrier {
                command_buffer: self.command_buffer.command_buffer.handle(),
                src_stage,
                dst_stage,
                dependency_flags: match dependency_flags {
                    Some(flags) => flags,
                    None => 0,
                },
                memory_barriers: match memory_barriers {
                    Some(barriers) => slice_to_vec(barriers),
                    None => Vec::new(),
                },
                buffer_memory_barriers: match buffer_memory_barriers {
                    Some(barriers) => slice_to_vec(barriers),
                    None => Vec::new(),
                },
                image_memory_barriers: match image_memory_barriers {
                    Some(barriers) => slice_to_vec(barriers),
                    None => Vec::new(),
                },
            },
        );
        Ok(())
    }

    /// Records a clear of the `ranges` of a color image, which is in
    /// `layout`, to `clear_color`.
    pub fn clear_color_image<I: Image>(
        &self,
        context: &mut Context,
        image: &I,
        layout: i32,
        clear_color: &ClearValue,
        ranges: &[ImageSubresourceRange],
    ) -> (result: Result<(), FennecError>)
        ensures
            match result {
                Ok(()) => CommandBufferWriter::command_error(
                    self.buffer()@,
                    clear_kinds(),
                    old(context)@,
                ) is None && final(context)@ == old(context)@.issue(
                    DeviceCallView::CmdClearColorImage {
                        command_buffer: self.buffer()@.handle.handle,
                        image: image.wrapped().handle,
                        layout,
                        clear_color: *clear_color,
                        ranges: ranges@,
                    },
                ),
                Err(error) => CommandBufferWriter::command_error(
                    self.buffer()@,
                    clear_kinds(),
                    old(context)@,
                ) == Some(error@) && final(context)@ == old(context)@,
            },
    {
        if !self.command_buffer.writing {
            return Err(
                FennecError::with_kind(
                    ErrorKind::IllegalState,
                    "CommandBuffer is not being written to",
                ),
            );
        }
        let kinds = [QueueKind::Graphics, QueueKind::Compute];
        assert(kinds@ =~= clear_kinds());
        self.command_buffer.verify_kind(&kinds)?;
        context.check_readable()?;
        context.issue(
            DeviceCall::CmdClearColorImage {
                command_buffer: self.command_buffer.command_buffer.handle(),
                image: image.handle(),
                layout,
                clear_color: *clear_color,
                ranges: slice_to_vec(ranges),
            },
        );
        Ok(())
    }

    /// The error that the start of a render pass is refused with, if it is:
    /// a buffer that no recording is open on, a buffer whose kind of queue
    /// takes no render passes, a render pass that is open already, and a
    /// context that is exclusively borrowed, in this order.
    pub open spec fn render_pass_error(buffer: CommandBufferView, context: ContextView) -> Option<
        ErrorView,
    > {
        if !buffer.writing {
            Some(illegal_state(not_recording()))
        } else if !kind_among(buffer.kind, render_kinds()) {
            Some(illegal_state(wrong_kind(buffer.kind, render_kinds())))
        } else if buffer.in_render_pass {
            Some(illegal_state(render_pass_open()))
        } else if !context.readable() {
            Some(context.borrow_error())
        } else {
            None
        }
    }

    /// Records the start of a render pass and hands out the guard for it.
    /// Commands that need an open render pass are reached through the
    /// guard, and through nothing else.
    pub fn begin_render_pass<'b>(
        &'b mut self,
        context: &mut Context,
        render_pass: &RenderPass,
        framebuffer: &Framebuffer,
        render_area: Rect2D,
        clear_values: &[ClearValue],
    ) -> (result: Result<ActiveRenderPass<'b, 'a>, FennecError>)
        ensures
            match result {
                Ok(pass) => {
                    &&& CommandBufferWriter::render_pass_error(
                        old(self).buffer()@,
                        old(context)@,
                    ) is None
                    &&& final(context)@ == old(context)@.issue(
                        DeviceCallView::CmdBeginRenderPass {
                            command_buffer: old(self).target(),
                            render_pass: render_pass@.handle.handle,
                            framebuffer: framebuffer@.handle.handle,
                            render_area,
                            clear_values: clear_values@,
                        },
                    )
                    &&& pass.held().buffer()@ == old(self).buffer()@.pass_begun()
                    &&& *final(pass.command_buffer_writer.command_buffer)
                        == *final(old(self).command_buffer)
                    &&& *final(self) == *final(pass.command_buffer_writer)
                },
                Err(error) => {
                    &&& CommandBufferWriter::render_pass_error(
                        old(self).buffer()@,
                        old(context)@,
                    ) == Some(error@)
                    &&& *final(self) == *old(self)
                    &&& final(context)@ == old(context)@
                },
            },
    {
        if !self.command_buffer.writing {
            return Err(
                FennecError::with_kind(
                    ErrorKind::IllegalState,
                    "CommandBuffer is not being written to",
                ),
            );
        }
        let kinds = [QueueKind::Graphics];
        assert(kinds@ =~= render_kinds());
        self.command_buffer.verify_kind(&kinds)?;
        if self.command_buffer.in_render_pass {
            return Err(
                FennecError::with_kind(ErrorKind::IllegalState, "A render pass is already open"),
            );
        }
        context.check_readable()?;
        context.issue(
            DeviceCall::CmdBeginRenderPass {
                command_buffer: self.command_buffer.command_buffer.handle(),
                render_pass: render_pass.handle(),
                framebuffer: framebuffer.handle(),
                render_area,
                clear_values: slice_to_vec(clear_values),
            },
        );
        self.command_buffer.in_render_pass = true;
        Ok(ActiveRenderPass { command_buffer_writer: self })
    }

    /// The error that a copy into an image is refused with, if it is: a
    /// buffer that no recording is open on, a buffer whose kind of queue
    /// takes no copies, the first region that does not lie inside the
    /// image, and a context that is exclusively borrowed, in this order.
    pub open spec fn copy_error(
        buffer: CommandBufferView,
        context: ContextView,
        name: Seq<char>,
        extent: Extent3D,
        regions: Seq<BufferImageCopy>,
    ) -> Option<ErrorView> {
        if !buffer.writing {
            Some(illegal_state(not_recording()))
        } else if !kind_among(buffer.kind, barrier_kinds()) {
            Some(illegal_state(wrong_kind(buffer.kind, barrier_kinds())))
        } else if regions_error(name, extent, regions, 0) is Some {
            regions_error(name, extent, regions, 0)
        } else if !context.readable() {
            Some(context.borrow_error())
        } else {
            None
        }
    }

    /// Records copies from `source` into the `regions` of `destination`,
    /// which is in `destination_layout`. Every region must lie inside the
    /// image.
    pub fn copy_buffer_to_image<I: Image>(
        &self,
        context: &mut Context,
        source: &Buffer,
        destination: &I,
        destination_layout: i32,
        regions: &[BufferImageCopy],
    ) -> (result: Result<(), FennecError>)
        ensures
            match result {
                Ok(()) => CommandBufferWriter::copy_error(
                    self.buffer()@,
                    old(context)@,
                    destination.wrapped().name,
                    destination.spec_extent(),
                    regions@,
                ) is None && final(context)@ == old(context)@.issue(
                    DeviceCallView::CmdCopyBufferToImage {
                        command_buffer: self.buffer()@.handle.handle,
                        source: source@.handle.handle,
                        destination: destination.wrapped().handle,
                        destination_layout,
                        regions: regions@,
                    },
                ),
                Err(error) => CommandBufferWriter::copy_error(
                    self.buffer()@,
                    old(context)@,
                    destination.wrapped().name,
                    destination.spec_extent(),
                    regions@,
                ) == Some(error@) && final(context)@ == old(context)@,
            },
    {
        if !self.command_buffer.writing {
            return Err(
                FennecError::with_kind(
                    ErrorKind::IllegalState,
                    "CommandBuffer is not being written to",
                ),
            );
        }
        let kinds = [QueueKind::Transfer, QueueKind::Graphics, QueueKind::Compute];
        assert(kinds@ =~= barrier_kinds());
        self.command_buffer.verify_kind(&kinds)?;
        let mut i: usize = 0;
        while i < regions.len()
            invariant
                i <= regions@.len(),
                context@ == old(context)@,
                self.command_buffer@.writing,
                kind_among(self.command_buffer@.kind, barrier_kinds()),
                regions_error(destination.wrapped().name, destination.spec_extent(), regions@, 0)
                    == regions_error(
                    destination.wrapped().name,
                    destination.spec_extent(),
                    regions@,
                    i as int,
                ),
            decreases regions@.len() - i,
        {
            destination.verify_region_is_inside(regions[i].image_offset, regions[i].image_extent)?;
            i += 1;
        }
        context.check_readable()?;
        context.issue(
            DeviceCall::CmdCopyBufferToImage {
                command_buffer: self.command_buffer.command_buffer.handle(),
                source: source.handle(),
                destination: destination.handle(),
                destination_layout,
                regions: slice_to_vec(regions),
            },
        );
        Ok(())
    }

    /// What the context looks like after the recording was ended: a render
    /// pass that is still open is ended first, then the recording itself.
    pub open spec fn ended(context: ContextView, target: u64, in_render_pass: bool) -> ContextView {
        if in_render_pass {
            context.issue(DeviceCallView::CmdEndRenderPass { command_buffer: target }).issue(
                DeviceCallView::EndCommandBuffer { command_buffer: target },
            )
        } else {
            context.issue(DeviceCallView::EndCommandBuffer { command_buffer: target })
        }
    }

    /// Ends the recording and returns the buffer to idle. A render pass that
    /// was begun and never ended is ended first, so that every begin is
    /// matched by one end. Nothing is issued for a buffer that no recording
    /// is open on.
    pub fn end(self, context: &mut Context)
        requires
            old(context)@.readable(),
        ensures
            final(self.command_buffer)@ == self.buffer()@.ended(),
            final(context)@ == CommandBuffer::closed_in(self.buffer()@, old(context)@),
    {
        let target = self.command_buffer.command_buffer.handle();
        if self.command_buffer.writing {
            if self.command_buffer.in_render_pass {
                context.issue(DeviceCall::CmdEndRenderPass { command_buffer: target });
            }
            context.issue(DeviceCall::EndCommandBuffer { command_buffer: target });
        }
        self.command_buffer.writing = false;
        self.command_buffer.in_render_pass = false;
    }
}

/// The guard of an open render pass. It borrows the writer until the
/// render pass is ended. A guard is handed out by `begin_render_pass`; one
/// that is put together around a writer without an open render pass binds
/// no pipeline.
pub struct ActiveRenderPass<'a, 'b> {
    /// The writer of the recording that the render pass belongs to.
    pub command_buffer_writer: &'a mut CommandBufferWriter<'b>,
}

impl<'a, 'b> ActiveRenderPass<'a, 'b> {
    /// The writer that the guard holds, as it is now.
    pub open spec fn held(&self) -> CommandBufferWriter<'b> {
        *self.command_buffer_writer
    }

    /// The raw handle of the buffer that is recorded into.
    pub open spec fn target(&self) -> u64 {
        self.held().target()
    }

    /// The writer of the recording, for the commands that can be recorded
    /// anywhere.
    pub fn writer(&self) -> (writer: &CommandBufferWriter<'b>)
        ensures
            *writer == self.held(),
    {
        &*self.command_buffer_writer
    }

    /// What the context looks like after the guard was given up: the render
    /// pass is ended, where one is open.
    pub open spec fn ended(buffer: CommandBufferView, context: ContextView) -> ContextView {
        if buffer.writing && buffer.in_render_pass {
            context.issue(DeviceCallView::CmdEndRenderPass { command_buffer: buffer.handle.handle })
        } else {
            context
        }
    }

    /// The error that the binding of a pipeline is refused with, if it is:
    /// a buffer that no recording is open on, a recording without an open
    /// render pass, and a context that is exclusively borrowed, in this
    /// order.
    pub open spec fn binding_error(buffer: CommandBufferView, context: ContextView) -> Option<
        ErrorView,
    > {
        if !buffer.writing {
            Some(illegal_state(not_recording()))
        } else if !buffer.in_render_pass {
            Some(illegal_state(no_render_pass()))
        } else if !context.readable() {
            Some(context.borrow_error())
        } else {
            None
        }
    }

    /// Ends the render pass. Nothing is issued where no render pass is
    /// open.
    pub fn end(self, context: &mut Context)
        requires
            old(context)@.readable(),
        ensures
            final(self.command_buffer_writer).buffer()@ == self.held().buffer()@.pass_ended(),
            *final(final(self.command_buffer_writer).command_buffer)
                == *final(old(self.command_buffer_writer).command_buffer),
            final(context)@ == ActiveRenderPass::ended(self.held().buffer()@, old(context)@),
    {
        if self.command_buffer_writer.command_buffer.writing
            && self.command_buffer_writer.command_buffer.in_render_pass {
            context.issue(
                DeviceCall::CmdEndRenderPass {
                    command_buffer: self.command_buffer_writer.command_buffer.command_buffer.handle(),
                },
            );
        }
        self.command_buffer_writer.command_buffer.in_render_pass = false;
    }

    /// Records the binding of a graphics pipeline and hands out the guard
    /// for it. Draws are reached through the guard, and through nothing
    /// else.
    pub fn bind_graphics_pipeline<'c>(&'c self, context: &mut Context, pipeline: &'c GraphicsPipeline) -> (result:
        Result<ActiveGraphicsPipeline<'c, 'a, 'b>, FennecError>)
        ensures
            match result {
                Ok(bound) => ActiveRenderPass::binding_error(self.held().buffer()@, old(context)@) is None
                    && final(context)@ == old(context)@.issue(
                    DeviceCallView::CmdBindPipeline {
                        command_buffer: self.target(),
                        pipeline: pipeline@.pipeline.handle,
                    },
                ) && bound.bound() == pipeline@ && bound.target() == self.target(),
                Err(error) => ActiveRenderPass::binding_error(self.held().buffer()@, old(context)@)
                    == Some(error@) && final(context)@ == old(context)@,
            },
    {
        if !self.command_buffer_writer.command_buffer.writing {
            return Err(
                FennecError::with_kind(
                    ErrorKind::IllegalState,
                    "CommandBuffer is not being written to",
                ),
            );
        }
        if !self.command_buffer_writer.command_buffer.in_render_pass {
            return Err(FennecError::with_kind(ErrorKind::IllegalState, "No render pass is open"));
        }
        context.check_readable()?;
        context.issue(
            DeviceCall::CmdBindPipeline {
                command_buffer: self.command_buffer_writer.command_buffer.command_buffer.handle(),
                pipeline: pipeline.handle(),
            },
        );
        Ok(ActiveGraphicsPipeline { pipeline, active_render_pass: self })
    }
}

/// The guard of a bound graphics pipeline inside an open render pass.
pub struct ActiveGraphicsPipeline<'a, 'b, 'c> {
    /// The pipeline that is bound.
    pipeline: &'a GraphicsPipeline,
    /// The render pass that the pipeline is bound in.
    active_render_pass: &'a ActiveRenderPass<'b, 'c>,
}

impl<'a, 'b, 'c> ActiveGraphicsPipeline<'a, 'b, 'c> {
    /// The value of the pipeline that is bound.
    pub closed spec fn bound(&self) -> GraphicsPipelineView {
        self.pipeline@
    }

    /// The raw handle of the buffer that is recorded into.
    pub closed spec fn target(&self) -> u64 {
        self.active_render_pass.target()
    }

    /// Lets go of the pipeline. The render pass stays open.
    pub fn end(self) {
    }

    /// Records the binding of an index buffer.
    pub fn bind_index_buffer(
        &self,
        context: &mut Context,
        buffer: &Buffer,
        offset_bytes: u64,
        index_type: i32,
    ) -> (result: Result<(), FennecError>)
        ensures
            match result {
                Ok(()) => old(context)@.readable() && final(context)@ == old(context)@.issue(
                    DeviceCallView::CmdBindIndexBuffer {
                        command_buffer: self.target(),
                        buffer: buffer@.handle.handle,
                        offset: offset_bytes,
                        index_type,
                    },
                ),
                Err(error) => !old(context)@.readable() && error@ == old(context)@.borrow_error()
                    && final(context)@ == old(context)@,
            },
    {
        context.check_readable()?;
        context.issue(
            DeviceCall::CmdBindIndexBuffer {
                command_buffer: self.active_render_pass.command_buffer_writer.command_buffer.command_buffer.handle(),
                buffer: buffer.handle(),
                offset: offset_bytes,
                index_type,
            },
        );
        Ok(())
    }

    /// Records the binding of descriptor sets to the layout of the
    /// pipeline, the first of them as set number `first_set`.
    pub fn bind_descriptor_sets(
        &self,
        context: &mut Context,
        descriptor_sets: &[&DescriptorSet],
        first_set: u32,
    ) -> (result: Result<(), FennecError>)
        ensures
            match result {
                Ok(()) => old(context)@.readable() && final(context)@ == old(context)@.issue(
                    DeviceCallView::CmdBindDescriptorSets {
                        command_buffer: self.target(),
                        layout: self.bound().layout.handle,
                        first_set,
                        descriptor_sets: descriptor_set_handles(descriptor_sets@),
                    },
                ),
                Err(error) => !old(context)@.readable() && error@ == old(context)@.borrow_error()
                    && final(context)@ == old(context)@,
            },
    {
        let mut handles: Vec<u64> = Vec::new();
        let mut i: usize = 0;
        while i < descriptor_sets.len()
            invariant
                i <= descriptor_sets@.len(),
                handles@ == Seq::new(i as nat, |k: int| descriptor_sets@[k]@.handle.handle),
            decreases descriptor_sets@.len() - i,
        {
            handles.push(descriptor_sets[i].handle());
            assert(handles@ =~= Seq::new(
                (i + 1) as nat,
                |k: int| descriptor_sets@[k]@.handle.handle,
            ));
            i += 1;
        }
        context.check_readable()?;
        context.issue(
            DeviceCall::CmdBindDescriptorSets {
                command_buffer: self.active_render_pass.command_buffer_writer.command_buffer.command_buffer.handle(),
                layout: self.pipeline.layout().handle(),
                first_set,
                descriptor_sets: handles,
            },
        );
        Ok(())
    }

    /// The error that a draw is refused with, if it is: nothing to draw
    /// from, no instance to draw, and a context that is exclusively
    /// borrowed, in this order.
    pub open spec fn draw_error(
        count: u32,
        nothing_to_draw: Seq<char>,
        instance_count: u32,
        context: ContextView,
    ) -> Option<ErrorView> {
        if count == 0 {
            Some(out_of_range(nothing_to_draw))
        } else if instance_count == 0 {
            Some(out_of_range(no_instances()))
        } else if !context.readable() {
            Some(context.borrow_error())
        } else {
            None
        }
    }

    /// A draw without vertices, without indices or without instances is
    /// refused with an out-of-range error, whatever else holds; any other
    /// draw is accepted wherever the context can be borrowed.
    pub proof fn lemma_empty_draws_are_refused(
        count: u32,
        nothing_to_draw: Seq<char>,
        instance_count: u32,
        context: ContextView,
    )
        ensures
            count == 0 || instance_count == 0 ==> (ActiveGraphicsPipeline::draw_error(
                count,
                nothing_to_draw,
                instance_count,
                context,
            ) matches Some(error) && error.kind == ErrorKind::OutOfRange),
            count > 0 && instance_count > 0 && context.readable()
                ==> ActiveGraphicsPipeline::draw_error(
                count,
                nothing_to_draw,
                instance_count,
                context,
            ) is None,
    {
    }

    /// Records a draw of `vertex_count` vertices from `first_vertex` on,
    /// for `instance_count` instances from `first_instance` on. Exactly one
    /// draw is recorded, or none where the draw is refused.
    pub fn draw(
        &self,
        context: &mut Context,
        first_vertex: u32,
        vertex_count: u32,
        first_instance: u32,
        instance_count: u32,
    ) -> (result: Result<(), FennecError>)
        ensures
            match result {
                Ok(()) => ActiveGraphicsPipeline::draw_error(
                    vertex_count,
                    no_vertices(),
                    instance_count,
                    old(context)@,
                ) is None && final(context)@ == old(context)@.issue(
                    DeviceCallView::CmdDraw {
                        command_buffer: self.target(),
                        vertex_count,
                        instance_count,
                        first_vertex,
                        first_instance,
                    },
                ),
                Err(error) => ActiveGraphicsPipeline::draw_error(
                    vertex_count,
                    no_vertices(),
                    instance_count,
                    old(context)@,
                ) == Some(error@) && final(context)@ == old(context)@,
            },
    {
        if vertex_count == 0 {
            return Err(FennecError::with_kind(ErrorKind::OutOfRange, "Vertex count was 0"));
        }
        if instance_count == 0 {
            return Err(FennecError::with_kind(ErrorKind::OutOfRange, "Instance count was 0"));
        }
        context.check_readable()?;
        context.issue(
            DeviceCall::CmdDraw {
                command_buffer: self.active_render_pass.command_buffer_writer.command_buffer.command_buffer.handle(),
                vertex_count,
                instance_count,
                first_vertex,
                first_instance,
            },
        );
        Ok(())
    }

    /// Records a draw of `index_count` indices from `first_index` on, each
    /// moved by `vertex_offset`, for `instance_count` instances from
    /// `first_instance` on. Exactly one draw is recorded, or none where the
    /// draw is refused.
    pub fn draw_indexed(
        &self,
        context: &mut Context,
        first_index: u32,
        index_count: u32,
        vertex_offset: i32,
        first_instance: u32,
        instance_count: u32,
    ) -> (result: Result<(), FennecError>)
        ensures
            match result {
                Ok(()) => ActiveGraphicsPipeline::draw_error(
                    index_count,
                    no_indices(),
                    instance_count,
                    old(context)@,
                ) is None && final(context)@ == old(context)@.issue(
                    DeviceCallView::CmdDrawIndexed {
                        command_buffer: self.target(),
                        index_count,
                        instance_count,
                        first_index,
                        vertex_offset,
                        first_instance,
                    },
                ),
                Err(error) => ActiveGraphicsPipeline::draw_error(
                    index_count,
                    no_indices(),
                    instance_count,
                    old(context)@,
                ) == Some(error@) && final(context)@ == old(context)@,
            },
    {
        if index_count == 0 {
            return Err(FennecError::with_kind(ErrorKind::OutOfRange, "Index count was 0"));
        }
        if instance_count == 0 {
            return Err(FennecError::with_kind(ErrorKind::OutOfRange, "Instance count was 0"));
        }
        context.check_readable()?;
        context.issue(
            DeviceCall::CmdDrawIndexed {
                command_buffer: self.active_render_pass.command_buffer_writer.command_buffer.command_buffer.handle(),
                index_count,
                instance_count,
                first_index,
                vertex_offset,
                first_instance,
            },
        );
        Ok(())
    }
}

} // verus!
