//! Command pools: each owns the batches of command buffers that were
//! allocated from it. A batch is allocated, looked up and freed as a whole,
//! through one handle.

use crate::cache::Cache;
use crate::cache::CacheView;
use crate::cache::Handle;
use crate::error::not_found;
use crate::error::ErrorKind;
use crate::error::FennecError;
use crate::text::join;
use crate::vm::graphicsengine::commandbuffer::batch_member_name;
use crate::vm::graphicsengine::commandbuffer::batch_naming;
use crate::vm::graphicsengine::commandbuffer::name_batch;
use crate::vm::graphicsengine::commandbuffer::CommandBuffer;
use crate::vm::graphicsengine::device::DeviceCall;
use crate::vm::graphicsengine::device::DeviceCallView;
use crate::vm::graphicsengine::queuefamily::QueueKind;
use crate::vm::graphicsengine::vk;
use crate::vm::graphicsengine::vkobject::unnamed;
use crate::vm::graphicsengine::vkobject::HandleType;
use crate::vm::graphicsengine::vkobject::naming_error;
use crate::vm::graphicsengine::vkobject::VKHandle;
use crate::vm::graphicsengine::vkobject::VKHandleView;
use crate::vm::graphicsengine::vkobject::VKObject;
use crate::vm::graphicsengine::Context;
use crate::vm::graphicsengine::ContextView;
use crate::vm::graphicsengine::vkobject::check_name;
use crate::vm::graphicsengine::vkobject::lemma_naming_error_of_longer_name;
use crate::cache::handle_text;
use crate::cache::make_handle_text;
use vstd::prelude::*;
use vstd::string::*;

verus! {

/// The mathematical value of a [`CommandPool`].
pub struct CommandPoolView {
    pub handle: VKHandleView,
    /// The batches of command buffers that are alive, by handle.
    pub command_buffers: CacheView<Vec<CommandBuffer>>,
    /// The kind of queue that the pool serves.
    pub kind: QueueKind,
}

impl CommandPoolView {
    /// The batch under `handle`, if it is alive.
    pub open spec fn batch(self, handle: u64) -> Option<Seq<CommandBuffer>> {
        match self.command_buffers.get(handle) {
            Some(batch) => Some(batch@),
            None => None,
        }
    }

    /// Whether the pool holds no batch.
    pub open spec fn has_no_batches(self) -> bool {
        forall|handle: u64| !self.command_buffers.entries.contains_key(handle)
    }

    /// Whether the pool can take one more batch.
    pub open spec fn has_room(self) -> bool {
        self.command_buffers.well_formed() && self.command_buffers.has_room()
    }
}

/// The calls that name every command buffer among `batches` after a pool
/// called `pool`: batch by batch as `order` lists them, and in a batch
/// member by member.
pub open spec fn pool_naming(
    batches: Map<u64, Vec<CommandBuffer>>,
    pool: Seq<char>,
    order: Seq<u64>,
) -> Seq<DeviceCallView>
    decreases order.len(),
{
    if order.len() == 0 {
        Seq::empty()
    } else {
        pool_naming(batches, pool, order.drop_last()) + batch_naming(
            batches[order.last()]@,
            pool,
            order.last(),
        )
    }
}

/// The description of the error for a handle under which the pool holds no
/// batch.
pub open spec fn no_command_buffers(handle: u64) -> Seq<char> {
    "No command buffers exist under handle "@ + handle_text(handle)
}

/// The raw handles of the command buffers of a batch, in order.
pub open spec fn batch_handles(batch: Seq<CommandBuffer>) -> Seq<u64> {
    Seq::new(batch.len(), |i: int| batch[i]@.handle.handle)
}

/// Whether the command buffers of `named` are those of `batch`, each under
/// the name that its place in the pool gives it.
pub open spec fn batch_named(
    named: Seq<CommandBuffer>,
    batch: Seq<CommandBuffer>,
    pool: Seq<char>,
    handle: u64,
) -> bool {
    &&& named.len() == batch.len()
    &&& forall|i: int|
        0 <= i < batch.len() ==> (#[trigger] named[i])@ == batch[i]@.renamed(
            batch_member_name(pool, handle, i as nat),
        )
}

/// Whether the command buffers of `kept` are those of `batch` but for their
/// names.
pub open spec fn batch_kept(kept: Seq<CommandBuffer>, batch: Seq<CommandBuffer>) -> bool {
    &&& kept.len() == batch.len()
    &&& forall|i: int|
        0 <= i < batch.len() ==> (#[trigger] kept[i])@ == batch[i]@.renamed(kept[i]@.handle.name)
}

impl CommandPoolView {
    /// Whether this pool holds the batches of `before`, and nothing but the
    /// names of their command buffers can differ.
    pub open spec fn keeps_batches_of(self, before: Self) -> bool {
        &&& self.kind == before.kind
        &&& self.command_buffers.issued == before.command_buffers.issued
        &&& self.command_buffers.entries.dom() =~= before.command_buffers.entries.dom()
        &&& forall|handle: u64| #[trigger]
            before.command_buffers.entries.contains_key(handle) ==> batch_kept(
                self.command_buffers.entries[handle]@,
                before.command_buffers.entries[handle]@,
            )
    }

    /// Whether every command buffer of this pool is the one of `before`
    /// under the name that its place in a pool called `pool` gives it.
    pub open spec fn names_batches_of(self, before: Self, pool: Seq<char>) -> bool {
        forall|handle: u64| #[trigger]
            before.command_buffers.entries.contains_key(handle) ==> batch_named(
                self.command_buffers.entries[handle]@,
                before.command_buffers.entries[handle]@,
                pool,
                handle,
            )
    }
}

/// Whether every call issued since `before` gives an object a name.
pub open spec fn only_names_since(context: ContextView, before: ContextView) -> bool {
    forall|k: int|
        before.calls.len() <= k < context.calls.len() ==> (#[trigger] context.calls[k])
            is SetObjectName
}

/// A command pool.
pub struct CommandPool {
    command_pool: VKHandle,
    command_buffers: Cache<Vec<CommandBuffer>>,
    kind: QueueKind,
}

impl View for CommandPool {
    type V = CommandPoolView;

    closed spec fn view(&self) -> CommandPoolView {
        CommandPoolView {
            handle: self.command_pool@,
            command_buffers: self.command_buffers@,
            kind: self.kind,
        }
    }
}

impl VKObject for CommandPool {
    open spec fn wrapped(&self) -> VKHandleView {
        self@.handle
    }

    fn wrapped_handle(&self) -> (wrapped: &VKHandle) {
        &self.command_pool
    }
}

fn missing_batch(handle: u64) -> (error: FennecError)
    ensures
        error@ == not_found(no_command_buffers(handle)),
{
    let index = make_handle_text(handle);
    let description = join("No command buffers exist under handle ", index.as_str());
    FennecError::with_kind(ErrorKind::NotFound, description.as_str())
}

impl CommandPool {
    /// The flags that a pool is created with: its buffers can be reset one
    /// by one, and a transient pool says that they are short-lived.
    pub open spec fn create_flags(transient: bool) -> u32 {
        if transient {
            vk::POOL_RESET_COMMAND_BUFFER | vk::POOL_TRANSIENT
        } else {
            vk::POOL_RESET_COMMAND_BUFFER
        }
    }

    /// The value of a pool that was just created.
    pub open spec fn fresh(context: u64, handle: u64, kind: QueueKind) -> CommandPoolView {
        CommandPoolView {
            handle: VKHandleView {
                context,
                handle_type: HandleType::CommandPool,
                handle,
                protected: false,
                name: unnamed(),
            },
            command_buffers: CacheView::empty(),
            kind,
        }
    }

    /// A pool that was just created holds no batch.
    pub proof fn lemma_fresh_has_no_batches(context: u64, handle: u64, kind: QueueKind)
        ensures
            CommandPool::fresh(context, handle, kind).has_no_batches(),
            CommandPool::fresh(context, handle, kind).has_room(),
    {
    }

    /// Creates a command pool for the queue family `family_index`, whose
    /// queues are of `kind`.
    pub(crate) fn new(context: &mut Context, kind: QueueKind, family_index: u32, transient: bool) -> (result:
        Result<Self, FennecError>)
        requires
            old(context)@.can_create(1),
        ensures
            match result {
                Ok(pool) => old(context)@.readable() && pool@ == CommandPool::fresh(
                    old(context)@.id,
                    old(context)@.next_handle,
                    kind,
                ) && final(context)@ == old(context)@.create(1).issue(
                    DeviceCallView::CreateCommandPool {
                        pool: old(context)@.next_handle,
                        flags: CommandPool::create_flags(transient),
                        family_index,
                    },
                ),
                Err(error) => !old(context)@.readable() && error@ == old(context)@.borrow_error()
                    && final(context)@ == old(context)@,
            },
    {
        context.check_readable()?;
        let flags = if transient {
            vk::pool_reset_command_buffer() | vk::pool_transient()
        } else {
            vk::pool_reset_command_buffer()
        };
        let pool = context.create_handle();
        context.issue(DeviceCall::CreateCommandPool { pool, flags, family_index });
        Ok(
            Self {
                command_pool: VKHandle::new(context, HandleType::CommandPool, pool, false),
                command_buffers: Cache::new(),
                kind,
            },
        )
    }

    /// The kind of queue that the pool serves.
    pub fn kind(&self) -> (kind: QueueKind)
        ensures
            kind == self@.kind,
    {
        self.kind
    }

    /// Whether the pool has a handle left for one more batch.
    pub fn has_handles_left(&self) -> (left: bool)
        ensures
            left == self@.command_buffers.has_room(),
    {
        self.command_buffers.issued() < u64::MAX
    }

    /// Allocates `count` command buffers as one batch. Returns the handle
    /// under which the batch can be found again, and the buffers themselves
    /// for recording. Each buffer is of the pool's kind and idle.
    pub fn create_command_buffers<'a>(&'a mut self, context: &mut Context, count: u32) -> (result:
        Result<(Handle<Vec<CommandBuffer>>, &'a mut [CommandBuffer]), FennecError>)
        requires
            old(self)@.has_room(),
            old(context)@.can_create(count as nat),
        ensures
            match result {
                Ok((handle, buffers)) => {
                    &&& old(context)@.readable()
                    &&& final(context)@ == old(context)@.create(count as nat).issue(
                        DeviceCallView::AllocateCommandBuffers {
                            pool: old(self)@.handle.handle,
                            first: old(context)@.next_handle,
                            count,
                        },
                    )
                    &&& handle@ == old(self)@.command_buffers.next_index()
                    &&& !old(self)@.command_buffers.entries.contains_key(handle@)
                    &&& buffers@.len() == count
                    &&& forall|i: int|
                        0 <= i < count ==> (#[trigger] buffers@[i])@ == CommandBuffer::fresh(
                            old(context)@.id,
                            (old(context)@.next_handle + i) as u64,
                            old(self)@.kind,
                        )
                    &&& final(self)@.handle == old(self)@.handle
                    &&& final(self)@.kind == old(self)@.kind
                    &&& final(self)@.command_buffers.issued == handle@
                    &&& final(self)@.command_buffers.entries.dom() =~= old(self)@.command_buffers.entries.dom().insert(handle@)
                    &&& forall|other: u64|
                        old(self)@.command_buffers.entries.contains_key(other) ==> final(self)@.command_buffers.entries[other] == old(self)@.command_buffers.entries[other]
                    &&& final(self)@.batch(handle@) == Some(final(buffers)@)
                },
                Err(error) => !old(context)@.readable() && error@ == old(context)@.borrow_error()
                    && final(context)@ == old(context)@ && final(self)@ == old(self)@,
            },
    {
        let batch = CommandBuffer::new(context, self, count)?;
        let handle = self.command_buffers.insert(batch);
        match self.command_buffers.get_mut(handle) {
            Some(batch) => Ok((handle, batch.as_mut_slice())),
            None => Err(missing_batch(handle.index())),
        }
    }

    /// What is left of the pool when the batch under `handle` is taken out.
    pub open spec fn without(pool: CommandPoolView, handle: u64) -> CommandPoolView {
        CommandPoolView { command_buffers: pool.command_buffers.remove(handle), ..pool }
    }

    /// Frees the batch under `handle` and forgets it. A handle that is stale
    /// or unknown is answered with a not-found error, and nothing changes.
    /// Where the context is exclusively borrowed the batch is forgotten and
    /// nothing is freed.
    pub fn destroy_command_buffers(
        &mut self,
        context: &mut Context,
        handle: Handle<Vec<CommandBuffer>>,
    ) -> (result: Result<(), FennecError>)
        ensures
            match result {
                Ok(()) => {
                    &&& old(self)@.batch(handle@) matches Some(batch)
                    &&& old(context)@.readable()
                    &&& final(self)@ == CommandPool::without(old(self)@, handle@)
                    &&& final(context)@ == old(context)@.issue(
                        DeviceCallView::FreeCommandBuffers {
                            pool: old(self)@.handle.handle,
                            command_buffers: batch_handles(batch),
                        },
                    )
                },
                Err(error) => {
                    &&& final(context)@ == old(context)@
                    &&& if old(self)@.batch(handle@) is None {
                        error@ == not_found(no_command_buffers(handle@)) && final(self)@ == old(self)@
                    } else {
                        !old(context)@.readable() && error@ == old(context)@.borrow_error()
                            && final(self)@ == CommandPool::without(old(self)@, handle@)
                    }
                },
            },
    {
        let batch = match self.command_buffers.remove(handle) {
            Some(batch) => batch,
            None => {
                assert(self@.command_buffers.entries =~= old(self)@.command_buffers.entries);
                return Err(missing_batch(handle.index()));
            },
        };
        let mut command_buffers: Vec<u64> = Vec::new();
        let mut i: usize = 0;
        while i < batch.len()
            invariant
                i <= batch@.len(),
                command_buffers@ == Seq::new(i as nat, |k: int| batch@[k]@.handle.handle),
            decreases batch@.len() - i,
        {
            command_buffers.push(batch[i].handle());
            assert(command_buffers@ =~= Seq::new(
                (i + 1) as nat,
                |k: int| batch@[k]@.handle.handle,
            ));
            i += 1;
        }
        assert(command_buffers@ =~= batch_handles(batch@));
        context.check_readable()?;
        context.issue(
            DeviceCall::FreeCommandBuffers { pool: self.command_pool.handle(), command_buffers },
        );
        Ok(())
    }

    /// The batch of command buffers under `handle`.
    pub fn command_buffers(&self, handle: Handle<Vec<CommandBuffer>>) -> (result: Result<
        &[CommandBuffer],
        FennecError,
    >)
        ensures
            match result {
                Ok(buffers) => self@.batch(handle@) == Some(buffers@),
                Err(error) => self@.batch(handle@) is None && error@ == not_found(
                    no_command_buffers(handle@),
                ),
            },
    {
        match self.command_buffers.get(handle) {
            Some(batch) => Ok(batch.as_slice()),
            None => Err(missing_batch(handle.index())),
        }
    }

    /// The batch of command buffers under `handle`, for recording.
    pub fn command_buffers_mut<'a>(&'a mut self, handle: Handle<Vec<CommandBuffer>>) -> (result:
        Result<&'a mut [CommandBuffer], FennecError>)
        ensures
            match result {
                Ok(buffers) => {
                    &&& old(self)@.batch(handle@) == Some(buffers@)
                    &&& final(self)@.handle == old(self)@.handle
                    &&& final(self)@.kind == old(self)@.kind
                    &&& final(self)@.command_buffers.issued == old(self)@.command_buffers.issued
                    &&& final(self)@.command_buffers.entries.dom() =~= old(self)@.command_buffers.entries.dom()
                    &&& forall|other: u64|
                        other != handle@ && old(self)@.command_buffers.entries.contains_key(other)
                            ==> final(self)@.command_buffers.entries[other] == old(self)@.command_buffers.entries[other]
                    &&& final(self)@.batch(handle@) == Some(final(buffers)@)
                },
                Err(error) => old(self)@.batch(handle@) is None && error@ == not_found(
                    no_command_buffers(handle@),
                ) && final(self)@ == old(self)@,
            },
    {
        match self.command_buffers.get_mut(handle) {
            Some(batch) => Ok(batch.as_mut_slice()),
            None => Err(missing_batch(handle.index())),
        }
    }

    /// Names every command buffer of the pool after the pool, the handle of
    /// its batch and its position in the batch. The batches are visited in
    /// no particular order. Where the context is exclusively borrowed, or the
    /// name of the pool holds a NUL character, the call fails at the first
    /// command buffer it comes to.
    pub fn set_children_names(&mut self, context: &mut Context) -> (result: Result<
        (),
        FennecError,
    >)
        ensures
            final(self)@.handle == old(self)@.handle,
            final(self)@.keeps_batches_of(old(self)@),
            final(context)@.extends(old(context)@),
            only_names_since(final(context)@, old(context)@),
            old(self)@.has_no_batches() ==> final(context)@ == old(context)@,
            match result {
                Ok(()) => {
                    &&& final(self)@.names_batches_of(old(self)@, old(self)@.handle.name)
                    &&& exists|order: Seq<u64>| #[trigger]
                        old(self)@.command_buffers.walked_by(order) && final(context)@
                            == old(context)@.issue_all(
                            pool_naming(
                                old(self)@.command_buffers.entries,
                                old(self)@.handle.name,
                                order,
                            ),
                        )
                },
                Err(error) => naming_error(old(context)@, old(self)@.handle.name) == Some(error@)
                    && final(context)@ == old(context)@,
            },
    {
        let own_name = String::from_str(self.command_pool.name());
        let handles = self.command_buffers.handles();
        let ghost order = Seq::new(handles@.len(), |i: int| handles@[i]@);
        proof {
            assert(order.take(0) =~= Seq::<u64>::empty());
            assert(context@.issue_all(Seq::empty()) == context@) by {
                assert(context@.calls + Seq::<DeviceCallView>::empty() =~= context@.calls);
            }
            context@.lemma_advanced_by_nothing();
            if old(self)@.has_no_batches() && handles@.len() > 0 {
                assert(old(self)@.command_buffers.entries.contains_key(handles@[0]@));
            }
        }
        let mut visited: usize = 0;
        while visited < handles.len()
            invariant
                visited <= handles@.len(),
                own_name@ == old(self)@.handle.name,
                forall|i: int|
                    0 <= i < handles@.len() ==> old(self)@.command_buffers.entries.contains_key(
                        #[trigger] handles@[i]@,
                    ),
                forall|i: int, j: int|
                    0 <= i < j < handles@.len() ==> handles@[i]@ != handles@[j]@,
                forall|index: u64| #[trigger]
                    old(self)@.command_buffers.entries.contains_key(index) ==> exists|i: int|
                        0 <= i < handles@.len() && #[trigger] handles@[i]@ == index,
                self@.handle == old(self)@.handle,
                self@.kind == old(self)@.kind,
                self@.command_buffers.issued == old(self)@.command_buffers.issued,
                self@.command_buffers.entries.dom() =~= old(self)@.command_buffers.entries.dom(),
                forall|i: int|
                    0 <= i < visited ==> batch_named(
                        self@.command_buffers.entries[#[trigger] handles@[i]@]@,
                        old(self)@.command_buffers.entries[handles@[i]@]@,
                        old(self)@.handle.name,
                        handles@[i]@,
                    ),
                forall|i: int|
                    visited <= i < handles@.len() ==> self@.command_buffers.entries[#[trigger] handles@[i]@]
                        == old(self)@.command_buffers.entries[handles@[i]@],
                context@.extends(old(context)@),
                only_names_since(context@, old(context)@),
                naming_error(old(context)@, old(self)@.handle.name) is Some ==> context@ == old(context)@,
                visited == 0 ==> context@ == old(context)@,
                order == Seq::new(handles@.len(), |i: int| handles@[i]@),
                context@ == old(context)@.issue_all(
                    pool_naming(
                        old(self)@.command_buffers.entries,
                        own_name@,
                        order.take(visited as int),
                    ),
                ),
                old(self)@.has_no_batches() ==> handles@.len() == 0,
            decreases handles@.len() - visited,
        {
            let handle = handles[visited];
            let ghost before = context@;
            let ghost entries = self@.command_buffers.entries;
            match self.command_buffers.get_mut(handle) {
                Some(batch) => {
                    let named = name_batch(
                        batch.as_mut_slice(),
                        context,
                        own_name.as_str(),
                        handle.index(),
                    );
                    match named {
                        Ok(()) => {},
                        Err(error) => {
                            proof {
                                let now = self@.command_buffers.entries;
                                assert forall|other: u64| #[trigger]
                                    old(self)@.command_buffers.entries.contains_key(
                                        other,
                                    ) implies batch_kept(
                                    now[other]@,
                                    old(self)@.command_buffers.entries[other]@,
                                ) by {
                                    let i = choose|i: int|
                                        0 <= i < handles@.len() && #[trigger] handles@[i]@
                                            == other;
                                    if i != visited {
                                        assert(now[other] == entries[other]);
                                    }
                                }
                            }
                            return Err(error);
                        },
                    }
                },
                None => {},
            }
            proof {
                let earlier = order.take(visited as int);
                let so_far = order.take(visited + 1);
                assert(so_far.drop_last() =~= earlier);
                assert(so_far.last() == handle@);
                assert(entries[handle@] == old(self)@.command_buffers.entries[handle@]);
                old(context)@.lemma_issue_all_twice(
                    pool_naming(old(self)@.command_buffers.entries, own_name@, earlier),
                    batch_naming(entries[handle@]@, own_name@, handle@),
                );
            }
            proof {
                let now = self@.command_buffers.entries;
                if entries.contains_key(handle@) {
                    before.lemma_issue_all_advances(
                        batch_naming(entries[handle@]@, own_name@, handle@),
                    );
                } else {
                    before.lemma_advanced_by_nothing();
                }
                assert(context@.advanced(
                    before,
                    (context@.calls.len() - before.calls.len()) as nat,
                    0,
                ));
                if !old(context)@.readable() {
                    context@.lemma_advanced_by_nothing_is_same(before);
                }
                context@.lemma_advanced_twice(
                    before,
                    old(context)@,
                    (before.calls.len() - old(context)@.calls.len()) as nat,
                    0,
                    (context@.calls.len() - before.calls.len()) as nat,
                    0,
                );
                assert forall|k: int|
                    old(context)@.calls.len() <= k < context@.calls.len() implies (
                #[trigger] context@.calls[k]) is SetObjectName by {
                    if k < before.calls.len() {
                        assert(context@.issued_since(
                            old(context)@,
                            k - old(context)@.calls.len(),
                        ) == before.issued_since(old(context)@, k - old(context)@.calls.len()));
                    } else {
                        assert(context@.issued_since(before, k - before.calls.len())
                            == batch_naming(entries[handle@]@, own_name@, handle@)[k
                            - before.calls.len()]);
                    }
                }
                assert forall|i: int| 0 <= i < visited + 1 implies batch_named(
                    now[#[trigger] handles@[i]@]@,
                    old(self)@.command_buffers.entries[handles@[i]@]@,
                    old(self)@.handle.name,
                    handles@[i]@,
                ) by {
                    if i < visited {
                        assert(now[handles@[i]@] == entries[handles@[i]@]);
                    }
                }
                assert forall|i: int| visited + 1 <= i < handles@.len() implies now[#[trigger] handles@[i]@]
                    == old(self)@.command_buffers.entries[handles@[i]@] by {
                    assert(now[handles@[i]@] == entries[handles@[i]@]);
                }
            }
            visited += 1;
        }
        proof {
            let now = self@.command_buffers.entries;
            assert forall|other: u64| #[trigger]
                old(self)@.command_buffers.entries.contains_key(other) implies batch_named(
                now[other]@,
                old(self)@.command_buffers.entries[other]@,
                old(self)@.handle.name,
                other,
            ) by {
                let i = choose|i: int| 0 <= i < handles@.len() && #[trigger] handles@[i]@ == other;
                assert(batch_named(
                    now[handles@[i]@]@,
                    old(self)@.command_buffers.entries[handles@[i]@]@,
                    old(self)@.handle.name,
                    handles@[i]@,
                ));
            }
            assert(order.take(order.len() as int) =~= order);
            assert(old(self)@.command_buffers.walked_by(order)) by {
                assert forall|handle: u64| #[trigger]
                    old(self)@.command_buffers.entries.contains_key(handle) implies exists|i: int|
                    0 <= i < order.len() && #[trigger] order[i] == handle by {
                    let i = choose|i: int|
                        0 <= i < handles@.len() && #[trigger] handles@[i]@ == handle;
                    assert(order[i] == handle);
                }
            }
        }
        Ok(())
    }

    /// The pool under another name.
    pub open spec fn renamed(pool: CommandPoolView, name: Seq<char>) -> CommandPoolView {
        CommandPoolView { handle: VKHandleView { name, ..pool.handle }, ..pool }
    }

    /// Names the pool, here and on the device, and then its command buffers
    /// after it. Where the context is exclusively borrowed the call fails;
    /// the pool keeps its new name on this side, and its command buffers
    /// are not touched.
    pub fn set_name(&mut self, context: &mut Context, name: &str) -> (result: Result<
        (),
        FennecError,
    >)
        ensures
            final(self)@.handle == CommandPool::renamed(old(self)@, name@).handle,
            final(self)@.keeps_batches_of(old(self)@),
            match result {
                Ok(()) => {
                    &&& naming_error(old(context)@, name@) is None
                    &&& final(context)@.extends(old(context)@)
                    &&& final(context)@.calls.len() > old(context)@.calls.len()
                    &&& final(context)@.issued_since(old(context)@, 0) == VKHandle::naming(
                        old(self)@.handle,
                        name@,
                    )
                    &&& only_names_since(final(context)@, old(context)@)
                    &&& final(self)@.names_batches_of(old(self)@, name@)
                    &&& exists|order: Seq<u64>| #[trigger]
                        old(self)@.command_buffers.walked_by(order) && final(context)@
                            == old(context)@.issue(
                            VKHandle::naming(old(self)@.handle, name@),
                        ).issue_all(pool_naming(old(self)@.command_buffers.entries, name@, order))
                    &&& old(self)@.has_no_batches() ==> final(context)@ == old(context)@.issue(
                        VKHandle::naming(old(self)@.handle, name@),
                    ) && final(self)@ == CommandPool::renamed(
                        old(self)@,
                        name@,
                    )
                },
                Err(error) => {
                    &&& naming_error(old(context)@, name@) == Some(error@)
                    &&& final(context)@ == old(context)@
                    &&& final(self)@ == CommandPool::renamed(old(self)@, name@)
                },
            },
    {
        let annotated = self.command_pool.annotate(context, name);
        match annotated {
            Ok(()) => {},
            Err(error) => {
                return Err(error);
            },
        }
        let ghost middle = context@;
        let ghost pool = self@;
        let named = self.set_children_names(context);
        proof {
            old(context)@.lemma_issue_advances(VKHandle::naming(old(self)@.handle, name@));
            context@.lemma_advanced_twice(
                middle,
                old(context)@,
                1,
                0,
                (context@.calls.len() - middle.calls.len()) as nat,
                0,
            );
            assert(middle.issued_since(old(context)@, 0) == middle.calls.last());
            assert forall|handle: u64| #[trigger]
                old(self)@.command_buffers.entries.contains_key(handle) implies batch_kept(
                self@.command_buffers.entries[handle]@,
                old(self)@.command_buffers.entries[handle]@,
            ) by {
                assert(pool.command_buffers.entries.contains_key(handle));
            }
            if old(self)@.has_no_batches() {
                assert(self@.command_buffers.entries =~= old(self)@.command_buffers.entries);
            }
        }
        named
    }

    /// What the context looks like after an object that could not be named
    /// was given up: the object is destroyed where a call can be issued.
    pub open spec fn abandoned(value: CommandPoolView, context: ContextView) -> ContextView {
        if context.readable() {
            VKHandle::released(value.handle, context)
        } else {
            context
        }
    }

    /// Names the pool and hands it back. Where it cannot be
    /// named it is given up: destroyed, where the context lets a call
    /// through.
    pub fn with_name(self, context: &mut Context, name: &str) -> (result: Result<
        Self,
        FennecError,
    >)
        ensures
            match result {
                Ok(named) => {
                    &&& naming_error(old(context)@, name@) is None
                    &&& named@.handle == CommandPool::renamed(self@, name@).handle
                    &&& named@.keeps_batches_of(self@)
                    &&& named@.names_batches_of(self@, name@)
                    &&& final(context)@.extends(old(context)@)
                    &&& final(context)@.calls.len() > old(context)@.calls.len()
                    &&& final(context)@.issued_since(old(context)@, 0) == VKHandle::naming(
                        self@.handle,
                        name@,
                    )
                    &&& only_names_since(final(context)@, old(context)@)
                    &&& exists|order: Seq<u64>| #[trigger]
                        self@.command_buffers.walked_by(order) && final(context)@ == old(context)@.issue(VKHandle::naming(self@.handle, name@)).issue_all(
                            pool_naming(self@.command_buffers.entries, name@, order),
                        )
                    &&& self@.has_no_batches() ==> final(context)@ == old(context)@.issue(
                        VKHandle::naming(self@.handle, name@),
                    ) && named@ == CommandPool::renamed(self@, name@)
                },
                Err(error) => naming_error(old(context)@, name@) == Some(error@)
                    && final(context)@ == Self::abandoned(self@, old(context)@),
            },
    {
        let mut named = self;
        match named.set_name(context, name) {
            Ok(()) => Ok(named),
            Err(error) => {
                match context.check_readable() {
                    Ok(()) => named.destroy(context),
                    Err(_) => {},
                }
                Err(error)
            },
        }
    }

    /// Ends the life of the pool: it is destroyed, and its command buffers
    /// with it.
    pub fn destroy(self, context: &mut Context)
        requires
            !self@.handle.protected && self@.handle.handle_type.spec_has_destroy_call() ==> old(context)@.readable(),
        ensures
            final(context)@ == VKHandle::released(self@.handle, old(context)@),
    {
        self.command_pool.release(context)
    }
}

/// The command pools of a queue family: one for short-lived command
/// buffers, one for command buffers that are kept and submitted many times.
pub struct CommandPoolCollection {
    pub transient: CommandPool,
    pub long_term: CommandPool,
}

/// The name of the pool for short-lived command buffers in a collection
/// called `name`.
pub open spec fn transient_name(name: Seq<char>) -> Seq<char> {
    name + ".transient"@
}

/// The name of the pool for kept command buffers in a collection called
/// `name`.
pub open spec fn long_term_name(name: Seq<char>) -> Seq<char> {
    name + ".long_term"@
}

/// The calls that create and name the two pools of a collection called
/// `name`, for the queue family `family_index`. The pools are bound to the
/// handles `first` and `first + 1`.
pub open spec fn collection_calls(name: Seq<char>, family_index: u32, first: u64) -> Seq<
    DeviceCallView,
> {
    seq![
        DeviceCallView::CreateCommandPool {
            pool: first,
            flags: CommandPool::create_flags(true),
            family_index,
        },
        DeviceCallView::SetObjectName {
            handle_type: HandleType::CommandPool,
            handle: first,
            name: transient_name(name),
        },
        DeviceCallView::CreateCommandPool {
            pool: (first + 1) as u64,
            flags: CommandPool::create_flags(false),
            family_index,
        },
        DeviceCallView::SetObjectName {
            handle_type: HandleType::CommandPool,
            handle: (first + 1) as u64,
            name: long_term_name(name),
        },
    ]
}

impl CommandPoolCollection {
    /// Creates the two pools of a queue family and names them after `name`.
    /// A name that the device cannot be told is refused before anything is
    /// created.
    pub(crate) fn new(
        name: &str,
        context: &mut Context,
        kind: QueueKind,
        family_index: u32,
    ) -> (result: Result<Self, FennecError>)
        requires
            old(context)@.can_create(2),
        ensures
            match result {
                Ok(pools) => {
                    &&& naming_error(old(context)@, name@) is None
                    &&& final(context)@ == old(context)@.create(2).issue_all(
                        collection_calls(name@, family_index, old(context)@.next_handle),
                    )
                    &&& pools.transient@ == CommandPool::renamed(
                        CommandPool::fresh(old(context)@.id, old(context)@.next_handle, kind),
                        transient_name(name@),
                    )
                    &&& pools.long_term@ == CommandPool::renamed(
                        CommandPool::fresh(
                            old(context)@.id,
                            (old(context)@.next_handle + 1) as u64,
                            kind,
                        ),
                        long_term_name(name@),
                    )
                },
                Err(error) => naming_error(old(context)@, name@) == Some(error@)
                    && final(context)@ == old(context)@,
            },
    {
        check_name(context, name)?;
        proof {
            reveal_strlit(".transient");
            reveal_strlit(".long_term");
            lemma_naming_error_of_longer_name(context@, name@, ".transient"@);
            lemma_naming_error_of_longer_name(context@, name@, ".long_term"@);
        }
        let transient_name = join(name, ".transient");
        let long_term_name = join(name, ".long_term");
        let transient = match CommandPool::new(context, kind, family_index, true) {
            Ok(pool) => pool,
            Err(error) => {
                assert(false);
                return Err(error);
            },
        };
        proof {
            CommandPool::lemma_fresh_has_no_batches(
                old(context)@.id,
                old(context)@.next_handle,
                kind,
            );
            CommandPool::lemma_fresh_has_no_batches(
                old(context)@.id,
                (old(context)@.next_handle + 1) as u64,
                kind,
            );
        }
        let transient = match transient.with_name(context, transient_name.as_str()) {
            Ok(pool) => pool,
            Err(error) => {
                assert(false);
                return Err(error);
            },
        };
        let long_term = match CommandPool::new(context, kind, family_index, false) {
            Ok(pool) => pool,
            Err(error) => {
                assert(false);
                return Err(error);
            },
        };
        let long_term = match long_term.with_name(context, long_term_name.as_str()) {
            Ok(pool) => pool,
            Err(error) => {
                assert(false);
                return Err(error);
            },
        };
        assert(context@.calls =~= old(context)@.calls + collection_calls(
            name@,
            family_index,
            old(context)@.next_handle,
        ));
        Ok(Self { transient, long_term })
    }

    /// The pool for short-lived command buffers.
    pub fn transient(&self) -> (pool: &CommandPool)
        ensures
            *pool == self.transient,
    {
        &self.transient
    }

    /// The pool for short-lived command buffers.
    pub fn transient_mut(&mut self) -> (pool: &mut CommandPool)
        ensures
            *pool == old(self).transient,
            *final(self) == (CommandPoolCollection {
                transient: *final(pool),
                long_term: old(self).long_term,
            }),
    {
        &mut self.transient
    }

    /// The pool for command buffers that are kept.
    pub fn long_term(&self) -> (pool: &CommandPool)
        ensures
            *pool == self.long_term,
    {
        &self.long_term
    }

    /// The pool for command buffers that are kept.
    pub fn long_term_mut(&mut self) -> (pool: &mut CommandPool)
        ensures
            *pool == old(self).long_term,
            *final(self) == (CommandPoolCollection {
                transient: old(self).transient,
                long_term: *final(pool),
            }),
    {
        &mut self.long_term
    }
}

} // verus!
