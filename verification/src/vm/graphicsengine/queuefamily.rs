//! Queue families, their queues and their command pools.

use crate::error::illegal_state;
use crate::error::plain_error;
use crate::error::ErrorKind;
use crate::error::ErrorView;
use crate::error::FennecError;
use crate::text::decimal;
use crate::text::decimal_digits;
use crate::text::join;
use crate::vm::graphicsengine::commandpool::collection_calls;
use crate::vm::graphicsengine::commandpool::long_term_name;
use crate::vm::graphicsengine::commandpool::transient_name;
use crate::vm::graphicsengine::commandpool::CommandPool;
use crate::vm::graphicsengine::commandpool::CommandPoolCollection;
use crate::vm::graphicsengine::device::DeviceCallView;
use crate::vm::graphicsengine::priority::copy_priorities;
use crate::vm::graphicsengine::priority::fractions;
use crate::vm::graphicsengine::priority::fractions_le;
use crate::vm::graphicsengine::priority::priorities_le;
use crate::vm::graphicsengine::priority::Fraction;
use crate::vm::graphicsengine::priority::Priority;
use crate::vm::graphicsengine::queue::Queue;
use crate::vm::graphicsengine::queue::QueueView;
use crate::vm::graphicsengine::vk;
use crate::vm::graphicsengine::vkobject::HandleType;
use crate::vm::graphicsengine::vkobject::VKHandleView;
use crate::vm::graphicsengine::Context;
use crate::vm::graphicsengine::ContextView;
use crate::text::lemma_digits_have_no_nul;
use crate::text::lemma_has_nul_of_pieces;
use crate::vm::graphicsengine::vkobject::check_name;
use crate::vm::graphicsengine::vkobject::naming_error;
use crate::vm::graphicsengine::vkobject::lemma_naming_error_of_longer_name;
use crate::vm::graphicsengine::priority::proper;
use crate::vm::graphicsengine::priority::lemma_fractions_le_is_total;
use crate::vm::graphicsengine::priority::lemma_fractions_le_goes_on;
use vstd::prelude::*;
use vstd::string::*;

verus! {

/// What a queue, or a family of queues, is used for.
#[derive(Clone, Copy, Debug, PartialEq, Eq, Hash, Structural)]
pub enum QueueKind {
    Present,
    Graphics,
    Transfer,
    Compute,
}

impl QueueKind {
    /// The name of the kind, as it is written in diagnostics.
    pub open spec fn spec_name(self) -> Seq<char> {
        match self {
            QueueKind::Present => "Present"@,
            QueueKind::Graphics => "Graphics"@,
            QueueKind::Transfer => "Transfer"@,
            QueueKind::Compute => "Compute"@,
        }
    }

    /// Whether command buffers for queues of this kind take barriers and
    /// copies.
    pub open spec fn spec_takes_transfers(self) -> bool {
        self is Transfer || self is Graphics || self is Compute
    }

    /// Whether command buffers for queues of this kind take barriers and
    /// copies.
    #[verifier::when_used_as_spec(spec_takes_transfers)]
    pub fn takes_transfers(self) -> (taken: bool)
        ensures
            taken == self.spec_takes_transfers(),
    {
        match self {
            QueueKind::Present => false,
            _ => true,
        }
    }

    /// Whether command buffers for queues of this kind take clears of color
    /// images.
    pub open spec fn spec_takes_clears(self) -> bool {
        self is Graphics || self is Compute
    }

    /// Whether command buffers for queues of this kind take clears of color
    /// images.
    #[verifier::when_used_as_spec(spec_takes_clears)]
    pub fn takes_clears(self) -> (taken: bool)
        ensures
            taken == self.spec_takes_clears(),
    {
        match self {
            QueueKind::Graphics => true,
            QueueKind::Compute => true,
            _ => false,
        }
    }

    /// Whether command buffers for queues of this kind take render passes.
    pub open spec fn spec_takes_render_passes(self) -> bool {
        self is Graphics
    }

    /// Whether command buffers for queues of this kind take render passes.
    #[verifier::when_used_as_spec(spec_takes_render_passes)]
    pub fn takes_render_passes(self) -> (taken: bool)
        ensures
            taken == self.spec_takes_render_passes(),
    {
        match self {
            QueueKind::Graphics => true,
            _ => false,
        }
    }

    /// The name of the kind, as it is written in diagnostics.
    pub fn name(self) -> (name: &'static str)
        ensures
            name@ == self.spec_name(),
    {
        match self {
            QueueKind::Present => "Present",
            QueueKind::Graphics => "Graphics",
            QueueKind::Transfer => "Transfer",
            QueueKind::Compute => "Compute",
        }
    }
}

/// What the device reports of one of its queue families, and whether the
/// family can present to the surface.
#[derive(Clone, Copy, Debug, PartialEq, Eq)]
pub struct QueueFamilyProperties {
    pub queue_flags: u32,
    pub queue_count: u32,
    pub supports_present: bool,
}

/// Whether a family with the properties `info` can serve queues of `kind`:
/// a present family presents to the surface, a graphics family takes
/// graphics work and presents, a transfer family takes transfer work and a
/// compute family takes compute work.
pub open spec fn family_fits(kind: QueueKind, info: QueueFamilyProperties) -> bool {
    match kind {
        QueueKind::Present => info.supports_present,
        QueueKind::Graphics => vk::spec_contains(info.queue_flags, vk::QUEUE_GRAPHICS)
            && info.supports_present,
        QueueKind::Transfer => vk::spec_contains(info.queue_flags, vk::QUEUE_TRANSFER),
        QueueKind::Compute => vk::spec_contains(info.queue_flags, vk::QUEUE_COMPUTE),
    }
}

/// Whether the family at `index` is the first of `families` that can serve
/// queues of `kind`.
pub open spec fn is_first_fit(families: Seq<QueueFamilyProperties>, kind: QueueKind, index: int) -> bool {
    &&& 0 <= index < families.len()
    &&& family_fits(kind, families[index])
    &&& forall|earlier: int| 0 <= earlier < index ==> !family_fits(kind, #[trigger] families[earlier])
}

/// Whether none of `families` can serve queues of `kind`.
pub open spec fn no_family_fits(families: Seq<QueueFamilyProperties>, kind: QueueKind) -> bool {
    forall|index: int| 0 <= index < families.len() ==> !family_fits(kind, #[trigger] families[index])
}

/// The name of the family that was chosen under `name`.
pub open spec fn family_name(name: Seq<char>) -> Seq<char> {
    "GraphicsEngine::queue_family_collection."@ + name
}

/// The description of the error for a device without a fitting family.
pub open spec fn no_fitting_family(kind: QueueKind) -> Seq<char> {
    "Could not choose a "@ + kind.spec_name() + " queue family that meets the requirements"@
}

fn fits(kind: QueueKind, info: &QueueFamilyProperties) -> (fits: bool)
    ensures
        fits == family_fits(kind, *info),
{
    match kind {
        QueueKind::Present => info.supports_present,
        QueueKind::Graphics => vk::contains(info.queue_flags, vk::queue_graphics())
            && info.supports_present,
        QueueKind::Transfer => vk::contains(info.queue_flags, vk::queue_transfer()),
        QueueKind::Compute => vk::contains(info.queue_flags, vk::queue_compute()),
    }
}

/// Chooses the first of `families` that can serve queues of `kind`.
pub fn choose_family(name: &str, families: &[QueueFamilyProperties], kind: QueueKind) -> (result:
    Result<QueueFamily, FennecError>)
    requires
        families@.len() <= u32::MAX,
    ensures
        match result {
            Ok(family) => is_first_fit(families@, kind, family@.index as int) && family@ == (
            QueueFamilyView {
                name: family_name(name@),
                kind,
                index: family@.index,
                queue_count: families@[family@.index as int].queue_count,
                queues: None,
                command_pools: None,
            }),
            Err(error) => no_family_fits(families@, kind) && error@ == plain_error(
                ErrorKind::General,
                no_fitting_family(kind),
            ),
        },
{
    let mut index: usize = 0;
    while index < families.len()
        invariant
            index <= families@.len(),
            families@.len() <= u32::MAX,
            forall|earlier: int|
                0 <= earlier < index ==> !family_fits(kind, #[trigger] families@[earlier]),
        decreases families@.len() - index,
    {
        if fits(kind, &families[index]) {
            let full_name = join("GraphicsEngine::queue_family_collection.", name);
            return Ok(
                QueueFamily::new(
                    full_name.as_str(),
                    kind,
                    index as u32,
                    families[index].queue_count,
                ),
            );
        }
        index += 1;
    }
    let head = join("Could not choose a ", kind.name());
    let description = join(head.as_str(), " queue family that meets the requirements");
    Err(FennecError::with_kind(ErrorKind::General, description.as_str()))
}

/// The mathematical value of a [`QueueFamily`].
pub struct QueueFamilyView {
    pub name: Seq<char>,
    pub kind: QueueKind,
    /// The index of the family on the device.
    pub index: u32,
    /// The number of queues that the family has.
    pub queue_count: u32,
    /// The queues, once the family is set up.
    pub queues: Option<Vec<Queue>>,
    /// The command pools, once the family is set up.
    pub command_pools: Option<CommandPoolCollection>,
}

impl QueueFamilyView {
    /// Whether the family has been set up.
    pub open spec fn is_set_up(self) -> bool {
        self.queues is Some || self.command_pools is Some
    }

    /// The queue at `index`, if the family has one there.
    pub open spec fn queue_at(self, index: int) -> Option<Queue> {
        match self.queues {
            Some(queues) => if 0 <= index < queues@.len() {
                Some(queues@[index])
            } else {
                None
            },
            None => None,
        }
    }

    /// The priorities of the queues of the family, first queue first.
    pub open spec fn queue_priorities(self) -> Seq<Fraction> {
        Seq::new(
            self.queue_count as nat,
            |i: int| Priority::spec_of_queue(i, self.queue_count as int),
        )
    }
}

/// The index that the `n`-th pick from a window of queues falls on: the
/// window reaches from the lower of the two indices to the higher, both
/// included, and picks go round it.
pub open spec fn window_index(first: int, second: int, n: int) -> int {
    let low = if first <= second {
        first
    } else {
        second
    };
    let high = if first <= second {
        second
    } else {
        first
    };
    low + n % (high - low + 1)
}

/// The name of queue number `queue` of a family called `family`.
pub open spec fn queue_name(family: Seq<char>, queue: nat) -> Seq<char> {
    family + ".queues["@ + decimal_digits(queue) + "]"@
}

/// The name of the command pools of a family called `family`.
pub open spec fn pools_name(family: Seq<char>) -> Seq<char> {
    family + ".command_pools"@
}

/// The description of the error for a family that is set up twice.
pub open spec fn already_set_up() -> Seq<char> {
    "Queue family is already set up"@
}

/// The calls that fetch and name the first `count` queues of a family. The
/// queues are bound to the handles `first`, `first + 1` and so on.
pub open spec fn queue_calls(family: QueueFamilyView, first: u64, count: nat) -> Seq<
    DeviceCallView,
>
    decreases count,
{
    if count == 0 {
        Seq::empty()
    } else {
        let queue = (count - 1) as nat;
        queue_calls(family, first, queue).push(
            DeviceCallView::GetDeviceQueue {
                queue: (first + queue) as u64,
                family_index: family.index,
                queue_index: queue as u32,
            },
        ).push(
            DeviceCallView::SetObjectName {
                handle_type: HandleType::Queue,
                handle: (first + queue) as u64,
                name: queue_name(family.name, queue),
            },
        )
    }
}

/// The value of queue number `queue` of a family after the family was set
/// up, with the queues bound to the handles from `first` on.
pub open spec fn queue_after_setup(family: QueueFamilyView, context: u64, first: u64, queue: nat) -> QueueView {
    QueueView {
        kind: family.kind,
        handle: VKHandleView {
            name: queue_name(family.name, queue),
            ..Queue::fetched(context, (first + queue) as u64, family.kind).handle
        },
    }
}

fn make_queue_name(family: &str, queue: u32) -> (name: String)
    ensures
        name@ == queue_name(family@, queue as nat),
{
    let number = decimal(queue as u64);
    let a = join(family, ".queues[");
    let b = join(a.as_str(), number.as_str());
    let name = join(b.as_str(), "]");
    assert(name@ =~= queue_name(family@, queue as nat));
    name
}

/// The calls that set a family up: its queues are fetched and named, then
/// its command pools are created and named. The queues are bound to the
/// handles from `first` on, and the pools to the two handles after those.
pub open spec fn setup_calls(family: QueueFamilyView, first: u64) -> Seq<DeviceCallView> {
    queue_calls(family, first, family.queue_count as nat) + collection_calls(
        pools_name(family.name),
        family.index,
        (first + family.queue_count) as u64,
    )
}

/// Whether `after` is the family `before` once it is set up, with its
/// queues bound to the handles from `first` on and its pools to the two
/// handles after those.
pub open spec fn set_up_from(
    after: QueueFamilyView,
    before: QueueFamilyView,
    context: u64,
    first: u64,
) -> bool {
    &&& after.name == before.name
    &&& after.kind == before.kind
    &&& after.index == before.index
    &&& after.queue_count == before.queue_count
    &&& after.queues matches Some(queues)
    &&& queues@.len() == before.queue_count
    &&& forall|i: int|
        0 <= i < queues@.len() ==> (#[trigger] queues@[i])@ == queue_after_setup(
            before,
            context,
            first,
            i as nat,
        )
    &&& after.command_pools matches Some(pools)
    &&& pools.transient@ == CommandPool::renamed(
        CommandPool::fresh(context, (first + before.queue_count) as u64, before.kind),
        transient_name(pools_name(before.name)),
    )
    &&& pools.long_term@ == CommandPool::renamed(
        CommandPool::fresh(context, (first + before.queue_count + 1) as u64, before.kind),
        long_term_name(pools_name(before.name)),
    )
}

/// A family of queues of the device.
pub struct QueueFamily {
    name: String,
    kind: QueueKind,
    index: u32,
    queue_count: u32,
    queues: Option<Vec<Queue>>,
    command_pools: Option<CommandPoolCollection>,
}

impl View for QueueFamily {
    type V = QueueFamilyView;

    closed spec fn view(&self) -> QueueFamilyView {
        QueueFamilyView {
            name: self.name@,
            kind: self.kind,
            index: self.index,
            queue_count: self.queue_count,
            queues: self.queues,
            command_pools: self.command_pools,
        }
    }
}

impl QueueFamily {
    /// A family that is not set up yet.
    pub(crate) fn new(name: &str, kind: QueueKind, index: u32, queue_count: u32) -> (family: Self)
        ensures
            family@ == (QueueFamilyView {
                name: name@,
                kind,
                index,
                queue_count,
                queues: None,
                command_pools: None,
            }),
    {
        Self {
            name: String::from_str(name),
            kind,
            index,
            queue_count,
            queues: None,
            command_pools: None,
        }
    }

    /// The name of the family.
    pub fn name(&self) -> (name: &str)
        ensures
            name@ == self@.name,
    {
        self.name.as_str()
    }

    /// The index of the family on the device.
    pub fn index(&self) -> (index: u32)
        ensures
            index == self@.index,
    {
        self.index
    }

    /// The kind of queues that the family has.
    pub fn kind(&self) -> (kind: QueueKind)
        ensures
            kind == self@.kind,
    {
        self.kind
    }

    /// The number of queues that the family has.
    pub fn queue_count(&self) -> (queue_count: u32)
        ensures
            queue_count == self@.queue_count,
    {
        self.queue_count
    }

    /// The queues, once the family is set up.
    pub fn queues(&self) -> (queues: Option<&Vec<Queue>>)
        ensures
            match queues {
                Some(queues) => self@.queues == Some(*queues),
                None => self@.queues is None,
            },
    {
        match &self.queues {
            Some(queues) => Some(queues),
            None => None,
        }
    }

    /// The queue that serves `priority`: the first queue for the highest
    /// priority, and the further down the list the lower the priority.
    /// `None` before the family is set up, and for a family without queues.
    pub fn queue_of_priority(&self, priority: Priority) -> (queue: Option<&Queue>)
        ensures
            match queue {
                Some(queue) => self@.queue_count > 0 && self@.queue_at(
                    Priority::queue_index(priority@, self@.queue_count as int),
                ) == Some(*queue),
                None => self@.queue_count == 0 || self@.queue_at(
                    Priority::queue_index(priority@, self@.queue_count as int),
                ) is None,
            },
    {
        if self.queue_count == 0 {
            return None;
        }
        let index = priority.queue_index_among(self.queue_count) as usize;
        match &self.queues {
            Some(queues) => if index < queues.len() {
                Some(&queues[index])
            } else {
                None
            },
            None => None,
        }
    }

    /// The `n`-th queue of those that serve the priorities between the two
    /// of `priority_range`, in either order. The queues in the range are
    /// counted from the one of highest priority, and the count goes round:
    /// with three queues in the range, `n = 3` is the first of them again.
    /// `None` before the family is set up, and for a family without queues.
    pub fn queue_n_in_priority_range(&self, n: usize, priority_range: (Priority, Priority)) -> (queue:
        Option<&Queue>)
        ensures
            match queue {
                Some(queue) => self@.queue_count > 0 && self@.queue_at(
                    window_index(
                        Priority::queue_index(priority_range.0@, self@.queue_count as int),
                        Priority::queue_index(priority_range.1@, self@.queue_count as int),
                        n as int,
                    ),
                ) == Some(*queue),
                None => self@.queue_count == 0 || self@.queue_at(
                    window_index(
                        Priority::queue_index(priority_range.0@, self@.queue_count as int),
                        Priority::queue_index(priority_range.1@, self@.queue_count as int),
                        n as int,
                    ),
                ) is None,
            },
    {
        if self.queue_count == 0 {
            return None;
        }
        let first = priority_range.0.queue_index_among(self.queue_count) as usize;
        let second = priority_range.1.queue_index_among(self.queue_count) as usize;
        let low = if first <= second {
            first
        } else {
            second
        };
        let high = if first <= second {
            second
        } else {
            first
        };
        let index = low + n % (high - low + 1);
        match &self.queues {
            Some(queues) => if index < queues.len() {
                Some(&queues[index])
            } else {
                None
            },
            None => None,
        }
    }

    /// The command pools, once the family is set up.
    pub fn command_pools(&self) -> (pools: Option<&CommandPoolCollection>)
        ensures
            match pools {
                Some(pools) => self@.command_pools == Some(*pools),
                None => self@.command_pools is None,
            },
    {
        match &self.command_pools {
            Some(pools) => Some(pools),
            None => None,
        }
    }

    /// The command pools, once the family is set up.
    pub fn command_pools_mut(&mut self) -> (pools: Option<&mut CommandPoolCollection>)
        ensures
            match pools {
                Some(pools) => old(self)@.command_pools == Some(*pools) && final(self)@ == (
                QueueFamilyView { command_pools: Some(*final(pools)), ..old(self)@ }),
                None => old(self)@.command_pools is None && final(self)@ == old(self)@,
            },
    {
        match &mut self.command_pools {
            Some(pools) => Some(pools),
            None => None,
        }
    }

    /// The error that setting the family up refuses with, if it does: a
    /// family that is set up already, a context that is exclusively
    /// borrowed, and a family after whose name the device cannot be told
    /// the names of the queues and pools, in this order.
    pub open spec fn setup_error(family: QueueFamilyView, context: ContextView) -> Option<
        ErrorView,
    > {
        if family.is_set_up() {
            Some(illegal_state(already_set_up()))
        } else {
            naming_error(context, family.name)
        }
    }

    /// The queues and the pools of a family can be named exactly when the
    /// family's own name can be told, and fail with the same error: what is
    /// added behind the name holds no NUL character.
    pub proof fn lemma_member_names_follow_family(
        context: ContextView,
        family: Seq<char>,
        queue: nat,
    )
        ensures
            naming_error(context, queue_name(family, queue)) == naming_error(context, family),
            naming_error(context, pools_name(family)) == naming_error(context, family),
    {
        reveal_strlit(".queues[");
        reveal_strlit("]");
        reveal_strlit(".command_pools");
        lemma_digits_have_no_nul(queue);
        let rest = ".queues["@ + decimal_digits(queue) + "]"@;
        lemma_has_nul_of_pieces(".queues["@, decimal_digits(queue));
        lemma_has_nul_of_pieces(".queues["@ + decimal_digits(queue), "]"@);
        assert(queue_name(family, queue) =~= family + rest);
        lemma_naming_error_of_longer_name(context, family, rest);
        lemma_naming_error_of_longer_name(context, family, ".command_pools"@);
    }

    /// Sets the family up: fetches and names its queues, one for each that
    /// the device reported, then creates and names its two command pools.
    /// A family is set up once; where the call is refused, nothing changes.
    pub fn setup(&mut self, context: &mut Context) -> (result: Result<(), FennecError>)
        requires
            old(context)@.can_create(old(self)@.queue_count as nat + 2),
        ensures
            match result {
                Ok(()) => {
                    &&& QueueFamily::setup_error(old(self)@, old(context)@) is None
                    &&& final(context)@ == old(context)@.create(
                        old(self)@.queue_count as nat + 2,
                    ).issue_all(setup_calls(old(self)@, old(context)@.next_handle))
                    &&& set_up_from(
                        final(self)@,
                        old(self)@,
                        old(context)@.id,
                        old(context)@.next_handle,
                    )
                },
                Err(error) => {
                    &&& QueueFamily::setup_error(old(self)@, old(context)@) == Some(error@)
                    &&& final(self)@ == old(self)@
                    &&& final(context)@ == old(context)@
                },
            },
    {
        if self.queues.is_some() || self.command_pools.is_some() {
            return Err(
                FennecError::with_kind(ErrorKind::IllegalState, "Queue family is already set up"),
            );
        }
        check_name(context, self.name.as_str())?;
        let ghost first = context@.next_handle;
        let mut queues: Vec<Queue> = Vec::new();
        let mut idx: u32 = 0;
        proof {
            context@.lemma_issue_all_advances(Seq::empty());
        }
        while idx < self.queue_count
            invariant
                idx <= self.queue_count,
                *self == *old(self),
                first == old(context)@.next_handle,
                naming_error(old(context)@, self@.name) is None,
                old(context)@.can_create(self@.queue_count as nat + 2),
                context@ == old(context)@.create(idx as nat).issue_all(
                    queue_calls(self@, first, idx as nat),
                ),
                queues@.len() == idx,
                forall|i: int|
                    0 <= i < idx ==> (#[trigger] queues@[i])@ == queue_after_setup(
                        self@,
                        old(context)@.id,
                        first,
                        i as nat,
                    ),
            decreases self.queue_count - idx,
        {
            let name = make_queue_name(self.name.as_str(), idx);
            proof {
                QueueFamily::lemma_member_names_follow_family(context@, self@.name, idx as nat);
            }
            let queue = match Queue::new(context, self.kind, self.index, idx) {
                Ok(queue) => queue,
                Err(error) => {
                    assert(false);
                    return Err(error);
                },
            };
            let queue = match queue.with_name(context, name.as_str()) {
                Ok(queue) => queue,
                Err(error) => {
                    assert(false);
                    return Err(error);
                },
            };
            queues.push(queue);
            proof {
                assert(context@.calls =~= old(context)@.calls + queue_calls(
                    self@,
                    first,
                    (idx + 1) as nat,
                ));
            }
            idx += 1;
        }
        let pools_name = join(self.name.as_str(), ".command_pools");
        proof {
            QueueFamily::lemma_member_names_follow_family(context@, self@.name, 0);
        }
        let command_pools = match CommandPoolCollection::new(
            pools_name.as_str(),
            context,
            self.kind,
            self.index,
        ) {
            Ok(pools) => pools,
            Err(error) => {
                assert(false);
                return Err(error);
            },
        };
        proof {
            assert(context@.calls =~= old(context)@.calls + (queue_calls(
                old(self)@,
                first,
                old(self)@.queue_count as nat,
            ) + collection_calls(
                pools_name@,
                old(self)@.index,
                (first + old(self)@.queue_count) as u64,
            )));
        }
        self.queues = Some(queues);
        self.command_pools = Some(command_pools);
        Ok(())
    }

    /// The priorities of the queues of the family: one for the first queue,
    /// and one `queue_count`-th less for each queue after it.
    pub fn queue_priorities(&self) -> (priorities: Vec<Priority>)
        ensures
            fractions(priorities@) == self@.queue_priorities(),
    {
        let mut priorities: Vec<Priority> = Vec::new();
        let mut i: u32 = 0;
        while i < self.queue_count
            invariant
                i <= self.queue_count,
                priorities@.len() == i,
                forall|k: int|
                    0 <= k < i ==> (#[trigger] priorities@[k])@ == Priority::spec_of_queue(
                        k,
                        self.queue_count as int,
                    ),
            decreases self.queue_count - i,
        {
            priorities.push(Priority::of_queue(i, self.queue_count));
            i += 1;
        }
        assert(fractions(priorities@) =~= self@.queue_priorities());
        priorities
    }
}

/// The value of a list of families with the priorities of their queues.
pub open spec fn entry_views(entries: Seq<(u32, Vec<Priority>)>) -> Seq<(u32, Seq<Fraction>)> {
    entries.map_values(|entry: (u32, Vec<Priority>)| (entry.0, fractions(entry.1@)))
}

/// Whether the entry at `index` stays when a list is reduced to one entry
/// for each family: every later entry of the same family has priorities
/// that are at most its own, and no earlier entry of the same family has
/// priorities that are at least its own. Of several entries of one family,
/// the first one with the greatest priorities stays.
pub open spec fn is_kept(entries: Seq<(u32, Seq<Fraction>)>, index: int) -> bool {
    forall|other: int|
        0 <= other < entries.len() && other != index && (#[trigger] entries[other]).0
            == entries[index].0 ==> if other < index {
            !fractions_le(entries[index].1, entries[other].1)
        } else {
            fractions_le(entries[other].1, entries[index].1)
        }
}

/// The entries among the first `upto` of a list that stay when the list is
/// reduced to one entry for each family, in their order.
pub open spec fn reduced_upto(entries: Seq<(u32, Seq<Fraction>)>, upto: nat) -> Seq<
    (u32, Seq<Fraction>),
>
    decreases upto,
{
    if upto == 0 {
        Seq::empty()
    } else if is_kept(entries, (upto - 1) as int) {
        reduced_upto(entries, (upto - 1) as nat).push(entries[upto - 1])
    } else {
        reduced_upto(entries, (upto - 1) as nat)
    }
}

/// A list of families reduced to one entry for each family.
pub open spec fn reduced(entries: Seq<(u32, Seq<Fraction>)>) -> Seq<(u32, Seq<Fraction>)> {
    reduced_upto(entries, entries.len())
}

/// Where the entry at `position` of the reduced list stood in the list
/// that was reduced, as far as the first `upto` entries tell.
pub open spec fn kept_index(entries: Seq<(u32, Seq<Fraction>)>, upto: nat, position: int) -> int
    decreases upto,
{
    if upto == 0 {
        0
    } else if is_kept(entries, (upto - 1) as int) && position == reduced_upto(
        entries,
        (upto - 1) as nat,
    ).len() {
        (upto - 1) as int
    } else {
        kept_index(entries, (upto - 1) as nat, position)
    }
}

/// Every entry of the reduced list is an entry that stays, and the entries
/// keep their order.
pub proof fn lemma_reduced_entries_are_kept(
    entries: Seq<(u32, Seq<Fraction>)>,
    upto: nat,
    position: int,
)
    requires
        upto <= entries.len(),
        0 <= position < reduced_upto(entries, upto).len(),
    ensures
        0 <= kept_index(entries, upto, position) < upto,
        is_kept(entries, kept_index(entries, upto, position)),
        reduced_upto(entries, upto)[position] == entries[kept_index(entries, upto, position)],
        forall|earlier: int|
            0 <= earlier < position ==> kept_index(entries, upto, earlier) < kept_index(
                entries,
                upto,
                position,
            ),
    decreases upto,
{
    if upto > 0 {
        let before = reduced_upto(entries, (upto - 1) as nat);
        if position < before.len() {
            lemma_reduced_entries_are_kept(entries, (upto - 1) as nat, position);
            assert forall|earlier: int| 0 <= earlier < position implies kept_index(
                entries,
                upto,
                earlier,
            ) < kept_index(entries, upto, position) by {
                assert(kept_index(entries, upto, earlier) == kept_index(
                    entries,
                    (upto - 1) as nat,
                    earlier,
                ));
            }
        } else {
            assert forall|earlier: int| 0 <= earlier < position implies kept_index(
                entries,
                upto,
                earlier,
            ) < kept_index(entries, upto, position) by {
                lemma_reduced_entries_are_kept(entries, (upto - 1) as nat, earlier);
            }
        }
    }
}

/// The reduced list names every family once: no two of its entries are of
/// one family.
pub proof fn lemma_reduced_families_are_unique(
    entries: Seq<(u32, Seq<Fraction>)>,
    first: int,
    second: int,
)
    requires
        0 <= first < second < reduced(entries).len(),
    ensures
        reduced(entries)[first].0 != reduced(entries)[second].0,
{
    lemma_reduced_entries_are_kept(entries, entries.len(), first);
    lemma_reduced_entries_are_kept(entries, entries.len(), second);
    let i = kept_index(entries, entries.len(), first);
    let j = kept_index(entries, entries.len(), second);
    assert(i < j);
    if entries[i].0 == entries[j].0 {
        assert(entries[j].0 == entries[i].0);
        assert(fractions_le(entries[j].1, entries[i].1));
        assert(!fractions_le(entries[j].1, entries[i].1));
    }
}

/// Whether the priorities of every entry have denominators above zero.
pub open spec fn proper_entries(entries: Seq<(u32, Seq<Fraction>)>) -> bool {
    forall|i: int| 0 <= i < entries.len() ==> proper((#[trigger] entries[i]).1)
}

/// Among the first `upto` entries, the place of the entry of `family` with
/// the greatest priorities, and of several such the first; below zero where
/// the family has no entry there.
pub open spec fn best_of(entries: Seq<(u32, Seq<Fraction>)>, family: u32, upto: nat) -> int
    decreases upto,
{
    if upto == 0 {
        -1
    } else {
        let before = best_of(entries, family, (upto - 1) as nat);
        if entries[upto - 1].0 == family && (before < 0 || !fractions_le(
            entries[upto - 1].1,
            entries[before].1,
        )) {
            upto - 1
        } else {
            before
        }
    }
}

/// The best entry of a family among the first `upto` is of that family, is
/// there as soon as the family has an entry, has greater priorities than
/// every entry of the family before it, and priorities that are at least
/// those of every entry of the family behind it.
pub proof fn lemma_best_leads_its_family(
    entries: Seq<(u32, Seq<Fraction>)>,
    family: u32,
    upto: nat,
)
    requires
        upto <= entries.len(),
        proper_entries(entries),
    ensures
        -1 <= best_of(entries, family, upto) < upto,
        best_of(entries, family, upto) >= 0 ==> entries[best_of(entries, family, upto)].0
            == family,
        forall|other: int|
            0 <= other < upto && (#[trigger] entries[other]).0 == family ==> {
                let best = best_of(entries, family, upto);
                &&& best >= 0
                &&& other < best ==> !fractions_le(entries[best].1, entries[other].1)
                &&& other > best ==> fractions_le(entries[other].1, entries[best].1)
            },
    decreases upto,
{
    if upto > 0 {
        let last = upto - 1;
        lemma_best_leads_its_family(entries, family, last as nat);
        let before = best_of(entries, family, last as nat);
        let best = best_of(entries, family, upto);
        if best == last && before >= 0 {
            // The last entry is strictly greater than the best before it,
            // so it is strictly greater than all that the best led.
            assert forall|other: int|
                0 <= other < last && (#[trigger] entries[other]).0 == family implies !fractions_le(
                entries[last].1,
                entries[other].1,
            ) by {
                if fractions_le(entries[last].1, entries[other].1) {
                    if other < before {
                        lemma_fractions_le_is_total(entries[other].1, entries[before].1, 0);
                    }
                    assert(fractions_le(entries[other].1, entries[before].1));
                    lemma_fractions_le_goes_on(
                        entries[last].1,
                        entries[other].1,
                        entries[before].1,
                        0,
                    );
                }
            }
        }
    }
}

/// An entry that stays is found in the reduced list.
pub proof fn lemma_kept_entry_is_listed(
    entries: Seq<(u32, Seq<Fraction>)>,
    upto: nat,
    index: int,
)
    requires
        0 <= index < upto <= entries.len(),
        is_kept(entries, index),
    ensures
        exists|position: int|
            0 <= position < reduced_upto(entries, upto).len() && #[trigger] reduced_upto(
                entries,
                upto,
            )[position] == entries[index],
    decreases upto,
{
    let before = reduced_upto(entries, (upto - 1) as nat);
    if index == upto - 1 {
        assert(reduced_upto(entries, upto)[before.len() as int] == entries[index]);
    } else {
        lemma_kept_entry_is_listed(entries, (upto - 1) as nat, index);
        let position = choose|position: int|
            0 <= position < before.len() && #[trigger] before[position] == entries[index];
        assert(reduced_upto(entries, upto)[position] == entries[index]);
    }
}

/// No family is lost: every family that has an entry in a list has an entry
/// in the reduced list.
pub proof fn lemma_every_family_stays(entries: Seq<(u32, Seq<Fraction>)>, index: int)
    requires
        0 <= index < entries.len(),
        proper_entries(entries),
    ensures
        exists|position: int|
            0 <= position < reduced(entries).len() && (#[trigger] reduced(entries)[position]).0
                == entries[index].0,
{
    let family = entries[index].0;
    lemma_best_leads_its_family(entries, family, entries.len());
    let best = best_of(entries, family, entries.len());
    assert(entries[index].0 == family);
    assert(best >= 0);
    assert(is_kept(entries, best)) by {
        assert forall|other: int|
            0 <= other < entries.len() && other != best && (#[trigger] entries[other]).0
                == entries[best].0 implies if other < best {
            !fractions_le(entries[best].1, entries[other].1)
        } else {
            fractions_le(entries[other].1, entries[best].1)
        } by {}
    }
    lemma_kept_entry_is_listed(entries, entries.len(), best);
    let position = choose|position: int|
        0 <= position < reduced(entries).len() && #[trigger] reduced_upto(
            entries,
            entries.len(),
        )[position] == entries[best];
    assert(reduced(entries)[position].0 == entries[index].0);
}

fn entry_is_kept(entries: &Vec<(u32, Vec<Priority>)>, index: usize) -> (kept: bool)
    requires
        index < entries@.len(),
    ensures
        kept == is_kept(entry_views(entries@), index as int),
{
    let ghost views = entry_views(entries@);
    let mut other: usize = 0;
    while other < entries.len()
        invariant
            other <= entries@.len(),
            index < entries@.len(),
            views == entry_views(entries@),
            forall|k: int|
                0 <= k < other && k != index && (#[trigger] views[k]).0 == views[index as int].0
                    ==> if k < index {
                    !fractions_le(views[index as int].1, views[k].1)
                } else {
                    fractions_le(views[k].1, views[index as int].1)
                },
        decreases entries@.len() - other,
    {
        if other != index && entries[other].0 == entries[index].0 {
            let stays = if other < index {
                !priorities_le(&entries[index].1, &entries[other].1)
            } else {
                priorities_le(&entries[other].1, &entries[index].1)
            };
            if !stays {
                assert(views[other as int].0 == views[index as int].0);
                return false;
            }
        }
        other += 1;
    }
    true
}

/// Reduces a list of families, each with the priorities of its queues, to
/// one entry for each family. The entries that stay keep their order.
pub fn reduce_family_priorities_to_unique(priorities: &mut Vec<(u32, Vec<Priority>)>)
    ensures
        entry_views(final(priorities)@) == reduced(entry_views(old(priorities)@)),
{
    let ghost views = entry_views(priorities@);
    let mut kept: Vec<(u32, Vec<Priority>)> = Vec::new();
    let mut index: usize = 0;
    while index < priorities.len()
        invariant
            index <= priorities@.len(),
            *priorities == *old(priorities),
            views == entry_views(priorities@),
            entry_views(kept@) == reduced_upto(views, index as nat),
        decreases priorities@.len() - index,
    {
        if entry_is_kept(priorities, index) {
            let ghost before = kept@;
            let entry = (priorities[index].0, copy_priorities(&priorities[index].1));
            kept.push(entry);
            assert(entry_views(kept@) =~= entry_views(before).push(views[index as int]));
        }
        index += 1;
    }
    *priorities = kept;
}

/// The queue families that the engine works with: one that presents, one
/// that takes graphics work and one that takes transfers. One family of the
/// device may serve in more than one of these places.
pub struct QueueFamilyCollection {
    pub present: QueueFamily,
    pub graphics: QueueFamily,
    pub transfer: QueueFamily,
}

impl QueueFamilyCollection {
    /// Chooses the three families among those that the device reports: for
    /// each kind the first family that can serve it.
    pub fn new(families: &[QueueFamilyProperties]) -> (result: Result<Self, FennecError>)
        requires
            families@.len() <= u32::MAX,
        ensures
            match result {
                Ok(collection) => {
                    &&& QueueFamilyCollection::chosen(
                        collection.present@,
                        families@,
                        QueueKind::Present,
                        "present"@,
                    )
                    &&& QueueFamilyCollection::chosen(
                        collection.graphics@,
                        families@,
                        QueueKind::Graphics,
                        "graphics"@,
                    )
                    &&& QueueFamilyCollection::chosen(
                        collection.transfer@,
                        families@,
                        QueueKind::Transfer,
                        "transfer"@,
                    )
                },
                Err(error) => {
                    &&& QueueFamilyCollection::first_missing(families@) matches Some(kind)
                    &&& error@ == plain_error(ErrorKind::General, no_fitting_family(kind))
                },
            },
    {
        let present = choose_family("present", families, QueueKind::Present)?;
        let graphics = choose_family("graphics", families, QueueKind::Graphics)?;
        let transfer = choose_family("transfer", families, QueueKind::Transfer)?;
        Ok(Self { present, graphics, transfer })
    }

    /// Whether `family` is the family chosen for `kind` under `name`: the
    /// first of `families` that fits, not set up yet.
    pub open spec fn chosen(
        family: QueueFamilyView,
        families: Seq<QueueFamilyProperties>,
        kind: QueueKind,
        name: Seq<char>,
    ) -> bool {
        &&& is_first_fit(families, kind, family.index as int)
        &&& family == (QueueFamilyView {
            name: family_name(name),
            kind,
            index: family.index,
            queue_count: families[family.index as int].queue_count,
            queues: None,
            command_pools: None,
        })
    }

    /// The first kind, in the order present, graphics, transfer, that none
    /// of `families` can serve.
    pub open spec fn first_missing(families: Seq<QueueFamilyProperties>) -> Option<QueueKind> {
        if no_family_fits(families, QueueKind::Present) {
            Some(QueueKind::Present)
        } else if no_family_fits(families, QueueKind::Graphics) {
            Some(QueueKind::Graphics)
        } else if no_family_fits(families, QueueKind::Transfer) {
            Some(QueueKind::Transfer)
        } else {
            None
        }
    }

    /// The family that presents.
    pub fn present(&self) -> (family: &QueueFamily)
        ensures
            *family == self.present,
    {
        &self.present
    }

    /// The family that presents.
    pub fn present_mut(&mut self) -> (family: &mut QueueFamily)
        ensures
            *family == old(self).present,
            *final(self) == (QueueFamilyCollection { present: *final(family), ..*old(self) }),
    {
        &mut self.present
    }

    /// The family that takes graphics work.
    pub fn graphics(&self) -> (family: &QueueFamily)
        ensures
            *family == self.graphics,
    {
        &self.graphics
    }

    /// The family that takes graphics work.
    pub fn graphics_mut(&mut self) -> (family: &mut QueueFamily)
        ensures
            *family == old(self).graphics,
            *final(self) == (QueueFamilyCollection { graphics: *final(family), ..*old(self) }),
    {
        &mut self.graphics
    }

    /// The family that takes transfers.
    pub fn transfer(&self) -> (family: &QueueFamily)
        ensures
            *family == self.transfer,
    {
        &self.transfer
    }

    /// The family that takes transfers.
    pub fn transfer_mut(&mut self) -> (family: &mut QueueFamily)
        ensures
            *family == old(self).transfer,
            *final(self) == (QueueFamilyCollection { transfer: *final(family), ..*old(self) }),
    {
        &mut self.transfer
    }

    /// How many handles setting the three families up takes.
    pub open spec fn setup_handles(self) -> nat {
        (self.present@.queue_count + 2 + self.graphics@.queue_count + 2
            + self.transfer@.queue_count + 2) as nat
    }

    /// Sets the three families up, in the order present, graphics,
    /// transfer. Where a family refuses, the families before it stay set
    /// up.
    pub fn setup(&mut self, context: &mut Context) -> (result: Result<(), FennecError>)
        requires
            old(context)@.can_create(old(self).setup_handles()),
        ensures
            match result {
                Ok(()) => {
                    let first = old(context)@.next_handle;
                    let second = (first + old(self).present@.queue_count + 2) as u64;
                    let third = (second + old(self).graphics@.queue_count + 2) as u64;
                    &&& QueueFamily::setup_error(old(self).present@, old(context)@) is None
                    &&& QueueFamily::setup_error(old(self).graphics@, old(context)@) is None
                    &&& QueueFamily::setup_error(old(self).transfer@, old(context)@) is None
                    &&& final(context)@ == old(context)@.create(
                        old(self).setup_handles(),
                    ).issue_all(
                        setup_calls(old(self).present@, first) + setup_calls(
                            old(self).graphics@,
                            second,
                        ) + setup_calls(old(self).transfer@, third),
                    )
                    &&& set_up_from(
                        final(self).present@,
                        old(self).present@,
                        old(context)@.id,
                        first,
                    )
                    &&& set_up_from(
                        final(self).graphics@,
                        old(self).graphics@,
                        old(context)@.id,
                        second,
                    )
                    &&& set_up_from(
                        final(self).transfer@,
                        old(self).transfer@,
                        old(context)@.id,
                        third,
                    )
                },
                Err(error) => {
                    let first = old(context)@.next_handle;
                    let second = (first + old(self).present@.queue_count + 2) as u64;
                    if QueueFamily::setup_error(old(self).present@, old(context)@) is Some {
                        &&& QueueFamily::setup_error(old(self).present@, old(context)@) == Some(
                            error@,
                        )
                        &&& final(self).present@ == old(self).present@
                        &&& final(self).graphics == old(self).graphics
                        &&& final(self).transfer == old(self).transfer
                        &&& final(context)@ == old(context)@
                    } else if QueueFamily::setup_error(old(self).graphics@, old(context)@) is Some {
                        &&& QueueFamily::setup_error(old(self).graphics@, old(context)@) == Some(
                            error@,
                        )
                        &&& final(self).graphics@ == old(self).graphics@
                        &&& final(self).transfer == old(self).transfer
                        &&& set_up_from(
                            final(self).present@,
                            old(self).present@,
                            old(context)@.id,
                            first,
                        )
                        &&& final(context)@ == old(context)@.create(
                            old(self).present@.queue_count as nat + 2,
                        ).issue_all(setup_calls(old(self).present@, first))
                    } else {
                        &&& QueueFamily::setup_error(old(self).transfer@, old(context)@) == Some(
                            error@,
                        )
                        &&& final(self).transfer@ == old(self).transfer@
                        &&& set_up_from(
                            final(self).present@,
                            old(self).present@,
                            old(context)@.id,
                            first,
                        )
                        &&& set_up_from(
                            final(self).graphics@,
                            old(self).graphics@,
                            old(context)@.id,
                            second,
                        )
                        &&& final(context)@ == old(context)@.create(
                            (old(self).present@.queue_count + 2 + old(self).graphics@.queue_count
                                + 2) as nat,
                        ).issue_all(
                            setup_calls(old(self).present@, first) + setup_calls(
                                old(self).graphics@,
                                second,
                            ),
                        )
                    }
                },
            },
    {
        self.present.setup(context)?;
        let ghost first = old(context)@.next_handle;
        let ghost second = (first + old(self).present@.queue_count + 2) as u64;
        let ghost after_present = context@;
        self.graphics.setup(context)?;
        let ghost after_graphics = context@;
        proof {
            old(context)@.lemma_issue_all_twice(
                setup_calls(old(self).present@, first),
                setup_calls(old(self).graphics@, second),
            );
            assert(after_graphics.calls =~= old(context)@.calls + (setup_calls(
                old(self).present@,
                first,
            ) + setup_calls(old(self).graphics@, second)));
        }
        self.transfer.setup(context)?;
        proof {
            let third = (second + old(self).graphics@.queue_count + 2) as u64;
            assert(context@.calls =~= old(context)@.calls + (setup_calls(
                old(self).present@,
                first,
            ) + setup_calls(old(self).graphics@, second) + setup_calls(
                old(self).transfer@,
                third,
            )));
        }
        Ok(())
    }

    /// The three families with the priorities of their queues, before the
    /// list is reduced.
    pub open spec fn all_priorities(self) -> Seq<(u32, Seq<Fraction>)> {
        seq![
            (self.present@.index, self.present@.queue_priorities()),
            (self.graphics@.index, self.graphics@.queue_priorities()),
            (self.transfer@.index, self.transfer@.queue_priorities()),
        ]
    }

    /// The families to create queues for, each once, with the priorities of
    /// its queues.
    pub fn queue_priorities(&self) -> (priorities: Vec<(u32, Vec<Priority>)>)
        ensures
            entry_views(priorities@) == reduced(self.all_priorities()),
    {
        let mut priorities: Vec<(u32, Vec<Priority>)> = Vec::new();
        priorities.push((self.present.index(), self.present.queue_priorities()));
        priorities.push((self.graphics.index(), self.graphics.queue_priorities()));
        priorities.push((self.transfer.index(), self.transfer.queue_priorities()));
        assert(entry_views(priorities@) =~= self.all_priorities());
        reduce_family_priorities_to_unique(&mut priorities);
        priorities
    }
}

} // verus!
