//! Queue priorities: exact fractions between zero and one.

use crate::error::out_of_range;
use crate::error::ErrorKind;
use crate::error::FennecError;
use vstd::prelude::*;

verus! {

/// The mathematical value of a [`Priority`]: `numerator / denominator`.
pub struct Fraction {
    pub numerator: int,
    pub denominator: int,
}

impl Fraction {
    /// Whether the fraction lies between zero and one.
    pub open spec fn is_unit(self) -> bool {
        0 <= self.numerator <= self.denominator && 0 < self.denominator
    }

    /// Whether this fraction is smaller than `other`.
    pub open spec fn lt(self, other: Fraction) -> bool {
        self.numerator * other.denominator < other.numerator * self.denominator
    }

    /// Whether the two fractions are the same number.
    pub open spec fn same(self, other: Fraction) -> bool {
        self.numerator * other.denominator == other.numerator * self.denominator
    }

    /// Whether this fraction is at most `other`.
    pub open spec fn le(self, other: Fraction) -> bool {
        self.numerator * other.denominator <= other.numerator * self.denominator
    }
}

/// The priority of a queue, from zero (lowest) to one (highest), kept as an
/// exact fraction.
#[derive(Clone, Copy, Debug)]
pub struct Priority {
    numerator: u32,
    denominator: u32,
}

impl View for Priority {
    type V = Fraction;

    closed spec fn view(&self) -> Fraction {
        Fraction { numerator: self.numerator as int, denominator: self.denominator as int }
    }
}

/// The description of the error for a fraction that is no priority.
pub open spec fn not_a_priority() -> Seq<char> {
    "A priority must lie between 0 and 1"@
}

impl Priority {
    #[verifier::type_invariant]
    spec fn well_formed(&self) -> bool {
        self.numerator <= self.denominator && 0 < self.denominator
    }

    /// The priority `numerator / denominator`. Refused where the denominator
    /// is zero or the fraction is greater than one.
    pub fn new(numerator: u32, denominator: u32) -> (result: Result<Priority, FennecError>)
        ensures
            match result {
                Ok(priority) => numerator <= denominator && 0 < denominator && priority@ == (
                Fraction { numerator: numerator as int, denominator: denominator as int }),
                Err(error) => !(numerator <= denominator && 0 < denominator) && error@
                    == out_of_range(not_a_priority()),
            },
    {
        if denominator == 0 || numerator > denominator {
            return Err(
                FennecError::with_kind(
                    ErrorKind::OutOfRange,
                    "A priority must lie between 0 and 1",
                ),
            );
        }
        Ok(Priority { numerator, denominator })
    }

    /// The highest priority, one.
    pub fn highest() -> (priority: Priority)
        ensures
            priority@ == (Fraction { numerator: 1, denominator: 1 }),
    {
        Priority { numerator: 1, denominator: 1 }
    }

    /// The lowest priority, zero.
    pub fn lowest() -> (priority: Priority)
        ensures
            priority@ == (Fraction { numerator: 0, denominator: 1 }),
    {
        Priority { numerator: 0, denominator: 1 }
    }

    /// The priority of queue number `queue` among `queue_count` queues: the
    /// first queue has priority one, and each following queue one
    /// `queue_count`-th less.
    pub fn of_queue(queue: u32, queue_count: u32) -> (priority: Priority)
        requires
            queue < queue_count,
        ensures
            priority@ == Priority::spec_of_queue(queue as int, queue_count as int),
    {
        Priority { numerator: queue_count - queue, denominator: queue_count }
    }

    /// The priority of queue number `queue` among `queue_count` queues.
    pub open spec fn spec_of_queue(queue: int, queue_count: int) -> Fraction {
        Fraction { numerator: queue_count - queue, denominator: queue_count }
    }

    /// The numerator of the fraction.
    pub fn numerator(&self) -> (numerator: u32)
        ensures
            numerator == self@.numerator,
            self@.is_unit(),
    {
        proof {
            use_type_invariant(self);
        }
        self.numerator
    }

    /// The denominator of the fraction.
    pub fn denominator(&self) -> (denominator: u32)
        ensures
            denominator == self@.denominator,
            self@.is_unit(),
    {
        proof {
            use_type_invariant(self);
        }
        self.denominator
    }

    /// Whether this priority is lower than `other`.
    pub fn lt(&self, other: &Priority) -> (lower: bool)
        ensures
            lower == self@.lt(other@),
    {
        proof {
            use_type_invariant(self);
            use_type_invariant(other);
            assert(self.numerator as int * other.denominator as int <= 0xffff_ffff * 0xffff_ffff)
                by (nonlinear_arith)
                requires
                    0 <= self.numerator as int <= 0xffff_ffff,
                    0 <= other.denominator as int <= 0xffff_ffff,
            ;
            assert(other.numerator as int * self.denominator as int <= 0xffff_ffff * 0xffff_ffff)
                by (nonlinear_arith)
                requires
                    0 <= other.numerator as int <= 0xffff_ffff,
                    0 <= self.denominator as int <= 0xffff_ffff,
            ;
        }
        (self.numerator as u64) * (other.denominator as u64) < (other.numerator as u64) * (
        self.denominator as u64)
    }

    /// The index of the queue that serves a priority among `queue_count`
    /// queues: the share of the way down from one, in whole queues, and the
    /// last queue at most.
    pub open spec fn queue_index(priority: Fraction, queue_count: int) -> int {
        let index = ((priority.denominator - priority.numerator) * queue_count)
            / priority.denominator;
        if index < queue_count - 1 {
            index
        } else {
            queue_count - 1
        }
    }

    /// The index of the queue that serves this priority among `queue_count`
    /// queues.
    pub fn queue_index_among(&self, queue_count: u32) -> (index: u32)
        requires
            queue_count > 0,
        ensures
            index == Priority::queue_index(self@, queue_count as int),
            index < queue_count,
            self@.is_unit(),
    {
        proof {
            use_type_invariant(self);
        }
        let below: u64 = (self.denominator - self.numerator) as u64;
        assert(below * (queue_count as u64) <= 0xffff_ffff * 0xffff_ffff) by (nonlinear_arith)
            requires
                0 <= below <= 0xffff_ffff,
                0 <= queue_count as u64 <= 0xffff_ffff,
        ;
        let index: u64 = (below * (queue_count as u64)) / (self.denominator as u64);
        if index < (queue_count - 1) as u64 {
            index as u32
        } else {
            queue_count - 1
        }
    }

    /// The highest priority leads to the first queue.
    pub proof fn lemma_highest_leads_to_first(queue_count: int)
        requires
            queue_count > 0,
        ensures
            Priority::queue_index(Fraction { numerator: 1, denominator: 1 }, queue_count) == 0,
    {
        assert((1int - 1int) * queue_count == 0);
        assert(0int / 1int == 0);
    }

    /// Every queue is found again by its own priority: among `queue_count`
    /// queues, the priority of queue `queue` leads back to `queue`.
    pub proof fn lemma_queue_index_of_own_priority(queue: int, queue_count: int)
        requires
            0 <= queue < queue_count,
        ensures
            Priority::queue_index(Priority::spec_of_queue(queue, queue_count), queue_count)
                == queue,
    {
        assert((queue * queue_count) / queue_count == queue) by (nonlinear_arith)
            requires
                0 <= queue,
                0 < queue_count,
        ;
        assert(queue_count - (queue_count - queue) == queue);
    }
}

/// Whether the list `a` of fractions comes before `b`, or is equal to it, in
/// the order of a dictionary: the first place where the two differ decides,
/// and a list that is the start of another comes first. Places before `from`
/// are taken as equal.
pub open spec fn fractions_le_from(a: Seq<Fraction>, b: Seq<Fraction>, from: int) -> bool
    decreases a.len() - from,
{
    if from >= a.len() {
        true
    } else if from >= b.len() {
        false
    } else if a[from].lt(b[from]) {
        true
    } else if b[from].lt(a[from]) {
        false
    } else {
        fractions_le_from(a, b, from + 1)
    }
}

/// Whether the list `a` comes before `b`, or is equal to it, in the order of
/// a dictionary.
pub open spec fn fractions_le(a: Seq<Fraction>, b: Seq<Fraction>) -> bool {
    fractions_le_from(a, b, 0)
}

/// Whether every fraction of the list has a denominator above zero.
pub open spec fn proper(list: Seq<Fraction>) -> bool {
    forall|i: int| 0 <= i < list.len() ==> (#[trigger] list[i]).denominator > 0
}

/// Of three fractions with denominators above zero, where the first is at
/// most the second and the second at most the third, the first is at most
/// the third; and it is smaller where one of the two steps is.
pub proof fn lemma_fractions_chain(a: Fraction, b: Fraction, c: Fraction)
    requires
        a.denominator > 0,
        b.denominator > 0,
        c.denominator > 0,
        !b.lt(a),
        !c.lt(b),
    ensures
        !c.lt(a),
        a.lt(b) || b.lt(c) ==> a.lt(c),
{
    let an = a.numerator;
    let ad = a.denominator;
    let bn = b.numerator;
    let bd = b.denominator;
    let cn = c.numerator;
    let cd = c.denominator;
    assert(an * bd <= bn * ad);
    assert(bn * cd <= cn * bd);
    assert((an * bd) * cd <= (bn * ad) * cd) by (nonlinear_arith)
        requires
            an * bd <= bn * ad,
            cd > 0,
    ;
    assert((bn * cd) * ad <= (cn * bd) * ad) by (nonlinear_arith)
        requires
            bn * cd <= cn * bd,
            ad > 0,
    ;
    assert((an * bd) * cd == (an * cd) * bd && (bn * ad) * cd == (bn * cd) * ad && (cn * bd) * ad
        == (cn * ad) * bd) by (nonlinear_arith);
    assert((an * cd) * bd <= (cn * ad) * bd);
    assert(an * cd <= cn * ad) by (nonlinear_arith)
        requires
            (an * cd) * bd <= (cn * ad) * bd,
            bd > 0,
    ;
    if a.lt(b) || b.lt(c) {
        if a.lt(b) {
            assert((an * bd) * cd < (bn * ad) * cd) by (nonlinear_arith)
                requires
                    an * bd < bn * ad,
                    cd > 0,
            ;
        } else {
            assert((bn * cd) * ad < (cn * bd) * ad) by (nonlinear_arith)
                requires
                    bn * cd < cn * bd,
                    ad > 0,
            ;
        }
        assert((an * cd) * bd < (cn * ad) * bd);
        assert(an * cd < cn * ad) by (nonlinear_arith)
            requires
                (an * cd) * bd < (cn * ad) * bd,
                bd > 0,
        ;
    }
}

/// Of two lists, one comes before the other or is equal to it.
pub proof fn lemma_fractions_le_is_total(a: Seq<Fraction>, b: Seq<Fraction>, from: int)
    requires
        0 <= from,
    ensures
        fractions_le_from(a, b, from) || fractions_le_from(b, a, from),
    decreases a.len() - from,
{
    if from < a.len() && from < b.len() && !a[from].lt(b[from]) && !b[from].lt(a[from]) {
        lemma_fractions_le_is_total(a, b, from + 1);
    }
}

/// The order of a dictionary goes on: a list that comes before a second,
/// which comes before a third, comes before the third.
pub proof fn lemma_fractions_le_goes_on(
    a: Seq<Fraction>,
    b: Seq<Fraction>,
    c: Seq<Fraction>,
    from: int,
)
    requires
        0 <= from,
        proper(a),
        proper(b),
        proper(c),
        fractions_le_from(a, b, from),
        fractions_le_from(b, c, from),
    ensures
        fractions_le_from(a, c, from),
    decreases a.len() - from,
{
    if from < a.len() {
        assert(from < b.len());
        assert(from < c.len());
        lemma_fractions_chain(a[from], b[from], c[from]);
        if !a[from].lt(c[from]) {
            lemma_fractions_le_goes_on(a, b, c, from + 1);
        }
    }
}

/// The values of a list of priorities.
pub open spec fn fractions(priorities: Seq<Priority>) -> Seq<Fraction> {
    priorities.map_values(|priority: Priority| priority@)
}

/// Whether the list `a` of priorities comes before `b`, or is equal to it,
/// in the order of a dictionary.
pub fn priorities_le(a: &Vec<Priority>, b: &Vec<Priority>) -> (le: bool)
    ensures
        le == fractions_le(fractions(a@), fractions(b@)),
{
    let mut i: usize = 0;
    while i < a.len()
        invariant
            i <= a@.len(),
            fractions_le(fractions(a@), fractions(b@)) == fractions_le_from(
                fractions(a@),
                fractions(b@),
                i as int,
            ),
        decreases a@.len() - i,
    {
        if i >= b.len() {
            return false;
        }
        if a[i].lt(&b[i]) {
            return true;
        }
        if b[i].lt(&a[i]) {
            return false;
        }
        i += 1;
    }
    true
}

/// A copy of a list of priorities.
pub fn copy_priorities(priorities: &Vec<Priority>) -> (copy: Vec<Priority>)
    ensures
        copy@ == priorities@,
{
    let mut copy: Vec<Priority> = Vec::new();
    let mut i: usize = 0;
    while i < priorities.len()
        invariant
            i <= priorities@.len(),
            copy@ == priorities@.take(i as int),
        decreases priorities@.len() - i,
    {
        copy.push(priorities[i]);
        assert(copy@ =~= priorities@.take(i + 1));
        i += 1;
    }
    assert(priorities@.take(priorities@.len() as int) =~= priorities@);
    copy
}

} // verus!
