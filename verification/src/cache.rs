//! A store that hands out a fresh handle for every value put into it and
//! never issues the same handle twice.

use std::collections::hash_map::Entry;
use std::collections::HashMap;
use std::marker::PhantomData;
use crate::text::decimal;
use crate::text::decimal_digits;
use crate::text::has_nul;
use crate::text::join;
use crate::text::lemma_digits_have_no_nul;
use crate::text::lemma_has_nul_of_pieces;
use vstd::prelude::*;
use vstd::std_specs::iter::IteratorSpec;

verus! {

/// The text that stands for the handle with `index` in names and messages.
pub open spec fn handle_text(index: u64) -> Seq<char> {
    "Handle { index: "@ + decimal_digits(index as nat) + " }"@
}

/// The text of a handle holds no NUL character.
pub proof fn lemma_handle_text_has_no_nul(index: u64)
    ensures
        !has_nul(handle_text(index)),
{
    reveal_strlit("Handle { index: ");
    reveal_strlit(" }");
    lemma_digits_have_no_nul(index as nat);
    lemma_has_nul_of_pieces("Handle { index: "@, decimal_digits(index as nat));
    lemma_has_nul_of_pieces("Handle { index: "@ + decimal_digits(index as nat), " }"@);
}

/// Writes the handle with `index` as text.
pub fn make_handle_text(index: u64) -> (text: String)
    ensures
        text@ == handle_text(index),
{
    let digits = decimal(index);
    let head = join("Handle { index: ", digits.as_str());
    join(head.as_str(), " }")
}

/// A token that points at a value of type `T` inside a [`Cache`]. Two handles
/// are equal exactly when their indices are equal.
#[derive(Debug, Hash)]
pub struct Handle<T> {
    index: u64,
    phantom_data: PhantomData<T>,
}

impl<T> View for Handle<T> {
    type V = u64;

    closed spec fn view(&self) -> u64 {
        self.index
    }
}

impl<T> Handle<T> {
    /// The handle with the given index.
    pub fn new(index: u64) -> (handle: Self)
        ensures
            handle@ == index,
    {
        Self { index, phantom_data: PhantomData }
    }

    /// The index that identifies the handle.
    pub fn index(&self) -> (index: u64)
        ensures
            index == self@,
    {
        self.index
    }

    /// Handles with one index are one value.
    pub proof fn lemma_equal_by_index(self, other: Self)
        ensures
            (self == other) <==> (self@ == other@),
    {
    }
}

impl<T> Clone for Handle<T> {
    fn clone(&self) -> (copy: Self)
        ensures
            copy == *self,
    {
        *self
    }
}

impl<T> Copy for Handle<T> {

}

impl<T> PartialEq for Handle<T> {
    fn eq(&self, other: &Self) -> (equal: bool) {
        self.index == other.index
    }
}

impl<T> Eq for Handle<T> {

}

impl<T> vstd::std_specs::cmp::PartialEqSpecImpl for Handle<T> {
    open spec fn obeys_eq_spec() -> bool {
        true
    }

    open spec fn eq_spec(&self, other: &Self) -> bool {
        self@ == other@
    }
}

/// The mathematical value of a [`Cache`]: the live entries by handle index,
/// and the index of the handle issued last (zero before the first insert).
pub struct CacheView<T> {
    pub entries: Map<u64, T>,
    pub issued: u64,
}

impl<T> CacheView<T> {
    /// Every live entry sits under an index that has been issued.
    pub open spec fn well_formed(self) -> bool {
        forall|index: u64| #[trigger]
            self.entries.contains_key(index) ==> 1 <= index <= self.issued
    }

    /// The cache before anything was inserted.
    pub open spec fn empty() -> Self {
        CacheView { entries: Map::empty(), issued: 0 }
    }

    /// Whether one more handle can be issued.
    pub open spec fn has_room(self) -> bool {
        self.issued < u64::MAX
    }

    /// The index that the next insert returns.
    pub open spec fn next_index(self) -> u64 {
        (self.issued + 1) as u64
    }

    /// The cache after `value` was inserted under the next index.
    pub open spec fn insert(self, value: T) -> Self {
        CacheView {
            entries: self.entries.insert(self.next_index(), value),
            issued: self.next_index(),
        }
    }

    /// The cache after the entry under `index` was taken out.
    pub open spec fn remove(self, index: u64) -> Self {
        CacheView { entries: self.entries.remove(index), issued: self.issued }
    }

    /// Whether `order` lists the index of every live entry, each once.
    pub open spec fn walked_by(self, order: Seq<u64>) -> bool {
        &&& forall|i: int| 0 <= i < order.len() ==> self.entries.contains_key(#[trigger] order[i])
        &&& forall|i: int, j: int| 0 <= i < j < order.len() ==> order[i] != order[j]
        &&& forall|index: u64| #[trigger]
            self.entries.contains_key(index) ==> exists|i: int|
                0 <= i < order.len() && #[trigger] order[i] == index
    }

    /// The value under `index`, if the entry is live.
    pub open spec fn get(self, index: u64) -> Option<T> {
        if self.entries.contains_key(index) {
            Some(self.entries[index])
        } else {
            None
        }
    }
}

/// One change made to a cache.
pub enum CacheStep<T> {
    /// A value is inserted.
    Insert(T),
    /// The entry under an index is removed.
    Remove(u64),
}

impl<T> CacheView<T> {
    /// The cache after one change.
    pub open spec fn step(self, change: CacheStep<T>) -> Self {
        match change {
            CacheStep::Insert(value) => self.insert(value),
            CacheStep::Remove(index) => self.remove(index),
        }
    }

    /// The cache after a sequence of changes, made in order.
    pub open spec fn run(self, changes: Seq<CacheStep<T>>) -> Self
        decreases changes.len(),
    {
        if changes.len() == 0 {
            self
        } else {
            self.run(changes.drop_last()).step(changes.last())
        }
    }

    /// Every insert among `changes` finds room for one more handle.
    pub open spec fn can_run(self, changes: Seq<CacheStep<T>>) -> bool {
        forall|k: int|
            0 <= k < changes.len() && (#[trigger] changes[k]) is Insert ==> self.run(
                changes.take(k),
            ).has_room()
    }

    /// Changes never lower the index issued last, and they keep a
    /// well-formed cache well-formed.
    pub proof fn lemma_run_grows(self, changes: Seq<CacheStep<T>>)
        requires
            self.can_run(changes),
        ensures
            self.issued <= self.run(changes).issued,
            self.well_formed() ==> self.run(changes).well_formed(),
        decreases changes.len(),
    {
        if changes.len() > 0 {
            let head = changes.drop_last();
            assert forall|k: int| 0 <= k < head.len() && (#[trigger] head[k]) is Insert implies self.run(
                head.take(k),
            ).has_room() by {
                assert(head.take(k) =~= changes.take(k));
                assert(changes[k] is Insert);
            }
            self.lemma_run_grows(head);
            assert(changes.take(changes.len() - 1) =~= head);
            if changes.last() is Insert {
                assert(changes[changes.len() - 1] is Insert);
            }
        }
    }

    /// Handles grow strictly: the handle returned by a later insert has a
    /// greater index than the handle returned by any earlier insert, whatever
    /// inserts and removals lie between the two.
    pub proof fn lemma_handles_strictly_increase(
        self,
        changes: Seq<CacheStep<T>>,
        earlier: int,
        later: int,
    )
        requires
            self.can_run(changes),
            0 <= earlier < later < changes.len(),
            changes[earlier] is Insert,
            changes[later] is Insert,
        ensures
            self.run(changes.take(earlier)).next_index() < self.run(
                changes.take(later),
            ).next_index(),
    {
        let before = changes.take(earlier);
        let upto = changes.take(earlier + 1);
        let between = changes.subrange(earlier + 1, later);
        let state = self.run(upto);
        // The state after the earlier insert has issued its handle.
        assert(upto.drop_last() =~= before);
        assert(upto.last() == changes[earlier]);
        assert(self.run(before).has_room());
        assert(state.issued == self.run(before).next_index());
        // What follows up to the later insert never lowers the index.
        self.lemma_run_append(upto, between);
        assert(upto + between =~= changes.take(later));
        assert forall|k: int| 0 <= k < between.len() && (#[trigger] between[k]) is Insert implies state.run(
            between.take(k),
        ).has_room() by {
            self.lemma_run_append(upto, between.take(k));
            assert(upto + between.take(k) =~= changes.take(earlier + 1 + k));
            assert(changes[earlier + 1 + k] is Insert);
        }
        state.lemma_run_grows(between);
        assert(self.run(changes.take(later)).has_room());
    }

    /// Running two sequences of changes one after the other is running their
    /// concatenation.
    pub proof fn lemma_run_append(self, first: Seq<CacheStep<T>>, second: Seq<CacheStep<T>>)
        ensures
            self.run(first + second) == self.run(first).run(second),
        decreases second.len(),
    {
        if second.len() == 0 {
            assert(first + second =~= first);
        } else {
            self.lemma_run_append(first, second.drop_last());
            assert((first + second).drop_last() =~= first + second.drop_last());
            assert((first + second).last() == second.last());
        }
    }

    /// A removed handle stays dead: once the entry under an issued index has
    /// been removed, no sequence of later inserts and removals brings an
    /// entry back under that index.
    pub proof fn lemma_removed_handle_stays_absent(
        self,
        index: u64,
        changes: Seq<CacheStep<T>>,
    )
        requires
            index <= self.issued,
            self.remove(index).can_run(changes),
        ensures
            self.remove(index).run(changes).get(index) is None,
            index <= self.remove(index).run(changes).issued,
        decreases changes.len(),
    {
        let start = self.remove(index);
        if changes.len() > 0 {
            let head = changes.drop_last();
            assert forall|k: int| 0 <= k < head.len() && (#[trigger] head[k]) is Insert implies start.run(
                head.take(k),
            ).has_room() by {
                assert(head.take(k) =~= changes.take(k));
                assert(changes[k] is Insert);
            }
            self.lemma_removed_handle_stays_absent(index, head);
            assert(changes.take(changes.len() - 1) =~= head);
            if changes.last() is Insert {
                assert(changes[changes.len() - 1] is Insert);
            }
        }
    }
}

/// A store of values of type `T`, each reached through the handle that its
/// insertion returned. Indices only ever grow: a removed entry's handle is
/// never issued again.
pub struct Cache<T> {
    data: HashMap<u64, T>,
    prev_index: u64,
}

impl<T> View for Cache<T> {
    type V = CacheView<T>;

    closed spec fn view(&self) -> CacheView<T> {
        CacheView { entries: self.data@, issued: self.prev_index }
    }
}

impl<T> Cache<T> {
    /// An empty cache.
    pub fn new() -> (cache: Self)
        ensures
            cache@ == CacheView::<T>::empty(),
            cache@.well_formed(),
            cache@.entries.dom().finite(),
    {
        broadcast use vstd::std_specs::hash::group_hash_axioms;

        Self { data: HashMap::new(), prev_index: 0 }
    }

    /// Stores `value` and returns its handle, whose index is one more than
    /// that of the handle issued before it.
    pub fn insert(&mut self, value: T) -> (handle: Handle<T>)
        requires
            old(self)@.well_formed(),
            old(self)@.has_room(),
        ensures
            handle@ == old(self)@.next_index(),
            final(self)@ == old(self)@.insert(value),
            !old(self)@.entries.contains_key(handle@),
            final(self)@.well_formed(),
            final(self)@.entries.dom().finite(),
            final(self)@.entries.len() == old(self)@.entries.len() + 1,
    {
        broadcast use vstd::std_specs::hash::group_hash_axioms;

        self.prev_index += 1;
        let handle = Handle::new(self.prev_index);
        self.data.insert(self.prev_index, value);
        handle
    }

    /// Takes the value under `handle` out of the cache. Returns `None` where
    /// the handle is stale or was never issued by this cache.
    pub fn remove(&mut self, handle: Handle<T>) -> (value: Option<T>)
        ensures
            value == old(self)@.get(handle@),
            final(self)@ == old(self)@.remove(handle@),
            old(self)@.well_formed() ==> final(self)@.well_formed(),
            final(self)@.entries.dom().finite(),
    {
        broadcast use vstd::std_specs::hash::group_hash_axioms;

        let key = handle.index;
        self.data.remove(&key)
    }

    /// The value under `handle`, or `None` where the handle is stale or was
    /// never issued by this cache.
    pub fn get(&self, handle: Handle<T>) -> (value: Option<&T>)
        ensures
            match value {
                Some(v) => self@.get(handle@) == Some(*v),
                None => self@.get(handle@) is None,
            },
    {
        broadcast use vstd::std_specs::hash::group_hash_axioms;

        let key = handle.index;
        self.data.get(&key)
    }

    /// Whether `handle` points at a live entry.
    pub fn contains(&self, handle: Handle<T>) -> (live: bool)
        ensures
            live == self@.entries.contains_key(handle@),
    {
        broadcast use vstd::std_specs::hash::group_hash_axioms;

        let key = handle.index;
        self.data.contains_key(&key)
    }

    /// Mutable access to the value under `handle`, or `None` where the handle
    /// is stale or was never issued by this cache. Whatever is written
    /// through the reference replaces the value; nothing else changes.
    pub fn get_mut(&mut self, handle: Handle<T>) -> (value: Option<&mut T>)
        ensures
            match value {
                Some(v) => old(self)@.get(handle@) == Some(*v) && final(self)@ == (CacheView {
                    entries: old(self)@.entries.insert(handle@, *final(v)),
                    issued: old(self)@.issued,
                }),
                None => old(self)@.get(handle@) is None && final(self)@ == old(self)@,
            },
            old(self)@.entries.dom().finite(),
            final(self)@.entries.dom().finite(),
    {
        broadcast use vstd::std_specs::hash::group_hash_axioms;

        let key = handle.index;
        if !self.data.contains_key(&key) {
            return None;
        }
        match self.data.entry(key) {
            Entry::Occupied(entry) => Some(entry.into_mut()),
            Entry::Vacant(_) => None,
        }
    }

    /// The live entries, each with its handle: every entry once, in no
    /// particular order.
    pub fn iter(&self) -> (pairs: Vec<(Handle<T>, &T)>)
        ensures
            pairs@.len() == self@.entries.len(),
            forall|i: int|
                0 <= i < pairs@.len() ==> self@.get(#[trigger] pairs@[i].0@) == Some(*pairs@[i].1),
            forall|i: int, j: int|
                0 <= i < j < pairs@.len() ==> pairs@[i].0@ != pairs@[j].0@,
            forall|index: u64| #[trigger]
                self@.entries.contains_key(index) ==> exists|i: int|
                    0 <= i < pairs@.len() && #[trigger] pairs@[i].0@ == index,
    {
        broadcast use vstd::std_specs::hash::group_hash_axioms;

        let mut pairs: Vec<(Handle<T>, &T)> = Vec::new();
        let ghost walk = vstd::std_specs::hash::spec_hash_map_iter(&self.data).remaining();
        for pair in it: self.data.iter()
            invariant
                it.seq() == walk,
                pairs@.len() == it.index(),
                forall|i: int|
                    0 <= i < pairs@.len() ==> (#[trigger] pairs@[i]).0@ == *walk[i].0
                        && pairs@[i].1 == walk[i].1,
        {
            pairs.push((Handle::new(*pair.0), pair.1));
        }
        proof {
            assert forall|i: int, j: int| 0 <= i < j < pairs@.len() implies pairs@[i].0@
                != pairs@[j].0@ by {
                assert(self.data@[*walk[i].0] == *walk[i].1);
                assert(self.data@[*walk[j].0] == *walk[j].1);
                if pairs@[i].0@ == pairs@[j].0@ {
                    assert(walk[i] == walk[j]);
                }
            }
            assert forall|index: u64| #[trigger]
                self@.entries.contains_key(index) implies exists|i: int|
                0 <= i < pairs@.len() && #[trigger] pairs@[i].0@ == index by {
                assert(walk.contains((&index, &self.data@[index])));
                let i = choose|i: int| 0 <= i < walk.len() && walk[i] == (&index, &self.data@[index]);
                assert(pairs@[i].0@ == index);
            }
        }
        pairs
    }

    /// Mutable access to the live entries, each with its handle: every
    /// entry once, in no particular order. The entries are walked with
    /// `HashMap::iter_mut` of the standard library. The contract states what
    /// the documentation of that function promises: every entry of the map
    /// is visited once, the references point at the values in the map, and
    /// what is written through a reference replaces the value under its
    /// key, while the keys stay as they are.
    #[verifier::external_body]
    pub fn iter_mut(&mut self) -> (pairs: Vec<(Handle<T>, &mut T)>)
        ensures
            pairs@.len() == old(self)@.entries.len(),
            forall|i: int|
                0 <= i < pairs@.len() ==> old(self)@.get(#[trigger] pairs@[i].0@) == Some(
                    *pairs@[i].1,
                ),
            forall|i: int, j: int|
                0 <= i < j < pairs@.len() ==> pairs@[i].0@ != pairs@[j].0@,
            forall|index: u64| #[trigger]
                old(self)@.entries.contains_key(index) ==> exists|i: int|
                    0 <= i < pairs@.len() && #[trigger] pairs@[i].0@ == index,
            final(self)@.issued == old(self)@.issued,
            final(self)@.entries.dom() == old(self)@.entries.dom(),
            forall|i: int|
                0 <= i < pairs@.len() ==> final(self)@.entries[#[trigger] pairs@[i].0@]
                    == *final(pairs@[i].1),
    {
        self.data.iter_mut().map(|(index, value)| (Handle::new(*index), value)).collect()
    }

    /// The handles of the live entries: every one once, in no particular
    /// order.
    pub fn handles(&self) -> (handles: Vec<Handle<T>>)
        ensures
            handles@.len() == self@.entries.len(),
            forall|i: int|
                0 <= i < handles@.len() ==> self@.entries.contains_key(#[trigger] handles@[i]@),
            forall|i: int, j: int| 0 <= i < j < handles@.len() ==> handles@[i]@ != handles@[j]@,
            forall|index: u64| #[trigger]
                self@.entries.contains_key(index) ==> exists|i: int|
                    0 <= i < handles@.len() && #[trigger] handles@[i]@ == index,
    {
        let pairs = self.iter();
        let mut handles: Vec<Handle<T>> = Vec::new();
        let mut i: usize = 0;
        while i < pairs.len()
            invariant
                i <= pairs@.len(),
                handles@.len() == i,
                forall|k: int| 0 <= k < i ==> (#[trigger] handles@[k])@ == pairs@[k].0@,
            decreases pairs@.len() - i,
        {
            handles.push(pairs[i].0);
            i += 1;
        }
        proof {
            assert forall|index: u64| #[trigger]
                self@.entries.contains_key(index) implies exists|i: int|
                0 <= i < handles@.len() && #[trigger] handles@[i]@ == index by {
                let i = choose|i: int| 0 <= i < pairs@.len() && #[trigger] pairs@[i].0@ == index;
                assert(handles@[i]@ == index);
            }
            assert forall|i: int| 0 <= i < handles@.len() implies self@.entries.contains_key(
                #[trigger] handles@[i]@,
            ) by {
                assert(self@.get(pairs@[i].0@) == Some(*pairs@[i].1));
            }
        }
        handles
    }

    /// The index of the handle issued last, and zero before the first
    /// insert.
    pub fn issued(&self) -> (issued: u64)
        ensures
            issued == self@.issued,
    {
        self.prev_index
    }

    /// The number of live entries.
    pub fn len(&self) -> (count: usize)
        ensures
            count == self@.entries.len(),
            self@.entries.dom().finite(),
    {
        broadcast use vstd::std_specs::hash::group_hash_axioms;

        self.data.len()
    }
}

} // verus!
