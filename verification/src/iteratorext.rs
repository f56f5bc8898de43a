//! Turning a list of results into the list of their values, or into the
//! first error among them.

use crate::error::FennecError;
use vstd::prelude::*;

verus! {

/// The values of a list of results that all succeeded, handed out one by
/// one in the order of the list.
pub struct IteratorOk<TOk> {
    /// The values that are still to come, the next one last.
    items: Vec<TOk>,
}

impl<TOk> View for IteratorOk<TOk> {
    type V = Seq<TOk>;

    /// The values that are still to come, the next one first.
    closed spec fn view(&self) -> Seq<TOk> {
        self.items@.reverse()
    }
}

impl<TOk> IteratorOk<TOk> {
    /// Hands the values of `items` out in their order.
    pub fn new(items: Vec<TOk>) -> (iterator: Self)
        ensures
            iterator@ == items@,
    {
        let mut items = items;
        let ghost all = items@;
        let mut reversed: Vec<TOk> = Vec::new();
        while items.len() > 0
            invariant
                items@.len() <= all.len(),
                items@ == all.take(items@.len() as int),
                reversed@ == all.skip(items@.len() as int).reverse(),
            decreases items@.len(),
        {
            let ghost before = items@;
            let item = items.pop().unwrap();
            reversed.push(item);
            assert(reversed@ =~= all.skip(items@.len() as int).reverse());
        }
        assert(reversed@.reverse() =~= all);
        Self { items: reversed }
    }

    /// The next value, or `None` when all have been handed out.
    pub fn next(&mut self) -> (item: Option<TOk>)
        ensures
            match item {
                Some(item) => old(self)@.len() > 0 && item == old(self)@[0] && final(self)@
                    == old(self)@.drop_first(),
                None => old(self)@.len() == 0 && final(self)@ == old(self)@,
            },
    {
        let ghost before = self.items@;
        let item = self.items.pop();
        proof {
            if before.len() > 0 {
                assert(self.items@.reverse() =~= before.reverse().drop_first());
            }
        }
        item
    }

    /// The values that are still to come, in their order.
    pub fn collect(self) -> (items: Vec<TOk>)
        ensures
            items@ == self@,
    {
        let ghost all = self@;
        let mut remaining = self;
        let mut items: Vec<TOk> = Vec::new();
        assert(items@ + remaining@ =~= all);
        loop
            invariant
                all == self@,
                items@ + remaining@ == all,
            decreases remaining@.len(),
        {
            let ghost before = remaining@;
            match remaining.next() {
                Some(item) => {
                    items.push(item);
                    assert(items@ + remaining@ =~= (items@.drop_last() + before));
                },
                None => {
                    assert(items@ + remaining@ =~= items@);
                    return items;
                },
            }
        }
    }
}

/// The index of the first of the results from `from` on that is an error.
pub open spec fn first_error<TOk>(results: Seq<Result<TOk, FennecError>>, from: int) -> Option<int>
    decreases results.len() - from,
{
    if from < 0 || from >= results.len() {
        None
    } else if results[from] is Err {
        Some(from)
    } else {
        first_error(results, from + 1)
    }
}

/// The values of a list of results that all succeeded.
pub open spec fn values<TOk>(results: Seq<Result<TOk, FennecError>>) -> Seq<TOk> {
    Seq::new(results.len(), |i: int| results[i]->Ok_0)
}

/// Lists of results that can be turned into the list of their values.
pub trait IteratorResults<TOk> {
    /// The results of the list, in order.
    spec fn results(&self) -> Seq<Result<TOk, FennecError>>;

    /// Turns the list into the list of its values. Where a result is an
    /// error, the first error of the list is returned in place of the
    /// values.
    fn handle_results(self) -> (result: Result<IteratorOk<TOk>, FennecError>)
        ensures
            match result {
                Ok(iterator) => first_error(self.results(), 0) is None && iterator@ == values(
                    self.results(),
                ),
                Err(error) => first_error(self.results(), 0) matches Some(index) && self.results()[index]
                    == Err::<TOk, FennecError>(error),
            },
    ;
}

impl<TOk> IteratorResults<TOk> for Vec<Result<TOk, FennecError>> {
    open spec fn results(&self) -> Seq<Result<TOk, FennecError>> {
        self@
    }

    fn handle_results(self) -> (result: Result<IteratorOk<TOk>, FennecError>) {
        let ghost all = self@;
        let mut items: Vec<TOk> = Vec::new();
        for item in it: self
            invariant
                it.seq() == all,
                first_error(all, 0) == first_error(all, it.index()),
                items@ == Seq::new(it.index() as nat, |i: int| all[i]->Ok_0),
        {
            match item {
                Ok(value) => {
                    items.push(value);
                    assert(items@ =~= Seq::new((it.index() + 1) as nat, |i: int| all[i]->Ok_0));
                },
                Err(error) => {
                    return Err(error);
                },
            }
        }
        assert(items@ =~= values(all));
        Ok(IteratorOk::new(items))
    }
}

} // verus!
