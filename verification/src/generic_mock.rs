//! A mock over a plain queue of expectations: one script, one cursor, no
//! owners.

use vstd::prelude::*;
use crate::error::MockError;

verus! {

/// The mathematical value of a [`GenericMock`].
#[verifier::ext_equal]
pub struct QueueView<T> {
    /// The expectations, in the order in which they are to be met.
    pub entries: Seq<T>,
    /// The position of the next expectation to consume.
    pub cursor: nat,
}

impl<T> QueueView<T> {
    /// A queue that holds `entries`, none of them consumed.
    pub open spec fn seeded(entries: Seq<T>) -> QueueView<T> {
        QueueView { entries, cursor: 0 }
    }

    /// The cursor lies within the queue.
    pub open spec fn wf(self) -> bool {
        self.cursor <= self.entries.len()
    }

    /// Every expectation was consumed.
    pub open spec fn exhausted(self) -> bool {
        self.cursor >= self.entries.len()
    }

    /// The number of expectations that were not consumed yet.
    pub open spec fn remaining(self) -> nat {
        (self.entries.len() - self.cursor) as nat
    }

    /// The expectation that the next call consumes.
    pub open spec fn next_entry(self) -> T
        recommends
            !self.exhausted(),
    {
        self.entries[self.cursor as int]
    }

    /// The queue after the next expectation was consumed.
    pub open spec fn advance(self) -> QueueView<T> {
        QueueView { cursor: self.cursor + 1, ..self }
    }

    /// The queue after any call: the next expectation is consumed, whether
    /// or not the call succeeds, unless there is none.
    pub open spec fn after_call(self) -> QueueView<T> {
        if self.exhausted() {
            self
        } else {
            self.advance()
        }
    }
}

/// A queue of expectations that are consumed first in, first out.
#[derive(Debug)]
pub struct GenericMock<T> {
    cursor: usize,
    expectations: Vec<T>,
}

impl<T> View for GenericMock<T> {
    type V = QueueView<T>;

    closed spec fn view(&self) -> QueueView<T> {
        QueueView { entries: self.expectations@, cursor: self.cursor as nat }
    }
}

impl<T> GenericMock<T> {
    /// A mock that expects `expectations`, in this order.
    pub fn new(expectations: Vec<T>) -> (res: Self)
        ensures
            res@ == QueueView::seeded(expectations@),
            res@.wf(),
    {
        GenericMock { cursor: 0, expectations }
    }

    /// The completion check: succeeds exactly when every expectation was
    /// consumed, and else reports how many were not.
    pub fn done(&self) -> (res: Result<(), MockError>)
        ensures
            match res {
                Ok(_) => self@.exhausted(),
                Err(e) => !self@.exhausted() && e == (MockError::IncompleteConsumption {
                    remaining: self@.remaining() as usize,
                }),
            },
    {
        if self.cursor >= self.expectations.len() {
            Ok(())
        } else {
            Err(MockError::IncompleteConsumption { remaining: self.expectations.len() - self.cursor })
        }
    }
}

impl<T: Clone> GenericMock<T> {
    /// Consumes the next expectation and hands out a clone of it; `None`, and
    /// nothing changes, when every expectation was consumed already.
    pub fn next(&mut self) -> (res: Option<T>)
        ensures
            final(self)@ == old(self)@.after_call(),
            old(self)@.wf() ==> final(self)@.wf(),
            match res {
                Some(expectation) => !old(self)@.exhausted() && cloned(
                    old(self)@.next_entry(),
                    expectation,
                ),
                None => old(self)@.exhausted(),
            },
    {
        if self.cursor < self.expectations.len() {
            let expectation = self.expectations[self.cursor].clone();
            self.cursor = self.cursor + 1;
            Some(expectation)
        } else {
            None
        }
    }
}

} // verus!
