//! The tracker: one ordered script of expectations and the cursor into it.

use vstd::prelude::*;
use crate::error::MockError;
use crate::expectation::{Expectation, ExpectationView};
use crate::mock::Mock;

verus! {

/// One entry of a script: an expectation and the index of the handle that it
/// belongs to.
#[verifier::ext_equal]
pub struct QueueEntry {
    pub owner: usize,
    pub expectation: ExpectationView,
}

/// The mathematical value of an [`ExpectationTracker`].
#[verifier::ext_equal]
pub struct TrackerView {
    /// The script, in the order in which it was written.
    pub entries: Seq<QueueEntry>,
    /// The position of the next entry to consume.
    pub cursor: nat,
    /// The number of handles that were derived so far.
    pub mock_count: nat,
}

impl TrackerView {
    /// A tracker with no script and no handle.
    pub open spec fn fresh() -> TrackerView {
        TrackerView { entries: Seq::empty(), cursor: 0, mock_count: 0 }
    }

    /// The cursor lies within the script.
    pub open spec fn wf(self) -> bool {
        self.cursor <= self.entries.len()
    }

    /// Every entry was consumed.
    pub open spec fn exhausted(self) -> bool {
        self.cursor >= self.entries.len()
    }

    /// The number of entries that were not consumed yet.
    pub open spec fn remaining(self) -> nat {
        (self.entries.len() - self.cursor) as nat
    }

    /// The entry that the next call consumes.
    pub open spec fn next_entry(self) -> QueueEntry
        recommends
            !self.exhausted(),
    {
        self.entries[self.cursor as int]
    }

    /// The tracker after one more entry was written at the tail.
    pub open spec fn enqueue(self, owner: usize, expectation: ExpectationView) -> TrackerView {
        TrackerView { entries: self.entries.push(QueueEntry { owner, expectation }), ..self }
    }

    /// The tracker after the next entry was consumed.
    pub open spec fn advance(self) -> TrackerView {
        TrackerView { cursor: self.cursor + 1, ..self }
    }

    /// The tracker after one more handle was derived.
    pub open spec fn with_new_mock(self) -> TrackerView {
        TrackerView { mock_count: self.mock_count + 1, ..self }
    }

    /// The tracker after any call on any handle: the next entry is consumed,
    /// whether or not the call succeeds, unless there is none.
    pub open spec fn after_call(self) -> TrackerView {
        if self.exhausted() {
            self
        } else {
            self.advance()
        }
    }
}

/// The script of one scenario and how far it was followed.
///
/// Entries are consumed strictly in the order in which they were written,
/// whichever handle they belong to.
#[derive(Debug)]
pub struct ExpectationTracker {
    cursor: usize,
    expectations: Vec<(usize, Expectation)>,
    mock_index: usize,
}

impl View for ExpectationTracker {
    type V = TrackerView;

    closed spec fn view(&self) -> TrackerView {
        TrackerView {
            entries: Seq::new(
                self.expectations@.len(),
                |i: int|
                    QueueEntry {
                        owner: self.expectations@[i].0,
                        expectation: self.expectations@[i].1@,
                    },
            ),
            cursor: self.cursor as nat,
            mock_count: self.mock_index as nat,
        }
    }
}

impl ExpectationTracker {
    /// A tracker with an empty script, the cursor at its start, and no handle.
    pub fn new() -> (res: Self)
        ensures
            res@ == TrackerView::fresh(),
            res@.wf(),
    {
        ExpectationTracker { cursor: 0, expectations: Vec::new(), mock_index: 0 }
    }

    /// Writes `expectation` at the tail of the script, for the handle `mock`.
    pub fn expect(&mut self, mock: &Mock, expectation: Expectation)
        ensures
            final(self)@ == old(self)@.enqueue(mock.get_index(), expectation@),
            old(self)@.wf() ==> final(self)@.wf(),
    {
        self.expectations.push((mock.get_index(), expectation));
    }

    /// Derives a handle. The first one has index 0, and each further one the
    /// index after that of the one before.
    pub fn mock(&mut self) -> (res: Mock)
        requires
            old(self)@.mock_count < usize::MAX,
        ensures
            res.get_index() == old(self)@.mock_count,
            final(self)@ == old(self)@.with_new_mock(),
            old(self)@.wf() ==> final(self)@.wf(),
    {
        let index = self.mock_index;
        self.mock_index = index + 1;
        Mock::new(index)
    }

    /// The completion check: succeeds exactly when every entry of the script
    /// was consumed, and else reports how many were not.
    pub fn done(&self) -> (res: Result<(), MockError>)
        ensures
            match res {
                Ok(_) => self@.exhausted(),
                Err(e) => !self@.exhausted() && e == (MockError::IncompleteConsumption {
                    remaining: self@.remaining() as usize,
                }),
            },
    {
        if self.cursor >= self.expectations.len() {
            Ok(())
        } else {
            Err(MockError::IncompleteConsumption { remaining: self.expectations.len() - self.cursor })
        }
    }

    /// Consumes the next entry of the script and hands it out; `None`, and
    /// nothing changes, when every entry was consumed already.
    pub fn next(&mut self) -> (res: Option<(usize, Expectation)>)
        ensures
            final(self)@ == old(self)@.after_call(),
            old(self)@.wf() ==> final(self)@.wf(),
            match res {
                Some(entry) => {
                    &&& !old(self)@.exhausted()
                    &&& entry.0 == old(self)@.next_entry().owner
                    &&& entry.1@ == old(self)@.next_entry().expectation
                },
                None => old(self)@.exhausted(),
            },
    {
        if self.cursor < self.expectations.len() {
            let owner = self.expectations[self.cursor].0;
            let expectation = self.expectations[self.cursor].1.clone();
            self.cursor = self.cursor + 1;
            Some((owner, expectation))
        } else {
            None
        }
    }

    /// The number of entries in the script.
    pub fn len(&self) -> (res: usize)
        ensures
            res == self@.entries.len(),
    {
        self.expectations.len()
    }

    /// The number of entries that were consumed.
    pub fn consumed(&self) -> (res: usize)
        ensures
            res == self@.cursor,
    {
        self.cursor
    }

    /// The number of handles that were derived.
    pub fn mock_count(&self) -> (res: usize)
        ensures
            res == self@.mock_count,
    {
        self.mock_index
    }
}

} // verus!
