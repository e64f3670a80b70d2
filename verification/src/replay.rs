//! Whole scenarios: what a sequence of calls does to a tracker, and what
//! holds of every scenario.

use vstd::prelude::*;
use crate::error::MockErrorView;
use crate::expectation::{
    ExpectationView, InputPinExpectation, InterfaceExpectationView, OutputPinExpectation,
};
use crate::call::{Call, Reply};
use crate::mock::outcome;
use crate::tracker::{QueueEntry, TrackerView};

verus! {

/// One step of a scenario: a call, and the owner index of the handle that it
/// is made on.
#[verifier::ext_equal]
pub struct Invocation {
    pub index: usize,
    pub call: Call,
}

/// How a scenario went.
#[verifier::ext_equal]
pub struct Run {
    /// The tracker when the scenario ended.
    pub tracker: TrackerView,
    /// What the calls that succeeded handed back, in order.
    pub replies: Seq<Reply>,
    /// The failure that ended the scenario, if one did.
    pub failure: Option<MockErrorView>,
}

impl Run {
    /// The number of calls that were made: those that succeeded, and the one
    /// that failed if one did.
    pub open spec fn calls_made(self) -> nat {
        if self.failure is Some {
            self.replies.len() + 1
        } else {
            self.replies.len()
        }
    }
}

/// Makes the calls of `calls` in order on `tracker`. The first call that
/// fails ends the scenario: the calls after it are not made.
pub open spec fn replay(tracker: TrackerView, calls: Seq<Invocation>) -> Run
    decreases calls.len(),
{
    if calls.len() == 0 {
        Run { tracker, replies: Seq::empty(), failure: None }
    } else {
        match outcome(tracker, calls[0].index, calls[0].call) {
            Ok(reply) => {
                let rest = replay(tracker.after_call(), calls.drop_first());
                Run {
                    tracker: rest.tracker,
                    replies: seq![reply] + rest.replies,
                    failure: rest.failure,
                }
            },
            Err(e) => Run {
                tracker: tracker.after_call(),
                replies: Seq::empty(),
                failure: Some(e),
            },
        }
    }
}

/// Whether `invocation` is the call that `entry` expects: it is made on the
/// handle that owns the entry, it is of the operation that the expectation
/// names (either query, for an input expectation), and a packet that is sent
/// is the expected one.
pub open spec fn fits(invocation: Invocation, entry: QueueEntry) -> bool {
    &&& invocation.index == entry.owner
    &&& match invocation.call {
        Call::IsHigh | Call::IsLow => entry.expectation is InputPin,
        Call::SetHigh => entry.expectation == ExpectationView::OutputPin(
            OutputPinExpectation::SetHigh,
        ),
        Call::SetLow => entry.expectation == ExpectationView::OutputPin(
            OutputPinExpectation::SetLow,
        ),
        Call::TrySendPacket(packet) => entry.expectation == ExpectationView::Interface(
            InterfaceExpectationView::SentPacket(packet),
        ),
        Call::TryGetPacket => entry.expectation matches ExpectationView::Interface(
            InterfaceExpectationView::ReceivedPacket(_),
        ),
    }
}

/// What an expectation holds for the call that it expects: the level for a
/// query, the packet for a receive, nothing for a command.
pub open spec fn encoded_reply(call: Call, expectation: ExpectationView) -> Reply {
    match call {
        Call::IsHigh => Reply::Level(
            expectation == ExpectationView::InputPin(InputPinExpectation::IsHigh),
        ),
        Call::IsLow => Reply::Level(
            expectation == ExpectationView::InputPin(InputPinExpectation::IsLow),
        ),
        Call::TryGetPacket => match expectation {
            ExpectationView::Interface(InterfaceExpectationView::ReceivedPacket(packet)) => {
                Reply::Packet(packet)
            },
            _ => Reply::Done,
        },
        _ => Reply::Done,
    }
}

/// The cursor stays within the script: it does so in a fresh tracker, and
/// writing an entry, deriving a handle and making a call all keep it so.
pub proof fn lemma_cursor_stays_within_script(
    tracker: TrackerView,
    owner: usize,
    expectation: ExpectationView,
)
    requires
        tracker.wf(),
    ensures
        TrackerView::fresh().wf(),
        tracker.enqueue(owner, expectation).wf(),
        tracker.with_new_mock().wf(),
        tracker.after_call().wf(),
{
}

/// A call consumes exactly one entry where one is left, whether it succeeds
/// or fails, and changes nothing else; where none is left it changes nothing.
pub proof fn lemma_call_consumes_one_entry(tracker: TrackerView)
    ensures
        tracker.after_call().entries == tracker.entries,
        tracker.after_call().mock_count == tracker.mock_count,
        !tracker.exhausted() ==> tracker.after_call().cursor == tracker.cursor + 1,
        tracker.exhausted() ==> tracker.after_call() == tracker,
{
}

/// Any call on any handle against a script with nothing left fails with
/// `QueueExhausted`, and leaves the tracker as it was.
pub proof fn lemma_call_on_exhausted_script_fails(tracker: TrackerView, index: usize, call: Call)
    requires
        tracker.exhausted(),
    ensures
        outcome(tracker, index, call) == Err::<Reply, MockErrorView>(
            MockErrorView::QueueExhausted { call: call.kind(), index: Some(index) },
        ),
        tracker.after_call() == tracker,
{
}

/// A call on the handle that owns the next entry, of another capability than
/// that entry's expectation, fails with `UnexpectedCall`, which holds the
/// expectation that was found; the entry is consumed, and no other.
pub proof fn lemma_call_of_other_family_is_unexpected(
    tracker: TrackerView,
    index: usize,
    call: Call,
)
    requires
        !tracker.exhausted(),
        tracker.next_entry().owner == index,
        tracker.next_entry().expectation.family() != call.kind().family(),
    ensures
        outcome(tracker, index, call) == Err::<Reply, MockErrorView>(
            MockErrorView::UnexpectedCall {
                call: call.kind(),
                index: Some(index),
                found: tracker.next_entry().expectation,
            },
        ),
        tracker.after_call().cursor == tracker.cursor + 1,
        tracker.after_call().entries == tracker.entries,
{
}

/// A call on a handle that does not own the next entry fails with
/// `OwnershipViolation`, whatever the entry expects and whatever the entries
/// after it hold: an expectation of the calling handle further down the
/// script does not help.
pub proof fn lemma_call_out_of_turn_is_ownership_violation(
    tracker: TrackerView,
    index: usize,
    call: Call,
)
    requires
        !tracker.exhausted(),
        tracker.next_entry().owner != index,
    ensures
        outcome(tracker, index, call) == Err::<Reply, MockErrorView>(
            MockErrorView::OwnershipViolation {
                call: call.kind(),
                index,
                found_index: tracker.next_entry().owner,
            },
        ),
{
}

/// A scenario whose calls are, position by position, the calls that the
/// entries left in the script expect succeeds in every call and hands back
/// exactly what those entries hold, in order. It consumes one entry for each
/// call, so with as many calls as entries were left nothing stays
/// unconsumed.
pub proof fn lemma_fitting_calls_succeed(tracker: TrackerView, calls: Seq<Invocation>)
    requires
        tracker.wf(),
        calls.len() <= tracker.remaining(),
        forall|i: int|
            0 <= i < calls.len() ==> fits(#[trigger] calls[i], tracker.entries[tracker.cursor + i]),
    ensures
        replay(tracker, calls).failure is None,
        replay(tracker, calls).replies.len() == calls.len(),
        forall|i: int|
            0 <= i < calls.len() ==> #[trigger] replay(tracker, calls).replies[i] == encoded_reply(
                calls[i].call,
                tracker.entries[tracker.cursor + i].expectation,
            ),
        replay(tracker, calls).tracker == (TrackerView {
            cursor: tracker.cursor + calls.len(),
            ..tracker
        }),
        calls.len() == tracker.remaining() ==> replay(tracker, calls).tracker.exhausted(),
    decreases calls.len(),
{
    if calls.len() > 0 {
        let rest = calls.drop_first();
        let next = tracker.after_call();
        assert(fits(calls[0], tracker.entries[tracker.cursor as int]));
        assert forall|i: int| 0 <= i < rest.len() implies fits(
            #[trigger] rest[i],
            next.entries[next.cursor + i],
        ) by {
            assert(rest[i] == calls[i + 1]);
            assert(fits(calls[i + 1], tracker.entries[tracker.cursor + (i + 1)]));
        }
        lemma_fitting_calls_succeed(next, rest);
        let run = replay(tracker, calls);
        let tail = replay(next, rest);
        assert forall|i: int| 0 <= i < calls.len() implies #[trigger] run.replies[i]
            == encoded_reply(calls[i].call, tracker.entries[tracker.cursor + i].expectation) by {
            if i > 0 {
                assert(run.replies[i] == tail.replies[i - 1]);
                assert(rest[i - 1] == calls[i]);
            }
        }
    }
}

/// In a scenario that no `QueueExhausted` ended, the script is never changed
/// and the cursor moves by one for every call that was made, those that
/// failed included. So the completion check, which succeeds exactly when the
/// script is exhausted, succeeds exactly when as many calls were made as
/// entries were left; with fewer calls it fails.
pub proof fn lemma_completion_counts_calls(tracker: TrackerView, calls: Seq<Invocation>)
    requires
        tracker.wf(),
        !(replay(tracker, calls).failure matches Some(MockErrorView::QueueExhausted { .. })),
    ensures
        replay(tracker, calls).tracker.entries == tracker.entries,
        replay(tracker, calls).tracker.cursor == tracker.cursor + replay(tracker, calls).calls_made(),
        replay(tracker, calls).tracker.wf(),
        replay(tracker, calls).tracker.exhausted() <==> replay(tracker, calls).calls_made()
            == tracker.remaining(),
    decreases calls.len(),
{
    if calls.len() > 0 {
        if outcome(tracker, calls[0].index, calls[0].call) is Ok {
            lemma_completion_counts_calls(tracker.after_call(), calls.drop_first());
        }
    }
}

/// A scenario in which every call succeeds follows the script in its one
/// global order: it makes no more calls than entries are left, and its call
/// at each position is made on the handle that owns the entry at that
/// position and is the call which that entry expects.
pub proof fn lemma_success_follows_script_order(tracker: TrackerView, calls: Seq<Invocation>)
    requires
        tracker.wf(),
        replay(tracker, calls).failure is None,
    ensures
        calls.len() <= tracker.remaining(),
        replay(tracker, calls).replies.len() == calls.len(),
        forall|i: int|
            0 <= i < calls.len() ==> (#[trigger] calls[i]).index == tracker.entries[tracker.cursor
                + i].owner,
        forall|i: int|
            0 <= i < calls.len() ==> fits(#[trigger] calls[i], tracker.entries[tracker.cursor + i]),
    decreases calls.len(),
{
    if calls.len() > 0 {
        let rest = calls.drop_first();
        let next = tracker.after_call();
        lemma_success_follows_script_order(next, rest);
        assert(fits(calls[0], tracker.entries[tracker.cursor as int]));
        assert forall|i: int| 0 <= i < calls.len() implies fits(
            #[trigger] calls[i],
            tracker.entries[tracker.cursor + i],
        ) by {
            if i > 0 {
                assert(rest[i - 1] == calls[i]);
                assert(fits(rest[i - 1], next.entries[next.cursor + (i - 1)]));
            }
        }
    }
}

/// A scenario succeeds in every call exactly when it makes no more calls than
/// entries are left and each call is the one that the entry at its position
/// expects.
pub proof fn lemma_success_iff_calls_fit(tracker: TrackerView, calls: Seq<Invocation>)
    requires
        tracker.wf(),
    ensures
        replay(tracker, calls).failure is None <==> {
            &&& calls.len() <= tracker.remaining()
            &&& forall|i: int|
                0 <= i < calls.len() ==> fits(
                    #[trigger] calls[i],
                    tracker.entries[tracker.cursor + i],
                )
        },
{
    if replay(tracker, calls).failure is None {
        lemma_success_follows_script_order(tracker, calls);
    }
    if calls.len() <= tracker.remaining() && (forall|i: int|
        0 <= i < calls.len() ==> fits(#[trigger] calls[i], tracker.entries[tracker.cursor + i])) {
        lemma_fitting_calls_succeed(tracker, calls);
    }
}

} // verus!
