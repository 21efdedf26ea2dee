//! The decisions of one enumeration of the mapped objects.
//!
//! The loader calls back once for each object, in its own order, and goes
//! on for as long as the answer is `CONTINUE`. Whoever drives it hands each
//! object to the visitor, records here how the visit ended, and answers the
//! loader with the code that `record` returns. A visitor's failure never
//! crosses the loader's frames: it is recorded, the loader is told to stop,
//! and the failure is raised again once the loader has returned.

use vstd::prelude::*;

verus! {

/// The answer that lets the loader go on.
pub const CONTINUE: i32 = 0;

/// The answer that stops the loader.
pub const BREAK: i32 = 1;

/// What a visitor asks for after an object.
#[derive(Clone, Copy, Debug, PartialEq, Eq, Structural)]
pub enum IterationControl {
    /// Stop the enumeration.
    Break,
    /// Go on to the next object.
    Continue,
}

impl From<()> for IterationControl {
    /// A visitor that returns nothing goes on.
    fn from(unit: ()) -> (control: IterationControl) {
        IterationControl::Continue
    }
}

impl vstd::std_specs::convert::FromSpecImpl<()> for IterationControl {
    open spec fn obeys_from_spec() -> bool {
        true
    }

    open spec fn from_spec(unit: ()) -> IterationControl {
        IterationControl::Continue
    }
}

/// How one visit ended.
#[derive(Clone, Copy, Debug, PartialEq, Eq, Structural)]
pub enum VisitOutcome {
    /// The visitor returned.
    Returned(IterationControl),
    /// The visitor failed.
    Failed,
}

/// The answer to the loader after a visit: it goes on only where the
/// visitor returned and asked to.
pub open spec fn answer(outcome: VisitOutcome) -> i32 {
    if outcome == VisitOutcome::Returned(IterationControl::Continue) {
        CONTINUE
    } else {
        BREAK
    }
}

/// How many objects are visited when the visits end as `outcomes` say, one
/// for each object in the loader's order: all up to and with the first
/// whose answer is not `CONTINUE`.
pub open spec fn visited(outcomes: Seq<VisitOutcome>) -> nat
    decreases outcomes.len(),
{
    if outcomes.len() == 0 {
        0
    } else if answer(outcomes[0]) != CONTINUE {
        1
    } else {
        1 + visited(outcomes.drop_first())
    }
}

/// What one enumeration remembers between the loader's calls.
#[derive(Debug)]
pub struct IterState {
    failed: bool,
}

impl IterState {
    /// Whether a visit has failed.
    pub closed spec fn failed(&self) -> bool {
        self.failed
    }

    /// The state before the first visit.
    pub fn new() -> (state: IterState)
        ensures
            !state.failed(),
    {
        IterState { failed: false }
    }

    /// Takes note of how a visit ended and gives the answer for the loader.
    pub fn record(&mut self, outcome: VisitOutcome) -> (code: i32)
        ensures
            code == answer(outcome),
            final(self).failed() <==> old(self).failed() || outcome == VisitOutcome::Failed,
    {
        match outcome {
            VisitOutcome::Returned(IterationControl::Continue) => CONTINUE,
            VisitOutcome::Returned(IterationControl::Break) => BREAK,
            VisitOutcome::Failed => {
                self.failed = true;
                BREAK
            },
        }
    }

    /// Whether a failure is to be raised again now that the loader has
    /// returned.
    pub fn has_failed(&self) -> (failed: bool)
        ensures
            failed == self.failed(),
    {
        self.failed
    }
}

/// Where the visitor asks to stop at the `k`-th object, or fails there,
/// after going on at every object before it, exactly `k` objects are
/// visited.
pub proof fn stop_ends_enumeration(outcomes: Seq<VisitOutcome>, k: int)
    requires
        0 < k <= outcomes.len(),
        forall|i: int| 0 <= i < k - 1 ==> answer(#[trigger] outcomes[i]) == CONTINUE,
        answer(outcomes[k - 1]) != CONTINUE,
    ensures
        visited(outcomes) == k,
    decreases k,
{
    if k > 1 {
        let rest = outcomes.drop_first();
        assert(answer(outcomes[0]) == CONTINUE);
        assert forall|i: int| 0 <= i < k - 2 implies answer(#[trigger] rest[i]) == CONTINUE by {
            assert(rest[i] == outcomes[i + 1]);
        }
        assert(rest[k - 2] == outcomes[k - 1]);
        stop_ends_enumeration(rest, k - 1);
    }
}

/// Where the visitor goes on at every object, every object is visited.
pub proof fn all_visited_without_stop(outcomes: Seq<VisitOutcome>)
    requires
        forall|i: int| 0 <= i < outcomes.len() ==> answer(#[trigger] outcomes[i]) == CONTINUE,
    ensures
        visited(outcomes) == outcomes.len(),
    decreases outcomes.len(),
{
    if outcomes.len() > 0 {
        let rest = outcomes.drop_first();
        assert forall|i: int| 0 <= i < rest.len() implies answer(#[trigger] rest[i])
            == CONTINUE by {
            assert(rest[i] == outcomes[i + 1]);
        }
        all_visited_without_stop(rest);
    }
}

/// The visited objects are those up to and with the first at which the
/// visitor does not go on, or all where it goes on at every one.
pub proof fn visited_is_first_stop(outcomes: Seq<VisitOutcome>)
    ensures
        visited(outcomes) <= outcomes.len(),
        outcomes.len() > 0 ==> visited(outcomes) > 0,
        forall|i: int|
            0 <= i < visited(outcomes) - 1 ==> answer(#[trigger] outcomes[i]) == CONTINUE,
        visited(outcomes) < outcomes.len() ==> answer(outcomes[visited(outcomes) - 1])
            != CONTINUE,
    decreases outcomes.len(),
{
    if outcomes.len() > 0 && answer(outcomes[0]) == CONTINUE {
        let rest = outcomes.drop_first();
        visited_is_first_stop(rest);
        assert forall|i: int| 0 <= i < visited(outcomes) - 1 implies answer(
            #[trigger] outcomes[i],
        ) == CONTINUE by {
            if i > 0 {
                assert(outcomes[i] == rest[i - 1]);
            }
        }
        if visited(outcomes) < outcomes.len() {
            assert(outcomes[visited(outcomes) - 1] == rest[visited(rest) - 1]);
        }
    }
}

/// Two enumerations of the same objects, at least two of them. In the
/// first the visitor goes on at every object. In the second it counts its
/// visits and asks to stop at the one that brings its count to one less
/// than the first enumeration visited. The second then visits exactly one
/// object less than the first.
pub proof fn break_at_last_but_one(first: Seq<VisitOutcome>, second: Seq<VisitOutcome>)
    requires
        first.len() == second.len(),
        first.len() >= 2,
        forall|i: int| 0 <= i < first.len() ==> answer(#[trigger] first[i]) == CONTINUE,
        forall|i: int|
            0 <= i < second.len() ==> (answer(#[trigger] second[i]) != CONTINUE <==> i + 1
                == visited(first) - 1),
    ensures
        visited(first) == first.len(),
        visited(second) == visited(first) - 1,
{
    all_visited_without_stop(first);
    stop_ends_enumeration(second, first.len() - 1);
}

} // verus!
