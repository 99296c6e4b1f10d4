//! Grading of rubrics by an external judge: what is still to be asked, what
//! came back, and how often a failed call is tried again.

use crate::example::JudgeAssertion;
use vstd::prelude::*;

verus! {

/// What one grading call gave.
#[derive(Clone, Debug, PartialEq, Eq)]
pub enum JudgeResponse {
    /// The judge answered.
    Graded { passed: bool, rationale: String },
    /// The call failed: the judge timed out, was rate limited or broke.
    Unavailable,
}

/// The standing of one rubric in a report.
#[derive(Clone, Debug, PartialEq, Eq)]
pub enum JudgeVerdict {
    Passed { rationale: String },
    Failed { rationale: String },
    /// Every allowed call to the judge failed. Not a failed rubric.
    Unavailable,
    /// The judge was never asked, or never answered before the run ended.
    NotEvaluated,
}

/// A rubric's id with its standing.
#[derive(Clone, Debug, PartialEq, Eq)]
pub struct JudgeResult {
    pub id: String,
    pub verdict: JudgeVerdict,
}

/// Why a response was not taken in.
#[derive(Clone, Copy, Debug, PartialEq, Eq, Structural)]
pub enum JudgeError {
    /// No rubric stands at that position.
    UnknownAssertion,
    /// The rubric already has its verdict; a rubric is graded once.
    AlreadyResolved,
    /// The run is not at the point where rubrics are graded.
    NotAwaitingJudgment,
}

/// The grading state of one rubric: the calls made so far and the verdict,
/// once there is one.
#[derive(Clone, Debug, PartialEq, Eq)]
pub struct JudgeSlot {
    pub attempts: usize,
    pub verdict: Option<JudgeVerdict>,
}

/// How many passed, failed, and could not be determined.
#[derive(Clone, Copy, Debug, PartialEq, Eq, Structural)]
pub struct JudgeTally {
    pub passed: usize,
    pub failed: usize,
    pub indeterminate: usize,
}

impl JudgeVerdict {
    /// Neither passed nor failed: such a verdict does not count for or
    /// against the pass rate.
    pub open spec fn indeterminate(&self) -> bool {
        *self is Unavailable || *self is NotEvaluated
    }

    /// Whether the verdict is neither a pass nor a fail.
    pub fn is_indeterminate(&self) -> (yes: bool)
        ensures
            yes == self.indeterminate(),
    {
        match self {
            JudgeVerdict::Unavailable | JudgeVerdict::NotEvaluated => true,
            _ => false,
        }
    }

    /// A copy of the verdict.
    pub fn duplicate(&self) -> (copy: JudgeVerdict)
        ensures
            copy == *self,
    {
        match self {
            JudgeVerdict::Passed { rationale } => JudgeVerdict::Passed {
                rationale: rationale.clone(),
            },
            JudgeVerdict::Failed { rationale } => JudgeVerdict::Failed {
                rationale: rationale.clone(),
            },
            JudgeVerdict::Unavailable => JudgeVerdict::Unavailable,
            JudgeVerdict::NotEvaluated => JudgeVerdict::NotEvaluated,
        }
    }
}

/// The verdict that an answer of the judge amounts to.
pub open spec fn verdict_of(passed: bool, rationale: String) -> JudgeVerdict {
    if passed {
        JudgeVerdict::Passed { rationale }
    } else {
        JudgeVerdict::Failed { rationale }
    }
}

/// The slot after one more call came back with `response`, when at most
/// `limit` calls are allowed: an answer settles the rubric, a failed call
/// settles it as unavailable once the allowed calls are used up.
pub open spec fn slot_after(slot: JudgeSlot, response: JudgeResponse, limit: usize) -> JudgeSlot {
    match response {
        JudgeResponse::Graded { passed, rationale } => JudgeSlot {
            attempts: (slot.attempts + 1) as usize,
            verdict: Some(verdict_of(passed, rationale)),
        },
        JudgeResponse::Unavailable => JudgeSlot {
            attempts: (slot.attempts + 1) as usize,
            verdict: if slot.attempts + 1 >= limit {
                Some(JudgeVerdict::Unavailable)
            } else {
                None
            },
        },
    }
}

/// What a report says of a rubric in the state `slot`.
pub open spec fn result_of(rubric: JudgeAssertion, slot: JudgeSlot) -> JudgeResult {
    JudgeResult {
        id: rubric.id,
        verdict: match slot.verdict {
            Some(v) => v,
            None => JudgeVerdict::NotEvaluated,
        },
    }
}

/// The results of all rubrics, in the order the rubrics were declared.
pub open spec fn results_of(rubrics: Seq<JudgeAssertion>, slots: Seq<JudgeSlot>) -> Seq<JudgeResult>
    recommends
        rubrics.len() == slots.len(),
{
    Seq::new(rubrics.len(), |i: int| result_of(rubrics[i], slots[i]))
}

/// The positions below `upto` whose slot has no verdict yet, ascending.
pub open spec fn pending_below(slots: Seq<JudgeSlot>, upto: int) -> Seq<usize>
    decreases upto,
{
    if upto <= 0 {
        Seq::empty()
    } else if slots[upto - 1].verdict is None {
        pending_below(slots, upto - 1).push((upto - 1) as usize)
    } else {
        pending_below(slots, upto - 1)
    }
}

/// Whether every slot has its verdict.
pub open spec fn all_resolved(slots: Seq<JudgeSlot>) -> bool {
    forall|i: int| 0 <= i < slots.len() ==> (#[trigger] slots[i]).verdict is Some
}

/// Whether some slot was given up as unavailable.
pub open spec fn some_unavailable(slots: Seq<JudgeSlot>) -> bool {
    exists|i: int|
        0 <= i < slots.len() && (#[trigger] slots[i]).verdict == Some(JudgeVerdict::Unavailable)
}

/// Whether no call has been made for any slot.
pub open spec fn untouched(slots: Seq<JudgeSlot>) -> bool {
    forall|i: int|
        0 <= i < slots.len() ==> (#[trigger] slots[i]).attempts == 0 && slots[i].verdict is None
}

/// The rubrics of one run with their grading state.
#[derive(Clone, Debug)]
pub struct JudgePanel {
    rubrics: Vec<JudgeAssertion>,
    slots: Vec<JudgeSlot>,
    max_attempts: usize,
}

impl JudgePanel {
    /// The declared rubrics.
    pub closed spec fn rubrics(&self) -> Seq<JudgeAssertion> {
        self.rubrics@
    }

    /// The grading state of each rubric.
    pub closed spec fn slots(&self) -> Seq<JudgeSlot> {
        self.slots@
    }

    /// The most calls made for one rubric.
    pub closed spec fn attempt_limit(&self) -> usize {
        self.max_attempts
    }

    /// There is one slot per rubric, at least one call is allowed, and a
    /// rubric without a verdict has calls left.
    pub open spec fn wf(&self) -> bool {
        &&& self.slots().len() == self.rubrics().len()
        &&& self.attempt_limit() >= 1
        &&& forall|i: int|
            0 <= i < self.slots().len() && (#[trigger] self.slots()[i]).verdict is None
                ==> self.slots()[i].attempts < self.attempt_limit()
    }

    /// A panel on which nothing is graded yet. Each rubric is tried at most
    /// `max_attempts` times, and at least once.
    pub fn new(rubrics: Vec<JudgeAssertion>, max_attempts: usize) -> (panel: JudgePanel)
        ensures
            panel.wf(),
            panel.rubrics() == rubrics@,
            untouched(panel.slots()),
            panel.attempt_limit() == if max_attempts == 0 {
                1usize
            } else {
                max_attempts
            },
    {
        let mut slots: Vec<JudgeSlot> = Vec::new();
        let mut i: usize = 0;
        while i < rubrics.len()
            invariant
                i <= rubrics.len(),
                slots@.len() == i,
                untouched(slots@),
            decreases rubrics.len() - i,
        {
            slots.push(JudgeSlot { attempts: 0, verdict: None });
            i += 1;
        }
        let max_attempts = if max_attempts == 0 {
            1
        } else {
            max_attempts
        };
        JudgePanel { rubrics, slots, max_attempts }
    }

    /// The number of rubrics.
    pub fn len(&self) -> (n: usize)
        ensures
            n == self.rubrics().len(),
    {
        self.rubrics.len()
    }

    /// The rubric at `index`, if there is one.
    pub fn assertion(&self, index: usize) -> (rubric: Option<&JudgeAssertion>)
        ensures
            index < self.rubrics().len() ==> rubric == Some(&self.rubrics()[index as int]),
            index >= self.rubrics().len() ==> rubric is None,
    {
        if index < self.rubrics.len() {
            Some(&self.rubrics[index])
        } else {
            None
        }
    }

    /// The positions of the rubrics that still wait for a verdict,
    /// ascending. They may all be submitted at once.
    pub fn pending(&self) -> (pending: Vec<usize>)
        ensures
            pending@ == pending_below(self.slots(), self.slots().len() as int),
    {
        let mut pending: Vec<usize> = Vec::new();
        let mut i: usize = 0;
        while i < self.slots.len()
            invariant
                i <= self.slots.len(),
                pending@ == pending_below(self.slots@, i as int),
            decreases self.slots.len() - i,
        {
            if self.slots[i].verdict.is_none() {
                pending.push(i);
            }
            i += 1;
        }
        pending
    }

    /// Whether every rubric has its verdict.
    pub fn is_complete(&self) -> (complete: bool)
        ensures
            complete == all_resolved(self.slots()),
    {
        let mut i: usize = 0;
        while i < self.slots.len()
            invariant
                i <= self.slots.len(),
                forall|k: int| 0 <= k < i ==> (#[trigger] self.slots@[k]).verdict is Some,
            decreases self.slots.len() - i,
        {
            if self.slots[i].verdict.is_none() {
                return false;
            }
            i += 1;
        }
        true
    }

    /// Whether some rubric was given up as unavailable.
    pub fn any_unavailable(&self) -> (any: bool)
        ensures
            any == some_unavailable(self.slots()),
    {
        let mut i: usize = 0;
        while i < self.slots.len()
            invariant
                i <= self.slots.len(),
                forall|k: int|
                    0 <= k < i ==> (#[trigger] self.slots@[k]).verdict != Some(
                        JudgeVerdict::Unavailable,
                    ),
            decreases self.slots.len() - i,
        {
            match &self.slots[i].verdict {
                Some(JudgeVerdict::Unavailable) => {
                    return true;
                },
                _ => {},
            }
            i += 1;
        }
        false
    }

    /// Takes in what one grading call for the rubric at `index` gave.
    ///
    /// Refused, with nothing changed, where no rubric stands at `index` or
    /// the rubric already has its verdict. Otherwise only that rubric's
    /// slot changes, as `slot_after` says.
    pub fn record(&mut self, index: usize, response: JudgeResponse) -> (taken: Result<
        (),
        JudgeError,
    >)
        requires
            old(self).wf(),
        ensures
            final(self).wf(),
            final(self).rubrics() == old(self).rubrics(),
            final(self).attempt_limit() == old(self).attempt_limit(),
            index >= old(self).slots().len() ==> {
                &&& taken == Err::<(), JudgeError>(JudgeError::UnknownAssertion)
                &&& *final(self) == *old(self)
            },
            index < old(self).slots().len() && old(self).slots()[index as int].verdict is Some
                ==> {
                &&& taken == Err::<(), JudgeError>(JudgeError::AlreadyResolved)
                &&& *final(self) == *old(self)
            },
            index < old(self).slots().len() && old(self).slots()[index as int].verdict is None
                ==> taken is Ok && final(self).slots() == old(self).slots().update(
                index as int,
                slot_after(old(self).slots()[index as int], response, old(self).attempt_limit()),
            ),
    {
        if index >= self.slots.len() {
            return Err(JudgeError::UnknownAssertion);
        }
        if self.slots[index].verdict.is_some() {
            return Err(JudgeError::AlreadyResolved);
        }
        let attempts = self.slots[index].attempts + 1;
        let verdict = match response {
            JudgeResponse::Graded { passed, rationale } => {
                if passed {
                    Some(JudgeVerdict::Passed { rationale })
                } else {
                    Some(JudgeVerdict::Failed { rationale })
                }
            },
            JudgeResponse::Unavailable => {
                if attempts >= self.max_attempts {
                    Some(JudgeVerdict::Unavailable)
                } else {
                    None
                }
            },
        };
        self.slots.set(index, JudgeSlot { attempts, verdict });
        Ok(())
    }

    /// The standing of every rubric, in the order of declaration. A rubric
    /// without a verdict is reported as not evaluated.
    pub fn results(&self) -> (results: Vec<JudgeResult>)
        requires
            self.wf(),
        ensures
            results@ == results_of(self.rubrics(), self.slots()),
    {
        let mut results: Vec<JudgeResult> = Vec::new();
        let mut i: usize = 0;
        while i < self.rubrics.len()
            invariant
                self.wf(),
                i <= self.rubrics.len(),
                results@.len() == i,
                forall|k: int|
                    0 <= k < i ==> results@[k] == result_of(self.rubrics@[k], self.slots@[k]),
            decreases self.rubrics.len() - i,
        {
            let verdict = match &self.slots[i].verdict {
                Some(v) => v.duplicate(),
                None => JudgeVerdict::NotEvaluated,
            };
            results.push(JudgeResult { id: self.rubrics[i].id.clone(), verdict });
            i += 1;
        }
        results
    }
}

/// How many of `results` passed.
pub open spec fn passed_in(results: Seq<JudgeResult>) -> nat
    decreases results.len(),
{
    if results.len() == 0 {
        0
    } else {
        passed_in(results.drop_last()) + if results.last().verdict is Passed {
            1nat
        } else {
            0nat
        }
    }
}

/// How many of `results` failed.
pub open spec fn failed_in(results: Seq<JudgeResult>) -> nat
    decreases results.len(),
{
    if results.len() == 0 {
        0
    } else {
        failed_in(results.drop_last()) + if results.last().verdict is Failed {
            1nat
        } else {
            0nat
        }
    }
}

/// How many of `results` are neither a pass nor a fail.
pub open spec fn indeterminate_in(results: Seq<JudgeResult>) -> nat
    decreases results.len(),
{
    if results.len() == 0 {
        0
    } else {
        indeterminate_in(results.drop_last()) + if results.last().verdict.indeterminate() {
            1nat
        } else {
            0nat
        }
    }
}

/// Counts the passes, the fails and the indeterminate among `results`.
/// The pass rate is `passed` out of `passed + failed`: an indeterminate
/// rubric counts neither way.
pub fn tally(results: &Vec<JudgeResult>) -> (t: JudgeTally)
    ensures
        t.passed == passed_in(results@),
        t.failed == failed_in(results@),
        t.indeterminate == indeterminate_in(results@),
        t.passed + t.failed + t.indeterminate == results@.len(),
{
    let mut t = JudgeTally { passed: 0, failed: 0, indeterminate: 0 };
    let mut i: usize = 0;
    while i < results.len()
        invariant
            i <= results.len(),
            t.passed == passed_in(results@.take(i as int)),
            t.failed == failed_in(results@.take(i as int)),
            t.indeterminate == indeterminate_in(results@.take(i as int)),
            t.passed + t.failed + t.indeterminate == i,
        decreases results.len() - i,
    {
        assert(results@.take(i + 1).drop_last() == results@.take(i as int));
        match &results[i].verdict {
            JudgeVerdict::Passed { .. } => {
                t.passed = t.passed + 1;
            },
            JudgeVerdict::Failed { .. } => {
                t.failed = t.failed + 1;
            },
            _ => {
                t.indeterminate = t.indeterminate + 1;
            },
        }
        i += 1;
    }
    assert(results@.take(i as int) == results@);
    t
}

/// Exactly the positions without a verdict are pending.
pub proof fn lemma_pending_are_unresolved(slots: Seq<JudgeSlot>, upto: int)
    requires
        0 <= upto <= slots.len(),
        upto <= usize::MAX,
    ensures
        forall|p: usize|
            pending_below(slots, upto).contains(p) <==> (p < upto && slots[p as int].verdict
                is None),
    decreases upto,
{
    if upto > 0 {
        lemma_pending_are_unresolved(slots, upto - 1);
        let before = pending_below(slots, upto - 1);
        if slots[upto - 1].verdict is None {
            let now = before.push((upto - 1) as usize);
            assert forall|p: usize| now.contains(p) <==> (p < upto && slots[p as int].verdict
                is None) by {
                if now.contains(p) {
                    let k = choose|k: int| 0 <= k < now.len() && now[k] == p;
                    if k < before.len() {
                        assert(before[k] == p);
                        assert(before.contains(p));
                    }
                }
                if p < upto && slots[p as int].verdict is None {
                    if p == upto - 1 {
                        assert(now[before.len() as int] == p);
                    } else {
                        assert(before.contains(p));
                        let k = choose|k: int| 0 <= k < before.len() && before[k] == p;
                        assert(now[k] == p);
                    }
                }
            }
        }
    }
}

} // verus!
