//! Recording of exact checks, keyed by id and bounded by a declared maximum.

use crate::error::ExampleError;
use vstd::prelude::*;

verus! {

/// The result of one exact check.
#[derive(Clone, Debug, PartialEq, Eq)]
pub struct AssertionOutcome {
    pub id: String,
    pub passed: bool,
    pub detail: Option<String>,
}

/// Whether some outcome in `outcomes` carries the id `id`.
pub open spec fn has_id(outcomes: Seq<AssertionOutcome>, id: Seq<char>) -> bool {
    exists|i: int| 0 <= i < outcomes.len() && (#[trigger] outcomes[i]).id@ == id
}

/// No two outcomes share an id.
pub open spec fn ids_distinct(outcomes: Seq<AssertionOutcome>) -> bool {
    forall|i: int, j: int|
        0 <= i < j < outcomes.len() ==> (#[trigger] outcomes[i]).id@ != (#[trigger] outcomes[j]).id@
}

/// The number of outcomes stays within the declared maximum, where one is declared.
pub open spec fn within_budget(outcomes: Seq<AssertionOutcome>, max: Option<usize>) -> bool {
    max matches Some(m) ==> outcomes.len() <= m
}

/// Whether the budget leaves no room for another outcome.
pub open spec fn budget_spent(outcomes: Seq<AssertionOutcome>, max: Option<usize>) -> bool {
    max matches Some(m) && outcomes.len() >= m
}

/// How many of `outcomes` passed.
pub open spec fn passed_among(outcomes: Seq<AssertionOutcome>) -> nat
    decreases outcomes.len(),
{
    if outcomes.len() == 0 {
        0
    } else {
        passed_among(outcomes.drop_last()) + if outcomes.last().passed {
            1nat
        } else {
            0nat
        }
    }
}

/// Counts the outcomes that passed.
pub fn count_passed(outcomes: &Vec<AssertionOutcome>) -> (count: usize)
    ensures
        count == passed_among(outcomes@),
        count <= outcomes@.len(),
{
    let mut count: usize = 0;
    let mut i: usize = 0;
    while i < outcomes.len()
        invariant
            i <= outcomes.len(),
            count <= i,
            count == passed_among(outcomes@.take(i as int)),
        decreases outcomes.len() - i,
    {
        assert(outcomes@.take(i + 1).drop_last() == outcomes@.take(i as int));
        if outcomes[i].passed {
            count += 1;
        }
        i += 1;
    }
    assert(outcomes@.take(i as int) == outcomes@);
    count
}

/// The append-only sequence of outcomes of one run.
#[derive(Clone, Debug)]
pub struct AssertionRecorder {
    outcomes: Vec<AssertionOutcome>,
    max_assertions: Option<usize>,
}

impl View for AssertionRecorder {
    type V = Seq<AssertionOutcome>;

    closed spec fn view(&self) -> Seq<AssertionOutcome> {
        self.outcomes@
    }
}

impl AssertionRecorder {
    /// The declared maximum number of outcomes, if one was declared.
    pub closed spec fn limit(&self) -> Option<usize> {
        self.max_assertions
    }

    /// Ids are unique and the declared maximum is respected.
    pub open spec fn wf(&self) -> bool {
        &&& ids_distinct(self@)
        &&& within_budget(self@, self.limit())
    }

    /// A recorder without outcomes.
    pub fn new(max_assertions: Option<usize>) -> (recorder: AssertionRecorder)
        ensures
            recorder.wf(),
            recorder@ == Seq::<AssertionOutcome>::empty(),
            recorder.limit() == max_assertions,
    {
        AssertionRecorder { outcomes: Vec::new(), max_assertions }
    }

    /// The declared maximum number of outcomes.
    pub fn max_assertions(&self) -> (max: Option<usize>)
        ensures
            max == self.limit(),
    {
        self.max_assertions
    }

    /// The outcomes recorded so far, in the order they were recorded.
    pub fn outcomes(&self) -> (outcomes: &Vec<AssertionOutcome>)
        ensures
            outcomes@ == self@,
    {
        &self.outcomes
    }

    /// Gives up the recorder for its outcomes.
    pub fn into_outcomes(self) -> (outcomes: Vec<AssertionOutcome>)
        ensures
            outcomes@ == self@,
    {
        self.outcomes
    }

    /// The number of outcomes recorded so far.
    pub fn run_count(&self) -> (count: usize)
        ensures
            count == self@.len(),
    {
        self.outcomes.len()
    }

    /// Whether an outcome with this id was recorded.
    pub fn contains_id(&self, id: &String) -> (found: bool)
        ensures
            found == has_id(self@, id@),
    {
        let mut i: usize = 0;
        while i < self.outcomes.len()
            invariant
                i <= self.outcomes.len(),
                forall|k: int| 0 <= k < i ==> (#[trigger] self.outcomes@[k]).id@ != id@,
            decreases self.outcomes.len() - i,
        {
            if self.outcomes[i].id == *id {
                return true;
            }
            i += 1;
        }
        false
    }

    /// The number of outcomes that passed.
    pub fn passed_count(&self) -> (count: usize)
        ensures
            count == passed_among(self@),
            count <= self@.len(),
    {
        count_passed(&self.outcomes)
    }

    /// Appends an outcome.
    ///
    /// Fails, and records nothing, when the declared maximum is already
    /// reached or when an outcome with the same id exists; the budget is
    /// looked at first.
    pub fn record(&mut self, id: String, passed: bool, detail: Option<String>) -> (recorded: Result<
        (),
        ExampleError,
    >)
        requires
            old(self).wf(),
        ensures
            final(self).wf(),
            final(self).limit() == old(self).limit(),
            budget_spent(old(self)@, old(self).limit()) ==> recorded == Err::<(), ExampleError>(
                ExampleError::TooManyAssertions { max: old(self).limit().unwrap() },
            ) && final(self)@ == old(self)@,
            !budget_spent(old(self)@, old(self).limit()) && has_id(old(self)@, id@) ==> recorded
                == Err::<(), ExampleError>(ExampleError::DuplicateAssertionId(id)) && final(self)@
                == old(self)@,
            !budget_spent(old(self)@, old(self).limit()) && !has_id(old(self)@, id@) ==> recorded
                is Ok && final(self)@ == old(self)@.push(AssertionOutcome { id, passed, detail }),
    {
        if let Some(max) = self.max_assertions {
            if self.outcomes.len() >= max {
                return Err(ExampleError::TooManyAssertions { max });
            }
        }
        if self.contains_id(&id) {
            return Err(ExampleError::DuplicateAssertionId(id));
        }
        self.outcomes.push(AssertionOutcome { id, passed, detail });
        Ok(())
    }
}

/// The declared maximum bounds the number of recorded outcomes.
pub proof fn lemma_budget_bounds_outcomes(recorder: AssertionRecorder)
    requires
        recorder.wf(),
    ensures
        recorder.limit() matches Some(max) ==> recorder@.len() <= max,
{
}

/// A recorded id occurs exactly once.
pub proof fn lemma_recorded_id_is_unique(recorder: AssertionRecorder, i: int, j: int)
    requires
        recorder.wf(),
        0 <= i < recorder@.len(),
        0 <= j < recorder@.len(),
        recorder@[i].id@ == recorder@[j].id@,
    ensures
        i == j,
{
}

} // verus!
