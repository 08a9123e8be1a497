//! The record of a run: what was decided for each file, in order, with the
//! names already given out, so that no name is given twice.

use crate::failure::Failure;
use vstd::prelude::*;

verus! {

/// What became of one file.
#[derive(Debug, PartialEq, Eq)]
pub enum Outcome {
    /// The file is left as it is.
    Skipped,
    /// The file is given this name.
    Renamed(String),
    /// The file is left as it is, for the reason given.
    Failed(Failure),
}

/// An `Outcome` as a mathematical value.
pub enum OutcomeView {
    Skipped,
    Renamed(Seq<char>),
    Failed(Failure),
}

impl View for Outcome {
    type V = OutcomeView;

    open spec fn view(&self) -> OutcomeView {
        match self {
            Outcome::Skipped => OutcomeView::Skipped,
            Outcome::Renamed(name) => OutcomeView::Renamed(name@),
            Outcome::Failed(failure) => OutcomeView::Failed(*failure),
        }
    }
}

/// How many files of a run were renamed, skipped and failed.
#[derive(Clone, Copy, Debug, PartialEq, Eq, Structural)]
pub struct Summary {
    pub renamed: usize,
    pub skipped: usize,
    pub failed: usize,
}

/// The new name of a file, or why it has none, with the string taken by
/// its view.
pub open spec fn plan_view(planned: Result<Option<String>, Failure>) -> Result<
    Option<Seq<char>>,
    Failure,
> {
    match planned {
        Ok(Some(name)) => Ok(Some(name@)),
        Ok(None) => Ok(None),
        Err(failure) => Err(failure),
    }
}

/// Whether `name` was given to a file earlier in the run.
pub open spec fn taken(log: Seq<OutcomeView>, name: Seq<char>) -> bool {
    exists|i: int| 0 <= i < log.len() && log[i] == OutcomeView::Renamed(name)
}

/// What is decided for a file, given the record so far: a failure stays a
/// failure, a file without a new name is skipped, and a new name is granted
/// unless an earlier file has it, which is a collision.
pub open spec fn decided(log: Seq<OutcomeView>, planned: Result<Option<Seq<char>>, Failure>)
    -> OutcomeView {
    match planned {
        Err(failure) => OutcomeView::Failed(failure),
        Ok(None) => OutcomeView::Skipped,
        Ok(Some(name)) => if taken(log, name) {
            OutcomeView::Failed(Failure::Collision)
        } else {
            OutcomeView::Renamed(name)
        },
    }
}

/// No name is given to two files of the record.
pub open spec fn distinct_names(log: Seq<OutcomeView>) -> bool {
    forall|i: int, j: int|
        0 <= i < j < log.len() && (#[trigger] log[i]) is Renamed ==> log[i] != #[trigger] log[j]
}

/// The number of renamed files in the record.
pub open spec fn renamed_count(log: Seq<OutcomeView>) -> nat {
    log.filter(|o: OutcomeView| o is Renamed).len()
}

/// The number of skipped files in the record.
pub open spec fn skipped_count(log: Seq<OutcomeView>) -> nat {
    log.filter(|o: OutcomeView| o is Skipped).len()
}

/// The number of failed files in the record.
pub open spec fn failed_count(log: Seq<OutcomeView>) -> nat {
    log.filter(|o: OutcomeView| o is Failed).len()
}

/// One more outcome adds one to the count of its kind and leaves the other
/// two counts as they are.
pub proof fn lemma_counts_step(log: Seq<OutcomeView>, next: OutcomeView)
    ensures
        renamed_count(log.push(next)) == renamed_count(log) + if next is Renamed {
            1nat
        } else {
            0nat
        },
        skipped_count(log.push(next)) == skipped_count(log) + if next is Skipped {
            1nat
        } else {
            0nat
        },
        failed_count(log.push(next)) == failed_count(log) + if next is Failed {
            1nat
        } else {
            0nat
        },
{
    reveal(Seq::filter);
    assert(log.push(next).drop_last() =~= log);
}

/// Every file of the record is counted once.
pub proof fn lemma_counts_add_up(log: Seq<OutcomeView>)
    ensures
        renamed_count(log) + skipped_count(log) + failed_count(log) == log.len(),
    decreases log.len(),
{
    if log.len() == 0 {
        reveal(Seq::filter);
    } else {
        lemma_counts_add_up(log.drop_last());
        lemma_counts_step(log.drop_last(), log.last());
        assert(log.drop_last().push(log.last()) =~= log);
    }
}

/// The views of the outcomes, in order.
pub open spec fn views(outcomes: Seq<Outcome>) -> Seq<OutcomeView> {
    outcomes.map_values(|o: Outcome| o@)
}

/// A copy of `outcome`.
fn copy_of(outcome: &Outcome) -> (r: Outcome)
    ensures
        r@ == outcome@,
{
    match outcome {
        Outcome::Skipped => Outcome::Skipped,
        Outcome::Renamed(name) => Outcome::Renamed(name.clone()),
        Outcome::Failed(failure) => Outcome::Failed(*failure),
    }
}

/// A name that an earlier file of the run was given is not given again:
/// the later file is reported as a collision.
pub proof fn lemma_collision_reported(log: Seq<OutcomeView>, name: Seq<char>)
    requires
        taken(log, name),
    ensures
        decided(log, Ok(Some(name))) == OutcomeView::Failed(Failure::Collision),
{
}

/// A record in which no name occurs twice stays so when the decision on
/// the next file is added.
pub proof fn lemma_names_stay_distinct(
    log: Seq<OutcomeView>,
    planned: Result<Option<Seq<char>>, Failure>,
)
    requires
        distinct_names(log),
    ensures
        distinct_names(log.push(decided(log, planned))),
{
}

/// The record of a run.
pub struct Run {
    /// What was decided for each file, in the order the files came.
    pub outcomes: Vec<Outcome>,
}

impl View for Run {
    type V = Seq<OutcomeView>;

    open spec fn view(&self) -> Seq<OutcomeView> {
        views(self.outcomes@)
    }
}

impl Run {
    /// The record of a run in which no file was seen yet.
    pub fn new() -> (run: Run)
        ensures
            run@ == Seq::<OutcomeView>::empty(),
    {
        Run { outcomes: Vec::new() }
    }

    /// Whether `name` was given to a file earlier in the run.
    pub fn is_taken(&self, name: &String) -> (b: bool)
        ensures
            b == taken(self@, name@),
    {
        let mut i: usize = 0;
        while i < self.outcomes.len()
            invariant
                i <= self.outcomes.len(),
                forall|k: int| 0 <= k < i ==> self@[k] != OutcomeView::Renamed(name@),
            decreases self.outcomes.len() - i,
        {
            match &self.outcomes[i] {
                Outcome::Renamed(given) => {
                    if *given == *name {
                        assert(self@[i as int] == OutcomeView::Renamed(name@));
                        return true;
                    }
                },
                _ => {},
            }
            i = i + 1;
        }
        false
    }

    /// Decides what becomes of the next file and adds the decision to the
    /// record.
    pub fn decide(&mut self, planned: Result<Option<String>, Failure>) -> (outcome: Outcome)
        ensures
            outcome@ == decided(old(self)@, plan_view(planned)),
            final(self)@ == old(self)@.push(outcome@),
    {
        let outcome = match planned {
            Err(failure) => Outcome::Failed(failure),
            Ok(None) => Outcome::Skipped,
            Ok(Some(name)) => {
                if self.is_taken(&name) {
                    Outcome::Failed(Failure::Collision)
                } else {
                    Outcome::Renamed(name)
                }
            },
        };
        let entry = copy_of(&outcome);
        self.outcomes.push(entry);
        outcome
    }

    /// Records that the rename decided last could not be carried out: the
    /// last outcome, if it is a rename, becomes a failure, and its name is
    /// free again.
    pub fn rename_failed(&mut self)
        ensures
            final(self)@ == if old(self)@.len() > 0 && old(self)@.last() is Renamed {
                old(self)@.drop_last().push(OutcomeView::Failed(Failure::Rename))
            } else {
                old(self)@
            },
    {
        let n = self.outcomes.len();
        if n > 0 {
            let renamed = match &self.outcomes[n - 1] {
                Outcome::Renamed(_) => true,
                _ => false,
            };
            if renamed {
                let ghost before = self.outcomes@;
                self.outcomes.pop();
                self.outcomes.push(Outcome::Failed(Failure::Rename));
                assert(views(self.outcomes@) =~= views(before).drop_last().push(
                    OutcomeView::Failed(Failure::Rename),
                ));
            }
        }
    }

    /// Counts the outcomes of each kind.
    pub fn summary(&self) -> (s: Summary)
        ensures
            s.renamed == renamed_count(self@),
            s.skipped == skipped_count(self@),
            s.failed == failed_count(self@),
    {
        let mut s = Summary { renamed: 0, skipped: 0, failed: 0 };
        let mut i: usize = 0;
        proof {
            reveal(Seq::filter);
        }
        while i < self.outcomes.len()
            invariant
                i <= self.outcomes.len(),
                s.renamed == renamed_count(self@.subrange(0, i as int)),
                s.skipped == skipped_count(self@.subrange(0, i as int)),
                s.failed == failed_count(self@.subrange(0, i as int)),
            decreases self.outcomes.len() - i,
        {
            proof {
                let seen = self@.subrange(0, i as int);
                assert(self@.subrange(0, i + 1) =~= seen.push(self@[i as int]));
                lemma_counts_step(seen, self@[i as int]);
                lemma_counts_add_up(seen);
            }
            match &self.outcomes[i] {
                Outcome::Skipped => {
                    s.skipped = s.skipped + 1;
                },
                Outcome::Renamed(_) => {
                    s.renamed = s.renamed + 1;
                },
                Outcome::Failed(_) => {
                    s.failed = s.failed + 1;
                },
            }
            i = i + 1;
        }
        assert(self@.subrange(0, i as int) =~= self@);
        s
    }
}

} // verus!
