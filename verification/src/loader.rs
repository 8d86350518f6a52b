//! Loading one side of a run, file by file.
//!
//! The loader walks through the candidates in order. For each it asks the
//! caller to parse the file as one format after the other until one parses,
//! then to merge what was parsed. Whatever the answers, the attempt on one
//! file never undoes an earlier one. When every file is settled the caller
//! is asked to preprocess what it holds, and only then is the dataset handed
//! out.

use crate::dataset::{absorbed, loaded, notice_for, AggregateDataset, FileOutcome, Notice};
use crate::discovery::Candidate;
use crate::position::GeodeticPosition;
use crate::probe::{next_stage, Format, Stage, Verdict};
use vstd::prelude::*;

verus! {

/// What the loader asks of the caller.
#[derive(Clone, Copy, Debug, PartialEq, Eq, Structural)]
pub enum Step {
    /// Parse the candidate at `index` as `format`.
    Parse { index: usize, format: Format },
    /// Merge the records parsed from the candidate at `index`.
    Merge { index: usize, format: Format },
    /// Apply the preprocessing rules to everything merged.
    Preprocess,
    /// Nothing: the dataset is ready.
    Finished,
}

/// The state of loading one side of a run.
#[derive(Debug)]
pub struct Loader {
    /// The files to attempt, in order.
    pub candidates: Vec<Candidate>,
    /// Index of the candidate being attempted; all before it are settled.
    pub cursor: usize,
    /// Where the attempt on the current candidate stands.
    pub stage: Stage,
    /// The position declared by the current candidate, once it parsed.
    pub pending_position: Option<GeodeticPosition>,
    /// One outcome per settled candidate, in order.
    pub outcomes: Vec<FileOutcome>,
    /// The files loaded so far.
    pub dataset: AggregateDataset,
    /// Whether preprocessing has been applied.
    pub preprocessed: bool,
}

impl Loader {
    /// The loader's parts fit together: one outcome per settled candidate,
    /// for the same file; the dataset holds exactly the loaded ones; the
    /// current attempt is not settled; and preprocessing comes last.
    pub open spec fn well_formed(self) -> bool {
        &&& self.cursor <= self.candidates@.len()
        &&& self.outcomes@.len() == self.cursor
        &&& forall|i: int|
            0 <= i < self.cursor ==> (#[trigger] self.outcomes@[i]).path@
                == self.candidates@[i].path@ && self.outcomes@[i].origin
                == self.candidates@[i].origin
        &&& self.dataset@ == loaded(self.outcomes@)
        &&& !(self.stage is Settled)
        &&& self.preprocessed ==> self.cursor == self.candidates@.len()
    }

    /// Every candidate is settled.
    pub open spec fn all_settled(self) -> bool {
        self.cursor == self.candidates@.len()
    }

    /// What the loader asks for in its current state.
    pub open spec fn pending_step(self) -> Step {
        if !self.all_settled() {
            match self.stage {
                Stage::Probing(format) => Step::Parse { index: self.cursor, format },
                Stage::Merging(format) => Step::Merge { index: self.cursor, format },
                Stage::Settled(_) => Step::Finished,
            }
        } else if !self.preprocessed {
            Step::Preprocess
        } else {
            Step::Finished
        }
    }

    /// The position kept for the current candidate after an answer: the one
    /// reported with a successful parse replaces what was kept before.
    pub open spec fn position_kept(
        self,
        succeeded: bool,
        declared: Option<GeodeticPosition>,
    ) -> Option<GeodeticPosition> {
        if self.stage is Probing && succeeded {
            declared
        } else {
            self.pending_position
        }
    }

    /// A loader for `candidates`, with nothing attempted yet.
    pub fn new(candidates: Vec<Candidate>) -> (loader: Loader)
        ensures
            loader.well_formed(),
            loader.candidates == candidates,
            loader.cursor == 0,
            loader.stage == Stage::Probing(Format::Rinex),
            loader.outcomes@.len() == 0,
            loader.dataset@ == Seq::<crate::dataset::RecordView>::empty(),
            !loader.preprocessed,
    {
        let loader = Loader {
            candidates,
            cursor: 0,
            stage: Stage::start(),
            pending_position: None,
            outcomes: Vec::new(),
            dataset: AggregateDataset::new(),
            preprocessed: false,
        };
        assert(loader.outcomes@ =~= Seq::<FileOutcome>::empty());
        loader
    }

    /// What the caller has to do next.
    pub fn step(&self) -> (step: Step)
        requires
            self.well_formed(),
        ensures
            step == self.pending_step(),
    {
        if self.cursor < self.candidates.len() {
            match self.stage {
                Stage::Probing(format) => Step::Parse { index: self.cursor, format },
                Stage::Merging(format) => Step::Merge { index: self.cursor, format },
                Stage::Settled(_) => Step::Finished,
            }
        } else if !self.preprocessed {
            Step::Preprocess
        } else {
            Step::Finished
        }
    }

    /// Takes in the caller's answer to a parse or merge step: whether it
    /// succeeded and, for a parse, the position the file declares.
    ///
    /// If the answer settles the current candidate, its outcome is recorded,
    /// the dataset grows by the file if it was loaded and is otherwise left
    /// as it was, the loader moves on to the next candidate, and the notice
    /// for the log is returned. If not, only the stage of the current
    /// attempt changes.
    pub fn answer(&mut self, succeeded: bool, declared: Option<GeodeticPosition>) -> (notice: Option<
        Notice,
    >)
        requires
            old(self).well_formed(),
            !old(self).all_settled(),
        ensures
            final(self).well_formed(),
            final(self).candidates == old(self).candidates,
            final(self).preprocessed == old(self).preprocessed,
            match next_stage(old(self).stage, succeeded) {
                Stage::Settled(verdict) => {
                    &&& final(self).cursor == old(self).cursor + 1
                    &&& final(self).stage == Stage::Probing(Format::Rinex)
                    &&& final(self).pending_position is None
                    &&& final(self).outcomes@.drop_last() == old(self).outcomes@
                    &&& final(self).outcomes@.last().verdict == verdict
                    &&& final(self).outcomes@.last().declared_position == if verdict is Loaded {
                        old(self).position_kept(succeeded, declared)
                    } else {
                        None
                    }
                    &&& final(self).dataset@ == absorbed(
                        old(self).dataset@,
                        final(self).outcomes@.last(),
                    )
                    &&& notice == notice_for(
                        old(self).candidates@[old(self).cursor as int].origin,
                        verdict,
                    )
                },
                unsettled => {
                    &&& final(self).cursor == old(self).cursor
                    &&& final(self).stage == unsettled
                    &&& final(self).pending_position == old(self).position_kept(succeeded, declared)
                    &&& final(self).outcomes@ == old(self).outcomes@
                    &&& final(self).dataset@ == old(self).dataset@
                    &&& notice is None
                },
            },
    {
        let index = self.cursor;
        let total = self.candidates.len();
        assert(index < total);
        let kept = match self.stage {
            Stage::Probing(_) => if succeeded {
                declared
            } else {
                self.pending_position
            },
            _ => self.pending_position,
        };
        match self.stage.advance(succeeded) {
            Stage::Settled(verdict) => {
                let candidate = &self.candidates[index];
                let origin = candidate.origin;
                let outcome = FileOutcome {
                    path: candidate.path.clone(),
                    origin,
                    verdict,
                    declared_position: if verdict.loaded() {
                        kept
                    } else {
                        None
                    },
                };
                let notice = outcome.notice();
                self.dataset.absorb(&outcome);
                let ghost before = self.outcomes@;
                self.outcomes.push(outcome);
                proof {
                    assert(self.outcomes@.drop_last() =~= before);
                    assert(self.outcomes@.last() == outcome);
                }
                self.cursor = index + 1;
                self.stage = Stage::start();
                self.pending_position = None;
                notice
            },
            unsettled => {
                self.stage = unsettled;
                self.pending_position = kept;
                None
            },
        }
    }

    /// Records that preprocessing was applied. It counts only once every
    /// candidate is settled; before that nothing changes.
    pub fn preprocessing_done(&mut self)
        requires
            old(self).well_formed(),
        ensures
            final(self).well_formed(),
            final(self).preprocessed == (old(self).preprocessed || old(self).all_settled()),
            final(self).candidates == old(self).candidates,
            final(self).cursor == old(self).cursor,
            final(self).stage == old(self).stage,
            final(self).pending_position == old(self).pending_position,
            final(self).outcomes == old(self).outcomes,
            final(self).dataset == old(self).dataset,
    {
        if self.cursor == self.candidates.len() {
            self.preprocessed = true;
        }
    }

    /// The dataset, once every candidate is settled and preprocessing was
    /// applied: exactly the files that were loaded, in candidate order.
    /// Before that, nothing.
    pub fn into_dataset(self) -> (dataset: Option<AggregateDataset>)
        requires
            self.well_formed(),
        ensures
            dataset is Some <==> self.all_settled() && self.preprocessed,
            dataset is Some ==> dataset->0@ == loaded(self.outcomes@),
    {
        if self.cursor == self.candidates.len() && self.preprocessed {
            Some(self.dataset)
        } else {
            None
        }
    }
}

} // verus!
