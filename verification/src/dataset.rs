//! The aggregate dataset of one side of a run, built file by file.

use crate::discovery::Origin;
use crate::error::Error;
use crate::position::GeodeticPosition;
use crate::probe::{kind_for, FileKind, Format, Verdict};
use vstd::prelude::*;

verus! {

/// A file together with what it turned out to be. Lives only while loading.
#[derive(Clone, Debug)]
pub struct RawFileEntry {
    pub path: String,
    pub kind: FileKind,
}

/// Everything known about one file once the attempt to load it is settled.
#[derive(Clone, Debug)]
pub struct FileOutcome {
    pub path: String,
    pub origin: Origin,
    pub verdict: Verdict,
    /// The position the file declares, if it parsed and declares one.
    pub declared_position: Option<GeodeticPosition>,
}

/// One file that is part of a dataset.
#[derive(Clone, Debug)]
pub struct Record {
    pub path: String,
    pub format: Format,
    /// The position the file declares, if any.
    pub declared_position: Option<GeodeticPosition>,
}

/// What a `Record` stands for in contracts.
pub struct RecordView {
    pub path: Seq<char>,
    pub format: Format,
    pub declared_position: Option<GeodeticPosition>,
}

impl View for Record {
    type V = RecordView;

    open spec fn view(&self) -> RecordView {
        RecordView {
            path: self.path@,
            format: self.format,
            declared_position: self.declared_position,
        }
    }
}

/// The files loaded for one side of a run, in the order they were merged.
#[derive(Clone, Debug)]
pub struct AggregateDataset {
    pub records: Vec<Record>,
}

impl View for AggregateDataset {
    type V = Seq<RecordView>;

    open spec fn view(&self) -> Seq<RecordView> {
        self.records@.map_values(|r: Record| r@)
    }
}

/// Severity of a notice.
#[derive(Clone, Copy, Debug, PartialEq, Eq, Structural)]
pub enum Level {
    Debug,
    Info,
    Warn,
    Error,
}

/// What a notice about a file says.
#[derive(Clone, Copy, Debug, PartialEq, Eq, Structural)]
pub enum Message {
    /// The file is being loaded as the given format.
    Loading(Format),
    /// The file parsed as the given format but could not be loaded.
    LoadFailed(Format),
    /// The file is of no supported format.
    UnsupportedFormat,
}

/// A line for the log about one file.
#[derive(Clone, Copy, Debug, PartialEq, Eq, Structural)]
pub struct Notice {
    pub level: Level,
    pub message: Message,
}

/// The record a loaded file contributes, if it was loaded.
pub open spec fn record_of(outcome: FileOutcome) -> Option<RecordView> {
    match outcome.verdict {
        Verdict::Loaded(format) => Some(
            RecordView {
                path: outcome.path@,
                format,
                declared_position: outcome.declared_position,
            },
        ),
        _ => None,
    }
}

/// A dataset after the attempt on one more file: grown by the file's record
/// if the file was loaded, unchanged otherwise.
pub open spec fn absorbed(records: Seq<RecordView>, outcome: FileOutcome) -> Seq<RecordView> {
    match record_of(outcome) {
        Some(record) => records.push(record),
        None => records,
    }
}

/// The dataset that results from a sequence of settled files: the records
/// of those that were loaded, in order.
pub open spec fn loaded(outcomes: Seq<FileOutcome>) -> Seq<RecordView>
    decreases outcomes.len(),
{
    if outcomes.len() == 0 {
        Seq::empty()
    } else {
        absorbed(loaded(outcomes.drop_last()), outcomes.last())
    }
}

/// The position a dataset declares: that of the earliest record declaring
/// one.
pub open spec fn declared_by(records: Seq<RecordView>) -> Option<GeodeticPosition>
    decreases records.len(),
{
    if records.len() == 0 {
        None
    } else {
        match declared_by(records.drop_last()) {
            Some(position) => Some(position),
            None => records.last().declared_position,
        }
    }
}

/// The notice the log gets about a settled file, if any. A file that
/// was loaded is announced only when a directory walk found it; every file
/// that was not loaded gets a warning.
pub open spec fn notice_for(origin: Origin, verdict: Verdict) -> Option<Notice> {
    match verdict {
        Verdict::Loaded(format) => match origin {
            Origin::Discovered => Some(
                Notice { level: Level::Info, message: Message::Loading(format) },
            ),
            Origin::Explicit => None,
        },
        Verdict::MergeFailed(format) => Some(
            Notice { level: Level::Warn, message: Message::LoadFailed(format) },
        ),
        Verdict::Unsupported => Some(
            Notice { level: Level::Warn, message: Message::UnsupportedFormat },
        ),
    }
}

/// The level at which a finished dataset is summarised in the log.
pub open spec fn summary_level_for(differential: bool, is_rover: bool) -> Level {
    if differential && !is_rover {
        Level::Error
    } else {
        Level::Debug
    }
}

impl FileOutcome {
    /// The file with the kind it was recognised as.
    pub fn entry(&self) -> (entry: RawFileEntry)
        ensures
            entry.path@ == self.path@,
            entry.kind == kind_for(self.verdict),
    {
        RawFileEntry { path: self.path.clone(), kind: self.verdict.kind() }
    }

    /// The notice the log gets about this file, if any.
    pub fn notice(&self) -> (notice: Option<Notice>)
        ensures
            notice == notice_for(self.origin, self.verdict),
    {
        match self.verdict {
            Verdict::Loaded(format) => match self.origin {
                Origin::Discovered => Some(
                    Notice { level: Level::Info, message: Message::Loading(format) },
                ),
                Origin::Explicit => None,
            },
            Verdict::MergeFailed(format) => Some(
                Notice { level: Level::Warn, message: Message::LoadFailed(format) },
            ),
            Verdict::Unsupported => Some(
                Notice { level: Level::Warn, message: Message::UnsupportedFormat },
            ),
        }
    }
}

impl AggregateDataset {
    /// The empty dataset.
    pub fn new() -> (dataset: AggregateDataset)
        ensures
            dataset@ == Seq::<RecordView>::empty(),
    {
        let dataset = AggregateDataset { records: Vec::new() };
        assert(dataset@ =~= Seq::<RecordView>::empty());
        dataset
    }

    /// The dataset a run starts from, once the caller has set up what it
    /// needs to hold records: empty if that succeeded, and
    /// `Error::ContextBootstrap` if it did not.
    pub fn bootstrap(ready: bool) -> (r: Result<AggregateDataset, Error>)
        ensures
            r is Ok <==> ready,
            r is Ok ==> r->Ok_0@ == Seq::<RecordView>::empty(),
            r is Err ==> r->Err_0 == Error::ContextBootstrap,
    {
        if ready {
            Ok(AggregateDataset::new())
        } else {
            Err(Error::ContextBootstrap)
        }
    }

    /// Number of files in the dataset.
    pub fn len(&self) -> (n: usize)
        ensures
            n == self@.len(),
    {
        self.records.len()
    }

    /// Whether the dataset holds no file.
    pub fn is_empty(&self) -> (b: bool)
        ensures
            b == (self@.len() == 0),
    {
        self.records.len() == 0
    }

    /// Takes in the outcome of one file: the file's record is appended if the
    /// file was loaded, and the dataset is left as it was otherwise.
    pub fn absorb(&mut self, outcome: &FileOutcome)
        ensures
            final(self)@ == absorbed(old(self)@, *outcome),
    {
        match outcome.verdict {
            Verdict::Loaded(format) => {
                let record = Record {
                    path: outcome.path.clone(),
                    format,
                    declared_position: outcome.declared_position,
                };
                let ghost before = self.records@;
                self.records.push(record);
                assert(self@ =~= before.map_values(|r: Record| r@).push(record@));
            },
            _ => {},
        }
    }

    /// The dataset made of the files in `outcomes` that were loaded, in order.
    pub fn load(outcomes: &Vec<FileOutcome>) -> (dataset: AggregateDataset)
        ensures
            dataset@ == loaded(outcomes@),
    {
        let mut dataset = AggregateDataset::new();
        let mut i: usize = 0;
        assert(outcomes@.take(0) =~= Seq::<FileOutcome>::empty());
        while i < outcomes.len()
            invariant
                i <= outcomes.len(),
                dataset@ == loaded(outcomes@.take(i as int)),
            decreases outcomes.len() - i,
        {
            assert(outcomes@.take(i + 1).drop_last() =~= outcomes@.take(i as int));
            assert(outcomes@.take(i + 1).last() == outcomes@[i as int]);
            dataset.absorb(&outcomes[i]);
            i = i + 1;
        }
        assert(outcomes@.take(i as int) =~= outcomes@);
        dataset
    }

    /// The position the dataset declares: that of the earliest file
    /// declaring one, or none if no file does.
    pub fn reference_position(&self) -> (position: Option<GeodeticPosition>)
        ensures
            position == declared_by(self@),
    {
        let mut i: usize = 0;
        assert(self@.take(0) =~= Seq::<RecordView>::empty());
        while i < self.records.len()
            invariant
                i <= self.records.len(),
                self@.len() == self.records.len(),
                declared_by(self@.take(i as int)) is None,
            decreases self.records.len() - i,
        {
            assert(self@.take(i + 1).drop_last() =~= self@.take(i as int));
            assert(self@.take(i + 1).last() == self.records@[i as int]@);
            match self.records[i].declared_position {
                Some(position) => {
                    proof {
                        lemma_declared_is_stable(self@, i + 1);
                    }
                    return Some(position);
                },
                None => {},
            }
            i = i + 1;
        }
        assert(self@.take(i as int) =~= self@);
        None
    }
}

/// The level at which a finished dataset is summarised in the log: the
/// base-station dataset of a differential run at error level, any other
/// at debug level.
pub fn summary_level(differential: bool, is_rover: bool) -> (level: Level)
    ensures
        level == summary_level_for(differential, is_rover),
{
    if differential && !is_rover {
        Level::Error
    } else {
        Level::Debug
    }
}

/// Once some leading part of a dataset declares a position, the whole
/// dataset declares that same position.
pub proof fn lemma_declared_is_stable(records: Seq<RecordView>, n: int)
    requires
        0 <= n <= records.len(),
        declared_by(records.take(n)) is Some,
    ensures
        declared_by(records) == declared_by(records.take(n)),
    decreases records.len() - n,
{
    if n < records.len() {
        assert(records.take(n + 1).drop_last() =~= records.take(n));
        lemma_declared_is_stable(records, n + 1);
    } else {
        assert(records.take(n) =~= records);
    }
}

/// A dataset holds exactly the files that were loaded: each of its records
/// is the record of a file settled as loaded, every such file has its record
/// in the dataset, and a file that was not loaded contributes nothing.
pub proof fn lemma_loaded_exactly(outcomes: Seq<FileOutcome>)
    ensures
        loaded(outcomes).len() <= outcomes.len(),
        forall|k: int|
            0 <= k < loaded(outcomes).len() ==> exists|i: int|
                0 <= i < outcomes.len() && outcomes[i].verdict is Loaded && record_of(outcomes[i])
                    == Some(#[trigger] loaded(outcomes)[k]),
        forall|i: int|
            0 <= i < outcomes.len() && (#[trigger] outcomes[i]).verdict is Loaded ==> loaded(
                outcomes,
            ).contains(record_of(outcomes[i])->0),
    decreases outcomes.len(),
{
    if outcomes.len() > 0 {
        let head = outcomes.drop_last();
        let outcome = outcomes.last();
        lemma_loaded_exactly(head);
        let all = loaded(outcomes);
        let earlier = loaded(head);
        assert forall|k: int| 0 <= k < all.len() implies exists|i: int|
            0 <= i < outcomes.len() && outcomes[i].verdict is Loaded && record_of(outcomes[i])
                == Some(#[trigger] all[k]) by {
            if k < earlier.len() {
                assert(all[k] == earlier[k]);
                let i = choose|i: int|
                    0 <= i < head.len() && head[i].verdict is Loaded && record_of(head[i]) == Some(
                        earlier[k],
                    );
                assert(outcomes[i] == head[i]);
            } else {
                assert(outcomes[outcomes.len() - 1] == outcome);
            }
        }
        assert forall|i: int|
            0 <= i < outcomes.len() && (#[trigger] outcomes[i]).verdict is Loaded implies all.contains(
            record_of(outcomes[i])->0,
        ) by {
            let wanted = record_of(outcomes[i])->0;
            if i < head.len() {
                assert(outcomes[i] == head[i]);
                assert(earlier.contains(wanted));
                let k = choose|k: int| 0 <= k < earlier.len() && earlier[k] == wanted;
                assert(all[k] == wanted);
            } else {
                assert(all[all.len() - 1] == wanted);
            }
        }
    }
}

/// Loading is file by file: what a sequence of files yields is what its
/// leading part yields, followed by what the rest yields. A file that fails
/// therefore never removes a file merged before it.
pub proof fn lemma_loaded_is_incremental(earlier: Seq<FileOutcome>, later: Seq<FileOutcome>)
    ensures
        loaded(earlier + later) == loaded(earlier) + loaded(later),
    decreases later.len(),
{
    if later.len() == 0 {
        assert(earlier + later =~= earlier);
        assert(loaded(earlier) + loaded(later) =~= loaded(earlier));
    } else {
        assert((earlier + later).drop_last() =~= earlier + later.drop_last());
        assert((earlier + later).last() == later.last());
        lemma_loaded_is_incremental(earlier, later.drop_last());
        assert(loaded(earlier + later) =~= loaded(earlier) + loaded(later));
    }
}

} // verus!
