//! The per-file loading protocol: which format to try next, when to merge,
//! and how the attempt on one file is settled.
//!
//! The caller parses and merges; this module decides what is asked of it and
//! what each answer leads to.

use vstd::prelude::*;

verus! {

/// A supported record format. Formats are tried in the order listed.
#[derive(Clone, Copy, Debug, PartialEq, Eq, Structural)]
pub enum Format {
    Rinex,
    Sp3,
}

/// What a file turned out to be.
#[derive(Clone, Copy, Debug, PartialEq, Eq, Structural)]
pub enum FileKind {
    Rinex,
    Sp3,
    Unrecognized,
}

/// How the attempt on one file ended.
#[derive(Clone, Copy, Debug, PartialEq, Eq, Structural)]
pub enum Verdict {
    /// Parsed as the given format and merged into the dataset.
    Loaded(Format),
    /// Parsed as the given format, but the merge failed.
    MergeFailed(Format),
    /// No supported format parsed the file.
    Unsupported,
}

/// Where the attempt on one file stands.
#[derive(Clone, Copy, Debug, PartialEq, Eq, Structural)]
pub enum Stage {
    /// The file is to be parsed as the given format.
    Probing(Format),
    /// The file parsed as the given format and is to be merged.
    Merging(Format),
    /// Nothing is left to do.
    Settled(Verdict),
}

/// What the caller is asked to do for a file.
#[derive(Clone, Copy, Debug, PartialEq, Eq, Structural)]
pub enum Request {
    Parse(Format),
    Merge(Format),
    Nothing,
}

/// The format tried after `format` fails to parse, if any.
pub open spec fn fallback_of(format: Format) -> Option<Format> {
    match format {
        Format::Rinex => Some(Format::Sp3),
        Format::Sp3 => None,
    }
}

/// The stage that follows `stage` once the caller reports whether the
/// requested step succeeded.
pub open spec fn next_stage(stage: Stage, succeeded: bool) -> Stage {
    match stage {
        Stage::Probing(format) => if succeeded {
            Stage::Merging(format)
        } else {
            match fallback_of(format) {
                Some(other) => Stage::Probing(other),
                None => Stage::Settled(Verdict::Unsupported),
            }
        },
        Stage::Merging(format) => if succeeded {
            Stage::Settled(Verdict::Loaded(format))
        } else {
            Stage::Settled(Verdict::MergeFailed(format))
        },
        Stage::Settled(verdict) => Stage::Settled(verdict),
    }
}

/// The stage reached from `stage` after the answers in `answers`, in order.
pub open spec fn stage_after(stage: Stage, answers: Seq<bool>) -> Stage
    decreases answers.len(),
{
    if answers.len() == 0 {
        stage
    } else {
        next_stage(stage_after(stage, answers.drop_last()), answers.last())
    }
}

/// How a file is settled, given whether each format parses it and whether
/// the merge of the parsed records succeeds.
pub open spec fn verdict_for(parses_as_rinex: bool, parses_as_sp3: bool, merges: bool) -> Verdict {
    if parses_as_rinex {
        if merges {
            Verdict::Loaded(Format::Rinex)
        } else {
            Verdict::MergeFailed(Format::Rinex)
        }
    } else if parses_as_sp3 {
        if merges {
            Verdict::Loaded(Format::Sp3)
        } else {
            Verdict::MergeFailed(Format::Sp3)
        }
    } else {
        Verdict::Unsupported
    }
}

/// The kind recorded for a file settled with `verdict`.
pub open spec fn kind_for(verdict: Verdict) -> FileKind {
    match verdict {
        Verdict::Loaded(Format::Rinex) | Verdict::MergeFailed(Format::Rinex) => FileKind::Rinex,
        Verdict::Loaded(Format::Sp3) | Verdict::MergeFailed(Format::Sp3) => FileKind::Sp3,
        Verdict::Unsupported => FileKind::Unrecognized,
    }
}

impl Format {
    /// The format tried first.
    pub fn first() -> (format: Format)
        ensures
            format == Format::Rinex,
    {
        Format::Rinex
    }

    /// The format tried after this one fails to parse, if any.
    pub fn fallback(self) -> (next: Option<Format>)
        ensures
            next == fallback_of(self),
    {
        match self {
            Format::Rinex => Some(Format::Sp3),
            Format::Sp3 => None,
        }
    }
}

impl Verdict {
    /// Whether the file became part of the dataset.
    pub open spec fn is_loaded(self) -> bool {
        self is Loaded
    }

    /// Whether the file became part of the dataset.
    pub fn loaded(self) -> (b: bool)
        ensures
            b == self.is_loaded(),
    {
        match self {
            Verdict::Loaded(_) => true,
            _ => false,
        }
    }

    /// The kind recorded for a file settled this way.
    pub fn kind(self) -> (kind: FileKind)
        ensures
            kind == kind_for(self),
    {
        match self {
            Verdict::Loaded(Format::Rinex) | Verdict::MergeFailed(Format::Rinex) => FileKind::Rinex,
            Verdict::Loaded(Format::Sp3) | Verdict::MergeFailed(Format::Sp3) => FileKind::Sp3,
            Verdict::Unsupported => FileKind::Unrecognized,
        }
    }
}

impl Stage {
    /// The stage every file starts in: parsing as the first format.
    pub fn start() -> (stage: Stage)
        ensures
            stage == Stage::Probing(Format::Rinex),
    {
        Stage::Probing(Format::first())
    }

    /// What the caller has to do in this stage.
    pub fn request(self) -> (request: Request)
        ensures
            request == match self {
                Stage::Probing(format) => Request::Parse(format),
                Stage::Merging(format) => Request::Merge(format),
                Stage::Settled(_) => Request::Nothing,
            },
    {
        match self {
            Stage::Probing(format) => Request::Parse(format),
            Stage::Merging(format) => Request::Merge(format),
            Stage::Settled(_) => Request::Nothing,
        }
    }

    /// The stage that follows once the caller reports whether the requested
    /// step succeeded. A settled file stays settled.
    pub fn advance(self, succeeded: bool) -> (next: Stage)
        ensures
            next == next_stage(self, succeeded),
    {
        match self {
            Stage::Probing(format) => {
                if succeeded {
                    Stage::Merging(format)
                } else {
                    match format.fallback() {
                        Some(other) => Stage::Probing(other),
                        None => Stage::Settled(Verdict::Unsupported),
                    }
                }
            },
            Stage::Merging(format) => {
                if succeeded {
                    Stage::Settled(Verdict::Loaded(format))
                } else {
                    Stage::Settled(Verdict::MergeFailed(format))
                }
            },
            Stage::Settled(verdict) => Stage::Settled(verdict),
        }
    }

    /// The verdict, once the file is settled.
    pub fn verdict(self) -> (verdict: Option<Verdict>)
        ensures
            verdict == match self {
                Stage::Settled(v) => Some(v),
                _ => None::<Verdict>,
            },
    {
        match self {
            Stage::Settled(v) => Some(v),
            _ => None,
        }
    }
}

/// Settles a file from the answers the caller would give: whether each
/// format parses it and whether the merge succeeds.
pub fn settle(parses_as_rinex: bool, parses_as_sp3: bool, merges: bool) -> (verdict: Verdict)
    ensures
        verdict == verdict_for(parses_as_rinex, parses_as_sp3, merges),
{
    let mut stage = Stage::start();
    let mut steps: u8 = 0;
    while steps < 3
        invariant
            steps <= 3,
            steps == 0 ==> stage == Stage::Probing(Format::Rinex),
            steps == 1 ==> stage == if parses_as_rinex {
                Stage::Merging(Format::Rinex)
            } else {
                Stage::Probing(Format::Sp3)
            },
            steps == 2 ==> stage == if parses_as_rinex {
                Stage::Settled(verdict_for(parses_as_rinex, parses_as_sp3, merges))
            } else if parses_as_sp3 {
                Stage::Merging(Format::Sp3)
            } else {
                Stage::Settled(Verdict::Unsupported)
            },
            steps == 3 ==> stage == Stage::Settled(
                verdict_for(parses_as_rinex, parses_as_sp3, merges),
            ),
        decreases 3 - steps,
    {
        let answer = match stage.request() {
            Request::Parse(Format::Rinex) => parses_as_rinex,
            Request::Parse(Format::Sp3) => parses_as_sp3,
            Request::Merge(_) => merges,
            Request::Nothing => true,
        };
        stage = stage.advance(answer);
        steps = steps + 1;
    }
    match stage.verdict() {
        Some(verdict) => verdict,
        None => Verdict::Unsupported,
    }
}

/// A settled file stays settled whatever is reported afterwards.
pub proof fn lemma_settled_is_final(verdict: Verdict, answers: Seq<bool>)
    ensures
        stage_after(Stage::Settled(verdict), answers) == Stage::Settled(verdict),
    decreases answers.len(),
{
    if answers.len() > 0 {
        lemma_settled_is_final(verdict, answers.drop_last());
    }
}

/// Every file is settled after at most three answers, and the first format
/// that parses decides: the second format is consulted only when the first
/// fails, and a file that no format parses is settled as unsupported.
pub proof fn lemma_protocol_settles(first: bool, second: bool, third: bool)
    ensures
        stage_after(Stage::Probing(Format::Rinex), seq![first, second, third]) is Settled,
        first ==> stage_after(Stage::Probing(Format::Rinex), seq![first, second])
            == Stage::Settled(verdict_for(true, false, second)),
        !first ==> stage_after(Stage::Probing(Format::Rinex), seq![first, second, third])
            == Stage::Settled(verdict_for(false, second, third)),
{
    let start = Stage::Probing(Format::Rinex);
    let one = seq![first];
    let two = seq![first, second];
    let three = seq![first, second, third];
    assert(one.drop_last() =~= Seq::<bool>::empty());
    assert(two.drop_last() =~= one);
    assert(three.drop_last() =~= two);
    assert(stage_after(start, Seq::<bool>::empty()) == start);
    assert(stage_after(start, one) == next_stage(start, first));
    assert(stage_after(start, two) == next_stage(stage_after(start, one), second));
    assert(stage_after(start, three) == next_stage(stage_after(start, two), third));
}

} // verus!
