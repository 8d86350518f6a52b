//! Choosing load candidates among the entries of a directory walk and the
//! files named one by one.

use vstd::prelude::*;

verus! {

/// One entry met while walking a directory tree.
#[derive(Clone, Debug)]
pub struct WalkEntry {
    /// Path of the entry.
    pub path: String,
    /// Number of levels below the directory the walk started from; the
    /// starting directory itself is at depth 0.
    pub depth: usize,
    /// Whether the entry is a directory.
    pub is_dir: bool,
}

/// How a candidate came to be considered.
#[derive(Clone, Copy, Debug, PartialEq, Eq, Structural)]
pub enum Origin {
    /// Found while walking a directory.
    Discovered,
    /// Named explicitly.
    Explicit,
}

/// A file that loading will be attempted on.
#[derive(Clone, Debug)]
pub struct Candidate {
    pub path: String,
    pub origin: Origin,
}

/// What a `Candidate` stands for in contracts.
pub struct CandidateView {
    pub path: Seq<char>,
    pub origin: Origin,
}

impl View for Candidate {
    type V = CandidateView;

    open spec fn view(&self) -> CandidateView {
        CandidateView { path: self.path@, origin: self.origin }
    }
}

/// Views of a sequence of candidates, in order.
pub open spec fn candidate_views(candidates: Seq<Candidate>) -> Seq<CandidateView> {
    candidates.map_values(|c: Candidate| c@)
}

/// An entry is a load candidate when it is not a directory and lies no
/// deeper than `max_depth`.
pub open spec fn eligible(entry: WalkEntry, max_depth: usize) -> bool {
    !entry.is_dir && entry.depth <= max_depth
}

/// The candidates a walk yields: its eligible entries, in walk order.
pub open spec fn discovered(entries: Seq<WalkEntry>, max_depth: usize) -> Seq<CandidateView>
    decreases entries.len(),
{
    if entries.len() == 0 {
        Seq::empty()
    } else {
        let earlier = discovered(entries.drop_last(), max_depth);
        let entry = entries.last();
        if eligible(entry, max_depth) {
            earlier.push(CandidateView { path: entry.path@, origin: Origin::Discovered })
        } else {
            earlier
        }
    }
}

/// The explicitly named files as candidates, in the order given.
pub open spec fn named(files: Seq<String>) -> Seq<CandidateView> {
    files.map_values(|f: String| CandidateView { path: f@, origin: Origin::Explicit })
}

/// Whether `entry` is a load candidate under the depth bound.
pub fn is_eligible(entry: &WalkEntry, max_depth: usize) -> (b: bool)
    ensures
        b == eligible(*entry, max_depth),
{
    !entry.is_dir && entry.depth <= max_depth
}

/// The full list of load candidates: the eligible entries of the walk
/// first, then the explicitly named files.
pub fn candidates(entries: &Vec<WalkEntry>, single_files: &Vec<String>, max_depth: usize) -> (out:
    Vec<Candidate>)
    ensures
        candidate_views(out@) == discovered(entries@, max_depth) + named(single_files@),
{
    let mut out: Vec<Candidate> = Vec::new();
    let mut i: usize = 0;
    assert(entries@.take(0) =~= Seq::<WalkEntry>::empty());
    while i < entries.len()
        invariant
            i <= entries.len(),
            candidate_views(out@) =~= discovered(entries@.take(i as int), max_depth),
        decreases entries.len() - i,
    {
        assert(entries@.take(i + 1).drop_last() =~= entries@.take(i as int));
        assert(entries@.take(i + 1).last() == entries@[i as int]);
        if is_eligible(&entries[i], max_depth) {
            out.push(Candidate { path: entries[i].path.clone(), origin: Origin::Discovered });
        }
        i = i + 1;
    }
    assert(entries@.take(i as int) =~= entries@);
    let mut j: usize = 0;
    while j < single_files.len()
        invariant
            j <= single_files.len(),
            candidate_views(out@) =~= discovered(entries@, max_depth) + named(
                single_files@.take(j as int),
            ),
        decreases single_files.len() - j,
    {
        let ghost before = out@;
        let candidate = Candidate { path: single_files[j].clone(), origin: Origin::Explicit };
        out.push(candidate);
        proof {
            let grown = single_files@.take(j + 1);
            assert(grown =~= single_files@.take(j as int).push(single_files@[j as int]));
            assert(named(grown) =~= named(single_files@.take(j as int)).push(candidate@));
            assert(candidate_views(out@) =~= candidate_views(before).push(candidate@));
        }
        j = j + 1;
    }
    assert(single_files@.take(j as int) =~= single_files@);
    out
}

/// Every candidate a walk yields is the path of an entry that is not a
/// directory and lies no deeper than the bound, and every such entry is
/// among the candidates.
pub proof fn lemma_discovered_within_depth(entries: Seq<WalkEntry>, max_depth: usize)
    ensures
        forall|k: int|
            0 <= k < discovered(entries, max_depth).len() ==> exists|i: int|
                0 <= i < entries.len() && eligible(entries[i], max_depth) && #[trigger] discovered(
                    entries,
                    max_depth,
                )[k] == (CandidateView { path: entries[i].path@, origin: Origin::Discovered }),
        forall|i: int|
            0 <= i < entries.len() && eligible(#[trigger] entries[i], max_depth) ==> discovered(
                entries,
                max_depth,
            ).contains(CandidateView { path: entries[i].path@, origin: Origin::Discovered }),
    decreases entries.len(),
{
    if entries.len() > 0 {
        let head = entries.drop_last();
        let entry = entries.last();
        lemma_discovered_within_depth(head, max_depth);
        let all = discovered(entries, max_depth);
        let earlier = discovered(head, max_depth);
        assert forall|k: int| 0 <= k < all.len() implies exists|i: int|
            0 <= i < entries.len() && eligible(entries[i], max_depth) && #[trigger] all[k] == (
            CandidateView { path: entries[i].path@, origin: Origin::Discovered }) by {
            if k < earlier.len() {
                assert(all[k] == earlier[k]);
                let i = choose|i: int|
                    0 <= i < head.len() && eligible(head[i], max_depth) && earlier[k] == (
                    CandidateView { path: head[i].path@, origin: Origin::Discovered });
                assert(entries[i] == head[i]);
            } else {
                assert(entries[entries.len() - 1] == entry);
            }
        }
        assert forall|i: int|
            0 <= i < entries.len() && eligible(#[trigger] entries[i], max_depth) implies all.contains(
            CandidateView { path: entries[i].path@, origin: Origin::Discovered },
        ) by {
            let wanted = CandidateView { path: entries[i].path@, origin: Origin::Discovered };
            if i < head.len() {
                assert(entries[i] == head[i]);
                assert(earlier.contains(wanted));
                let k = choose|k: int| 0 <= k < earlier.len() && earlier[k] == wanted;
                assert(all[k] == wanted);
            } else {
                assert(all[all.len() - 1] == wanted);
            }
        }
    }
}

} // verus!
