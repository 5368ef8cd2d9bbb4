//! The containment rule for ancestry queries.
//!
//! A branch contains a commit when its tip *is* that commit, or when the tip
//! is a strict descendant of it.  The first disjunct must be checked
//! explicitly: the descendant relation alone does not cover a commit being
//! compared with itself.

use vstd::prelude::*;

verus! {

/// Whether a branch whose tip is `tip` contains `commit`, given whether the
/// tip is a strict descendant of the commit.
pub open spec fn tip_contains(tip: Seq<u8>, commit: Seq<u8>, tip_descends: bool) -> bool {
    tip == commit || tip_descends
}

/// Combine the two halves of the containment rule.
pub fn containment_verdict(tip_is_commit: bool, tip_descends: bool) -> (r: bool)
    ensures
        r == (tip_is_commit || tip_descends),
{
    tip_is_commit || tip_descends
}

/// A branch whose tip is exactly the queried commit contains it, whatever the
/// strict-descendant relation says.
pub proof fn lemma_tip_equals_commit_is_contained(tip: Seq<u8>, commit: Seq<u8>, tip_descends: bool)
    requires
        tip == commit,
    ensures
        tip_contains(tip, commit, tip_descends),
{
}

/// A branch whose tip strictly descends from the queried commit contains it,
/// whether or not the tip equals the commit.
pub proof fn lemma_descendant_tip_is_contained(tip: Seq<u8>, commit: Seq<u8>)
    ensures
        tip_contains(tip, commit, true),
{
}

} // verus!
