use vstd::prelude::*;

use crate::errors::PatchError;
use crate::paths::{spec_is_app_named, NodePath};

verus! {

/// The nearest ancestor-or-self of `p` whose name ends in `.app`, walking
/// from `p` toward the root.
pub open spec fn nearest_candidate(p: Seq<Seq<u8>>) -> Option<Seq<Seq<u8>>>
    decreases p.len(),
{
    if spec_is_app_named(p) {
        Some(p)
    } else if p.len() == 0 {
        None
    } else {
        nearest_candidate(p.drop_last())
    }
}

/// The bundle the ancestry walk settles on, given the set `valid` of paths
/// that the external validator accepts as bundles: the nearest
/// ancestor-or-self of `p` that is both `.app`-named and valid, or `None`
/// when no ancestor qualifies.
pub open spec fn locate_from(p: Seq<Seq<u8>>, valid: Set<Seq<Seq<u8>>>) -> Option<Seq<Seq<u8>>>
    decreases p.len(),
{
    if spec_is_app_named(p) && valid.contains(p) {
        Some(p)
    } else if p.len() == 0 {
        None
    } else {
        locate_from(p.drop_last(), valid)
    }
}

/// One position of the ancestry walk. The walk itself decides everything;
/// the only outside fact it needs — whether a candidate directory validates
/// as a bundle — is handed in by whoever drives it.
#[derive(Debug, PartialEq, Eq)]
pub enum LocateState {
    /// The walk needs the validator's verdict on this `.app`-named ancestor.
    Probe(NodePath),
    /// The walk found its bundle: the nearest `.app`-named ancestor that the
    /// validator accepted.
    Found(NodePath),
    /// The walk is over without a bundle.
    Failed(PatchError),
}

/// Walk from `start` toward the root and stop at the first `.app`-named
/// position, asking for its verdict; fail once the root is passed.
fn probe_from(start: NodePath) -> (r: LocateState)
    ensures
        nearest_candidate(start@) matches Some(c) ==> (r matches LocateState::Probe(p) && p@ == c),
        nearest_candidate(start@) is None ==> (r matches LocateState::Failed(e) && e
            == PatchError::NoBundleFound),
{
    let mut cur = start;
    loop
        invariant
            nearest_candidate(cur@) == nearest_candidate(start@),
        decreases cur@.len(),
    {
        if cur.is_app_named() {
            return LocateState::Probe(cur);
        }
        if cur.depth() == 0 {
            return LocateState::Failed(PatchError::NoBundleFound);
        }
        cur.drop_last();
    }
}

/// Begin the bundle search at `input`. `input_exists` is the one filesystem
/// fact the search starts from: a missing input fails at once, before any
/// ancestor is considered.
pub fn locate_begin(input: &NodePath, input_exists: bool) -> (r: LocateState)
    ensures
        !input_exists ==> (r matches LocateState::Failed(e) && e == PatchError::PathNotFound),
        input_exists ==> (nearest_candidate(input@) matches Some(c) ==> (r
            matches LocateState::Probe(p) && p@ == c)),
        input_exists ==> (nearest_candidate(input@) is None ==> (r matches LocateState::Failed(e)
            && e == PatchError::NoBundleFound)),
{
    if !input_exists {
        return LocateState::Failed(PatchError::PathNotFound);
    }
    probe_from(input.clone())
}

/// Continue the search after the validator's verdict on the probed ancestor:
/// a valid bundle ends the walk at once (first match wins); an invalid one is
/// skipped and the walk resumes at its parent.
pub fn locate_advance(probed: &NodePath, is_valid_bundle: bool) -> (r: LocateState)
    ensures
        is_valid_bundle ==> (r matches LocateState::Found(b) && b@ == probed@),
        !is_valid_bundle && probed@.len() == 0 ==> (r matches LocateState::Failed(e) && e
            == PatchError::NoBundleFound),
        !is_valid_bundle && probed@.len() > 0 ==> (nearest_candidate(probed@.drop_last())
            matches Some(c) ==> (r matches LocateState::Probe(p) && p@ == c)),
        !is_valid_bundle && probed@.len() > 0 ==> (nearest_candidate(probed@.drop_last()) is None
            ==> (r matches LocateState::Failed(e) && e == PatchError::NoBundleFound)),
{
    if is_valid_bundle {
        return LocateState::Found(probed.clone());
    }
    if probed.depth() == 0 {
        return LocateState::Failed(PatchError::NoBundleFound);
    }
    let mut parent = probed.clone();
    parent.drop_last();
    probe_from(parent)
}

/// One round of the walk agrees with `locate_from`: a valid nearest candidate
/// is the result; an invalid one is skipped in favour of the search above it;
/// no candidate at all means no bundle. Driving `locate_begin` and
/// `locate_advance` with verdicts drawn from `valid` therefore computes
/// exactly `locate_from(input, valid)`.
pub proof fn lemma_probe_round(p: Seq<Seq<u8>>, valid: Set<Seq<Seq<u8>>>)
    ensures
        nearest_candidate(p) matches Some(c) ==> (valid.contains(c) ==> locate_from(p, valid)
            == Some(c)),
        nearest_candidate(p) matches Some(c) ==> (!valid.contains(c) ==> locate_from(p, valid) == (
        if c.len() > 0 {
            locate_from(c.drop_last(), valid)
        } else {
            None
        })),
        nearest_candidate(p) is None ==> locate_from(p, valid) is None,
    decreases p.len(),
{
    if spec_is_app_named(p) {
    } else if p.len() == 0 {
    } else {
        lemma_probe_round(p.drop_last(), valid);
    }
}

/// `nearest_candidate` deserves its name: when it returns a path, that path
/// is an `.app`-named prefix of `p` and no longer prefix of `p` is
/// `.app`-named; when it returns nothing, no prefix of `p` is `.app`-named.
pub proof fn lemma_nearest_candidate_is_nearest(p: Seq<Seq<u8>>)
    ensures
        nearest_candidate(p) matches Some(c) ==> {
            &&& spec_is_app_named(c)
            &&& exists|k: int| 0 <= k <= p.len() && c == p.subrange(0, k)
            &&& forall|j: int|
                c.len() < j <= p.len() ==> !spec_is_app_named(#[trigger] p.subrange(0, j))
        },
        nearest_candidate(p) is None ==> forall|k: int|
            0 <= k <= p.len() ==> !spec_is_app_named(#[trigger] p.subrange(0, k)),
    decreases p.len(),
{
    assert(p.subrange(0, p.len() as int) =~= p);
    if spec_is_app_named(p) {
        assert(0 <= p.len() && p == p.subrange(0, p.len() as int));
    } else if p.len() == 0 {
    } else {
        let q = p.drop_last();
        assert(q =~= p.subrange(0, p.len() - 1));
        lemma_nearest_candidate_is_nearest(q);
        assert forall|k: int| 0 <= k <= q.len() implies q.subrange(0, k) == p.subrange(0, k) by {
            assert(q.subrange(0, k) =~= p.subrange(0, k));
        }
        match nearest_candidate(q) {
            Some(c) => {
                let k = choose|k: int| 0 <= k <= q.len() && c == q.subrange(0, k);
                assert(c == p.subrange(0, k));
            },
            None => {},
        }
    }
}

/// If no ancestor-or-self of `p` — no prefix of its components — is an
/// `.app`-named path that the validator accepts, the search over the whole
/// ancestry ends with nothing, having walked to the root.
pub proof fn lemma_locate_no_valid_ancestor(p: Seq<Seq<u8>>, valid: Set<Seq<Seq<u8>>>)
    requires
        forall|k: int|
            0 <= k <= p.len() ==> !(spec_is_app_named(#[trigger] p.subrange(0, k))
                && valid.contains(p.subrange(0, k))),
    ensures
        locate_from(p, valid) is None,
    decreases p.len(),
{
    assert(p.subrange(0, p.len() as int) =~= p);
    if p.len() > 0 {
        let q = p.drop_last();
        assert forall|k: int|
            0 <= k <= q.len() implies !(spec_is_app_named(#[trigger] q.subrange(0, k))
            && valid.contains(q.subrange(0, k))) by {
            assert(q.subrange(0, k) =~= p.subrange(0, k));
        }
        lemma_locate_no_valid_ancestor(q, valid);
    }
}

/// The search returns the nearest valid `.app`-named ancestor and skips any
/// nearer `.app`-named ancestor that fails validation: if the prefix of
/// length `k` is `.app`-named and valid, and no longer prefix is both, the
/// search from `p` settles on that prefix.
pub proof fn lemma_locate_skips_invalid(p: Seq<Seq<u8>>, valid: Set<Seq<Seq<u8>>>, k: int)
    requires
        0 <= k <= p.len(),
        spec_is_app_named(p.subrange(0, k)),
        valid.contains(p.subrange(0, k)),
        forall|j: int|
            k < j <= p.len() ==> !(spec_is_app_named(#[trigger] p.subrange(0, j))
                && valid.contains(p.subrange(0, j))),
    ensures
        locate_from(p, valid) == Some(p.subrange(0, k)),
    decreases p.len(),
{
    assert(p.subrange(0, p.len() as int) =~= p);
    if k == p.len() {
    } else {
        let q = p.drop_last();
        assert(q =~= p.subrange(0, p.len() - 1));
        assert(q.subrange(0, k) =~= p.subrange(0, k));
        assert forall|j: int|
            k < j <= q.len() implies !(spec_is_app_named(#[trigger] q.subrange(0, j))
            && valid.contains(q.subrange(0, j))) by {
            assert(q.subrange(0, j) =~= p.subrange(0, j));
        }
        lemma_locate_skips_invalid(q, valid, k);
        assert(locate_from(p, valid) == locate_from(q, valid));
    }
}

} // verus!
