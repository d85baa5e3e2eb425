//! Line-of-sight verdicts for the relay constellation.
//!
//! A link between two positions is checked against each occluding body in a
//! fixed order (Earth, then Sun, then Mars); the first body found to block
//! the segment is reported.

use vstd::prelude::*;

verus! {

/// Result of a line of sight check
#[derive(Debug, Clone, PartialEq)]
pub enum VisibilityResult {
    /// Unobstructed line of sight
    Visible,
    /// Line of sight blocked by the named body
    Occluded { by: &'static str },
}

impl VisibilityResult {
    pub fn is_visible(&self) -> (b: bool)
        ensures
            b == (*self is Visible),
    {
        match self {
            VisibilityResult::Visible => true,
            VisibilityResult::Occluded { .. } => false,
        }
    }
}

/// `i` is the first check in `checks` that found the segment blocked.
pub open spec fn first_blocking(checks: Seq<(&'static str, bool)>, i: int) -> bool {
    &&& 0 <= i < checks.len()
    &&& checks[i].1
    &&& forall|j: int| 0 <= j < i ==> !(#[trigger] checks[j]).1
}

/// Verdict of a line-of-sight check from its per-body occlusion checks.
///
/// `checks` holds, in the order the bodies are checked, each body's name and
/// whether it blocks the segment. The segment is visible when no body blocks
/// it; otherwise the first blocking body is reported.
pub fn verdict_from_checks(checks: &[(&'static str, bool)]) -> (r: VisibilityResult)
    ensures
        r is Visible <==> forall|j: int| 0 <= j < checks@.len() ==> !(#[trigger] checks@[j]).1,
        r matches VisibilityResult::Occluded { by } ==> exists|i: int|
            first_blocking(checks@, i) && #[trigger] checks@[i].0 == by,
{
    let mut i: usize = 0;
    while i < checks.len()
        invariant
            0 <= i <= checks@.len(),
            forall|j: int| 0 <= j < i ==> !(#[trigger] checks@[j]).1,
        decreases checks@.len() - i,
    {
        let (name, blocked) = checks[i];
        if blocked {
            assert(first_blocking(checks@, i as int));
            return VisibilityResult::Occluded { by: name };
        }
        i = i + 1;
    }
    VisibilityResult::Visible
}

/// The first blocking check is unique, so the reported body is determined by
/// the checks: in particular, when the first body checked (Earth) blocks the
/// segment, it is the one reported, whatever the later checks found.
pub proof fn lemma_first_blocking_unique(checks: Seq<(&'static str, bool)>, i: int, k: int)
    requires
        first_blocking(checks, i),
        first_blocking(checks, k),
    ensures
        i == k,
{
    if i < k {
        assert(!checks[i].1);
    }
    if k < i {
        assert(!checks[k].1);
    }
}

/// When the first body checked blocks the segment, the verdict names that
/// body, whatever the later checks found; when no body blocks it, nothing is
/// first to block.
pub proof fn lemma_first_checked_body_wins(checks: Seq<(&'static str, bool)>, i: int)
    requires
        checks.len() > 0,
        checks[0].1,
        first_blocking(checks, i),
    ensures
        i == 0,
        checks[i].0 == checks[0].0,
{
    if i > 0 {
        assert(!checks[0].1);
    }
}

} // verus!
