//! The object-count quota: how many objects a principal holds against how many
//! it may hold.

use vstd::prelude::*;

verus! {

/// Usage of one namespace against the configured limit.
#[derive(Clone, Copy, Debug, PartialEq, Eq, Structural)]
pub struct QuotaStatus {
    pub used: usize,
    pub limit: usize,
}

/// The answer of the quota gate for one mutating request.
#[derive(Clone, Copy, Debug, PartialEq, Eq, Structural)]
pub struct QuotaDecision {
    pub allowed: bool,
    pub used: usize,
}

/// A namespace with `used` objects has no room left under `limit`.
pub open spec fn exceeded(used: nat, limit: nat) -> bool {
    used >= limit
}

/// The number of objects that a listing in pages holds.
pub open spec fn listed(pages: Seq<usize>) -> nat
    decreases pages.len(),
{
    if pages.len() == 0 {
        0
    } else {
        listed(pages.drop_last()) + pages.last() as nat
    }
}

/// Counts the objects of a listing that came in pages: the sum of the pages,
/// or the largest count there is where the sum does not fit. Either way the
/// count reaches a limit exactly when the sum does.
pub fn count_pages(pages: &Vec<usize>) -> (used: usize)
    ensures
        used == if listed(pages@) <= usize::MAX {
            listed(pages@)
        } else {
            usize::MAX as nat
        },
        forall|limit: usize| exceeded(used as nat, limit as nat) == exceeded(listed(pages@), limit as nat),
{
    let mut used: usize = 0;
    let mut i: usize = 0;
    while i < pages.len()
        invariant
            i <= pages@.len(),
            used == if listed(pages@.subrange(0, i as int)) <= usize::MAX {
                listed(pages@.subrange(0, i as int))
            } else {
                usize::MAX as nat
            },
        decreases pages@.len() - i,
    {
        assert(pages@.subrange(0, i + 1).drop_last() =~= pages@.subrange(0, i as int));
        used = used.saturating_add(pages[i]);
        i += 1;
    }
    assert(pages@.subrange(0, i as int) =~= pages@);
    used
}

/// Whether a namespace that holds `used` objects has reached `limit`.
pub fn has_exceeded_limit(used: usize, limit: usize) -> (full: bool)
    ensures
        full == exceeded(used as nat, limit as nat),
{
    used >= limit
}

/// Decides whether one more object may be stored: allowed exactly when
/// `used < limit`. The count is reported back unchanged.
pub fn check_quota(used: usize, limit: usize) -> (decision: QuotaDecision)
    ensures
        decision.used == used,
        decision.allowed == !exceeded(used as nat, limit as nat),
{
    QuotaDecision { allowed: !has_exceeded_limit(used, limit), used }
}

/// The quota status reported to a caller.
pub fn quota_status(used: usize, limit: usize) -> (status: QuotaStatus)
    ensures
        status == (QuotaStatus { used, limit }),
{
    QuotaStatus { used, limit }
}

} // verus!
