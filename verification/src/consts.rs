use vstd::prelude::*;

verus! {

/// Number of harts the hypervisor brings up: one primary and one secondary.
pub const MAX_CPU_NUM: usize = 2;

/// The hart that is not `hartid` on the two-hart platform (hart 0 for any
/// number but 0).
pub open spec fn other_hart(hartid: usize) -> usize {
    if hartid == 0 {
        1
    } else {
        0
    }
}

/// The hart that is not `hartid` on the two-hart platform.
pub fn another_hartid(hartid: usize) -> (r: usize)
    ensures
        r == other_hart(hartid),
{
    if hartid == 0 {
        1
    } else {
        0
    }
}

/// On the two harts, the other hart of the other hart is the hart itself,
/// and no hart is its own other hart.
pub proof fn lemma_another_hartid_pairs(hartid: usize)
    requires
        hartid < MAX_CPU_NUM,
    ensures
        other_hart(hartid) < MAX_CPU_NUM,
        other_hart(hartid) != hartid,
        other_hart(other_hart(hartid)) == hartid,
{
}

} // verus!
