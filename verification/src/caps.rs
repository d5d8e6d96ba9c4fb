//! Giving up privileges: which capabilities leave the bounding set, and
//! the bit that keeps new ones from being gained.

use crate::plan::{required, Op, OpModel, Step, StepModel};
use vstd::prelude::*;

verus! {

/// The capability to change the owner of files. The container keeps it,
/// so that a command in it can still adjust the ownership of its own files.
pub const CAP_CHOWN: u8 = 0;

/// The highest capability that current kernels know.
pub const CAP_LAST_CAP: u8 = 40;

/// The capabilities below `n` that are dropped: all but `CAP_CHOWN`, in
/// ascending order.
pub open spec fn dropped_below(n: nat) -> Seq<u8>
    decreases n,
{
    if n == 0 {
        Seq::empty()
    } else if n - 1 == CAP_CHOWN {
        dropped_below((n - 1) as nat)
    } else {
        dropped_below((n - 1) as nat).push((n - 1) as u8)
    }
}

/// The steps that strip the privileges of the calling process: every
/// capability up to `last_cap` except `CAP_CHOWN` is dropped from the
/// bounding set, then the no-new-privileges bit is set.
pub open spec fn drop_plan(last_cap: u8) -> Seq<StepModel> {
    dropped_below((last_cap + 1) as nat).map_values(
        |cap: u8| required(OpModel::DropBoundingCap { cap }),
    ).push(required(OpModel::SetNoNewPrivs))
}

/// The dropped capabilities are exactly those from 1 to `n - 1`, each
/// once and in ascending order: `CAP_CHOWN`, which is 0, is not among them.
pub proof fn lemma_dropped_below(n: nat)
    requires
        n <= 256,
    ensures
        dropped_below(n) == Seq::new(
            if n == 0 {
                0
            } else {
                (n - 1) as nat
            },
            |i: int| (i + 1) as u8,
        ),
    decreases n,
{
    if n > 0 {
        lemma_dropped_below((n - 1) as nat);
    }
}

/// Strips the privileges of the calling process, keeping only `CAP_CHOWN`
/// of the capabilities up to `last_cap`.
pub fn drop_capabilities(last_cap: u8) -> (plan: Vec<Step>)
    ensures
        plan.deep_view() == drop_plan(last_cap),
{
    let ghost drop = |cap: u8| required(OpModel::DropBoundingCap { cap });
    let mut plan: Vec<Step> = Vec::new();
    let mut cap: u8 = 0;
    while cap < last_cap
        invariant
            cap <= last_cap,
            drop == |cap: u8| required(OpModel::DropBoundingCap { cap }),
            plan.deep_view() == dropped_below(cap as nat).map_values(drop),
        decreases last_cap - cap,
    {
        let ghost before = plan.deep_view();
        if cap != CAP_CHOWN {
            plan.push(Step::required(Op::DropBoundingCap { cap }));
            assert(plan.deep_view() =~= before.push(drop(cap)));
        }
        cap += 1;
    }
    let ghost before = plan.deep_view();
    if last_cap != CAP_CHOWN {
        plan.push(Step::required(Op::DropBoundingCap { cap: last_cap }));
        assert(plan.deep_view() =~= before.push(drop(last_cap)));
    }
    assert(plan.deep_view() =~= dropped_below((last_cap + 1) as nat).map_values(drop));
    plan.push(Step::required(Op::SetNoNewPrivs));
    plan
}

} // verus!
