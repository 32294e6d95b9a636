//! Runs of completed changes of page, over which the navigators state what
//! becomes of their history.
use vstd::prelude::*;

verus! {

/// One completed change of page.
pub enum Travel<P> {
    /// A navigation to a page.
    Forward(P),
    /// A way back that has ended.
    Back,
}

/// How many of `steps` are navigations.
pub open spec fn forwards<P>(steps: Seq<Travel<P>>) -> nat
    decreases steps.len(),
{
    if steps.len() == 0 {
        0
    } else {
        forwards(steps.drop_last()) + if steps.last() is Forward {
            1nat
        } else {
            0nat
        }
    }
}

/// How many of `steps` are ways back.
pub open spec fn backs<P>(steps: Seq<Travel<P>>) -> nat
    decreases steps.len(),
{
    if steps.len() == 0 {
        0
    } else {
        backs(steps.drop_last()) + if steps.last() is Back {
            1nat
        } else {
            0nat
        }
    }
}

/// The length of a history that held `start` pages before `steps`, of
/// which `idle` ways back found it empty.
pub open spec fn history_length<P>(start: nat, steps: Seq<Travel<P>>, idle: nat) -> int {
    start + forwards(steps) - backs(steps) + idle
}

/// What the plain count gives for a history that was empty before `steps`:
/// the navigations less the ways back, and never less than none.
pub open spec fn clamped_length<P>(steps: Seq<Travel<P>>) -> int {
    if forwards(steps) >= backs(steps) {
        forwards(steps) - backs(steps)
    } else {
        0
    }
}

} // verus!
