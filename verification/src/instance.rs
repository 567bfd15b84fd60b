//! The single-instance gate: what the running instance does when a second
//! launch is forwarded to it. It brings the main window to the front as it
//! is; it neither probes the site nor navigates.

use vstd::prelude::*;
use crate::action::{push_reveal_main, reveal_main, Action, Effect};
use crate::shell::{lemma_after_reveal_main, Shell};

verus! {

/// The plan for a forwarded second launch.
pub open spec fn second_instance_plan() -> Seq<Effect> {
    reveal_main()
}

/// Handles a second launch that was forwarded to this instance.
pub fn on_second_instance() -> (plan: Vec<Action>)
    ensures
        plan.deep_view() == second_instance_plan(),
{
    let mut plan: Vec<Action> = Vec::new();
    assert(plan.deep_view() =~= Seq::<Effect>::empty());
    push_reveal_main(&mut plan);
    plan
}

/// A forwarded second launch leaves the running instance running, with its
/// main window visible and focused on the page it showed.
pub proof fn second_launch_reveals_main(shell: Shell)
    requires
        shell.running(),
    ensures
        shell.after(second_instance_plan()) == shell.revealed(),
        shell.after(second_instance_plan()).running(),
        shell.after(second_instance_plan()).location() == shell.location(),
{
    lemma_after_reveal_main(shell);
}

} // verus!
