//! The locations the shell sends the main window to. There are three forms:
//! the live root, the bundled offline page, and what a rewritten deep link
//! parsed to. No handler navigates anywhere else, so a main window that
//! starts on one of them stays on one of them.

use vstd::prelude::*;
use crate::action::Effect;
use crate::deep_link::{deep_link_plan, parsed_url, redirect_text};
use crate::instance::second_instance_plan;
use crate::shell::Shell;
use crate::site::{LIVE_ROOT, OFFLINE_PAGE};
use crate::tray::{menu_plan, tray_plan, TrayIconEvent};
use crate::window::{activation_plan, close_plan};

verus! {

/// `url` is the live root, the offline page, or what some rewritten deep
/// link parsed to.
pub open spec fn is_target(url: Seq<char>) -> bool {
    ||| url == LIVE_ROOT@
    ||| url == OFFLINE_PAGE@
    ||| exists|link: Seq<char>| #[trigger] parsed_url(redirect_text(link)) == Some(url)
}

/// Every navigation of `plan` goes to a target.
pub open spec fn navigates_to_targets(plan: Seq<Effect>) -> bool {
    forall|i: int|
        0 <= i < plan.len() ==> (#[trigger] plan[i] matches Effect::Navigate(url) ==> is_target(
            url,
        ))
}

/// The main window, if there is one, shows a target.
pub open spec fn shows_target(shell: Shell) -> bool {
    shell.location() matches Some(location) ==> is_target(location)
}

/// Every plan that a handler can return navigates to targets only.
pub proof fn handlers_navigate_to_targets(
    main_location: Option<Seq<char>>,
    reachable: bool,
    urls: Seq<Seq<char>>,
    label: Seq<char>,
    menu_id: Seq<char>,
    event: TrayIconEvent,
)
    ensures
        navigates_to_targets(activation_plan(main_location, reachable)),
        navigates_to_targets(deep_link_plan(urls)),
        navigates_to_targets(close_plan(label)),
        navigates_to_targets(menu_plan(menu_id)),
        navigates_to_targets(tray_plan(event)),
        navigates_to_targets(second_instance_plan()),
{
    if urls.len() > 0 {
        let parsed = parsed_url(redirect_text(urls[0]));
        if parsed is Some {
            assert(is_target(parsed->0));
        }
    }
}

/// A plan that navigates to targets only keeps the main window on a target.
pub proof fn targets_are_kept(shell: Shell, plan: Seq<Effect>)
    requires
        shows_target(shell),
        navigates_to_targets(plan),
    ensures
        shows_target(shell.after(plan)),
    decreases plan.len(),
{
    if plan.len() > 0 {
        let rest = plan.drop_first();
        assert forall|i: int| 0 <= i < rest.len() implies (#[trigger] rest[i] matches Effect::Navigate(
            url,
        ) ==> is_target(url)) by {
            assert(rest[i] == plan[i + 1]);
        }
        assert(plan[0] matches Effect::Navigate(url) ==> is_target(url));
        targets_are_kept(shell.apply(plan[0]), rest);
    }
}

} // verus!
