//! The window controller: which page the main window should show when it is
//! brought to the front, and what happens when a window is asked to close.
//!
//! Activation re-navigates only where it has to: a main window that already
//! shows a location under the live root is left where it is while the site
//! can be reached, and one that already shows the bundled offline page is
//! left where it is while the site cannot.

use vstd::prelude::*;
use vstd::string::StringExecFns;
use crate::action::{push_reveal_main, reveal_main, Action, Effect};
use crate::shell::{
    lemma_after_concat, lemma_after_exit, lemma_after_one, lemma_after_reveal_main, MainWindow,
    Shell,
};
use crate::site::{
    lemma_live_and_offline_are_apart, lemma_live_root_on_live_site,
    lemma_offline_page_on_offline_page, on_live_site, on_offline_page, LIVE_ROOT, MAIN_WINDOW,
    OFFLINE_PAGE,
};
use crate::text::{same_text, starts_with};

verus! {

/// Where activation sends a main window that shows `location`, or `None`
/// where it leaves the window on the page it shows.
pub open spec fn activation_target(location: Seq<char>, reachable: bool) -> Option<Seq<char>> {
    if reachable {
        if on_live_site(location) {
            None
        } else {
            Some(LIVE_ROOT@)
        }
    } else {
        if on_offline_page(location) {
            None
        } else {
            Some(OFFLINE_PAGE@)
        }
    }
}

/// The navigation step of an activation, if it has one.
pub open spec fn activation_navigation(location: Seq<char>, reachable: bool) -> Seq<Effect> {
    match activation_target(location, reachable) {
        Some(url) => seq![Effect::Navigate(url)],
        None => Seq::empty(),
    }
}

/// The whole plan of an activation. `main_location` is the location the main
/// window shows, or `None` where there is no main window; without a main
/// window `reachable` plays no part.
pub open spec fn activation_plan(main_location: Option<Seq<char>>, reachable: bool) -> Seq<Effect> {
    match main_location {
        Some(location) => activation_navigation(location, reachable) + reveal_main()
            + seq![Effect::CloseUpdater],
        None => seq![Effect::CloseUpdater],
    }
}

/// What the shell sees of the main window when an activation starts.
#[derive(Debug, PartialEq, Eq)]
pub enum MainWindowStatus {
    /// There is no main window.
    Missing,
    /// There is one, and its location could not be read.
    Unreadable,
    /// There is one, and it shows this location.
    Showing(String),
}

/// The location an activation goes by: a main window whose location could
/// not be read counts as showing the empty location.
pub open spec fn observed_location(status: MainWindowStatus) -> Option<Seq<char>> {
    match status {
        MainWindowStatus::Missing => None,
        MainWindowStatus::Unreadable => Some(Seq::empty()),
        MainWindowStatus::Showing(location) => Some(location@),
    }
}

/// What an activation needs next.
#[derive(Debug, PartialEq, Eq)]
pub enum ActivationStep {
    /// Probe the live site, then call [`show_main_window`] with this location
    /// and the probe's answer.
    Probe { location: String },
    /// Nothing to probe for: carry this plan out.
    Finish(Vec<Action>),
}

/// Starts an activation. The site is probed only where there is a main
/// window to navigate.
pub fn begin_activation(status: MainWindowStatus) -> (step: ActivationStep)
    ensures
        match step {
            ActivationStep::Probe { location } => observed_location(status) == Some(location@),
            ActivationStep::Finish(plan) => {
                &&& observed_location(status) is None
                &&& forall|reachable: bool|
                    plan.deep_view() == #[trigger] activation_plan(None, reachable)
            },
        },
{
    match status {
        MainWindowStatus::Showing(location) => ActivationStep::Probe { location },
        MainWindowStatus::Unreadable => ActivationStep::Probe { location: String::new() },
        MainWindowStatus::Missing => {
            let mut plan: Vec<Action> = Vec::new();
            plan.push(Action::CloseUpdater);
            assert(plan.deep_view() =~= seq![Effect::CloseUpdater]);
            ActivationStep::Finish(plan)
        },
    }
}

/// The plan that brings a main window showing `location` to the front, given
/// the answer of the connectivity probe.
pub fn show_main_window(location: &str, reachable: bool) -> (plan: Vec<Action>)
    ensures
        plan.deep_view() == activation_plan(Some(location@), reachable),
{
    let mut plan: Vec<Action> = Vec::new();
    if reachable {
        if !starts_with(location, LIVE_ROOT) {
            plan.push(Action::Navigate(String::from_str(LIVE_ROOT)));
        }
    } else {
        if !starts_with(location, OFFLINE_PAGE) {
            plan.push(Action::Navigate(String::from_str(OFFLINE_PAGE)));
        }
    }
    assert(plan.deep_view() =~= activation_navigation(location@, reachable));
    push_reveal_main(&mut plan);
    let ghost shown = plan.deep_view();
    plan.push(Action::CloseUpdater);
    assert(plan.deep_view() =~= shown + seq![Effect::CloseUpdater]);
    plan
}

/// The answer to a close request for the window with this label: the main
/// window is kept and hidden, any other window closes as usual.
pub open spec fn close_plan(label: Seq<char>) -> Seq<Effect> {
    if label == MAIN_WINDOW@ {
        seq![Effect::KeepOpen, Effect::Hide]
    } else {
        Seq::empty()
    }
}

/// Answers a close request for the window with this label.
pub fn on_close_requested(label: &str) -> (plan: Vec<Action>)
    ensures
        plan.deep_view() == close_plan(label@),
{
    let mut plan: Vec<Action> = Vec::new();
    if same_text(label, MAIN_WINDOW) {
        plan.push(Action::KeepOpen);
        plan.push(Action::Hide);
    }
    assert(plan.deep_view() =~= close_plan(label@));
    plan
}

/// The state after an activation that found the site reachable or not.
pub open spec fn activated(shell: Shell, reachable: bool) -> Shell {
    shell.after(activation_plan(shell.location(), reachable))
}

/// The location a main window showing `location` shows after an activation.
pub open spec fn location_after_activation(location: Seq<char>, reachable: bool) -> Seq<char> {
    match activation_target(location, reachable) {
        Some(url) => url,
        None => location,
    }
}

/// An activation leaves a running shell with its main window, if it has
/// one, visible, focused and on the page that [`location_after_activation`]
/// names, and without the updater's splash window.
pub proof fn lemma_activated(shell: Shell, reachable: bool)
    requires
        shell.running(),
    ensures
        activated(shell, reachable) == (Shell {
            main: match shell.main {
                Some(window) => Some(
                    MainWindow {
                        location: location_after_activation(window.location, reachable),
                        visible: true,
                        focused: true,
                    },
                ),
                None => None,
            },
            updater_open: false,
            exit_code: None,
        }),
{
    let close = seq![Effect::CloseUpdater];
    match shell.main {
        Some(window) => {
            let navigation = activation_navigation(window.location, reachable);
            lemma_after_concat(shell, navigation + reveal_main(), close);
            lemma_after_concat(shell, navigation, reveal_main());
            lemma_after_one(shell.after(navigation + reveal_main()), Effect::CloseUpdater);
            let moved = shell.after(navigation);
            match activation_target(window.location, reachable) {
                Some(url) => {
                    lemma_after_one(shell, Effect::Navigate(url));
                },
                None => {},
            }
            lemma_after_reveal_main(moved);
        },
        None => {
            lemma_after_one(shell, Effect::CloseUpdater);
        },
    }
}

/// While the live site can be reached, an activation leaves the main window
/// on a location under the live root: on the root itself, unless it was
/// under the root already.
pub proof fn activation_online_displays_live_site(shell: Shell)
    requires
        shell.running(),
        shell.main is Some,
    ensures
        activated(shell, true).location() matches Some(location) && on_live_site(location)
            && (location == LIVE_ROOT@ || location == shell.main->0.location),
        !on_live_site(shell.main->0.location) ==> activated(shell, true).location() == Some(
            LIVE_ROOT@,
        ),
{
    lemma_activated(shell, true);
    lemma_live_root_on_live_site();
}

/// While the live site cannot be reached, an activation leaves the main
/// window on the bundled offline page, never on a location of the live site:
/// on the page's own URL, unless the window showed the page already.
pub proof fn activation_offline_displays_offline_page(shell: Shell)
    requires
        shell.running(),
        shell.main is Some,
    ensures
        activated(shell, false).location() matches Some(location) && on_offline_page(location)
            && !on_live_site(location) && (location == OFFLINE_PAGE@ || location
            == shell.main->0.location),
        !on_offline_page(shell.main->0.location) ==> activated(shell, false).location() == Some(
            OFFLINE_PAGE@,
        ),
{
    lemma_activated(shell, false);
    lemma_offline_page_on_offline_page();
    lemma_live_and_offline_are_apart(activated(shell, false).location()->0);
}

/// Activating twice with the same probe answer is activating once: the
/// second activation changes nothing, so the location cannot oscillate.
pub proof fn activation_idempotent(shell: Shell, reachable: bool)
    ensures
        activated(activated(shell, reachable), reachable) == activated(shell, reachable),
{
    if shell.running() {
        lemma_activated(shell, reachable);
        lemma_activated(activated(shell, reachable), reachable);
        lemma_live_root_on_live_site();
        lemma_offline_page_on_offline_page();
    } else {
        lemma_after_exit(shell, activation_plan(shell.location(), reachable));
        lemma_after_exit(
            shell,
            activation_plan(activated(shell, reachable).location(), reachable),
        );
    }
}

/// A close request for the main window never ends the process: the window
/// stays, hidden, on the page it showed, and nothing else changes.
pub proof fn closing_main_keeps_running(shell: Shell)
    requires
        shell.running(),
    ensures
        shell.close_request(MAIN_WINDOW@, close_plan(MAIN_WINDOW@)) == (Shell {
            main: match shell.main {
                Some(window) => Some(MainWindow { visible: false, focused: false, ..window }),
                None => None,
            },
            ..shell
        }),
        shell.close_request(MAIN_WINDOW@, close_plan(MAIN_WINDOW@)).running(),
{
    let plan = close_plan(MAIN_WINDOW@);
    assert(plan[0] == Effect::KeepOpen);
    assert(plan.contains(Effect::KeepOpen));
    assert(plan =~= seq![Effect::KeepOpen] + seq![Effect::Hide]);
    lemma_after_concat(shell, seq![Effect::KeepOpen], seq![Effect::Hide]);
    lemma_after_one(shell, Effect::KeepOpen);
    lemma_after_one(shell, Effect::Hide);
}

/// A close request for any other window goes through: the window closes as
/// the window system would close it.
pub proof fn closing_other_window_goes_through(shell: Shell, label: Seq<char>)
    requires
        label != MAIN_WINDOW@,
    ensures
        shell.close_request(label, close_plan(label)) == shell.destroy(label),
{
    assert(!close_plan(label).contains(Effect::KeepOpen));
}

} // verus!
