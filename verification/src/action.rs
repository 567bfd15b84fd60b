//! What a handler asks the windowing layer to do.

use vstd::prelude::*;

verus! {

/// One step for the windowing layer. The steps of a plan are carried out in
/// order; a step for a window that does not exist is skipped.
#[derive(Debug, PartialEq, Eq)]
pub enum Action {
    /// Load this URL in the main window.
    Navigate(String),
    /// Make the main window visible.
    Show,
    /// Give the main window the input focus.
    Focus,
    /// Take the main window off the screen; the tray icon stays.
    Hide,
    /// Suppress the close that the window system asked for.
    KeepOpen,
    /// Close the updater's splash window.
    CloseUpdater,
    /// End the process with this exit code.
    Exit(i32),
}

/// An [`Action`] with its URL as a character sequence.
pub enum Effect {
    Navigate(Seq<char>),
    Show,
    Focus,
    Hide,
    KeepOpen,
    CloseUpdater,
    Exit(i32),
}

impl View for Action {
    type V = Effect;

    open spec fn view(&self) -> Effect {
        match *self {
            Action::Navigate(url) => Effect::Navigate(url@),
            Action::Show => Effect::Show,
            Action::Focus => Effect::Focus,
            Action::Hide => Effect::Hide,
            Action::KeepOpen => Effect::KeepOpen,
            Action::CloseUpdater => Effect::CloseUpdater,
            Action::Exit(code) => Effect::Exit(code),
        }
    }
}

impl Clone for Action {
    fn clone(&self) -> (copy: Self)
        ensures
            copy@ == self@,
    {
        match self {
            Action::Navigate(url) => Action::Navigate(url.clone()),
            Action::Show => Action::Show,
            Action::Focus => Action::Focus,
            Action::Hide => Action::Hide,
            Action::KeepOpen => Action::KeepOpen,
            Action::CloseUpdater => Action::CloseUpdater,
            Action::Exit(code) => Action::Exit(*code),
        }
    }
}

impl DeepView for Action {
    type V = Effect;

    open spec fn deep_view(&self) -> Effect {
        self@
    }
}

/// The steps that bring the main window to the front: show it, then focus it.
pub open spec fn reveal_main() -> Seq<Effect> {
    seq![Effect::Show, Effect::Focus]
}

/// Appends the steps of [`reveal_main`] to a plan.
pub(crate) fn push_reveal_main(plan: &mut Vec<Action>)
    ensures
        final(plan).deep_view() == old(plan).deep_view() + reveal_main(),
{
    plan.push(Action::Show);
    plan.push(Action::Focus);
    assert(plan.deep_view() =~= old(plan).deep_view() + reveal_main());
}

} // verus!
