//! A model of what the shell controls: the main window, the updater's splash
//! window and the process itself. Handlers never touch this state; they
//! return plans, and [`Shell::after`] says what a plan does to it.

use vstd::prelude::*;
use crate::action::{reveal_main, Effect};
use crate::site::{MAIN_WINDOW, UPDATER_WINDOW};

verus! {

/// The main window as the shell sees it.
pub struct MainWindow {
    /// The URL it displays.
    pub location: Seq<char>,
    pub visible: bool,
    pub focused: bool,
}

/// The windows and the process.
pub struct Shell {
    /// The main window, while it exists.
    pub main: Option<MainWindow>,
    /// Whether the updater's splash window exists.
    pub updater_open: bool,
    /// The exit code, once the process has ended.
    pub exit_code: Option<i32>,
}

impl Shell {
    /// The process has not ended.
    pub open spec fn running(self) -> bool {
        self.exit_code is None
    }

    /// The URL the main window displays, while there is a main window.
    pub open spec fn location(self) -> Option<Seq<char>> {
        match self.main {
            Some(window) => Some(window.location),
            None => None,
        }
    }

    /// The state after one step. A step for a missing window changes nothing,
    /// and nothing changes once the process has ended.
    pub open spec fn apply(self, effect: Effect) -> Shell {
        if !self.running() {
            self
        } else {
            match effect {
                Effect::Navigate(url) => match self.main {
                    Some(window) => Shell {
                        main: Some(MainWindow { location: url, ..window }),
                        ..self
                    },
                    None => self,
                },
                Effect::Show => match self.main {
                    Some(window) => Shell {
                        main: Some(MainWindow { visible: true, ..window }),
                        ..self
                    },
                    None => self,
                },
                Effect::Focus => match self.main {
                    Some(window) => Shell {
                        main: Some(MainWindow { focused: true, ..window }),
                        ..self
                    },
                    None => self,
                },
                Effect::Hide => match self.main {
                    Some(window) => Shell {
                        main: Some(MainWindow { visible: false, focused: false, ..window }),
                        ..self
                    },
                    None => self,
                },
                Effect::KeepOpen => self,
                Effect::CloseUpdater => Shell { updater_open: false, ..self },
                Effect::Exit(code) => Shell { exit_code: Some(code), ..self },
            }
        }
    }

    /// The state after the steps of `plan`, taken in order.
    pub open spec fn after(self, plan: Seq<Effect>) -> Shell
        decreases plan.len(),
    {
        if plan.len() == 0 {
            self
        } else {
            self.apply(plan[0]).after(plan.drop_first())
        }
    }

    /// The state with the main window, if there is one, visible and focused.
    pub open spec fn revealed(self) -> Shell {
        Shell {
            main: match self.main {
                Some(window) => Some(MainWindow { visible: true, focused: true, ..window }),
                None => None,
            },
            ..self
        }
    }

    /// The state after the window system has closed the window with this
    /// label. In this model a running process ends with code 0 when its
    /// last window is closed.
    pub open spec fn destroy(self, label: Seq<char>) -> Shell {
        let left = Shell {
            main: if label == MAIN_WINDOW@ {
                None
            } else {
                self.main
            },
            updater_open: self.updater_open && label != UPDATER_WINDOW@,
            ..self
        };
        if self.running() && left != self && left.main is None && !left.updater_open {
            Shell { exit_code: Some(0i32), ..left }
        } else {
            left
        }
    }

    /// The state after a close request for the window with this label was
    /// answered with `plan`: the plan runs, and the window is closed unless
    /// the plan holds [`Effect::KeepOpen`].
    pub open spec fn close_request(self, label: Seq<char>, plan: Seq<Effect>) -> Shell {
        if plan.contains(Effect::KeepOpen) {
            self.after(plan)
        } else {
            self.after(plan).destroy(label)
        }
    }
}

/// Running a plan of one step is applying the step.
pub proof fn lemma_after_one(shell: Shell, effect: Effect)
    ensures
        shell.after(seq![effect]) == shell.apply(effect),
{
    let plan = seq![effect];
    assert(plan.drop_first() =~= Seq::<Effect>::empty());
    assert(shell.after(plan) == shell.apply(plan[0]).after(plan.drop_first()));
}

/// Running two plans one after the other is running their concatenation.
pub proof fn lemma_after_concat(shell: Shell, first: Seq<Effect>, second: Seq<Effect>)
    ensures
        shell.after(first + second) == shell.after(first).after(second),
    decreases first.len(),
{
    if first.len() == 0 {
        assert(first + second =~= second);
    } else {
        assert((first + second)[0] == first[0]);
        assert((first + second).drop_first() =~= first.drop_first() + second);
        lemma_after_concat(shell.apply(first[0]), first.drop_first(), second);
    }
}

/// Showing and focusing the main window of a running shell reveals it and
/// changes nothing else.
pub proof fn lemma_after_reveal_main(shell: Shell)
    requires
        shell.running(),
    ensures
        shell.after(reveal_main()) == shell.revealed(),
{
    assert(reveal_main() =~= seq![Effect::Show] + seq![Effect::Focus]);
    lemma_after_concat(shell, seq![Effect::Show], seq![Effect::Focus]);
    lemma_after_one(shell, Effect::Show);
    lemma_after_one(shell.apply(Effect::Show), Effect::Focus);
}

/// A later navigation overwrites an earlier one: nothing is queued.
pub proof fn later_navigation_overwrites(shell: Shell, first: Seq<char>, second: Seq<char>)
    ensures
        shell.after(seq![Effect::Navigate(first), Effect::Navigate(second)]) == shell.after(
            seq![Effect::Navigate(second)],
        ),
{
    let both = seq![Effect::Navigate(first), Effect::Navigate(second)];
    assert(both =~= seq![Effect::Navigate(first)] + seq![Effect::Navigate(second)]);
    lemma_after_concat(shell, seq![Effect::Navigate(first)], seq![Effect::Navigate(second)]);
    lemma_after_one(shell, Effect::Navigate(first));
    lemma_after_one(shell, Effect::Navigate(second));
    lemma_after_one(shell.apply(Effect::Navigate(first)), Effect::Navigate(second));
}

/// No plan brings an ended process back or changes its exit code.
pub proof fn lemma_after_exit(shell: Shell, plan: Seq<Effect>)
    requires
        !shell.running(),
    ensures
        shell.after(plan) == shell,
    decreases plan.len(),
{
    if plan.len() > 0 {
        lemma_after_exit(shell, plan.drop_first());
    }
}

} // verus!
