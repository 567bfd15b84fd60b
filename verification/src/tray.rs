//! The tray controller: the tray icon's menu, and what its entries and a
//! click on the icon do.

use vstd::prelude::*;
use crate::action::{push_reveal_main, reveal_main, Action, Effect};
use crate::shell::{lemma_after_one, lemma_after_reveal_main, Shell};
use crate::text::same_text;

verus! {

/// Identifier of the menu entry that ends the process.
pub const QUIT_ID: &'static str = "quit";

/// Identifier of the menu entry that brings the main window to the front.
pub const SHOW_ID: &'static str = "show";

/// Text of the entry [`QUIT_ID`].
pub const QUIT_TEXT: &'static str = "Quit";

/// Text of the entry [`SHOW_ID`].
pub const SHOW_TEXT: &'static str = "Show";

/// Whether a left click on the tray icon opens the menu. It does not: a left
/// click brings the main window to the front.
pub const MENU_ON_LEFT_CLICK: bool = false;

/// One entry of the tray menu.
#[derive(Debug, Clone, Copy, PartialEq, Eq)]
pub struct MenuEntry {
    pub id: &'static str,
    pub text: &'static str,
    pub enabled: bool,
}

/// The entries of the tray menu, from the top: Show, then Quit.
pub open spec fn menu_entries() -> Seq<MenuEntry> {
    seq![
        MenuEntry { id: SHOW_ID, text: SHOW_TEXT, enabled: true },
        MenuEntry { id: QUIT_ID, text: QUIT_TEXT, enabled: true },
    ]
}

/// Builds the tray menu.
pub fn tray_menu() -> (entries: Vec<MenuEntry>)
    ensures
        entries@ == menu_entries(),
{
    let mut entries: Vec<MenuEntry> = Vec::new();
    entries.push(MenuEntry { id: SHOW_ID, text: SHOW_TEXT, enabled: true });
    entries.push(MenuEntry { id: QUIT_ID, text: QUIT_TEXT, enabled: true });
    assert(entries@ =~= menu_entries());
    entries
}

/// The plan for a click on the menu entry with this identifier: Quit ends
/// the process with code 0, Show brings the main window to the front as it
/// is, and any other identifier does nothing.
pub open spec fn menu_plan(id: Seq<char>) -> Seq<Effect> {
    if id == QUIT_ID@ {
        seq![Effect::Exit(0i32)]
    } else if id == SHOW_ID@ {
        reveal_main()
    } else {
        Seq::empty()
    }
}

/// Handles a click on the menu entry with this identifier.
pub fn on_menu_event(id: &str) -> (plan: Vec<Action>)
    ensures
        plan.deep_view() == menu_plan(id@),
{
    let mut plan: Vec<Action> = Vec::new();
    if same_text(id, QUIT_ID) {
        plan.push(Action::Exit(0));
        assert(plan.deep_view() =~= seq![Effect::Exit(0i32)]);
    } else if same_text(id, SHOW_ID) {
        assert(plan.deep_view() =~= Seq::<Effect>::empty());
        push_reveal_main(&mut plan);
    } else {
        assert(plan.deep_view() =~= Seq::<Effect>::empty());
    }
    plan
}

/// A mouse button.
#[derive(Debug, Clone, Copy, PartialEq, Eq)]
pub enum MouseButton {
    Left,
    Right,
    Middle,
}

/// Whether the button went down or came up.
#[derive(Debug, Clone, Copy, PartialEq, Eq)]
pub enum MouseButtonState {
    Up,
    Down,
}

/// What the pointer did on the tray icon: a click with its button and the
/// button's state, or anything else.
#[derive(Debug, Clone, Copy, PartialEq, Eq)]
pub enum TrayIconEvent {
    Click { button: MouseButton, button_state: MouseButtonState },
    Other,
}

/// The event is the release of the left button in a click.
pub open spec fn is_left_release(event: TrayIconEvent) -> bool {
    event == (TrayIconEvent::Click {
        button: MouseButton::Left,
        button_state: MouseButtonState::Up,
    })
}

/// The plan for a tray icon event: the release of a left click brings the
/// main window to the front, every other event does nothing.
pub open spec fn tray_plan(event: TrayIconEvent) -> Seq<Effect> {
    if is_left_release(event) {
        reveal_main()
    } else {
        Seq::empty()
    }
}

/// Handles a tray icon event.
pub fn on_tray_icon_event(event: TrayIconEvent) -> (plan: Vec<Action>)
    ensures
        plan.deep_view() == tray_plan(event),
{
    let mut plan: Vec<Action> = Vec::new();
    assert(plan.deep_view() =~= Seq::<Effect>::empty());
    match event {
        TrayIconEvent::Click { button: MouseButton::Left, button_state: MouseButtonState::Up } => {
            push_reveal_main(&mut plan);
        },
        _ => {},
    }
    plan
}

/// The two menu identifiers differ.
pub proof fn menu_ids_differ()
    ensures
        QUIT_ID@ != SHOW_ID@,
{
    reveal_strlit("quit");
    reveal_strlit("show");
    assert(QUIT_ID@[0] == 'q');
    assert(SHOW_ID@[0] == 's');
}

/// Quit ends a running process with exit code 0 and touches no window.
pub proof fn quit_exits_with_code_zero(shell: Shell)
    requires
        shell.running(),
    ensures
        shell.after(menu_plan(QUIT_ID@)) == (Shell { exit_code: Some(0i32), ..shell }),
        !shell.after(menu_plan(QUIT_ID@)).running(),
{
    lemma_after_one(shell, Effect::Exit(0i32));
}

/// Show brings the main window to the front on the page it shows: it does
/// not navigate, and the process keeps running.
pub proof fn show_reveals_main(shell: Shell)
    requires
        shell.running(),
    ensures
        shell.after(menu_plan(SHOW_ID@)) == shell.revealed(),
        shell.after(menu_plan(SHOW_ID@)).location() == shell.location(),
{
    menu_ids_differ();
    lemma_after_reveal_main(shell);
}

/// Releasing a left click on the tray icon does what the Show entry does.
pub proof fn left_release_is_show()
    ensures
        tray_plan(
            TrayIconEvent::Click {
                button: MouseButton::Left,
                button_state: MouseButtonState::Up,
            },
        ) == menu_plan(SHOW_ID@),
{
    menu_ids_differ();
}

/// No tray icon event ends the process or moves the main window to another
/// page.
pub proof fn tray_events_keep_running(shell: Shell, event: TrayIconEvent)
    requires
        shell.running(),
    ensures
        shell.after(tray_plan(event)).running(),
        shell.after(tray_plan(event)).location() == shell.location(),
{
    if is_left_release(event) {
        lemma_after_reveal_main(shell);
    }
}

} // verus!
