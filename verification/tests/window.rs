use musifly_shell::action::Action;
use musifly_shell::deep_link::on_open_url;
use musifly_shell::site::{
    CONTEXT_MENU_GUARD, LIVE_ROOT, MAIN_WINDOW, OFFLINE_PAGE, UPDATER_WINDOW,
};
use musifly_shell::window::{
    begin_activation, on_close_requested, show_main_window, ActivationStep, MainWindowStatus,
};

fn navigate(url: &str) -> Action {
    Action::Navigate(url.to_string())
}

/// Where a main window that shows `location` is after `plan`.
fn location_after(location: &str, plan: &[Action]) -> String {
    let mut current = location.to_string();
    for action in plan {
        if let Action::Navigate(url) = action {
            current = url.clone();
        }
    }
    current
}

#[test]
fn site_names_are_the_fixed_ones() {
    assert_eq!(LIVE_ROOT, "https://open.musifly.net/");
    assert_eq!(OFFLINE_PAGE, "tauri://localhost/offline.html");
    assert_eq!(MAIN_WINDOW, "main");
    assert_eq!(UPDATER_WINDOW, "updater");
    assert_eq!(
        CONTEXT_MENU_GUARD,
        "document.addEventListener('contextmenu', e => e.preventDefault());"
    );
}

#[test]
fn activation_without_main_window_only_closes_the_updater() {
    assert_eq!(
        begin_activation(MainWindowStatus::Missing),
        ActivationStep::Finish(vec![Action::CloseUpdater])
    );
}

#[test]
fn activation_with_main_window_asks_for_a_probe() {
    assert_eq!(
        begin_activation(MainWindowStatus::Showing("https://open.musifly.net/x".to_string())),
        ActivationStep::Probe { location: "https://open.musifly.net/x".to_string() }
    );
    assert_eq!(
        begin_activation(MainWindowStatus::Showing(String::new())),
        ActivationStep::Probe { location: String::new() }
    );
}

#[test]
fn unreadable_location_counts_as_empty() {
    assert_eq!(
        begin_activation(MainWindowStatus::Unreadable),
        ActivationStep::Probe { location: String::new() }
    );
}

#[test]
fn reachable_and_elsewhere_navigates_to_the_live_root() {
    let expected = vec![
        navigate("https://open.musifly.net/"),
        Action::Show,
        Action::Focus,
        Action::CloseUpdater,
    ];
    assert_eq!(show_main_window("tauri://localhost/offline.html", true), expected);
    assert_eq!(show_main_window("", true), expected);
    assert_eq!(show_main_window("about:blank", true), expected);
    assert_eq!(show_main_window("https://open.musifly.net", true), expected);
    assert_eq!(show_main_window("http://open.musifly.net/", true), expected);
    assert_eq!(show_main_window("https://evil.example/https://open.musifly.net/", true), expected);
}

#[test]
fn reachable_and_on_the_live_site_stays_where_it_is() {
    let expected = vec![Action::Show, Action::Focus, Action::CloseUpdater];
    assert_eq!(show_main_window("https://open.musifly.net/", true), expected);
    assert_eq!(show_main_window("https://open.musifly.net/album/7?x=1#top", true), expected);
    assert_eq!(show_main_window("https://open.musifly.net/offline.html", true), expected);
}

#[test]
fn unreachable_and_elsewhere_navigates_to_the_offline_page() {
    let expected = vec![
        navigate("tauri://localhost/offline.html"),
        Action::Show,
        Action::Focus,
        Action::CloseUpdater,
    ];
    assert_eq!(show_main_window("https://open.musifly.net/", false), expected);
    assert_eq!(show_main_window("https://open.musifly.net/album/7", false), expected);
    assert_eq!(show_main_window("", false), expected);
    assert_eq!(show_main_window("tauri://localhost/offline.htm", false), expected);
    assert_eq!(show_main_window("tauri://localhost/index.html", false), expected);
    assert_eq!(show_main_window("offline.html", false), expected);
}

#[test]
fn unreachable_on_a_live_page_named_like_the_offline_page_navigates() {
    let expected = vec![
        navigate("tauri://localhost/offline.html"),
        Action::Show,
        Action::Focus,
        Action::CloseUpdater,
    ];
    assert_eq!(show_main_window("https://open.musifly.net/offline.html", false), expected);
    assert_eq!(
        show_main_window("https://open.musifly.net/a?next=tauri://localhost/offline.html", false),
        expected
    );
}

#[test]
fn unreachable_and_on_the_offline_page_stays_where_it_is() {
    let expected = vec![Action::Show, Action::Focus, Action::CloseUpdater];
    assert_eq!(show_main_window("tauri://localhost/offline.html", false), expected);
    assert_eq!(show_main_window("tauri://localhost/offline.html?from=live", false), expected);
    assert_eq!(show_main_window("tauri://localhost/offline.html#again", false), expected);
}

#[test]
fn activation_ends_on_the_live_site_when_reachable() {
    let starts = [
        "",
        "about:blank",
        "tauri://localhost/offline.html",
        "https://open.musifly.net/a",
        "https://open.musifly.net/offline.html",
    ];
    for start in starts {
        let plan = show_main_window(start, true);
        assert!(location_after(start, &plan).starts_with("https://open.musifly.net/"));
    }
}

#[test]
fn activation_ends_on_the_offline_page_when_unreachable() {
    let starts = [
        "",
        "about:blank",
        "https://open.musifly.net/",
        "https://open.musifly.net/a",
        "https://open.musifly.net/offline.html",
    ];
    for start in starts {
        let plan = show_main_window(start, false);
        assert_eq!(location_after(start, &plan), "tauri://localhost/offline.html");
    }
    let kept = "tauri://localhost/offline.html#again";
    assert_eq!(location_after(kept, &show_main_window(kept, false)), kept);
}

#[test]
fn activation_twice_ends_where_activation_once_ends() {
    let starts = [
        "",
        "about:blank",
        "tauri://localhost/offline.html",
        "https://open.musifly.net/",
        "https://open.musifly.net/a/b",
        "https://open.musifly.net/offline.html",
    ];
    for start in starts {
        for reachable in [true, false] {
            let once = location_after(start, &show_main_window(start, reachable));
            let second = show_main_window(&once, reachable);
            assert_eq!(second, vec![Action::Show, Action::Focus, Action::CloseUpdater]);
            assert_eq!(location_after(&once, &second), once);
        }
    }
}

#[test]
fn activation_always_shows_focuses_and_closes_the_updater_last() {
    for start in ["", "https://open.musifly.net/", "tauri://localhost/offline.html"] {
        for reachable in [true, false] {
            let plan = show_main_window(start, reachable);
            let n = plan.len();
            assert!(n == 3 || n == 4);
            assert_eq!(plan[n - 3..], [Action::Show, Action::Focus, Action::CloseUpdater]);
        }
    }
}

#[test]
fn closing_the_main_window_hides_it_instead() {
    assert_eq!(on_close_requested("main"), vec![Action::KeepOpen, Action::Hide]);
    assert!(!on_close_requested("main").contains(&Action::Exit(0)));
}

#[test]
fn closing_another_window_goes_through() {
    assert_eq!(on_close_requested("updater"), vec![]);
    assert_eq!(on_close_requested(""), vec![]);
    assert_eq!(on_close_requested("Main"), vec![]);
    assert_eq!(on_close_requested("main2"), vec![]);
}

#[test]
fn cloned_action_equals_its_source() {
    let actions = vec![
        navigate("https://open.musifly.net/a"),
        Action::Show,
        Action::Focus,
        Action::Hide,
        Action::KeepOpen,
        Action::CloseUpdater,
        Action::Exit(0),
    ];
    for action in &actions {
        assert_eq!(&action.clone(), action);
    }
}

#[test]
fn unreachable_after_a_deep_link_to_a_live_offline_html_shows_the_bundled_page() {
    let linked = on_open_url(&vec!["musifly://offline.html".to_string()]);
    let shown = location_after("https://open.musifly.net/", &linked);
    assert_eq!(shown, "https://open.musifly.net/offline.html");
    let plan = show_main_window(&shown, false);
    assert_eq!(plan[0], navigate("tauri://localhost/offline.html"));
    assert_eq!(location_after(&shown, &plan), "tauri://localhost/offline.html");
}
