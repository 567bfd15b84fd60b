use musifly_shell::action::Action;
use musifly_shell::deep_link::{on_open_url, redirect_url, route_parsed, LINK_PREFIX, LINK_SCHEME};

fn navigation(url: &str) -> Vec<Action> {
    vec![Action::Navigate(url.to_string()), Action::Show, Action::Focus]
}

fn open(urls: &[&str]) -> Vec<Action> {
    let urls: Vec<String> = urls.iter().map(|u| u.to_string()).collect();
    on_open_url(&urls)
}

#[test]
fn scheme_names_are_the_fixed_ones() {
    assert_eq!(LINK_SCHEME, "musifly");
    assert_eq!(LINK_PREFIX, "musifly://");
    assert_eq!(format!("{}://", LINK_SCHEME), LINK_PREFIX);
}

#[test]
fn redirect_puts_the_path_under_the_live_root() {
    assert_eq!(redirect_url("musifly://a/b"), "https://open.musifly.net/a/b");
    assert_eq!(redirect_url("musifly://"), "https://open.musifly.net/");
    assert_eq!(redirect_url("musifly://album/7?x=1#top"), "https://open.musifly.net/album/7?x=1#top");
}

#[test]
fn redirect_drops_leading_separators() {
    assert_eq!(redirect_url("musifly:///a/b"), "https://open.musifly.net/a/b");
    assert_eq!(redirect_url("musifly://///"), "https://open.musifly.net/");
    assert_eq!(redirect_url("musifly://a//b/"), "https://open.musifly.net/a//b/");
}

#[test]
fn redirect_takes_a_text_without_the_prefix_whole() {
    assert_eq!(redirect_url("a/b"), "https://open.musifly.net/a/b");
    assert_eq!(redirect_url("/a/b"), "https://open.musifly.net/a/b");
    assert_eq!(redirect_url(""), "https://open.musifly.net/");
    assert_eq!(redirect_url("musifly:/a"), "https://open.musifly.net/musifly:/a");
    assert_eq!(redirect_url("MUSIFLY://a"), "https://open.musifly.net/MUSIFLY://a");
}

#[test]
fn redirect_strips_the_prefix_once() {
    assert_eq!(redirect_url("musifly://musifly://a"), "https://open.musifly.net/musifly://a");
}

#[test]
fn deep_link_round_trip() {
    assert_eq!(open(&["musifly://a/b"]), navigation("https://open.musifly.net/a/b"));
    assert_eq!(open(&["musifly://"]), navigation("https://open.musifly.net/"));
}

#[test]
fn deep_link_navigates_to_the_parsed_url() {
    assert_eq!(open(&["musifly://a/../b"]), navigation("https://open.musifly.net/b"));
    assert_eq!(open(&["musifly://a/./b"]), navigation("https://open.musifly.net/a/b"));
    assert_eq!(open(&["musifly://a b"]), navigation("https://open.musifly.net/a%20b"));
    assert_eq!(open(&["musifly://a\tb\n"]), navigation("https://open.musifly.net/ab"));
}

#[test]
fn deep_link_with_characters_that_need_escaping_does_not_fail() {
    assert_eq!(
        open(&["musifly://<a>/\"b\"/{c}"]),
        navigation("https://open.musifly.net/%3Ca%3E/%22b%22/%7Bc%7D")
    );
    assert_eq!(open(&["musifly://ü"]), navigation("https://open.musifly.net/%C3%BC"));
    assert_eq!(open(&["\u{0}\u{1}"]).len(), 3);
    assert_eq!(open(&["musifly://%zz"]), navigation("https://open.musifly.net/%zz"));
}

#[test]
fn deep_link_routes_only_the_first_url() {
    assert_eq!(
        open(&["musifly://first", "musifly://second"]),
        navigation("https://open.musifly.net/first")
    );
    assert_eq!(open(&["musifly://first", "musifly://second"]), open(&["musifly://first"]));
}

#[test]
fn deep_link_without_urls_does_nothing() {
    assert_eq!(open(&[]), vec![]);
}

#[test]
fn unparsable_link_is_dropped() {
    assert_eq!(route_parsed(None), vec![]);
}

#[test]
fn parsed_link_is_navigated_shown_and_focused() {
    assert_eq!(
        route_parsed(Some("https://open.musifly.net/a/b".to_string())),
        navigation("https://open.musifly.net/a/b")
    );
    assert_eq!(route_parsed(Some(String::new())), navigation(""));
}

#[test]
fn deep_link_never_exits_or_hides() {
    for input in ["musifly://a", "", "musifly://", "x y z", "musifly://quit"] {
        let plan = open(&[input]);
        assert!(!plan.iter().any(|a| matches!(a, Action::Exit(_) | Action::Hide | Action::KeepOpen)));
    }
}

#[test]
fn deep_link_targets_lie_under_the_live_root() {
    let inputs = [
        "musifly://a/b",
        "musifly://",
        "musifly://@evil.example/",
        "musifly://../../x",
        "musifly://?q=1",
        "musifly://#top",
        "musifly://\\evil.example",
        "https://evil.example/",
        "//evil.example/",
    ];
    for input in inputs {
        let plan = open(&[input]);
        assert_eq!(plan.len(), 3);
        match &plan[0] {
            Action::Navigate(url) => assert!(url.starts_with("https://open.musifly.net/")),
            other => panic!("{:?}", other),
        }
    }
}
