//! The deep-link router: rewrites a URL of the shell's own scheme into a
//! location under the live root and sends the main window there.
//!
//! Stripping the scheme is lenient: a URL that does not begin with the
//! scheme's prefix is taken whole, as a path. Of the URLs that come with one
//! activation only the first is routed.

use vstd::prelude::*;
use vstd::string::StringExecFns;
use crate::action::{push_reveal_main, reveal_main, Action, Effect};
use crate::shell::{
    lemma_after_concat, lemma_after_one, lemma_after_reveal_main, MainWindow, Shell,
};
use crate::site::{on_live_site, LIVE_ROOT};
use crate::text::{
    has_prefix, lemma_leading_run, lemma_trimmed_start_fixed, strip_prefix, stripped,
    trim_start_matches, trimmed_start,
};

verus! {

/// The scheme registered with the operating system.
pub const LINK_SCHEME: &'static str = "musifly";

/// What a URL of that scheme begins with.
pub const LINK_PREFIX: &'static str = "musifly://";

/// The path a deep link asks for: what follows the scheme's prefix, or the
/// whole text where the prefix is missing, without leading `/`.
pub open spec fn link_path(url: Seq<char>) -> Seq<char> {
    trimmed_start(
        match stripped(url, LINK_PREFIX@) {
            Some(rest) => rest,
            None => url,
        },
        '/',
    )
}

/// The text of the location a deep link is rewritten to: the live root
/// followed by the link's path.
pub open spec fn redirect_text(url: Seq<char>) -> Seq<char> {
    LIVE_ROOT@ + link_path(url)
}

/// The serialization of the URL that `text` parses to as an absolute URL, or
/// `None` where it does not parse.
pub uninterp spec fn parsed_url(text: Seq<char>) -> Option<Seq<char>>;

/// Calls `url::Url::parse` and hands back the parsed URL's serialization
/// (`String::from(Url)`), or `None` for any parse error. Assumed, not
/// proved: the outcome is [`parsed_url`] of the text, that is, it depends on
/// the text alone.
#[verifier::external_body]
fn parse_url(text: &str) -> (parsed: Option<String>)
    ensures
        match parsed {
            Some(url) => parsed_url(text@) == Some(url@),
            None => parsed_url(text@) is None,
        },
{
    match url::Url::parse(text) {
        Ok(url) => Some(String::from(url)),
        Err(_) => None,
    }
}

/// The plan for a rewritten deep link, given what its text parsed to:
/// navigate to the parsed URL and bring the main window to the front, or do
/// nothing where the text did not parse.
pub open spec fn navigation_plan(parsed: Option<Seq<char>>) -> Seq<Effect> {
    match parsed {
        Some(url) => seq![Effect::Navigate(url)] + reveal_main(),
        None => Seq::empty(),
    }
}

/// The plan for one activation that came with these URLs.
pub open spec fn deep_link_plan(urls: Seq<Seq<char>>) -> Seq<Effect> {
    if urls.len() == 0 {
        Seq::empty()
    } else {
        navigation_plan(parsed_url(redirect_text(urls[0])))
    }
}

/// Rewrites a deep link into the text of a location under the live root.
pub fn redirect_url(url: &str) -> (text: String)
    ensures
        text@ == redirect_text(url@),
{
    let rest: &str = match strip_prefix(url, LINK_PREFIX) {
        Some(rest) => rest,
        None => url,
    };
    String::from_str(LIVE_ROOT).concat(trim_start_matches(rest, '/'))
}

/// The plan for a rewritten deep link whose text parsed to `parsed`.
pub fn route_parsed(parsed: Option<String>) -> (plan: Vec<Action>)
    ensures
        plan.deep_view() == navigation_plan(
            match parsed {
                Some(url) => Some(url@),
                None => None,
            },
        ),
{
    let mut plan: Vec<Action> = Vec::new();
    match parsed {
        Some(url) => {
            let ghost target = url@;
            plan.push(Action::Navigate(url));
            assert(plan.deep_view() =~= seq![Effect::Navigate(target)]);
            push_reveal_main(&mut plan);
        },
        None => {
            assert(plan.deep_view() =~= Seq::<Effect>::empty());
        },
    }
    plan
}

/// Handles one deep-link activation: rewrites the first URL, parses the
/// rewritten text and routes the main window to what it parsed to.
pub fn on_open_url(urls: &Vec<String>) -> (plan: Vec<Action>)
    ensures
        plan.deep_view() == deep_link_plan(urls.deep_view()),
{
    if urls.len() == 0 {
        let plan: Vec<Action> = Vec::new();
        assert(plan.deep_view() =~= Seq::<Effect>::empty());
        return plan;
    }
    assert(urls.deep_view()[0] == urls@[0]@);
    let text = redirect_url(urls[0].as_str());
    route_parsed(parse_url(text.as_str()))
}

/// The prefix is the scheme followed by `://`.
pub proof fn link_prefix_is_scheme()
    ensures
        LINK_PREFIX@ == LINK_SCHEME@ + seq![':', '/', '/'],
{
    reveal_strlit("musifly");
    reveal_strlit("musifly://");
    assert(LINK_PREFIX@ =~= LINK_SCHEME@ + seq![':', '/', '/']);
}

/// A link of the shell's scheme is rewritten to the live root followed by
/// what stands behind the prefix, leading `/` dropped: the prefix followed by
/// `a/b` becomes the live root followed by `a/b`, and the bare prefix becomes
/// the live root.
pub proof fn redirect_of_scheme_link(path: Seq<char>)
    ensures
        redirect_text(LINK_PREFIX@ + path) == LIVE_ROOT@ + trimmed_start(path, '/'),
        path.len() == 0 || path[0] != '/' ==> redirect_text(LINK_PREFIX@ + path) == LIVE_ROOT@
            + path,
{
    let url = LINK_PREFIX@ + path;
    assert(url.subrange(0, LINK_PREFIX@.len() as int) =~= LINK_PREFIX@);
    assert(url.skip(LINK_PREFIX@.len() as int) =~= path);
    if path.len() == 0 || path[0] != '/' {
        lemma_trimmed_start_fixed(path, '/');
    }
}

/// A text without the scheme's prefix is rewritten whole.
pub proof fn redirect_of_other_text(url: Seq<char>)
    requires
        !has_prefix(url, LINK_PREFIX@),
    ensures
        redirect_text(url) == LIVE_ROOT@ + trimmed_start(url, '/'),
{
}

/// The path of a deep link never begins with `/`, so the rewritten text has
/// no empty first path segment.
pub proof fn link_path_has_no_leading_separator(url: Seq<char>)
    ensures
        link_path(url).len() == 0 || link_path(url)[0] != '/',
{
    let rest = match stripped(url, LINK_PREFIX@) {
        Some(rest) => rest,
        None => url,
    };
    lemma_leading_run(rest, '/');
}

/// Every rewritten text lies under the live root.
pub proof fn redirect_lies_under_live_root(url: Seq<char>)
    ensures
        on_live_site(redirect_text(url)),
{
    let text = redirect_text(url);
    assert(text.subrange(0, LIVE_ROOT@.len() as int) =~= LIVE_ROOT@);
}

/// Only the first URL of an activation is routed.
pub proof fn only_first_url_is_routed(urls: Seq<Seq<char>>)
    requires
        urls.len() > 0,
    ensures
        deep_link_plan(urls) == deep_link_plan(seq![urls[0]]),
{
}

/// A deep link whose rewritten text does not parse, and an activation
/// without a URL, leave the shell as it is: no navigation, nothing shown.
pub proof fn unparsable_link_changes_nothing(shell: Shell, urls: Seq<Seq<char>>)
    requires
        urls.len() == 0 || parsed_url(redirect_text(urls[0])) is None,
    ensures
        deep_link_plan(urls) == Seq::<Effect>::empty(),
        shell.after(deep_link_plan(urls)) == shell,
{
}

/// A deep link whose rewritten text parses leaves a running shell's main
/// window on the parsed URL, visible and focused, and changes nothing else.
pub proof fn parsed_link_is_shown(shell: Shell, urls: Seq<Seq<char>>)
    requires
        shell.running(),
        urls.len() > 0,
        parsed_url(redirect_text(urls[0])) is Some,
    ensures
        shell.after(deep_link_plan(urls)) == (Shell {
            main: match shell.main {
                Some(window) => Some(
                    MainWindow {
                        location: parsed_url(redirect_text(urls[0]))->0,
                        visible: true,
                        focused: true,
                    },
                ),
                None => None,
            },
            ..shell
        }),
{
    let url = parsed_url(redirect_text(urls[0]))->0;
    lemma_after_concat(shell, seq![Effect::Navigate(url)], reveal_main());
    lemma_after_one(shell, Effect::Navigate(url));
    lemma_after_reveal_main(shell.apply(Effect::Navigate(url)));
}

} // verus!
