//! The fixed names of the wrapped site and of the shell's two windows.

use vstd::prelude::*;
use crate::text::has_prefix;

verus! {

/// Root of the live site: the page an activation opens, and the base that
/// deep links are rewritten onto.
pub const LIVE_ROOT: &'static str = "https://open.musifly.net/";

/// The bundled page shown while the live site cannot be reached. It is served
/// from the shell's own resources, not from the live site.
pub const OFFLINE_PAGE: &'static str = "tauri://localhost/offline.html";

/// Label of the window that holds the site.
pub const MAIN_WINDOW: &'static str = "main";

/// Label of the splash window the updater shows at startup.
pub const UPDATER_WINDOW: &'static str = "updater";

/// Script run on every page load: it switches the browser's own context menu
/// off.
pub const CONTEXT_MENU_GUARD: &'static str =
    "document.addEventListener('contextmenu', e => e.preventDefault());";

/// `location` lies under the live site's root.
pub open spec fn on_live_site(location: Seq<char>) -> bool {
    has_prefix(location, LIVE_ROOT@)
}

/// `location` is a location of the bundled offline page: the page itself,
/// with whatever query or fragment follows it.
pub open spec fn on_offline_page(location: Seq<char>) -> bool {
    has_prefix(location, OFFLINE_PAGE@)
}

/// The live root lies under itself.
pub proof fn lemma_live_root_on_live_site()
    ensures
        on_live_site(LIVE_ROOT@),
{
    assert(LIVE_ROOT@.subrange(0, LIVE_ROOT@.len() as int) =~= LIVE_ROOT@);
}

/// The bundled offline page is a location of itself.
pub proof fn lemma_offline_page_on_offline_page()
    ensures
        on_offline_page(OFFLINE_PAGE@),
{
    assert(OFFLINE_PAGE@.subrange(0, OFFLINE_PAGE@.len() as int) =~= OFFLINE_PAGE@);
}

/// No location is both under the live root and a location of the offline
/// page.
pub proof fn lemma_live_and_offline_are_apart(location: Seq<char>)
    ensures
        !(on_live_site(location) && on_offline_page(location)),
{
    reveal_strlit("tauri://localhost/offline.html");
    reveal_strlit("https://open.musifly.net/");
    if on_live_site(location) && on_offline_page(location) {
        assert(location.subrange(0, LIVE_ROOT@.len() as int)[0] == location[0]);
        assert(location.subrange(0, OFFLINE_PAGE@.len() as int)[0] == location[0]);
        assert(LIVE_ROOT@[0] == 'h');
        assert(OFFLINE_PAGE@[0] == 't');
    }
}

} // verus!
