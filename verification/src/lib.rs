//! Decision core of a desktop shell that wraps one remote web application in a
//! native window with a tray icon.
//!
//! Every handler here is a pure function from what the shell observed (an
//! event, the main window's location, a probe outcome) to the list of
//! [`action::Action`]s the windowing layer has to perform.  [`shell`] holds a
//! mathematical model of the windows and the process, over which the
//! guarantees of the handlers are stated and proved.
//!
//! Three choices are fixed throughout:
//! - an activation navigates only where the main window is not already where
//!   it belongs ([`window`]);
//! - a deep link that lacks the scheme's prefix is rewritten whole rather
//!   than refused ([`deep_link`]);
//! - a forwarded second launch shows and focuses the main window without
//!   probing the site again ([`instance`]).

pub mod action;
pub mod deep_link;
pub mod instance;
pub mod navigation;
pub mod probe;
pub mod shell;
pub mod site;
pub mod text;
pub mod tray;
pub mod window;
