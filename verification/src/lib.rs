//! Translate a screen region, the clipboard or the selected text.
//!
//! The rules of the program, each with a contract proved by Verus: the prompt
//! and the streamed reply ([`translate`]), the settings and the history rows
//! ([`store`]), what is sent to the endpoint and how its answers are read
//! ([`provider`]), where files and windows go ([`xdg`], [`window_state`],
//! [`images`]), the command line ([`commands`]), the capture tools' arguments
//! and output ([`capture`]), the tray menu ([`tray`]) and what the windows
//! show ([`ui`]).

pub mod capture;
pub mod commands;
pub mod images;
pub mod provider;
pub mod store;
pub mod text;
pub mod translate;
pub mod tray;
pub mod ui;
pub mod window_state;
pub mod xdg;

use vstd::prelude::*;

verus! {

/// The D-Bus name this program owns, which is also the basename of its desktop
/// entry, D-Bus activation file and icon.
///
/// Reverse-DNS of a domain we control, as the D-Bus namespace is shared by
/// everything on the session bus.
pub const APP_ID: &'static str = "me.ocfox.Vertere";

/// The layer-shell namespace, which is what sway matches window rules against.
///
/// Deliberately not [`APP_ID`]: this one gets typed into config files by hand.
pub const LAYER_NAMESPACE: &'static str = "vertere";

} // verus!
