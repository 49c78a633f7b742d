//! The status-notifier item's menu.
//!
//! It is an extra way in, never the only one: every action here is also a
//! subcommand.

use vstd::prelude::*;

verus! {

/// What a menu entry asks the program to do.
#[derive(Debug, Clone, Copy, PartialEq, Eq)]
pub enum Action {
    Shot,
    Clip,
    Selection,
    History,
    Settings,
    Quit,
}

/// The title the tray item shows.
pub const TITLE: &'static str = "Vertere";

/// One line of the tray menu.
#[derive(Debug, Clone, Copy, PartialEq, Eq)]
pub enum MenuEntry {
    /// A labelled entry that sends an action.
    Item(&'static str, Action),
    /// A divider between groups of entries.
    Separator,
}

/// The tray menu, top to bottom.
pub open spec fn menu_entries() -> Seq<MenuEntry> {
    seq![
        MenuEntry::Item("Translate a screen region", Action::Shot),
        MenuEntry::Item("Translate the clipboard", Action::Clip),
        MenuEntry::Item("Translate the selection", Action::Selection),
        MenuEntry::Separator,
        MenuEntry::Item("History…", Action::History),
        MenuEntry::Item("Settings…", Action::Settings),
        MenuEntry::Separator,
        MenuEntry::Item("Quit", Action::Quit),
    ]
}

/// The label an action is offered under.
pub open spec fn action_label(action: Action) -> &'static str {
    match action {
        Action::Shot => "Translate a screen region",
        Action::Clip => "Translate the clipboard",
        Action::Selection => "Translate the selection",
        Action::History => "History…",
        Action::Settings => "Settings…",
        Action::Quit => "Quit",
    }
}

/// Every item of the menu carries the action its label names, and every
/// action is offered.
pub proof fn menu_items_do_what_they_say()
    ensures
        forall|i: int|
            0 <= i < menu_entries().len() ==> (#[trigger] menu_entries()[i] matches MenuEntry::Item(
                label,
                action,
            ) ==> label == action_label(action)),
        forall|action: Action|
            #![trigger action_label(action)]
            exists|i: int|
                0 <= i < menu_entries().len() && #[trigger] menu_entries()[i] == MenuEntry::Item(
                    action_label(action),
                    action,
                ),
{
    let m = menu_entries();
    assert forall|action: Action|
        #![trigger action_label(action)]
        exists|i: int|
            0 <= i < m.len() && #[trigger] m[i] == MenuEntry::Item(action_label(action), action) by {
        match action {
            Action::Shot => assert(m[0] == MenuEntry::Item(action_label(action), action)),
            Action::Clip => assert(m[1] == MenuEntry::Item(action_label(action), action)),
            Action::Selection => assert(m[2] == MenuEntry::Item(action_label(action), action)),
            Action::History => assert(m[4] == MenuEntry::Item(action_label(action), action)),
            Action::Settings => assert(m[5] == MenuEntry::Item(action_label(action), action)),
            Action::Quit => assert(m[7] == MenuEntry::Item(action_label(action), action)),
        }
    }
}

/// The tray menu: the three ways to translate, the two windows, and quitting.
pub fn menu() -> (res: Vec<MenuEntry>)
    ensures
        res@ == menu_entries(),
        forall|i: int|
            0 <= i < res@.len() ==> (#[trigger] res@[i] matches MenuEntry::Item(label, action)
                ==> label == action_label(action)),
{
    let mut entries: Vec<MenuEntry> = Vec::new();
    entries.push(MenuEntry::Item("Translate a screen region", Action::Shot));
    entries.push(MenuEntry::Item("Translate the clipboard", Action::Clip));
    entries.push(MenuEntry::Item("Translate the selection", Action::Selection));
    entries.push(MenuEntry::Separator);
    entries.push(MenuEntry::Item("History…", Action::History));
    entries.push(MenuEntry::Item("Settings…", Action::Settings));
    entries.push(MenuEntry::Separator);
    entries.push(MenuEntry::Item("Quit", Action::Quit));
    proof {
        assert(entries@ =~= menu_entries());
        menu_items_do_what_they_say();
    }
    entries
}

} // verus!
