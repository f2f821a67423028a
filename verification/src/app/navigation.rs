//! The discriminated navigation actions the host feeds to the core, and the
//! key-binding descriptions shown in the context hint.

use vstd::prelude::*;
use vstd::string::StringExecFns;

verus! {

/// One input action per event-loop iteration. `Exit` is handled by the host;
/// `Tick` drives the incremental highlighting pipeline.
#[derive(Clone, Copy, Debug, Eq, PartialEq, Structural)]
pub enum NavigationAction {
    Select,
    Back,
    Home,
    End,
    PageUp,
    PageDown,
    NextSelection,
    PreviousSelection,
    ExternalEditor,
    Tick,
    Exit,
    Invalid,
}

/// The key binding and description shown for an action.
pub struct ActionInfo {
    pub key: String,
    pub name: String,
}

impl ActionInfo {
    pub open spec fn spec_key(action: NavigationAction) -> Seq<char> {
        match action {
            NavigationAction::Select => "Enter"@,
            NavigationAction::Back => "C-g"@,
            NavigationAction::Exit => "C-x"@,
            NavigationAction::Home => "Home"@,
            NavigationAction::End => "End"@,
            NavigationAction::PageUp => "PgUp"@,
            NavigationAction::PageDown => "PgDn"@,
            NavigationAction::NextSelection => "Down"@,
            NavigationAction::PreviousSelection => "Up"@,
            NavigationAction::ExternalEditor => "C-e"@,
            _ => "invalid"@,
        }
    }

    pub open spec fn spec_name(action: NavigationAction) -> Seq<char> {
        match action {
            NavigationAction::Select => "Select"@,
            NavigationAction::Back => "Back"@,
            NavigationAction::Exit => "Exit"@,
            NavigationAction::Home => "Go to the top"@,
            NavigationAction::End => "Go to the bottom"@,
            NavigationAction::PageUp => "Page Up"@,
            NavigationAction::PageDown => "Page Down"@,
            NavigationAction::NextSelection => "Select the next item"@,
            NavigationAction::PreviousSelection => "Select the previous item"@,
            NavigationAction::ExternalEditor => "Launch external pager for blob"@,
            _ => "invalid"@,
        }
    }

    pub fn from(action: &NavigationAction) -> (r: ActionInfo)
        ensures
            r.key@ == ActionInfo::spec_key(*action),
            r.name@ == ActionInfo::spec_name(*action),
    {
        let (key, name): (&str, &str) = match action {
            NavigationAction::Select => ("Enter", "Select"),
            NavigationAction::Back => ("C-g", "Back"),
            NavigationAction::Exit => ("C-x", "Exit"),
            NavigationAction::Home => ("Home", "Go to the top"),
            NavigationAction::End => ("End", "Go to the bottom"),
            NavigationAction::PageUp => ("PgUp", "Page Up"),
            NavigationAction::PageDown => ("PgDn", "Page Down"),
            NavigationAction::NextSelection => ("Down", "Select the next item"),
            NavigationAction::PreviousSelection => ("Up", "Select the previous item"),
            NavigationAction::ExternalEditor => ("C-e", "Launch external pager for blob"),
            // never shown, but every action needs an entry
            _ => ("invalid", "invalid"),
        };
        ActionInfo { key: String::from_str(key), name: String::from_str(name) }
    }

    /// The hint text for one action: its key, a separator, its description.
    pub open spec fn spec_text(self) -> Seq<char> {
        self.key@ + ": "@ + self.name@
    }

    pub fn text(&self) -> (r: String)
        ensures
            r@ == self.spec_text(),
    {
        let mut r = self.key.clone();
        r.append(": ");
        r.append(self.name.as_str());
        r
    }
}

} // verus!
