//! What the dispatcher reads of its collaborators before it decides: the
//! answers of the session catalog, of the list of resurrectable sessions
//! and of the builder of new sessions, taken at the moment of the event.

use crate::chars::views;
use vstd::prelude::*;

verus! {

/// The entry that is selected in the session list.
#[derive(Clone, Debug, PartialEq, Eq)]
pub struct SelectedSession {
    /// The name of the session that the entry belongs to.
    pub name: String,
    /// The position of the selected tab, if the entry is a tab or a pane.
    pub tab_position: Option<usize>,
    /// The identifier of the selected pane and whether it is a plugin
    /// pane, if the entry is a pane.
    pub pane_id: Option<(u32, bool)>,
    /// Whether the session is the one this overlay runs in.
    pub is_current_session: bool,
}

/// A [`SelectedSession`] with its name as a sequence of characters.
pub struct SelectedSessionView {
    pub name: Seq<char>,
    pub tab_position: Option<usize>,
    pub pane_id: Option<(u32, bool)>,
    pub is_current_session: bool,
}

impl View for SelectedSession {
    type V = SelectedSessionView;

    open spec fn view(&self) -> SelectedSessionView {
        SelectedSessionView {
            name: self.name@,
            tab_position: self.tab_position,
            pane_id: self.pane_id,
            is_current_session: self.is_current_session,
        }
    }
}

/// The answers of the collaborators at the moment of an event.
#[derive(Clone, Debug, PartialEq, Eq)]
pub struct Catalog {
    /// The names of the running sessions that the session list holds.
    pub session_names: Vec<String>,
    /// The names of the running sessions that are closed to this kind of
    /// client.
    pub forbidden_session_names: Vec<String>,
    /// The names of the sessions that can be resurrected.
    pub resurrectable_session_names: Vec<String>,
    /// The names of the running sessions other than the current one.
    pub other_session_names: Vec<String>,
    /// The selected entry of the session list, if there is one.
    pub selected_session: Option<SelectedSession>,
    /// The name of the selected resurrectable session, if there is one.
    pub selected_resurrectable: Option<String>,
    /// The name typed for the new session.
    pub new_session_name: String,
}

/// A [`Catalog`] with its strings as sequences of characters.
pub struct CatalogView {
    pub session_names: Seq<Seq<char>>,
    pub forbidden_session_names: Seq<Seq<char>>,
    pub resurrectable_session_names: Seq<Seq<char>>,
    pub other_session_names: Seq<Seq<char>>,
    pub selected_session: Option<SelectedSessionView>,
    pub selected_resurrectable: Option<Seq<char>>,
    pub new_session_name: Seq<char>,
}

/// The text of an optional string.
pub open spec fn text_of(name: Option<String>) -> Option<Seq<char>> {
    match name {
        Some(n) => Some(n@),
        None => None,
    }
}

impl View for Catalog {
    type V = CatalogView;

    open spec fn view(&self) -> CatalogView {
        CatalogView {
            session_names: views(self.session_names@),
            forbidden_session_names: views(self.forbidden_session_names@),
            resurrectable_session_names: views(self.resurrectable_session_names@),
            other_session_names: views(self.other_session_names@),
            selected_session: match self.selected_session {
                Some(s) => Some(s@),
                None => None,
            },
            selected_resurrectable: text_of(self.selected_resurrectable),
            new_session_name: self.new_session_name@,
        }
    }
}

impl Catalog {
    /// A catalog with no session in it, nothing selected and no name typed.
    pub fn empty() -> (catalog: Catalog)
        ensures
            catalog@.session_names.len() == 0,
            catalog@.forbidden_session_names.len() == 0,
            catalog@.resurrectable_session_names.len() == 0,
            catalog@.other_session_names.len() == 0,
            catalog@.selected_session is None,
            catalog@.selected_resurrectable is None,
            catalog@.new_session_name.len() == 0,
    {
        Catalog {
            session_names: Vec::new(),
            forbidden_session_names: Vec::new(),
            resurrectable_session_names: Vec::new(),
            other_session_names: Vec::new(),
            selected_session: None,
            selected_resurrectable: None,
            new_session_name: String::new(),
        }
    }
}

} // verus!
