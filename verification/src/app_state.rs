//! The single mutable application state that drives every render pass.

use vstd::prelude::*;
use vstd::string::StringExecFns;
use crate::records::{Data, generate_fake_names, sorted_by_name};
use crate::tabs::TAB_COUNT;
use crate::table::COLUMN_COUNT;

verus! {

/// The root application state: the record store, the active tab, and the
/// optional table selection.  Owned by the event loop; renderers only
/// borrow it for the duration of one frame.
pub struct App {
    pub items: Vec<Data>,
    pub active_tab: usize,
    pub selected_row: Option<usize>,
    pub selected_column: Option<usize>,
}

impl App {
    /// The state invariant: the active tab indexes the fixed tab list, and
    /// each selection index is either unset or strictly within the bounds
    /// of the visible rows and columns; both are unset when the store is
    /// empty.
    pub open spec fn wf(self) -> bool {
        &&& self.active_tab < TAB_COUNT
        &&& (self.selected_row matches Some(r) ==> r < self.items@.len())
        &&& (self.selected_column matches Some(c) ==> c < COLUMN_COUNT)
        &&& (self.items@.len() == 0 ==> self.selected_row is None && self.selected_column
            is None)
    }

    /// Start-up state: twenty placeholder records sorted by name, the first
    /// tab active, and no selection.
    pub fn new() -> (r: App)
        ensures
            r.wf(),
            r.items@.len() == 20,
            sorted_by_name(r.items@),
            r.active_tab == 0,
            r.selected_row is None,
            r.selected_column is None,
    {
        App {
            items: generate_fake_names(20),
            active_tab: 0,
            selected_row: None,
            selected_column: None,
        }
    }

    /// Move to the next tab, wrapping around past the last one.  The rest
    /// of the state — records and selection — is untouched, so the state
    /// invariant is preserved.
    pub fn next_tab(&mut self)
        requires
            old(self).wf(),
        ensures
            final(self).wf(),
            final(self).active_tab == (old(self).active_tab + 1) % (TAB_COUNT as int),
            final(self).items == old(self).items,
            final(self).selected_row == old(self).selected_row,
            final(self).selected_column == old(self).selected_column,
    {
        self.active_tab = (self.active_tab + 1) % TAB_COUNT;
    }

    /// Move to the previous tab, wrapping around past the first one.
    pub fn prev_tab(&mut self)
        requires
            old(self).wf(),
        ensures
            final(self).wf(),
            final(self).active_tab == (old(self).active_tab + TAB_COUNT - 1) % (TAB_COUNT as int),
            final(self).items == old(self).items,
            final(self).selected_row == old(self).selected_row,
            final(self).selected_column == old(self).selected_column,
    {
        self.active_tab = (self.active_tab + TAB_COUNT - 1) % TAB_COUNT;
    }

    /// The text of the detail pane beside the table.  Intentionally
    /// minimal: contextual content for the selection is not populated yet.
    pub fn detail_text(&self) -> (r: String)
        ensures
            r@ == "Hello, World!"@,
    {
        String::from_str("Hello, World!")
    }
}

} // verus!
