//! The top-level view tabs and their bounds-checked cursor.

use vstd::prelude::*;

verus! {

/// The enumerated, ordered set of top-level views.
#[derive(Clone, Copy, Debug, PartialEq, Eq)]
pub enum SelectedTab {
    TabInvoices,
    TabClients,
}

/// The tab before `t`, clamped at the first tab.
pub open spec fn tab_previous(t: SelectedTab) -> SelectedTab {
    match t {
        SelectedTab::TabInvoices => SelectedTab::TabInvoices,
        SelectedTab::TabClients => SelectedTab::TabInvoices,
    }
}

/// The tab after `t`, clamped at the last tab.
pub open spec fn tab_next(t: SelectedTab) -> SelectedTab {
    match t {
        SelectedTab::TabInvoices => SelectedTab::TabClients,
        SelectedTab::TabClients => SelectedTab::TabClients,
    }
}

impl SelectedTab {
    /// The previous tab; stays put on the first tab.
    pub fn previous(self) -> (r: SelectedTab)
        ensures
            r == tab_previous(self),
    {
        match self {
            SelectedTab::TabInvoices => SelectedTab::TabInvoices,
            SelectedTab::TabClients => SelectedTab::TabInvoices,
        }
    }

    /// The next tab; stays put on the last tab.
    pub fn next(self) -> (r: SelectedTab)
        ensures
            r == tab_next(self),
    {
        match self {
            SelectedTab::TabInvoices => SelectedTab::TabClients,
            SelectedTab::TabClients => SelectedTab::TabClients,
        }
    }
}

impl Default for SelectedTab {
    /// The first tab is the default view.
    fn default() -> (r: SelectedTab)
        ensures
            r is TabInvoices,
    {
        SelectedTab::TabInvoices
    }
}

/// Stepping off either end of the tab row is a no-op: from the first tab
/// `previous` stays on the first, and from the last tab `next` stays on
/// the last.  Both steps are therefore idempotent.
pub proof fn lemma_tab_cursor_clamped(t: SelectedTab)
    ensures
        tab_previous(SelectedTab::TabInvoices) == SelectedTab::TabInvoices,
        tab_next(SelectedTab::TabClients) == SelectedTab::TabClients,
        tab_previous(tab_previous(t)) == tab_previous(t),
        tab_next(tab_next(t)) == tab_next(t),
{
}

} // verus!
