//! The tab strip: a fixed, ordered, immutable list of named categories,
//! one of which is active at any time.

use vstd::prelude::*;
use vstd::string::StringExecFns;

verus! {

/// Number of tabs in the strip; fixed at startup.
pub const TAB_COUNT: usize = 4;

/// One rendered tab: its label and whether it is the active one.
pub struct TabItem {
    pub label: String,
    pub active: bool,
}

/// The fixed label of tab `i`.
pub open spec fn tab_label_spec(i: int) -> Seq<char> {
    if i == 0 {
        "To Review"@
    } else if i == 1 {
        "To merge"@
    } else if i == 2 {
        "Failing CI"@
    } else {
        "Jira"@
    }
}

/// The strip's labels, in display order.
pub fn tab_labels() -> (r: Vec<String>)
    ensures
        r@.len() == TAB_COUNT,
        forall|i: int| 0 <= i < TAB_COUNT ==> (#[trigger] r@[i])@ == tab_label_spec(i),
{
    let mut v: Vec<String> = Vec::new();
    v.push(String::from_str("To Review"));
    v.push(String::from_str("To merge"));
    v.push(String::from_str("Failing CI"));
    v.push(String::from_str("Jira"));
    v
}

/// Build the tab strip model for the given active tab: every tab keeps its
/// fixed label, and exactly the tab at `active_tab` is marked active (the
/// renderer gives that one the swapped foreground/background emphasis).
pub fn tab_strip(active_tab: usize) -> (r: Vec<TabItem>)
    requires
        active_tab < TAB_COUNT,
    ensures
        r@.len() == TAB_COUNT,
        forall|i: int| 0 <= i < TAB_COUNT ==> (#[trigger] r@[i]).label@ == tab_label_spec(i),
        forall|i: int| 0 <= i < TAB_COUNT ==> ((#[trigger] r@[i]).active <==> i == active_tab),
{
    let mut v: Vec<TabItem> = Vec::new();
    v.push(TabItem { label: String::from_str("To Review"), active: active_tab == 0 });
    v.push(TabItem { label: String::from_str("To merge"), active: active_tab == 1 });
    v.push(TabItem { label: String::from_str("Failing CI"), active: active_tab == 2 });
    v.push(TabItem { label: String::from_str("Jira"), active: active_tab == 3 });
    v
}

} // verus!
