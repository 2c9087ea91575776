//! Tab bar of the settings screen: which tab a click selects and how each
//! tab looks afterwards.

use vstd::prelude::*;
use crate::display::COLOR_ACCENT;

verus! {

/// Number of tabs of the settings screen.
pub const SETTINGS_TAB_COUNT: usize = 4;

/// Background of a tab button that is not selected.
pub const COLOR_TAB_INACTIVE: u32 = 0x2D2D2D;

/// How a tab is drawn: its button background and whether its panel is
/// hidden.
#[derive(Debug, Clone, Copy, PartialEq, Eq, Structural)]
pub struct TabLook {
    pub bg_color: u32,
    pub panel_hidden: bool,
}

/// Look of tab `j` when tab `active` is selected.
pub open spec fn tab_look(active: int, j: int) -> TabLook {
    if j == active {
        TabLook { bg_color: COLOR_ACCENT, panel_hidden: false }
    } else {
        TabLook { bg_color: COLOR_TAB_INACTIVE, panel_hidden: true }
    }
}

/// Handles a click on the settings tab bar: `tabs` are the tab button
/// handles, `target` the clicked object. Returns the selected tab and the
/// look of every tab, or `None` when the click was not on a tab button.
pub fn settings_tab_clicked(tabs: &[usize], target: usize) -> (r: Option<(usize, Vec<TabLook>)>)
    ensures
        r is None <==> (forall|i: int| 0 <= i < tabs@.len() ==> tabs@[i] != target),
        r matches Some((active, looks)) ==> {
            &&& active < tabs@.len()
            &&& tabs@[active as int] == target
            &&& forall|j: int| 0 <= j < active ==> tabs@[j] != target
            &&& looks@.len() == tabs@.len()
            &&& forall|j: int| 0 <= j < looks@.len() ==> #[trigger] looks@[j] == tab_look(active as int, j)
        },
{
    let n = tabs.len();
    let mut i: usize = 0;
    while i < n
        invariant
            n == tabs@.len(),
            i <= n,
            forall|j: int| 0 <= j < i ==> tabs@[j] != target,
        decreases n - i,
    {
        if tabs[i] == target {
            let mut looks: Vec<TabLook> = Vec::new();
            let mut j: usize = 0;
            while j < n
                invariant
                    n == tabs@.len(),
                    i < n,
                    j <= n,
                    looks@.len() == j,
                    forall|k: int| 0 <= k < j ==> #[trigger] looks@[k] == tab_look(i as int, k),
                decreases n - j,
            {
                if j == i {
                    looks.push(TabLook { bg_color: COLOR_ACCENT, panel_hidden: false });
                } else {
                    looks.push(TabLook { bg_color: COLOR_TAB_INACTIVE, panel_hidden: true });
                }
                j = j + 1;
            }
            return Some((i, looks));
        }
        i = i + 1;
    }
    None
}

/// Exactly one tab is shown after a click on a tab: the selected one.
pub proof fn lemma_one_panel_shown(active: int, j: int)
    ensures
        tab_look(active, j).panel_hidden == (j != active),
{
}

} // verus!
