//! The tabbed dock: what clicking a tab's button loads.
use vstd::prelude::*;

verus! {

/// The tabs whose button loads something when clicked.
#[derive(PartialEq, Eq, Structural, Clone, Copy, Debug)]
pub enum TabKind {
    CompletedTasks,
    StoreTasks,
    Downloads,
    /// Any other tab.
    Other,
}

/// What a click on a tab's button loads.
#[derive(PartialEq, Eq, Structural, Clone, Copy, Debug)]
pub enum TabLoad {
    /// The store's completed tasks.
    CompletedTasks,
    /// The store's open tasks.
    OpenTasks,
    /// The application's releases.
    Releases,
}

/// What clicking the button of `tab` loads: the completed or open tasks when
/// none are held yet, the releases every time, nothing for the other tabs.
pub fn load_on_tab_click(tab: TabKind, completed_held: usize, open_held: usize) -> (r: Option<TabLoad>)
    ensures
        r == match tab {
            TabKind::CompletedTasks => if completed_held == 0 { Some(TabLoad::CompletedTasks) } else { None },
            TabKind::StoreTasks => if open_held == 0 { Some(TabLoad::OpenTasks) } else { None },
            TabKind::Downloads => Some(TabLoad::Releases),
            TabKind::Other => None,
        },
{
    match tab {
        TabKind::CompletedTasks => if completed_held == 0 { Some(TabLoad::CompletedTasks) } else { None },
        TabKind::StoreTasks => if open_held == 0 { Some(TabLoad::OpenTasks) } else { None },
        TabKind::Downloads => Some(TabLoad::Releases),
        TabKind::Other => None,
    }
}

} // verus!
