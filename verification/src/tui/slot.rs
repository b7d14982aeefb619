//! Places on the screen.

use vstd::prelude::*;

verus! {

/// Where a widget is shown.
#[derive(Clone, Copy, Debug, PartialEq, Eq, Structural)]
pub enum TuiSlot {
    /// A tab of the main area.
    Tab,
    /// A section of the sidebar.
    SidebarSection,
}

} // verus!
