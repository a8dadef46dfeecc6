use vstd::prelude::*;

use crate::components::tab::FocusedTab;

verus! {

/// A message passed between the widgets and the application loop.
#[derive(Debug, Clone, PartialEq, Eq)]
pub enum Action {
    Tick,
    Render,
    Resize(u16, u16),
    Suspend,
    Resume,
    Quit,
    ClearScreen,
    Error(String),
    Help,
    /// The named tab has been brought to the front.
    TabFocus(FocusedTab),
}

} // verus!
