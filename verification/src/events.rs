use vstd::prelude::*;

verus! {

/// The editor events the camera systems react to.
#[derive(Clone, Copy, Debug, PartialEq, Eq, Structural)]
pub enum EditorEvent {
    /// The editor was opened (`now_active`) or closed.
    Toggle { now_active: bool },
    /// The user asked to frame the current selection.
    FocusSelected,
}

} // verus!
