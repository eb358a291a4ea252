use vstd::prelude::*;

verus! {

/// A change to the window that the application is told of.
#[derive(Debug, Copy, Clone, PartialEq, Eq, Structural)]
pub enum WindowEvent {
    Moved,
    Resized,
}

} // verus!
