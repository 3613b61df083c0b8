use vstd::prelude::*;

verus! {

/// The finite, mode-agnostic vocabulary of user intents that a resolved
/// key sequence can express.
#[derive(Debug, Clone, Copy, PartialEq, Eq, Hash, Structural)]
pub enum Command {
    Quit,
    PreviousMode,
    ScrollDown,
    ScrollUp,
    RefreshSpace,
    LoadNextPage,
    LoadPreviousPage,
    SetPattern,
    DeletePattern,
    ClosePopup,
    EnterPopup,
}

} // verus!
