use vstd::prelude::*;

verus! {

/// The finite vocabulary of effects the engine understands: every command
/// maps to exactly one action, and the system itself emits `Tick`,
/// `Render` and `Resize`.
#[derive(Debug, Clone, PartialEq, Eq)]
pub enum Action {
    Tick,
    Render,
    Resize(u16, u16),
    Refresh,
    Error(String),
    Help,
    Quit,
    PreviousMode,
    ScrollDown,
    ScrollUp,
    LoadKeySpace,
    RefreshSpace,
    LoadKeysIntoKeySpace,
    LoadNextPage,
    LoadPreviousPage,
    SetKeyspaceFilter,
    DeleteKeyspaceFilter,
    ConfirmKeyspacePopup,
    DiscardKeyspacePopup,
}

} // verus!
