use vstd::prelude::*;

verus! {

/// The kind of popup overlay the interface can show.
#[derive(Debug, Clone, Copy, PartialEq, Eq, Hash, Structural)]
pub enum PopupMode {
    Error,
    Info,
    Confirm,
}

/// A named interface context.  The active mode scopes which keybinding
/// table is consulted first; `Common` holds the mode-independent fallback
/// bindings.
#[derive(Debug, Clone, Copy, PartialEq, Eq, Hash, Structural)]
pub enum Mode {
    Common,
    KeySpace,
    Popup(PopupMode),
}

impl Default for Mode {
    /// The browser starts in the keyspace view.
    fn default() -> (r: Self)
        ensures
            r == Mode::KeySpace,
    {
        Mode::KeySpace
    }
}

} // verus!
