use vstd::prelude::*;

use crate::action::Action;
use crate::command::Command;

verus! {

/// The total, pure mapping from commands to actions: every command maps
/// to exactly one action.
pub open spec fn action_of(cmd: Command) -> Action {
    match cmd {
        Command::Quit => Action::Quit,
        Command::PreviousMode => Action::PreviousMode,
        Command::ScrollDown => Action::ScrollDown,
        Command::ScrollUp => Action::ScrollUp,
        Command::RefreshSpace => Action::RefreshSpace,
        Command::LoadNextPage => Action::LoadNextPage,
        Command::LoadPreviousPage => Action::LoadPreviousPage,
        Command::ClosePopup => Action::DiscardKeyspacePopup,
        Command::SetPattern => Action::SetKeyspaceFilter,
        Command::DeletePattern => Action::DeleteKeyspaceFilter,
        Command::EnterPopup => Action::ConfirmKeyspacePopup,
    }
}

impl From<Command> for Action {
    fn from(cmd: Command) -> (r: Self) {
        match cmd {
            Command::Quit => Self::Quit,
            Command::PreviousMode => Self::PreviousMode,
            Command::ScrollDown => Self::ScrollDown,
            Command::ScrollUp => Self::ScrollUp,
            Command::RefreshSpace => Self::RefreshSpace,
            Command::LoadNextPage => Self::LoadNextPage,
            Command::LoadPreviousPage => Self::LoadPreviousPage,
            Command::ClosePopup => Self::DiscardKeyspacePopup,
            Command::SetPattern => Self::SetKeyspaceFilter,
            Command::DeletePattern => Self::DeleteKeyspaceFilter,
            Command::EnterPopup => Self::ConfirmKeyspacePopup,
        }
    }
}

impl vstd::std_specs::convert::FromSpecImpl<Command> for Action {
    open spec fn obeys_from_spec() -> bool {
        true
    }

    open spec fn from_spec(cmd: Command) -> Action {
        action_of(cmd)
    }
}

} // verus!
