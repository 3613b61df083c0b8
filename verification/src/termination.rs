use vstd::prelude::*;

verus! {

/// Why the application is shutting down: an interrupt from the operating
/// system, or the user asking to quit.  Cooperative shutdown is not a
/// failure.
#[derive(Debug, Clone, Copy, PartialEq, Eq, Structural)]
pub enum Interrupted {
    OsSigInt,
    UserInt,
}

} // verus!
