use vstd::prelude::*;
use vstd::string::StringExecFns;

verus! {

/// Failure taxonomy of the engine.
///
/// `Connection` is a transport or authentication failure, `Protocol` a
/// malformed reply (for example an info blob that is missing a required
/// field), `Fetch` the failure of a per-key read during a page fetch —
/// the whole page is treated as failed, never a partial one — and
/// `Cancelled` the cooperative shutdown signal, which is not a failure.
#[derive(Debug, Clone, PartialEq, Eq)]
pub enum StoreError {
    Connection(String),
    Protocol(String),
    Fetch(String),
    Cancelled,
}

impl StoreError {
    /// The user-visible text of the error.
    pub open spec fn spec_message(&self) -> Seq<char> {
        match self {
            StoreError::Connection(m) => "connection error: "@ + m@,
            StoreError::Protocol(m) => "protocol error: "@ + m@,
            StoreError::Fetch(m) => "fetch failed: "@ + m@,
            StoreError::Cancelled => "cancelled"@,
        }
    }

    /// Renders the error for surfacing to the user.
    pub fn message(&self) -> (r: String)
        ensures
            r@ == self.spec_message(),
    {
        match self {
            StoreError::Connection(m) => {
                let mut s = "connection error: ".to_owned();
                s.append(m.as_str());
                s
            }
            StoreError::Protocol(m) => {
                let mut s = "protocol error: ".to_owned();
                s.append(m.as_str());
                s
            }
            StoreError::Fetch(m) => {
                let mut s = "fetch failed: ".to_owned();
                s.append(m.as_str());
                s
            }
            StoreError::Cancelled => "cancelled".to_owned(),
        }
    }

    /// Re-creates the error value; an explicit copy with a full contract,
    /// where a derived clone would promise nothing.
    pub fn duplicate(&self) -> (r: StoreError)
        ensures
            r == *self,
    {
        match self {
            StoreError::Connection(m) => StoreError::Connection(m.clone()),
            StoreError::Protocol(m) => StoreError::Protocol(m.clone()),
            StoreError::Fetch(m) => StoreError::Fetch(m.clone()),
            StoreError::Cancelled => StoreError::Cancelled,
        }
    }
}

} // verus!
