//! The closed error taxonomy shared by every backend adapter.
//!
//! Adapters never let a backend's native error type cross the contract
//! boundary: a native error is carried as an opaque, cloneable payload that
//! preserves its message for diagnostics, and every other failure is one of
//! the typed kinds below.

use vstd::prelude::*;

verus! {

/// An opaque, cloneable carrier for a backend-native error.  Only the
/// diagnostic message survives the crossing of the contract boundary; the
/// backend's own error type never leaks through it.
#[derive(Clone, Debug, PartialEq, Eq)]
pub struct BackendError {
    pub message: String,
}

impl BackendError {
    pub fn new(message: String) -> (r: BackendError)
        ensures
            r.message@ == message@,
    {
        BackendError { message }
    }
}

/// Every failure an adapter can surface, classified into a closed set of
/// kinds so that the upstream layer can translate them uniformly.
///
/// `NotFound` marks a resource that is absent where the operation demanded
/// one; `Backend` wraps a backend-native failure; `Other` is an
/// adaptation-layer failure with a human-readable message, used for malformed
/// requests; `Unimplemented` marks a contract operation this adapter does not
/// support, a deliberate terminal state rather than a crash.
#[derive(Clone, Debug, PartialEq, Eq)]
pub enum VectorDatabaseError {
    NotFound(String),
    Backend(BackendError),
    Other(String),
    Unimplemented(String),
}

/// The message an error carries.
pub open spec fn message_spec(e: VectorDatabaseError) -> Seq<char> {
    match e {
        VectorDatabaseError::NotFound(m) => m@,
        VectorDatabaseError::Backend(b) => b.message@,
        VectorDatabaseError::Other(m) => m@,
        VectorDatabaseError::Unimplemented(m) => m@,
    }
}

impl VectorDatabaseError {
    /// A human-readable rendering of the error: its kind's name, a colon,
    /// and its message.
    pub fn describe(&self) -> (r: String)
        ensures
            r@ == kind_name_spec(*self) + ": "@ + message_spec(*self),
            r@.len() > 0,
    {
        let msg: &String = match self {
            VectorDatabaseError::NotFound(m) => m,
            VectorDatabaseError::Backend(b) => &b.message,
            VectorDatabaseError::Other(m) => m,
            VectorDatabaseError::Unimplemented(m) => m,
        };
        let mut out = kind_name(self);
        out.append(": ");
        out.append(msg.as_str());
        proof {
            reveal_strlit("not found");
            reveal_strlit("backend error");
            reveal_strlit("request error");
            reveal_strlit("unimplemented");
            assert(out@ =~= kind_name_spec(*self) + ": "@ + message_spec(*self));
        }
        out
    }
}

/// The name of an error's kind, identical for equal kinds on every call.
pub fn kind_name(e: &VectorDatabaseError) -> (r: String)
    ensures
        r@ == kind_name_spec(*e),
{
    match e {
        VectorDatabaseError::NotFound(_) => "not found".to_owned(),
        VectorDatabaseError::Backend(_) => "backend error".to_owned(),
        VectorDatabaseError::Other(_) => "request error".to_owned(),
        VectorDatabaseError::Unimplemented(_) => "unimplemented".to_owned(),
    }
}

/// What `kind_name` returns for each kind.
pub open spec fn kind_name_spec(e: VectorDatabaseError) -> Seq<char> {
    match e {
        VectorDatabaseError::NotFound(_) => "not found"@,
        VectorDatabaseError::Backend(_) => "backend error"@,
        VectorDatabaseError::Other(_) => "request error"@,
        VectorDatabaseError::Unimplemented(_) => "unimplemented"@,
    }
}

} // verus!
