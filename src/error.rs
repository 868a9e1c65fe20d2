//! The errors a call can end in.

use vstd::prelude::*;

verus! {

/// Why a call failed.
#[derive(Debug)]
pub enum DispatchError {
    /// No operation has the name called.
    MethodNotFound(String),
    /// The payload does not have the operation's request shape.
    InvalidParams(String),
    /// The request breaks one of the operation's rules.
    ValidationError(String),
    /// The backend reported a failure.
    BackendError(String),
}

impl DispatchError {
    /// A one-line description of the error.
    pub fn message(&self) -> (r: String)
        ensures
            r@ == match self {
                DispatchError::MethodNotFound(name) => "Method not found: "@ + name@,
                DispatchError::InvalidParams(detail) => detail@,
                DispatchError::ValidationError(detail) => detail@,
                DispatchError::BackendError(detail) => detail@,
            },
    {
        match self {
            DispatchError::MethodNotFound(name) => {
                let mut m = "Method not found: ".to_owned();
                m.append(name.as_str());
                m
            },
            DispatchError::InvalidParams(detail) => detail.clone(),
            DispatchError::ValidationError(detail) => detail.clone(),
            DispatchError::BackendError(detail) => detail.clone(),
        }
    }
}

} // verus!
