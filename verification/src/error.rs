//! The error values the builders and the `Ui` registry return.

use vstd::prelude::*;

verus! {

/// What went wrong while resolving an id or building a control.
#[derive(Debug, PartialEq, Eq)]
pub enum Error {
    /// The id is not registered in the `Ui`.
    KeyNotFound,
    /// The id is already registered in the `Ui`.
    KeyExists,
    /// The named parent exists but cannot parent this control. The message
    /// says what kind of parent was needed and what was found.
    BadParent(String),
    /// The named resource exists but has the wrong kind. The message says
    /// what kind of resource was needed.
    BadResource(String),
    /// The native windowing system refused the operation. The message says
    /// which operation failed.
    System(String),
}

impl Error {
    /// Say in words what this error is.
    pub fn description(&self) -> (text: String)
        ensures
            (self is BadParent ==> text@ == self->BadParent_0@),
            (self is BadResource ==> text@ == self->BadResource_0@),
            (self is System ==> text@ == self->System_0@),
            (self is KeyNotFound ==> text@ == "key not found in the ui"@),
            (self is KeyExists ==> text@ == "key already registered in the ui"@),
    {
        match self {
            Error::KeyNotFound => "key not found in the ui".to_string(),
            Error::KeyExists => "key already registered in the ui".to_string(),
            Error::BadParent(m) => m.clone(),
            Error::BadResource(m) => m.clone(),
            Error::System(m) => m.clone(),
        }
    }
}

} // verus!
