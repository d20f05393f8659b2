//! The relay's error taxonomy, as far as the verified core reports errors
//! itself: persistence failure. A store error is isolated to the turn it
//! hit — it is logged by the surrounding loop and never ends the session.
//! Transport errors end the session (the loop calls the session's `close`),
//! and a failed generation becomes the fixed fallback reply; neither needs
//! a value of this type inside the core.

use vstd::prelude::*;
use vstd::string::*;

verus! {

/// What went wrong, from the caller's point of view.
pub enum Error {
    /// The record store was unreachable or rejected the write.
    Db,
}

impl Error {
    /// The message shown for this error.
    pub fn message(&self) -> (r: String)
        ensures
            r@ == "database error"@,
    {
        match self {
            Error::Db => String::from_str("database error"),
        }
    }
}

} // verus!
