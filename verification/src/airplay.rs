//! Errors of the audio-casting helper.
//!
//! The helper itself is an external sidecar process; only its error type
//! and message format belong to this library.

use vstd::prelude::*;
use vstd::string::StringExecFns;

verus! {

/// An error of the audio-casting helper.
pub enum AirPlayError {
    /// The helper could not be started, for the given reason.
    Init(String),
}

impl AirPlayError {
    /// The human-readable message of this error.
    pub fn message(&self) -> (r: String)
        ensures
            match self {
                AirPlayError::Init(reason) => r@ == "Initialisation Error: "@ + reason@,
            },
    {
        match self {
            AirPlayError::Init(reason) => {
                let mut s = "Initialisation Error: ".to_owned();
                s.append(reason.as_str());
                s
            },
        }
    }
}

} // verus!
