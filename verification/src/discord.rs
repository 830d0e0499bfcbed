//! Types of the rich-presence integration.
//!
//! The rich-presence client is an external collaborator; this module holds
//! its error type, the button data shown on the presence card, and the
//! mapping from a client name to the presence application identity.

use crate::text::chars_of;
use crate::text::str_eq_chars;
use vstd::prelude::*;
use vstd::string::StringExecFns;

verus! {

/// An error of the rich-presence integration.
pub enum DiscordError {
    /// The client could not be initialised, for the given reason.
    Init(String),
    /// No client is connected.
    NoClient,
    /// The status update failed, for the given reason.
    Status(String),
}

impl DiscordError {
    /// The human-readable message of this error.
    pub fn message(&self) -> (r: String)
        ensures
            match self {
                DiscordError::Init(reason) => r@ == "Initialisation Error: "@ + reason@,
                DiscordError::NoClient => r@ == "No Client"@,
                DiscordError::Status(reason) => r@ == "Failed to Update Status: "@ + reason@,
            },
    {
        match self {
            DiscordError::Init(reason) => {
                let mut s = "Initialisation Error: ".to_owned();
                s.append(reason.as_str());
                s
            },
            DiscordError::NoClient => "No Client".to_owned(),
            DiscordError::Status(reason) => {
                let mut s = "Failed to Update Status: ".to_owned();
                s.append(reason.as_str());
                s
            },
        }
    }
}

/// A button shown on the rich-presence card.
pub struct RPCButton {
    /// The button's label.
    pub label: String,
    /// The address the button opens.
    pub url: String,
}

/// The presence application identity registered for a client name; unknown
/// names fall back to the default identity.
pub fn client_id_for(client_id: &str) -> (r: &'static str)
    ensures
        client_id@ == "Cider-2"@ ==> r@ == "1020414178047041627"@,
        client_id@ == "AppleMusic"@ ==> r@ == "886578863147192350"@,
        client_id@ != "Cider-2"@ && client_id@ != "AppleMusic"@ ==> r@ == "911790844204437504"@,
{
    proof {
        reveal_strlit("Cider-2");
        reveal_strlit("AppleMusic");
        assert("Cider-2"@ != "AppleMusic"@) by {
            assert("Cider-2"@.len() == 7);
            assert("AppleMusic"@.len() == 10);
        }
    }
    let v = chars_of(client_id);
    if str_eq_chars("Cider-2", &v) {
        "1020414178047041627"
    } else if str_eq_chars("AppleMusic", &v) {
        "886578863147192350"
    } else {
        "911790844204437504"
    }
}

} // verus!
