//! The failures of a run, each kind distinct so that a caller can tell bad
//! credentials from a changed page, a dead network and a missing setting.

use vstd::prelude::*;

verus! {

/// A transport failure, as the HTTP client reports it. It is carried
/// through unread.
#[verifier::external_type_specification]
#[verifier::external_body]
pub struct ExTransportError(reqwest::Error);

/// A failure to write JSON, as the JSON writer reports it. It is carried
/// through unread.
#[verifier::external_type_specification]
#[verifier::external_body]
pub struct ExJsonError(serde_json::Error);

/// What the portal's pages or the caller's settings can get wrong.
#[derive(Clone, Copy, Debug, PartialEq, Eq, Structural)]
pub enum AspenError {
    /// The login page did not hold both session tokens.
    SessionNotFound,
    /// The portal turned the credentials down.
    InvalidLogin,
    /// The user name or the password was not supplied.
    MissingCredential,
    /// A roster row whose room is not a number.
    MalformedRecord,
}

impl AspenError {
    /// The text that describes each error.
    pub open spec fn message_text(self) -> Seq<char> {
        match self {
            AspenError::SessionNotFound => "NoSession Error, Invalid Response Returned"@,
            AspenError::InvalidLogin => "InvalidLogin Error, Please Try Again"@,
            AspenError::MissingCredential => "MissingCredential Error, Username Or Password Not Set"@,
            AspenError::MalformedRecord => "MalformedRecord Error, Room Is Not A Number"@,
        }
    }

    /// A one-line description for people.
    pub fn message(&self) -> (r: &'static str)
        ensures
            r@ == self.message_text(),
    {
        match self {
            AspenError::SessionNotFound => "NoSession Error, Invalid Response Returned",
            AspenError::InvalidLogin => "InvalidLogin Error, Please Try Again",
            AspenError::MissingCredential => "MissingCredential Error, Username Or Password Not Set",
            AspenError::MalformedRecord => "MalformedRecord Error, Room Is Not A Number",
        }
    }
}

/// Every way in which a run or an extraction can fail.
#[derive(Debug)]
pub enum ProjError {
    /// The portal or the settings were at fault.
    Aspen(AspenError),
    /// A request did not complete.
    NetworkError(reqwest::Error),
    /// The roster could not be written as JSON.
    JSONError(serde_json::Error),
}

} // verus!
