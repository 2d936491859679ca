//! The errors that the entry store hands to its callers.

use vstd::prelude::*;
use vstd::string::*;

verus! {

/// Why an operation of the entry store failed.
#[derive(Clone, Copy, Debug, PartialEq, Eq, Structural)]
pub enum StoreError {
    /// An entry, a date or a horizon did not pass the local checks. Nothing
    /// was sent to the remote store.
    Validation,
    /// The call to the remote store could not be completed.
    Transport,
    /// The remote store answered with a status outside the success range.
    Backend { status: u16 },
    /// The remote store answered, but its body did not have the expected shape.
    Decode,
    /// A required setting is absent or malformed.
    Config,
}

impl StoreError {
    /// The text that describes each error.
    pub open spec fn message_text(self) -> Seq<char> {
        match self {
            StoreError::Validation => "the date or horizon given is not valid"@,
            StoreError::Transport => "the remote store could not be reached"@,
            StoreError::Backend { .. } => "the remote store refused the request"@,
            StoreError::Decode => "the answer of the remote store could not be read"@,
            StoreError::Config => "a required setting is absent or malformed"@,
        }
    }

    /// A description of the error, fit for the body of a reply.
    pub fn message(&self) -> (text: String)
        ensures
            text@ == self.message_text(),
    {
        match self {
            StoreError::Validation => "the date or horizon given is not valid".to_owned(),
            StoreError::Transport => "the remote store could not be reached".to_owned(),
            StoreError::Backend { .. } => "the remote store refused the request".to_owned(),
            StoreError::Decode => "the answer of the remote store could not be read".to_owned(),
            StoreError::Config => "a required setting is absent or malformed".to_owned(),
        }
    }
}

} // verus!
