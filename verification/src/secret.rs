//! The store of secrets, such as the API key: what it refuses.
use vstd::prelude::*;

verus! {

/// Why the store of secrets refused a value.
#[derive(Debug)]
pub enum Error {
    Invalid { message: String },
}

impl Error {
    /// What the error says.
    pub open spec fn spec_message(&self) -> Seq<char> {
        match self {
            Error::Invalid { message } => "invalid value: "@ + message@,
        }
    }

    /// What the error says: `invalid value: ` and the reason.
    pub fn message(&self) -> (r: String)
        ensures
            r@ == self.spec_message(),
    {
        match self {
            Error::Invalid { message } => {
                let mut s = <String as StringExecFns>::from_str("invalid value: ");
                s.append(message.as_str());
                s
            },
        }
    }
}

} // verus!
