//! Chat messages exchanged with a generation backend.

use vstd::prelude::*;

verus! {

/// One chat message: a role and its text.
#[derive(Debug, Clone)]
pub struct Message {
    pub role: String,
    pub content: String,
}

impl Message {
    /// A message spoken by the user.
    pub fn user(content: String) -> (r: Self)
        ensures
            r.role@ == "user"@,
            r.content@ == content@,
    {
        Message { role: String::from_str("user"), content }
    }

    /// A message spoken by the assistant.
    pub fn assistant(content: String) -> (r: Self)
        ensures
            r.role@ == "assistant"@,
            r.content@ == content@,
    {
        Message { role: String::from_str("assistant"), content }
    }
}

} // verus!
