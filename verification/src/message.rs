//! The room's internal payload framing: a chat message travels through the
//! room queue as `username:content`, with only the first colon binding.

use crate::strings::{find_char_spec, trim_spec, validate_spec, ValidationResult};
use crate::user::{User, Username};
use vstd::prelude::*;

verus! {

/// A message from a registered user, about to enter the room.
#[derive(Debug, Clone)]
pub struct ChatMessage<'a> {
    pub sender: &'a User,
    pub content: String,
}

/// What `deserialize` recovers from a serialized line: the validated
/// username before the first colon, and everything after it.
pub open spec fn deserialize_spec(s: Seq<char>) -> Option<(Seq<char>, Seq<char>)> {
    match find_char_spec(s, ':') {
        Some(i) => {
            let sender = s.subrange(0, i);
            if validate_spec(sender) == ValidationResult::Valid {
                Some((trim_spec(sender), s.subrange(i + 1, s.len() as int)))
            } else {
                None
            }
        },
        None => None,
    }
}

impl<'a> ChatMessage<'a> {
    pub fn new(sender: &'a User, content: String) -> (r: Self)
        ensures
            r.sender.name() == sender.name(),
            r.content@ == content@,
    {
        ChatMessage { sender, content }
    }

    /// The line this message enters the room as: `username:content`.
    pub fn serialize(&self) -> (r: String)
        ensures
            r@ == self.sender.name() + ":"@ + self.content@,
    {
        self.sender.get_username().text().concat(":").concat(self.content.as_str())
    }

    /// Splits a room line back into its validated sender and content.
    pub fn deserialize(s: &str) -> (r: Option<(Username, String)>)
        ensures
            match r {
                Some((u, c)) => deserialize_spec(s@) == Some((u@, c@)),
                None => deserialize_spec(s@) is None,
            },
    {
        let idx = match crate::strings::find_char(s, ':') {
            Some(idx) => idx,
            None => {
                return None;
            },
        };
        proof {
            crate::strings::lemma_find_char(s@, ':');
        }
        let n = s.unicode_len();
        let sender_str = s.substring_char(0, idx);
        let sender = match Username::new(sender_str) {
            Ok(u) => u,
            Err(_) => {
                return None;
            },
        };
        let content = s.substring_char(idx + 1, n).to_owned();
        Some((sender, content))
    }
}

} // verus!
