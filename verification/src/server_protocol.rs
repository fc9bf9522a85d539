//! The space-separated event text shown to a client: `OK`, `ERR <reason>`,
//! `JOINED <name>`, `LEFT <name>`, `BROADCAST <text>`.

use crate::strings::{trim_spec, trim_str};
use crate::tcp_message::{kw_match, matches_keyword, split_first};
use vstd::prelude::*;

verus! {

/// Why an event line was rejected.
#[derive(Debug, Clone)]
pub enum ParseError {
    Empty,
    UnknownCommand(String),
}

/// The mathematical shape of an event parse error.
pub enum ParseErrorView {
    Empty,
    UnknownCommand(Seq<char>),
}

impl View for ParseError {
    type V = ParseErrorView;

    open spec fn view(&self) -> ParseErrorView {
        match self {
            ParseError::Empty => ParseErrorView::Empty,
            ParseError::UnknownCommand(c) => ParseErrorView::UnknownCommand(c@),
        }
    }
}

/// A server event, in its client-facing form.
#[derive(Debug, Clone, PartialEq, Eq)]
pub enum ServerMessage {
    Okay,
    Error { reason: String },
    UserJoined { username: String },
    UserLeft { username: String },
    BroadcastMessage { text: String },
}

/// The mathematical shape of a server event.
pub enum ServerMessageView {
    Okay,
    Error { reason: Seq<char> },
    UserJoined { username: Seq<char> },
    UserLeft { username: Seq<char> },
    BroadcastMessage { text: Seq<char> },
}

impl View for ServerMessage {
    type V = ServerMessageView;

    open spec fn view(&self) -> ServerMessageView {
        match self {
            ServerMessage::Okay => ServerMessageView::Okay,
            ServerMessage::Error { reason } => ServerMessageView::Error { reason: reason@ },
            ServerMessage::UserJoined { username } => ServerMessageView::UserJoined {
                username: username@,
            },
            ServerMessage::UserLeft { username } => ServerMessageView::UserLeft {
                username: username@,
            },
            ServerMessage::BroadcastMessage { text } => ServerMessageView::BroadcastMessage {
                text: text@,
            },
        }
    }
}

/// What parsing a client-facing event line yields. `ERR` without a reason
/// falls back to a fixed reason; `JOINED`/`LEFT` without a name yield an
/// empty name; `BROADCAST` lines are not parsed here (the interactive client
/// reads them by prefix instead).
pub open spec fn parse_event_spec(s: Seq<char>) -> Result<ServerMessageView, ParseErrorView> {
    let t = trim_spec(s);
    if t.len() == 0 {
        Err(ParseErrorView::Empty)
    } else {
        let (cmd, rest0) = split_first(t, ' ');
        let rest = match rest0 {
            Some(r) => Some(trim_spec(r)),
            None => None,
        };
        if kw_match(cmd, "OK"@) {
            Ok(ServerMessageView::Okay)
        } else if kw_match(cmd, "ERR"@) {
            Ok(
                ServerMessageView::Error {
                    reason: match rest {
                        Some(r) => r,
                        None => "unknown error"@,
                    },
                },
            )
        } else if kw_match(cmd, "JOINED"@) {
            Ok(
                ServerMessageView::UserJoined {
                    username: match rest {
                        Some(r) => r,
                        None => Seq::empty(),
                    },
                },
            )
        } else if kw_match(cmd, "LEFT"@) {
            Ok(
                ServerMessageView::UserLeft {
                    username: match rest {
                        Some(r) => r,
                        None => Seq::empty(),
                    },
                },
            )
        } else {
            Err(ParseErrorView::UnknownCommand(cmd))
        }
    }
}

/// Parses one client-facing event line.
pub fn parse_event(s: &str) -> (r: Result<ServerMessage, ParseError>)
    ensures
        r matches Ok(m) ==> parse_event_spec(s@) == Ok::<ServerMessageView, ParseErrorView>(m@),
        r matches Err(e) ==> parse_event_spec(s@) == Err::<ServerMessageView, ParseErrorView>(e@),
{
    let trimmed = trim_str(s);
    if trimmed.is_empty() {
        return Err(ParseError::Empty);
    }
    let n = trimmed.unicode_len();
    let (command, rest): (&str, Option<&str>) = match crate::strings::find_char(trimmed, ' ') {
        Some(idx) => {
            proof {
                crate::strings::lemma_find_char(trimmed@, ' ');
            }
            (trimmed.substring_char(0, idx), Some(trim_str(trimmed.substring_char(idx + 1, n))))
        },
        None => (trimmed, None),
    };
    if matches_keyword(command, "OK") {
        Ok(ServerMessage::Okay)
    } else if matches_keyword(command, "ERR") {
        let reason = match rest {
            Some(r) => r.to_owned(),
            None => String::from_str("unknown error"),
        };
        Ok(ServerMessage::Error { reason })
    } else if matches_keyword(command, "JOINED") {
        let username = match rest {
            Some(r) => r.to_owned(),
            None => String::new(),
        };
        Ok(ServerMessage::UserJoined { username })
    } else if matches_keyword(command, "LEFT") {
        let username = match rest {
            Some(r) => r.to_owned(),
            None => String::new(),
        };
        Ok(ServerMessage::UserLeft { username })
    } else {
        Err(ParseError::UnknownCommand(command.to_owned()))
    }
}

/// The line an event prints to: the upper-case keyword, a space where a field
/// follows, and the field.
pub open spec fn event_text(m: ServerMessageView) -> Seq<char> {
    match m {
        ServerMessageView::Okay => "OK"@,
        ServerMessageView::Error { reason } => "ERR "@ + reason,
        ServerMessageView::UserJoined { username } => "JOINED "@ + username,
        ServerMessageView::UserLeft { username } => "LEFT "@ + username,
        ServerMessageView::BroadcastMessage { text } => "BROADCAST "@ + text,
    }
}

impl ServerMessage {
    /// The canonical text of this event.
    pub fn to_text(&self) -> (r: String)
        ensures
            r@ == event_text(self@),
    {
        match self {
            ServerMessage::Okay => String::from_str("OK"),
            ServerMessage::Error { reason } => String::from_str("ERR ").concat(reason.as_str()),
            ServerMessage::UserJoined { username } => String::from_str("JOINED ").concat(
                username.as_str(),
            ),
            ServerMessage::UserLeft { username } => String::from_str("LEFT ").concat(
                username.as_str(),
            ),
            ServerMessage::BroadcastMessage { text } => String::from_str("BROADCAST ").concat(
                text.as_str(),
            ),
        }
    }
}

impl core::str::FromStr for ServerMessage {
    type Err = ParseError;

    fn from_str(s: &str) -> Result<Self, ParseError> {
        parse_event(s)
    }
}

} // verus!
