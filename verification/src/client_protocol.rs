//! The space-separated command text a client types: `JOIN <name>`,
//! `SEND <message>`, `LEAVE`, matched case-insensitively.

use crate::strings::{trim_spec, trim_str};
use crate::tcp_message::{kw_match, matches_keyword, split_first};
use vstd::prelude::*;

verus! {

/// Why a typed command line was rejected.
#[derive(Debug, Clone)]
pub enum ParseError {
    Empty,
    UnknownCommand(String),
    MissingUsername,
    MissingMessage,
}

/// The mathematical shape of a command parse error.
pub enum ParseErrorView {
    Empty,
    UnknownCommand(Seq<char>),
    MissingUsername,
    MissingMessage,
}

impl View for ParseError {
    type V = ParseErrorView;

    open spec fn view(&self) -> ParseErrorView {
        match self {
            ParseError::Empty => ParseErrorView::Empty,
            ParseError::UnknownCommand(c) => ParseErrorView::UnknownCommand(c@),
            ParseError::MissingUsername => ParseErrorView::MissingUsername,
            ParseError::MissingMessage => ParseErrorView::MissingMessage,
        }
    }
}

/// What `message` says for each parse error.
pub open spec fn parse_error_text(e: &ParseError) -> Seq<char> {
    match e {
        ParseError::Empty => "empty message"@,
        ParseError::UnknownCommand(c) => "unknown command: "@ + c@,
        ParseError::MissingUsername => "missing username for JOIN command"@,
        ParseError::MissingMessage => "missing message for SEND command"@,
    }
}

impl ParseError {
    /// The reason line sent back to the client.
    pub fn message(&self) -> (r: String)
        ensures
            r@ == parse_error_text(self),
    {
        match self {
            ParseError::Empty => String::from_str("empty message"),
            ParseError::UnknownCommand(c) => String::from_str("unknown command: ").concat(
                c.as_str(),
            ),
            ParseError::MissingUsername => String::from_str("missing username for JOIN command"),
            ParseError::MissingMessage => String::from_str("missing message for SEND command"),
        }
    }
}

/// A parsed client command.
#[derive(Debug, Clone, PartialEq, Eq)]
pub enum ClientCommand {
    Join { username: String },
    Send { message: String },
    Leave,
}

/// The mathematical shape of a client command.
pub enum ClientCommandView {
    Join { username: Seq<char> },
    Send { message: Seq<char> },
    Leave,
}

impl View for ClientCommand {
    type V = ClientCommandView;

    open spec fn view(&self) -> ClientCommandView {
        match self {
            ClientCommand::Join { username } => ClientCommandView::Join { username: username@ },
            ClientCommand::Send { message } => ClientCommandView::Send { message: message@ },
            ClientCommand::Leave => ClientCommandView::Leave,
        }
    }
}

/// What parsing a typed line yields: trim it, split at the first space, match
/// the keyword case-insensitively, and trim the remainder.
pub open spec fn parse_command_spec(s: Seq<char>) -> Result<ClientCommandView, ParseErrorView> {
    let t = trim_spec(s);
    if t.len() == 0 {
        Err(ParseErrorView::Empty)
    } else {
        let (cmd, rest0) = split_first(t, ' ');
        let rest = match rest0 {
            Some(r) => trim_spec(r),
            None => Seq::empty(),
        };
        if kw_match(cmd, "JOIN"@) {
            if rest0 is Some && rest.len() > 0 {
                Ok(ClientCommandView::Join { username: rest })
            } else {
                Err(ParseErrorView::MissingUsername)
            }
        } else if kw_match(cmd, "SEND"@) {
            if rest0 is Some && rest.len() > 0 {
                Ok(ClientCommandView::Send { message: rest })
            } else {
                Err(ParseErrorView::MissingMessage)
            }
        } else if kw_match(cmd, "LEAVE"@) {
            Ok(ClientCommandView::Leave)
        } else {
            Err(ParseErrorView::UnknownCommand(cmd))
        }
    }
}

/// Parses one typed line into a command.
pub fn parse_command(s: &str) -> (r: Result<ClientCommand, ParseError>)
    ensures
        r matches Ok(c) ==> parse_command_spec(s@) == Ok::<ClientCommandView, ParseErrorView>(c@),
        r matches Err(e) ==> parse_command_spec(s@) == Err::<ClientCommandView, ParseErrorView>(
            e@,
        ),
{
    let trimmed = trim_str(s);
    if trimmed.is_empty() {
        return Err(ParseError::Empty);
    }
    let n = trimmed.unicode_len();
    let (command, rest): (&str, Option<&str>) = match crate::strings::find_char(trimmed, ' ') {
        Some(idx) => {
            proof {
                crate::strings::lemma_find_char(trimmed@, ' ');
            }
            (trimmed.substring_char(0, idx), Some(trim_str(trimmed.substring_char(idx + 1, n))))
        },
        None => (trimmed, None),
    };
    if matches_keyword(command, "JOIN") {
        match rest {
            Some(username) => {
                if username.is_empty() {
                    Err(ParseError::MissingUsername)
                } else {
                    Ok(ClientCommand::Join { username: username.to_owned() })
                }
            },
            None => Err(ParseError::MissingUsername),
        }
    } else if matches_keyword(command, "SEND") {
        match rest {
            Some(message) => {
                if message.is_empty() {
                    Err(ParseError::MissingMessage)
                } else {
                    Ok(ClientCommand::Send { message: message.to_owned() })
                }
            },
            None => Err(ParseError::MissingMessage),
        }
    } else if matches_keyword(command, "LEAVE") {
        Ok(ClientCommand::Leave)
    } else {
        Err(ParseError::UnknownCommand(command.to_owned()))
    }
}

/// The typed line a command prints back to: the upper-case keyword, a space,
/// and the field.
pub open spec fn command_text(c: ClientCommandView) -> Seq<char> {
    match c {
        ClientCommandView::Join { username } => "JOIN "@ + username,
        ClientCommandView::Send { message } => "SEND "@ + message,
        ClientCommandView::Leave => "LEAVE"@,
    }
}

impl ClientCommand {
    /// The canonical text of this command.
    pub fn to_text(&self) -> (r: String)
        ensures
            r@ == command_text(self@),
    {
        match self {
            ClientCommand::Join { username } => String::from_str("JOIN ").concat(username.as_str()),
            ClientCommand::Send { message } => String::from_str("SEND ").concat(message.as_str()),
            ClientCommand::Leave => String::from_str("LEAVE"),
        }
    }
}

impl core::str::FromStr for ClientCommand {
    type Err = ParseError;

    fn from_str(s: &str) -> Result<Self, ParseError> {
        parse_command(s)
    }
}

} // verus!
