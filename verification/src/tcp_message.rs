//! Wire protocol encoder/decoder using pipe-delimited framing.
//!
//! Each message is one line; fields are separated by `|`. The first field is
//! a command keyword, matched case-insensitively on decode and written in
//! upper case on encode. Only the first separator binds: what follows it
//! belongs to the last field (for `BROADCAST`, the second separator ends the
//! username and everything after it is the message).

use crate::strings::{find_char_spec, lemma_find_char_unique, trim_spec, trim_str};
use vstd::prelude::*;
use vstd::utf8::{decode_utf8, encode_utf8, valid_utf8};

verus! {

/// Field separator for the wire protocol.
pub const FIELD_SEPARATOR: char = '|';

/// Server message types.
#[derive(Debug, Clone, PartialEq, Eq)]
pub enum ServerMessage {
    Okay,
    Error { reason: String },
    UserJoined { username: String },
    UserLeft { username: String },
    Broadcast { username: String, message: String },
}

/// The mathematical shape of a server message: its fields as codepoint
/// sequences.
pub enum ServerMessageView {
    Okay,
    Error { reason: Seq<char> },
    UserJoined { username: Seq<char> },
    UserLeft { username: Seq<char> },
    Broadcast { username: Seq<char>, message: Seq<char> },
}

impl View for ServerMessage {
    type V = ServerMessageView;

    open spec fn view(&self) -> ServerMessageView {
        match self {
            ServerMessage::Okay => ServerMessageView::Okay,
            ServerMessage::Error { reason } => ServerMessageView::Error { reason: reason@ },
            ServerMessage::UserJoined { username } => ServerMessageView::UserJoined {
                username: username@,
            },
            ServerMessage::UserLeft { username } => ServerMessageView::UserLeft {
                username: username@,
            },
            ServerMessage::Broadcast { username, message } => ServerMessageView::Broadcast {
                username: username@,
                message: message@,
            },
        }
    }
}

/// Parse error for server messages.
#[derive(Debug, Clone)]
pub enum ServerParseError {
    Empty,
    InvalidUtf8,
    UnknownEventType(String),
    MissingField(&'static str),
}

/// The mathematical shape of a server parse error.
pub enum ServerParseErrorView {
    Empty,
    InvalidUtf8,
    UnknownEventType(Seq<char>),
    MissingField(Seq<char>),
}

impl View for ServerParseError {
    type V = ServerParseErrorView;

    open spec fn view(&self) -> ServerParseErrorView {
        match self {
            ServerParseError::Empty => ServerParseErrorView::Empty,
            ServerParseError::InvalidUtf8 => ServerParseErrorView::InvalidUtf8,
            ServerParseError::UnknownEventType(c) => ServerParseErrorView::UnknownEventType(c@),
            ServerParseError::MissingField(f) => ServerParseErrorView::MissingField(f@),
        }
    }
}

/// Client command types.
#[derive(Debug, Clone, PartialEq, Eq)]
pub enum ClientMessage {
    Join { username: String },
    Send { message: String },
    Leave,
}

/// The mathematical shape of a client message.
pub enum ClientMessageView {
    Join { username: Seq<char> },
    Send { message: Seq<char> },
    Leave,
}

impl View for ClientMessage {
    type V = ClientMessageView;

    open spec fn view(&self) -> ClientMessageView {
        match self {
            ClientMessage::Join { username } => ClientMessageView::Join { username: username@ },
            ClientMessage::Send { message } => ClientMessageView::Send { message: message@ },
            ClientMessage::Leave => ClientMessageView::Leave,
        }
    }
}

/// Parse error for client messages.
#[derive(Debug, Clone)]
pub enum ClientParseError {
    Empty,
    InvalidUtf8,
    UnknownCommand(String),
    MissingField(&'static str),
}

/// The mathematical shape of a client parse error.
pub enum ClientParseErrorView {
    Empty,
    InvalidUtf8,
    UnknownCommand(Seq<char>),
    MissingField(Seq<char>),
}

impl View for ClientParseError {
    type V = ClientParseErrorView;

    open spec fn view(&self) -> ClientParseErrorView {
        match self {
            ClientParseError::Empty => ClientParseErrorView::Empty,
            ClientParseError::InvalidUtf8 => ClientParseErrorView::InvalidUtf8,
            ClientParseError::UnknownCommand(c) => ClientParseErrorView::UnknownCommand(c@),
            ClientParseError::MissingField(f) => ClientParseErrorView::MissingField(f@),
        }
    }
}

/// What `message` says for each server parse error.
pub open spec fn server_parse_error_text(e: ServerParseErrorView) -> Seq<char> {
    match e {
        ServerParseErrorView::Empty => "empty message"@,
        ServerParseErrorView::InvalidUtf8 => "invalid utf-8"@,
        ServerParseErrorView::UnknownEventType(c) => "unknown event type: "@ + c,
        ServerParseErrorView::MissingField(f) => "missing field: "@ + f,
    }
}

impl ServerParseError {
    /// The reason line for this parse error.
    pub fn message(&self) -> (r: String)
        ensures
            r@ == server_parse_error_text(self@),
    {
        match self {
            ServerParseError::Empty => String::from_str("empty message"),
            ServerParseError::InvalidUtf8 => String::from_str("invalid utf-8"),
            ServerParseError::UnknownEventType(c) => String::from_str("unknown event type: ")
                .concat(c.as_str()),
            ServerParseError::MissingField(f) => String::from_str("missing field: ").concat(f),
        }
    }
}

/// What `message` says for each client parse error.
pub open spec fn client_parse_error_text(e: ClientParseErrorView) -> Seq<char> {
    match e {
        ClientParseErrorView::Empty => "empty message"@,
        ClientParseErrorView::InvalidUtf8 => "invalid utf-8"@,
        ClientParseErrorView::UnknownCommand(c) => "unknown command: "@ + c,
        ClientParseErrorView::MissingField(f) => "missing field: "@ + f,
    }
}

impl ClientParseError {
    /// The reason line for this parse error.
    pub fn message(&self) -> (r: String)
        ensures
            r@ == client_parse_error_text(self@),
    {
        match self {
            ClientParseError::Empty => String::from_str("empty message"),
            ClientParseError::InvalidUtf8 => String::from_str("invalid utf-8"),
            ClientParseError::UnknownCommand(c) => String::from_str("unknown command: ").concat(
                c.as_str(),
            ),
            ClientParseError::MissingField(f) => String::from_str("missing field: ").concat(f),
        }
    }
}

/// Whether `c` spells keyword character `k` (an upper-case ASCII letter or
/// other exact character), ignoring ASCII case.
pub open spec fn matches_kw_char(c: char, k: char) -> bool {
    c == k || ('A' <= k && k <= 'Z' && c as u32 == k as u32 + 32)
}

/// Whether `cmd` spells the keyword `kw`, ignoring ASCII case.
pub open spec fn kw_match(cmd: Seq<char>, kw: Seq<char>) -> bool {
    cmd.len() == kw.len() && (forall|i: int|
        0 <= i < kw.len() ==> matches_kw_char(#[trigger] cmd[i], kw[i]))
}

/// Case-insensitive comparison of a command field against an upper-case
/// ASCII keyword.
pub fn matches_keyword(cmd: &str, kw: &str) -> (r: bool)
    ensures
        r == kw_match(cmd@, kw@),
{
    let nk = kw.unicode_len();
    if cmd.unicode_len() != nk {
        return false;
    }
    let mut i: usize = 0;
    while i < nk
        invariant
            0 <= i <= nk,
            nk == kw@.len(),
            cmd@.len() == kw@.len(),
            forall|j: int| 0 <= j < i ==> matches_kw_char(#[trigger] cmd@[j], kw@[j]),
        decreases nk - i,
    {
        let c = cmd.get_char(i);
        let k = kw.get_char(i);
        let ok = c == k || ('A' <= k && k <= 'Z' && (c as u32) == (k as u32) + 32);
        if !ok {
            return false;
        }
        i += 1;
    }
    true
}

/// The first field and what follows the first separator, if any.
pub open spec fn split_first(s: Seq<char>, sep: char) -> (Seq<char>, Option<Seq<char>>) {
    match find_char_spec(s, sep) {
        Some(i) => (s.subrange(0, i), Some(s.subrange(i + 1, s.len() as int))),
        None => (s, None),
    }
}

/// What decoding a trimmed, non-raw server line yields.
pub open spec fn server_decode_chars(t: Seq<char>) -> Result<
    ServerMessageView,
    ServerParseErrorView,
> {
    if t.len() == 0 {
        Err(ServerParseErrorView::Empty)
    } else {
        let (cmd, rest) = split_first(t, '|');
        if kw_match(cmd, "OK"@) {
            Ok(ServerMessageView::Okay)
        } else if kw_match(cmd, "ERR"@) {
            match rest {
                Some(reason) => Ok(ServerMessageView::Error { reason }),
                None => Err(ServerParseErrorView::MissingField("reason"@)),
            }
        } else if kw_match(cmd, "JOINED"@) {
            match rest {
                Some(username) => Ok(ServerMessageView::UserJoined { username }),
                None => Err(ServerParseErrorView::MissingField("username"@)),
            }
        } else if kw_match(cmd, "LEFT"@) {
            match rest {
                Some(username) => Ok(ServerMessageView::UserLeft { username }),
                None => Err(ServerParseErrorView::MissingField("username"@)),
            }
        } else if kw_match(cmd, "BROADCAST"@) {
            match rest {
                Some(r) => {
                    let (username, msg) = split_first(r, '|');
                    Ok(
                        ServerMessageView::Broadcast {
                            username,
                            message: match msg {
                                Some(m) => m,
                                None => Seq::empty(),
                            },
                        },
                    )
                },
                None => Err(ServerParseErrorView::MissingField("username"@)),
            }
        } else {
            Err(ServerParseErrorView::UnknownEventType(cmd))
        }
    }
}

/// What decoding raw bytes yields: UTF-8 decoding, trimming, then the line
/// grammar.
pub open spec fn server_decode_spec(b: Seq<u8>) -> Result<
    ServerMessageView,
    ServerParseErrorView,
> {
    if !valid_utf8(b) {
        Err(ServerParseErrorView::InvalidUtf8)
    } else {
        server_decode_chars(trim_spec(decode_utf8(b)))
    }
}

/// The line a server message encodes to, before UTF-8 encoding.
pub open spec fn server_encode_chars(m: ServerMessageView) -> Seq<char> {
    match m {
        ServerMessageView::Okay => "OK"@,
        ServerMessageView::Error { reason } => "ERR|"@ + reason,
        ServerMessageView::UserJoined { username } => "JOINED|"@ + username,
        ServerMessageView::UserLeft { username } => "LEFT|"@ + username,
        ServerMessageView::Broadcast { username, message } => "BROADCAST|"@ + username + "|"@
            + message,
    }
}

/// What decoding a trimmed, non-raw client line yields.
pub open spec fn client_decode_chars(t: Seq<char>) -> Result<
    ClientMessageView,
    ClientParseErrorView,
> {
    if t.len() == 0 {
        Err(ClientParseErrorView::Empty)
    } else {
        let (cmd, rest) = split_first(t, '|');
        if kw_match(cmd, "JOIN"@) {
            match rest {
                Some(username) => if username.len() == 0 {
                    Err(ClientParseErrorView::MissingField("username"@))
                } else {
                    Ok(ClientMessageView::Join { username })
                },
                None => Err(ClientParseErrorView::MissingField("username"@)),
            }
        } else if kw_match(cmd, "SEND"@) {
            match rest {
                Some(message) => if message.len() == 0 {
                    Err(ClientParseErrorView::MissingField("message"@))
                } else {
                    Ok(ClientMessageView::Send { message })
                },
                None => Err(ClientParseErrorView::MissingField("message"@)),
            }
        } else if kw_match(cmd, "LEAVE"@) {
            Ok(ClientMessageView::Leave)
        } else {
            Err(ClientParseErrorView::UnknownCommand(cmd))
        }
    }
}

/// What decoding raw client bytes yields.
pub open spec fn client_decode_spec(b: Seq<u8>) -> Result<
    ClientMessageView,
    ClientParseErrorView,
> {
    if !valid_utf8(b) {
        Err(ClientParseErrorView::InvalidUtf8)
    } else {
        client_decode_chars(trim_spec(decode_utf8(b)))
    }
}

/// The line a client message encodes to, before UTF-8 encoding.
pub open spec fn client_encode_chars(m: ClientMessageView) -> Seq<char> {
    match m {
        ClientMessageView::Join { username } => "JOIN|"@ + username,
        ClientMessageView::Send { message } => "SEND|"@ + message,
        ClientMessageView::Leave => "LEAVE"@,
    }
}

/// Relies on `core::str::from_utf8`: succeeds exactly on well-formed UTF-8,
/// and the resulting string's codepoints are the decoded byte sequence.
#[verifier::external_body]
fn bytes_to_str(b: &[u8]) -> (r: Option<&str>)
    ensures
        match r {
            Some(s) => valid_utf8(b@) && s@ == decode_utf8(b@),
            None => !valid_utf8(b@),
        },
{
    core::str::from_utf8(b).ok()
}

/// Wire protocol encode trait.
pub trait WireEncode {
    /// The line this value encodes to, before UTF-8 encoding.
    spec fn wire_chars(&self) -> Seq<char>;

    /// Encode to wire format bytes.
    fn encode(&self) -> (r: Vec<u8>)
        ensures
            r@ == encode_utf8(self.wire_chars()),
    ;
}

/// Wire protocol decode trait.
pub trait WireDecode: Sized {
    /// Associated error type for decode failures.
    type Error;

    /// What a successful decode of these bytes must be.
    spec fn spec_decode_ok(b: Seq<u8>, m: &Self) -> bool;

    /// What a failed decode of these bytes must be.
    spec fn spec_decode_err(b: Seq<u8>, e: &Self::Error) -> bool;

    /// Decode from wire format bytes.
    fn decode(bytes: &[u8]) -> (r: Result<Self, Self::Error>)
        ensures
            r matches Ok(m) ==> Self::spec_decode_ok(bytes@, &m),
            r matches Err(e) ==> Self::spec_decode_err(bytes@, &e),
    ;
}

impl WireEncode for ServerMessage {
    open spec fn wire_chars(&self) -> Seq<char> {
        server_encode_chars(self@)
    }

    fn encode(&self) -> (r: Vec<u8>)
        ensures
            r@ == encode_utf8(self.wire_chars()),
    {
        self.to_wire_string().as_str().as_bytes_vec()
    }
}

impl ServerMessage {
    /// The wire line of this event, as text.
    pub fn to_wire_string(&self) -> (r: String)
        ensures
            r@ == server_encode_chars(self@),
    {
        let s: String = match self {
            ServerMessage::Okay => String::from_str("OK"),
            ServerMessage::Error { reason } => String::from_str("ERR|").concat(reason.as_str()),
            ServerMessage::UserJoined { username } => String::from_str("JOINED|").concat(
                username.as_str(),
            ),
            ServerMessage::UserLeft { username } => String::from_str("LEFT|").concat(
                username.as_str(),
            ),
            ServerMessage::Broadcast { username, message } => String::from_str("BROADCAST|").concat(
                username.as_str(),
            ).concat("|").concat(message.as_str()),
        };
        proof {
            assert(s@ =~= server_encode_chars(self@));
        }
        s
    }
}

impl WireDecode for ServerMessage {
    type Error = ServerParseError;

    open spec fn spec_decode_ok(b: Seq<u8>, m: &Self) -> bool {
        server_decode_spec(b) == Ok::<ServerMessageView, ServerParseErrorView>(m@)
    }

    open spec fn spec_decode_err(b: Seq<u8>, e: &ServerParseError) -> bool {
        server_decode_spec(b) == Err::<ServerMessageView, ServerParseErrorView>(e@)
    }

    fn decode(bytes: &[u8]) -> (r: Result<Self, ServerParseError>)
        ensures
            r matches Ok(m) ==> Self::spec_decode_ok(bytes@, &m),
            r matches Err(e) ==> Self::spec_decode_err(bytes@, &e),
    {
        let s = match bytes_to_str(bytes) {
            Some(s) => s,
            None => {
                return Err(ServerParseError::InvalidUtf8);
            },
        };
        let trimmed = trim_str(s);
        let ghost t = trim_spec(decode_utf8(bytes@));
        if trimmed.is_empty() {
            return Err(ServerParseError::Empty);
        }
        let n = trimmed.unicode_len();
        let (event_type, rest): (&str, Option<&str>) = match crate::strings::find_char(
            trimmed,
            '|',
        ) {
            Some(idx) => {
                proof {
                    crate::strings::lemma_find_char(t, '|');
                }
                (trimmed.substring_char(0, idx), Some(trimmed.substring_char(idx + 1, n)))
            },
            None => (trimmed, None),
        };
        if matches_keyword(event_type, "OK") {
            Ok(ServerMessage::Okay)
        } else if matches_keyword(event_type, "ERR") {
            match rest {
                Some(reason) => Ok(ServerMessage::Error { reason: reason.to_owned() }),
                None => Err(ServerParseError::MissingField("reason")),
            }
        } else if matches_keyword(event_type, "JOINED") {
            match rest {
                Some(username) => Ok(ServerMessage::UserJoined { username: username.to_owned() }),
                None => Err(ServerParseError::MissingField("username")),
            }
        } else if matches_keyword(event_type, "LEFT") {
            match rest {
                Some(username) => Ok(ServerMessage::UserLeft { username: username.to_owned() }),
                None => Err(ServerParseError::MissingField("username")),
            }
        } else if matches_keyword(event_type, "BROADCAST") {
            match rest {
                Some(r) => {
                    let rn = r.unicode_len();
                    let (username, message): (&str, &str) = match crate::strings::find_char(
                        r,
                        '|',
                    ) {
                        Some(idx2) => {
                            proof {
                                crate::strings::lemma_find_char(r@, '|');
                            }
                            (r.substring_char(0, idx2), r.substring_char(idx2 + 1, rn))
                        },
                        None => (r, ""),
                    };
                    proof {
                        reveal_strlit("");
                        assert(""@ =~= Seq::<char>::empty());
                    }
                    Ok(
                        ServerMessage::Broadcast {
                            username: username.to_owned(),
                            message: message.to_owned(),
                        },
                    )
                },
                None => Err(ServerParseError::MissingField("username")),
            }
        } else {
            Err(ServerParseError::UnknownEventType(event_type.to_owned()))
        }
    }
}

impl WireEncode for ClientMessage {
    open spec fn wire_chars(&self) -> Seq<char> {
        client_encode_chars(self@)
    }

    fn encode(&self) -> (r: Vec<u8>)
        ensures
            r@ == encode_utf8(self.wire_chars()),
    {
        self.to_wire_string().as_str().as_bytes_vec()
    }
}

impl ClientMessage {
    /// The wire line of this command, as text.
    pub fn to_wire_string(&self) -> (r: String)
        ensures
            r@ == client_encode_chars(self@),
    {
        let s: String = match self {
            ClientMessage::Join { username } => String::from_str("JOIN|").concat(username.as_str()),
            ClientMessage::Send { message } => String::from_str("SEND|").concat(message.as_str()),
            ClientMessage::Leave => String::from_str("LEAVE"),
        };
        proof {
            assert(s@ =~= client_encode_chars(self@));
        }
        s
    }
}

impl WireDecode for ClientMessage {
    type Error = ClientParseError;

    open spec fn spec_decode_ok(b: Seq<u8>, m: &Self) -> bool {
        client_decode_spec(b) == Ok::<ClientMessageView, ClientParseErrorView>(m@)
    }

    open spec fn spec_decode_err(b: Seq<u8>, e: &Self::Error) -> bool {
        client_decode_spec(b) == Err::<ClientMessageView, ClientParseErrorView>(e@)
    }

    fn decode(bytes: &[u8]) -> (r: Result<Self, ClientParseError>)
        ensures
            r matches Ok(m) ==> Self::spec_decode_ok(bytes@, &m),
            r matches Err(e) ==> Self::spec_decode_err(bytes@, &e),
    {
        let s = match bytes_to_str(bytes) {
            Some(s) => s,
            None => {
                return Err(ClientParseError::InvalidUtf8);
            },
        };
        let trimmed = trim_str(s);
        let ghost t = trim_spec(decode_utf8(bytes@));
        if trimmed.is_empty() {
            return Err(ClientParseError::Empty);
        }
        let n = trimmed.unicode_len();
        let (command, rest): (&str, Option<&str>) = match crate::strings::find_char(trimmed, '|') {
            Some(idx) => {
                proof {
                    crate::strings::lemma_find_char(t, '|');
                }
                (trimmed.substring_char(0, idx), Some(trimmed.substring_char(idx + 1, n)))
            },
            None => (trimmed, None),
        };
        if matches_keyword(command, "JOIN") {
            match rest {
                Some(username) => {
                    if username.is_empty() {
                        Err(ClientParseError::MissingField("username"))
                    } else {
                        Ok(ClientMessage::Join { username: username.to_owned() })
                    }
                },
                None => Err(ClientParseError::MissingField("username")),
            }
        } else if matches_keyword(command, "SEND") {
            match rest {
                Some(message) => {
                    if message.is_empty() {
                        Err(ClientParseError::MissingField("message"))
                    } else {
                        Ok(ClientMessage::Send { message: message.to_owned() })
                    }
                },
                None => Err(ClientParseError::MissingField("message")),
            }
        } else if matches_keyword(command, "LEAVE") {
            Ok(ClientMessage::Leave)
        } else {
            Err(ClientParseError::UnknownCommand(command.to_owned()))
        }
    }
}

/// A keyword spells itself.
proof fn lemma_kw_match_refl(s: Seq<char>)
    ensures
        kw_match(s, s),
{
    assert forall|i: int| 0 <= i < s.len() implies matches_kw_char(s[i], s[i]) by {}
}

/// Law (server half): any server line the decoder accepts decodes, after
/// re-encoding, to the same message: over the bytes `b`, decoding
/// `encode(decode(b))` equals decoding `b`.
pub proof fn lemma_server_decode_stable(b: Seq<u8>)
    requires
        server_decode_spec(b) is Ok,
    ensures
        server_decode_spec(encode_utf8(server_encode_chars(server_decode_spec(b)->Ok_0)))
            == server_decode_spec(b),
{
    broadcast use vstd::utf8::encode_utf8_valid_utf8;
    broadcast use vstd::utf8::encode_utf8_decode_utf8;

    let t = trim_spec(decode_utf8(b));
    crate::strings::lemma_trim_idempotent(decode_utf8(b));
    lemma_server_roundtrip_chars(t);
}

/// Law (client half): any client line the decoder accepts decodes, after
/// re-encoding, to the same message.
pub proof fn lemma_client_decode_stable(b: Seq<u8>)
    requires
        client_decode_spec(b) is Ok,
    ensures
        client_decode_spec(encode_utf8(client_encode_chars(client_decode_spec(b)->Ok_0)))
            == client_decode_spec(b),
{
    broadcast use vstd::utf8::encode_utf8_valid_utf8;
    broadcast use vstd::utf8::encode_utf8_decode_utf8;

    let t = trim_spec(decode_utf8(b));
    crate::strings::lemma_trim_idempotent(decode_utf8(b));
    lemma_client_roundtrip_chars(t);
}

/// The encoded form of an accepted server message is already trimmed and
/// decodes back to that message.
proof fn lemma_server_roundtrip_chars(t: Seq<char>)
    requires
        trim_spec(t) == t,
        server_decode_chars(t) is Ok,
    ensures
        ({
            let m = server_decode_chars(t)->Ok_0;
            let e = server_encode_chars(m);
            trim_spec(e) == e && server_decode_chars(e) == server_decode_chars(t)
        }),
{
    reveal_strlit("OK");
    reveal_strlit("ERR");
    reveal_strlit("ERR|");
    reveal_strlit("JOINED");
    reveal_strlit("JOINED|");
    reveal_strlit("LEFT");
    reveal_strlit("LEFT|");
    reveal_strlit("BROADCAST");
    reveal_strlit("BROADCAST|");
    reveal_strlit("|");
    let m = server_decode_chars(t)->Ok_0;
    let e = server_encode_chars(m);
    crate::strings::lemma_trim_ends(t);
    crate::strings::lemma_find_char(t, '|');
    let cmd = split_first(t, '|').0;
    let rest = split_first(t, '|').1;
    if kw_match(cmd, "OK"@) {
        assert(e == "OK"@);
        crate::strings::lemma_trim_of_clean(e);
        crate::strings::lemma_find_char(e, '|');
        lemma_kw_match_refl("OK"@);
    } else if kw_match(cmd, "ERR"@) {
        let reason = rest->0;
        assert(e == "ERR|"@ + reason);
        assert(e[0] == 'E');
        if reason.len() > 0 {
            assert(reason[reason.len() - 1] == t[t.len() - 1]);
            assert(e[e.len() - 1] == reason[reason.len() - 1]);
        } else {
            assert(e[e.len() - 1] == '|');
        }
        crate::strings::lemma_trim_of_clean(e);
        assert(e[3] == '|');
        lemma_find_char_unique(e, '|', 3);
        assert(e.subrange(0, 3) =~= "ERR"@);
        assert(e.subrange(4, e.len() as int) =~= reason);
        assert(!kw_match("ERR"@, "OK"@));
        lemma_kw_match_refl("ERR"@);
        assert(server_decode_chars(e) == server_decode_chars(t));
    } else if kw_match(cmd, "JOINED"@) {
        let username = rest->0;
        assert(e == "JOINED|"@ + username);
        assert(e[0] == 'J');
        if username.len() > 0 {
            assert(username[username.len() - 1] == t[t.len() - 1]);
            assert(e[e.len() - 1] == username[username.len() - 1]);
        } else {
            assert(e[e.len() - 1] == '|');
        }
        crate::strings::lemma_trim_of_clean(e);
        assert(e[6] == '|');
        lemma_find_char_unique(e, '|', 6);
        assert(e.subrange(0, 6) =~= "JOINED"@);
        assert(e.subrange(7, e.len() as int) =~= username);
        assert(!kw_match("JOINED"@, "OK"@));
        assert(!kw_match("JOINED"@, "ERR"@));
        lemma_kw_match_refl("JOINED"@);
        assert(server_decode_chars(e) == server_decode_chars(t));
    } else if kw_match(cmd, "LEFT"@) {
        let username = rest->0;
        assert(e == "LEFT|"@ + username);
        assert(e[0] == 'L');
        if username.len() > 0 {
            assert(username[username.len() - 1] == t[t.len() - 1]);
            assert(e[e.len() - 1] == username[username.len() - 1]);
        } else {
            assert(e[e.len() - 1] == '|');
        }
        crate::strings::lemma_trim_of_clean(e);
        assert(e[4] == '|');
        lemma_find_char_unique(e, '|', 4);
        assert(e.subrange(0, 4) =~= "LEFT"@);
        assert(e.subrange(5, e.len() as int) =~= username);
        assert(!kw_match("LEFT"@, "OK"@));
        assert(!kw_match("LEFT"@, "ERR"@));
        assert(!kw_match("LEFT"@, "JOINED"@));
        lemma_kw_match_refl("LEFT"@);
        assert(server_decode_chars(e) == server_decode_chars(t));
    } else {
        assert(kw_match(cmd, "BROADCAST"@));
        let r = rest->0;
        crate::strings::lemma_find_char(r, '|');
        let username = split_first(r, '|').0;
        let msg = split_first(r, '|').1;
        let message = match msg {
            Some(mm) => mm,
            None => Seq::<char>::empty(),
        };
        assert(e == "BROADCAST|"@ + username + "|"@ + message);
        assert(e.len() == 11 + username.len() + message.len());
        assert(e[0] == 'B');
        if message.len() > 0 {
            assert(message[message.len() - 1] == t[t.len() - 1]);
            assert(e[e.len() - 1] == message[message.len() - 1]);
        } else {
            assert(e[e.len() - 1] == ('|') || e[e.len() - 1] == ("|"@)[0]);
            assert(e[e.len() - 1] == '|');
        }
        crate::strings::lemma_trim_of_clean(e);
        assert(e[9] == '|');
        assert(forall|k: int| 0 <= k < 9 ==> e[k] == ("BROADCAST|"@)[k]);
        lemma_find_char_unique(e, '|', 9);
        assert(e.subrange(0, 9) =~= "BROADCAST"@);
        let erest = e.subrange(10, e.len() as int);
        assert(erest =~= username + "|"@ + message);
        assert(forall|k: int| 0 <= k < username.len() ==> username[k] != '|');
        assert(erest[username.len() as int] == '|');
        assert forall|k: int| 0 <= k < username.len() implies erest[k] != '|' by {
            assert(erest[k] == username[k]);
        }
        lemma_find_char_unique(erest, '|', username.len() as int);
        assert(erest.subrange(0, username.len() as int) =~= username);
        assert(erest.subrange(username.len() as int + 1, erest.len() as int) =~= message);
        assert(!kw_match("BROADCAST"@, "OK"@));
        assert(!kw_match("BROADCAST"@, "ERR"@));
        assert(!kw_match("BROADCAST"@, "JOINED"@));
        assert(!kw_match("BROADCAST"@, "LEFT"@));
        lemma_kw_match_refl("BROADCAST"@);
        assert(server_decode_chars(e) == server_decode_chars(t));
    }
}

/// The encoded form of an accepted client message is already trimmed and
/// decodes back to that message.
proof fn lemma_client_roundtrip_chars(t: Seq<char>)
    requires
        trim_spec(t) == t,
        client_decode_chars(t) is Ok,
    ensures
        ({
            let m = client_decode_chars(t)->Ok_0;
            let e = client_encode_chars(m);
            trim_spec(e) == e && client_decode_chars(e) == client_decode_chars(t)
        }),
{
    reveal_strlit("JOIN");
    reveal_strlit("JOIN|");
    reveal_strlit("SEND");
    reveal_strlit("SEND|");
    reveal_strlit("LEAVE");
    let m = client_decode_chars(t)->Ok_0;
    let e = client_encode_chars(m);
    crate::strings::lemma_trim_ends(t);
    crate::strings::lemma_find_char(t, '|');
    let cmd = split_first(t, '|').0;
    let rest = split_first(t, '|').1;
    if kw_match(cmd, "JOIN"@) {
        let username = rest->0;
        assert(username.len() > 0);
        assert(e == "JOIN|"@ + username);
        assert(e[0] == 'J');
        assert(username[username.len() - 1] == t[t.len() - 1]);
        assert(e[e.len() - 1] == username[username.len() - 1]);
        crate::strings::lemma_trim_of_clean(e);
        assert(e[4] == '|');
        lemma_find_char_unique(e, '|', 4);
        assert(e.subrange(0, 4) =~= "JOIN"@);
        assert(e.subrange(5, e.len() as int) =~= username);
        lemma_kw_match_refl("JOIN"@);
        assert(client_decode_chars(e) == client_decode_chars(t));
    } else if kw_match(cmd, "SEND"@) {
        let message = rest->0;
        assert(message.len() > 0);
        assert(e == "SEND|"@ + message);
        assert(e[0] == 'S');
        assert(message[message.len() - 1] == t[t.len() - 1]);
        assert(e[e.len() - 1] == message[message.len() - 1]);
        crate::strings::lemma_trim_of_clean(e);
        assert(e[4] == '|');
        lemma_find_char_unique(e, '|', 4);
        assert(e.subrange(0, 4) =~= "SEND"@);
        assert(e.subrange(5, e.len() as int) =~= message);
        assert(!matches_kw_char(("SEND"@)[0], ("JOIN"@)[0]));
        assert(!kw_match("SEND"@, "JOIN"@));
        lemma_kw_match_refl("SEND"@);
        assert(client_decode_chars(e) == client_decode_chars(t));
    } else {
        assert(kw_match(cmd, "LEAVE"@));
        assert(e == "LEAVE"@);
        crate::strings::lemma_trim_of_clean(e);
        crate::strings::lemma_find_char(e, '|');
        assert(!kw_match("LEAVE"@, "JOIN"@));
        assert(!kw_match("LEAVE"@, "SEND"@));
        lemma_kw_match_refl("LEAVE"@);
        assert(client_decode_chars(e) == client_decode_chars(t));
    }
}

} // verus!
