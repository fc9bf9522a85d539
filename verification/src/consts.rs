//! Command keywords and line prefixes shared by the wire protocol and the
//! client-facing text protocol.

use vstd::prelude::*;

verus! {

pub const SERVER_OK_CMD: &'static str = "OK";

pub const SERVER_OK_PREFIX: &'static str = "OK";

pub const SERVER_BROADCAST_CMD: &'static str = "BROADCAST";

pub const SERVER_BROADCAST_PREFIX: &'static str = "BROADCAST ";

pub const SERVER_ERR_CMD: &'static str = "ERR";

pub const SERVER_ERR_PREFIX: &'static str = "ERR ";

pub const SERVER_JOINED_CMD: &'static str = "JOINED";

pub const SERVER_JOINED_PREFIX: &'static str = "JOINED ";

pub const SERVER_LEFT_CMD: &'static str = "LEFT";

pub const SERVER_LEFT_PREFIX: &'static str = "LEFT ";

pub const CLIENT_JOIN_CMD: &'static str = "JOIN";

pub const CLIENT_JOIN_PREFIX: &'static str = "JOIN ";

pub const CLIENT_SEND_PREFIX: &'static str = "SEND ";

pub const CLIENT_SEND_CMD: &'static str = "SEND";

pub const CLIENT_LEAVE_CMD: &'static str = "LEAVE";

pub const CLIENT_LEAVE_PREFIX: &'static str = "LEAVE";

} // verus!
