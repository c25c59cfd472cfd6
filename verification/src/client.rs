//! The caller-facing entry point: connection options parsed from an AMQP
//! URI, and the client that issues commands onto the command queue.
//!
//! The transport handshake itself is external; once it has produced a
//! connection, a `Client` enqueues commands for the background task, which
//! is the only place they execute.

use vstd::prelude::*;

use crate::command::{Command, Open};
use crate::connection::Configuration;
use crate::error::Error;
use crate::queue::CommandQueue;

verus! {

/// The configuration snapshot a client carries, as negotiated at
/// handshake.
pub type ConnectionConfiguration = Configuration;

/// The fields of an AMQP URI that the connection options read: the
/// credentials, the vhost, and the optional tuning parameters of its
/// query string.
#[derive(Debug, Clone, PartialEq)]
pub struct UriParts {
    /// The username, percent-decoded.
    pub username: String,
    /// The password, percent-decoded.
    pub password: String,
    /// The target vhost.
    pub vhost: String,
    /// The `frame_max` query parameter, if present.
    pub frame_max: Option<u32>,
    /// The `heartbeat` query parameter, if present.
    pub heartbeat: Option<u16>,
}

/// Options used to set up a connection.
#[derive(Debug, Clone, PartialEq)]
pub struct ConnectionOptions {
    /// The username to authenticate as.
    pub username: String,
    /// The password to authenticate with.
    pub password: String,
    /// The vhost to connect to.
    pub vhost: String,
    /// The maximum frame size; 0 asks for the server's default.
    pub frame_max: u32,
    /// The heartbeat interval in seconds; 0 asks for none.
    pub heartbeat: u16,
}

/// What parsing a string as an AMQP URI yields: `None` when the string is
/// no valid AMQP URI, otherwise the username, password, vhost, and the
/// optional `frame_max` and `heartbeat` query parameters, in that order.
pub uninterp spec fn parsed_amqp_uri(s: Seq<char>) -> Option<
    (Seq<char>, Seq<char>, Seq<char>, Option<u32>, Option<u16>),
>;

/// Relies on `amq_protocol::uri::AMQPUri`'s `FromStr`: which strings parse
/// as AMQP URIs, and into which parts, depends on the string alone;
/// `parsed_amqp_uri` names that result.
#[verifier::external_body]
fn parse_amqp_uri(s: &str) -> (r: Result<UriParts, String>)
    ensures
        r is Ok <==> parsed_amqp_uri(s@) is Some,
        r matches Ok(p) ==> ({
            let t = parsed_amqp_uri(s@).unwrap();
            &&& p.username@ == t.0
            &&& p.password@ == t.1
            &&& p.vhost@ == t.2
            &&& p.frame_max == t.3
            &&& p.heartbeat == t.4
        }),
{
    match s.parse::<amq_protocol::uri::AMQPUri>() {
        Ok(uri) => Ok(UriParts {
            username: uri.authority.userinfo.username,
            password: uri.authority.userinfo.password,
            vhost: uri.vhost,
            frame_max: uri.query.frame_max,
            heartbeat: uri.query.heartbeat,
        }),
        Err(e) => Err(e),
    }
}

impl ConnectionOptions {
    /// Options read off the parts of an AMQP URI; absent tuning
    /// parameters default to 0.
    pub fn from_uri(uri: UriParts) -> (r: ConnectionOptions)
        ensures
            r.username == uri.username,
            r.password == uri.password,
            r.vhost == uri.vhost,
            r.frame_max == (match uri.frame_max {
                Some(v) => v,
                None => 0u32,
            }),
            r.heartbeat == (match uri.heartbeat {
                Some(v) => v,
                None => 0u16,
            }),
    {
        ConnectionOptions {
            username: uri.username,
            password: uri.password,
            vhost: uri.vhost,
            frame_max: uri.frame_max.unwrap_or(0),
            heartbeat: uri.heartbeat.unwrap_or(0),
        }
    }

    /// Options parsed from an AMQP URI string: exactly the strings that
    /// parse as AMQP URIs yield options, read off the parsed parts as
    /// `from_uri` reads them.
    pub fn from_str(s: &str) -> (r: Result<ConnectionOptions, String>)
        ensures
            r is Ok <==> parsed_amqp_uri(s@) is Some,
            r matches Ok(o) ==> ({
                let t = parsed_amqp_uri(s@).unwrap();
                &&& o.username@ == t.0
                &&& o.password@ == t.1
                &&& o.vhost@ == t.2
                &&& o.frame_max == (match t.3 {
                    Some(v) => v,
                    None => 0u32,
                })
                &&& o.heartbeat == (match t.4 {
                    Some(v) => v,
                    None => 0u16,
                })
            }),
    {
        match parse_amqp_uri(s) {
            Ok(parts) => Ok(ConnectionOptions::from_uri(parts)),
            Err(e) => Err(e),
        }
    }
}

impl Default for ConnectionOptions {
    /// The guest account on the default vhost, with server-chosen tuning.
    fn default() -> (d: ConnectionOptions)
        ensures
            d.username@ == "guest"@,
            d.password@ == "guest"@,
            d.vhost@ == "/"@,
            d.frame_max == 0,
            d.heartbeat == 0,
    {
        ConnectionOptions {
            username: String::from_str("guest"),
            password: String::from_str("guest"),
            vhost: String::from_str("/"),
            frame_max: 0,
            heartbeat: 0,
        }
    }
}

/// Options for the confirm extension of a channel.
#[derive(Debug, Clone, Copy, PartialEq, Eq, Structural)]
pub struct ConfirmSelectOptions;

/// The caller-facing client: carries the configuration snapshot and
/// issues commands onto the command queue shared with the background
/// task. Cloning a client yields another producer onto the same queue.
#[derive(Debug, Clone)]
pub struct Client {
    /// The configuration negotiated at handshake.
    pub configuration: ConnectionConfiguration,
}

impl Client {
    /// A client for an established connection.
    pub fn new(configuration: ConnectionConfiguration) -> (c: Client)
        ensures
            c.configuration == configuration,
    {
        Client { configuration }
    }

    /// Enqueue a channel-open command whose outcome will be routed back
    /// under `ticket`. Reports whether the command was accepted; a full
    /// or closed queue hands nothing over, and the caller retries once
    /// space appears — the queue never drops a command.
    pub fn create_channel(&self, queue: &mut CommandQueue, ticket: u64) -> (enqueued: bool)
        ensures
            final(queue).cap == old(queue).cap,
            final(queue).closed == old(queue).closed,
            old(queue).closed || old(queue).items@.len() >= old(queue).cap ==> ({
                &&& !enqueued
                &&& final(queue).items@ == old(queue).items@
            }),
            !old(queue).closed && old(queue).items@.len() < old(queue).cap ==> ({
                &&& enqueued
                &&& final(queue).items@ == old(queue).items@.push(
                    Command::Open(Open { request_id: None, ticket: Some(ticket) }),
                )
            }),
    {
        match queue.offer(Command::Open(Open::with_ticket(ticket))) {
            Ok(_) => true,
            Err(_) => false,
        }
    }

    /// The confirm extension is not wired up yet; accepting the request
    /// is all this does.
    pub fn create_confirm_channel(&self, _options: ConfirmSelectOptions) -> (r: Result<(), Error>)
        ensures
            r is Ok,
    {
        Ok(())
    }
}

} // verus!
