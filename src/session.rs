//! One session's lifecycle, and the notifications the server sends.

use vstd::prelude::*;
use crate::json::{Json, field, keys, is_str, lemma_member_at};

verus! {

/// The stages of a session's life.
#[derive(Debug, Clone, Copy, PartialEq, Eq, Structural)]
pub enum Phase {
    Connecting,
    Open,
    Closing,
    Closed,
}

/// What happens to a session.
#[derive(Debug, Clone, Copy, PartialEq, Eq, Structural)]
pub enum Signal {
    /// The connection handshake completed.
    Handshake,
    /// The client sent a close frame.
    CloseFrame,
    /// Sending to the client failed, or its queue overflowed.
    SendFailed,
    /// The server asked the session to stop.
    Shutdown,
    /// Both of the session's loops have stopped.
    Stopped,
}

/// The phase that follows `p` on signal `s`; a signal that does not apply
/// leaves the phase as it is.
pub open spec fn next_phase(p: Phase, s: Signal) -> Phase {
    match (p, s) {
        (Phase::Connecting, Signal::Handshake) => Phase::Open,
        (Phase::Connecting, Signal::Stopped) => Phase::Closed,
        (Phase::Connecting, _) => Phase::Closing,
        (Phase::Open, Signal::CloseFrame) | (Phase::Open, Signal::SendFailed) | (
            Phase::Open,
            Signal::Shutdown,
        ) => Phase::Closing,
        (Phase::Closing, Signal::Stopped) => Phase::Closed,
        _ => p,
    }
}

/// The phase that follows `p` on signal `s`.
pub fn advance(p: Phase, s: Signal) -> (r: Phase)
    ensures
        r == next_phase(p, s),
{
    match (p, s) {
        (Phase::Connecting, Signal::Handshake) => Phase::Open,
        (Phase::Connecting, Signal::Stopped) => Phase::Closed,
        (Phase::Connecting, _) => Phase::Closing,
        (Phase::Open, Signal::CloseFrame) => Phase::Closing,
        (Phase::Open, Signal::SendFailed) => Phase::Closing,
        (Phase::Open, Signal::Shutdown) => Phase::Closing,
        (Phase::Closing, Signal::Stopped) => Phase::Closed,
        _ => p,
    }
}

/// Messages are dispatched and delivered only while the session is open.
pub fn carries_traffic(p: Phase) -> (r: bool)
    ensures
        r == (p == Phase::Open),
{
    match p {
        Phase::Open => true,
        _ => false,
    }
}

/// Once a session has left `Open` it never comes back to it.
pub proof fn lemma_no_reopen(p: Phase, s: Signal)
    requires
        p == Phase::Closing || p == Phase::Closed,
    ensures
        next_phase(p, s) != Phase::Open,
        p == Phase::Closed ==> next_phase(p, s) == Phase::Closed,
{
}

/// An event published by the domain, to be fanned out to every session.
#[derive(Debug)]
pub struct ServerEvent {
    pub event_type: String,
    pub payload: Json,
    /// When the event happened, as RFC 3339 text.
    pub timestamp: String,
}

/// `v` is a notification with the version marker, method `method`, and
/// parameters satisfying `params`.
pub open spec fn notification_of(v: Json, method: Seq<char>, params: spec_fn(Json) -> bool) -> bool {
    &&& keys(v) == seq!["jsonrpc"@, "method"@, "params"@]
    &&& is_str(field(v, "jsonrpc"@), "2.0"@)
    &&& is_str(field(v, "method"@), method)
    &&& field(v, "params"@) matches Some(p) && params(p)
}

/// The parameters of an event notification: its type, payload and time.
pub open spec fn event_params(e: ServerEvent) -> spec_fn(Json) -> bool {
    |p: Json|
        {
            &&& keys(p) == seq!["type"@, "payload"@, "timestamp"@]
            &&& is_str(field(p, "type"@), e.event_type@)
            &&& field(p, "payload"@) == Some(e.payload)
            &&& is_str(field(p, "timestamp"@), e.timestamp@)
        }
}

/// Builds the version marker, method and parameters of a notification.
fn notification(method: &str, params: Json) -> (r: Json)
    ensures
        keys(r) == seq!["jsonrpc"@, "method"@, "params"@],
        is_str(field(r, "jsonrpc"@), "2.0"@),
        is_str(field(r, "method"@), method@),
        field(r, "params"@) == Some(params),
{
    let mut members: Vec<(String, Json)> = Vec::new();
    members.push(("jsonrpc".to_owned(), Json::Str("2.0".to_owned())));
    members.push(("method".to_owned(), Json::Str(method.to_owned())));
    members.push(("params".to_owned(), params));
    let ghost m = members@;
    let r = Json::Obj(members);
    proof {
        reveal_strlit("jsonrpc");
        reveal_strlit("method");
        reveal_strlit("params");
        assert("jsonrpc"@[0] == 'j' && "method"@[0] == 'm' && "params"@[0] == 'p');
        lemma_member_at(m, 0, "jsonrpc"@);
        lemma_member_at(m, 1, "method"@);
        lemma_member_at(m, 2, "params"@);
        assert(keys(r) =~= seq!["jsonrpc"@, "method"@, "params"@]);
    }
    r
}

impl ServerEvent {
    /// The `server.event` notification that carries this event.
    pub fn into_notification(self) -> (r: Json)
        ensures
            notification_of(r, "server.event"@, event_params(self)),
    {
        let ghost whole = self;
        let mut members: Vec<(String, Json)> = Vec::new();
        members.push(("type".to_owned(), Json::Str(self.event_type)));
        members.push(("payload".to_owned(), self.payload));
        members.push(("timestamp".to_owned(), Json::Str(self.timestamp)));
        let ghost m = members@;
        let p = Json::Obj(members);
        proof {
            reveal_strlit("type");
            reveal_strlit("payload");
            reveal_strlit("timestamp");
            assert("type"@[0] == 't' && "payload"@[0] == 'p' && "timestamp"@[1] == 'i'
                && "type"@[1] == 'y');
            lemma_member_at(m, 0, "type"@);
            lemma_member_at(m, 1, "payload"@);
            lemma_member_at(m, 2, "timestamp"@);
            assert(keys(p) =~= seq!["type"@, "payload"@, "timestamp"@]);
            assert(event_params(whole)(p));
        }
        notification("server.event", p)
    }
}

/// The capabilities announced to every new session.
pub open spec fn capability_names() -> Seq<Seq<char>> {
    seq!["components"@, "projects"@, "building"@, "testing"@, "documentation"@]
}

/// The parameters of the welcome notification: the server's identifier,
/// its version, and its capabilities.
pub open spec fn welcome_params(version: Seq<char>) -> spec_fn(Json) -> bool {
    |p: Json|
        {
            &&& keys(p) == seq!["serverId"@, "version"@, "capabilities"@]
            &&& is_str(field(p, "serverId"@), "orbit-mcp-server"@)
            &&& is_str(field(p, "version"@), version)
            &&& field(p, "capabilities"@) matches Some(Json::Arr(items)) && items@.len()
                == capability_names().len() && forall|k: int|
                0 <= k < items@.len() ==> is_str(Some(#[trigger] items@[k]), capability_names()[k])
        }
}

/// The `server.welcome` notification sent as soon as a session opens.
pub fn welcome(version: &str) -> (r: Json)
    ensures
        notification_of(r, "server.welcome"@, welcome_params(version@)),
{
    let mut caps: Vec<Json> = Vec::new();
    caps.push(Json::Str("components".to_owned()));
    caps.push(Json::Str("projects".to_owned()));
    caps.push(Json::Str("building".to_owned()));
    caps.push(Json::Str("testing".to_owned()));
    caps.push(Json::Str("documentation".to_owned()));
    let mut members: Vec<(String, Json)> = Vec::new();
    members.push(("serverId".to_owned(), Json::Str("orbit-mcp-server".to_owned())));
    members.push(("version".to_owned(), Json::Str(version.to_owned())));
    members.push(("capabilities".to_owned(), Json::Arr(caps)));
    let ghost m = members@;
    let p = Json::Obj(members);
    proof {
        reveal_strlit("serverId");
        reveal_strlit("version");
        reveal_strlit("capabilities");
        assert("serverId"@[0] == 's' && "version"@[0] == 'v' && "capabilities"@[0] == 'c');
        lemma_member_at(m, 0, "serverId"@);
        lemma_member_at(m, 1, "version"@);
        lemma_member_at(m, 2, "capabilities"@);
        assert(keys(p) =~= seq!["serverId"@, "version"@, "capabilities"@]);
        assert(welcome_params(version@)(p));
    }
    notification("server.welcome", p)
}

} // verus!
