//! Turning received values into calls, and calls' outcomes into responses.

use vstd::prelude::*;
use crate::json::{Json, member, field, find_member, keys, is_str, lemma_member_at};

verus! {

/// The received value could not be parsed at all.
pub const PARSE_ERROR: i64 = -32700;
/// The value parsed but is not a valid request or notification.
pub const INVALID_REQUEST: i64 = -32600;
/// No method of that name exists.
pub const METHOD_NOT_FOUND: i64 = -32601;
/// The parameters do not have the shape the method expects.
pub const INVALID_PARAMS: i64 = -32602;
/// An unexpected fault happened while handling the call.
pub const INTERNAL_ERROR: i64 = -32603;

/// A correlation identifier, echoed verbatim in the response.
#[derive(Debug, Clone, PartialEq)]
pub enum RequestId {
    Null,
    Int(i64),
    Num(String),
    Str(String),
}

/// An error object: a code, a message, and optional data.
#[derive(Debug)]
pub struct RpcError {
    pub code: i64,
    pub message: String,
    pub data: Option<Json>,
}

/// A response: the echoed identifier and either a result or an error.
#[derive(Debug)]
pub struct Response {
    pub id: RequestId,
    pub outcome: Result<Json, RpcError>,
}

/// A decoded request (`id` present) or notification (`id` absent).
#[derive(Debug)]
pub struct Call {
    pub id: Option<RequestId>,
    pub method: String,
    pub params: Option<Json>,
}

/// The identifier that a value carries, when it is one that may serve as a
/// correlation identifier.
pub open spec fn id_of(v: Json) -> Option<RequestId> {
    match v {
        Json::Null => Some(RequestId::Null),
        Json::Int(n) => Some(RequestId::Int(n)),
        Json::Num(s) => Some(RequestId::Num(s)),
        Json::Str(s) => Some(RequestId::Str(s)),
        _ => None,
    }
}

/// `v` is a well-formed request or notification: an object with the
/// version marker "2.0", a string `method`, and, if it has an `id`, one
/// that is a string, a number or null.
pub open spec fn well_formed(v: Json) -> bool {
    &&& v is Obj
    &&& is_str(field(v, "jsonrpc"@), "2.0"@)
    &&& field(v, "method"@) matches Some(Json::Str(_))
    &&& (field(v, "id"@) matches Some(i) ==> id_of(i) is Some)
}

/// The call that a well-formed value stands for.
pub open spec fn call_matches(c: Call, v: Json) -> bool {
    &&& field(v, "method"@) matches Some(Json::Str(m)) && c.method@ == m@
    &&& c.id == match field(v, "id"@) {
        Some(i) => id_of(i),
        None => None,
    }
    &&& c.params == field(v, "params"@)
}

/// The outcome of decoding `v`: the call it stands for when it is well
/// formed, else an invalid-request response with a null identifier.
pub open spec fn decoded_as(r: Result<Call, Response>, v: Json) -> bool {
    &&& r is Ok <==> well_formed(v)
    &&& r matches Ok(c) ==> call_matches(c, v)
    &&& r matches Err(e) ==> is_error_response(e, RequestId::Null, INVALID_REQUEST)
}

/// A received frame after decoding: one message, or a batch of them.
#[derive(Debug)]
pub enum Frame {
    Single(Result<Call, Response>),
    Batch(Vec<Result<Call, Response>>),
}

/// The value that stands for a correlation identifier.
pub open spec fn id_value(id: RequestId) -> Json {
    match id {
        RequestId::Null => Json::Null,
        RequestId::Int(n) => Json::Int(n),
        RequestId::Num(s) => Json::Num(s),
        RequestId::Str(s) => Json::Str(s),
    }
}

/// The value that stands for an error object.
pub open spec fn error_value_matches(v: Json, e: RpcError) -> bool {
    &&& field(v, "code"@) == Some(Json::Int(e.code))
    &&& is_str(field(v, "message"@), e.message@)
    &&& match e.data {
        Some(d) => keys(v) == seq!["code"@, "message"@, "data"@] && field(v, "data"@) == Some(d),
        None => keys(v) == seq!["code"@, "message"@],
    }
}

/// The value that stands for a response: the version marker, the echoed
/// identifier, and either `result` or `error`.
pub open spec fn response_value_matches(v: Json, r: Response) -> bool {
    &&& is_str(field(v, "jsonrpc"@), "2.0"@)
    &&& field(v, "id"@) == Some(id_value(r.id))
    &&& match r.outcome {
        Ok(res) => keys(v) == seq!["jsonrpc"@, "id"@, "result"@] && field(v, "result"@) == Some(
            res,
        ),
        Err(e) => keys(v) == seq!["jsonrpc"@, "id"@, "error"@] && (field(v, "error"@) matches Some(
            ev,
        ) && error_value_matches(ev, e)),
    }
}

/// An error response with a null identifier and the given code.
pub open spec fn is_error_response(r: Response, id: RequestId, code: i64) -> bool {
    &&& r.id == id
    &&& r.outcome matches Err(e) && e.code == code && e.data is None
}

/// Builds an error object with no data.
pub fn error_of(code: i64, message: &str) -> (r: RpcError)
    ensures
        r.code == code,
        r.message@ == message@,
        r.data is None,
{
    RpcError { code, message: message.to_owned(), data: None }
}

/// The correlation identifier held by `v`, if `v` may serve as one.
fn id_from(v: &Json) -> (r: Option<RequestId>)
    ensures
        match (r, id_of(*v)) {
            (Some(a), Some(b)) => a == b,
            (None, None) => true,
            _ => false,
        },
{
    match v {
        Json::Null => Some(RequestId::Null),
        Json::Int(n) => Some(RequestId::Int(*n)),
        Json::Num(s) => Some(RequestId::Num(s.clone())),
        Json::Str(s) => Some(RequestId::Str(s.clone())),
        _ => None,
    }
}

/// Decodes one received value into a call; a value that is not a
/// well-formed request or notification yields an invalid-request response
/// with a null identifier.
pub fn decode_value(v: Json) -> (r: Result<Call, Response>)
    ensures
        decoded_as(r, v),
{
    let invalid = Err(
        Response { id: RequestId::Null, outcome: Err(error_of(INVALID_REQUEST, "Invalid Request")) },
    );
    let mut members = match v {
        Json::Obj(m) => m,
        _ => {
            return invalid;
        },
    };
    let version_at = find_member(&members, &"jsonrpc".to_owned());
    let version_ok = match version_at {
        Some(i) => match &members[i].1 {
            Json::Str(s) => *s == "2.0".to_owned(),
            _ => false,
        },
        None => false,
    };
    if !version_ok {
        return invalid;
    }
    let method = match find_member(&members, &"method".to_owned()) {
        Some(i) => match &members[i].1 {
            Json::Str(s) => s.clone(),
            _ => {
                return invalid;
            },
        },
        None => {
            return invalid;
        },
    };
    let id = match find_member(&members, &"id".to_owned()) {
        Some(i) => match id_from(&members[i].1) {
            Some(id) => Some(id),
            None => {
                return invalid;
            },
        },
        None => None,
    };
    let params = match find_member(&members, &"params".to_owned()) {
        Some(i) => {
            let (_, p) = members.remove(i);
            Some(p)
        },
        None => None,
    };
    Ok(Call { id, method, params })
}

/// Decodes a received frame. `parsed` is the frame's parsed value, or
/// `None` when the text was not well-formed structured data, which yields a
/// parse-error response with a null identifier. A non-empty array is a
/// batch, each element decoded on its own; an empty array is an invalid
/// request.
pub fn decode_frame(parsed: Option<Json>) -> (r: Frame)
    ensures
        parsed is None ==> (r matches Frame::Single(Err(e)) && is_error_response(
            e,
            RequestId::Null,
            PARSE_ERROR,
        )),
        parsed matches Some(Json::Arr(items)) ==> if items@.len() == 0 {
            r matches Frame::Single(Err(e)) && is_error_response(e, RequestId::Null, INVALID_REQUEST)
        } else {
            r matches Frame::Batch(out) && out@.len() == items@.len() && forall|k: int|
                0 <= k < items@.len() ==> decoded_as(#[trigger] out@[k], items@[k])
        },
        parsed matches Some(v) ==> !(v is Arr) ==> (r matches Frame::Single(d) && decoded_as(d, v)),
{
    match parsed {
        None => Frame::Single(
            Err(Response { id: RequestId::Null, outcome: Err(error_of(PARSE_ERROR, "Parse error")) }),
        ),
        Some(Json::Arr(items)) => {
            if items.len() == 0 {
                return Frame::Single(
                    Err(
                        Response {
                            id: RequestId::Null,
                            outcome: Err(error_of(INVALID_REQUEST, "Invalid Request")),
                        },
                    ),
                );
            }
            let ghost orig = items@;
            let mut rest = items;
            let mut out: Vec<Result<Call, Response>> = Vec::new();
            while rest.len() > 0
                invariant
                    out@.len() + rest@.len() == orig.len(),
                    rest@ == orig.subrange(out@.len() as int, orig.len() as int),
                    forall|k: int| 0 <= k < out@.len() ==> decoded_as(#[trigger] out@[k], orig[k]),
                decreases rest@.len(),
            {
                let v = rest.remove(0);
                out.push(decode_value(v));
                proof {
                    assert(rest@ =~= orig.subrange(out@.len() as int, orig.len() as int));
                }
            }
            Frame::Batch(out)
        },
        Some(v) => Frame::Single(decode_value(v)),
    }
}

impl RequestId {
    /// The value that stands for this identifier.
    pub fn into_value(self) -> (r: Json)
        ensures
            r == id_value(self),
    {
        match self {
            RequestId::Null => Json::Null,
            RequestId::Int(n) => Json::Int(n),
            RequestId::Num(s) => Json::Num(s),
            RequestId::Str(s) => Json::Str(s),
        }
    }
}

impl RpcError {
    /// The value that stands for this error object.
    pub fn into_value(self) -> (r: Json)
        ensures
            error_value_matches(r, self),
    {
        let ghost whole = self;
        let mut members: Vec<(String, Json)> = Vec::new();
        members.push(("code".to_owned(), Json::Int(self.code)));
        members.push(("message".to_owned(), Json::Str(self.message)));
        match self.data {
            Some(d) => {
                members.push(("data".to_owned(), d));
            },
            None => {},
        }
        let ghost m = members@;
        let r = Json::Obj(members);
        proof {
            reveal_strlit("code");
            reveal_strlit("message");
            reveal_strlit("data");
            assert("code"@[0] == 'c' && "message"@[0] == 'm' && "data"@[0] == 'd');
            lemma_member_at(m, 0, "code"@);
            lemma_member_at(m, 1, "message"@);
            if whole.data is Some {
                lemma_member_at(m, 2, "data"@);
                assert(keys(r) =~= seq!["code"@, "message"@, "data"@]);
            } else {
                assert(keys(r) =~= seq!["code"@, "message"@]);
            }
        }
        r
    }
}

impl Response {
    /// The value that stands for this response.
    pub fn into_value(self) -> (r: Json)
        ensures
            response_value_matches(r, self),
    {
        let ghost whole = self;
        let mut members: Vec<(String, Json)> = Vec::new();
        members.push(("jsonrpc".to_owned(), Json::Str("2.0".to_owned())));
        members.push(("id".to_owned(), self.id.into_value()));
        match self.outcome {
            Ok(v) => members.push(("result".to_owned(), v)),
            Err(e) => members.push(("error".to_owned(), e.into_value())),
        }
        let ghost m = members@;
        let r = Json::Obj(members);
        proof {
            reveal_strlit("jsonrpc");
            reveal_strlit("id");
            reveal_strlit("result");
            reveal_strlit("error");
            assert("jsonrpc"@[0] == 'j' && "id"@[0] == 'i' && "result"@[0] == 'r' && "error"@[0]
                == 'e');
            lemma_member_at(m, 0, "jsonrpc"@);
            lemma_member_at(m, 1, "id"@);
            if whole.outcome is Ok {
                lemma_member_at(m, 2, "result"@);
                assert(keys(r) =~= seq!["jsonrpc"@, "id"@, "result"@]);
            } else {
                lemma_member_at(m, 2, "error"@);
                assert(keys(r) =~= seq!["jsonrpc"@, "id"@, "error"@]);
            }
        }
        r
    }
}

/// The value to send back for one frame, given the responses its
/// messages produced: for a batch, an array of them in order (nothing
/// when every message was a notification); otherwise the one response, if
/// any.
pub fn encode_reply(batch: bool, responses: Vec<Response>) -> (r: Option<Json>)
    requires
        batch || responses@.len() <= 1,
    ensures
        responses@.len() == 0 ==> r is None,
        responses@.len() > 0 && batch ==> (r matches Some(Json::Arr(items)) && items@.len()
            == responses@.len() && forall|k: int|
            0 <= k < items@.len() ==> response_value_matches(
                #[trigger] items@[k],
                responses@[k],
            )),
        responses@.len() > 0 && !batch ==> (r matches Some(v) && response_value_matches(
            v,
            responses@[0],
        )),
{
    let ghost orig = responses@;
    if responses.len() == 0 {
        return None;
    }
    let mut rest = responses;
    let mut items: Vec<Json> = Vec::new();
    while rest.len() > 0
        invariant
            items@.len() + rest@.len() == orig.len(),
            rest@ == orig.subrange(items@.len() as int, orig.len() as int),
            forall|k: int|
                0 <= k < items@.len() ==> response_value_matches(#[trigger] items@[k], orig[k]),
        decreases rest@.len(),
    {
        let resp = rest.remove(0);
        items.push(resp.into_value());
        proof {
            assert(rest@ =~= orig.subrange(items@.len() as int, orig.len() as int));
        }
    }
    if batch {
        Some(Json::Arr(items))
    } else {
        Some(items.remove(0))
    }
}

} // verus!
