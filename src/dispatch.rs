//! The method table, parameter checks, and the mapping of outcomes to
//! responses.

use vstd::prelude::*;
use crate::json::{Json, field, find_member, keys, is_str};
use crate::codec::{
    Call, RequestId, Response, RpcError, error_of, is_error_response, encode_reply, id_value, response_value_matches,
    METHOD_NOT_FOUND, INVALID_PARAMS, INTERNAL_ERROR,
};
use crate::error::{McpError, code_of, prefix_of, detail_of};

verus! {

/// The operations that can be called, one per method name.
#[derive(Debug, Clone, Copy, PartialEq, Eq, Structural)]
pub enum MethodKind {
    ComponentList,
    ComponentCreate,
    ComponentGet,
    ComponentUpdate,
    ComponentDelete,
    ProjectInfo,
    BuildCompile,
    TestRun,
    DocsQuery,
}

/// The method table: the operation bound to each method name.
pub open spec fn method_kind(name: Seq<char>) -> Option<MethodKind> {
    if name == "component.list"@ {
        Some(MethodKind::ComponentList)
    } else if name == "component.create"@ {
        Some(MethodKind::ComponentCreate)
    } else if name == "component.get"@ {
        Some(MethodKind::ComponentGet)
    } else if name == "component.update"@ {
        Some(MethodKind::ComponentUpdate)
    } else if name == "component.delete"@ {
        Some(MethodKind::ComponentDelete)
    } else if name == "project.info"@ {
        Some(MethodKind::ProjectInfo)
    } else if name == "build.compile"@ {
        Some(MethodKind::BuildCompile)
    } else if name == "test.run"@ {
        Some(MethodKind::TestRun)
    } else if name == "docs.query"@ {
        Some(MethodKind::DocsQuery)
    } else {
        None
    }
}

/// The parameter naming what an operation acts on, for the operations
/// that need one.
pub open spec fn subject_key(k: MethodKind) -> Option<Seq<char>> {
    match k {
        MethodKind::ComponentCreate => Some("name"@),
        MethodKind::ComponentGet | MethodKind::ComponentUpdate | MethodKind::ComponentDelete => Some(
            "id"@,
        ),
        MethodKind::DocsQuery => Some("query"@),
        _ => None,
    }
}

/// A result limit, when given, is a non-negative integer (or null).
pub open spec fn limit_fits(v: Option<Json>) -> bool {
    match v {
        None => true,
        Some(Json::Null) => true,
        Some(Json::Int(n)) => n >= 0,
        _ => false,
    }
}

/// The parameters have the shape that operation `k` expects. Operations
/// without a subject take no parameters, null, or an object; the others
/// take an object whose subject is a string. A documentation query's limit
/// must fit `limit_fits`.
pub open spec fn params_fit(k: MethodKind, params: Option<Json>) -> bool {
    match subject_key(k) {
        None => params is None || params == Some(Json::Null) || params matches Some(Json::Obj(_)),
        Some(key) => params matches Some(p) && p is Obj && (field(p, key) matches Some(Json::Str(_)))
            && (k == MethodKind::DocsQuery ==> limit_fits(field(p, "limit"@))),
    }
}

/// An operation to perform against the domain, with what it acts on.
#[derive(Debug)]
pub struct Command {
    pub method: MethodKind,
    /// The component name, component id or query text.
    pub subject: Option<String>,
    /// The result limit of a documentation query.
    pub limit: Option<i64>,
    pub params: Option<Json>,
}

/// `c` is the command for operation `k` on fitting parameters `params`.
pub open spec fn command_matches(c: Command, k: MethodKind, params: Option<Json>) -> bool {
    &&& c.method == k
    &&& c.params == params
    &&& match subject_key(k) {
        Some(key) => c.subject matches Some(s) && (field(params.unwrap(), key) matches Some(
            Json::Str(t),
        ) && s@ == t@),
        None => c.subject is None,
    }
    &&& c.limit == if k == MethodKind::DocsQuery {
        match field(params.unwrap(), "limit"@) {
            Some(Json::Int(n)) => Some(n),
            _ => None,
        }
    } else {
        None
    }
}

/// What to do with one decoded message.
#[derive(Debug)]
pub enum Step {
    /// Send this response now.
    Reply(Response),
    /// Perform the command; answer the identifier, if any, with its outcome.
    Invoke(Command, Option<RequestId>),
    /// Nothing to perform and nothing to send.
    Silent,
}

/// `s` is the step that `plan` takes for `item`.
pub open spec fn planned(item: Result<Call, Response>, s: Step) -> bool {
    match item {
        Err(resp) => s == Step::Reply(resp),
        Ok(c) => match method_kind(c.method@) {
            None => match c.id {
                Some(id) => s matches Step::Reply(r) && is_error_response(r, id, METHOD_NOT_FOUND),
                None => s is Silent,
            },
            Some(k) => if params_fit(k, c.params) {
                s matches Step::Invoke(cmd, rt) && rt == c.id && command_matches(cmd, k, c.params)
            } else {
                match c.id {
                    Some(id) => s matches Step::Reply(r) && is_error_response(r, id, INVALID_PARAMS),
                    None => s is Silent,
                }
            },
        },
    }
}

/// How a domain operation ended.
#[derive(Debug)]
pub enum Failure {
    /// The domain reported a failure.
    Domain(McpError),
    /// Something unexpected went wrong while handling the call.
    Fault,
}

/// `r` is what `finish` sends for `reply_to` once the operation ended with
/// `outcome`.
pub open spec fn finished(
    reply_to: Option<RequestId>,
    outcome: Result<Json, Failure>,
    r: Option<Response>,
) -> bool {
    match reply_to {
        None => r is None,
        Some(id) => r matches Some(resp) && resp.id == id && match outcome {
            Ok(v) => resp.outcome == Ok::<Json, RpcError>(v),
            Err(Failure::Domain(e)) => resp.outcome matches Err(er) && er.code == code_of(e)
                && er.message@ == prefix_of(e) + detail_of(e) && er.data is None,
            Err(Failure::Fault) => resp.outcome matches Err(er) && er.code == INTERNAL_ERROR
                && er.data is None,
        },
    }
}

/// Looks a method name up in the method table.
pub fn lookup_method(name: &String) -> (r: Option<MethodKind>)
    ensures
        r == method_kind(name@),
{
    if *name == "component.list".to_owned() {
        Some(MethodKind::ComponentList)
    } else if *name == "component.create".to_owned() {
        Some(MethodKind::ComponentCreate)
    } else if *name == "component.get".to_owned() {
        Some(MethodKind::ComponentGet)
    } else if *name == "component.update".to_owned() {
        Some(MethodKind::ComponentUpdate)
    } else if *name == "component.delete".to_owned() {
        Some(MethodKind::ComponentDelete)
    } else if *name == "project.info".to_owned() {
        Some(MethodKind::ProjectInfo)
    } else if *name == "build.compile".to_owned() {
        Some(MethodKind::BuildCompile)
    } else if *name == "test.run".to_owned() {
        Some(MethodKind::TestRun)
    } else if *name == "docs.query".to_owned() {
        Some(MethodKind::DocsQuery)
    } else {
        None
    }
}

/// Checks the parameters of operation `k`; when they fit, builds its
/// command.
pub fn bind_params(k: MethodKind, params: Option<Json>) -> (r: Option<Command>)
    ensures
        r is Some <==> params_fit(k, params),
        r matches Some(c) ==> command_matches(c, k, params),
{
    let key = match k {
        MethodKind::ComponentCreate => "name".to_owned(),
        MethodKind::ComponentGet | MethodKind::ComponentUpdate | MethodKind::ComponentDelete => "id".to_owned(),
        MethodKind::DocsQuery => "query".to_owned(),
        _ => {
            let fits = match &params {
                None => true,
                Some(Json::Null) => true,
                Some(Json::Obj(_)) => true,
                _ => false,
            };
            if fits {
                return Some(Command { method: k, subject: None, limit: None, params });
            } else {
                return None;
            }
        },
    };
    let members = match &params {
        Some(Json::Obj(m)) => m,
        _ => {
            return None;
        },
    };
    let subject = match find_member(members, &key) {
        Some(i) => match &members[i].1 {
            Json::Str(s) => s.clone(),
            _ => {
                return None;
            },
        },
        None => {
            return None;
        },
    };
    let mut limit: Option<i64> = None;
    if k == MethodKind::DocsQuery {
        match find_member(members, &"limit".to_owned()) {
            Some(i) => match &members[i].1 {
                Json::Null => {},
                Json::Int(n) => {
                    if *n < 0 {
                        return None;
                    }
                    limit = Some(*n);
                },
                _ => {
                    return None;
                },
            },
            None => {},
        }
    }
    Some(Command { method: k, subject: Some(subject), limit, params })
}

/// Decides what to do with one decoded message: answer a decode failure,
/// reject an unknown method or unfitting parameters (only a request is
/// answered), or invoke the operation.
pub fn plan(item: Result<Call, Response>) -> (s: Step)
    ensures
        planned(item, s),
{
    match item {
        Err(resp) => Step::Reply(resp),
        Ok(call) => {
            let Call { id, method, params } = call;
            match lookup_method(&method) {
                None => match id {
                    Some(id) => Step::Reply(
                        Response { id, outcome: Err(error_of(METHOD_NOT_FOUND, "Method not found")) },
                    ),
                    None => Step::Silent,
                },
                Some(k) => match bind_params(k, params) {
                    Some(cmd) => Step::Invoke(cmd, id),
                    None => match id {
                        Some(id) => Step::Reply(
                            Response { id, outcome: Err(error_of(INVALID_PARAMS, "Invalid params")) },
                        ),
                        None => Step::Silent,
                    },
                },
            }
        },
    }
}

/// Turns the outcome of an invoked operation into the response owed to
/// `reply_to`; a notification (`reply_to` is `None`) gets none.
pub fn finish(reply_to: Option<RequestId>, outcome: Result<Json, Failure>) -> (r: Option<Response>)
    ensures
        finished(reply_to, outcome, r),
{
    match reply_to {
        None => None,
        Some(id) => {
            let out = match outcome {
                Ok(v) => Ok(v),
                Err(Failure::Domain(e)) => Err(
                    RpcError { code: e.code(), message: e.message(), data: None },
                ),
                Err(Failure::Fault) => Err(error_of(INTERNAL_ERROR, "Internal error")),
            };
            Some(Response { id, outcome: out })
        },
    }
}

/// Every request is answered exactly once, with its own identifier: either
/// the step replies at once, or the operation is invoked and its outcome,
/// whatever it is, yields one response bearing that identifier.
pub proof fn lemma_request_answered_once(
    c: Call,
    s: Step,
    outcome: Result<Json, Failure>,
    r: Option<Response>,
)
    requires
        c.id is Some,
        planned(Ok(c), s),
        s matches Step::Invoke(_, rt) ==> finished(rt, outcome, r),
    ensures
        match s {
            Step::Reply(resp) => resp.id == c.id.unwrap(),
            Step::Invoke(_, rt) => rt == c.id && (r matches Some(resp) && resp.id == c.id.unwrap()),
            Step::Silent => false,
        },
{
}

/// A notification is never answered: it gets no immediate reply, and the
/// outcome of its operation, success or failure, yields no response.
pub proof fn lemma_notification_unanswered(
    c: Call,
    s: Step,
    outcome: Result<Json, Failure>,
    r: Option<Response>,
)
    requires
        c.id is None,
        planned(Ok(c), s),
        s matches Step::Invoke(_, rt) ==> finished(rt, outcome, r),
    ensures
        !(s is Reply),
        s is Invoke ==> r is None,
{
}

/// One message of a frame once its step was carried out.
#[derive(Debug)]
pub enum Settled {
    /// The step replied at once with this response.
    Replied(Response),
    /// The command was performed and ended with this outcome, owed to the
    /// identifier, if any.
    Performed(Option<RequestId>, Result<Json, Failure>),
    /// Nothing was performed and nothing is owed.
    Quiet,
}

/// `t` is what carrying out step `s` left.
pub open spec fn settles(s: Step, t: Settled) -> bool {
    match (s, t) {
        (Step::Reply(r), Settled::Replied(q)) => r == q,
        (Step::Invoke(_, rt), Settled::Performed(id, _)) => rt == id,
        (Step::Silent, Settled::Quiet) => true,
        _ => false,
    }
}

/// The identifiers answered for carried-out messages, in order.
pub open spec fn answer_ids(t: Seq<Settled>) -> Seq<RequestId>
    decreases t.len(),
{
    if t.len() == 0 {
        Seq::empty()
    } else {
        let rest = answer_ids(t.drop_last());
        match t.last() {
            Settled::Replied(r) => rest.push(r.id),
            Settled::Performed(Some(id), _) => rest.push(id),
            _ => rest,
        }
    }
}

/// The identifiers owed an answer for decoded messages, in order: each
/// request's own, that of the error response for a message that could not
/// be decoded (null), and none for a notification.
pub open spec fn owed_ids(items: Seq<Result<Call, Response>>) -> Seq<RequestId>
    decreases items.len(),
{
    if items.len() == 0 {
        Seq::empty()
    } else {
        let rest = owed_ids(items.drop_last());
        match items.last() {
            Err(r) => rest.push(r.id),
            Ok(c) => match c.id {
                Some(id) => rest.push(id),
                None => rest,
            },
        }
    }
}

/// Within a frame, each request is answered exactly once, in order and
/// with its own identifier, each message that could not be decoded gets
/// its one error response, and a notification gets none, whatever the
/// outcomes of the performed commands.
pub proof fn lemma_frame_answers(
    items: Seq<Result<Call, Response>>,
    steps: Seq<Step>,
    done: Seq<Settled>,
)
    requires
        steps.len() == items.len(),
        done.len() == items.len(),
        forall|k: int| 0 <= k < items.len() ==> planned(#[trigger] items[k], steps[k]),
        forall|k: int| 0 <= k < items.len() ==> settles(#[trigger] steps[k], done[k]),
    ensures
        answer_ids(done) == owed_ids(items),
    decreases items.len(),
{
    if items.len() > 0 {
        let n = items.len() - 1;
        assert forall|k: int| 0 <= k < n implies planned(
            #[trigger] items.drop_last()[k],
            steps.drop_last()[k],
        ) && settles(steps.drop_last()[k], done.drop_last()[k]) by {
            assert(planned(items[k], steps[k]));
            assert(settles(steps[k], done[k]));
        }
        lemma_frame_answers(items.drop_last(), steps.drop_last(), done.drop_last());
        assert(planned(items[n], steps[n]));
        assert(settles(steps[n], done[n]));
    }
}

/// The identifiers of a sequence of responses.
pub open spec fn response_ids(rs: Seq<Response>) -> Seq<RequestId> {
    rs.map_values(|r: Response| r.id)
}

/// The carried-out messages that are owed an answer, in order.
pub open spec fn answered(t: Seq<Settled>) -> Seq<Settled>
    decreases t.len(),
{
    if t.len() == 0 {
        Seq::empty()
    } else {
        let rest = answered(t.drop_last());
        match t.last() {
            Settled::Replied(_) => rest.push(t.last()),
            Settled::Performed(Some(_), _) => rest.push(t.last()),
            _ => rest,
        }
    }
}

/// `v` is the response to identifier `id` for a command that ended with
/// `outcome`: the version marker and the identifier, then the handler's
/// value as the result, or an error object (code and message, no data)
/// holding the domain's code and message, or the internal-error code.
pub open spec fn outcome_value_matches(
    v: Json,
    id: RequestId,
    outcome: Result<Json, Failure>,
) -> bool {
    &&& is_str(field(v, "jsonrpc"@), "2.0"@)
    &&& field(v, "id"@) == Some(id_value(id))
    &&& match outcome {
        Ok(res) => keys(v) == seq!["jsonrpc"@, "id"@, "result"@] && field(v, "result"@) == Some(
            res,
        ),
        Err(f) => keys(v) == seq!["jsonrpc"@, "id"@, "error"@] && (field(v, "error"@) matches Some(
            ev,
        ) && keys(ev) == seq!["code"@, "message"@] && match f {
            Failure::Domain(e) => field(ev, "code"@) == Some(Json::Int(code_of(e))) && is_str(
                field(ev, "message"@),
                prefix_of(e) + detail_of(e),
            ),
            Failure::Fault => field(ev, "code"@) == Some(Json::Int(INTERNAL_ERROR)),
        }),
    }
}

/// `v` is the reply sent for carried-out message `t`: the immediate
/// response itself, or the response that the performed command's outcome
/// is owed.
pub open spec fn reply_matches(v: Json, t: Settled) -> bool {
    match t {
        Settled::Replied(r) => response_value_matches(v, r),
        Settled::Performed(Some(id), outcome) => outcome_value_matches(v, id, outcome),
        _ => false,
    }
}

/// `resp` is the response built for carried-out message `t`.
spec fn built_for(resp: Response, t: Settled) -> bool {
    match t {
        Settled::Replied(r) => resp == r,
        Settled::Performed(Some(id), outcome) => finished(Some(id), outcome, Some(resp)),
        _ => false,
    }
}

/// The reply to a frame once each of its messages was carried out: for a
/// batch, an array with one response per answered message, in order;
/// otherwise the one response, if any. Nothing is sent when no message is
/// owed an answer.
pub fn answer_frame(batch: bool, done: Vec<Settled>) -> (r: Option<Json>)
    requires
        batch || done@.len() <= 1,
    ensures
        answered(done@).len() == answer_ids(done@).len(),
        answered(done@).len() == 0 ==> r is None,
        batch && answered(done@).len() > 0 ==> (r matches Some(Json::Arr(vs)) && vs@.len()
            == answered(done@).len() && forall|k: int|
            0 <= k < vs@.len() ==> reply_matches(#[trigger] vs@[k], answered(done@)[k]) && field(
                vs@[k],
                "id"@,
            ) == Some(id_value(answer_ids(done@)[k]))),
        !batch && answered(done@).len() > 0 ==> (r matches Some(v) && reply_matches(
            v,
            answered(done@)[0],
        ) && field(v, "id"@) == Some(id_value(answer_ids(done@)[0]))),
{
    let ghost orig = done@;
    let mut rest = done;
    let mut responses: Vec<Response> = Vec::new();
    proof {
        assert(orig.subrange(0, 0) =~= Seq::<Settled>::empty());
        assert(rest@ =~= orig.subrange(0, orig.len() as int));
    }
    while rest.len() > 0
        invariant
            rest@.len() <= orig.len(),
            rest@ == orig.subrange(orig.len() - rest@.len(), orig.len() as int),
            responses@.len() <= orig.len() - rest@.len(),
            responses@.len() == answered(orig.subrange(0, orig.len() - rest@.len())).len(),
            response_ids(responses@) == answer_ids(orig.subrange(0, orig.len() - rest@.len())),
            forall|j: int|
                0 <= j < responses@.len() ==> built_for(
                    #[trigger] responses@[j],
                    answered(orig.subrange(0, orig.len() - rest@.len()))[j],
                ),
        decreases rest@.len(),
    {
        let ghost used = orig.len() - rest@.len();
        let ghost prev = responses@;
        let ghost before = orig.subrange(0, used);
        let ghost after = orig.subrange(0, used + 1);
        let t = rest.remove(0);
        proof {
            assert(t == orig[used]);
            assert(after.drop_last() =~= before);
            assert(after.last() == t);
        }
        match t {
            Settled::Replied(resp) => {
                responses.push(resp);
            },
            Settled::Performed(rt, outcome) => {
                match finish(rt, outcome) {
                    Some(resp) => {
                        responses.push(resp);
                    },
                    None => {},
                }
            },
            Settled::Quiet => {},
        }
        proof {
            assert(rest@ =~= orig.subrange(orig.len() - rest@.len(), orig.len() as int));
            assert(response_ids(responses@) =~= answer_ids(after));
            assert forall|j: int| 0 <= j < responses@.len() implies built_for(
                #[trigger] responses@[j],
                answered(after)[j],
            ) by {
                if j < prev.len() {
                    assert(responses@[j] == prev[j]);
                    assert(answered(after)[j] == answered(before)[j]);
                }
            }
        }
    }
    proof {
        assert(orig.subrange(0, orig.len() as int) =~= orig);
    }
    let ghost rs = responses@;
    let r = encode_reply(batch, responses);
    proof {
        if batch && rs.len() > 0 {
            let vs = r->Some_0->Arr_0;
            assert forall|k: int| 0 <= k < vs@.len() implies reply_matches(
                #[trigger] vs@[k],
                answered(orig)[k],
            ) && field(vs@[k], "id"@) == Some(id_value(answer_ids(orig)[k])) by {
                assert(built_for(rs[k], answered(orig)[k]));
                assert(response_ids(rs)[k] == rs[k].id);
            }
        }
        if !batch && rs.len() > 0 {
            assert(built_for(rs[0], answered(orig)[0]));
            assert(response_ids(rs)[0] == rs[0].id);
        }
    }
    r
}

} // verus!
