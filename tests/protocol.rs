use orbit_mcp::codec::{
    decode_frame, decode_value, encode_reply, Frame, RequestId, Response, INTERNAL_ERROR,
    INVALID_PARAMS, INVALID_REQUEST, METHOD_NOT_FOUND, PARSE_ERROR,
};
use orbit_mcp::dispatch::{answer_frame, finish, lookup_method, plan, Failure, MethodKind, Settled, Step};
use orbit_mcp::error::McpError;
use orbit_mcp::json::Json;

fn obj(pairs: Vec<(&str, Json)>) -> Json {
    Json::Obj(pairs.into_iter().map(|(k, v)| (k.to_string(), v)).collect())
}

fn s(x: &str) -> Json {
    Json::Str(x.to_string())
}

fn get<'a>(v: &'a Json, key: &str) -> Option<&'a Json> {
    match v {
        Json::Obj(m) => m.iter().rev().find(|(k, _)| k == key).map(|(_, v)| v),
        _ => None,
    }
}

fn text<'a>(v: Option<&'a Json>) -> Option<&'a str> {
    match v {
        Some(Json::Str(t)) => Some(t.as_str()),
        _ => None,
    }
}

fn integer(v: Option<&Json>) -> Option<i64> {
    match v {
        Some(Json::Int(n)) => Some(*n),
        _ => None,
    }
}

fn request(id: Json, method: &str, params: Option<Json>) -> Json {
    let mut pairs = vec![("jsonrpc", s("2.0")), ("id", id), ("method", s(method))];
    if let Some(p) = params {
        pairs.push(("params", p));
    }
    obj(pairs)
}

fn notification(method: &str, params: Option<Json>) -> Json {
    let mut pairs = vec![("jsonrpc", s("2.0")), ("method", s(method))];
    if let Some(p) = params {
        pairs.push(("params", p));
    }
    obj(pairs)
}

fn single(f: Frame) -> Result<orbit_mcp::codec::Call, Response> {
    match f {
        Frame::Single(r) => r,
        Frame::Batch(_) => panic!("expected a single message"),
    }
}

fn error_code(r: &Response) -> i64 {
    match &r.outcome {
        Err(e) => e.code,
        Ok(_) => panic!("expected an error"),
    }
}

#[test]
fn malformed_text_yields_parse_error_and_session_stays_usable() {
    let resp = single(decode_frame(None)).unwrap_err();
    assert_eq!(resp.id, RequestId::Null);
    assert_eq!(error_code(&resp), PARSE_ERROR);
    assert_eq!(PARSE_ERROR, -32700);
    let v = resp.into_value();
    assert_eq!(text(get(&v, "jsonrpc")), Some("2.0"));
    assert!(matches!(get(&v, "id"), Some(Json::Null)));
    assert_eq!(integer(get(get(&v, "error").unwrap(), "code")), Some(-32700));

    let next = single(decode_frame(Some(request(Json::Int(2), "component.list", None))));
    let call = next.unwrap();
    assert_eq!(call.method, "component.list");
    assert_eq!(call.id, Some(RequestId::Int(2)));
}

#[test]
fn unknown_method_yields_method_not_found_with_id() {
    let msg = request(Json::Int(7), "nonexistent.op", None);
    let call = single(decode_frame(Some(msg))).unwrap();
    let resp = match plan(Ok(call)) {
        Step::Reply(r) => r,
        _ => panic!("expected a reply"),
    };
    let v = resp.into_value();
    assert_eq!(text(get(&v, "jsonrpc")), Some("2.0"));
    assert_eq!(integer(get(&v, "id")), Some(7));
    assert!(get(&v, "result").is_none());
    let err = get(&v, "error").unwrap();
    assert_eq!(integer(get(err, "code")), Some(-32601));
    assert_eq!(METHOD_NOT_FOUND, -32601);
}

#[test]
fn component_list_request_gets_the_domain_listing() {
    let msg = request(Json::Int(1), "component.list", Some(obj(vec![])));
    let call = single(decode_frame(Some(msg))).unwrap();
    let (cmd, reply_to) = match plan(Ok(call)) {
        Step::Invoke(c, rt) => (c, rt),
        _ => panic!("expected an invocation"),
    };
    assert_eq!(cmd.method, MethodKind::ComponentList);
    assert_eq!(reply_to, Some(RequestId::Int(1)));
    let listing = obj(vec![(
        "components",
        Json::Arr(vec![
            obj(vec![("id", s("counter")), ("name", s("Counter"))]),
            obj(vec![("id", s("user-profile")), ("name", s("UserProfile"))]),
        ]),
    )]);
    let resp = finish(reply_to, Ok(listing)).unwrap();
    let v = resp.into_value();
    assert_eq!(integer(get(&v, "id")), Some(1));
    let result = get(&v, "result").unwrap();
    match get(result, "components") {
        Some(Json::Arr(items)) => {
            assert_eq!(items.len(), 2);
            assert_eq!(text(get(&items[0], "id")), Some("counter"));
            assert_eq!(text(get(&items[1], "name")), Some("UserProfile"));
        }
        _ => panic!("expected a component list"),
    }
    assert!(get(&v, "error").is_none());
}

#[test]
fn notification_is_never_answered() {
    let call = single(decode_frame(Some(notification("build.compile", None)))).unwrap();
    assert_eq!(call.id, None);
    match plan(Ok(call)) {
        Step::Invoke(cmd, rt) => {
            assert_eq!(cmd.method, MethodKind::BuildCompile);
            assert!(rt.is_none());
            assert!(finish(rt, Ok(Json::Null)).is_none());
        }
        _ => panic!("expected an invocation"),
    }
    assert!(finish(None, Err(Failure::Fault)).is_none());
    assert!(finish(None, Err(Failure::Domain(McpError::BuildError("x".to_string())))).is_none());
    let unknown = single(decode_frame(Some(notification("nonexistent.op", None)))).unwrap();
    assert!(matches!(plan(Ok(unknown)), Step::Silent));
    let bad = single(decode_frame(Some(notification("component.get", None)))).unwrap();
    assert!(matches!(plan(Ok(bad)), Step::Silent));
}

#[test]
fn domain_failure_becomes_application_error() {
    let resp = finish(
        Some(RequestId::Str("abc".to_string())),
        Err(Failure::Domain(McpError::ComponentNotFound("card".to_string()))),
    )
    .unwrap();
    assert_eq!(resp.id, RequestId::Str("abc".to_string()));
    let e = resp.outcome.unwrap_err();
    assert_eq!(e.code, 1001);
    assert_eq!(e.message, "Component not found: card");
    assert!(e.data.is_none());
}

#[test]
fn internal_fault_is_reported_opaquely() {
    let resp = finish(Some(RequestId::Int(3)), Err(Failure::Fault)).unwrap();
    assert_eq!(resp.id, RequestId::Int(3));
    assert_eq!(error_code(&resp), INTERNAL_ERROR);
    assert_eq!(INTERNAL_ERROR, -32603);
}

#[test]
fn structurally_invalid_messages_are_invalid_requests() {
    let missing_method = obj(vec![("jsonrpc", s("2.0")), ("id", Json::Int(1))]);
    let wrong_version = obj(vec![("jsonrpc", s("1.0")), ("id", Json::Int(1)), ("method", s("test.run"))]);
    let method_not_string = obj(vec![("jsonrpc", s("2.0")), ("method", Json::Int(4))]);
    let id_is_object = obj(vec![("jsonrpc", s("2.0")), ("id", obj(vec![])), ("method", s("test.run"))]);
    for v in [missing_method, wrong_version, method_not_string, id_is_object, Json::Int(5)] {
        let resp = decode_value(v).unwrap_err();
        assert_eq!(resp.id, RequestId::Null);
        assert_eq!(error_code(&resp), INVALID_REQUEST);
    }
    assert_eq!(INVALID_REQUEST, -32600);
}

#[test]
fn string_null_and_text_number_ids_are_echoed() {
    for id in [s("req-9"), Json::Null, Json::Num("1.5".to_string())] {
        let call = decode_value(request(id, "project.info", None)).unwrap();
        let rt = match plan(Ok(call)) {
            Step::Invoke(_, rt) => rt,
            _ => panic!("expected an invocation"),
        };
        let resp = finish(rt.clone(), Ok(Json::Bool(true))).unwrap();
        assert_eq!(Some(resp.id), rt);
    }
}

#[test]
fn unfitting_params_are_invalid_params() {
    let no_id = decode_value(request(Json::Int(4), "component.get", Some(obj(vec![])))).unwrap();
    match plan(Ok(no_id)) {
        Step::Reply(r) => {
            assert_eq!(r.id, RequestId::Int(4));
            assert_eq!(error_code(&r), INVALID_PARAMS);
        }
        _ => panic!("expected a reply"),
    }
    assert_eq!(INVALID_PARAMS, -32602);
    let array_params = decode_value(request(Json::Int(5), "project.info", Some(Json::Arr(vec![])))).unwrap();
    assert!(matches!(plan(Ok(array_params)), Step::Reply(_)));
    let negative = decode_value(request(
        Json::Int(6),
        "docs.query",
        Some(obj(vec![("query", s("router")), ("limit", Json::Int(-1))])),
    ))
    .unwrap();
    assert!(matches!(plan(Ok(negative)), Step::Reply(_)));
}

#[test]
fn bound_parameters_carry_subject_and_limit() {
    let call = decode_value(request(
        Json::Int(8),
        "docs.query",
        Some(obj(vec![("query", s("router")), ("limit", Json::Int(5))])),
    ))
    .unwrap();
    match plan(Ok(call)) {
        Step::Invoke(cmd, _) => {
            assert_eq!(cmd.method, MethodKind::DocsQuery);
            assert_eq!(cmd.subject.as_deref(), Some("router"));
            assert_eq!(cmd.limit, Some(5));
        }
        _ => panic!("expected an invocation"),
    }
    let create = decode_value(request(
        Json::Int(9),
        "component.create",
        Some(obj(vec![("name", s("Card"))])),
    ))
    .unwrap();
    match plan(Ok(create)) {
        Step::Invoke(cmd, _) => {
            assert_eq!(cmd.method, MethodKind::ComponentCreate);
            assert_eq!(cmd.subject.as_deref(), Some("Card"));
            assert_eq!(cmd.limit, None);
        }
        _ => panic!("expected an invocation"),
    }
}

#[test]
fn method_table_covers_every_namespace() {
    let names = [
        ("component.list", MethodKind::ComponentList),
        ("component.create", MethodKind::ComponentCreate),
        ("component.get", MethodKind::ComponentGet),
        ("component.update", MethodKind::ComponentUpdate),
        ("component.delete", MethodKind::ComponentDelete),
        ("project.info", MethodKind::ProjectInfo),
        ("build.compile", MethodKind::BuildCompile),
        ("test.run", MethodKind::TestRun),
        ("docs.query", MethodKind::DocsQuery),
    ];
    for (name, kind) in names {
        assert_eq!(lookup_method(&name.to_string()), Some(kind));
    }
    assert_eq!(lookup_method(&"component".to_string()), None);
    assert_eq!(lookup_method(&"Component.list".to_string()), None);
}

#[test]
fn batch_is_decoded_per_element_and_answered_in_order() {
    let batch = Json::Arr(vec![
        request(Json::Int(1), "project.info", None),
        notification("build.compile", None),
        Json::Bool(false),
    ]);
    let items = match decode_frame(Some(batch)) {
        Frame::Batch(items) => items,
        Frame::Single(_) => panic!("expected a batch"),
    };
    assert_eq!(items.len(), 3);
    let mut responses = Vec::new();
    for item in items {
        match plan(item) {
            Step::Reply(r) => responses.push(r),
            Step::Invoke(_, rt) => {
                if let Some(r) = finish(rt, Ok(Json::Null)) {
                    responses.push(r);
                }
            }
            Step::Silent => {}
        }
    }
    assert_eq!(responses.len(), 2);
    let reply = encode_reply(true, responses).unwrap();
    match reply {
        Json::Arr(vs) => {
            assert_eq!(vs.len(), 2);
            assert_eq!(integer(get(&vs[0], "id")), Some(1));
            assert!(matches!(get(&vs[1], "id"), Some(Json::Null)));
            assert_eq!(integer(get(get(&vs[1], "error").unwrap(), "code")), Some(-32600));
        }
        _ => panic!("expected an array"),
    }
}

#[test]
fn empty_batch_is_an_invalid_request() {
    let resp = single(decode_frame(Some(Json::Arr(vec![])))).unwrap_err();
    assert_eq!(error_code(&resp), INVALID_REQUEST);
}

#[test]
fn batch_of_notifications_sends_nothing() {
    assert!(encode_reply(true, Vec::new()).is_none());
    assert!(encode_reply(false, Vec::new()).is_none());
}

#[test]
fn error_messages_and_status_codes() {
    assert_eq!(McpError::ProjectNotFound("p".to_string()).status_code(), 404);
    assert_eq!(McpError::ComponentNotFound("c".to_string()).status_code(), 404);
    assert_eq!(McpError::InvalidRequest("bad".to_string()).status_code(), 400);
    assert_eq!(McpError::IoError("disk".to_string()).status_code(), 500);
    assert_eq!(McpError::TestError("t".to_string()).message(), "Test error: t");
    assert_eq!(McpError::ServerError("down".to_string()).code(), 1008);
}

fn settle(step: Step, outcome: Result<Json, Failure>) -> Settled {
    match step {
        Step::Reply(r) => Settled::Replied(r),
        Step::Invoke(_, rt) => Settled::Performed(rt, outcome),
        Step::Silent => Settled::Quiet,
    }
}

#[test]
fn batch_reply_answers_each_request_once_in_order() {
    let batch = Json::Arr(vec![
        request(s("first"), "component.get", Some(obj(vec![("id", s("counter"))]))),
        notification("test.run", None),
        request(Json::Int(2), "nonexistent.op", None),
        Json::Null,
        request(Json::Int(3), "component.get", Some(obj(vec![("id", s("card"))]))),
    ]);
    let items = match decode_frame(Some(batch)) {
        Frame::Batch(items) => items,
        Frame::Single(_) => panic!("expected a batch"),
    };
    let mut outcomes = vec![
        Ok(Json::Bool(true)),
        Err(Failure::Fault),
        Ok(Json::Null),
        Ok(Json::Null),
        Err(Failure::Domain(McpError::ComponentNotFound("card".to_string()))),
    ]
    .into_iter();
    let done: Vec<Settled> = items
        .into_iter()
        .map(|item| settle(plan(item), outcomes.next().unwrap()))
        .collect();
    let reply = answer_frame(true, done).unwrap();
    match reply {
        Json::Arr(vs) => {
            assert_eq!(vs.len(), 4);
            assert_eq!(text(get(&vs[0], "id")), Some("first"));
            assert!(matches!(get(&vs[0], "result"), Some(Json::Bool(true))));
            assert_eq!(integer(get(&vs[1], "id")), Some(2));
            assert_eq!(integer(get(get(&vs[1], "error").unwrap(), "code")), Some(-32601));
            assert!(matches!(get(&vs[2], "id"), Some(Json::Null)));
            assert_eq!(integer(get(get(&vs[2], "error").unwrap(), "code")), Some(-32600));
            assert_eq!(integer(get(&vs[3], "id")), Some(3));
            let err = get(&vs[3], "error").unwrap();
            assert_eq!(integer(get(err, "code")), Some(1001));
            assert_eq!(text(get(err, "message")), Some("Component not found: card"));
        }
        _ => panic!("expected an array"),
    }
}

#[test]
fn frame_of_only_notifications_gets_no_reply() {
    let batch = Json::Arr(vec![notification("build.compile", None), notification("nonexistent.op", None)]);
    let items = match decode_frame(Some(batch)) {
        Frame::Batch(items) => items,
        Frame::Single(_) => panic!("expected a batch"),
    };
    let done: Vec<Settled> = items.into_iter().map(|i| settle(plan(i), Ok(Json::Null))).collect();
    assert!(answer_frame(true, done).is_none());
    let single = single(decode_frame(Some(notification("test.run", None))));
    assert!(answer_frame(false, vec![settle(plan(single), Err(Failure::Fault))]).is_none());
}

#[test]
fn single_request_reply_is_one_response() {
    let call = single(decode_frame(Some(request(Json::Int(11), "project.info", None))));
    let reply = answer_frame(false, vec![settle(plan(call), Ok(s("ok")))]).unwrap();
    assert_eq!(integer(get(&reply, "id")), Some(11));
    assert_eq!(text(get(&reply, "result")), Some("ok"));
}

#[test]
fn sent_reply_to_malformed_text_is_a_parse_error() {
    let item = single(decode_frame(None));
    let reply = answer_frame(false, vec![settle(plan(item), Ok(Json::Null))]).unwrap();
    assert_eq!(text(get(&reply, "jsonrpc")), Some("2.0"));
    assert!(matches!(get(&reply, "id"), Some(Json::Null)));
    assert!(get(&reply, "result").is_none());
    assert_eq!(integer(get(get(&reply, "error").unwrap(), "code")), Some(-32700));
    let next = single(decode_frame(Some(request(Json::Int(2), "component.list", Some(obj(vec![]))))));
    let listing = obj(vec![("components", Json::Arr(vec![]))]);
    let reply = answer_frame(false, vec![settle(plan(next), Ok(listing))]).unwrap();
    assert_eq!(integer(get(&reply, "id")), Some(2));
    assert!(get(&reply, "error").is_none());
    assert!(matches!(get(get(&reply, "result").unwrap(), "components"), Some(Json::Arr(_))));
}
