use janus_proxy::backend::MemoryBackendProvider;
use janus_proxy::gateway::{FrameDisposition, JanusGateway, SendOutcome};
use janus_proxy::json::{obj_get, JsonValue};
use janus_proxy::plugin::JanusPluginProvider;
use janus_proxy::proxy::{JanusProxy, RequestOutcome};
use janus_proxy::response::JanusResponse;
use janus_proxy::session::JanusSession;
use janus_proxy::state::{MemoryStateProvider, ProxyStateProvider};
use janus_proxy::videoroom::{forward_outcome, videoroom_check, AsyncAction};
use janus_proxy::videoroom_state::VideoRoomStateProvider;

fn obj(pairs: Vec<(&str, JsonValue)>) -> JsonValue {
    let mut out: Vec<(String, JsonValue)> = Vec::new();
    for (k, v) in pairs {
        out.push((k.to_string(), v));
    }
    JsonValue::Obj(out)
}

fn s(text: &str) -> JsonValue {
    JsonValue::Str(text.to_string())
}

fn new_proxy() -> (JanusProxy, JanusSession) {
    let mut state = MemoryStateProvider::new();
    let sid = state.new_session();
    let proxy = JanusProxy::new(state, JanusPluginProvider::default(), MemoryBackendProvider::new());
    let session = JanusSession::new(sid);
    (proxy, session)
}

fn reply(outcome: RequestOutcome) -> JanusResponse {
    match outcome {
        RequestOutcome::Reply(r) => r,
        RequestOutcome::TrickleForward { .. } => panic!("expected a reply"),
    }
}

fn error_code(r: &JanusResponse) -> u32 {
    r.error.as_ref().unwrap().code
}

fn data_u64(v: &JsonValue, key: &str) -> u64 {
    match v {
        JsonValue::Obj(pairs) => match obj_get(pairs, key) {
            Some(JsonValue::UInt(n)) => *n,
            _ => panic!("expected an integer field"),
        },
        _ => panic!("expected an object"),
    }
}

#[test]
fn ping_yields_pong() {
    let (mut proxy, mut session) = new_proxy();
    let req = obj(vec![("janus", s("ping")), ("transaction", s("t1"))]);
    let resp = reply(proxy.handle_request(&mut session, req));
    assert_eq!(resp.janus.as_str(), "pong");
    assert_eq!(resp.transaction.as_str(), "t1");
    assert_eq!(resp.session_id, 0);
    assert!(resp.error.is_none());
}

#[test]
fn create_initializes_then_rejects_a_second_create() {
    let (mut proxy, mut session) = new_proxy();
    let req = obj(vec![("janus", s("create")), ("transaction", s("t2"))]);
    let resp = reply(proxy.handle_request(&mut session, req));
    assert_eq!(resp.janus.as_str(), "success");
    assert_eq!(resp.transaction.as_str(), "t2");
    let id = data_u64(resp.data.as_ref().unwrap(), "id");
    assert_eq!(id, session.id);
    assert!(id != 0);
    assert!(session.initialized);

    let again = obj(vec![("janus", s("create")), ("transaction", s("t2b"))]);
    let resp = reply(proxy.handle_request(&mut session, again));
    assert_eq!(resp.janus.as_str(), "error");
    assert_eq!(error_code(&resp), 457);
}

#[test]
fn mismatched_session_id_is_rejected() {
    let (mut proxy, mut session) = new_proxy();
    let req = obj(vec![("janus", s("create")), ("transaction", s("t"))]);
    reply(proxy.handle_request(&mut session, req));
    let req = obj(vec![
        ("janus", s("keepalive")),
        ("transaction", s("t")),
        ("session_id", JsonValue::UInt(session.id + 1)),
    ]);
    let resp = reply(proxy.handle_request(&mut session, req));
    assert_eq!(error_code(&resp), 450);
}

#[test]
fn malformed_envelope_is_a_bad_request() {
    let (mut proxy, mut session) = new_proxy();
    let resp = reply(proxy.handle_request(&mut session, JsonValue::UInt(9)));
    assert_eq!(resp.janus.as_str(), "error");
    assert_eq!(resp.transaction.as_str(), "");
    assert_eq!(error_code(&resp), 456);
}

fn created_session(proxy: &mut JanusProxy, session: &mut JanusSession) {
    let req = obj(vec![("janus", s("create")), ("transaction", s("t-init"))]);
    let resp = reply(proxy.handle_request(session, req));
    assert_eq!(resp.janus.as_str(), "success");
}

fn attached_handle(proxy: &mut JanusProxy, session: &mut JanusSession) -> u64 {
    let req = obj(vec![
        ("janus", s("attach")),
        ("transaction", s("t3")),
        ("session_id", JsonValue::UInt(session.id)),
        ("plugin", s("janus.plugin.videoroom")),
    ]);
    let resp = reply(proxy.handle_request(session, req));
    assert_eq!(resp.janus.as_str(), "success");
    data_u64(resp.data.as_ref().unwrap(), "id")
}

#[test]
fn attach_then_list_answers_synchronously() {
    let (mut proxy, mut session) = new_proxy();
    created_session(&mut proxy, &mut session);
    let handle = attached_handle(&mut proxy, &mut session);
    assert!(handle != 0);

    let req = obj(vec![
        ("janus", s("message")),
        ("transaction", s("t4")),
        ("session_id", JsonValue::UInt(session.id)),
        ("handle_id", JsonValue::UInt(handle)),
        ("body", obj(vec![("request", s("list"))])),
    ]);
    let resp = reply(proxy.handle_request(&mut session, req));
    assert_eq!(resp.janus.as_str(), "success");
    assert_eq!(resp.session_id, session.id);
    assert_eq!(resp.sender, handle);
    assert_eq!(resp.transaction.as_str(), "t4");
    let pd = resp.plugindata.as_ref().unwrap();
    assert_eq!(pd.plugin.as_str(), "janus.plugin.videoroom");
    assert_eq!(
        pd.data,
        obj(vec![("videoroom", s("success")), ("list", JsonValue::Arr(Vec::new()))])
    );
}

#[test]
fn attach_unknown_plugin_is_not_found() {
    let (mut proxy, mut session) = new_proxy();
    created_session(&mut proxy, &mut session);
    let req = obj(vec![
        ("janus", s("attach")),
        ("transaction", s("t3")),
        ("session_id", JsonValue::UInt(session.id)),
        ("plugin", s("janus.plugin.echotest")),
    ]);
    let resp = reply(proxy.handle_request(&mut session, req));
    assert_eq!(error_code(&resp), 460);
}

#[test]
fn create_room_then_publisher_join_defers_and_succeeds() {
    let (mut proxy, mut session) = new_proxy();
    created_session(&mut proxy, &mut session);
    let handle = attached_handle(&mut proxy, &mut session);

    // Synchronous room creation.
    let req = obj(vec![
        ("janus", s("message")),
        ("transaction", s("t5")),
        ("session_id", JsonValue::UInt(session.id)),
        ("handle_id", JsonValue::UInt(handle)),
        ("body", obj(vec![("request", s("create"))])),
    ]);
    let resp = reply(proxy.handle_request(&mut session, req));
    assert_eq!(resp.janus.as_str(), "success");
    let pd = resp.plugindata.as_ref().unwrap();
    let room = data_u64(&pd.data, "room");
    assert!(room != 0);
    match &pd.data {
        JsonValue::Obj(pairs) => {
            assert_eq!(obj_get(pairs, "videoroom"), Some(&s("created")));
            assert_eq!(obj_get(pairs, "permanent"), Some(&JsonValue::Bool(false)));
        },
        _ => panic!("expected an object"),
    }

    // The join defers: an immediate ack, and the message joins the queue.
    let req = obj(vec![
        ("janus", s("message")),
        ("transaction", s("t6")),
        ("session_id", JsonValue::UInt(session.id)),
        ("handle_id", JsonValue::UInt(handle)),
        (
            "body",
            obj(vec![
                ("request", s("join")),
                ("room", JsonValue::UInt(room)),
                ("ptype", s("publisher")),
            ]),
        ),
    ]);
    let resp = reply(proxy.handle_request(&mut session, req));
    assert_eq!(resp.janus.as_str(), "ack");
    assert_eq!(session.handles[0].queue.len(), 1);

    // The worker drains the queue and decides: create the room upstream,
    // then forward the join.
    let msg = session.handles[0].take_next().unwrap();
    assert_eq!(msg.transaction.as_str(), "t6");
    let action = session.handles[0].plugin.decide_async(&proxy.rooms, msg);
    let (create_body, join_body) = match action {
        AsyncAction::PublisherJoin { create_body, join_body } => (create_body, join_body),
        other => panic!("expected a publisher join, got {:?}", other),
    };
    assert_eq!(data_u64(&create_body, "room"), room);
    assert_eq!(data_u64(&join_body, "room"), room);

    // A faked gateway accepts both forwards; the handle becomes a publisher
    // and the upstream answer becomes the event.
    let upstream = obj(vec![("videoroom", s("joined")), ("room", JsonValue::UInt(room))]);
    assert!(videoroom_check(&upstream).is_ok());
    let result = session.handles[0].plugin.finish_join(true, upstream, None);
    let content = result.content.unwrap();
    assert_eq!(data_u64(&content, "room"), room);

    // A second join on the same handle is refused.
    let second = janus_proxy::plugin::JanusPluginMessage::new(
        "t7".to_string(),
        obj(vec![
            ("request", s("join")),
            ("room", JsonValue::UInt(room)),
            ("ptype", s("publisher")),
        ]),
        None,
    );
    match session.handles[0].plugin.decide_async(&proxy.rooms, second) {
        AsyncAction::Fail(e) => assert_eq!(e.error_code, 425),
        other => panic!("expected a failure, got {:?}", other),
    }
}

#[test]
fn gateway_timeout_surfaces_as_a_plugin_error_event() {
    let mut link = JanusGateway::new();
    link.begin_send("t-join".to_string(), true);
    let err = link
        .finish_send(&"t-join".to_string(), SendOutcome::TimedOut)
        .unwrap_err();
    assert_eq!(err.code, 500);
    assert_eq!(err.reason.as_str(), "Request to janus-gateway backend timed out");

    let result = forward_outcome(Err(err));
    let content = result.content.unwrap();
    match &content {
        JsonValue::Obj(pairs) => {
            assert_eq!(obj_get(pairs, "videoroom"), Some(&s("event")));
            assert_eq!(obj_get(pairs, "error_code"), Some(&JsonValue::UInt(500)));
            assert_eq!(
                obj_get(pairs, "error"),
                Some(&s("Request to janus-gateway backend timed out"))
            );
        },
        _ => panic!("expected an error event"),
    }
}

#[test]
fn ack_frames_for_async_requests_are_swallowed() {
    let mut link = JanusGateway::new();
    link.begin_send("t1".to_string(), true);

    let ack = JanusResponse::new("ack", 0, "t1".to_string());
    assert_eq!(link.on_frame(&ack), FrameDisposition::KeepPending);

    let event = JanusResponse::new("event", 0, "t1".to_string());
    assert_eq!(link.on_frame(&event), FrameDisposition::Deliver);

    // The transaction left the table with the delivery.
    let late = JanusResponse::new("event", 0, "t1".to_string());
    assert_eq!(link.on_frame(&late), FrameDisposition::Unsolicited);
}

#[test]
fn sync_requests_deliver_their_ack() {
    let mut link = JanusGateway::new();
    link.begin_send("t2".to_string(), false);
    let ack = JanusResponse::new("ack", 0, "t2".to_string());
    assert_eq!(link.on_frame(&ack), FrameDisposition::Deliver);
}

#[test]
fn finished_sends_leave_no_pending_transaction() {
    let mut link = JanusGateway::new();
    link.begin_send("t3".to_string(), false);
    let resp = JanusResponse::new("success", 0, "t3".to_string());
    let out = link
        .finish_send(&"t3".to_string(), SendOutcome::Delivered(resp))
        .unwrap();
    assert_eq!(out.janus.as_str(), "success");
    // Nothing waits under the transaction any more.
    let echo = JanusResponse::new("success", 0, "t3".to_string());
    assert_eq!(link.on_frame(&echo), FrameDisposition::Unsolicited);

    link.begin_send("t4".to_string(), false);
    let err = link
        .finish_send(&"t4".to_string(), SendOutcome::QueueClosed)
        .unwrap_err();
    assert_eq!(err.code, 503);
    let echo = JanusResponse::new("success", 0, "t4".to_string());
    assert_eq!(link.on_frame(&echo), FrameDisposition::Unsolicited);
}

#[test]
fn trickle_accepts_a_done_marker_and_rejects_a_bare_mid() {
    let (mut proxy, mut session) = new_proxy();
    created_session(&mut proxy, &mut session);
    let handle = attached_handle(&mut proxy, &mut session);

    let req = obj(vec![
        ("janus", s("trickle")),
        ("transaction", s("t5")),
        ("session_id", JsonValue::UInt(session.id)),
        ("handle_id", JsonValue::UInt(handle)),
        ("candidate", obj(vec![("completed", JsonValue::Bool(true))])),
    ]);
    match proxy.handle_request(&mut session, req) {
        RequestOutcome::TrickleForward { transaction, candidates } => {
            assert_eq!(transaction.as_str(), "t5");
            assert_eq!(candidates.len(), 1);
            assert_eq!(candidates[0].completed, Some(true));
            let done = JanusProxy::trickle_reply(session.id, transaction, None);
            assert_eq!(done.janus.as_str(), "ack");
        },
        RequestOutcome::Reply(r) => panic!("expected a forward, got {:?}", r),
    }

    let req = obj(vec![
        ("janus", s("trickle")),
        ("transaction", s("t5b")),
        ("session_id", JsonValue::UInt(session.id)),
        ("handle_id", JsonValue::UInt(handle)),
        ("candidate", obj(vec![("sdpMid", s("0"))])),
    ]);
    let resp = reply(proxy.handle_request(&mut session, req));
    assert_eq!(error_code(&resp), 456);
}

#[test]
fn trickle_rejects_both_and_neither() {
    let (mut proxy, mut session) = new_proxy();
    created_session(&mut proxy, &mut session);
    let handle = attached_handle(&mut proxy, &mut session);

    let both = obj(vec![
        ("janus", s("trickle")),
        ("transaction", s("t")),
        ("session_id", JsonValue::UInt(session.id)),
        ("handle_id", JsonValue::UInt(handle)),
        ("candidate", obj(vec![("completed", JsonValue::Bool(true))])),
        ("candidates", JsonValue::Arr(vec![obj(vec![("completed", JsonValue::Bool(true))])])),
    ]);
    let resp = reply(proxy.handle_request(&mut session, both));
    assert_eq!(error_code(&resp), 456);

    let neither = obj(vec![
        ("janus", s("trickle")),
        ("transaction", s("t")),
        ("session_id", JsonValue::UInt(session.id)),
        ("handle_id", JsonValue::UInt(handle)),
    ]);
    let resp = reply(proxy.handle_request(&mut session, neither));
    assert_eq!(error_code(&resp), 454);
}

#[test]
fn detach_removes_the_handle_everywhere() {
    let (mut proxy, mut session) = new_proxy();
    created_session(&mut proxy, &mut session);
    let handle = attached_handle(&mut proxy, &mut session);
    assert!(proxy.state.has_handle(&handle));

    let req = obj(vec![
        ("janus", s("detach")),
        ("transaction", s("t")),
        ("session_id", JsonValue::UInt(session.id)),
        ("handle_id", JsonValue::UInt(handle)),
    ]);
    let resp = reply(proxy.handle_request(&mut session, req));
    assert_eq!(resp.janus.as_str(), "success");
    assert!(!proxy.state.has_handle(&handle));
    assert_eq!(session.handles.len(), 0);

    // The handle is gone: a second detach no longer finds it.
    let req = obj(vec![
        ("janus", s("detach")),
        ("transaction", s("t")),
        ("session_id", JsonValue::UInt(session.id)),
        ("handle_id", JsonValue::UInt(handle)),
    ]);
    let resp = reply(proxy.handle_request(&mut session, req));
    assert_eq!(error_code(&resp), 459);
}

#[test]
fn destroy_resets_initialization() {
    let (mut proxy, mut session) = new_proxy();
    created_session(&mut proxy, &mut session);
    let req = obj(vec![
        ("janus", s("destroy")),
        ("transaction", s("t")),
        ("session_id", JsonValue::UInt(session.id)),
    ]);
    let resp = reply(proxy.handle_request(&mut session, req));
    assert_eq!(resp.janus.as_str(), "success");
    assert!(!session.initialized);
}

#[test]
fn uninitialized_sessions_only_serve_the_opening_verbs() {
    let (mut proxy, mut session) = new_proxy();
    let req = obj(vec![("janus", s("attach")), ("transaction", s("t"))]);
    let resp = reply(proxy.handle_request(&mut session, req));
    assert_eq!(error_code(&resp), 457);
}

#[test]
fn handle_queue_is_first_in_first_out() {
    let (mut proxy, mut session) = new_proxy();
    created_session(&mut proxy, &mut session);
    let handle = attached_handle(&mut proxy, &mut session);
    for t in ["q1", "q2", "q3"] {
        let req = obj(vec![
            ("janus", s("message")),
            ("transaction", s(t)),
            ("session_id", JsonValue::UInt(session.id)),
            ("handle_id", JsonValue::UInt(handle)),
            ("body", obj(vec![("request", s("configure"))])),
        ]);
        let resp = reply(proxy.handle_request(&mut session, req));
        assert_eq!(resp.janus.as_str(), "ack");
    }
    let h = &mut session.handles[0];
    assert_eq!(h.take_next().unwrap().transaction.as_str(), "q1");
    assert_eq!(h.take_next().unwrap().transaction.as_str(), "q2");
    assert_eq!(h.take_next().unwrap().transaction.as_str(), "q3");
    assert!(h.take_next().is_none());
}
