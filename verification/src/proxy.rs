use vstd::prelude::*;
use crate::backend::{JanusBackendProvider, MemoryBackendProvider};
use crate::error::{
    JanusError, JANUS_ERROR_HANDLE_NOT_FOUND, JANUS_ERROR_INVALID_JSON,
    JANUS_ERROR_INVALID_REQUEST_PATH, JANUS_ERROR_MISSING_MANDATORY_ELEMENT,
    JANUS_ERROR_PLUGIN_MESSAGE, JANUS_ERROR_TRANSPORT_SPECIFIC, JANUS_ERROR_UNKNOWN_REQUEST,
};
use crate::ice::{spec_trickle_valid, JanusIceTrickle};
use crate::json::{lookup_field, obj_fields, str_eq, JsonValue};
use crate::plugin::{JanusPluginMessage, JanusPluginProvider, JanusPluginResultType};
use crate::request::{
    spec_envelope_malformed, AttachParameters, IncomingRequestParameters, TrickleParameters,
};
use crate::response::JanusResponse;
use crate::session::{JanusHandle, JanusSession};
use crate::state::{MemoryStateProvider, ProxyStateProvider, ID_POOL_LIMIT};
use crate::videoroom_state::{MemoryVideoRoomState, VideoRoomStateProvider};

verus! {

/// What the dispatcher asks of its caller for one decoded envelope: usually
/// a response to put on the client's egress queue; for an accepted trickle,
/// the validated candidates to forward upstream first.
#[derive(Debug, PartialEq)]
pub enum RequestOutcome {
    /// Send this response to the client.
    Reply(JanusResponse),
    /// Forward each candidate upstream, then answer with `trickle_reply`.
    TrickleForward { transaction: String, candidates: Vec<JanusIceTrickle> },
}

/// A response with nothing but the kind, the addressed session and the
/// echoed transaction.
pub open spec fn spec_simple_reply(
    o: RequestOutcome,
    janus: Seq<char>,
    sid: u64,
    txn: String,
) -> bool {
    &&& o matches RequestOutcome::Reply(resp) && resp.janus@ == janus && resp.transaction == txn
        && resp.session_id == sid && resp.error is None && resp.data is None && resp.plugindata
        is None && resp.jsep is None && resp.sender == 0
}

/// An error response carrying the given code.
pub open spec fn spec_error_reply(o: RequestOutcome, code: u32, sid: u64, txn: String) -> bool {
    &&& o matches RequestOutcome::Reply(resp) && resp.janus@ == "error"@ && resp.transaction == txn
        && resp.session_id == sid && (resp.error matches Some(e) && e.code == code) && resp.data
        is None && resp.plugindata is None && resp.jsep is None && resp.sender == 0
}

/// The id field a well-formed envelope carries under `key`: zero when the
/// field is absent.
pub open spec fn spec_env_id(v: JsonValue, key: Seq<char>) -> u64 {
    match lookup_field(obj_fields(v->Obj_0@), key) {
        Some(JsonValue::UInt(n)) => n,
        _ => 0,
    }
}

/// A payload field of a well-formed envelope: a JSON `null` reads as unset.
pub open spec fn spec_env_opt(v: JsonValue, key: Seq<char>) -> Option<JsonValue> {
    match lookup_field(obj_fields(v->Obj_0@), key) {
        None => None::<JsonValue>,
        Some(x) => if x is Null {
            None
        } else {
            Some(x)
        },
    }
}

/// The verb of a well-formed envelope.
pub open spec fn spec_env_verb(v: JsonValue) -> Seq<char> {
    lookup_field(obj_fields(v->Obj_0@), "janus"@)->Some_0->Str_0@
}

/// The signalling proxy: the shared membership store, the plugin registry,
/// the backend pool, and the videoroom plugin's shared room catalogue.
pub struct JanusProxy {
    pub state: MemoryStateProvider,
    pub plugins: JanusPluginProvider,
    pub backend: MemoryBackendProvider,
    pub rooms: MemoryVideoRoomState,
}

impl JanusProxy {
    /// The proxy's stores are usable.
    pub open spec fn wf(&self) -> bool {
        &&& self.state.wf()
        &&& self.backend.wf()
        &&& self.rooms.wf()
    }

    /// Every handle a session owns is also filed in the shared store.
    pub open spec fn linked(&self, session: JanusSession) -> bool {
        forall|i: int|
            0 <= i < session.handles@.len() ==> self.state.handles().contains(
                (#[trigger] session.handles@[i]).id,
            )
    }

    pub fn new(
        state_provider: MemoryStateProvider,
        plugin_provider: JanusPluginProvider,
        backend_provider: MemoryBackendProvider,
    ) -> (r: JanusProxy)
        requires
            state_provider.wf(),
            backend_provider.wf(),
        ensures
            r.wf(),
            r.state == state_provider,
            r.plugins == plugin_provider,
            r.backend == backend_provider,
            r.rooms.rooms() == Set::<u64>::empty(),
    {
        JanusProxy {
            state: state_provider,
            plugins: plugin_provider,
            backend: backend_provider,
            rooms: MemoryVideoRoomState::new(),
        }
    }
}

fn error_response(code: u32, reason: String, session_id: u64, transaction: String) -> (r:
    JanusResponse)
    ensures
        r.janus@ == "error"@,
        r.transaction == transaction,
        r.session_id == session_id,
        r.error matches Some(e) && e.code == code && e.reason == reason,
        r.data is None,
        r.plugindata is None,
        r.jsep is None,
        r.sender == 0,
{
    JanusResponse::new("error", session_id, transaction).with_err(
        JanusError::new(code, reason),
    )
}

impl JanusProxy {
    /// Routes one decoded client envelope, as the per-connection reader task
    /// asks: the request either produces an immediate response, or, for an
    /// accepted trickle, hands back the validated candidates to forward.
    /// Before `create`, only `ping`, `info` and `create` are served; after
    /// it, `create` is out of place, and a non-matching session id is
    /// rejected outright.
    #[verifier::rlimit(100)]
    pub fn handle_request(&mut self, session: &mut JanusSession, request: JsonValue) -> (r:
        RequestOutcome)
        requires
            old(self).wf(),
            old(session).wf(),
            old(self).linked(*old(session)),
            old(self).state.handles().len() < ID_POOL_LIMIT,
            old(self).rooms.rooms().len() < ID_POOL_LIMIT,
        ensures
            final(self).wf(),
            final(session).wf(),
            final(self).linked(*final(session)),
            final(session).id == old(session).id,
            final(self).state.sessions() == old(self).state.sessions(),
            spec_envelope_malformed(request) ==> (r matches RequestOutcome::Reply(resp)
                && resp.janus@ == "error"@ && resp.transaction@ == Seq::<char>::empty() && (
            resp.error matches Some(e) && (e.code == JANUS_ERROR_MISSING_MANDATORY_ELEMENT
                || e.code == crate::error::JANUS_ERROR_INVALID_JSON_OBJECT)) && *final(session)
                == *old(session) && final(self).state == old(self).state),
            !spec_envelope_malformed(request) ==> (lookup_field(
                obj_fields(request->Obj_0@),
                "transaction"@,
            ) matches Some(JsonValue::Str(txn)) ==> {
                let verb = spec_env_verb(request);
                let sid = spec_env_id(request, "session_id"@);
                let hid = spec_env_id(request, "handle_id"@);
                &&& !old(session).initialized ==> {
                    &&& verb == "ping"@ ==> spec_simple_reply(r, "pong"@, 0, txn) && *final(session) == *old(session)
                    &&& verb == "info"@ ==> (r matches RequestOutcome::Reply(resp) && resp.janus@
                        == "server_info"@ && resp.transaction == txn && (resp.data matches Some(d)
                        && d is Obj && obj_fields(d->Obj_0@).len() == 0)) && *final(session) == *old(session)
                    &&& verb == "create"@ ==> (*final(session) == (JanusSession {
                        initialized: true,
                        ..*old(session)
                    }) && (r matches RequestOutcome::Reply(resp) && resp.janus@ == "success"@
                        && resp.transaction == txn && resp.session_id == 0 && (resp.data matches
                    Some(d) && d is Obj && obj_fields(d->Obj_0@) == seq![
                        ("id"@, JsonValue::UInt(old(session).id)),
                    ])))
                    &&& (verb != "ping"@ && verb != "info"@ && verb != "create"@) ==> (
                    spec_error_reply(r, JANUS_ERROR_INVALID_REQUEST_PATH, sid, txn) && *final(session) == *old(session))
                }
                &&& old(session).initialized ==> {
                    &&& verb == "create"@ ==> spec_error_reply(
                        r,
                        JANUS_ERROR_INVALID_REQUEST_PATH,
                        sid,
                        txn,
                    ) && *final(session) == *old(session)
                    &&& (verb != "create"@ && sid != old(session).id) ==> spec_error_reply(
                        r,
                        JANUS_ERROR_TRANSPORT_SPECIFIC,
                        sid,
                        txn,
                    ) && *final(session) == *old(session)
                    &&& (verb != "create"@ && sid == old(session).id) ==> {
                        &&& verb == "keepalive"@ ==> spec_simple_reply(r, "ack"@, sid, txn)
                            && *final(session) == *old(session)
                        &&& verb == "claim"@ ==> spec_simple_reply(r, "success"@, sid, txn)
                            && *final(session) == *old(session)
                        &&& (verb != "keepalive"@ && verb != "claim"@ && hid == 0) ==> {
                            &&& verb == "attach"@ ==> {
                                let rfields = obj_fields(
                                    crate::request::spec_rest_pairs(request->Obj_0@),
                                );
                                &&& !(lookup_field(rfields, "plugin"@) matches Some(x) && x
                                    is Str && !(lookup_field(rfields, "opaque_id"@) matches Some(
                                    y,
                                ) && !(y is Str))) ==> (spec_error_reply(
                                    r,
                                    JANUS_ERROR_MISSING_MANDATORY_ELEMENT,
                                    sid,
                                    txn,
                                ) && *final(session) == *old(session) && final(self).state == old(
                                    self,
                                ).state)
                                &&& lookup_field(rfields, "plugin"@) matches Some(
                                    JsonValue::Str(name),
                                ) ==> ((!(old(self).plugins.names().contains(name@) && name@
                                    == crate::plugin::spec_videoroom_name()) && !(lookup_field(
                                    rfields,
                                    "opaque_id"@,
                                ) matches Some(y) && !(y is Str))) ==> (spec_error_reply(
                                    r,
                                    crate::error::JANUS_ERROR_PLUGIN_NOT_FOUND,
                                    sid,
                                    txn,
                                ) && *final(session) == *old(session) && final(self).state == old(
                                    self,
                                ).state))
                                &&& (lookup_field(rfields, "plugin"@) matches Some(
                                    JsonValue::Str(name),
                                ) && name@ == crate::plugin::spec_videoroom_name() && old(
                                    self,
                                ).plugins.names().contains(name@) && !(lookup_field(
                                    rfields,
                                    "opaque_id"@,
                                ) matches Some(y) && !(y is Str))) ==> exists|h: u64|
                                    {
                                        &&& #[trigger] final(self).state.handles() == old(
                                            self,
                                        ).state.handles().insert(h)
                                        &&& h != 0
                                        &&& !old(self).state.handles().contains(h)
                                        &&& final(session).handles@ == old(
                                            session,
                                        ).handles@.push(
                                            (JanusHandle {
                                                id: h,
                                                session_id: old(session).id,
                                                plugin: crate::videoroom::VideoRoomPlugin {
                                                    session: crate::videoroom::VideoRoomSession {
                                                        participant_type:
                                                            crate::videoroom::JANUS_VIDEOROOM_P_TYPE_NONE,
                                                    },
                                                },
                                                queue: final(session).handles@.last().queue,
                                            }),
                                        )
                                        &&& final(session).handles@.last().queue@ == Seq::<
                                            JanusPluginMessage,
                                        >::empty()
                                        &&& (r matches RequestOutcome::Reply(resp) && resp.janus@
                                            == "success"@ && resp.transaction == txn
                                            && resp.session_id == sid && (resp.data matches Some(
                                            d,
                                        ) && d is Obj && obj_fields(d->Obj_0@) == seq![
                                            ("id"@, JsonValue::UInt(h)),
                                        ]))
                                    }
                            }
                            &&& verb == "destroy"@ ==> (*final(session) == (JanusSession {
                                initialized: false,
                                ..*old(session)
                            }) && spec_simple_reply(r, "success"@, sid, txn))
                            &&& (verb == "detach"@ || verb == "hangup"@ || verb == "message"@
                                || verb == "trickle"@) ==> spec_error_reply(
                                r,
                                JANUS_ERROR_INVALID_REQUEST_PATH,
                                sid,
                                txn,
                            ) && *final(session) == *old(session)
                            &&& (verb != "attach"@ && verb != "destroy"@ && verb != "detach"@
                                && verb != "hangup"@ && verb != "message"@ && verb != "trickle"@)
                                ==> spec_error_reply(r, JANUS_ERROR_UNKNOWN_REQUEST, sid, txn)
                                && *final(session) == *old(session)
                        }
                        &&& (verb != "keepalive"@ && verb != "claim"@ && hid != 0 && (forall|
                            i: int,
                        |
                            0 <= i < old(session).handles@.len() ==> (
                            #[trigger] old(session).handles@[i]).id != hid)) ==> spec_error_reply(
                            r,
                            JANUS_ERROR_HANDLE_NOT_FOUND,
                            sid,
                            txn,
                        ) && *final(session) == *old(session)
                        &&& (verb != "keepalive"@ && verb != "claim"@ && hid != 0) ==> forall|
                            i: int,
                        |
                            (0 <= i < old(session).handles@.len() && (
                            #[trigger] old(session).handles@[i]).id == hid) ==> {
                                &&& verb == "detach"@ ==> (final(self).state.handles() == old(
                                    self,
                                ).state.handles().remove(hid) && final(session).handles@ == old(
                                    session,
                                ).handles@.remove(i) && spec_simple_reply(r, "success"@, sid, txn))
                                &&& verb == "hangup"@ ==> (spec_simple_reply(
                                    r,
                                    "success"@,
                                    sid,
                                    txn,
                                ) && *final(session) == *old(session) && final(self).state == old(
                                    self,
                                ).state)
                                &&& (verb == "attach"@ || verb == "destroy"@) ==> (
                                spec_error_reply(r, JANUS_ERROR_INVALID_REQUEST_PATH, sid, txn)
                                    && *final(session) == *old(session) && final(self).state
                                    == old(self).state)
                                &&& verb == "message"@ ==> {
                                    &&& final(self).state == old(self).state
                                    &&& spec_env_opt(request, "body"@) is None ==> (
                                    spec_error_reply(
                                        r,
                                        JANUS_ERROR_MISSING_MANDATORY_ELEMENT,
                                        sid,
                                        txn,
                                    ) && *final(session) == *old(session))
                                    &&& spec_env_opt(request, "body"@) matches Some(b) ==> {
                                        let deferred = crate::videoroom::spec_request_of(
                                            b,
                                        ) matches Some(x) && x matches JsonValue::Str(s)
                                            && crate::videoroom::spec_is_async_verb(s@);
                                        &&& deferred ==> (spec_simple_reply(
                                            r,
                                            "ack"@,
                                            old(session).id,
                                            txn,
                                        ) && final(session).handles@ == old(
                                            session,
                                        ).handles@.update(
                                            i,
                                            (JanusHandle {
                                                queue: final(session).handles@[i].queue,
                                                ..old(session).handles@[i]
                                            }),
                                        ) && final(session).handles@[i].queue@ == old(
                                            session,
                                        ).handles@[i].queue@.push(
                                            (JanusPluginMessage {
                                                transaction: txn,
                                                body: b,
                                                jsep: spec_env_opt(request, "jsep"@),
                                            }),
                                        ))
                                        &&& !deferred ==> ((r matches RequestOutcome::Reply(resp)
                                            && resp.janus@ == "success"@ && resp.transaction
                                            == txn && resp.session_id == old(session).id
                                            && resp.sender == hid && resp.error is None
                                            && resp.data is None && resp.jsep is None && (
                                        resp.plugindata matches Some(pd) && pd.plugin@
                                            == crate::plugin::spec_videoroom_name()
                                            && crate::videoroom::spec_sync_outcome(
                                            b,
                                            old(self).rooms.rooms(),
                                            old(self).rooms.room_params(),
                                            old(self).rooms.room_order(),
                                            final(self).rooms.rooms(),
                                            final(self).rooms.room_params(),
                                            final(self).rooms.room_order(),
                                            pd.data,
                                        ))) && final(session).handles@ =~= old(session).handles@)
                                    }
                                }
                                &&& verb == "trickle"@ ==> {
                                    let rfields = obj_fields(
                                        crate::request::spec_rest_pairs(request->Obj_0@),
                                    );
                                    &&& final(self).state == old(self).state
                                    &&& *final(session) == *old(session)
                                    &&& crate::request::spec_trickle_params_malformed(rfields)
                                        ==> spec_error_reply(
                                        r,
                                        JANUS_ERROR_MISSING_MANDATORY_ELEMENT,
                                        sid,
                                        txn,
                                    )
                                    &&& !crate::request::spec_trickle_params_malformed(rfields)
                                        ==> {
                                        let cand = lookup_field(rfields, "candidate"@);
                                        let cands = lookup_field(rfields, "candidates"@);
                                        &&& (cand is Some && cands is Some) ==> spec_error_reply(
                                            r,
                                            JANUS_ERROR_MISSING_MANDATORY_ELEMENT,
                                            sid,
                                            txn,
                                        )
                                        &&& (cand is None && cands is None) ==> spec_error_reply(
                                            r,
                                            JANUS_ERROR_INVALID_JSON,
                                            sid,
                                            txn,
                                        )
                                        &&& cand matches Some(cv) ==> (cands is None ==> {
                                            if crate::ice::spec_trickle_valid_json(cv) {
                                                r matches RequestOutcome::TrickleForward {
                                                    transaction: t,
                                                    candidates,
                                                } && t == txn && candidates@.len() == 1
                                                    && crate::ice::spec_trickle_parse_ok(
                                                    cv,
                                                    candidates@[0],
                                                )
                                            } else {
                                                spec_error_reply(
                                                    r,
                                                    JANUS_ERROR_MISSING_MANDATORY_ELEMENT,
                                                    sid,
                                                    txn,
                                                )
                                            }
                                        })
                                        &&& cands matches Some(av) ==> (cand is None ==> {
                                            if forall|k: int|
                                                0 <= k < av->Arr_0@.len()
                                                    ==> crate::ice::spec_trickle_valid_json(
                                                    #[trigger] av->Arr_0@[k],
                                                ) {
                                                r matches RequestOutcome::TrickleForward {
                                                    transaction: t,
                                                    candidates,
                                                } && t == txn && candidates@.len()
                                                    == av->Arr_0@.len() && forall|k: int|
                                                    0 <= k < candidates@.len()
                                                        ==> crate::ice::spec_trickle_parse_ok(
                                                        #[trigger] av->Arr_0@[k],
                                                        candidates@[k],
                                                    )
                                            } else {
                                                spec_error_reply(
                                                    r,
                                                    JANUS_ERROR_MISSING_MANDATORY_ELEMENT,
                                                    sid,
                                                    txn,
                                                )
                                            }
                                        })
                                    }
                                }
                                &&& (verb != "detach"@ && verb != "hangup"@ && verb != "attach"@
                                    && verb != "destroy"@ && verb != "message"@ && verb
                                    != "trickle"@) ==> (spec_error_reply(
                                    r,
                                    JANUS_ERROR_UNKNOWN_REQUEST,
                                    sid,
                                    txn,
                                ) && *final(session) == *old(session) && final(self).state == old(
                                    self,
                                ).state)
                            }
                    }
                }
            }),
    {
        let env = match IncomingRequestParameters::from_json(request) {
            Ok(env) => env,
            Err(e) => {
                return RequestOutcome::Reply(JanusResponse::bad_request(e));
            },
        };
        let IncomingRequestParameters {
            transaction,
            janus: message_text,
            session_id,
            handle_id,
            body,
            jsep,
            rest,
            ..
        } = env;
        proof {
            lemma_route_verbs_distinct();
        }

        if !session.initialized {
            if str_eq(message_text.as_str(), "ping") {
                return RequestOutcome::Reply(JanusResponse::new("pong", 0, transaction));
            }
            if str_eq(message_text.as_str(), "info") {
                let empty: Vec<(String, JsonValue)> = Vec::new();
                proof {
                    assert(obj_fields(empty@) =~= Seq::<(Seq<char>, JsonValue)>::empty());
                }
                return RequestOutcome::Reply(
                    JanusResponse::new("server_info", 0, transaction).with_data(
                        JsonValue::Obj(empty),
                    ),
                );
            }
            if str_eq(message_text.as_str(), "create") {
                session.initialized = true;
                let mut data: Vec<(String, JsonValue)> = Vec::new();
                data.push((String::from_str("id"), JsonValue::UInt(session.id)));
                proof {
                    assert(obj_fields(data@) =~= seq![("id"@, JsonValue::UInt(session.id))]);
                }
                return RequestOutcome::Reply(
                    JanusResponse::new("success", 0, transaction).with_data(JsonValue::Obj(data)),
                );
            }
            return RequestOutcome::Reply(
                error_response(
                    JANUS_ERROR_INVALID_REQUEST_PATH,
                    path_reason(message_text.as_str()),
                    session_id,
                    transaction,
                ),
            );
        }

        if str_eq(message_text.as_str(), "create") {
            return RequestOutcome::Reply(
                error_response(
                    JANUS_ERROR_INVALID_REQUEST_PATH,
                    path_reason(message_text.as_str()),
                    session_id,
                    transaction,
                ),
            );
        }
        if session.id != session_id {
            return RequestOutcome::Reply(
                error_response(
                    JANUS_ERROR_TRANSPORT_SPECIFIC,
                    String::from_str("Invalid session, support only one per websocket connection"),
                    session_id,
                    transaction,
                ),
            );
        }
        if str_eq(message_text.as_str(), "keepalive") {
            return RequestOutcome::Reply(JanusResponse::new("ack", session_id, transaction));
        }
        if str_eq(message_text.as_str(), "claim") {
            return RequestOutcome::Reply(JanusResponse::new("success", session_id, transaction));
        }

        if handle_id == 0 {
            self.handle_session_request(session, message_text, session_id, transaction, rest)
        } else {
            self.handle_handle_request(
                session,
                message_text,
                session_id,
                handle_id,
                transaction,
                body,
                jsep,
                rest,
            )
        }
    }
}

/// Builds `Unhandled request '<word>' at this path`.
fn path_reason(word: &str) -> (r: String)
    ensures
        r@ == "Unhandled request '"@ + word@ + "' at this path"@,
{
    let mut s = String::from_str("Unhandled request '");
    s.append(word);
    s.append("' at this path");
    proof {
        assert(s@ =~= "Unhandled request '"@ + word@ + "' at this path"@);
    }
    s
}

/// Builds `Unknown request '<word>'`.
fn unknown_reason(word: &str) -> (r: String)
    ensures
        r@ == "Unknown request '"@ + word@ + "'"@,
{
    let mut s = String::from_str("Unknown request '");
    s.append(word);
    s.append("'");
    proof {
        assert(s@ =~= "Unknown request '"@ + word@ + "'"@);
    }
    s
}

impl JanusProxy {
    /// Serves a session-level request (no handle addressed): `attach`
    /// registers a fresh handle with its own plugin instance, `destroy`
    /// resets the session, the handle-level verbs are out of place here, and
    /// anything else is unknown.
    pub fn handle_session_request(
        &mut self,
        session: &mut JanusSession,
        message_text: String,
        session_id: u64,
        transaction: String,
        rest: Vec<(String, JsonValue)>,
    ) -> (r: RequestOutcome)
        requires
            old(self).wf(),
            old(session).wf(),
            old(self).linked(*old(session)),
            old(self).state.handles().len() < ID_POOL_LIMIT,
        ensures
            final(self).wf(),
            final(session).wf(),
            final(self).linked(*final(session)),
            final(session).id == old(session).id,
            final(session).initialized == (old(session).initialized && message_text@
                != "destroy"@),
            final(self).state.sessions() == old(self).state.sessions(),
            final(self).rooms == old(self).rooms,
            message_text@ == "destroy"@ ==> (*final(session) == (JanusSession {
                initialized: false,
                ..*old(session)
            }) && spec_simple_reply(r, "success"@, session_id, transaction) && final(self).state
                == old(self).state),
            (message_text@ == "detach"@ || message_text@ == "hangup"@ || message_text@
                == "message"@ || message_text@ == "trickle"@) ==> (spec_error_reply(
                r,
                JANUS_ERROR_INVALID_REQUEST_PATH,
                session_id,
                transaction,
            ) && *final(session) == *old(session) && final(self).state == old(self).state),
            (message_text@ != "attach"@ && message_text@ != "destroy"@ && message_text@
                != "detach"@ && message_text@ != "hangup"@ && message_text@ != "message"@
                && message_text@ != "trickle"@) ==> (spec_error_reply(
                r,
                JANUS_ERROR_UNKNOWN_REQUEST,
                session_id,
                transaction,
            ) && *final(session) == *old(session) && final(self).state == old(self).state),
            message_text@ == "attach"@ ==> {
                let fields = obj_fields(rest@);
                &&& !(lookup_field(fields, "plugin"@) matches Some(x) && x is Str && !(
                lookup_field(fields, "opaque_id"@) matches Some(y) && !(y is Str))) ==> (
                spec_error_reply(r, JANUS_ERROR_MISSING_MANDATORY_ELEMENT, session_id, transaction)
                    && *final(session) == *old(session) && final(self).state == old(self).state)
                &&& lookup_field(fields, "plugin"@) matches Some(JsonValue::Str(name)) ==> ((!(
                old(self).plugins.names().contains(name@) && name@
                    == crate::plugin::spec_videoroom_name()) && !(lookup_field(
                    fields,
                    "opaque_id"@,
                ) matches Some(y) && !(y is Str))) ==> (spec_error_reply(
                    r,
                    crate::error::JANUS_ERROR_PLUGIN_NOT_FOUND,
                    session_id,
                    transaction,
                ) && *final(session) == *old(session) && final(self).state == old(self).state))
                &&& (lookup_field(fields, "plugin"@) matches Some(JsonValue::Str(name))
                    && name@ == crate::plugin::spec_videoroom_name() && old(self).plugins.names(
                ).contains(name@) && !(lookup_field(fields, "opaque_id"@) matches Some(y) && !(y
                    is Str))) ==> exists|h: u64|
                    {
                        &&& #[trigger] final(self).state.handles() == old(self).state.handles().insert(h)
                        &&& h != 0
                        &&& !old(self).state.handles().contains(h)
                        &&& final(session).handles@ == old(session).handles@.push(
                            (JanusHandle {
                                id: h,
                                session_id: old(session).id,
                                plugin: crate::videoroom::VideoRoomPlugin {
                                    session: crate::videoroom::VideoRoomSession {
                                        participant_type:
                                            crate::videoroom::JANUS_VIDEOROOM_P_TYPE_NONE,
                                    },
                                },
                                queue: final(session).handles@.last().queue,
                            }),
                        )
                        &&& final(session).handles@.last().queue@ == Seq::<
                            JanusPluginMessage,
                        >::empty()
                        &&& (r matches RequestOutcome::Reply(resp) && resp.janus@ == "success"@
                            && resp.transaction == transaction && resp.session_id == session_id
                            && (resp.data matches Some(d) && d is Obj && obj_fields(d->Obj_0@)
                            == seq![("id"@, JsonValue::UInt(h))]))
                    }
            },
    {
        proof {
            lemma_route_verbs_distinct();
        }
        if str_eq(message_text.as_str(), "attach") {
            let params = match AttachParameters::from_rest(&rest) {
                Ok(p) => p,
                Err(e) => {
                    return RequestOutcome::Reply(
                        error_response(e.code, e.reason, session_id, transaction),
                    );
                },
            };
            let plugin = match self.plugins.resolve(params.plugin) {
                Ok(p) => p,
                Err(e) => {
                    return RequestOutcome::Reply(
                        error_response(e.code, e.reason, session_id, transaction),
                    );
                },
            };
            let id = self.state.new_handle();
            let handle = JanusHandle::new(id, session.id, plugin);
            proof {
                assert(forall|i: int|
                    0 <= i < session.handles@.len() ==> (#[trigger] session.handles@[i]).id != id);
            }
            session.insert_handle(handle);
            let mut data: Vec<(String, JsonValue)> = Vec::new();
            data.push((String::from_str("id"), JsonValue::UInt(id)));
            proof {
                assert(obj_fields(data@) =~= seq![("id"@, JsonValue::UInt(id))]);
                assert(session.handles@.last().queue@ =~= Seq::<JanusPluginMessage>::empty());
            }
            RequestOutcome::Reply(
                JanusResponse::new("success", session_id, transaction).with_data(
                    JsonValue::Obj(data),
                ),
            )
        } else if str_eq(message_text.as_str(), "destroy") {
            session.initialized = false;
            RequestOutcome::Reply(JanusResponse::new("success", session_id, transaction))
        } else if str_eq(message_text.as_str(), "detach") || str_eq(
            message_text.as_str(),
            "hangup",
        ) || str_eq(message_text.as_str(), "message") || str_eq(message_text.as_str(), "trickle") {
            RequestOutcome::Reply(
                error_response(
                    JANUS_ERROR_INVALID_REQUEST_PATH,
                    path_reason(message_text.as_str()),
                    session_id,
                    transaction,
                ),
            )
        } else {
            RequestOutcome::Reply(
                error_response(
                    JANUS_ERROR_UNKNOWN_REQUEST,
                    unknown_reason(message_text.as_str()),
                    session_id,
                    transaction,
                ),
            )
        }
    }
}

impl JanusProxy {
    /// Serves a handle-level request. The handle must exist; `detach` drops
    /// it from the session and the shared store, `message` runs the plugin
    /// synchronously (deferring exactly the participant verbs, which answer
    /// `ack` and join the handle's queue), `trickle` validates and hands the
    /// candidates out for forwarding, and the rest are misplaced or unknown.
    #[verifier::rlimit(100)]
    pub fn handle_handle_request(
        &mut self,
        session: &mut JanusSession,
        message_text: String,
        session_id: u64,
        handle_id: u64,
        transaction: String,
        body: Option<JsonValue>,
        jsep: Option<JsonValue>,
        rest: Vec<(String, JsonValue)>,
    ) -> (r: RequestOutcome)
        requires
            old(self).wf(),
            old(session).wf(),
            old(self).linked(*old(session)),
            old(self).rooms.rooms().len() < ID_POOL_LIMIT,
        ensures
            final(self).wf(),
            final(session).wf(),
            final(self).linked(*final(session)),
            final(session).id == old(session).id,
            final(session).initialized == old(session).initialized,
            final(self).state.sessions() == old(self).state.sessions(),
            (forall|i: int|
                0 <= i < old(session).handles@.len() ==> (
                #[trigger] old(session).handles@[i]).id != handle_id) ==> (spec_error_reply(
                r,
                JANUS_ERROR_HANDLE_NOT_FOUND,
                session_id,
                transaction,
            ) && *final(session) == *old(session) && final(self).state == old(self).state
                && final(self).rooms == old(self).rooms),
            message_text@ != "message"@ ==> final(self).rooms == old(self).rooms,
            forall|i: int|
                (0 <= i < old(session).handles@.len() && (
                #[trigger] old(session).handles@[i]).id == handle_id) ==> {
                    &&& message_text@ == "detach"@ ==> (final(self).state.handles() == old(self).state.handles().remove(handle_id) && final(session).handles@ == old(session).handles@.remove(i) && spec_simple_reply(r, "success"@, session_id, transaction))
                    &&& message_text@ == "hangup"@ ==> (spec_simple_reply(
                        r,
                        "success"@,
                        session_id,
                        transaction,
                    ) && *final(session) == *old(session) && final(self).state == old(self).state)
                    &&& (message_text@ == "attach"@ || message_text@ == "destroy"@) ==> (
                    spec_error_reply(r, JANUS_ERROR_INVALID_REQUEST_PATH, session_id, transaction)
                        && *final(session) == *old(session) && final(self).state == old(self).state)
                    &&& message_text@ == "message"@ ==> {
                        &&& final(self).state == old(self).state
                        &&& body is None ==> (spec_error_reply(
                            r,
                            JANUS_ERROR_MISSING_MANDATORY_ELEMENT,
                            session_id,
                            transaction,
                        ) && *final(session) == *old(session))
                        &&& body matches Some(b) ==> {
                            let deferred = crate::videoroom::spec_request_of(b) matches Some(x)
                                && x matches JsonValue::Str(s)
                                && crate::videoroom::spec_is_async_verb(s@);
                            &&& deferred ==> (spec_simple_reply(
                                r,
                                "ack"@,
                                old(session).id,
                                transaction,
                            ) && final(session).handles@ == old(session).handles@.update(
                                i,
                                (JanusHandle {
                                    queue: final(session).handles@[i].queue,
                                    ..old(session).handles@[i]
                                }),
                            ) && final(session).handles@[i].queue@ == old(session).handles@[i].queue@.push(
                                (JanusPluginMessage { transaction, body: b, jsep }),
                            ) && final(self).rooms.rooms() == old(self).rooms.rooms() && final(self).rooms.room_params() == old(self).rooms.room_params() && final(self).rooms.room_order() == old(self).rooms.room_order())
                            &&& !deferred ==> ((r matches RequestOutcome::Reply(resp)
                                && resp.janus@ == "success"@ && resp.transaction == transaction
                                && resp.session_id == old(session).id && resp.sender == handle_id
                                && resp.error is None && resp.data is None && resp.jsep is None
                                && (resp.plugindata matches Some(pd) && pd.plugin@
                                == crate::plugin::spec_videoroom_name()
                                && crate::videoroom::spec_sync_outcome(
                                b,
                                old(self).rooms.rooms(),
                                old(self).rooms.room_params(),
                                old(self).rooms.room_order(),
                                final(self).rooms.rooms(),
                                final(self).rooms.room_params(),
                                final(self).rooms.room_order(),
                                pd.data,
                            ))) && final(session).handles@ =~= old(session).handles@)
                        }
                    }
                    &&& message_text@ == "trickle"@ ==> {
                        &&& final(self).state == old(self).state
                        &&& *final(session) == *old(session)
                        &&& crate::request::spec_trickle_params_malformed(obj_fields(rest@))
                            ==> spec_error_reply(
                            r,
                            JANUS_ERROR_MISSING_MANDATORY_ELEMENT,
                            session_id,
                            transaction,
                        )
                        &&& !crate::request::spec_trickle_params_malformed(obj_fields(rest@))
                            ==> {
                            let cand = lookup_field(obj_fields(rest@), "candidate"@);
                            let cands = lookup_field(obj_fields(rest@), "candidates"@);
                            &&& (cand is Some && cands is Some) ==> spec_error_reply(
                                r,
                                JANUS_ERROR_MISSING_MANDATORY_ELEMENT,
                                session_id,
                                transaction,
                            )
                            &&& (cand is None && cands is None) ==> spec_error_reply(
                                r,
                                JANUS_ERROR_INVALID_JSON,
                                session_id,
                                transaction,
                            )
                            &&& cand matches Some(cv) ==> (cands is None ==> {
                                if crate::ice::spec_trickle_valid_json(cv) {
                                    r matches RequestOutcome::TrickleForward {
                                        transaction: t,
                                        candidates,
                                    } && t == transaction && candidates@.len() == 1
                                        && crate::ice::spec_trickle_parse_ok(cv, candidates@[0])
                                } else {
                                    spec_error_reply(
                                        r,
                                        JANUS_ERROR_MISSING_MANDATORY_ELEMENT,
                                        session_id,
                                        transaction,
                                    )
                                }
                            })
                            &&& cands matches Some(av) ==> (cand is None ==> {
                                if forall|k: int|
                                    0 <= k < av->Arr_0@.len()
                                        ==> crate::ice::spec_trickle_valid_json(
                                        #[trigger] av->Arr_0@[k],
                                    ) {
                                    r matches RequestOutcome::TrickleForward {
                                        transaction: t,
                                        candidates,
                                    } && t == transaction && candidates@.len() == av->Arr_0@.len()
                                        && forall|k: int|
                                        0 <= k < candidates@.len()
                                            ==> crate::ice::spec_trickle_parse_ok(
                                            #[trigger] av->Arr_0@[k],
                                            candidates@[k],
                                        )
                                } else {
                                    spec_error_reply(
                                        r,
                                        JANUS_ERROR_MISSING_MANDATORY_ELEMENT,
                                        session_id,
                                        transaction,
                                    )
                                }
                            })
                        }
                    }
                    &&& (message_text@ != "detach"@ && message_text@ != "hangup"@
                        && message_text@ != "attach"@ && message_text@ != "destroy"@
                        && message_text@ != "message"@ && message_text@ != "trickle"@) ==> (
                    spec_error_reply(r, JANUS_ERROR_UNKNOWN_REQUEST, session_id, transaction)
                        && *final(session) == *old(session) && final(self).state == old(self).state)
                },
    {
        proof {
            lemma_route_verbs_distinct();
        }
        let idx = match session.find_handle(handle_id) {
            Some(i) => i,
            None => {
                return RequestOutcome::Reply(
                    error_response(
                        JANUS_ERROR_HANDLE_NOT_FOUND,
                        String::from_str("No such handle in session"),
                        session_id,
                        transaction,
                    ),
                );
            },
        };
        proof {
            assert(old(session).handles@[idx as int].id == handle_id);
        }

        if str_eq(message_text.as_str(), "detach") {
            self.state.remove_handle(&handle_id);
            session.remove_handle(idx);
            RequestOutcome::Reply(JanusResponse::new("success", session_id, transaction))
        } else if str_eq(message_text.as_str(), "message") {
            let b = match body {
                Some(b) => b,
                None => {
                    return RequestOutcome::Reply(
                        error_response(
                            JANUS_ERROR_MISSING_MANDATORY_ELEMENT,
                            String::from_str("missing 'body'"),
                            session_id,
                            transaction,
                        ),
                    );
                },
            };
            let mut handle = session.handles.remove(idx);
            let msg = JanusPluginMessage::new(transaction.clone(), b, jsep);
            let (result, queued) = handle.plugin.handle_message(&mut self.rooms, msg);
            let outcome = match result.kind {
                JanusPluginResultType::JANUS_PLUGIN_OK => {
                    let content = match result.content {
                        Some(c) => c,
                        None => {
                            // The plugin contract rules this out.
                            JsonValue::Null
                        },
                    };
                    RequestOutcome::Reply(
                        JanusResponse::new("success", session.id, transaction).with_plugindata(
                            handle.id,
                            String::from_str("janus.plugin.videoroom"),
                            content,
                            result.jsep,
                        ),
                    )
                },
                JanusPluginResultType::JANUS_PLUGIN_OK_WAIT => {
                    match queued {
                        Some(m) => {
                            handle.queue_push(m);
                        },
                        None => {},
                    }
                    RequestOutcome::Reply(JanusResponse::new("ack", session.id, transaction))
                },
                JanusPluginResultType::JANUS_PLUGIN_ERROR => {
                    let text = match result.text {
                        Some(t) => t,
                        None => String::from_str("Plugin returned a severe (unknown) error"),
                    };
                    RequestOutcome::Reply(
                        error_response(
                            JANUS_ERROR_PLUGIN_MESSAGE,
                            text,
                            session_id,
                            transaction,
                        ),
                    )
                },
            };
            session.handles.insert(idx, handle);
            proof {
                assert(session.handles@ =~= old(session).handles@.update(
                    idx as int,
                    session.handles@[idx as int],
                ));
            }
            outcome
        } else if str_eq(message_text.as_str(), "hangup") {
            RequestOutcome::Reply(JanusResponse::new("success", session_id, transaction))
        } else if str_eq(message_text.as_str(), "trickle") {
            let params = match TrickleParameters::from_rest(&rest) {
                Ok(p) => p,
                Err(e) => {
                    return RequestOutcome::Reply(
                        error_response(e.code, e.reason, session_id, transaction),
                    );
                },
            };
            match (params.candidate, params.candidates) {
                (Some(_), Some(_)) => RequestOutcome::Reply(
                    error_response(
                        JANUS_ERROR_MISSING_MANDATORY_ELEMENT,
                        String::from_str("Missing mandatory element (candidate|candidates)"),
                        session_id,
                        transaction,
                    ),
                ),
                (None, None) => RequestOutcome::Reply(
                    error_response(
                        JANUS_ERROR_INVALID_JSON,
                        String::from_str("Can't have both candidate and candidates"),
                        session_id,
                        transaction,
                    ),
                ),
                (Some(c), None) => match c.validate() {
                    Ok(_) => {
                        proof {
                            let cv = lookup_field(obj_fields(rest@), "candidate"@).unwrap();
                            assert(crate::ice::spec_trickle_valid_json(cv));
                        }
                        let mut candidates: Vec<JanusIceTrickle> = Vec::new();
                        candidates.push(c);
                        RequestOutcome::TrickleForward { transaction, candidates }
                    },
                    Err(e) => RequestOutcome::Reply(
                        error_response(e.code, e.reason, session_id, transaction),
                    ),
                },
                (None, Some(cs)) => {
                    let mut bad: Option<JanusError> = None;
                    let mut k: usize = 0;
                    while k < cs.len()
                        invariant
                            0 <= k <= cs@.len(),
                            match bad {
                                None => forall|j: int|
                                    0 <= j < k ==> spec_trickle_valid(#[trigger] cs@[j]),
                                Some(e) => e.code == JANUS_ERROR_MISSING_MANDATORY_ELEMENT
                                    && exists|j: int|
                                    0 <= j < k && !spec_trickle_valid(#[trigger] cs@[j]),
                            },
                        decreases cs.len() - k,
                    {
                        if bad.is_none() {
                            match cs[k].validate() {
                                Ok(_) => {},
                                Err(e) => {
                                    proof {
                                        assert(!spec_trickle_valid(cs@[k as int]));
                                    }
                                    bad = Some(e);
                                },
                            }
                        }
                        k = k + 1;
                    }
                    proof {
                        let av = lookup_field(obj_fields(rest@), "candidates"@).unwrap();
                        match &bad {
                            None => {
                                assert forall|j: int|
                                    0 <= j < av->Arr_0@.len()
                                        implies crate::ice::spec_trickle_valid_json(
                                    #[trigger] av->Arr_0@[j],
                                ) by {
                                    assert(crate::ice::spec_trickle_parse_ok(
                                        av->Arr_0@[j],
                                        cs@[j],
                                    ));
                                    assert(spec_trickle_valid(cs@[j]));
                                }
                            },
                            Some(_) => {
                                let j = choose|j: int|
                                    0 <= j < cs@.len() && !spec_trickle_valid(#[trigger] cs@[j]);
                                assert(crate::ice::spec_trickle_parse_ok(av->Arr_0@[j], cs@[j]));
                                assert(!crate::ice::spec_trickle_valid_json(av->Arr_0@[j]));
                            },
                        }
                    }
                    match bad {
                        Some(e) => RequestOutcome::Reply(
                            error_response(e.code, e.reason, session_id, transaction),
                        ),
                        None => RequestOutcome::TrickleForward { transaction, candidates: cs },
                    }
                },
            }
        } else if str_eq(message_text.as_str(), "attach") || str_eq(
            message_text.as_str(),
            "destroy",
        ) {
            RequestOutcome::Reply(
                error_response(
                    JANUS_ERROR_INVALID_REQUEST_PATH,
                    path_reason(message_text.as_str()),
                    session_id,
                    transaction,
                ),
            )
        } else {
            RequestOutcome::Reply(
                error_response(
                    JANUS_ERROR_UNKNOWN_REQUEST,
                    unknown_reason(message_text.as_str()),
                    session_id,
                    transaction,
                ),
            )
        }
    }

    /// The answer after the trickle candidates were forwarded: a plain `ack`
    /// when every forward went through, else the gateway error.
    pub fn trickle_reply(session_id: u64, transaction: String, forward_error: Option<JanusError>)
        -> (r: JanusResponse)
        ensures
            match forward_error {
                None => r.janus@ == "ack"@ && r.transaction == transaction && r.session_id
                    == session_id && r.error is None,
                Some(e) => r.janus@ == "error"@ && r.transaction == transaction && r.session_id
                    == session_id && r.error == Some(e),
            },
    {
        match forward_error {
            None => JanusResponse::new("ack", session_id, transaction),
            Some(e) => JanusResponse::new("error", session_id, transaction).with_err(e),
        }
    }
}

/// The verbs the dispatcher routes on are pairwise distinct words.
proof fn lemma_route_verbs_distinct()
    ensures
        "ping"@ != "info"@,
        "ping"@ != "create"@,
        "ping"@ != "keepalive"@,
        "ping"@ != "claim"@,
        "ping"@ != "attach"@,
        "ping"@ != "destroy"@,
        "ping"@ != "detach"@,
        "ping"@ != "hangup"@,
        "ping"@ != "message"@,
        "ping"@ != "trickle"@,
        "info"@ != "create"@,
        "info"@ != "keepalive"@,
        "info"@ != "claim"@,
        "info"@ != "attach"@,
        "info"@ != "destroy"@,
        "info"@ != "detach"@,
        "info"@ != "hangup"@,
        "info"@ != "message"@,
        "info"@ != "trickle"@,
        "create"@ != "keepalive"@,
        "create"@ != "claim"@,
        "create"@ != "attach"@,
        "create"@ != "destroy"@,
        "create"@ != "detach"@,
        "create"@ != "hangup"@,
        "create"@ != "message"@,
        "create"@ != "trickle"@,
        "keepalive"@ != "claim"@,
        "keepalive"@ != "attach"@,
        "keepalive"@ != "destroy"@,
        "keepalive"@ != "detach"@,
        "keepalive"@ != "hangup"@,
        "keepalive"@ != "message"@,
        "keepalive"@ != "trickle"@,
        "claim"@ != "attach"@,
        "claim"@ != "destroy"@,
        "claim"@ != "detach"@,
        "claim"@ != "hangup"@,
        "claim"@ != "message"@,
        "claim"@ != "trickle"@,
        "attach"@ != "destroy"@,
        "attach"@ != "detach"@,
        "attach"@ != "hangup"@,
        "attach"@ != "message"@,
        "attach"@ != "trickle"@,
        "destroy"@ != "detach"@,
        "destroy"@ != "hangup"@,
        "destroy"@ != "message"@,
        "destroy"@ != "trickle"@,
        "detach"@ != "hangup"@,
        "detach"@ != "message"@,
        "detach"@ != "trickle"@,
        "hangup"@ != "message"@,
        "hangup"@ != "trickle"@,
        "message"@ != "trickle"@,
{
    reveal_strlit("ping");
    reveal_strlit("info");
    reveal_strlit("create");
    reveal_strlit("keepalive");
    reveal_strlit("claim");
    reveal_strlit("attach");
    reveal_strlit("destroy");
    reveal_strlit("detach");
    reveal_strlit("hangup");
    reveal_strlit("message");
    reveal_strlit("trickle");
    assert("ping"@.len() == 4);
    assert("info"@.len() == 4);
    assert("create"@.len() == 6);
    assert("keepalive"@.len() == 9);
    assert("claim"@.len() == 5);
    assert("attach"@.len() == 6);
    assert("destroy"@.len() == 7);
    assert("detach"@.len() == 6);
    assert("hangup"@.len() == 6);
    assert("message"@.len() == 7);
    assert("trickle"@.len() == 7);
    assert("ping"@[0] == 'p');
    assert("info"@[0] == 'i');
    assert("create"@[0] == 'c');
    assert("attach"@[0] == 'a');
    assert("detach"@[0] == 'd');
    assert("hangup"@[0] == 'h');
    assert("destroy"@[0] == 'd');
    assert("message"@[0] == 'm');
    assert("trickle"@[0] == 't');
    assert("destroy"@[1] == 'e');
    assert("detach"@[1] == 'e');
    assert("destroy"@[2] == 's');
    assert("detach"@[2] == 't');
}

} // verus!
