use vstd::prelude::*;
use crate::backend::JanusBackendProvider;
use crate::error::{
    JanusError, JANUS_ERROR_GATEWAY_INTERNAL_ERROR, JANUS_ERROR_GATEWAY_UNAVAILABLE,
};
use crate::json::{lookup_field, obj_fields, str_eq, JsonValue};
use crate::plugin::JanusPluginMessage;
use crate::request::IncomingRequestParameters;
use crate::response::JanusResponse;
use crate::videoroom::VideoRoomPlugin;

verus! {

/// The session's binding into one upstream gateway: the session and handle
/// ids the proxy holds inside the real janus-gateway. It is created once,
/// on the first plugin forward, and never rebound.
#[derive(Debug, PartialEq)]
pub struct Gateway {
    pub session: u64,
    pub handle: u64,
}

/// One plugin attachment: the handle id, the owning session's id, the
/// handle's own plugin instance, and the queue its asynchronous worker
/// drains in order.
#[derive(Debug, PartialEq)]
pub struct JanusHandle {
    pub id: u64,
    pub session_id: u64,
    pub plugin: VideoRoomPlugin,
    pub queue: Vec<JanusPluginMessage>,
}

impl JanusHandle {
    pub fn new(id: u64, session_id: u64, plugin: VideoRoomPlugin) -> (r: JanusHandle)
        ensures
            r.id == id,
            r.session_id == session_id,
            r.plugin == plugin,
            r.queue@ == Seq::<JanusPluginMessage>::empty(),
    {
        JanusHandle { id, session_id, plugin, queue: Vec::new() }
    }

    /// Appends a deferred message at the back of the worker's queue.
    pub fn queue_push(&mut self, message: JanusPluginMessage)
        ensures
            final(self).queue@ == old(self).queue@.push(message),
            final(self).id == old(self).id,
            final(self).session_id == old(self).session_id,
            final(self).plugin == old(self).plugin,
    {
        self.queue.push(message);
    }

    /// Hands the worker its next message: always the oldest one.
    pub fn take_next(&mut self) -> (r: Option<JanusPluginMessage>)
        ensures
            final(self).id == old(self).id,
            final(self).session_id == old(self).session_id,
            final(self).plugin == old(self).plugin,
            old(self).queue@.len() == 0 ==> r is None && final(self).queue@ == old(self).queue@,
            old(self).queue@.len() > 0 ==> r == Some(old(self).queue@[0]) && final(self).queue@
                == old(self).queue@.drop_first(),
    {
        if self.queue.len() == 0 {
            None
        } else {
            let m = self.queue.remove(0);
            proof {
                assert(self.queue@ =~= old(self).queue@.drop_first());
            }
            Some(m)
        }
    }

    /// Reads what a forwarded `message` brought back: an embedded error or a
    /// missing or foreign plugin result is an internal gateway error;
    /// otherwise the plugin data and the JSEP payload are handed through.
    pub fn forward_message_result(&self, response: JanusResponse) -> (r: Result<
        (JsonValue, Option<JsonValue>),
        JanusError,
    >)
        ensures
            response.error is Some ==> (r matches Err(e) && e.code
                == JANUS_ERROR_GATEWAY_INTERNAL_ERROR),
            (response.error is None && response.plugindata is None) ==> (r matches Err(e)
                && e.code == JANUS_ERROR_GATEWAY_INTERNAL_ERROR),
            response.plugindata matches Some(pd) ==> (response.error is None ==> {
                if pd.plugin@ == crate::plugin::spec_videoroom_name() {
                    r == Ok::<(JsonValue, Option<JsonValue>), JanusError>(
                        (pd.data, response.jsep),
                    )
                } else {
                    r matches Err(e) && e.code == JANUS_ERROR_GATEWAY_INTERNAL_ERROR
                }
            }),
    {
        if let Some(e) = response.error {
            return Err(
                JanusError::new(
                    JANUS_ERROR_GATEWAY_INTERNAL_ERROR,
                    String::from_str("janus-gateway error: ").concat(e.reason.as_str()),
                ),
            );
        }
        match response.plugindata {
            None => Err(
                JanusError::new(
                    JANUS_ERROR_GATEWAY_INTERNAL_ERROR,
                    String::from_str("Empty plugindata response data from janus-gateway"),
                ),
            ),
            Some(pd) => {
                if str_eq(pd.plugin.as_str(), self.plugin.get_name()) {
                    Ok((pd.data, response.jsep))
                } else {
                    Err(
                        JanusError::new(
                            JANUS_ERROR_GATEWAY_INTERNAL_ERROR,
                            String::from_str("Mismatch plugindata returned from janus-gateway"),
                        ),
                    )
                }
            },
        }
    }
}

/// Once the worker has removed `k` messages from the front of its queue, the
/// next one it processes is the `k`-th that was enqueued: messages leave in
/// enqueue order.
pub proof fn lemma_worker_order(q: Seq<JanusPluginMessage>, k: int)
    requires
        0 <= k < q.len(),
    ensures
        q.skip(k)[0] == q[k],
{
}

/// Every handle a well-formed session owns carries the session's own id:
/// a handle never outlives or changes its owning session.
pub proof fn lemma_handles_belong(s: JanusSession)
    requires
        s.wf(),
    ensures
        forall|i: int| 0 <= i < s.handles@.len() ==> (#[trigger] s.handles@[i]).session_id == s.id,
{
}

/// One client-facing session: its id, whether `create` has arrived, the
/// handles it owns, and its upstream binding once one exists. Dropping the
/// session drops the handles with it.
#[derive(Debug, PartialEq)]
pub struct JanusSession {
    pub id: u64,
    pub initialized: bool,
    pub handles: Vec<JanusHandle>,
    pub gateway: Option<Gateway>,
}

impl JanusSession {
    /// Every handle belongs to this session, and no handle id repeats.
    pub open spec fn wf(&self) -> bool {
        &&& forall|i: int| 0 <= i < self.handles@.len() ==> (#[trigger] self.handles@[i]).session_id
            == self.id
        &&& forall|i: int, j: int|
            0 <= i < j < self.handles@.len() ==> self.handles@[i].id != self.handles@[j].id
    }

    /// The ids of the owned handles.
    pub open spec fn handle_ids(&self) -> Seq<u64> {
        self.handles@.map_values(|h: JanusHandle| h.id)
    }

    pub fn new(id: u64) -> (r: JanusSession)
        ensures
            r.id == id,
            !r.initialized,
            r.handles@ == Seq::<JanusHandle>::empty(),
            r.gateway is None,
            r.wf(),
    {
        JanusSession { id, initialized: false, handles: Vec::new(), gateway: None }
    }

    /// The position of a handle, if the session owns it.
    pub fn find_handle(&self, id: u64) -> (r: Option<usize>)
        ensures
            match r {
                Some(i) => i < self.handles@.len() && self.handles@[i as int].id == id,
                None => forall|i: int| 0 <= i < self.handles@.len() ==> (
                #[trigger] self.handles@[i]).id != id,
            },
    {
        let mut i: usize = 0;
        while i < self.handles.len()
            invariant
                0 <= i <= self.handles@.len(),
                forall|j: int| 0 <= j < i ==> (#[trigger] self.handles@[j]).id != id,
            decreases self.handles.len() - i,
        {
            if self.handles[i].id == id {
                return Some(i);
            }
            i = i + 1;
        }
        None
    }

    /// Adopts a freshly created handle; the handle must carry this session's
    /// id and a handle id not yet in use.
    pub fn insert_handle(&mut self, handle: JanusHandle)
        requires
            old(self).wf(),
            handle.session_id == old(self).id,
            forall|i: int| 0 <= i < old(self).handles@.len() ==> (
            #[trigger] old(self).handles@[i]).id != handle.id,
        ensures
            final(self).wf(),
            final(self).handles@ == old(self).handles@.push(handle),
            final(self).id == old(self).id,
            final(self).initialized == old(self).initialized,
            final(self).gateway == old(self).gateway,
    {
        self.handles.push(handle);
    }

    /// Drops the handle at `i`; its queue and plugin state go with it.
    pub fn remove_handle(&mut self, i: usize) -> (r: JanusHandle)
        requires
            old(self).wf(),
            i < old(self).handles@.len(),
        ensures
            final(self).wf(),
            r == old(self).handles@[i as int],
            final(self).handles@ == old(self).handles@.remove(i as int),
            final(self).id == old(self).id,
            final(self).initialized == old(self).initialized,
            final(self).gateway == old(self).gateway,
    {
        let h = self.handles.remove(i);
        proof {
            old(self).handles@.remove_ensures(i as int);
        }
        h
    }

    /// Installs the upstream binding; a session is bound at most once.
    pub fn bind_gateway(&mut self, session: u64, handle: u64)
        requires
            old(self).gateway is None,
        ensures
            final(self).gateway == Some(Gateway { session, handle }),
            final(self).id == old(self).id,
            final(self).initialized == old(self).initialized,
            final(self).handles@ == old(self).handles@,
    {
        self.gateway = Some(Gateway { session, handle });
    }

    /// Stamps a request with the upstream binding's ids before it goes out;
    /// without a binding the internal gateway error is reported.
    pub fn forward_stamp(&self, request: IncomingRequestParameters) -> (r: Result<
        IncomingRequestParameters,
        JanusError,
    >)
        ensures
            match self.gateway {
                Some(g) => r == Ok::<IncomingRequestParameters, JanusError>(
                    (IncomingRequestParameters {
                        session_id: g.session,
                        handle_id: g.handle,
                        ..request
                    }),
                ),
                None => r matches Err(e) && e.code == JANUS_ERROR_GATEWAY_INTERNAL_ERROR,
            },
    {
        match &self.gateway {
            Some(g) => Ok(
                IncomingRequestParameters { session_id: g.session, handle_id: g.handle, ..request },
            ),
            None => Err(
                JanusError::new(
                    JANUS_ERROR_GATEWAY_INTERNAL_ERROR,
                    String::from_str("janus-gateway connection hasn't been initialized"),
                ),
            ),
        }
    }
}

/// The `trickle` request a handle sends upstream for one candidate.
pub fn trickle_request(item: crate::ice::JanusIceTrickle) -> (r: IncomingRequestParameters)
    ensures
        r.janus@ == "trickle"@,
        r.session_id == 0,
        r.handle_id == 0,
        r.body is None,
        r.jsep is None,
        r.rest@.len() == 1,
        r.rest@[0].0@ == "candidate"@,
        r.rest@[0].1 is Obj && crate::json::obj_fields(r.rest@[0].1->Obj_0@)
            == crate::ice::spec_trickle_fields(item),
        r.transaction@.len() > 0,
{
    let mut r = IncomingRequestParameters::prepare(String::from_str("trickle"), None, None);
    r.rest.push((String::from_str("candidate"), item.to_json()));
    r
}

/// Picks the upstream URL for a first plugin forward: the configured pool
/// must not be empty, else the no-gateway error.
pub fn choose_backend<B: JanusBackendProvider>(backend: &B) -> (r: Result<String, JanusError>)
    requires
        backend.wf(),
    ensures
        r is Ok <==> backend.urls().len() > 0,
        r matches Ok(u) ==> u@ == backend.urls()[0],
        r matches Err(e) ==> e.code == JANUS_ERROR_GATEWAY_UNAVAILABLE,
{
    match backend.get_backend() {
        Some(u) => Ok(u),
        None => Err(
            JanusError::new(
                JANUS_ERROR_GATEWAY_UNAVAILABLE,
                String::from_str("No janus-gateway instance available"),
            ),
        ),
    }
}

/// The id inside a `success` response's data, or zero when there is none.
pub open spec fn spec_created_id(resp: JanusResponse) -> u64 {
    match resp.data {
        Some(d) => if d is Obj {
            match lookup_field(obj_fields(d->Obj_0@), "id"@) {
                Some(JsonValue::UInt(n)) => n,
                _ => 0,
            }
        } else {
            0
        },
        None => 0,
    }
}

/// Reads the id out of an upstream `create` or `attach` answer; anything
/// unexpected reads as zero.
pub fn created_id(resp: &JanusResponse) -> (r: u64)
    ensures
        r == spec_created_id(*resp),
{
    match &resp.data {
        Some(JsonValue::Obj(pairs)) => match crate::json::obj_get(pairs, "id") {
            Some(JsonValue::UInt(n)) => *n,
            _ => 0,
        },
        _ => 0,
    }
}

/// Accepts the upstream session and handle ids obtained while binding a
/// gateway: both must be non-zero, else the internal error that names the
/// missing one.
pub fn gateway_ids_from(create_resp: &JanusResponse, attach_resp: &JanusResponse) -> (r: Result<
    (u64, u64),
    JanusError,
>)
    ensures
        r is Ok <==> (spec_created_id(*create_resp) != 0 && spec_created_id(*attach_resp) != 0),
        r matches Ok(ids) ==> ids == (
            spec_created_id(*create_resp),
            spec_created_id(*attach_resp),
        ),
        r matches Err(e) ==> e.code == JANUS_ERROR_GATEWAY_INTERNAL_ERROR,
{
    let session = created_id(create_resp);
    if session == 0 {
        return Err(
            JanusError::new(
                JANUS_ERROR_GATEWAY_INTERNAL_ERROR,
                String::from_str("Could not obtain janus-gateway session_id"),
            ),
        );
    }
    let handle = created_id(attach_resp);
    if handle == 0 {
        return Err(
            JanusError::new(
                JANUS_ERROR_GATEWAY_INTERNAL_ERROR,
                String::from_str("Could not obtain janus-gateway handle_id"),
            ),
        );
    }
    Ok((session, handle))
}

/// The keepalive the session sends upstream every interval.
pub fn keepalive_request(upstream_session: u64) -> (r: IncomingRequestParameters)
    ensures
        r.janus@ == "keepalive"@,
        r.session_id == upstream_session,
        r.handle_id == 0,
        r.body is None,
        r.jsep is None,
        r.rest@.len() == 0,
        r.transaction@.len() > 0,
{
    let mut r = IncomingRequestParameters::prepare(String::from_str("keepalive"), None, None);
    r.session_id = upstream_session;
    r
}

impl JanusResponse {
    /// Rewrites an upstream event for the client: upstream ids are replaced
    /// by the proxy's own session and handle ids wherever they are set.
    pub fn rewrite_ids(self, session_id: u64, handle_id: u64) -> (r: JanusResponse)
        ensures
            r.session_id == if self.session_id != 0 {
                session_id
            } else {
                0
            },
            r.sender == if self.sender != 0 {
                handle_id
            } else {
                0
            },
            r.janus == self.janus,
            r.transaction == self.transaction,
            r.error == self.error,
            r.data == self.data,
            r.plugindata == self.plugindata,
            r.jsep == self.jsep,
    {
        let new_session = if self.session_id != 0 {
            session_id
        } else {
            0
        };
        let new_sender = if self.sender != 0 {
            handle_id
        } else {
            0
        };
        JanusResponse { session_id: new_session, sender: new_sender, ..self }
    }
}

} // verus!
