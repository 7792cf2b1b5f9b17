use vstd::prelude::*;
use crate::error::{classify_json_error, describe_json_error, JanusError, JsonErrorKind};
use crate::json::{str_eq, JsonValue};
use crate::plugin::{JanusPluginMessage, JanusPluginResult, JanusPluginResultType};
use crate::videoroom_request::{spec_create_malformed, spec_create_parse_ok, CreateParameters};
use crate::videoroom_state::VideoRoomStateProvider;

verus! {

// Participant roles of a videoroom handle.
/// Not yet joined anywhere.
pub const JANUS_VIDEOROOM_P_TYPE_NONE: u8 = 0;

/// Joined as a publisher: sends media into a room.
pub const JANUS_VIDEOROOM_P_TYPE_PUBLISHER: u8 = 1;

/// Joined as a subscriber: consumes a publisher's feed.
pub const JANUS_VIDEOROOM_P_TYPE_SUBSCRIBER: u8 = 2;

// The videoroom plugin's own error catalogue.
pub const JANUS_VIDEOROOM_ERROR_UNKNOWN_ERROR: u32 = 499;

pub const JANUS_VIDEOROOM_ERROR_NO_MESSAGE: u32 = 421;

pub const JANUS_VIDEOROOM_ERROR_INVALID_JSON: u32 = 422;

pub const JANUS_VIDEOROOM_ERROR_INVALID_REQUEST: u32 = 423;

pub const JANUS_VIDEOROOM_ERROR_JOIN_FIRST: u32 = 424;

pub const JANUS_VIDEOROOM_ERROR_ALREADY_JOINED: u32 = 425;

pub const JANUS_VIDEOROOM_ERROR_NO_SUCH_ROOM: u32 = 426;

pub const JANUS_VIDEOROOM_ERROR_ROOM_EXISTS: u32 = 427;

pub const JANUS_VIDEOROOM_ERROR_NO_SUCH_FEED: u32 = 428;

pub const JANUS_VIDEOROOM_ERROR_MISSING_ELEMENT: u32 = 429;

pub const JANUS_VIDEOROOM_ERROR_INVALID_ELEMENT: u32 = 430;

pub const JANUS_VIDEOROOM_ERROR_INVALID_SDP_TYPE: u32 = 431;

pub const JANUS_VIDEOROOM_ERROR_PUBLISHERS_FULL: u32 = 432;

pub const JANUS_VIDEOROOM_ERROR_UNAUTHORIZED: u32 = 433;

pub const JANUS_VIDEOROOM_ERROR_ALREADY_PUBLISHED: u32 = 434;

pub const JANUS_VIDEOROOM_ERROR_NOT_PUBLISHED: u32 = 435;

pub const JANUS_VIDEOROOM_ERROR_ID_EXISTS: u32 = 436;

pub const JANUS_VIDEOROOM_ERROR_INVALID_SDP: u32 = 437;

/// A plugin-scoped failure: carried back to the client as an `event` whose
/// data holds the code and the text.
#[derive(Debug, PartialEq)]
pub struct VideoroomError {
    pub error_code: u32,
    pub error: String,
}

/// The shape of a videoroom error event: `videoroom:"event"` plus the code
/// and the text.
pub open spec fn spec_vr_error_event(v: JsonValue, code: u32, reason: Seq<char>) -> bool {
    let f = crate::json::obj_fields(v->Obj_0@);
    &&& v is Obj
    &&& f.len() == 3
    &&& f[0].0 == "videoroom"@
    &&& f[0].1 matches JsonValue::Str(s) && s@ == "event"@
    &&& f[1] == ("error_code"@, JsonValue::UInt(code as u64))
    &&& f[2].0 == "error"@
    &&& f[2].1 matches JsonValue::Str(t) && t@ == reason
}

impl VideoroomError {
    pub fn new(code: u32, reason: String) -> (r: VideoroomError)
        ensures
            r.error_code == code,
            r.error == reason,
    {
        VideoroomError { error_code: code, error: reason }
    }

    /// Carries a proxy-level gateway failure into the plugin's error space,
    /// keeping the code and the reason.
    pub fn from_janus(e: JanusError) -> (r: VideoroomError)
        ensures
            r.error_code == e.code,
            r.error == e.reason,
    {
        VideoroomError { error_code: e.code, error: e.reason }
    }

    /// Maps a JSON decode failure onto the plugin's catalogue: malformed
    /// JSON is 422, missing or mistyped fields are 429.
    pub fn from_json_parse_error(e: serde_json::Error) -> (r: VideoroomError)
        ensures
            r.error_code == JANUS_VIDEOROOM_ERROR_INVALID_JSON || r.error_code
                == JANUS_VIDEOROOM_ERROR_MISSING_ELEMENT,
            r.error@.len() > 0,
    {
        proof {
            reveal_strlit("Validation error: ");
            reveal_strlit("Invalid json object");
            assert("Validation error: "@.len() == 18);
            assert("Invalid json object"@.len() == 19);
        }
        match classify_json_error(&e) {
            JsonErrorKind::Data => VideoroomError::new(
                JANUS_VIDEOROOM_ERROR_MISSING_ELEMENT,
                String::from_str("Validation error: ").concat(describe_json_error(&e).as_str()),
            ),
            _ => VideoroomError::new(
                JANUS_VIDEOROOM_ERROR_INVALID_JSON,
                String::from_str("Invalid json object"),
            ),
        }
    }

    /// The error as the event payload the client sees.
    pub fn to_json(self) -> (v: JsonValue)
        ensures
            spec_vr_error_event(v, self.error_code, self.error@),
    {
        let mut pairs: Vec<(String, JsonValue)> = Vec::new();
        pairs.push((String::from_str("videoroom"), JsonValue::Str(String::from_str("event"))));
        pairs.push((String::from_str("error_code"), JsonValue::UInt(self.error_code as u64)));
        pairs.push((String::from_str("error"), JsonValue::Str(self.error)));
        JsonValue::Obj(pairs)
    }
}

/// The per-handle state of the videoroom plugin: which participant role the
/// handle has taken, if any.
#[derive(Debug, PartialEq)]
pub struct VideoRoomSession {
    pub participant_type: u8,
}

impl VideoRoomSession {
    pub fn new() -> (r: VideoRoomSession)
        ensures
            r.participant_type == JANUS_VIDEOROOM_P_TYPE_NONE,
    {
        VideoRoomSession { participant_type: JANUS_VIDEOROOM_P_TYPE_NONE }
    }
}

/// Produces a fresh videoroom plugin instance per attaching handle.
pub struct VideoRoomPluginFactory {
}

impl VideoRoomPluginFactory {
    pub fn new() -> (r: VideoRoomPluginFactory)
    {
        VideoRoomPluginFactory {  }
    }

    /// A fresh, unjoined plugin instance.
    pub fn produce(&self) -> (r: VideoRoomPlugin)
        ensures
            r.session.participant_type == JANUS_VIDEOROOM_P_TYPE_NONE,
    {
        VideoRoomPlugin::new()
    }
}

/// The reference plugin: the videoroom participant state machine. The shared
/// room catalogue is handed in by the dispatcher; the per-handle role lives
/// here.
#[derive(Debug, PartialEq)]
pub struct VideoRoomPlugin {
    pub session: VideoRoomSession,
}

impl VideoRoomPlugin {
    pub fn new() -> (r: VideoRoomPlugin)
        ensures
            r.session.participant_type == JANUS_VIDEOROOM_P_TYPE_NONE,
    {
        VideoRoomPlugin { session: VideoRoomSession::new() }
    }

    /// The plugin's stable identifier.
    pub fn get_name(&self) -> (r: &'static str)
        ensures
            r@ == crate::plugin::spec_videoroom_name(),
    {
        "janus.plugin.videoroom"
    }
}

/// The request word inside a plugin body, when the body is an object and
/// carries one.
pub open spec fn spec_request_of(body: JsonValue) -> Option<JsonValue> {
    if body is Obj {
        crate::json::lookup_field(crate::json::obj_fields(body->Obj_0@), "request"@)
    } else {
        None
    }
}

/// Whether the audio codec list a create body carries, if any, is drawn
/// from the supported set.
pub open spec fn spec_create_audio_ok(body: JsonValue) -> bool {
    match crate::json::lookup_field(crate::json::obj_fields(body->Obj_0@), "audiocodec"@) {
        Some(JsonValue::Str(a)) => spec_codecs_ok(a@, 4, true),
        _ => true,
    }
}

/// Whether the video codec list a create body carries, if any, is drawn
/// from the supported set.
pub open spec fn spec_create_video_ok(body: JsonValue) -> bool {
    match crate::json::lookup_field(crate::json::obj_fields(body->Obj_0@), "videocodec"@) {
        Some(JsonValue::Str(c)) => spec_codecs_ok(c@, 4, false),
        _ => true,
    }
}

/// Whether the room a create body names, if any, is not yet taken.
pub open spec fn spec_create_room_free(body: JsonValue, rooms: Set<u64>) -> bool {
    match crate::json::lookup_field(crate::json::obj_fields(body->Obj_0@), "room"@) {
        Some(JsonValue::UInt(rid)) => !rooms.contains(rid),
        _ => true,
    }
}

/// The reason the plugin gives for a rejected audio codec list.
pub open spec fn spec_audio_reason() -> Seq<char> {
    "Invalid element (audiocodec can only be or contain opus, isac32, isac16, pcmu, pcma or g722)"@
}

/// The reason the plugin gives for a rejected video codec list.
pub open spec fn spec_video_reason() -> Seq<char> {
    "Invalid element (videocodec can only be or contain vp8, vp9, av1, h264 or h265)"@
}

/// The videoroom requests that are deferred to the asynchronous worker.
pub open spec fn spec_is_async_verb(t: Seq<char>) -> bool {
    ||| t == "join"@
    ||| t == "joinandconfigure"@
    ||| t == "configure"@
    ||| t == "publish"@
    ||| t == "unpublish"@
    ||| t == "start"@
    ||| t == "pause"@
    ||| t == "switch"@
    ||| t == "leave"@
}

/// The shape of a `created` reply.
pub open spec fn spec_vr_created_json(v: JsonValue, room: u64) -> bool {
    let f = crate::json::obj_fields(v->Obj_0@);
    &&& v is Obj
    &&& f.len() == 3
    &&& f[0].0 == "videoroom"@
    &&& f[0].1 matches JsonValue::Str(s) && s@ == "created"@
    &&& f[1] == ("room"@, JsonValue::UInt(room))
    &&& f[2] == ("permanent"@, JsonValue::Bool(false))
}

/// The shape of one room entry inside a `list` reply.
pub open spec fn spec_vr_room_entry(v: JsonValue, room: u64) -> bool {
    let f = crate::json::obj_fields(v->Obj_0@);
    &&& v is Obj
    &&& f.len() == 1
    &&& f[0] == ("room"@, JsonValue::UInt(room))
}

/// The shape of a `list` reply: one entry per known room, in order.
pub open spec fn spec_vr_list_json(v: JsonValue, order: Seq<u64>) -> bool {
    let f = crate::json::obj_fields(v->Obj_0@);
    &&& v is Obj
    &&& f.len() == 2
    &&& f[0].0 == "videoroom"@
    &&& f[0].1 matches JsonValue::Str(s) && s@ == "success"@
    &&& f[1].0 == "list"@
    &&& f[1].1 matches JsonValue::Arr(items) && items@.len() == order.len() && forall|i: int|
        0 <= i < order.len() ==> spec_vr_room_entry(#[trigger] items@[i], order[i])
}

/// The shape of an `exists` reply.
pub open spec fn spec_vr_exists_json(v: JsonValue, room: u64, ex: bool) -> bool {
    let f = crate::json::obj_fields(v->Obj_0@);
    &&& v is Obj
    &&& f.len() == 3
    &&& f[0].0 == "videoroom"@
    &&& f[0].1 matches JsonValue::Str(s) && s@ == "success"@
    &&& f[1] == ("room"@, JsonValue::UInt(room))
    &&& f[2] == ("exists"@, JsonValue::Bool(ex))
}

/// What one synchronously answered plugin request produces: the reply
/// content for every request kind, and how the room catalogue moves. The
/// deferred participant verbs are outside this predicate: they answer
/// ok-wait and carry no content.
pub open spec fn spec_sync_outcome(
    body: JsonValue,
    rooms0: Set<u64>,
    params0: Map<u64, CreateParameters>,
    order0: Seq<u64>,
    rooms1: Set<u64>,
    params1: Map<u64, CreateParameters>,
    order1: Seq<u64>,
    c: JsonValue,
) -> bool {
    let unchanged = rooms1 == rooms0 && params1 == params0 && order1 == order0;
    if !(spec_request_of(body) matches Some(x) && x is Str) {
        unchanged && spec_vr_error_event(
            c,
            JANUS_VIDEOROOM_ERROR_MISSING_ELEMENT,
            "'request' is required"@,
        )
    } else {
        let s = spec_request_of(body)->Some_0->Str_0;
        if s@ == "create"@ {
            if spec_create_malformed(body) {
                unchanged && spec_vr_error_event(
                    c,
                    JANUS_VIDEOROOM_ERROR_MISSING_ELEMENT,
                    "Validation error: invalid create parameters"@,
                )
            } else if !spec_create_audio_ok(body) {
                unchanged && spec_vr_error_event(
                    c,
                    JANUS_VIDEOROOM_ERROR_INVALID_ELEMENT,
                    spec_audio_reason(),
                )
            } else if !spec_create_video_ok(body) {
                unchanged && spec_vr_error_event(
                    c,
                    JANUS_VIDEOROOM_ERROR_INVALID_ELEMENT,
                    spec_video_reason(),
                )
            } else if !spec_create_room_free(body, rooms0) {
                unchanged && (crate::json::lookup_field(
                    crate::json::obj_fields(body->Obj_0@),
                    "room"@,
                ) matches Some(JsonValue::UInt(rid)) && spec_vr_error_event(
                    c,
                    JANUS_VIDEOROOM_ERROR_ROOM_EXISTS,
                    "Room "@ + crate::helper::spec_decimal(rid as nat) + " already exists"@,
                ))
            } else {
                exists|p: CreateParameters, room: u64|
                    #![trigger params0.insert(
                        room,
                        (CreateParameters { room: Some(room), permanent: None, ..p }),
                    )]
                    {
                        &&& spec_create_parse_ok(body, p)
                        &&& match p.room {
                            Some(rid) => room == rid && !rooms0.contains(rid),
                            None => room != 0 && !rooms0.contains(room),
                        }
                        &&& rooms1 == rooms0.insert(room)
                        &&& params1 == params0.insert(
                            room,
                            (CreateParameters { room: Some(room), permanent: None, ..p }),
                        )
                        &&& order1 == order0.push(room)
                        &&& spec_vr_created_json(c, room)
                    }
            }
        } else if s@ == "list"@ {
            unchanged && spec_vr_list_json(c, order0)
        } else if s@ == "exists"@ {
            unchanged && match crate::json::lookup_field(
                crate::json::obj_fields(body->Obj_0@),
                "room"@,
            ) {
                Some(JsonValue::UInt(n)) => spec_vr_exists_json(c, n, rooms0.contains(n)),
                _ => spec_vr_error_event(
                    c,
                    JANUS_VIDEOROOM_ERROR_MISSING_ELEMENT,
                    "Validation error: 'room' is required"@,
                ),
            }
        } else if spec_is_async_verb(s@) {
            true
        } else {
            unchanged && spec_vr_error_event(
                c,
                JANUS_VIDEOROOM_ERROR_INVALID_REQUEST,
                "Unknown request"@ + spec_quoted(s@),
            )
        }
    }
}

// Codec validation for room creation.
/// The position of the first comma, or the length if there is none.
pub open spec fn spec_comma_pos(s: Seq<char>) -> nat
    decreases s.len(),
{
    if s.len() == 0 {
        0
    } else if s[0] == ',' {
        0
    } else {
        1 + spec_comma_pos(s.drop_first())
    }
}

proof fn lemma_comma_pos_bounds(s: Seq<char>)
    ensures
        spec_comma_pos(s) <= s.len(),
        spec_comma_pos(s) < s.len() ==> s[spec_comma_pos(s) as int] == ',',
        forall|j: int| 0 <= j < spec_comma_pos(s) ==> s[j] != ',',
    decreases s.len(),
{
    if s.len() > 0 && s[0] != ',' {
        lemma_comma_pos_bounds(s.drop_first());
        let p = spec_comma_pos(s);
        assert forall|j: int| 0 <= j < p implies s[j] != ',' by {
            if j > 0 {
                assert(s.drop_first()[j - 1] == s[j]);
            }
        }
        if p < s.len() {
            assert(s.drop_first()[p - 1] == s[p as int]);
        }
    }
}

proof fn lemma_comma_pos_of(s: Seq<char>, i: int)
    requires
        0 <= i <= s.len(),
        forall|j: int| 0 <= j < i ==> s[j] != ',',
        i == s.len() || s[i] == ',',
    ensures
        spec_comma_pos(s) == i,
    decreases s.len(),
{
    if s.len() > 0 && s[0] != ',' {
        assert(i > 0);
        lemma_comma_pos_of(s.drop_first(), i - 1);
    }
}

/// The audio codecs a room may constrain itself to.
pub open spec fn spec_audio_supported(t: Seq<char>) -> bool {
    ||| t == "opus"@
    ||| t == "multiopus"@
    ||| t == "isac32"@
    ||| t == "isac16"@
    ||| t == "pcmu"@
    ||| t == "pcma"@
    ||| t == "g722"@
}

/// The video codecs a room may constrain itself to.
pub open spec fn spec_video_supported(t: Seq<char>) -> bool {
    ||| t == "vp8"@
    ||| t == "vp9"@
    ||| t == "h264"@
    ||| t == "av1"@
    ||| t == "h265"@
}

/// Whether a comma-separated codec list is acceptable: each of its first
/// four entries must come from the supported set.
pub open spec fn spec_codecs_ok(s: Seq<char>, budget: nat, audio: bool) -> bool
    decreases s.len(),
{
    if budget == 0 {
        true
    } else {
        let p = spec_comma_pos(s);
        let ok = if audio {
            spec_audio_supported(s.take(p as int))
        } else {
            spec_video_supported(s.take(p as int))
        };
        if p >= s.len() {
            ok
        } else {
            ok && spec_codecs_ok(s.skip(p + 1 as int), (budget - 1) as nat, audio)
        }
    }
}

/// The index of the first comma, or the length if there is none.
fn find_comma(s: &str) -> (p: usize)
    ensures
        p == spec_comma_pos(s@),
        p <= s@.len(),
{
    let n = s.unicode_len();
    let mut i: usize = 0;
    while i < n
        invariant
            0 <= i <= n,
            n == s@.len(),
            forall|j: int| 0 <= j < i ==> s@[j] != ',',
        decreases n - i,
    {
        if s.get_char(i) == ',' {
            proof {
                lemma_comma_pos_of(s@, i as int);
            }
            return i;
        }
        i = i + 1;
    }
    proof {
        lemma_comma_pos_of(s@, n as int);
    }
    n
}

fn audio_supported(t: &str) -> (r: bool)
    ensures
        r == spec_audio_supported(t@),
{
    str_eq(t, "opus") || str_eq(t, "multiopus") || str_eq(t, "isac32") || str_eq(t, "isac16")
        || str_eq(t, "pcmu") || str_eq(t, "pcma") || str_eq(t, "g722")
}

fn video_supported(t: &str) -> (r: bool)
    ensures
        r == spec_video_supported(t@),
{
    str_eq(t, "vp8") || str_eq(t, "vp9") || str_eq(t, "h264") || str_eq(t, "av1") || str_eq(
        t,
        "h265",
    )
}

/// Checks a comma-separated codec list against the supported set, looking at
/// the first `budget` entries.
pub fn codecs_ok(s: &str, budget: u8, audio: bool) -> (r: bool)
    ensures
        r == spec_codecs_ok(s@, budget as nat, audio),
    decreases s@.len(), budget,
{
    if budget == 0 {
        return true;
    }
    let n = s.unicode_len();
    let p = find_comma(s);
    proof {
        lemma_comma_pos_bounds(s@);
    }
    let tok = s.substring_char(0, p);
    proof {
        assert(tok@ =~= s@.take(p as int));
    }
    let ok = if audio {
        audio_supported(tok)
    } else {
        video_supported(tok)
    };
    if p >= n {
        ok
    } else {
        let tail = s.substring_char(p + 1, n);
        proof {
            assert(tail@ =~= s@.skip(p + 1));
        }
        ok && codecs_ok(tail, budget - 1, audio)
    }
}

impl VideoRoomPlugin {
    /// Validates and registers a room as the `create` request asks: codec
    /// lists are checked against the supported sets, `permanent` is not
    /// honoured, and the room id is taken from the request or drawn fresh.
    /// Only the parameters of an accepted room are stored.
    pub fn create_room<S: VideoRoomStateProvider>(&self, rooms: &mut S, body: &JsonValue) -> (r:
        Result<JanusPluginResult, VideoroomError>)
        requires
            old(rooms).wf(),
            old(rooms).rooms().len() < crate::state::ID_POOL_LIMIT,
        ensures
            final(rooms).wf(),
            r is Ok <==> (!spec_create_malformed(*body) && spec_create_audio_ok(*body)
                && spec_create_video_ok(*body) && spec_create_room_free(
                *body,
                old(rooms).rooms(),
            )),
            spec_create_malformed(*body) ==> (r matches Err(e) && e.error_code
                == JANUS_VIDEOROOM_ERROR_MISSING_ELEMENT && e.error@
                == "Validation error: invalid create parameters"@),
            (!spec_create_malformed(*body) && !spec_create_audio_ok(*body)) ==> (r matches Err(e)
                && e.error_code == JANUS_VIDEOROOM_ERROR_INVALID_ELEMENT && e.error@
                == spec_audio_reason()),
            (!spec_create_malformed(*body) && spec_create_audio_ok(*body)
                && !spec_create_video_ok(*body)) ==> (r matches Err(e) && e.error_code
                == JANUS_VIDEOROOM_ERROR_INVALID_ELEMENT && e.error@ == spec_video_reason()),
            (!spec_create_malformed(*body) && spec_create_audio_ok(*body)
                && spec_create_video_ok(*body) && !spec_create_room_free(
                *body,
                old(rooms).rooms(),
            )) ==> (r matches Err(e) && e.error_code == JANUS_VIDEOROOM_ERROR_ROOM_EXISTS && (
            crate::json::lookup_field(
                crate::json::obj_fields(body->Obj_0@),
                "room"@,
            ) matches Some(JsonValue::UInt(rid)) && e.error@ == "Room "@
                + crate::helper::spec_decimal(rid as nat) + " already exists"@)),
            r matches Err(e) ==> final(rooms).rooms() == old(rooms).rooms() && final(rooms).room_params() == old(rooms).room_params() && final(rooms).room_order() == old(rooms).room_order(),
            r matches Ok(result) ==> exists|p: CreateParameters, room: u64|
                #![trigger old(rooms).room_params().insert(
                    room,
                    (CreateParameters { room: Some(room), permanent: None, ..p }),
                )]
                {
                    &&& spec_create_parse_ok(*body, p)
                    &&& match p.audiocodec {
                        Some(a) => spec_codecs_ok(a@, 4, true),
                        None => true,
                    }
                    &&& match p.videocodec {
                        Some(c) => spec_codecs_ok(c@, 4, false),
                        None => true,
                    }
                    &&& match p.room {
                        Some(rid) => room == rid && !old(rooms).rooms().contains(rid),
                        None => room != 0 && !old(rooms).rooms().contains(room),
                    }
                    &&& final(rooms).rooms() == old(rooms).rooms().insert(room)
                    &&& final(rooms).room_params() == old(rooms).room_params().insert(
                        room,
                        (CreateParameters { room: Some(room), permanent: None, ..p }),
                    )
                    &&& final(rooms).room_order() == old(rooms).room_order().push(room)
                    &&& result.kind == crate::plugin::JanusPluginResultType::JANUS_PLUGIN_OK
                    &&& result.content matches Some(c) && spec_vr_created_json(c, room)
                    &&& result.jsep is None
                    &&& result.text is None
                },
    {
        let params = match crate::videoroom_request::CreateParameters::from_body(body) {
            Ok(p) => p,
            Err(_) => {
                return Err(
                    VideoroomError::new(
                        JANUS_VIDEOROOM_ERROR_MISSING_ELEMENT,
                        String::from_str("Validation error: invalid create parameters"),
                    ),
                );
            },
        };
        if let Some(ac) = &params.audiocodec {
            if !codecs_ok(ac.as_str(), 4, true) {
                return Err(
                    VideoroomError::new(
                        JANUS_VIDEOROOM_ERROR_INVALID_ELEMENT,
                        String::from_str(
                            "Invalid element (audiocodec can only be or contain opus, isac32, isac16, pcmu, pcma or g722)",
                        ),
                    ),
                );
            }
        }
        if let Some(vc) = &params.videocodec {
            if !codecs_ok(vc.as_str(), 4, false) {
                return Err(
                    VideoroomError::new(
                        JANUS_VIDEOROOM_ERROR_INVALID_ELEMENT,
                        String::from_str(
                            "Invalid element (videocodec can only be or contain vp8, vp9, av1, h264 or h265)",
                        ),
                    ),
                );
            }
        }
        let ghost p0 = params;
        let room = match params.room {
            Some(rid) => {
                if rooms.has_room(&rid) {
                    return Err(
                        VideoroomError::new(
                            JANUS_VIDEOROOM_ERROR_ROOM_EXISTS,
                            String::from_str("Room ").concat(
                                crate::helper::u64_to_string(rid).as_str(),
                            ).concat(" already exists"),
                        ),
                    );
                }
                rid
            },
            None => rooms.new_room_id(),
        };
        let mut params = params;
        params.room = Some(room);
        params.permanent = None;

        let mut pairs: Vec<(String, JsonValue)> = Vec::new();
        pairs.push(
            (String::from_str("videoroom"), JsonValue::Str(String::from_str("created"))),
        );
        pairs.push((String::from_str("room"), JsonValue::UInt(room)));
        pairs.push((String::from_str("permanent"), JsonValue::Bool(false)));
        let result = JanusPluginResult::ok(JsonValue::Obj(pairs));

        rooms.save_room_parameters(params);
        proof {
            assert(spec_create_parse_ok(*body, p0));
        }
        Ok(result)
    }
}

impl VideoRoomPlugin {
    /// The synchronous entry point for `message` requests. `create`, `list`
    /// and `exists` are answered at once; the participant verbs are deferred:
    /// exactly then the message comes back for the handle's queue together
    /// with an ok-wait result. A plugin failure is reported as an ok result
    /// whose content is the error event.
    pub fn handle_message<S: VideoRoomStateProvider>(
        &self,
        rooms: &mut S,
        message: JanusPluginMessage,
    ) -> (r: (JanusPluginResult, Option<JanusPluginMessage>))
        requires
            old(rooms).wf(),
            old(rooms).rooms().len() < crate::state::ID_POOL_LIMIT,
        ensures
            final(rooms).wf(),
            r.0.kind == JanusPluginResultType::JANUS_PLUGIN_OK_WAIT <==> (spec_request_of(
                message.body,
            ) matches Some(x) && x matches JsonValue::Str(s) && spec_is_async_verb(s@)),
            r.0.kind == JanusPluginResultType::JANUS_PLUGIN_OK_WAIT <==> r.1 == Some(message),
            r.0.kind == JanusPluginResultType::JANUS_PLUGIN_OK_WAIT ==> final(rooms).rooms()
                == old(rooms).rooms() && final(rooms).room_params() == old(rooms).room_params()
                && final(rooms).room_order() == old(rooms).room_order(),
            r.0.kind != JanusPluginResultType::JANUS_PLUGIN_OK_WAIT ==> r.1 is None && r.0.kind
                == JanusPluginResultType::JANUS_PLUGIN_OK && r.0.jsep is None && r.0.text is None
                && (r.0.content matches Some(c) && spec_sync_outcome(
                message.body,
                old(rooms).rooms(),
                old(rooms).room_params(),
                old(rooms).room_order(),
                final(rooms).rooms(),
                final(rooms).room_params(),
                final(rooms).room_order(),
                c,
            )),
    {
        proof {
            lemma_sync_verbs_distinct();
        }
        let request = match &message.body {
            JsonValue::Obj(pairs) => match crate::json::obj_get(pairs, "request") {
                Some(JsonValue::Str(s)) => Some(s.clone()),
                _ => None,
            },
            _ => None,
        };
        let request = match request {
            Some(s) => s,
            None => {
                let e = VideoroomError::new(
                    JANUS_VIDEOROOM_ERROR_MISSING_ELEMENT,
                    String::from_str("'request' is required"),
                );
                return (JanusPluginResult::ok(e.to_json()), None);
            },
        };
        if str_eq(request.as_str(), "create") {
            let result = match self.create_room(rooms, &message.body) {
                Ok(x) => x,
                Err(e) => JanusPluginResult::ok(e.to_json()),
            };
            (result, None)
        } else if str_eq(request.as_str(), "list") {
            let ids = rooms.list_rooms();
            let mut items: Vec<JsonValue> = Vec::new();
            let mut i: usize = 0;
            while i < ids.len()
                invariant
                    0 <= i <= ids@.len(),
                    items@.len() == i,
                    ids@ == old(rooms).room_order(),
                    forall|j: int|
                        0 <= j < i ==> spec_vr_room_entry(#[trigger] items@[j], ids@[j]),
                decreases ids.len() - i,
            {
                let mut entry: Vec<(String, JsonValue)> = Vec::new();
                entry.push((String::from_str("room"), JsonValue::UInt(ids[i])));
                items.push(JsonValue::Obj(entry));
                i = i + 1;
            }
            let mut pairs: Vec<(String, JsonValue)> = Vec::new();
            pairs.push(
                (String::from_str("videoroom"), JsonValue::Str(String::from_str("success"))),
            );
            pairs.push((String::from_str("list"), JsonValue::Arr(items)));
            (JanusPluginResult::ok(JsonValue::Obj(pairs)), None)
        } else if str_eq(request.as_str(), "exists") {
            let room = match &message.body {
                JsonValue::Obj(pairs) => match crate::json::get_opt_u64(pairs, "room") {
                    Ok(Some(n)) => Some(n),
                    _ => None,
                },
                _ => None,
            };
            match room {
                Some(n) => {
                    let ex = rooms.has_room(&n);
                    let mut pairs: Vec<(String, JsonValue)> = Vec::new();
                    pairs.push(
                        (
                            String::from_str("videoroom"),
                            JsonValue::Str(String::from_str("success")),
                        ),
                    );
                    pairs.push((String::from_str("room"), JsonValue::UInt(n)));
                    pairs.push((String::from_str("exists"), JsonValue::Bool(ex)));
                    (JanusPluginResult::ok(JsonValue::Obj(pairs)), None)
                },
                None => {
                    let e = VideoroomError::new(
                        JANUS_VIDEOROOM_ERROR_MISSING_ELEMENT,
                        String::from_str("Validation error: 'room' is required"),
                    );
                    (JanusPluginResult::ok(e.to_json()), None)
                },
            }
        } else if is_async_verb(request.as_str()) {
            (JanusPluginResult::wait(None), Some(message))
        } else {
            let e = VideoroomError::new(
                JANUS_VIDEOROOM_ERROR_INVALID_REQUEST,
                quoted_reason("Unknown request", request.as_str()),
            );
            (JanusPluginResult::ok(e.to_json()), None)
        }
    }
}

/// The synchronously handled request words differ from each other and from
/// every deferred participant verb.
proof fn lemma_sync_verbs_distinct()
    ensures
        "create"@ != "list"@,
        "create"@ != "exists"@,
        "create"@ != "join"@,
        "create"@ != "joinandconfigure"@,
        "create"@ != "configure"@,
        "create"@ != "publish"@,
        "create"@ != "unpublish"@,
        "create"@ != "start"@,
        "create"@ != "pause"@,
        "create"@ != "switch"@,
        "create"@ != "leave"@,
        "list"@ != "exists"@,
        "list"@ != "join"@,
        "list"@ != "joinandconfigure"@,
        "list"@ != "configure"@,
        "list"@ != "publish"@,
        "list"@ != "unpublish"@,
        "list"@ != "start"@,
        "list"@ != "pause"@,
        "list"@ != "switch"@,
        "list"@ != "leave"@,
        "exists"@ != "join"@,
        "exists"@ != "joinandconfigure"@,
        "exists"@ != "configure"@,
        "exists"@ != "publish"@,
        "exists"@ != "unpublish"@,
        "exists"@ != "start"@,
        "exists"@ != "pause"@,
        "exists"@ != "switch"@,
        "exists"@ != "leave"@,
{
    reveal_strlit("create");
    reveal_strlit("list");
    reveal_strlit("exists");
    reveal_strlit("join");
    reveal_strlit("joinandconfigure");
    reveal_strlit("configure");
    reveal_strlit("publish");
    reveal_strlit("unpublish");
    reveal_strlit("start");
    reveal_strlit("pause");
    reveal_strlit("switch");
    reveal_strlit("leave");
    assert("create"@.len() == 6);
    assert("list"@.len() == 4);
    assert("exists"@.len() == 6);
    assert("join"@.len() == 4);
    assert("joinandconfigure"@.len() == 16);
    assert("configure"@.len() == 9);
    assert("publish"@.len() == 7);
    assert("unpublish"@.len() == 9);
    assert("start"@.len() == 5);
    assert("pause"@.len() == 5);
    assert("switch"@.len() == 6);
    assert("leave"@.len() == 5);
    assert("create"@[0] == 'c');
    assert("list"@[0] == 'l');
    assert("exists"@[0] == 'e');
    assert("join"@[0] == 'j');
    assert("joinandconfigure"@[0] == 'j');
    assert("configure"@[0] == 'c');
    assert("publish"@[0] == 'p');
    assert("unpublish"@[0] == 'u');
    assert("start"@[0] == 's');
    assert("pause"@[0] == 'p');
    assert("switch"@[0] == 's');
    assert("leave"@[0] == 'l');
}

/// What the asynchronous worker must do for one dequeued message.
#[derive(Debug, PartialEq)]
pub enum AsyncAction {
    /// Report this plugin failure as the event.
    Fail(VideoroomError),
    /// Create the room upstream from its stored parameters, then forward the
    /// join; on success the handle becomes a publisher.
    PublisherJoin { create_body: JsonValue, join_body: JsonValue },
    /// Forward the join; on success the handle becomes a subscriber.
    SubscriberJoin { join_body: JsonValue },
    /// Forward the message's body and JSEP payload upstream unchanged.
    Forward { body: JsonValue, jsep: Option<JsonValue> },
}

/// A field of an object body read as an unsigned integer, if so typed.
pub open spec fn spec_body_u64(body: JsonValue, key: Seq<char>) -> Option<u64> {
    if body is Obj {
        match crate::json::lookup_field(crate::json::obj_fields(body->Obj_0@), key) {
            Some(JsonValue::UInt(n)) => Some(n),
            _ => None,
        }
    } else {
        None
    }
}

/// A field of an object body read as a string value, if so typed.
pub open spec fn spec_body_str(body: JsonValue, key: Seq<char>) -> Option<JsonValue> {
    if body is Obj {
        match crate::json::lookup_field(crate::json::obj_fields(body->Obj_0@), key) {
            Some(JsonValue::Str(s)) => Some(JsonValue::Str(s)),
            _ => None,
        }
    } else {
        None
    }
}

proof fn lemma_async_verbs_distinct()
    ensures
        "join"@ != "joinandconfigure"@,
        "join"@ != "configure"@,
        "join"@ != "publish"@,
        "join"@ != "unpublish"@,
        "join"@ != "start"@,
        "join"@ != "pause"@,
        "join"@ != "switch"@,
        "join"@ != "leave"@,
        "joinandconfigure"@ != "configure"@,
        "joinandconfigure"@ != "publish"@,
        "joinandconfigure"@ != "unpublish"@,
        "joinandconfigure"@ != "start"@,
        "joinandconfigure"@ != "pause"@,
        "joinandconfigure"@ != "switch"@,
        "joinandconfigure"@ != "leave"@,
        "configure"@ != "publish"@,
        "configure"@ != "unpublish"@,
        "configure"@ != "start"@,
        "configure"@ != "pause"@,
        "configure"@ != "switch"@,
        "configure"@ != "leave"@,
        "publish"@ != "unpublish"@,
        "publish"@ != "start"@,
        "publish"@ != "pause"@,
        "publish"@ != "switch"@,
        "publish"@ != "leave"@,
        "unpublish"@ != "start"@,
        "unpublish"@ != "pause"@,
        "unpublish"@ != "switch"@,
        "unpublish"@ != "leave"@,
        "start"@ != "pause"@,
        "start"@ != "switch"@,
        "start"@ != "leave"@,
        "pause"@ != "switch"@,
        "pause"@ != "leave"@,
        "switch"@ != "leave"@,
        "publisher"@ != "subscriber"@,
        "publisher"@ != "listener"@,
        "subscriber"@ != "listener"@,
{
    reveal_strlit("join");
    reveal_strlit("joinandconfigure");
    reveal_strlit("configure");
    reveal_strlit("publish");
    reveal_strlit("unpublish");
    reveal_strlit("start");
    reveal_strlit("pause");
    reveal_strlit("switch");
    reveal_strlit("leave");
    reveal_strlit("publisher");
    reveal_strlit("subscriber");
    reveal_strlit("listener");
    assert("join"@.len() == 4);
    assert("joinandconfigure"@.len() == 16);
    assert("configure"@.len() == 9);
    assert("publish"@.len() == 7);
    assert("unpublish"@.len() == 9);
    assert("start"@.len() == 5);
    assert("pause"@.len() == 5);
    assert("switch"@.len() == 6);
    assert("leave"@.len() == 5);
    assert("publisher"@.len() == 9);
    assert("subscriber"@.len() == 10);
    assert("listener"@.len() == 8);
    assert("configure"@[0] == 'c');
    assert("unpublish"@[0] == 'u');
    assert("start"@[0] == 's');
    assert("pause"@[0] == 'p');
    assert("leave"@[0] == 'l');
    assert("publisher"@[0] == 'p');
    assert("unpublish"@[1] == 'n');
    assert("publisher"@[1] == 'u');
    assert("configure"@[1] == 'o');
}

impl VideoRoomPlugin {
    /// Decides what a dequeued message asks the worker to do, from the
    /// handle's participant role and the request: a first join turns the
    /// handle into a publisher (creating the room upstream first) or a
    /// subscriber, a second join is rejected, and the per-role operations
    /// are forwarded upstream as they are.
    pub fn decide_async<S: VideoRoomStateProvider>(
        &self,
        rooms: &S,
        message: JanusPluginMessage,
    ) -> (r: AsyncAction)
        requires
            rooms.wf(),
        ensures
            ({
                let pt = self.session.participant_type;
                let req = spec_request_of(message.body);
                &&& !(req matches Some(x) && x is Str) ==> (r matches AsyncAction::Fail(e)
                    && e.error_code == JANUS_VIDEOROOM_ERROR_MISSING_ELEMENT)
                &&& req matches Some(JsonValue::Str(s)) ==> {
                    &&& pt == JANUS_VIDEOROOM_P_TYPE_NONE ==> {
                        &&& (s@ != "join"@ && s@ != "joinandconfigure"@) ==> (r matches
                            AsyncAction::Fail(e) && e.error_code
                            == JANUS_VIDEOROOM_ERROR_JOIN_FIRST)
                        &&& (s@ == "join"@ || s@ == "joinandconfigure"@) ==> {
                            &&& (spec_body_u64(message.body, "room"@) is None || spec_body_str(
                                message.body,
                                "ptype"@,
                            ) is None) ==> (r matches AsyncAction::Fail(e) && e.error_code
                                == JANUS_VIDEOROOM_ERROR_MISSING_ELEMENT)
                            &&& spec_body_u64(message.body, "room"@) matches Some(room) ==> (
                            spec_body_str(message.body, "ptype"@) matches Some(
                                JsonValue::Str(pt_s),
                            ) ==> {
                                &&& pt_s@ == "publisher"@ ==> (
                                if rooms.room_params().contains_key(room) {
                                    r matches AsyncAction::PublisherJoin {
                                        create_body,
                                        join_body,
                                    } && join_body == message.body && create_body is Obj
                                        && exists|av: JsonValue|
                                        crate::json::obj_fields(create_body->Obj_0@)
                                            == #[trigger] crate::videoroom_request::spec_create_fields(
                                            rooms.room_params()[room],
                                            av,
                                        ) && (rooms.room_params()[room].allowed matches Some(ss)
                                            ==> av is Arr && crate::json::spec_str_array(
                                            av->Arr_0@,
                                            ss@,
                                        ))
                                } else {
                                    r matches AsyncAction::Fail(e) && e.error_code
                                        == JANUS_VIDEOROOM_ERROR_NO_SUCH_ROOM
                                })
                                &&& (pt_s@ == "subscriber"@ || pt_s@ == "listener"@) ==> (r
                                    matches AsyncAction::SubscriberJoin { join_body } && join_body
                                    == message.body)
                                &&& (pt_s@ != "publisher"@ && pt_s@ != "subscriber"@ && pt_s@
                                    != "listener"@) ==> (r matches AsyncAction::Fail(e)
                                    && e.error_code == JANUS_VIDEOROOM_ERROR_INVALID_ELEMENT)
                            })
                        }
                    }
                    &&& pt == JANUS_VIDEOROOM_P_TYPE_PUBLISHER ==> {
                        &&& (s@ == "join"@ || s@ == "joinandconfigure"@) ==> (r matches
                            AsyncAction::Fail(e) && e.error_code
                            == JANUS_VIDEOROOM_ERROR_ALREADY_JOINED)
                        &&& (s@ == "configure"@ || s@ == "publish"@ || s@ == "unpublish"@ || s@
                            == "leave"@) ==> (r matches AsyncAction::Forward { body, jsep }
                            && body == message.body && jsep == message.jsep)
                        &&& (s@ != "join"@ && s@ != "joinandconfigure"@ && s@ != "configure"@
                            && s@ != "publish"@ && s@ != "unpublish"@ && s@ != "leave"@) ==> (r
                            matches AsyncAction::Fail(e) && e.error_code
                            == JANUS_VIDEOROOM_ERROR_INVALID_REQUEST)
                    }
                    &&& pt == JANUS_VIDEOROOM_P_TYPE_SUBSCRIBER ==> {
                        &&& s@ == "join"@ ==> (r matches AsyncAction::Fail(e) && e.error_code
                            == JANUS_VIDEOROOM_ERROR_ALREADY_JOINED)
                        &&& (s@ == "start"@ || s@ == "configure"@ || s@ == "pause"@ || s@
                            == "switch"@ || s@ == "leave"@) ==> (r matches AsyncAction::Forward {
                            body,
                            jsep,
                        } && body == message.body && jsep == message.jsep)
                        &&& (s@ != "join"@ && s@ != "start"@ && s@ != "configure"@ && s@
                            != "pause"@ && s@ != "switch"@ && s@ != "leave"@) ==> (r matches
                            AsyncAction::Fail(e) && e.error_code
                            == JANUS_VIDEOROOM_ERROR_INVALID_REQUEST)
                    }
                }
            }),
    {
        proof {
            lemma_async_verbs_distinct();
        }
        let request = match &message.body {
            JsonValue::Obj(pairs) => match crate::json::obj_get(pairs, "request") {
                Some(JsonValue::Str(s)) => Some(s.clone()),
                _ => None,
            },
            _ => None,
        };
        let request = match request {
            Some(s) => s,
            None => {
                return AsyncAction::Fail(
                    VideoroomError::new(
                        JANUS_VIDEOROOM_ERROR_MISSING_ELEMENT,
                        String::from_str("'request' is required"),
                    ),
                );
            },
        };
        let pt = self.session.participant_type;
        if pt == JANUS_VIDEOROOM_P_TYPE_NONE {
            if !(str_eq(request.as_str(), "join") || str_eq(request.as_str(), "joinandconfigure"))
            {
                return AsyncAction::Fail(
                    VideoroomError::new(
                        JANUS_VIDEOROOM_ERROR_JOIN_FIRST,
                        String::from_str("Invalid request on unconfigured participant"),
                    ),
                );
            }
            let room = match &message.body {
                JsonValue::Obj(pairs) => match crate::json::get_opt_u64(pairs, "room") {
                    Ok(Some(n)) => Some(n),
                    _ => None,
                },
                _ => None,
            };
            let ptype = match &message.body {
                JsonValue::Obj(pairs) => match crate::json::get_opt_str(pairs, "ptype") {
                    Ok(Some(s)) => Some(s),
                    _ => None,
                },
                _ => None,
            };
            let (room, ptype) = match (room, ptype) {
                (Some(r), Some(p)) => (r, p),
                _ => {
                    return AsyncAction::Fail(
                        VideoroomError::new(
                            JANUS_VIDEOROOM_ERROR_MISSING_ELEMENT,
                            String::from_str(
                                "Validation error: 'room' and 'ptype' are required",
                            ),
                        ),
                    );
                },
            };
            if str_eq(ptype.as_str(), "publisher") {
                match rooms.get_room_parameters(&room) {
                    Some(params) => {
                        let ghost gp = params;
                        let ghost stored = rooms.room_params()[room];
                        let create_body = params.to_body();
                        proof {
                            let av = choose|av: JsonValue|
                                crate::json::obj_fields(create_body->Obj_0@)
                                    == crate::videoroom_request::spec_create_fields(gp, av) && (
                                gp.allowed matches Some(ss) ==> av is Arr
                                    && crate::json::spec_str_array(av->Arr_0@, ss@));
                            assert(crate::videoroom_request::spec_create_fields(gp, av)
                                =~= crate::videoroom_request::spec_create_fields(stored, av));
                            assert(crate::json::obj_fields(create_body->Obj_0@)
                                == crate::videoroom_request::spec_create_fields(stored, av));
                        }
                        AsyncAction::PublisherJoin { create_body, join_body: message.body }
                    },
                    None => AsyncAction::Fail(
                        VideoroomError::new(
                            JANUS_VIDEOROOM_ERROR_NO_SUCH_ROOM,
                            String::from_str("No such room ").concat(
                                crate::helper::u64_to_string(room).as_str(),
                            ),
                        ),
                    ),
                }
            } else if str_eq(ptype.as_str(), "subscriber") || str_eq(ptype.as_str(), "listener") {
                AsyncAction::SubscriberJoin { join_body: message.body }
            } else {
                AsyncAction::Fail(
                    VideoroomError::new(
                        JANUS_VIDEOROOM_ERROR_INVALID_ELEMENT,
                        String::from_str("Invalid element (ptype)"),
                    ),
                )
            }
        } else if pt == JANUS_VIDEOROOM_P_TYPE_PUBLISHER {
            if str_eq(request.as_str(), "join") || str_eq(request.as_str(), "joinandconfigure") {
                AsyncAction::Fail(
                    VideoroomError::new(
                        JANUS_VIDEOROOM_ERROR_ALREADY_JOINED,
                        String::from_str("Already in as a publisher on this handle"),
                    ),
                )
            } else if str_eq(request.as_str(), "configure") || str_eq(
                request.as_str(),
                "publish",
            ) || str_eq(request.as_str(), "unpublish") || str_eq(request.as_str(), "leave") {
                AsyncAction::Forward { body: message.body, jsep: message.jsep }
            } else {
                AsyncAction::Fail(
                    VideoroomError::new(
                        JANUS_VIDEOROOM_ERROR_INVALID_REQUEST,
                        quoted_reason("Unknown request", request.as_str()),
                    ),
                )
            }
        } else if pt == JANUS_VIDEOROOM_P_TYPE_SUBSCRIBER {
            if str_eq(request.as_str(), "join") {
                AsyncAction::Fail(
                    VideoroomError::new(
                        JANUS_VIDEOROOM_ERROR_ALREADY_JOINED,
                        String::from_str("Already in as a subscriber on this handle"),
                    ),
                )
            } else if str_eq(request.as_str(), "start") || str_eq(
                request.as_str(),
                "configure",
            ) || str_eq(request.as_str(), "pause") || str_eq(request.as_str(), "switch")
                || str_eq(request.as_str(), "leave") {
                AsyncAction::Forward { body: message.body, jsep: message.jsep }
            } else {
                AsyncAction::Fail(
                    VideoroomError::new(
                        JANUS_VIDEOROOM_ERROR_INVALID_REQUEST,
                        quoted_reason("Unknown request", request.as_str()),
                    ),
                )
            }
        } else {
            AsyncAction::Fail(
                VideoroomError::new(
                    JANUS_VIDEOROOM_ERROR_UNKNOWN_ERROR,
                    String::from_str("Unexpected server error, plugin state malformed"),
                ),
            )
        }
    }

    /// Settles a deferred join once the upstream gateway has accepted it:
    /// the handle takes its role and the upstream reply becomes the event.
    pub fn finish_join(&mut self, publisher: bool, data: JsonValue, jsep: Option<JsonValue>) -> (r:
        JanusPluginResult)
        requires
            old(self).session.participant_type == JANUS_VIDEOROOM_P_TYPE_NONE,
        ensures
            final(self).session.participant_type == if publisher {
                JANUS_VIDEOROOM_P_TYPE_PUBLISHER
            } else {
                JANUS_VIDEOROOM_P_TYPE_SUBSCRIBER
            },
            r.kind == JanusPluginResultType::JANUS_PLUGIN_OK,
            r.content == Some(data),
            r.jsep == jsep,
            r.text is None,
    {
        if publisher {
            self.session.participant_type = JANUS_VIDEOROOM_P_TYPE_PUBLISHER;
        } else {
            self.session.participant_type = JANUS_VIDEOROOM_P_TYPE_SUBSCRIBER;
        }
        JanusPluginResult::ok(data).with_jsep(jsep)
    }
}

/// The upstream videoroom reply as the forward helper reads it: the
/// videoroom word, the embedded error when one is reported, and the payload
/// that travels on to the client.
#[derive(Debug, PartialEq)]
pub struct VideoroomResponse {
    pub videoroom: String,
    pub error: Option<VideoroomError>,
    pub data: Option<JsonValue>,
}

impl VideoroomResponse {
    pub fn new(text: String, error: Option<VideoroomError>, data: Option<JsonValue>) -> (r:
        VideoroomResponse)
        ensures
            r.videoroom == text,
            r.error == error,
            r.data == data,
    {
        VideoroomResponse { videoroom: text, error, data }
    }
}

/// Checks the plugin data an upstream forward returned, the way the
/// videoroom helper reads it: the reply must carry a `videoroom` word, and
/// an embedded error (both its code and its text) surfaces as the plugin
/// failure.
pub fn videoroom_check(data: &JsonValue) -> (r: Result<(), VideoroomError>)
    ensures
        !(spec_body_str(*data, "videoroom"@) is Some) ==> (r matches Err(e) && e.error_code
            == JANUS_VIDEOROOM_ERROR_UNKNOWN_ERROR),
        (spec_body_str(*data, "videoroom"@) is Some) ==> match (
            spec_body_u64(*data, "error_code"@),
            spec_body_str(*data, "error"@),
        ) {
            (Some(c), Some(JsonValue::Str(t))) => if c <= u32::MAX {
                r matches Err(e) && e.error_code == c && e.error == t
            } else {
                r is Ok
            },
            _ => r is Ok,
        },
{
    let pairs = match data {
        JsonValue::Obj(pairs) => pairs,
        _ => {
            return Err(
                VideoroomError::new(
                    JANUS_VIDEOROOM_ERROR_UNKNOWN_ERROR,
                    String::from_str("Error parsing janus-gateway response"),
                ),
            );
        },
    };
    match crate::json::obj_get(pairs, "videoroom") {
        Some(JsonValue::Str(_)) => {},
        _ => {
            return Err(
                VideoroomError::new(
                    JANUS_VIDEOROOM_ERROR_UNKNOWN_ERROR,
                    String::from_str("Error parsing janus-gateway response"),
                ),
            );
        },
    }
    let code = match crate::json::get_opt_u64(pairs, "error_code") {
        Ok(Some(c)) => if c <= 0xFFFF_FFFFu64 {
            Some(c)
        } else {
            None
        },
        _ => None,
    };
    let text = match crate::json::get_opt_str(pairs, "error") {
        Ok(Some(t)) => Some(t),
        _ => None,
    };
    match (code, text) {
        (Some(c), Some(t)) => Err(VideoroomError::new(c as u32, t)),
        _ => Ok(()),
    }
}

/// Wraps a forward's outcome as the worker's event result: success carries
/// the upstream data and JSEP through; a gateway failure becomes the error
/// event, code and reason kept.
pub fn forward_outcome(r: Result<(JsonValue, Option<JsonValue>), JanusError>) -> (out:
    JanusPluginResult)
    ensures
        out.kind == JanusPluginResultType::JANUS_PLUGIN_OK,
        match r {
            Ok((d, j)) => out.content == Some(d) && out.jsep == j,
            Err(e) => (out.content matches Some(c) && spec_vr_error_event(c, e.code, e.reason@))
                && out.jsep is None,
        },
{
    match r {
        Ok((d, j)) => JanusPluginResult::ok(d).with_jsep(j),
        Err(e) => JanusPluginResult::ok(VideoroomError::from_janus(e).to_json()),
    }
}

/// `base` followed by the request word in quotes.
pub open spec fn spec_quoted(t: Seq<char>) -> Seq<char> {
    " '"@ + t + "'"@
}

/// Builds `base '<word>'`, as the unknown-request reasons are phrased.
fn quoted_reason(base: &str, word: &str) -> (r: String)
    ensures
        r@ == base@ + spec_quoted(word@),
{
    let mut s = String::from_str(base);
    s.append(" '");
    s.append(word);
    s.append("'");
    proof {
        assert(s@ =~= base@ + spec_quoted(word@));
    }
    s
}

/// Whether a request word names a deferred participant operation.
fn is_async_verb(t: &str) -> (r: bool)
    ensures
        r == spec_is_async_verb(t@),
{
    str_eq(t, "join") || str_eq(t, "joinandconfigure") || str_eq(t, "configure") || str_eq(
        t,
        "publish",
    ) || str_eq(t, "unpublish") || str_eq(t, "start") || str_eq(t, "pause") || str_eq(t, "switch")
        || str_eq(t, "leave")
}

} // verus!
