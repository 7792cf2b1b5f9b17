use vstd::prelude::*;
use crate::json::{
    get_opt_bool, get_opt_str, get_opt_str_array, get_opt_u64, lookup_field, obj_fields,
    spec_str_array, JsonValue,
};

verus! {

/// The parameters of a videoroom `create` request, mirroring the upstream
/// janus_videoroom catalogue. All fields but the request word are optional.
#[derive(Debug, PartialEq)]
pub struct CreateParameters {
    pub request: String,
    pub room: Option<u64>,
    pub description: Option<String>,
    pub is_private: Option<bool>,
    pub allowed: Option<Vec<String>>,
    pub secret: Option<String>,
    pub pin: Option<String>,
    pub require_pvtid: Option<bool>,
    pub bitrate: Option<u64>,
    pub bitrate_cap: Option<bool>,
    pub fir_freq: Option<u64>,
    pub publishers: Option<u64>,
    pub audiocodec: Option<String>,
    pub videocodec: Option<String>,
    pub vp9_profile: Option<String>,
    pub h264_profile: Option<String>,
    pub opus_fec: Option<bool>,
    pub video_svc: Option<bool>,
    pub audiolevel_ext: Option<bool>,
    pub audiolevel_event: Option<bool>,
    pub audio_active_packets: Option<u64>,
    pub audio_level_average: Option<u64>,
    pub videoorient_ext: Option<bool>,
    pub playoutdelay_ext: Option<bool>,
    pub transport_wide_cc_ext: Option<bool>,
    pub record: Option<bool>,
    pub rec_dir: Option<String>,
    pub lock_record: Option<bool>,
    pub permanent: Option<bool>,
    pub notify_joining: Option<bool>,
    pub require_e2ee: Option<bool>,
}

/// One run of the create-parameter fields, in declaration order.
pub open spec fn spec_create_fields_a1(request: String, room: Option<u64>, description: Option<String>, is_private: Option<bool>) -> Seq<(Seq<char>, JsonValue)> {
    seq![("request"@, JsonValue::Str(request))] + (match room {
        Some(n) => seq![("room"@, JsonValue::UInt(n))],
        None => seq![],
    }) + (match description {
        Some(s) => seq![("description"@, JsonValue::Str(s))],
        None => seq![],
    }) + (match is_private {
        Some(b) => seq![("is_private"@, JsonValue::Bool(b))],
        None => seq![],
    })
}

/// One run of the create-parameter fields, in declaration order.
pub open spec fn spec_create_fields_a2(allowed: Option<Vec<String>>, secret: Option<String>, pin: Option<String>, require_pvtid: Option<bool>, av: JsonValue) -> Seq<(Seq<char>, JsonValue)> {
    (match allowed {
        Some(_) => seq![("allowed"@, av)],
        None => seq![],
    }) + (match secret {
        Some(s) => seq![("secret"@, JsonValue::Str(s))],
        None => seq![],
    }) + (match pin {
        Some(s) => seq![("pin"@, JsonValue::Str(s))],
        None => seq![],
    }) + (match require_pvtid {
        Some(b) => seq![("require_pvtid"@, JsonValue::Bool(b))],
        None => seq![],
    })
}

/// One run of the create-parameter fields, in declaration order.
pub open spec fn spec_create_fields_b1(bitrate: Option<u64>, bitrate_cap: Option<bool>, fir_freq: Option<u64>, publishers: Option<u64>) -> Seq<(Seq<char>, JsonValue)> {
    (match bitrate {
        Some(n) => seq![("bitrate"@, JsonValue::UInt(n))],
        None => seq![],
    }) + (match bitrate_cap {
        Some(b) => seq![("bitrate_cap"@, JsonValue::Bool(b))],
        None => seq![],
    }) + (match fir_freq {
        Some(n) => seq![("fir_freq"@, JsonValue::UInt(n))],
        None => seq![],
    }) + (match publishers {
        Some(n) => seq![("publishers"@, JsonValue::UInt(n))],
        None => seq![],
    })
}

/// One run of the create-parameter fields, in declaration order.
pub open spec fn spec_create_fields_b2(audiocodec: Option<String>, videocodec: Option<String>, vp9_profile: Option<String>, h264_profile: Option<String>) -> Seq<(Seq<char>, JsonValue)> {
    (match audiocodec {
        Some(s) => seq![("audiocodec"@, JsonValue::Str(s))],
        None => seq![],
    }) + (match videocodec {
        Some(s) => seq![("videocodec"@, JsonValue::Str(s))],
        None => seq![],
    }) + (match vp9_profile {
        Some(s) => seq![("vp9_profile"@, JsonValue::Str(s))],
        None => seq![],
    }) + (match h264_profile {
        Some(s) => seq![("h264_profile"@, JsonValue::Str(s))],
        None => seq![],
    })
}

/// One run of the create-parameter fields, in declaration order.
pub open spec fn spec_create_fields_c1(opus_fec: Option<bool>, video_svc: Option<bool>, audiolevel_ext: Option<bool>, audiolevel_event: Option<bool>) -> Seq<(Seq<char>, JsonValue)> {
    (match opus_fec {
        Some(b) => seq![("opus_fec"@, JsonValue::Bool(b))],
        None => seq![],
    }) + (match video_svc {
        Some(b) => seq![("video_svc"@, JsonValue::Bool(b))],
        None => seq![],
    }) + (match audiolevel_ext {
        Some(b) => seq![("audiolevel_ext"@, JsonValue::Bool(b))],
        None => seq![],
    }) + (match audiolevel_event {
        Some(b) => seq![("audiolevel_event"@, JsonValue::Bool(b))],
        None => seq![],
    })
}

/// One run of the create-parameter fields, in declaration order.
pub open spec fn spec_create_fields_c2(audio_active_packets: Option<u64>, audio_level_average: Option<u64>, videoorient_ext: Option<bool>, playoutdelay_ext: Option<bool>) -> Seq<(Seq<char>, JsonValue)> {
    (match audio_active_packets {
        Some(n) => seq![("audio_active_packets"@, JsonValue::UInt(n))],
        None => seq![],
    }) + (match audio_level_average {
        Some(n) => seq![("audio_level_average"@, JsonValue::UInt(n))],
        None => seq![],
    }) + (match videoorient_ext {
        Some(b) => seq![("videoorient_ext"@, JsonValue::Bool(b))],
        None => seq![],
    }) + (match playoutdelay_ext {
        Some(b) => seq![("playoutdelay_ext"@, JsonValue::Bool(b))],
        None => seq![],
    })
}

/// One run of the create-parameter fields, in declaration order.
pub open spec fn spec_create_fields_d1(transport_wide_cc_ext: Option<bool>, record: Option<bool>, rec_dir: Option<String>, lock_record: Option<bool>) -> Seq<(Seq<char>, JsonValue)> {
    (match transport_wide_cc_ext {
        Some(b) => seq![("transport_wide_cc_ext"@, JsonValue::Bool(b))],
        None => seq![],
    }) + (match record {
        Some(b) => seq![("record"@, JsonValue::Bool(b))],
        None => seq![],
    }) + (match rec_dir {
        Some(s) => seq![("rec_dir"@, JsonValue::Str(s))],
        None => seq![],
    }) + (match lock_record {
        Some(b) => seq![("lock_record"@, JsonValue::Bool(b))],
        None => seq![],
    })
}

/// One run of the create-parameter fields, in declaration order.
pub open spec fn spec_create_fields_d2(permanent: Option<bool>, notify_joining: Option<bool>, require_e2ee: Option<bool>) -> Seq<(Seq<char>, JsonValue)> {
    (match permanent {
        Some(b) => seq![("permanent"@, JsonValue::Bool(b))],
        None => seq![],
    }) + (match notify_joining {
        Some(b) => seq![("notify_joining"@, JsonValue::Bool(b))],
        None => seq![],
    }) + (match require_e2ee {
        Some(b) => seq![("require_e2ee"@, JsonValue::Bool(b))],
        None => seq![],
    })
}

/// The fields `to_body` emits for stored create parameters, in declaration
/// order; `av` stands for the encoded `allowed` array when one is present.
pub open spec fn spec_create_fields(p: CreateParameters, av: JsonValue) -> Seq<
    (Seq<char>, JsonValue),
> {
    spec_create_fields_a1(p.request, p.room, p.description, p.is_private) + spec_create_fields_a2(p.allowed, p.secret, p.pin, p.require_pvtid, av) + spec_create_fields_b1(p.bitrate, p.bitrate_cap, p.fir_freq, p.publishers) + spec_create_fields_b2(p.audiocodec, p.videocodec, p.vp9_profile, p.h264_profile) + spec_create_fields_c1(p.opus_fec, p.video_svc, p.audiolevel_ext, p.audiolevel_event) + spec_create_fields_c2(p.audio_active_packets, p.audio_level_average, p.videoorient_ext, p.playoutdelay_ext) + spec_create_fields_d1(p.transport_wide_cc_ext, p.record, p.rec_dir, p.lock_record) + spec_create_fields_d2(p.permanent, p.notify_joining, p.require_e2ee)
}

/// What a successful decode of create parameters pins down, field by field.
pub open spec fn spec_create_parse_ok(v: JsonValue, p: CreateParameters) -> bool {
    let f = obj_fields(v->Obj_0@);
    &&& v is Obj
    &&& lookup_field(f, "request"@) == Some(JsonValue::Str(p.request))
    &&& match p.room {
        Some(x) => lookup_field(f, "room"@) == Some(JsonValue::UInt(x)),
        None => lookup_field(f, "room"@) is None,
    }
    &&& match p.description {
        Some(x) => lookup_field(f, "description"@) == Some(JsonValue::Str(x)),
        None => lookup_field(f, "description"@) is None,
    }
    &&& match p.is_private {
        Some(x) => lookup_field(f, "is_private"@) == Some(JsonValue::Bool(x)),
        None => lookup_field(f, "is_private"@) is None,
    }
    &&& match p.allowed {
        Some(ss) => lookup_field(f, "allowed"@) matches Some(x) && x is Arr && spec_str_array(
            x->Arr_0@,
            ss@,
        ),
        None => lookup_field(f, "allowed"@) is None,
    }
    &&& match p.secret {
        Some(x) => lookup_field(f, "secret"@) == Some(JsonValue::Str(x)),
        None => lookup_field(f, "secret"@) is None,
    }
    &&& match p.pin {
        Some(x) => lookup_field(f, "pin"@) == Some(JsonValue::Str(x)),
        None => lookup_field(f, "pin"@) is None,
    }
    &&& match p.require_pvtid {
        Some(x) => lookup_field(f, "require_pvtid"@) == Some(JsonValue::Bool(x)),
        None => lookup_field(f, "require_pvtid"@) is None,
    }
    &&& match p.bitrate {
        Some(x) => lookup_field(f, "bitrate"@) == Some(JsonValue::UInt(x)),
        None => lookup_field(f, "bitrate"@) is None,
    }
    &&& match p.bitrate_cap {
        Some(x) => lookup_field(f, "bitrate_cap"@) == Some(JsonValue::Bool(x)),
        None => lookup_field(f, "bitrate_cap"@) is None,
    }
    &&& match p.fir_freq {
        Some(x) => lookup_field(f, "fir_freq"@) == Some(JsonValue::UInt(x)),
        None => lookup_field(f, "fir_freq"@) is None,
    }
    &&& match p.publishers {
        Some(x) => lookup_field(f, "publishers"@) == Some(JsonValue::UInt(x)),
        None => lookup_field(f, "publishers"@) is None,
    }
    &&& match p.audiocodec {
        Some(x) => lookup_field(f, "audiocodec"@) == Some(JsonValue::Str(x)),
        None => lookup_field(f, "audiocodec"@) is None,
    }
    &&& match p.videocodec {
        Some(x) => lookup_field(f, "videocodec"@) == Some(JsonValue::Str(x)),
        None => lookup_field(f, "videocodec"@) is None,
    }
    &&& match p.vp9_profile {
        Some(x) => lookup_field(f, "vp9_profile"@) == Some(JsonValue::Str(x)),
        None => lookup_field(f, "vp9_profile"@) is None,
    }
    &&& match p.h264_profile {
        Some(x) => lookup_field(f, "h264_profile"@) == Some(JsonValue::Str(x)),
        None => lookup_field(f, "h264_profile"@) is None,
    }
    &&& match p.opus_fec {
        Some(x) => lookup_field(f, "opus_fec"@) == Some(JsonValue::Bool(x)),
        None => lookup_field(f, "opus_fec"@) is None,
    }
    &&& match p.video_svc {
        Some(x) => lookup_field(f, "video_svc"@) == Some(JsonValue::Bool(x)),
        None => lookup_field(f, "video_svc"@) is None,
    }
    &&& match p.audiolevel_ext {
        Some(x) => lookup_field(f, "audiolevel_ext"@) == Some(JsonValue::Bool(x)),
        None => lookup_field(f, "audiolevel_ext"@) is None,
    }
    &&& match p.audiolevel_event {
        Some(x) => lookup_field(f, "audiolevel_event"@) == Some(JsonValue::Bool(x)),
        None => lookup_field(f, "audiolevel_event"@) is None,
    }
    &&& match p.audio_active_packets {
        Some(x) => lookup_field(f, "audio_active_packets"@) == Some(JsonValue::UInt(x)),
        None => lookup_field(f, "audio_active_packets"@) is None,
    }
    &&& match p.audio_level_average {
        Some(x) => lookup_field(f, "audio_level_average"@) == Some(JsonValue::UInt(x)),
        None => lookup_field(f, "audio_level_average"@) is None,
    }
    &&& match p.videoorient_ext {
        Some(x) => lookup_field(f, "videoorient_ext"@) == Some(JsonValue::Bool(x)),
        None => lookup_field(f, "videoorient_ext"@) is None,
    }
    &&& match p.playoutdelay_ext {
        Some(x) => lookup_field(f, "playoutdelay_ext"@) == Some(JsonValue::Bool(x)),
        None => lookup_field(f, "playoutdelay_ext"@) is None,
    }
    &&& match p.transport_wide_cc_ext {
        Some(x) => lookup_field(f, "transport_wide_cc_ext"@) == Some(JsonValue::Bool(x)),
        None => lookup_field(f, "transport_wide_cc_ext"@) is None,
    }
    &&& match p.record {
        Some(x) => lookup_field(f, "record"@) == Some(JsonValue::Bool(x)),
        None => lookup_field(f, "record"@) is None,
    }
    &&& match p.rec_dir {
        Some(x) => lookup_field(f, "rec_dir"@) == Some(JsonValue::Str(x)),
        None => lookup_field(f, "rec_dir"@) is None,
    }
    &&& match p.lock_record {
        Some(x) => lookup_field(f, "lock_record"@) == Some(JsonValue::Bool(x)),
        None => lookup_field(f, "lock_record"@) is None,
    }
    &&& match p.permanent {
        Some(x) => lookup_field(f, "permanent"@) == Some(JsonValue::Bool(x)),
        None => lookup_field(f, "permanent"@) is None,
    }
    &&& match p.notify_joining {
        Some(x) => lookup_field(f, "notify_joining"@) == Some(JsonValue::Bool(x)),
        None => lookup_field(f, "notify_joining"@) is None,
    }
    &&& match p.require_e2ee {
        Some(x) => lookup_field(f, "require_e2ee"@) == Some(JsonValue::Bool(x)),
        None => lookup_field(f, "require_e2ee"@) is None,
    }
}

/// When create parameters cannot be decoded: not an object, no request word,
/// or a field with the wrong type.
pub open spec fn spec_create_malformed(v: JsonValue) -> bool {
    if !(v is Obj) {
        true
    } else {
        let f = obj_fields(v->Obj_0@);
        ||| !(match lookup_field(f, "request"@) {
            Some(x) => x is Str,
            None => false,
        })
        ||| (match lookup_field(f, "room"@) {
            Some(x) => !(x is UInt),
            None => false,
        })
        ||| (match lookup_field(f, "description"@) {
            Some(x) => !(x is Str),
            None => false,
        })
        ||| (match lookup_field(f, "is_private"@) {
            Some(x) => !(x is Bool),
            None => false,
        })
        ||| (match lookup_field(f, "allowed"@) {
            Some(x) => !(x is Arr && forall|i: int|
                0 <= i < x->Arr_0@.len() ==> #[trigger] x->Arr_0@[i] is Str),
            None => false,
        })
        ||| (match lookup_field(f, "secret"@) {
            Some(x) => !(x is Str),
            None => false,
        })
        ||| (match lookup_field(f, "pin"@) {
            Some(x) => !(x is Str),
            None => false,
        })
        ||| (match lookup_field(f, "require_pvtid"@) {
            Some(x) => !(x is Bool),
            None => false,
        })
        ||| (match lookup_field(f, "bitrate"@) {
            Some(x) => !(x is UInt),
            None => false,
        })
        ||| (match lookup_field(f, "bitrate_cap"@) {
            Some(x) => !(x is Bool),
            None => false,
        })
        ||| (match lookup_field(f, "fir_freq"@) {
            Some(x) => !(x is UInt),
            None => false,
        })
        ||| (match lookup_field(f, "publishers"@) {
            Some(x) => !(x is UInt),
            None => false,
        })
        ||| (match lookup_field(f, "audiocodec"@) {
            Some(x) => !(x is Str),
            None => false,
        })
        ||| (match lookup_field(f, "videocodec"@) {
            Some(x) => !(x is Str),
            None => false,
        })
        ||| (match lookup_field(f, "vp9_profile"@) {
            Some(x) => !(x is Str),
            None => false,
        })
        ||| (match lookup_field(f, "h264_profile"@) {
            Some(x) => !(x is Str),
            None => false,
        })
        ||| (match lookup_field(f, "opus_fec"@) {
            Some(x) => !(x is Bool),
            None => false,
        })
        ||| (match lookup_field(f, "video_svc"@) {
            Some(x) => !(x is Bool),
            None => false,
        })
        ||| (match lookup_field(f, "audiolevel_ext"@) {
            Some(x) => !(x is Bool),
            None => false,
        })
        ||| (match lookup_field(f, "audiolevel_event"@) {
            Some(x) => !(x is Bool),
            None => false,
        })
        ||| (match lookup_field(f, "audio_active_packets"@) {
            Some(x) => !(x is UInt),
            None => false,
        })
        ||| (match lookup_field(f, "audio_level_average"@) {
            Some(x) => !(x is UInt),
            None => false,
        })
        ||| (match lookup_field(f, "videoorient_ext"@) {
            Some(x) => !(x is Bool),
            None => false,
        })
        ||| (match lookup_field(f, "playoutdelay_ext"@) {
            Some(x) => !(x is Bool),
            None => false,
        })
        ||| (match lookup_field(f, "transport_wide_cc_ext"@) {
            Some(x) => !(x is Bool),
            None => false,
        })
        ||| (match lookup_field(f, "record"@) {
            Some(x) => !(x is Bool),
            None => false,
        })
        ||| (match lookup_field(f, "rec_dir"@) {
            Some(x) => !(x is Str),
            None => false,
        })
        ||| (match lookup_field(f, "lock_record"@) {
            Some(x) => !(x is Bool),
            None => false,
        })
        ||| (match lookup_field(f, "permanent"@) {
            Some(x) => !(x is Bool),
            None => false,
        })
        ||| (match lookup_field(f, "notify_joining"@) {
            Some(x) => !(x is Bool),
            None => false,
        })
        ||| (match lookup_field(f, "require_e2ee"@) {
            Some(x) => !(x is Bool),
            None => false,
        })
    }
}

#[verifier::rlimit(100)]
#[verifier::spinoff_prover]
fn push_create_fields_a1(pairs: &mut Vec<(String, JsonValue)>, request: String, room: Option<u64>, description: Option<String>, is_private: Option<bool>)
    ensures
        obj_fields(final(pairs)@) == obj_fields(old(pairs)@) + spec_create_fields_a1(request, room, description, is_private),
{
    let ghost old_pairs = pairs@;
    pairs.push((String::from_str("request"), JsonValue::Str(request)));
    if let Some(n) = room {
        pairs.push((String::from_str("room"), JsonValue::UInt(n)));
    }
    if let Some(s) = description {
        pairs.push((String::from_str("description"), JsonValue::Str(s)));
    }
    if let Some(b) = is_private {
        pairs.push((String::from_str("is_private"), JsonValue::Bool(b)));
    }
    proof {
        assert(obj_fields(pairs@) =~= obj_fields(old_pairs) + spec_create_fields_a1(request, room, description, is_private));
    }
}

#[verifier::rlimit(100)]
#[verifier::spinoff_prover]
fn push_create_fields_a2(pairs: &mut Vec<(String, JsonValue)>, allowed: Option<Vec<String>>, secret: Option<String>, pin: Option<String>, require_pvtid: Option<bool>) -> (gav: Ghost<JsonValue>)
    ensures
        obj_fields(final(pairs)@) == obj_fields(old(pairs)@) + spec_create_fields_a2(allowed, secret, pin, require_pvtid, gav@),
        allowed matches Some(ss) ==> gav@ is Arr && spec_str_array(gav@->Arr_0@, ss@),
{
    let ghost old_pairs = pairs@;
    let ghost mut av: JsonValue = JsonValue::Null;
    if let Some(ss) = allowed {
        let mut items: Vec<JsonValue> = Vec::new();
        let mut i: usize = 0;
        while i < ss.len()
            invariant
                0 <= i <= ss@.len(),
                items@.len() == i,
                forall|j: int| 0 <= j < i ==> items@[j] == JsonValue::Str(#[trigger] ss@[j]),
            decreases ss.len() - i,
        {
            items.push(JsonValue::Str(ss[i].clone()));
            i = i + 1;
        }
        let value = JsonValue::Arr(items);
        proof {
            av = value;
        }
        pairs.push((String::from_str("allowed"), value));
    }
    if let Some(s) = secret {
        pairs.push((String::from_str("secret"), JsonValue::Str(s)));
    }
    if let Some(s) = pin {
        pairs.push((String::from_str("pin"), JsonValue::Str(s)));
    }
    if let Some(b) = require_pvtid {
        pairs.push((String::from_str("require_pvtid"), JsonValue::Bool(b)));
    }
    proof {
        assert(obj_fields(pairs@) =~= obj_fields(old_pairs) + spec_create_fields_a2(allowed, secret, pin, require_pvtid, av));
    }
    Ghost(av)
}

#[verifier::rlimit(100)]
#[verifier::spinoff_prover]
fn push_create_fields_b1(pairs: &mut Vec<(String, JsonValue)>, bitrate: Option<u64>, bitrate_cap: Option<bool>, fir_freq: Option<u64>, publishers: Option<u64>)
    ensures
        obj_fields(final(pairs)@) == obj_fields(old(pairs)@) + spec_create_fields_b1(bitrate, bitrate_cap, fir_freq, publishers),
{
    let ghost old_pairs = pairs@;
    if let Some(n) = bitrate {
        pairs.push((String::from_str("bitrate"), JsonValue::UInt(n)));
    }
    if let Some(b) = bitrate_cap {
        pairs.push((String::from_str("bitrate_cap"), JsonValue::Bool(b)));
    }
    if let Some(n) = fir_freq {
        pairs.push((String::from_str("fir_freq"), JsonValue::UInt(n)));
    }
    if let Some(n) = publishers {
        pairs.push((String::from_str("publishers"), JsonValue::UInt(n)));
    }
    proof {
        assert(obj_fields(pairs@) =~= obj_fields(old_pairs) + spec_create_fields_b1(bitrate, bitrate_cap, fir_freq, publishers));
    }
}

#[verifier::rlimit(100)]
#[verifier::spinoff_prover]
fn push_create_fields_b2(pairs: &mut Vec<(String, JsonValue)>, audiocodec: Option<String>, videocodec: Option<String>, vp9_profile: Option<String>, h264_profile: Option<String>)
    ensures
        obj_fields(final(pairs)@) == obj_fields(old(pairs)@) + spec_create_fields_b2(audiocodec, videocodec, vp9_profile, h264_profile),
{
    let ghost old_pairs = pairs@;
    if let Some(s) = audiocodec {
        pairs.push((String::from_str("audiocodec"), JsonValue::Str(s)));
    }
    if let Some(s) = videocodec {
        pairs.push((String::from_str("videocodec"), JsonValue::Str(s)));
    }
    if let Some(s) = vp9_profile {
        pairs.push((String::from_str("vp9_profile"), JsonValue::Str(s)));
    }
    if let Some(s) = h264_profile {
        pairs.push((String::from_str("h264_profile"), JsonValue::Str(s)));
    }
    proof {
        assert(obj_fields(pairs@) =~= obj_fields(old_pairs) + spec_create_fields_b2(audiocodec, videocodec, vp9_profile, h264_profile));
    }
}

#[verifier::rlimit(100)]
#[verifier::spinoff_prover]
fn push_create_fields_c1(pairs: &mut Vec<(String, JsonValue)>, opus_fec: Option<bool>, video_svc: Option<bool>, audiolevel_ext: Option<bool>, audiolevel_event: Option<bool>)
    ensures
        obj_fields(final(pairs)@) == obj_fields(old(pairs)@) + spec_create_fields_c1(opus_fec, video_svc, audiolevel_ext, audiolevel_event),
{
    let ghost old_pairs = pairs@;
    if let Some(b) = opus_fec {
        pairs.push((String::from_str("opus_fec"), JsonValue::Bool(b)));
    }
    if let Some(b) = video_svc {
        pairs.push((String::from_str("video_svc"), JsonValue::Bool(b)));
    }
    if let Some(b) = audiolevel_ext {
        pairs.push((String::from_str("audiolevel_ext"), JsonValue::Bool(b)));
    }
    if let Some(b) = audiolevel_event {
        pairs.push((String::from_str("audiolevel_event"), JsonValue::Bool(b)));
    }
    proof {
        assert(obj_fields(pairs@) =~= obj_fields(old_pairs) + spec_create_fields_c1(opus_fec, video_svc, audiolevel_ext, audiolevel_event));
    }
}

#[verifier::rlimit(100)]
#[verifier::spinoff_prover]
fn push_create_fields_c2(pairs: &mut Vec<(String, JsonValue)>, audio_active_packets: Option<u64>, audio_level_average: Option<u64>, videoorient_ext: Option<bool>, playoutdelay_ext: Option<bool>)
    ensures
        obj_fields(final(pairs)@) == obj_fields(old(pairs)@) + spec_create_fields_c2(audio_active_packets, audio_level_average, videoorient_ext, playoutdelay_ext),
{
    let ghost old_pairs = pairs@;
    if let Some(n) = audio_active_packets {
        pairs.push((String::from_str("audio_active_packets"), JsonValue::UInt(n)));
    }
    if let Some(n) = audio_level_average {
        pairs.push((String::from_str("audio_level_average"), JsonValue::UInt(n)));
    }
    if let Some(b) = videoorient_ext {
        pairs.push((String::from_str("videoorient_ext"), JsonValue::Bool(b)));
    }
    if let Some(b) = playoutdelay_ext {
        pairs.push((String::from_str("playoutdelay_ext"), JsonValue::Bool(b)));
    }
    proof {
        assert(obj_fields(pairs@) =~= obj_fields(old_pairs) + spec_create_fields_c2(audio_active_packets, audio_level_average, videoorient_ext, playoutdelay_ext));
    }
}

#[verifier::rlimit(100)]
#[verifier::spinoff_prover]
fn push_create_fields_d1(pairs: &mut Vec<(String, JsonValue)>, transport_wide_cc_ext: Option<bool>, record: Option<bool>, rec_dir: Option<String>, lock_record: Option<bool>)
    ensures
        obj_fields(final(pairs)@) == obj_fields(old(pairs)@) + spec_create_fields_d1(transport_wide_cc_ext, record, rec_dir, lock_record),
{
    let ghost old_pairs = pairs@;
    if let Some(b) = transport_wide_cc_ext {
        pairs.push((String::from_str("transport_wide_cc_ext"), JsonValue::Bool(b)));
    }
    if let Some(b) = record {
        pairs.push((String::from_str("record"), JsonValue::Bool(b)));
    }
    if let Some(s) = rec_dir {
        pairs.push((String::from_str("rec_dir"), JsonValue::Str(s)));
    }
    if let Some(b) = lock_record {
        pairs.push((String::from_str("lock_record"), JsonValue::Bool(b)));
    }
    proof {
        assert(obj_fields(pairs@) =~= obj_fields(old_pairs) + spec_create_fields_d1(transport_wide_cc_ext, record, rec_dir, lock_record));
    }
}

#[verifier::rlimit(100)]
#[verifier::spinoff_prover]
fn push_create_fields_d2(pairs: &mut Vec<(String, JsonValue)>, permanent: Option<bool>, notify_joining: Option<bool>, require_e2ee: Option<bool>)
    ensures
        obj_fields(final(pairs)@) == obj_fields(old(pairs)@) + spec_create_fields_d2(permanent, notify_joining, require_e2ee),
{
    let ghost old_pairs = pairs@;
    if let Some(b) = permanent {
        pairs.push((String::from_str("permanent"), JsonValue::Bool(b)));
    }
    if let Some(b) = notify_joining {
        pairs.push((String::from_str("notify_joining"), JsonValue::Bool(b)));
    }
    if let Some(b) = require_e2ee {
        pairs.push((String::from_str("require_e2ee"), JsonValue::Bool(b)));
    }
    proof {
        assert(obj_fields(pairs@) =~= obj_fields(old_pairs) + spec_create_fields_d2(permanent, notify_joining, require_e2ee));
    }
}

impl CreateParameters {
    /// Decodes create parameters from a request body. Unknown fields are
    /// ignored; every known field must have its documented type.
    pub fn from_body(v: &JsonValue) -> (r: Result<CreateParameters, ()>)
        ensures
            r is Ok <==> !spec_create_malformed(*v),
            r matches Ok(p) ==> spec_create_parse_ok(*v, p),
    {
        let pairs = match v {
            JsonValue::Obj(pairs) => pairs,
            _ => {
                return Err(());
            },
        };
        let request = match get_opt_str(pairs, "request") {
            Ok(Some(s)) => s,
            _ => {
                return Err(());
            },
        };
        let room = match get_opt_u64(pairs, "room") {
            Ok(x) => x,
            Err(_) => {
                return Err(());
            },
        };
        let description = match get_opt_str(pairs, "description") {
            Ok(x) => x,
            Err(_) => {
                return Err(());
            },
        };
        let is_private = match get_opt_bool(pairs, "is_private") {
            Ok(x) => x,
            Err(_) => {
                return Err(());
            },
        };
        let allowed = match get_opt_str_array(pairs, "allowed") {
            Ok(x) => x,
            Err(_) => {
                return Err(());
            },
        };
        let secret = match get_opt_str(pairs, "secret") {
            Ok(x) => x,
            Err(_) => {
                return Err(());
            },
        };
        let pin = match get_opt_str(pairs, "pin") {
            Ok(x) => x,
            Err(_) => {
                return Err(());
            },
        };
        let require_pvtid = match get_opt_bool(pairs, "require_pvtid") {
            Ok(x) => x,
            Err(_) => {
                return Err(());
            },
        };
        let bitrate = match get_opt_u64(pairs, "bitrate") {
            Ok(x) => x,
            Err(_) => {
                return Err(());
            },
        };
        let bitrate_cap = match get_opt_bool(pairs, "bitrate_cap") {
            Ok(x) => x,
            Err(_) => {
                return Err(());
            },
        };
        let fir_freq = match get_opt_u64(pairs, "fir_freq") {
            Ok(x) => x,
            Err(_) => {
                return Err(());
            },
        };
        let publishers = match get_opt_u64(pairs, "publishers") {
            Ok(x) => x,
            Err(_) => {
                return Err(());
            },
        };
        let audiocodec = match get_opt_str(pairs, "audiocodec") {
            Ok(x) => x,
            Err(_) => {
                return Err(());
            },
        };
        let videocodec = match get_opt_str(pairs, "videocodec") {
            Ok(x) => x,
            Err(_) => {
                return Err(());
            },
        };
        let vp9_profile = match get_opt_str(pairs, "vp9_profile") {
            Ok(x) => x,
            Err(_) => {
                return Err(());
            },
        };
        let h264_profile = match get_opt_str(pairs, "h264_profile") {
            Ok(x) => x,
            Err(_) => {
                return Err(());
            },
        };
        let opus_fec = match get_opt_bool(pairs, "opus_fec") {
            Ok(x) => x,
            Err(_) => {
                return Err(());
            },
        };
        let video_svc = match get_opt_bool(pairs, "video_svc") {
            Ok(x) => x,
            Err(_) => {
                return Err(());
            },
        };
        let audiolevel_ext = match get_opt_bool(pairs, "audiolevel_ext") {
            Ok(x) => x,
            Err(_) => {
                return Err(());
            },
        };
        let audiolevel_event = match get_opt_bool(pairs, "audiolevel_event") {
            Ok(x) => x,
            Err(_) => {
                return Err(());
            },
        };
        let audio_active_packets = match get_opt_u64(pairs, "audio_active_packets") {
            Ok(x) => x,
            Err(_) => {
                return Err(());
            },
        };
        let audio_level_average = match get_opt_u64(pairs, "audio_level_average") {
            Ok(x) => x,
            Err(_) => {
                return Err(());
            },
        };
        let videoorient_ext = match get_opt_bool(pairs, "videoorient_ext") {
            Ok(x) => x,
            Err(_) => {
                return Err(());
            },
        };
        let playoutdelay_ext = match get_opt_bool(pairs, "playoutdelay_ext") {
            Ok(x) => x,
            Err(_) => {
                return Err(());
            },
        };
        let transport_wide_cc_ext = match get_opt_bool(pairs, "transport_wide_cc_ext") {
            Ok(x) => x,
            Err(_) => {
                return Err(());
            },
        };
        let record = match get_opt_bool(pairs, "record") {
            Ok(x) => x,
            Err(_) => {
                return Err(());
            },
        };
        let rec_dir = match get_opt_str(pairs, "rec_dir") {
            Ok(x) => x,
            Err(_) => {
                return Err(());
            },
        };
        let lock_record = match get_opt_bool(pairs, "lock_record") {
            Ok(x) => x,
            Err(_) => {
                return Err(());
            },
        };
        let permanent = match get_opt_bool(pairs, "permanent") {
            Ok(x) => x,
            Err(_) => {
                return Err(());
            },
        };
        let notify_joining = match get_opt_bool(pairs, "notify_joining") {
            Ok(x) => x,
            Err(_) => {
                return Err(());
            },
        };
        let require_e2ee = match get_opt_bool(pairs, "require_e2ee") {
            Ok(x) => x,
            Err(_) => {
                return Err(());
            },
        };
        proof {
            match &allowed {
                Some(ss) => {
                    let x = lookup_field(obj_fields(pairs@), "allowed"@).unwrap();
                    assert forall|i: int|
                        0 <= i < x->Arr_0@.len() implies #[trigger] x->Arr_0@[i] is Str by {
                        assert(x->Arr_0@[i] == JsonValue::Str(ss@[i]));
                    }
                },
                None => {},
            }
        }
        Ok(CreateParameters {
            request,
            room,
            description,
            is_private,
            allowed,
            secret,
            pin,
            require_pvtid,
            bitrate,
            bitrate_cap,
            fir_freq,
            publishers,
            audiocodec,
            videocodec,
            vp9_profile,
            h264_profile,
            opus_fec,
            video_svc,
            audiolevel_ext,
            audiolevel_event,
            audio_active_packets,
            audio_level_average,
            videoorient_ext,
            playoutdelay_ext,
            transport_wide_cc_ext,
            record,
            rec_dir,
            lock_record,
            permanent,
            notify_joining,
            require_e2ee,
        })
    }

    /// Encodes the parameters back into a request body, eliding unset fields.
    pub fn to_body(self) -> (r: JsonValue)
        ensures
            r is Obj,
            exists|av: JsonValue|
                obj_fields(r->Obj_0@) == spec_create_fields(self, av) && (self.allowed matches Some(
                    ss,
                ) ==> av is Arr && spec_str_array(av->Arr_0@, ss@)),
    {
        let CreateParameters {
            request,
            room,
            description,
            is_private,
            allowed,
            secret,
            pin,
            require_pvtid,
            bitrate,
            bitrate_cap,
            fir_freq,
            publishers,
            audiocodec,
            videocodec,
            vp9_profile,
            h264_profile,
            opus_fec,
            video_svc,
            audiolevel_ext,
            audiolevel_event,
            audio_active_packets,
            audio_level_average,
            videoorient_ext,
            playoutdelay_ext,
            transport_wide_cc_ext,
            record,
            rec_dir,
            lock_record,
            permanent,
            notify_joining,
            require_e2ee,
        } = self;
        let mut pairs: Vec<(String, JsonValue)> = Vec::new();
        proof {
            assert(obj_fields(pairs@) =~= Seq::<(Seq<char>, JsonValue)>::empty());
        }
        push_create_fields_a1(&mut pairs, request, room, description, is_private);
        let gav = push_create_fields_a2(&mut pairs, allowed, secret, pin, require_pvtid);
        push_create_fields_b1(&mut pairs, bitrate, bitrate_cap, fir_freq, publishers);
        push_create_fields_b2(&mut pairs, audiocodec, videocodec, vp9_profile, h264_profile);
        push_create_fields_c1(&mut pairs, opus_fec, video_svc, audiolevel_ext, audiolevel_event);
        push_create_fields_c2(&mut pairs, audio_active_packets, audio_level_average, videoorient_ext, playoutdelay_ext);
        push_create_fields_d1(&mut pairs, transport_wide_cc_ext, record, rec_dir, lock_record);
        push_create_fields_d2(&mut pairs, permanent, notify_joining, require_e2ee);
        proof {
            assert(obj_fields(pairs@) =~= spec_create_fields(self, gav@));
        }
        JsonValue::Obj(pairs)
    }
}


// The rest of the videoroom request catalogue, mirroring the upstream
// janus_videoroom parameter tables.
/// A room id: numeric here; string ids are a server-side option upstream.
#[derive(Debug, PartialEq)]
pub enum Identity {
    Integer(u64),
    Text(String),
}

/// The request word every videoroom body carries.
#[derive(Debug, PartialEq)]
pub struct RequestParameters {
    pub request: String,
}

/// The admin key mixin, when the room catalogue is locked.
#[derive(Debug, PartialEq)]
pub struct AdminKeyParameters {
    pub admin_key: String,
}

/// The room mixin.
#[derive(Debug, PartialEq)]
pub struct RoomParameters {
    pub room: Identity,
}

/// The id mixin.
#[derive(Debug, PartialEq)]
pub struct IdParameters {
    pub id: Identity,
}

/// The publisher id mixin.
#[derive(Debug, PartialEq)]
pub struct PidParameters {
    pub publisher_id: Identity,
}

/// The feed mixin.
#[derive(Debug, PartialEq)]
pub struct FeedParameters {
    pub feed: Identity,
}

/// The secret mixin.
#[derive(Debug, PartialEq)]
pub struct SecretParameters {
    pub secret: String,
}

/// Edits a room's stored configuration.
#[derive(Debug, PartialEq)]
pub struct EditParameters {
    pub secret: Option<String>,
    pub new_description: Option<String>,
    pub new_is_private: Option<bool>,
    pub new_secret: Option<String>,
    pub new_pin: Option<String>,
    pub new_require_pvtid: Option<bool>,
    pub new_bitrate: Option<u64>,
    pub new_fir_freq: Option<u64>,
    pub new_publishers: Option<u64>,
    pub new_lock_record: Option<bool>,
    pub permanent: Option<bool>,
}

/// Destroys a room.
#[derive(Debug, PartialEq)]
pub struct DestroyParameters {
    pub secret: Option<String>,
    pub permanent: Option<bool>,
}

/// Lists the rooms.
#[derive(Debug, PartialEq)]
pub struct ListParameters {
}

/// Starts an RTP forwarder.
#[derive(Debug, PartialEq)]
pub struct RtpForwardParameters {
    pub secret: Option<String>,
    pub video_port: Option<u64>,
    pub video_rtcp_port: Option<u64>,
    pub video_ssrc: Option<u64>,
    pub video_pt: Option<u64>,
    pub video_port_2: Option<u64>,
    pub video_ssrc_2: Option<u64>,
    pub video_pt_2: Option<u64>,
    pub video_port_3: Option<u64>,
    pub video_ssrc_3: Option<u64>,
    pub video_pt_3: Option<u64>,
    pub audio_port: Option<u64>,
    pub audio_rtcp_port: Option<u64>,
    pub audio_ssrc: Option<u64>,
    pub audio_pt: Option<u64>,
    pub data_port: Option<u64>,
    pub host: String,
    pub host_family: Option<String>,
    pub simulcast: Option<bool>,
    pub srtp_suite: Option<u64>,
    pub srtp_crypto: Option<String>,
}

/// Stops an RTP forwarder.
#[derive(Debug, PartialEq)]
pub struct StopRtpForwardParameters {
    pub secret: Option<String>,
    pub stream_id: u64,
}

/// Asks whether a room exists.
#[derive(Debug, PartialEq)]
pub struct ExistsParameters {
}

/// Edits a room's allowed list.
#[derive(Debug, PartialEq)]
pub struct AllowedParameters {
    pub secret: Option<String>,
    pub action: String,
    pub allowed: Option<Vec<String>>,
}

/// Kicks a participant.
#[derive(Debug, PartialEq)]
pub struct KickParameters {
    pub secret: Option<String>,
}

/// Lists a room's participants.
#[derive(Debug, PartialEq)]
pub struct ListParticipantsParameters {
}

/// Lists a room's RTP forwarders.
#[derive(Debug, PartialEq)]
pub struct ListForwardersParameters {
    pub secret: Option<String>,
}

/// Toggles recording.
#[derive(Debug, PartialEq)]
pub struct RecordParameters {
    pub record: bool,
}

/// Joins a room as a publisher or a subscriber.
#[derive(Debug, PartialEq)]
pub struct JoinParameters {
    pub request: String,
    pub room: u64,
    pub feed: Option<u64>,
    pub ptype: String,
    pub audio: Option<bool>,
    pub video: Option<bool>,
    pub data: Option<bool>,
    pub bitrate: Option<u64>,
    pub record: Option<bool>,
    pub filename: Option<String>,
    pub token: Option<String>,
}

/// Publishes a stream.
#[derive(Debug, PartialEq)]
pub struct PublishParameters {
    pub audio: Option<bool>,
    pub audiocodec: Option<String>,
    pub video: Option<bool>,
    pub videocodec: Option<String>,
    pub data: Option<bool>,
    pub bitrate: Option<u64>,
    pub keyframe: Option<bool>,
    pub record: Option<bool>,
    pub filename: Option<String>,
    pub display: Option<String>,
    pub secret: Option<String>,
    pub audio_level_averge: Option<u64>,
    pub audio_active_packets: Option<u64>,
    pub update: Option<bool>,
    pub restart: Option<bool>,
}

/// A publisher's display options.
#[derive(Debug, PartialEq)]
pub struct PublisherParameters {
    pub display: Option<String>,
}

/// Reconfigures a participant.
#[derive(Debug, PartialEq)]
pub struct ConfigureParameters {
    pub audio: Option<bool>,
    pub video: Option<bool>,
    pub data: Option<bool>,
    pub audio_level_averge: Option<u64>,
    pub audio_active_packets: Option<u64>,
    pub substream: Option<u64>,
    pub temporal: Option<u64>,
    pub fallback: Option<u64>,
    pub spatial_layer: Option<u64>,
    pub temporal_layer: Option<u64>,
    pub update: Option<bool>,
}

/// A subscriber's stream selection.
#[derive(Debug, PartialEq)]
pub struct SubscriberParameters {
    pub private_id: Option<u64>,
    pub close_pc: Option<bool>,
    pub audio: Option<bool>,
    pub video: Option<bool>,
    pub data: Option<bool>,
    pub offer_audio: Option<bool>,
    pub offer_video: Option<bool>,
    pub offer_data: Option<bool>,
    pub substream: Option<u64>,
    pub temporal: Option<u64>,
    pub fallback: Option<u64>,
    pub spatial_layer: Option<u64>,
    pub temporal_layer: Option<u64>,
}

} // verus!
