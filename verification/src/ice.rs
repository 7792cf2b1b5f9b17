use vstd::prelude::*;
use crate::error::{JanusError, JANUS_ERROR_MISSING_MANDATORY_ELEMENT};
use crate::json::{
    get_opt_bool, get_opt_str, get_opt_u64, lookup_field, obj_fields, JsonValue,
};

verus! {

/// One incremental ICE candidate as it travels inside a `trickle` envelope:
/// either an end-of-candidates marker (`completed`) or a candidate line with
/// its stream index.
#[derive(Debug, PartialEq)]
pub struct JanusIceTrickle {
    pub sdp_mid: Option<String>,
    pub sdp_mline_index: Option<u64>,
    pub candidate: Option<String>,
    pub completed: Option<bool>,
}

/// What a successful candidate decode pins down: each of the four optional
/// fields holds exactly what stands under its key, when typed as documented.
pub open spec fn spec_trickle_parse_ok(v: JsonValue, t: JanusIceTrickle) -> bool {
    let fields = obj_fields(v->Obj_0@);
    &&& v is Obj
    &&& match t.sdp_mid {
        Some(s) => lookup_field(fields, "sdpMid"@) == Some(JsonValue::Str(s)),
        None => lookup_field(fields, "sdpMid"@) is None,
    }
    &&& match t.sdp_mline_index {
        Some(n) => lookup_field(fields, "sdpMLineIndex"@) == Some(JsonValue::UInt(n)),
        None => lookup_field(fields, "sdpMLineIndex"@) is None,
    }
    &&& match t.candidate {
        Some(s) => lookup_field(fields, "candidate"@) == Some(JsonValue::Str(s)),
        None => lookup_field(fields, "candidate"@) is None,
    }
    &&& match t.completed {
        Some(b) => lookup_field(fields, "completed"@) == Some(JsonValue::Bool(b)),
        None => lookup_field(fields, "completed"@) is None,
    }
}

/// When a candidate entry cannot be decoded: it is not an object, or one of
/// its fields is present with the wrong type.
pub open spec fn spec_trickle_malformed(v: JsonValue) -> bool {
    if !(v is Obj) {
        true
    } else {
        let fields = obj_fields(v->Obj_0@);
        ||| (match lookup_field(fields, "sdpMid"@) {
            Some(x) => !(x is Str),
            None => false,
        })
        ||| (match lookup_field(fields, "sdpMLineIndex"@) {
            Some(x) => !(x is UInt),
            None => false,
        })
        ||| (match lookup_field(fields, "candidate"@) {
            Some(x) => !(x is Str),
            None => false,
        })
        ||| (match lookup_field(fields, "completed"@) {
            Some(x) => !(x is Bool),
            None => false,
        })
    }
}

/// Validity read directly off a well-typed candidate object: a `completed`
/// marker, or a stream reference plus a candidate line.
pub open spec fn spec_trickle_valid_json(v: JsonValue) -> bool {
    let fields = obj_fields(v->Obj_0@);
    &&& v is Obj
    &&& ((lookup_field(fields, "completed"@) matches Some(x) && x is Bool) || (((lookup_field(
        fields,
        "sdpMid"@,
    ) matches Some(x) && x is Str) || (lookup_field(fields, "sdpMLineIndex"@) matches Some(x)
        && x is UInt)) && (lookup_field(fields, "candidate"@) matches Some(x) && x is Str)))
}

/// Whether a candidate entry is acceptable: done markers always are; anything
/// else must name a stream (`sdpMid` or `sdpMLineIndex`) and carry a
/// candidate line.
pub open spec fn spec_trickle_valid(t: JanusIceTrickle) -> bool {
    t.completed is Some || ((t.sdp_mid is Some || t.sdp_mline_index is Some)
        && t.candidate is Some)
}

impl JanusIceTrickle {
    /// Checks the entry as the proxy does before forwarding it: `Ok` exactly
    /// on acceptable entries, and a missing-element error otherwise.
    pub fn validate(&self) -> (r: Result<(), JanusError>)
        ensures
            r is Ok <==> spec_trickle_valid(*self),
            r is Err ==> r->Err_0.code == JANUS_ERROR_MISSING_MANDATORY_ELEMENT,
    {
        if self.completed.is_some() {
            return Ok(());
        }

        if self.sdp_mid.is_none() && self.sdp_mline_index.is_none() {
            return Err(
                JanusError::new(
                    JANUS_ERROR_MISSING_MANDATORY_ELEMENT,
                    String::from_str(
                        "Trickle error: missing mandatory element (sdpMid or sdpMLineIndex)",
                    ),
                ),
            );
        }

        if self.candidate.is_none() {
            return Err(
                JanusError::new(
                    JANUS_ERROR_MISSING_MANDATORY_ELEMENT,
                    String::from_str("Trickle error: missing mandatory element (candidate)"),
                ),
            );
        }

        Ok(())
    }

    /// Reads a candidate entry out of a JSON value; all four fields are
    /// optional, but each must have its documented type.
    pub fn from_json(v: &JsonValue) -> (r: Result<JanusIceTrickle, ()>)
        ensures
            r is Ok <==> !spec_trickle_malformed(*v),
            r matches Ok(t) ==> spec_trickle_parse_ok(*v, t),
    {
        let pairs = match v {
            JsonValue::Obj(pairs) => pairs,
            _ => {
                return Err(());
            },
        };
        let sdp_mid = match get_opt_str(pairs, "sdpMid") {
            Ok(x) => x,
            Err(_) => {
                return Err(());
            },
        };
        let sdp_mline_index = match get_opt_u64(pairs, "sdpMLineIndex") {
            Ok(x) => x,
            Err(_) => {
                return Err(());
            },
        };
        let candidate = match get_opt_str(pairs, "candidate") {
            Ok(x) => x,
            Err(_) => {
                return Err(());
            },
        };
        let completed = match get_opt_bool(pairs, "completed") {
            Ok(x) => x,
            Err(_) => {
                return Err(());
            },
        };
        Ok(JanusIceTrickle { sdp_mid, sdp_mline_index, candidate, completed })
    }

    /// Writes the entry back out as a JSON object; absent fields are elided.
    pub fn to_json(self) -> (r: JsonValue)
        ensures
            r is Obj,
            obj_fields(r->Obj_0@) == spec_trickle_fields(self),
    {
        let mut pairs: Vec<(String, JsonValue)> = Vec::new();
        if let Some(s) = self.sdp_mid {
            pairs.push((String::from_str("sdpMid"), JsonValue::Str(s)));
        }
        if let Some(n) = self.sdp_mline_index {
            pairs.push((String::from_str("sdpMLineIndex"), JsonValue::UInt(n)));
        }
        if let Some(s) = self.candidate {
            pairs.push((String::from_str("candidate"), JsonValue::Str(s)));
        }
        if let Some(b) = self.completed {
            pairs.push((String::from_str("completed"), JsonValue::Bool(b)));
        }
        proof {
            assert(obj_fields(pairs@) =~= spec_trickle_fields(self));
        }
        JsonValue::Obj(pairs)
    }
}

/// The fields `to_json` emits, in order.
pub open spec fn spec_trickle_fields(t: JanusIceTrickle) -> Seq<(Seq<char>, JsonValue)> {
    (match t.sdp_mid {
        Some(s) => seq![("sdpMid"@, JsonValue::Str(s))],
        None => seq![],
    }) + (match t.sdp_mline_index {
        Some(n) => seq![("sdpMLineIndex"@, JsonValue::UInt(n))],
        None => seq![],
    }) + (match t.candidate {
        Some(s) => seq![("candidate"@, JsonValue::Str(s))],
        None => seq![],
    }) + (match t.completed {
        Some(b) => seq![("completed"@, JsonValue::Bool(b))],
        None => seq![],
    })
}

} // verus!
