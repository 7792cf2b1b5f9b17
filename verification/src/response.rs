use vstd::prelude::*;
use crate::error::{JanusError, JANUS_ERROR_MISSING_MANDATORY_ELEMENT};
use crate::json::{lookup_field, obj_fields, str_eq, JsonValue};
use crate::request::{lemma_lookup_push, lemma_lookup_none_no_key, lemma_lookup_skip_prefix};

verus! {

/// The plugin-originated part of a response: which plugin answered and what
/// it said.
#[derive(Debug, PartialEq)]
pub struct PluginResultWrapper {
    pub plugin: String,
    pub data: JsonValue,
}

/// The Janus response envelope: the response kind under `janus`, the echoed
/// transaction (empty means elided), an optional protocol error, the session
/// and handle ids (zero means elided), and the optional payloads.
#[derive(Debug, PartialEq)]
pub struct JanusResponse {
    pub janus: String,
    pub transaction: String,
    pub error: Option<JanusError>,
    pub session_id: u64,
    pub sender: u64,
    pub data: Option<JsonValue>,
    pub plugindata: Option<PluginResultWrapper>,
    pub jsep: Option<JsonValue>,
}

impl JanusResponse {
    /// A bare response of the given kind, addressed to a session.
    pub fn new(name: &str, session: u64, transaction: String) -> (r: JanusResponse)
        ensures
            r.janus@ == name@,
            r.transaction == transaction,
            r.error is None,
            r.session_id == session,
            r.sender == 0,
            r.data is None,
            r.plugindata is None,
            r.jsep is None,
    {
        JanusResponse {
            janus: String::from_str(name),
            transaction,
            error: None,
            session_id: session,
            sender: 0,
            data: None,
            plugindata: None,
            jsep: None,
        }
    }

    /// The same response with a `data` payload.
    pub fn with_data(self, data: JsonValue) -> (r: JanusResponse)
        ensures
            r == (JanusResponse { data: Some(data), ..self }),
    {
        JanusResponse { data: Some(data), ..self }
    }

    /// The same response carrying a protocol error.
    pub fn with_err(self, error: JanusError) -> (r: JanusResponse)
        ensures
            r == (JanusResponse { error: Some(error), ..self }),
    {
        JanusResponse { error: Some(error), ..self }
    }

    /// The same response carrying a plugin result: the sender is the handle
    /// that produced it.
    pub fn with_plugindata(
        self,
        sender: u64,
        plugin: String,
        data: JsonValue,
        jsep: Option<JsonValue>,
    ) -> (r: JanusResponse)
        ensures
            r == (JanusResponse {
                sender,
                plugindata: Some(PluginResultWrapper { plugin, data }),
                jsep,
                ..self
            }),
    {
        JanusResponse {
            sender,
            plugindata: Some(PluginResultWrapper { plugin, data }),
            jsep,
            ..self
        }
    }

    /// The error response for an envelope that could not be decoded: no
    /// session, no transaction echo.
    pub fn bad_request(error: JanusError) -> (r: JanusResponse)
        ensures
            r.janus@ == "error"@,
            r.transaction@ == Seq::<char>::empty(),
            r.error == Some(error),
            r.session_id == 0,
            r.sender == 0,
            r.data is None,
            r.plugindata is None,
            r.jsep is None,
    {
        JanusResponse {
            janus: String::from_str("error"),
            transaction: String::new(),
            error: Some(error),
            session_id: 0,
            sender: 0,
            data: None,
            plugindata: None,
            jsep: None,
        }
    }
}

/// The shape of an encoded protocol error: `code` then `reason`.
pub open spec fn spec_error_json(x: JsonValue, e: JanusError) -> bool {
    &&& x is Obj
    &&& obj_fields(x->Obj_0@) == seq![
        ("code"@, JsonValue::UInt(e.code as u64)),
        ("reason"@, JsonValue::Str(e.reason)),
    ]
}

/// The shape of an encoded plugin result: `plugin` then `data`.
pub open spec fn spec_plugindata_json(x: JsonValue, p: PluginResultWrapper) -> bool {
    &&& x is Obj
    &&& obj_fields(x->Obj_0@) == seq![
        ("plugin"@, JsonValue::Str(p.plugin)),
        ("data"@, p.data),
    ]
}

/// How many fields the response encoder emits.
pub open spec fn spec_response_count(r: JanusResponse) -> int {
    1 + (if r.transaction@.len() > 0 {
        1int
    } else {
        0int
    }) + (if r.error is Some {
        1int
    } else {
        0int
    }) + (if r.session_id != 0 {
        1int
    } else {
        0int
    }) + (if r.sender != 0 {
        1int
    } else {
        0int
    }) + (if r.data is Some {
        1int
    } else {
        0int
    }) + (if r.plugindata is Some {
        1int
    } else {
        0int
    }) + (if r.jsep is Some {
        1int
    } else {
        0int
    })
}

/// What the response encoder produces: the fields in declaration order, the
/// empty transaction, zero ids and unset payloads elided, nested objects in
/// their canonical shape.
pub open spec fn spec_response_encoding(r: JanusResponse, v: JsonValue) -> bool {
    let f = obj_fields(v->Obj_0@);
    let i1 = 1int;  // after janus
    let i2 = i1 + (if r.transaction@.len() > 0 {
        1int
    } else {
        0int
    });
    let i3 = i2 + (if r.error is Some {
        1int
    } else {
        0int
    });
    let i4 = i3 + (if r.session_id != 0 {
        1int
    } else {
        0int
    });
    let i5 = i4 + (if r.sender != 0 {
        1int
    } else {
        0int
    });
    let i6 = i5 + (if r.data is Some {
        1int
    } else {
        0int
    });
    let i7 = i6 + (if r.plugindata is Some {
        1int
    } else {
        0int
    });
    &&& v is Obj
    &&& f.len() == spec_response_count(r)
    &&& f[0] == ("janus"@, JsonValue::Str(r.janus))
    &&& r.transaction@.len() > 0 ==> f[i1] == ("transaction"@, JsonValue::Str(r.transaction))
    &&& r.error matches Some(e) ==> f[i2].0 == "error"@ && spec_error_json(f[i2].1, e)
    &&& r.session_id != 0 ==> f[i3] == ("session_id"@, JsonValue::UInt(r.session_id))
    &&& r.sender != 0 ==> f[i4] == ("sender"@, JsonValue::UInt(r.sender))
    &&& r.data matches Some(d) ==> f[i5] == ("data"@, d)
    &&& r.plugindata matches Some(p) ==> f[i6].0 == "plugindata"@ && spec_plugindata_json(
        f[i6].1,
        p,
    )
    &&& r.jsep matches Some(j) ==> f[i7] == ("jsep"@, j)
}

impl JanusResponse {
    /// Encodes the response as a JSON object; the empty transaction, zero ids
    /// and unset payloads are elided.
    pub fn to_json(self) -> (v: JsonValue)
        ensures
            spec_response_encoding(self, v),
    {
        let mut pairs: Vec<(String, JsonValue)> = Vec::new();
        pairs.push((String::from_str("janus"), JsonValue::Str(self.janus)));
        if self.transaction.as_str().unicode_len() > 0 {
            pairs.push((String::from_str("transaction"), JsonValue::Str(self.transaction)));
        }
        if let Some(e) = self.error {
            let mut epairs: Vec<(String, JsonValue)> = Vec::new();
            epairs.push((String::from_str("code"), JsonValue::UInt(e.code as u64)));
            epairs.push((String::from_str("reason"), JsonValue::Str(e.reason)));
            proof {
                assert(obj_fields(epairs@) =~= seq![
                    ("code"@, JsonValue::UInt(e.code as u64)),
                    ("reason"@, JsonValue::Str(e.reason)),
                ]);
            }
            pairs.push((String::from_str("error"), JsonValue::Obj(epairs)));
        }
        if self.session_id != 0 {
            pairs.push((String::from_str("session_id"), JsonValue::UInt(self.session_id)));
        }
        if self.sender != 0 {
            pairs.push((String::from_str("sender"), JsonValue::UInt(self.sender)));
        }
        if let Some(d) = self.data {
            pairs.push((String::from_str("data"), d));
        }
        if let Some(p) = self.plugindata {
            let mut ppairs: Vec<(String, JsonValue)> = Vec::new();
            ppairs.push((String::from_str("plugin"), JsonValue::Str(p.plugin)));
            ppairs.push((String::from_str("data"), p.data));
            proof {
                assert(obj_fields(ppairs@) =~= seq![
                    ("plugin"@, JsonValue::Str(p.plugin)),
                    ("data"@, p.data),
                ]);
            }
            pairs.push((String::from_str("plugindata"), JsonValue::Obj(ppairs)));
        }
        if let Some(j) = self.jsep {
            pairs.push((String::from_str("jsep"), j));
        }
        proof {
            assert(obj_fields(pairs@).len() == spec_response_count(self));
        }
        JsonValue::Obj(pairs)
    }
}

/// What a successful response decode pins down, field by field.
pub open spec fn spec_response_parse_ok(v: JsonValue, r: JanusResponse) -> bool {
    let f = obj_fields(v->Obj_0@);
    &&& v is Obj
    &&& lookup_field(f, "janus"@) == Some(JsonValue::Str(r.janus))
    &&& match lookup_field(f, "transaction"@) {
        None => r.transaction@ == Seq::<char>::empty(),
        Some(x) => x == JsonValue::Str(r.transaction),
    }
    &&& match lookup_field(f, "error"@) {
        None => r.error is None,
        Some(x) => if x is Null {
            r.error is None
        } else {
            r.error matches Some(e) && spec_error_parse_ok(x, e)
        },
    }
    &&& match lookup_field(f, "session_id"@) {
        None => r.session_id == 0,
        Some(x) => x == JsonValue::UInt(r.session_id),
    }
    &&& match lookup_field(f, "sender"@) {
        None => r.sender == 0,
        Some(x) => x == JsonValue::UInt(r.sender),
    }
    &&& match lookup_field(f, "data"@) {
        None => r.data is None,
        Some(x) => if x is Null {
            r.data is None
        } else {
            r.data == Some(x)
        },
    }
    &&& match lookup_field(f, "plugindata"@) {
        None => r.plugindata is None,
        Some(x) => if x is Null {
            r.plugindata is None
        } else {
            r.plugindata matches Some(p) && spec_plugindata_parse_ok(x, p)
        },
    }
    &&& match lookup_field(f, "jsep"@) {
        None => r.jsep is None,
        Some(x) => if x is Null {
            r.jsep is None
        } else {
            r.jsep == Some(x)
        },
    }
}

/// When a response envelope is rejected.
pub open spec fn spec_response_malformed(v: JsonValue) -> bool {
    if !(v is Obj) {
        true
    } else {
        let f = obj_fields(v->Obj_0@);
        ||| !(match lookup_field(f, "janus"@) {
            Some(x) => x is Str,
            None => false,
        })
        ||| (match lookup_field(f, "transaction"@) {
            Some(x) => !(x is Str),
            None => false,
        })
        ||| (match lookup_field(f, "error"@) {
            Some(x) => !(x is Null) && spec_error_malformed(x),
            None => false,
        })
        ||| (match lookup_field(f, "session_id"@) {
            Some(x) => !(x is UInt),
            None => false,
        })
        ||| (match lookup_field(f, "sender"@) {
            Some(x) => !(x is UInt),
            None => false,
        })
        ||| (match lookup_field(f, "plugindata"@) {
            Some(x) => !(x is Null) && spec_plugindata_malformed(x),
            None => false,
        })
    }
}

/// The eight response field names are pairwise distinct.
proof fn lemma_response_keys_distinct()
    ensures
        "janus"@ != "transaction"@,
        "janus"@ != "error"@,
        "janus"@ != "session_id"@,
        "janus"@ != "sender"@,
        "janus"@ != "data"@,
        "janus"@ != "plugindata"@,
        "janus"@ != "jsep"@,
        "transaction"@ != "error"@,
        "transaction"@ != "session_id"@,
        "transaction"@ != "sender"@,
        "transaction"@ != "data"@,
        "transaction"@ != "plugindata"@,
        "transaction"@ != "jsep"@,
        "error"@ != "session_id"@,
        "error"@ != "sender"@,
        "error"@ != "data"@,
        "error"@ != "plugindata"@,
        "error"@ != "jsep"@,
        "session_id"@ != "sender"@,
        "session_id"@ != "data"@,
        "session_id"@ != "plugindata"@,
        "session_id"@ != "jsep"@,
        "sender"@ != "data"@,
        "sender"@ != "plugindata"@,
        "sender"@ != "jsep"@,
        "data"@ != "plugindata"@,
        "data"@ != "jsep"@,
        "plugindata"@ != "jsep"@,
{
    reveal_strlit("janus");
    reveal_strlit("transaction");
    reveal_strlit("error");
    reveal_strlit("session_id");
    reveal_strlit("sender");
    reveal_strlit("data");
    reveal_strlit("plugindata");
    reveal_strlit("jsep");
    assert("janus"@.len() == 5);
    assert("transaction"@.len() == 11);
    assert("error"@.len() == 5);
    assert("session_id"@.len() == 10);
    assert("sender"@.len() == 6);
    assert("data"@.len() == 4);
    assert("plugindata"@.len() == 10);
    assert("jsep"@.len() == 4);
    assert("janus"@[0] == 'j');
    assert("error"@[0] == 'e');
    assert("session_id"@[0] == 's');
    assert("plugindata"@[0] == 'p');
    assert("data"@[0] == 'd');
    assert("jsep"@[0] == 'j');
    assert("data"@[1] == 'a');
    assert("jsep"@[1] == 's');
}

impl JanusResponse {
    /// Decodes a response envelope from a JSON value, as received from the
    /// upstream gateway. Unknown fields are ignored.
    pub fn from_json(v: JsonValue) -> (r: Result<JanusResponse, ()>)
        ensures
            r is Ok <==> !spec_response_malformed(v),
            r matches Ok(resp) ==> spec_response_parse_ok(v, resp),
    {
        let mut pairs = match v {
            JsonValue::Obj(pairs) => pairs,
            _ => {
                return Err(());
            },
        };
        let ghost orig = pairs@;
        proof {
            assert(v == JsonValue::Obj(pairs));
        }
        let mut janus: Option<String> = None;
        let mut transaction: Option<String> = None;
        let mut error_seen: bool = false;
        let mut error: Option<JanusError> = None;
        let mut session_id: Option<u64> = None;
        let mut sender: Option<u64> = None;
        let mut data_seen: bool = false;
        let mut data: Option<JsonValue> = None;
        let mut pd_seen: bool = false;
        let mut plugindata: Option<PluginResultWrapper> = None;
        let mut jsep_seen: bool = false;
        let mut jsep: Option<JsonValue> = None;
        let ghost mut k: int = 0;
        proof {
            assert(orig.take(0) =~= Seq::<(String, JsonValue)>::empty());
            assert(obj_fields(orig.take(0)) =~= Seq::<(Seq<char>, JsonValue)>::empty());
        }
        while pairs.len() > 0
            invariant
                v is Obj,
                orig == v->Obj_0@,
                0 <= k <= orig.len(),
                pairs@ == orig.skip(k),
                match janus {
                    Some(s) => lookup_field(obj_fields(orig.take(k)), "janus"@) == Some(
                        JsonValue::Str(s),
                    ),
                    None => lookup_field(obj_fields(orig.take(k)), "janus"@) is None,
                },
                match transaction {
                    Some(s) => lookup_field(obj_fields(orig.take(k)), "transaction"@) == Some(
                        JsonValue::Str(s),
                    ),
                    None => lookup_field(obj_fields(orig.take(k)), "transaction"@) is None,
                },
                error_seen ==> (lookup_field(obj_fields(orig.take(k)), "error"@) matches Some(x)
                    && (if x is Null {
                    error is None
                } else {
                    error matches Some(e) && spec_error_parse_ok(x, e)
                })),
                !error_seen ==> lookup_field(obj_fields(orig.take(k)), "error"@) is None && error
                    is None,
                match session_id {
                    Some(n) => lookup_field(obj_fields(orig.take(k)), "session_id"@) == Some(
                        JsonValue::UInt(n),
                    ),
                    None => lookup_field(obj_fields(orig.take(k)), "session_id"@) is None,
                },
                match sender {
                    Some(n) => lookup_field(obj_fields(orig.take(k)), "sender"@) == Some(
                        JsonValue::UInt(n),
                    ),
                    None => lookup_field(obj_fields(orig.take(k)), "sender"@) is None,
                },
                data_seen ==> (lookup_field(obj_fields(orig.take(k)), "data"@) matches Some(x) && (
                if x is Null {
                    data is None
                } else {
                    data == Some(x)
                })),
                !data_seen ==> lookup_field(obj_fields(orig.take(k)), "data"@) is None && data
                    is None,
                pd_seen ==> (lookup_field(obj_fields(orig.take(k)), "plugindata"@) matches Some(x)
                    && (if x is Null {
                    plugindata is None
                } else {
                    plugindata matches Some(p) && spec_plugindata_parse_ok(x, p)
                })),
                !pd_seen ==> lookup_field(obj_fields(orig.take(k)), "plugindata"@) is None
                    && plugindata is None,
                jsep_seen ==> (lookup_field(obj_fields(orig.take(k)), "jsep"@) matches Some(x) && (
                if x is Null {
                    jsep is None
                } else {
                    jsep == Some(x)
                })),
                !jsep_seen ==> lookup_field(obj_fields(orig.take(k)), "jsep"@) is None && jsep
                    is None,
            decreases pairs.len(),
        {
            proof {
                assert(orig.skip(k)[0] == orig[k]);
            }
            let pair = pairs.remove(0);
            proof {
                assert(pair == orig[k]);
                assert(pairs@ =~= orig.skip(k + 1));
                assert(orig.take(k + 1) =~= orig.take(k).push(orig[k]));
                assert(obj_fields(orig.take(k + 1)) =~= obj_fields(orig.take(k)).push(
                    (orig[k].0@, orig[k].1),
                ));
                lemma_response_keys_distinct();
                lemma_lookup_push(obj_fields(orig.take(k)), (pair.0@, pair.1), "janus"@);
                lemma_lookup_push(obj_fields(orig.take(k)), (pair.0@, pair.1), "transaction"@);
                lemma_lookup_push(obj_fields(orig.take(k)), (pair.0@, pair.1), "error"@);
                lemma_lookup_push(obj_fields(orig.take(k)), (pair.0@, pair.1), "session_id"@);
                lemma_lookup_push(obj_fields(orig.take(k)), (pair.0@, pair.1), "sender"@);
                lemma_lookup_push(obj_fields(orig.take(k)), (pair.0@, pair.1), "data"@);
                lemma_lookup_push(obj_fields(orig.take(k)), (pair.0@, pair.1), "plugindata"@);
                lemma_lookup_push(obj_fields(orig.take(k)), (pair.0@, pair.1), "jsep"@);
            }
            let (key, value) = pair;
            if str_eq(key.as_str(), "janus") {
                if janus.is_none() {
                    match value {
                        JsonValue::Str(s) => {
                            janus = Some(s);
                        },
                        _ => {
                            proof {
                                lemma_error_first_hit(orig, k, "janus"@);
                            }
                            return Err(());
                        },
                    }
                }
            } else if str_eq(key.as_str(), "transaction") {
                if transaction.is_none() {
                    match value {
                        JsonValue::Str(s) => {
                            transaction = Some(s);
                        },
                        _ => {
                            proof {
                                lemma_error_first_hit(orig, k, "transaction"@);
                            }
                            return Err(());
                        },
                    }
                }
            } else if str_eq(key.as_str(), "error") {
                if !error_seen {
                    error_seen = true;
                    match value {
                        JsonValue::Null => {
                            error = None;
                        },
                        other => match parse_error_json(other) {
                            Ok(e) => {
                                error = Some(e);
                            },
                            Err(_) => {
                                proof {
                                    lemma_error_first_hit(orig, k, "error"@);
                                }
                                return Err(());
                            },
                        },
                    }
                }
            } else if str_eq(key.as_str(), "session_id") {
                if session_id.is_none() {
                    match value {
                        JsonValue::UInt(n) => {
                            session_id = Some(n);
                        },
                        _ => {
                            proof {
                                lemma_error_first_hit(orig, k, "session_id"@);
                            }
                            return Err(());
                        },
                    }
                }
            } else if str_eq(key.as_str(), "sender") {
                if sender.is_none() {
                    match value {
                        JsonValue::UInt(n) => {
                            sender = Some(n);
                        },
                        _ => {
                            proof {
                                lemma_error_first_hit(orig, k, "sender"@);
                            }
                            return Err(());
                        },
                    }
                }
            } else if str_eq(key.as_str(), "data") {
                if !data_seen {
                    data_seen = true;
                    match value {
                        JsonValue::Null => {
                            data = None;
                        },
                        other => {
                            data = Some(other);
                        },
                    }
                }
            } else if str_eq(key.as_str(), "plugindata") {
                if !pd_seen {
                    pd_seen = true;
                    match value {
                        JsonValue::Null => {
                            plugindata = None;
                        },
                        other => match parse_plugindata_json(other) {
                            Ok(p) => {
                                plugindata = Some(p);
                            },
                            Err(_) => {
                                proof {
                                    lemma_error_first_hit(orig, k, "plugindata"@);
                                }
                                return Err(());
                            },
                        },
                    }
                }
            } else if str_eq(key.as_str(), "jsep") {
                if !jsep_seen {
                    jsep_seen = true;
                    match value {
                        JsonValue::Null => {
                            jsep = None;
                        },
                        other => {
                            jsep = Some(other);
                        },
                    }
                }
            }
            proof {
                k = k + 1;
            }
        }
        proof {
            assert(orig.take(orig.len() as int) =~= orig);
        }
        let janus = match janus {
            Some(s) => s,
            None => {
                return Err(());
            },
        };
        let transaction = match transaction {
            Some(s) => s,
            None => String::new(),
        };
        let session_id = match session_id {
            Some(n) => n,
            None => 0,
        };
        let sender = match sender {
            Some(n) => n,
            None => 0,
        };
        Ok(JanusResponse { janus, transaction, error, session_id, sender, data, plugindata, jsep })
    }
}

/// Decoding equality for responses: every field agrees; the transaction is
/// compared as text because an elided one decodes to a fresh empty string.
pub open spec fn spec_response_equiv(p: JanusResponse, resp: JanusResponse) -> bool {
    &&& p.janus == resp.janus
    &&& if resp.transaction@.len() > 0 {
        p.transaction == resp.transaction
    } else {
        p.transaction@ == Seq::<char>::empty()
    }
    &&& p.error == resp.error
    &&& p.session_id == resp.session_id
    &&& p.sender == resp.sender
    &&& p.data == resp.data
    &&& p.plugindata == resp.plugindata
    &&& p.jsep == resp.jsep
}

/// The first pair carrying a key decides the lookup.
proof fn lemma_lookup_first_at(f: Seq<(Seq<char>, JsonValue)>, i: int, key: Seq<char>)
    requires
        0 <= i < f.len(),
        f[i].0 == key,
        forall|j: int| 0 <= j < i ==> f[j].0 != key,
    ensures
        lookup_field(f, key) == Some(f[i].1),
{
    assert(f =~= f.take(i) + f.skip(i));
    lemma_lookup_skip_prefix(f.take(i), f.skip(i), key);
    assert(f.skip(i)[0] == f[i]);
}

/// Round trip for responses: the encoding of a response is never rejected by
/// the decoder, and any decode of it agrees with the response on every
/// field. Together with the contracts of `to_json` and `from_json`, decoding
/// an encoded response gives the response back; the encoder's own contract
/// states that zero ids, the empty transaction and unset payloads were
/// elided.
#[verifier::rlimit(100)]
pub proof fn lemma_response_round_trip(resp: JanusResponse, v: JsonValue)
    requires
        resp.data != Some(JsonValue::Null),
        resp.jsep != Some(JsonValue::Null),
        spec_response_encoding(resp, v),
    ensures
        !spec_response_malformed(v),
        forall|p: JanusResponse| spec_response_parse_ok(v, p) ==> spec_response_equiv(p, resp),
{
    lemma_response_keys_distinct();
    let f = obj_fields(v->Obj_0@);
    let i1 = 1int;
    let i2 = i1 + (if resp.transaction@.len() > 0 {
        1int
    } else {
        0int
    });
    let i3 = i2 + (if resp.error is Some {
        1int
    } else {
        0int
    });
    let i4 = i3 + (if resp.session_id != 0 {
        1int
    } else {
        0int
    });
    let i5 = i4 + (if resp.sender != 0 {
        1int
    } else {
        0int
    });
    let i6 = i5 + (if resp.data is Some {
        1int
    } else {
        0int
    });
    let i7 = i6 + (if resp.plugindata is Some {
        1int
    } else {
        0int
    });

    // Which key every position carries.
    assert forall|j: int| 0 <= j < f.len() implies (f[j].0 == "janus"@ || f[j].0 == "transaction"@
        || f[j].0 == "error"@ || f[j].0 == "session_id"@ || f[j].0 == "sender"@ || f[j].0
        == "data"@ || f[j].0 == "plugindata"@ || f[j].0 == "jsep"@) by {
        if j == 0 {
        } else if resp.transaction@.len() > 0 && j == i1 {
        } else if resp.error is Some && j == i2 {
        } else if resp.session_id != 0 && j == i3 {
        } else if resp.sender != 0 && j == i4 {
        } else if resp.data is Some && j == i5 {
        } else if resp.plugindata is Some && j == i6 {
        } else {
            assert(resp.jsep is Some && j == i7);
        }
    }

    lemma_lookup_first_at(f, 0, "janus"@);

    if resp.transaction@.len() > 0 {
        lemma_lookup_first_at(f, i1, "transaction"@);
    } else {
        assert forall|j: int| 0 <= j < f.len() implies f[j].0 != "transaction"@ by {
            lemma_response_field_positions(resp, v, j);
        }
        crate::request::lemma_lookup_absent(f, "transaction"@);
    }
    if resp.error is Some {
        assert forall|j: int| 0 <= j < i2 implies f[j].0 != "error"@ by {
            lemma_response_field_positions(resp, v, j);
        }
        lemma_lookup_first_at(f, i2, "error"@);
        let x = f[i2].1;
        let e = resp.error.unwrap();
        assert(x is Obj);
        let ef = obj_fields(x->Obj_0@);
        assert(ef[0] == ("code"@, JsonValue::UInt(e.code as u64)));
        assert(ef[1] == ("reason"@, JsonValue::Str(e.reason)));
        assert("code"@ != "reason"@) by {
            reveal_strlit("code");
            reveal_strlit("reason");
            assert("code"@.len() == 4);
            assert("reason"@.len() == 6);
        }
        lemma_lookup_first_at(ef, 0, "code"@);
        lemma_lookup_first_at(ef, 1, "reason"@);
        assert(spec_error_parse_ok(x, e));
        assert(!spec_error_malformed(x));
        assert forall|q: JanusError| spec_error_parse_ok(x, q) implies q == e by {}
    } else {
        assert forall|j: int| 0 <= j < f.len() implies f[j].0 != "error"@ by {
            lemma_response_field_positions(resp, v, j);
        }
        crate::request::lemma_lookup_absent(f, "error"@);
    }
    if resp.session_id != 0 {
        assert forall|j: int| 0 <= j < i3 implies f[j].0 != "session_id"@ by {
            lemma_response_field_positions(resp, v, j);
        }
        lemma_lookup_first_at(f, i3, "session_id"@);
    } else {
        assert forall|j: int| 0 <= j < f.len() implies f[j].0 != "session_id"@ by {
            lemma_response_field_positions(resp, v, j);
        }
        crate::request::lemma_lookup_absent(f, "session_id"@);
    }
    if resp.sender != 0 {
        assert forall|j: int| 0 <= j < i4 implies f[j].0 != "sender"@ by {
            lemma_response_field_positions(resp, v, j);
        }
        lemma_lookup_first_at(f, i4, "sender"@);
    } else {
        assert forall|j: int| 0 <= j < f.len() implies f[j].0 != "sender"@ by {
            lemma_response_field_positions(resp, v, j);
        }
        crate::request::lemma_lookup_absent(f, "sender"@);
    }
    if resp.data is Some {
        assert forall|j: int| 0 <= j < i5 implies f[j].0 != "data"@ by {
            lemma_response_field_positions(resp, v, j);
        }
        lemma_lookup_first_at(f, i5, "data"@);
    } else {
        assert forall|j: int| 0 <= j < f.len() implies f[j].0 != "data"@ by {
            lemma_response_field_positions(resp, v, j);
        }
        crate::request::lemma_lookup_absent(f, "data"@);
    }
    if resp.plugindata is Some {
        assert forall|j: int| 0 <= j < i6 implies f[j].0 != "plugindata"@ by {
            lemma_response_field_positions(resp, v, j);
        }
        lemma_lookup_first_at(f, i6, "plugindata"@);
        let x = f[i6].1;
        let pd = resp.plugindata.unwrap();
        let pf = obj_fields(x->Obj_0@);
        assert(pf[0] == ("plugin"@, JsonValue::Str(pd.plugin)));
        assert(pf[1] == ("data"@, pd.data));
        assert("plugin"@ != "data"@) by {
            reveal_strlit("plugin");
            reveal_strlit("data");
            assert("plugin"@.len() == 6);
            assert("data"@.len() == 4);
        }
        lemma_lookup_first_at(pf, 0, "plugin"@);
        lemma_lookup_first_at(pf, 1, "data"@);
        assert(spec_plugindata_parse_ok(x, pd));
        assert(!spec_plugindata_malformed(x));
    } else {
        assert forall|j: int| 0 <= j < f.len() implies f[j].0 != "plugindata"@ by {
            lemma_response_field_positions(resp, v, j);
        }
        crate::request::lemma_lookup_absent(f, "plugindata"@);
    }
    if resp.jsep is Some {
        assert forall|j: int| 0 <= j < i7 implies f[j].0 != "jsep"@ by {
            lemma_response_field_positions(resp, v, j);
        }
        lemma_lookup_first_at(f, i7, "jsep"@);
    } else {
        assert forall|j: int| 0 <= j < f.len() implies f[j].0 != "jsep"@ by {
            lemma_response_field_positions(resp, v, j);
        }
        crate::request::lemma_lookup_absent(f, "jsep"@);
    }
}

/// The key standing at position `j` of an encoded response.
proof fn lemma_response_field_positions(resp: JanusResponse, v: JsonValue, j: int)
    requires
        spec_response_encoding(resp, v),
        0 <= j < obj_fields(v->Obj_0@).len(),
    ensures
        ({
            let f = obj_fields(v->Obj_0@);
            let i1 = 1int;
            let i2 = i1 + (if resp.transaction@.len() > 0 {
                1int
            } else {
                0int
            });
            let i3 = i2 + (if resp.error is Some {
                1int
            } else {
                0int
            });
            let i4 = i3 + (if resp.session_id != 0 {
                1int
            } else {
                0int
            });
            let i5 = i4 + (if resp.sender != 0 {
                1int
            } else {
                0int
            });
            let i6 = i5 + (if resp.data is Some {
                1int
            } else {
                0int
            });
            let i7 = i6 + (if resp.plugindata is Some {
                1int
            } else {
                0int
            });
            if j == 0 {
                f[j].0 == "janus"@
            } else if resp.transaction@.len() > 0 && j == i1 {
                f[j].0 == "transaction"@
            } else if resp.error is Some && j == i2 {
                f[j].0 == "error"@
            } else if resp.session_id != 0 && j == i3 {
                f[j].0 == "session_id"@
            } else if resp.sender != 0 && j == i4 {
                f[j].0 == "sender"@
            } else if resp.data is Some && j == i5 {
                f[j].0 == "data"@
            } else if resp.plugindata is Some && j == i6 {
                f[j].0 == "plugindata"@
            } else {
                resp.jsep is Some && j == i7 && f[j].0 == "jsep"@
            }
        }),
{
}

/// What a successful decode of a protocol error pins down.
pub open spec fn spec_error_parse_ok(x: JsonValue, e: JanusError) -> bool {
    let f = obj_fields(x->Obj_0@);
    &&& x is Obj
    &&& lookup_field(f, "code"@) == Some(JsonValue::UInt(e.code as u64))
    &&& lookup_field(f, "reason"@) == Some(JsonValue::Str(e.reason))
}

/// When a protocol error object cannot be decoded.
pub open spec fn spec_error_malformed(x: JsonValue) -> bool {
    if !(x is Obj) {
        true
    } else {
        let f = obj_fields(x->Obj_0@);
        ||| !(match lookup_field(f, "code"@) {
            Some(c) => c matches JsonValue::UInt(n) && n <= u32::MAX,
            None => false,
        })
        ||| !(match lookup_field(f, "reason"@) {
            Some(s) => s is Str,
            None => false,
        })
    }
}

/// What a successful decode of a plugin result pins down.
pub open spec fn spec_plugindata_parse_ok(x: JsonValue, p: PluginResultWrapper) -> bool {
    let f = obj_fields(x->Obj_0@);
    &&& x is Obj
    &&& lookup_field(f, "plugin"@) == Some(JsonValue::Str(p.plugin))
    &&& lookup_field(f, "data"@) == Some(p.data)
}

/// When a plugin result object cannot be decoded.
pub open spec fn spec_plugindata_malformed(x: JsonValue) -> bool {
    if !(x is Obj) {
        true
    } else {
        let f = obj_fields(x->Obj_0@);
        ||| !(match lookup_field(f, "plugin"@) {
            Some(s) => s is Str,
            None => false,
        })
        ||| lookup_field(f, "data"@) is None
    }
}

/// Decodes a protocol error object: a numeric code within 32 bits and a
/// reason string, both required; other fields are ignored.
fn parse_error_json(x: JsonValue) -> (r: Result<JanusError, ()>)
    ensures
        r is Ok <==> !spec_error_malformed(x),
        r matches Ok(e) ==> spec_error_parse_ok(x, e),
{
    let mut pairs = match x {
        JsonValue::Obj(pairs) => pairs,
        _ => {
            return Err(());
        },
    };
    let ghost orig = pairs@;
    proof {
        assert(x == JsonValue::Obj(pairs));
    }
    let mut code: Option<u64> = None;
    let mut reason: Option<String> = None;
    let ghost mut k: int = 0;
    proof {
        assert(orig.take(0) =~= Seq::<(String, JsonValue)>::empty());
        assert(obj_fields(orig.take(0)) =~= Seq::<(Seq<char>, JsonValue)>::empty());
    }
    while pairs.len() > 0
        invariant
            x is Obj,
            orig == x->Obj_0@,
            0 <= k <= orig.len(),
            pairs@ == orig.skip(k),
            match code {
                Some(n) => n <= u32::MAX && lookup_field(obj_fields(orig.take(k)), "code"@)
                    == Some(JsonValue::UInt(n)),
                None => lookup_field(obj_fields(orig.take(k)), "code"@) is None,
            },
            match reason {
                Some(s) => lookup_field(obj_fields(orig.take(k)), "reason"@) == Some(
                    JsonValue::Str(s),
                ),
                None => lookup_field(obj_fields(orig.take(k)), "reason"@) is None,
            },
        decreases pairs.len(),
    {
        proof {
            assert(orig.skip(k)[0] == orig[k]);
        }
        let pair = pairs.remove(0);
        proof {
            assert(pair == orig[k]);
            assert(pairs@ =~= orig.skip(k + 1));
            assert(orig.take(k + 1) =~= orig.take(k).push(orig[k]));
            assert(obj_fields(orig.take(k + 1)) =~= obj_fields(orig.take(k)).push(
                (orig[k].0@, orig[k].1),
            ));
            lemma_lookup_push(obj_fields(orig.take(k)), (pair.0@, pair.1), "code"@);
            lemma_lookup_push(obj_fields(orig.take(k)), (pair.0@, pair.1), "reason"@);
            assert("code"@ != "reason"@) by {
                reveal_strlit("code");
                reveal_strlit("reason");
                assert("code"@.len() == 4);
                assert("reason"@.len() == 6);
            }
        }
        let (key, value) = pair;
        if str_eq(key.as_str(), "code") {
            if code.is_none() {
                match value {
                    JsonValue::UInt(n) => {
                        if n > 0xFFFF_FFFFu64 {
                            proof {
                                lemma_error_first_hit(orig, k, "code"@);
                            }
                            return Err(());
                        }
                        code = Some(n);
                    },
                    _ => {
                        proof {
                            lemma_error_first_hit(orig, k, "code"@);
                        }
                        return Err(());
                    },
                }
            }
        } else if str_eq(key.as_str(), "reason") {
            if reason.is_none() {
                match value {
                    JsonValue::Str(s) => {
                        reason = Some(s);
                    },
                    _ => {
                        proof {
                            lemma_error_first_hit(orig, k, "reason"@);
                        }
                        return Err(());
                    },
                }
            }
        }
        proof {
            k = k + 1;
        }
    }
    proof {
        assert(orig.take(orig.len() as int) =~= orig);
    }
    match (code, reason) {
        (Some(n), Some(s)) => Ok(JanusError { code: n as u32, reason: s }),
        _ => Err(()),
    }
}

/// When the key under the cursor has not been seen yet, the pair under the
/// cursor decides the whole object's lookup.
proof fn lemma_error_first_hit(orig: Seq<(String, JsonValue)>, k: int, key: Seq<char>)
    requires
        0 <= k < orig.len(),
        lookup_field(obj_fields(orig.take(k)), key) is None,
        orig[k].0@ == key,
    ensures
        lookup_field(obj_fields(orig), key) == Some(orig[k].1),
{
    let pre = obj_fields(orig.take(k));
    let post = obj_fields(orig.skip(k));
    lemma_lookup_none_no_key(pre, key);
    assert(obj_fields(orig) =~= pre + post);
    lemma_lookup_skip_prefix(pre, post, key);
    assert(post[0] == (orig[k].0@, orig[k].1));
}

/// Decodes a plugin result object: the plugin name and its data, both
/// required; other fields are ignored.
fn parse_plugindata_json(x: JsonValue) -> (r: Result<PluginResultWrapper, ()>)
    ensures
        r is Ok <==> !spec_plugindata_malformed(x),
        r matches Ok(p) ==> spec_plugindata_parse_ok(x, p),
{
    let mut pairs = match x {
        JsonValue::Obj(pairs) => pairs,
        _ => {
            return Err(());
        },
    };
    let ghost orig = pairs@;
    proof {
        assert(x == JsonValue::Obj(pairs));
    }
    let mut plugin: Option<String> = None;
    let mut data: Option<JsonValue> = None;
    let ghost mut k: int = 0;
    proof {
        assert(orig.take(0) =~= Seq::<(String, JsonValue)>::empty());
        assert(obj_fields(orig.take(0)) =~= Seq::<(Seq<char>, JsonValue)>::empty());
    }
    while pairs.len() > 0
        invariant
            x is Obj,
            orig == x->Obj_0@,
            0 <= k <= orig.len(),
            pairs@ == orig.skip(k),
            match plugin {
                Some(s) => lookup_field(obj_fields(orig.take(k)), "plugin"@) == Some(
                    JsonValue::Str(s),
                ),
                None => lookup_field(obj_fields(orig.take(k)), "plugin"@) is None,
            },
            match data {
                Some(d) => lookup_field(obj_fields(orig.take(k)), "data"@) == Some(d),
                None => lookup_field(obj_fields(orig.take(k)), "data"@) is None,
            },
        decreases pairs.len(),
    {
        proof {
            assert(orig.skip(k)[0] == orig[k]);
        }
        let pair = pairs.remove(0);
        proof {
            assert(pair == orig[k]);
            assert(pairs@ =~= orig.skip(k + 1));
            assert(orig.take(k + 1) =~= orig.take(k).push(orig[k]));
            assert(obj_fields(orig.take(k + 1)) =~= obj_fields(orig.take(k)).push(
                (orig[k].0@, orig[k].1),
            ));
            lemma_lookup_push(obj_fields(orig.take(k)), (pair.0@, pair.1), "plugin"@);
            lemma_lookup_push(obj_fields(orig.take(k)), (pair.0@, pair.1), "data"@);
            assert("plugin"@ != "data"@) by {
                reveal_strlit("plugin");
                reveal_strlit("data");
                assert("plugin"@.len() == 6);
                assert("data"@.len() == 4);
            }
        }
        let (key, value) = pair;
        if str_eq(key.as_str(), "plugin") {
            if plugin.is_none() {
                match value {
                    JsonValue::Str(s) => {
                        plugin = Some(s);
                    },
                    _ => {
                        proof {
                            lemma_error_first_hit(orig, k, "plugin"@);
                        }
                        return Err(());
                    },
                }
            }
        } else if str_eq(key.as_str(), "data") {
            if data.is_none() {
                data = Some(value);
            }
        }
        proof {
            k = k + 1;
        }
    }
    proof {
        assert(orig.take(orig.len() as int) =~= orig);
    }
    match (plugin, data) {
        (Some(s), Some(d)) => Ok(PluginResultWrapper { plugin: s, data: d }),
        _ => Err(()),
    }
}

} // verus!
