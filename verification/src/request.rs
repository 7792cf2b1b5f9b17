use vstd::prelude::*;
use crate::error::{JanusError, JANUS_ERROR_MISSING_MANDATORY_ELEMENT};
use crate::helper::{rand_id, spec_decimal, u64_to_string};
use crate::ice::{spec_trickle_malformed, spec_trickle_parse_ok, JanusIceTrickle};
use crate::json::{lookup_field, obj_fields, str_eq, JsonValue};

verus! {

broadcast use vstd::string::group_string_axioms;

/// The envelope field names the proxy itself interprets; everything else is
/// carried through in the free-form remainder.
pub open spec fn is_fixed_envelope_key(k: Seq<char>) -> bool {
    ||| k == "transaction"@
    ||| k == "janus"@
    ||| k == "id"@
    ||| k == "session_id"@
    ||| k == "handle_id"@
    ||| k == "body"@
    ||| k == "jsep"@
}

/// The remainder of an envelope object: the pairs under non-fixed keys, in
/// their original order.
pub open spec fn spec_rest_pairs(pairs: Seq<(String, JsonValue)>) -> Seq<(String, JsonValue)> {
    pairs.filter(|p: (String, JsonValue)| !is_fixed_envelope_key(p.0@))
}

/// Looking a key up after appending one pair: an earlier hit wins, otherwise
/// the new pair decides.
pub proof fn lemma_lookup_push(
    fields: Seq<(Seq<char>, JsonValue)>,
    x: (Seq<char>, JsonValue),
    key: Seq<char>,
)
    ensures
        lookup_field(fields.push(x), key) == if lookup_field(fields, key) is Some {
            lookup_field(fields, key)
        } else if x.0 == key {
            Some(x.1)
        } else {
            None::<JsonValue>
        },
    decreases fields.len(),
{
    if fields.len() == 0 {
        assert(fields.push(x)[0] == x);
        assert(fields.push(x).drop_first() =~= Seq::<(Seq<char>, JsonValue)>::empty());
    } else {
        assert(fields.push(x)[0] == fields[0]);
        assert(fields.push(x).drop_first() =~= fields.drop_first().push(x));
        lemma_lookup_push(fields.drop_first(), x, key);
    }
}

/// A key that no pair carries is not found.
pub proof fn lemma_lookup_absent(fields: Seq<(Seq<char>, JsonValue)>, key: Seq<char>)
    requires
        forall|i: int| 0 <= i < fields.len() ==> fields[i].0 != key,
    ensures
        lookup_field(fields, key) is None,
    decreases fields.len(),
{
    if fields.len() > 0 {
        lemma_lookup_absent(fields.drop_first(), key);
    }
}

/// A missing key means no pair carries it.
pub proof fn lemma_lookup_none_no_key(fields: Seq<(Seq<char>, JsonValue)>, key: Seq<char>)
    requires
        lookup_field(fields, key) is None,
    ensures
        forall|i: int| 0 <= i < fields.len() ==> fields[i].0 != key,
    decreases fields.len(),
{
    if fields.len() > 0 {
        lemma_lookup_none_no_key(fields.drop_first(), key);
        assert forall|i: int| 0 <= i < fields.len() implies fields[i].0 != key by {
            if i > 0 {
                assert(fields.drop_first()[i - 1] == fields[i]);
            }
        }
    }
}

/// Looking up in a concatenation whose first part misses the key reduces to
/// the second part.
pub proof fn lemma_lookup_skip_prefix(
    pre: Seq<(Seq<char>, JsonValue)>,
    post: Seq<(Seq<char>, JsonValue)>,
    key: Seq<char>,
)
    requires
        forall|i: int| 0 <= i < pre.len() ==> pre[i].0 != key,
    ensures
        lookup_field(pre + post, key) == lookup_field(post, key),
    decreases pre.len(),
{
    if pre.len() == 0 {
        assert(pre + post =~= post);
    } else {
        assert((pre + post)[0] == pre[0]);
        assert((pre + post).drop_first() =~= pre.drop_first() + post);
        lemma_lookup_skip_prefix(pre.drop_first(), post, key);
    }
}

/// The Janus request envelope: the transaction correlator, the verb, the
/// optional addressing ids (zero means unset), the plugin body and JSEP
/// payloads, and the free-form remainder the verb-specific handlers read.
#[derive(Debug, PartialEq)]
pub struct IncomingRequestParameters {
    pub transaction: String,
    pub janus: String,
    pub id: u64,
    pub session_id: u64,
    pub handle_id: u64,
    pub body: Option<JsonValue>,
    pub jsep: Option<JsonValue>,
    pub rest: Vec<(String, JsonValue)>,
}

/// What a successful decode pins down, field by field, in terms of the input
/// object: first occurrences of the fixed keys decide the fixed fields, a
/// `null` or absent `body`/`jsep` reads as unset, and the remainder keeps all
/// other pairs in order.
pub open spec fn spec_envelope_parse_ok(v: JsonValue, p: IncomingRequestParameters) -> bool {
    let fields = obj_fields(v->Obj_0@);
    &&& v is Obj
    &&& lookup_field(fields, "transaction"@) == Some(JsonValue::Str(p.transaction))
    &&& lookup_field(fields, "janus"@) == Some(JsonValue::Str(p.janus))
    &&& match lookup_field(fields, "id"@) {
        None => p.id == 0,
        Some(x) => x == JsonValue::UInt(p.id),
    }
    &&& match lookup_field(fields, "session_id"@) {
        None => p.session_id == 0,
        Some(x) => x == JsonValue::UInt(p.session_id),
    }
    &&& match lookup_field(fields, "handle_id"@) {
        None => p.handle_id == 0,
        Some(x) => x == JsonValue::UInt(p.handle_id),
    }
    &&& match lookup_field(fields, "body"@) {
        None => p.body is None,
        Some(x) => if x is Null {
            p.body is None
        } else {
            p.body == Some(x)
        },
    }
    &&& match lookup_field(fields, "jsep"@) {
        None => p.jsep is None,
        Some(x) => if x is Null {
            p.jsep is None
        } else {
            p.jsep == Some(x)
        },
    }
    &&& p.rest@ == spec_rest_pairs(v->Obj_0@)
}

/// When an envelope is rejected: it is not an object, a required string field
/// is missing or mistyped, or an id field is present with a non-integer value.
pub open spec fn spec_envelope_malformed(v: JsonValue) -> bool {
    if !(v is Obj) {
        true
    } else {
        let fields = obj_fields(v->Obj_0@);
        ||| !(match lookup_field(fields, "transaction"@) {
            Some(x) => x is Str,
            None => false,
        })
        ||| !(match lookup_field(fields, "janus"@) {
            Some(x) => x is Str,
            None => false,
        })
        ||| (match lookup_field(fields, "id"@) {
            Some(x) => !(x is UInt),
            None => false,
        })
        ||| (match lookup_field(fields, "session_id"@) {
            Some(x) => !(x is UInt),
            None => false,
        })
        ||| (match lookup_field(fields, "handle_id"@) {
            Some(x) => !(x is UInt),
            None => false,
        })
    }
}

impl IncomingRequestParameters {
    /// Decodes a request envelope from a JSON value. Succeeds exactly on
    /// well-shaped envelopes; every rejection is a missing-mandatory-element
    /// error.
    pub fn from_json(v: JsonValue) -> (r: Result<IncomingRequestParameters, JanusError>)
        ensures
            r is Ok <==> !spec_envelope_malformed(v),
            r matches Ok(p) ==> spec_envelope_parse_ok(v, p),
            r matches Err(e) ==> e.code == JANUS_ERROR_MISSING_MANDATORY_ELEMENT,
    {
        let mut pairs = match v {
            JsonValue::Obj(pairs) => pairs,
            _ => {
                return Err(envelope_error("expected a JSON object"));
            },
        };
        let ghost orig = pairs@;
        proof {
            assert(v == JsonValue::Obj(pairs));
            assert(orig == v->Obj_0@);
        }
        let ghost pred = |p: (String, JsonValue)| !is_fixed_envelope_key(p.0@);

        let mut transaction: Option<String> = None;
        let mut janus: Option<String> = None;
        let mut id: Option<u64> = None;
        let mut session_id: Option<u64> = None;
        let mut handle_id: Option<u64> = None;
        let mut body_seen: bool = false;
        let mut body: Option<JsonValue> = None;
        let mut jsep_seen: bool = false;
        let mut jsep: Option<JsonValue> = None;
        let mut rest: Vec<(String, JsonValue)> = Vec::new();

        let ghost mut k: int = 0;
        proof {
            assert(orig.take(0) =~= Seq::<(String, JsonValue)>::empty());
            assert(obj_fields(orig.take(0)) =~= Seq::<(Seq<char>, JsonValue)>::empty());
            assert(rest@ =~= spec_rest_pairs(orig.take(0))) by {
                reveal(Seq::filter);
            }
        }

        while pairs.len() > 0
            invariant
                v is Obj,
                orig == v->Obj_0@,
                0 <= k <= orig.len(),
                pairs@ == orig.skip(k),
                pred == (|p: (String, JsonValue)| !is_fixed_envelope_key(p.0@)),
                rest@ == orig.take(k).filter(pred),
                match transaction {
                    Some(s) => lookup_field(obj_fields(orig.take(k)), "transaction"@) == Some(
                        JsonValue::Str(s),
                    ),
                    None => lookup_field(obj_fields(orig.take(k)), "transaction"@) is None,
                },
                match janus {
                    Some(s) => lookup_field(obj_fields(orig.take(k)), "janus"@) == Some(
                        JsonValue::Str(s),
                    ),
                    None => lookup_field(obj_fields(orig.take(k)), "janus"@) is None,
                },
                match id {
                    Some(n) => lookup_field(obj_fields(orig.take(k)), "id"@) == Some(
                        JsonValue::UInt(n),
                    ),
                    None => lookup_field(obj_fields(orig.take(k)), "id"@) is None,
                },
                match session_id {
                    Some(n) => lookup_field(obj_fields(orig.take(k)), "session_id"@) == Some(
                        JsonValue::UInt(n),
                    ),
                    None => lookup_field(obj_fields(orig.take(k)), "session_id"@) is None,
                },
                match handle_id {
                    Some(n) => lookup_field(obj_fields(orig.take(k)), "handle_id"@) == Some(
                        JsonValue::UInt(n),
                    ),
                    None => lookup_field(obj_fields(orig.take(k)), "handle_id"@) is None,
                },
                body_seen ==> (lookup_field(obj_fields(orig.take(k)), "body"@) matches Some(x) && (
                if x is Null {
                    body is None
                } else {
                    body == Some(x)
                })),
                !body_seen ==> lookup_field(obj_fields(orig.take(k)), "body"@) is None && body
                    is None,
                jsep_seen ==> (lookup_field(obj_fields(orig.take(k)), "jsep"@) matches Some(x) && (
                if x is Null {
                    jsep is None
                } else {
                    jsep == Some(x)
                })),
                !jsep_seen ==> lookup_field(obj_fields(orig.take(k)), "jsep"@) is None && jsep
                    is None,
            decreases pairs.len(),
        {
            proof {
                assert(orig.skip(k).len() > 0);
                assert(orig.skip(k)[0] == orig[k]);
            }
            let pair = pairs.remove(0);
            proof {
                assert(pair == orig[k]);
                assert(pairs@ =~= orig.skip(k + 1));
                assert(orig.take(k + 1) =~= orig.take(k).push(orig[k]));
                assert(obj_fields(orig.take(k + 1)) =~= obj_fields(orig.take(k)).push(
                    (orig[k].0@, orig[k].1),
                ));
                lemma_fixed_keys_distinct();
                lemma_lookup_push(obj_fields(orig.take(k)), (pair.0@, pair.1), "transaction"@);
                lemma_lookup_push(obj_fields(orig.take(k)), (pair.0@, pair.1), "janus"@);
                lemma_lookup_push(obj_fields(orig.take(k)), (pair.0@, pair.1), "id"@);
                lemma_lookup_push(obj_fields(orig.take(k)), (pair.0@, pair.1), "session_id"@);
                lemma_lookup_push(obj_fields(orig.take(k)), (pair.0@, pair.1), "handle_id"@);
                lemma_lookup_push(obj_fields(orig.take(k)), (pair.0@, pair.1), "body"@);
                lemma_lookup_push(obj_fields(orig.take(k)), (pair.0@, pair.1), "jsep"@);
                assert(orig.take(k + 1).drop_last() =~= orig.take(k));
                assert(orig.take(k + 1).last() == orig[k]);
                reveal(Seq::filter);
            }
            let (key, value) = pair;
            if str_eq(key.as_str(), "transaction") {
                if transaction.is_none() {
                    match value {
                        JsonValue::Str(s) => {
                            transaction = Some(s);
                        },
                        _ => {
                            proof {
                                lemma_first_hit_decides(orig, k, "transaction"@);
                                assert(lookup_field(obj_fields(v->Obj_0@), "transaction"@) == Some(
                                    orig[k].1,
                                ));
                                assert(orig[k].1 == value);
                                assert(spec_envelope_malformed(v));
                            }
                            return Err(envelope_error("'transaction' must be a string"));
                        },
                    }
                }
            } else if str_eq(key.as_str(), "janus") {
                if janus.is_none() {
                    match value {
                        JsonValue::Str(s) => {
                            janus = Some(s);
                        },
                        _ => {
                            proof {
                                lemma_first_hit_decides(orig, k, "janus"@);
                                assert(lookup_field(obj_fields(v->Obj_0@), "janus"@) == Some(
                                    orig[k].1,
                                ));
                                assert(orig[k].1 == value);
                                assert(spec_envelope_malformed(v));
                            }
                            return Err(envelope_error("'janus' must be a string"));
                        },
                    }
                }
            } else if str_eq(key.as_str(), "id") {
                if id.is_none() {
                    match value {
                        JsonValue::UInt(n) => {
                            id = Some(n);
                        },
                        _ => {
                            proof {
                                lemma_first_hit_decides(orig, k, "id"@);
                                assert(lookup_field(obj_fields(v->Obj_0@), "id"@) == Some(
                                    orig[k].1,
                                ));
                                assert(orig[k].1 == value);
                                assert(spec_envelope_malformed(v));
                            }
                            return Err(envelope_error("'id' must be an unsigned integer"));
                        },
                    }
                }
            } else if str_eq(key.as_str(), "session_id") {
                if session_id.is_none() {
                    match value {
                        JsonValue::UInt(n) => {
                            session_id = Some(n);
                        },
                        _ => {
                            proof {
                                lemma_first_hit_decides(orig, k, "session_id"@);
                                assert(lookup_field(obj_fields(v->Obj_0@), "session_id"@) == Some(
                                    orig[k].1,
                                ));
                                assert(orig[k].1 == value);
                                assert(spec_envelope_malformed(v));
                            }
                            return Err(envelope_error("'session_id' must be an unsigned integer"));
                        },
                    }
                }
            } else if str_eq(key.as_str(), "handle_id") {
                if handle_id.is_none() {
                    match value {
                        JsonValue::UInt(n) => {
                            handle_id = Some(n);
                        },
                        _ => {
                            proof {
                                lemma_first_hit_decides(orig, k, "handle_id"@);
                                assert(lookup_field(obj_fields(v->Obj_0@), "handle_id"@) == Some(
                                    orig[k].1,
                                ));
                                assert(orig[k].1 == value);
                                assert(spec_envelope_malformed(v));
                            }
                            return Err(envelope_error("'handle_id' must be an unsigned integer"));
                        },
                    }
                }
            } else if str_eq(key.as_str(), "body") {
                if !body_seen {
                    body_seen = true;
                    match value {
                        JsonValue::Null => {
                            body = None;
                        },
                        other => {
                            body = Some(other);
                        },
                    }
                }
            } else if str_eq(key.as_str(), "jsep") {
                if !jsep_seen {
                    jsep_seen = true;
                    match value {
                        JsonValue::Null => {
                            jsep = None;
                        },
                        other => {
                            jsep = Some(other);
                        },
                    }
                }
            } else {
                rest.push((key, value));
            }
            proof {
                k = k + 1;
            }
        }
        proof {
            assert(orig.take(orig.len() as int) =~= orig);
        }

        let transaction = match transaction {
            Some(s) => s,
            None => {
                return Err(envelope_error("missing mandatory element 'transaction'"));
            },
        };
        let janus = match janus {
            Some(s) => s,
            None => {
                return Err(envelope_error("missing mandatory element 'janus'"));
            },
        };
        let id = match id {
            Some(n) => n,
            None => 0,
        };
        let session_id = match session_id {
            Some(n) => n,
            None => 0,
        };
        let handle_id = match handle_id {
            Some(n) => n,
            None => 0,
        };
        Ok(
            IncomingRequestParameters {
                transaction,
                janus,
                id,
                session_id,
                handle_id,
                body,
                jsep,
                rest,
            },
        )
    }
}

/// The fields the encoder emits for an envelope, in order: the two required
/// strings, then each id field when it is non-zero, then the payloads when
/// they are set, then the remainder.
pub open spec fn spec_envelope_fields(e: IncomingRequestParameters) -> Seq<(Seq<char>, JsonValue)> {
    seq![("transaction"@, JsonValue::Str(e.transaction)), ("janus"@, JsonValue::Str(e.janus))] + (
    if e.id != 0 {
        seq![("id"@, JsonValue::UInt(e.id))]
    } else {
        seq![]
    }) + (if e.session_id != 0 {
        seq![("session_id"@, JsonValue::UInt(e.session_id))]
    } else {
        seq![]
    }) + (if e.handle_id != 0 {
        seq![("handle_id"@, JsonValue::UInt(e.handle_id))]
    } else {
        seq![]
    }) + (match e.body {
        Some(b) => seq![("body"@, b)],
        None => seq![],
    }) + (match e.jsep {
        Some(j) => seq![("jsep"@, j)],
        None => seq![],
    }) + obj_fields(e.rest@)
}

/// How many fixed fields the encoder emits for an envelope.
pub open spec fn spec_fixed_count(e: IncomingRequestParameters) -> int {
    2 + (if e.id != 0 {
        1int
    } else {
        0int
    }) + (if e.session_id != 0 {
        1int
    } else {
        0int
    }) + (if e.handle_id != 0 {
        1int
    } else {
        0int
    }) + (if e.body is Some {
        1int
    } else {
        0int
    }) + (if e.jsep is Some {
        1int
    } else {
        0int
    })
}

/// An envelope the encoder can represent faithfully: payloads, when set, are
/// not the JSON `null` (which reads back as unset), and the remainder does not
/// shadow a fixed field.
pub open spec fn spec_envelope_wf(e: IncomingRequestParameters) -> bool {
    &&& e.body != Some(JsonValue::Null)
    &&& e.jsep != Some(JsonValue::Null)
    &&& forall|i: int| 0 <= i < e.rest@.len() ==> !is_fixed_envelope_key(#[trigger] e.rest@[i].0@)
}

/// Decoding equality: every field the protocol speaks of agrees, with the
/// remainder compared as a sequence of pairs.
pub open spec fn spec_envelope_equiv(p: IncomingRequestParameters, e: IncomingRequestParameters) -> bool {
    &&& p.transaction == e.transaction
    &&& p.janus == e.janus
    &&& p.id == e.id
    &&& p.session_id == e.session_id
    &&& p.handle_id == e.handle_id
    &&& p.body == e.body
    &&& p.jsep == e.jsep
    &&& p.rest@ == e.rest@
}

impl IncomingRequestParameters {
    /// Encodes the envelope as a JSON object. Zero-valued ids and unset
    /// payloads are elided; the remainder pairs are appended unchanged.
    pub fn to_json(self) -> (r: JsonValue)
        ensures
            r is Obj,
            obj_fields(r->Obj_0@) == spec_envelope_fields(self),
            r->Obj_0@.skip(spec_fixed_count(self)) == self.rest@,
    {
        let mut pairs: Vec<(String, JsonValue)> = Vec::new();
        pairs.push((String::from_str("transaction"), JsonValue::Str(self.transaction)));
        pairs.push((String::from_str("janus"), JsonValue::Str(self.janus)));
        if self.id != 0 {
            pairs.push((String::from_str("id"), JsonValue::UInt(self.id)));
        }
        if self.session_id != 0 {
            pairs.push((String::from_str("session_id"), JsonValue::UInt(self.session_id)));
        }
        if self.handle_id != 0 {
            pairs.push((String::from_str("handle_id"), JsonValue::UInt(self.handle_id)));
        }
        if let Some(b) = self.body {
            pairs.push((String::from_str("body"), b));
        }
        if let Some(j) = self.jsep {
            pairs.push((String::from_str("jsep"), j));
        }
        let ghost fixed = pairs@;
        let mut rest = self.rest;
        pairs.append(&mut rest);
        proof {
            assert(pairs@ == fixed + self.rest@);
            assert(obj_fields(pairs@) =~= spec_envelope_fields(self));
            assert(fixed.len() == spec_fixed_count(self));
            assert(pairs@.skip(spec_fixed_count(self)) =~= self.rest@);
        }
        JsonValue::Obj(pairs)
    }
}

/// Looking up in a concatenation: the left part wins when it has the key.
pub proof fn lemma_lookup_append_right(
    s: Seq<(Seq<char>, JsonValue)>,
    t: Seq<(Seq<char>, JsonValue)>,
    key: Seq<char>,
)
    ensures
        lookup_field(s + t, key) == if lookup_field(s, key) is Some {
            lookup_field(s, key)
        } else {
            lookup_field(t, key)
        },
    decreases s.len(),
{
    if s.len() == 0 {
        assert(s + t =~= t);
    } else {
        assert((s + t)[0] == s[0]);
        assert((s + t).drop_first() =~= s.drop_first() + t);
        lemma_lookup_append_right(s.drop_first(), t, key);
    }
}

proof fn lemma_lookup_single(p: (Seq<char>, JsonValue), key: Seq<char>)
    ensures
        lookup_field(seq![p], key) == if p.0 == key {
            Some(p.1)
        } else {
            None::<JsonValue>
        },
{
    let s = seq![p];
    assert(s.len() == 1);
    assert(s[0] == p);
    assert(s.drop_first() =~= Seq::<(Seq<char>, JsonValue)>::empty());
    assert(lookup_field(Seq::<(Seq<char>, JsonValue)>::empty(), key) is None);
}

/// Filtering keeps nothing when no element passes.
proof fn lemma_filter_none<A>(s: Seq<A>, pred: spec_fn(A) -> bool)
    requires
        forall|i: int| 0 <= i < s.len() ==> !pred(s[i]),
    ensures
        s.filter(pred) == Seq::<A>::empty(),
    decreases s.len(),
{
    reveal(Seq::filter);
    if s.len() > 0 {
        lemma_filter_none(s.drop_last(), pred);
    }
}

/// Filtering keeps everything when every element passes.
proof fn lemma_filter_all<A>(s: Seq<A>, pred: spec_fn(A) -> bool)
    requires
        forall|i: int| 0 <= i < s.len() ==> pred(s[i]),
    ensures
        s.filter(pred) == s,
    decreases s.len(),
{
    reveal(Seq::filter);
    if s.len() > 0 {
        lemma_filter_all(s.drop_last(), pred);
        assert(s.drop_last().push(s.last()) =~= s);
    }
}

/// What a lookup over an encoded envelope finds, given that the remainder
/// does not shadow the fixed keys.
pub open spec fn spec_env_lookup(e: IncomingRequestParameters, key: Seq<char>) -> Option<
    JsonValue,
> {
    if key == "transaction"@ {
        Some(JsonValue::Str(e.transaction))
    } else if key == "janus"@ {
        Some(JsonValue::Str(e.janus))
    } else if key == "id"@ {
        if e.id != 0 {
            Some(JsonValue::UInt(e.id))
        } else {
            lookup_field(obj_fields(e.rest@), key)
        }
    } else if key == "session_id"@ {
        if e.session_id != 0 {
            Some(JsonValue::UInt(e.session_id))
        } else {
            lookup_field(obj_fields(e.rest@), key)
        }
    } else if key == "handle_id"@ {
        if e.handle_id != 0 {
            Some(JsonValue::UInt(e.handle_id))
        } else {
            lookup_field(obj_fields(e.rest@), key)
        }
    } else if key == "body"@ {
        match e.body {
            Some(b) => Some(b),
            None => lookup_field(obj_fields(e.rest@), key),
        }
    } else if key == "jsep"@ {
        match e.jsep {
            Some(j) => Some(j),
            None => lookup_field(obj_fields(e.rest@), key),
        }
    } else {
        lookup_field(obj_fields(e.rest@), key)
    }
}

/// The seven fixed envelope keys are pairwise distinct.
pub proof fn lemma_fixed_keys_distinct()
    ensures
        "transaction"@ != "janus"@,
        "transaction"@ != "id"@,
        "transaction"@ != "session_id"@,
        "transaction"@ != "handle_id"@,
        "transaction"@ != "body"@,
        "transaction"@ != "jsep"@,
        "janus"@ != "id"@,
        "janus"@ != "session_id"@,
        "janus"@ != "handle_id"@,
        "janus"@ != "body"@,
        "janus"@ != "jsep"@,
        "id"@ != "session_id"@,
        "id"@ != "handle_id"@,
        "id"@ != "body"@,
        "id"@ != "jsep"@,
        "session_id"@ != "handle_id"@,
        "session_id"@ != "body"@,
        "session_id"@ != "jsep"@,
        "handle_id"@ != "body"@,
        "handle_id"@ != "jsep"@,
        "body"@ != "jsep"@,
{
    reveal_strlit("transaction");
    reveal_strlit("janus");
    reveal_strlit("id");
    reveal_strlit("session_id");
    reveal_strlit("handle_id");
    reveal_strlit("body");
    reveal_strlit("jsep");
    assert("transaction"@.len() == 11);
    assert("janus"@.len() == 5);
    assert("id"@.len() == 2);
    assert("session_id"@.len() == 10);
    assert("handle_id"@.len() == 9);
    assert("body"@.len() == 4);
    assert("jsep"@.len() == 4);
    assert("body"@[0] == 'b');
    assert("jsep"@[0] == 'j');
}

/// Field lookup over an encoded envelope follows the envelope.
pub proof fn lemma_envelope_lookup(e: IncomingRequestParameters, key: Seq<char>)
    ensures
        lookup_field(spec_envelope_fields(e), key) == spec_env_lookup(e, key),
{
    let s1: Seq<(Seq<char>, JsonValue)> = seq![("transaction"@, JsonValue::Str(e.transaction))];
    let s2: Seq<(Seq<char>, JsonValue)> = seq![("janus"@, JsonValue::Str(e.janus))];
    let s3: Seq<(Seq<char>, JsonValue)> = if e.id != 0 {
        seq![("id"@, JsonValue::UInt(e.id))]
    } else {
        seq![]
    };
    let s4: Seq<(Seq<char>, JsonValue)> = if e.session_id != 0 {
        seq![("session_id"@, JsonValue::UInt(e.session_id))]
    } else {
        seq![]
    };
    let s5: Seq<(Seq<char>, JsonValue)> = if e.handle_id != 0 {
        seq![("handle_id"@, JsonValue::UInt(e.handle_id))]
    } else {
        seq![]
    };
    let s6: Seq<(Seq<char>, JsonValue)> = match e.body {
        Some(b) => seq![("body"@, b)],
        None => seq![],
    };
    let s7: Seq<(Seq<char>, JsonValue)> = match e.jsep {
        Some(j) => seq![("jsep"@, j)],
        None => seq![],
    };
    let rf = obj_fields(e.rest@);
    lemma_fixed_keys_distinct();
    let p2 = seq![("transaction"@, JsonValue::Str(e.transaction)), ("janus"@, JsonValue::Str(e.janus))];
    let p3 = p2 + s3;
    let p4 = p3 + s4;
    let p5 = p4 + s5;
    let p6 = p5 + s6;
    let p7 = p6 + s7;
    assert(spec_envelope_fields(e) == p7 + rf);
    assert(p2 =~= s1 + s2);
    lemma_lookup_single(("transaction"@, JsonValue::Str(e.transaction)), key);
    lemma_lookup_single(("janus"@, JsonValue::Str(e.janus)), key);
    lemma_lookup_append_right(s1, s2, key);
    lemma_lookup_segment(s3, ("id"@, JsonValue::UInt(e.id)), e.id != 0, key);
    lemma_lookup_segment(s4, ("session_id"@, JsonValue::UInt(e.session_id)), e.session_id != 0, key);
    lemma_lookup_segment(s5, ("handle_id"@, JsonValue::UInt(e.handle_id)), e.handle_id != 0, key);
    lemma_lookup_segment(
        s6,
        ("body"@, if e.body is Some { e.body.unwrap() } else { JsonValue::Null }),
        e.body is Some,
        key,
    );
    lemma_lookup_segment(
        s7,
        ("jsep"@, if e.jsep is Some { e.jsep.unwrap() } else { JsonValue::Null }),
        e.jsep is Some,
        key,
    );
    lemma_lookup_append_right(p2, s3, key);
    lemma_lookup_append_right(p3, s4, key);
    lemma_lookup_append_right(p4, s5, key);
    lemma_lookup_append_right(p5, s6, key);
    lemma_lookup_append_right(p6, s7, key);
    lemma_lookup_append_right(p7, rf, key);
    if key == "transaction"@ {
        assert(lookup_field(spec_envelope_fields(e), key) == Some(JsonValue::Str(e.transaction)));
    } else if key == "janus"@ {
        assert(lookup_field(spec_envelope_fields(e), key) == Some(JsonValue::Str(e.janus)));
    } else if key == "id"@ {
        if e.id != 0 {
            assert(lookup_field(spec_envelope_fields(e), key) == Some(JsonValue::UInt(e.id)));
        } else {
            assert(lookup_field(spec_envelope_fields(e), key) == lookup_field(rf, key));
        }
    } else if key == "session_id"@ {
        if e.session_id != 0 {
            assert(lookup_field(spec_envelope_fields(e), key) == Some(JsonValue::UInt(e.session_id)));
        } else {
            assert(lookup_field(spec_envelope_fields(e), key) == lookup_field(rf, key));
        }
    } else if key == "handle_id"@ {
        if e.handle_id != 0 {
            assert(lookup_field(spec_envelope_fields(e), key) == Some(JsonValue::UInt(e.handle_id)));
        } else {
            assert(lookup_field(spec_envelope_fields(e), key) == lookup_field(rf, key));
        }
    } else if key == "body"@ {
        match e.body {
            Some(b) => {
                assert(lookup_field(spec_envelope_fields(e), key) == Some(b));
            },
            None => {
                assert(lookup_field(spec_envelope_fields(e), key) == lookup_field(rf, key));
            },
        }
    } else if key == "jsep"@ {
        match e.jsep {
            Some(j) => {
                assert(lookup_field(spec_envelope_fields(e), key) == Some(j));
            },
            None => {
                assert(lookup_field(spec_envelope_fields(e), key) == lookup_field(rf, key));
            },
        }
    } else {
        assert(lookup_field(spec_envelope_fields(e), key) == lookup_field(rf, key));
    }
}

/// Looking up in a conditional singleton segment.
proof fn lemma_lookup_segment(
    s: Seq<(Seq<char>, JsonValue)>,
    p: (Seq<char>, JsonValue),
    present: bool,
    key: Seq<char>,
)
    requires
        s == if present {
            seq![p]
        } else {
            Seq::<(Seq<char>, JsonValue)>::empty()
        },
    ensures
        lookup_field(s, key) == if present && p.0 == key {
            Some(p.1)
        } else {
            None::<JsonValue>
        },
{
    if present {
        lemma_lookup_single(p, key);
    }
}

/// Round trip: an encoded well-formed envelope is never rejected by the
/// decoder, and any decode of it agrees with the original envelope on every
/// field. Together with the contracts of `to_json` and `from_json`, decoding
/// an encoding gives the envelope back.
pub proof fn lemma_envelope_round_trip(e: IncomingRequestParameters, v: JsonValue)
    requires
        spec_envelope_wf(e),
        v is Obj,
        obj_fields(v->Obj_0@) == spec_envelope_fields(e),
        v->Obj_0@.skip(spec_fixed_count(e)) == e.rest@,
    ensures
        !spec_envelope_malformed(v),
        forall|p: IncomingRequestParameters|
            spec_envelope_parse_ok(v, p) ==> spec_envelope_equiv(p, e),
{
    let fields = obj_fields(v->Obj_0@);
    let rf = obj_fields(e.rest@);
    let pred = |p: (String, JsonValue)| !is_fixed_envelope_key(p.0@);
    lemma_fixed_keys_distinct();
    assert(forall|i: int| 0 <= i < rf.len() ==> !is_fixed_envelope_key(#[trigger] rf[i].0));
    lemma_lookup_absent(rf, "transaction"@);
    lemma_lookup_absent(rf, "janus"@);
    lemma_lookup_absent(rf, "id"@);
    lemma_lookup_absent(rf, "session_id"@);
    lemma_lookup_absent(rf, "handle_id"@);
    lemma_lookup_absent(rf, "body"@);
    lemma_lookup_absent(rf, "jsep"@);
    lemma_envelope_lookup(e, "transaction"@);
    lemma_envelope_lookup(e, "janus"@);
    lemma_envelope_lookup(e, "id"@);
    lemma_envelope_lookup(e, "session_id"@);
    lemma_envelope_lookup(e, "handle_id"@);
    lemma_envelope_lookup(e, "body"@);
    lemma_envelope_lookup(e, "jsep"@);

    // The remainder of the encoding is exactly `e.rest`.
    let pairs = v->Obj_0@;
    let nfix = spec_fixed_count(e);
    assert(fields.len() == nfix + e.rest@.len()) by {
        assert(obj_fields(e.rest@).len() == e.rest@.len());
    }
    assert(pairs =~= pairs.take(nfix) + e.rest@);
    assert forall|i: int| 0 <= i < nfix implies is_fixed_envelope_key(
        #[trigger] pairs.take(nfix)[i].0@,
    ) by {
        assert(fields[i] == (pairs[i].0@, pairs[i].1));
        lemma_envelope_fixed_prefix_keys(e, i);
    }
    Seq::filter_distributes_over_add(pairs.take(nfix), e.rest@, pred);
    lemma_filter_none(pairs.take(nfix), pred);
    lemma_filter_all(e.rest@, pred);
    assert(spec_rest_pairs(pairs) =~= e.rest@);
}

/// Every fixed-position field of an encoded envelope carries a fixed key.
proof fn lemma_envelope_fixed_prefix_keys(e: IncomingRequestParameters, i: int)
    requires
        0 <= i < spec_fixed_count(e),
    ensures
        is_fixed_envelope_key(spec_envelope_fields(e)[i].0),
{
}

/// When the key under the cursor has not been seen in the processed prefix,
/// the pair under the cursor decides the whole object's lookup.
proof fn lemma_first_hit_decides(orig: Seq<(String, JsonValue)>, k: int, key: Seq<char>)
    requires
        0 <= k < orig.len(),
        lookup_field(obj_fields(orig.take(k)), key) is None,
        orig[k].0@ == key,
    ensures
        lookup_field(obj_fields(orig), key) == Some(orig[k].1),
{
    let pre = obj_fields(orig.take(k));
    let post = obj_fields(orig.skip(k));
    lemma_lookup_none_no_key(pre, key);
    assert(obj_fields(orig) =~= pre + post);
    lemma_lookup_skip_prefix(pre, post, key);
    assert(post[0] == (orig[k].0@, orig[k].1));
}

fn envelope_error(reason: &str) -> (r: JanusError)
    ensures
        r.code == JANUS_ERROR_MISSING_MANDATORY_ELEMENT,
{
    JanusError::new(
        JANUS_ERROR_MISSING_MANDATORY_ELEMENT,
        String::from_str("Validation error: ").concat(reason),
    )
}

impl IncomingRequestParameters {
    /// A fresh proxy-originated request: a random decimal transaction, the
    /// verb, and optional payloads; the addressing ids start unset.
    pub fn prepare(request: String, body: Option<JsonValue>, jsep: Option<JsonValue>) -> (r:
        IncomingRequestParameters)
        ensures
            r.janus == request,
            r.body == body,
            r.jsep == jsep,
            r.id == 0,
            r.session_id == 0,
            r.handle_id == 0,
            r.rest@.len() == 0,
            r.transaction@.len() > 0,
    {
        let id = rand_id();
        let transaction = u64_to_string(id);
        proof {
            assert(spec_decimal(id as nat).len() > 0);
        }
        IncomingRequestParameters {
            transaction,
            janus: request,
            id: 0,
            session_id: 0,
            handle_id: 0,
            body,
            jsep,
            rest: Vec::new(),
        }
    }
}

/// The verb-specific payload of a `trickle` request: one candidate, or a
/// batch, or (illegally) both or neither.
#[derive(Debug, PartialEq)]
pub struct TrickleParameters {
    pub candidate: Option<JanusIceTrickle>,
    pub candidates: Option<Vec<JanusIceTrickle>>,
}

/// When the trickle payload inside an envelope remainder cannot be decoded:
/// a `candidate` that is not a well-typed candidate object, or a `candidates`
/// that is not an array of them.
pub open spec fn spec_trickle_params_malformed(fields: Seq<(Seq<char>, JsonValue)>) -> bool {
    ||| (match lookup_field(fields, "candidate"@) {
        Some(cv) => spec_trickle_malformed(cv),
        None => false,
    })
    ||| (match lookup_field(fields, "candidates"@) {
        Some(av) => !(av is Arr) || exists|i: int|
            0 <= i < av->Arr_0@.len() && spec_trickle_malformed(#[trigger] av->Arr_0@[i]),
        None => false,
    })
}

impl TrickleParameters {
    /// Decodes the trickle payload out of an envelope remainder. Each entry
    /// present decodes to exactly the candidates standing under it.
    pub fn from_rest(rest: &Vec<(String, JsonValue)>) -> (r: Result<TrickleParameters, JanusError>)
        ensures
            r is Ok <==> !spec_trickle_params_malformed(obj_fields(rest@)),
            r matches Ok(t) ==> {
                let fields = obj_fields(rest@);
                &&& match t.candidate {
                    Some(c) => lookup_field(fields, "candidate"@) matches Some(cv)
                        && spec_trickle_parse_ok(cv, c),
                    None => lookup_field(fields, "candidate"@) is None,
                }
                &&& match t.candidates {
                    Some(cs) => lookup_field(fields, "candidates"@) matches Some(av) && av is Arr
                        && cs@.len() == av->Arr_0@.len() && forall|i: int|
                        0 <= i < cs@.len() ==> spec_trickle_parse_ok(
                            #[trigger] av->Arr_0@[i],
                            cs@[i],
                        ),
                    None => lookup_field(fields, "candidates"@) is None,
                }
            },
            r matches Err(e) ==> e.code == JANUS_ERROR_MISSING_MANDATORY_ELEMENT,
    {
        let candidate = match crate::json::obj_get(rest, "candidate") {
            None => None,
            Some(cv) => match JanusIceTrickle::from_json(cv) {
                Ok(c) => Some(c),
                Err(_) => {
                    return Err(envelope_error("'candidate' is not a valid trickle object"));
                },
            },
        };
        let candidates = match crate::json::obj_get(rest, "candidates") {
            None => None,
            Some(av) => match av {
                JsonValue::Arr(items) => {
                    let mut out: Vec<JanusIceTrickle> = Vec::new();
                    let mut i: usize = 0;
                    while i < items.len()
                        invariant
                            lookup_field(obj_fields(rest@), "candidates"@) == Some(
                                JsonValue::Arr(*items),
                            ),
                            0 <= i <= items@.len(),
                            out@.len() == i,
                            forall|j: int|
                                0 <= j < i ==> spec_trickle_parse_ok(
                                    #[trigger] items@[j],
                                    out@[j],
                                ),
                            forall|j: int| 0 <= j < i ==> !spec_trickle_malformed(
                                #[trigger] items@[j],
                            ),
                        decreases items.len() - i,
                    {
                        match JanusIceTrickle::from_json(&items[i]) {
                            Ok(c) => {
                                out.push(c);
                            },
                            Err(_) => {
                                proof {
                                    let av = lookup_field(
                                        obj_fields(rest@),
                                        "candidates"@,
                                    ).unwrap();
                                    assert(av->Arr_0@[i as int] == items@[i as int]);
                                    assert(spec_trickle_malformed(av->Arr_0@[i as int]));
                                }
                                return Err(
                                    envelope_error("'candidates' holds an invalid trickle object"),
                                );
                            },
                        }
                        i = i + 1;
                    }
                    Some(out)
                },
                _ => {
                    return Err(envelope_error("'candidates' must be an array"));
                },
            },
        };
        Ok(TrickleParameters { candidate, candidates })
    }
}

/// The verb-specific payload of an `attach` request.
#[derive(Debug, PartialEq)]
pub struct AttachParameters {
    pub plugin: String,
    pub opaque_id: Option<String>,
}

impl AttachParameters {
    /// Decodes the attach payload out of an envelope remainder: the plugin
    /// name is required.
    pub fn from_rest(rest: &Vec<(String, JsonValue)>) -> (r: Result<AttachParameters, JanusError>)
        ensures
            r is Ok <==> (lookup_field(obj_fields(rest@), "plugin"@) matches Some(x) && x is Str
                && !(lookup_field(obj_fields(rest@), "opaque_id"@) matches Some(y) && !(y
                is Str))),
            r matches Ok(a) ==> {
                &&& lookup_field(obj_fields(rest@), "plugin"@) == Some(JsonValue::Str(a.plugin))
                &&& match a.opaque_id {
                    Some(s) => lookup_field(obj_fields(rest@), "opaque_id"@) == Some(
                        JsonValue::Str(s),
                    ),
                    None => lookup_field(obj_fields(rest@), "opaque_id"@) is None,
                }
            },
            r matches Err(e) ==> e.code == JANUS_ERROR_MISSING_MANDATORY_ELEMENT,
    {
        let plugin = match crate::json::get_opt_str(rest, "plugin") {
            Ok(Some(s)) => s,
            Ok(None) => {
                return Err(envelope_error("missing mandatory element 'plugin'"));
            },
            Err(_) => {
                return Err(envelope_error("'plugin' must be a string"));
            },
        };
        let opaque_id = match crate::json::get_opt_str(rest, "opaque_id") {
            Ok(x) => x,
            Err(_) => {
                return Err(envelope_error("'opaque_id' must be a string"));
            },
        };
        Ok(AttachParameters { plugin, opaque_id })
    }
}


// The remaining request payload catalogue, mirroring the upstream Janus
// request definitions. These are the shapes the verb-specific handlers
// document; the fields follow the upstream parameter tables.
/// The payload of a `message` request.
#[derive(Debug, PartialEq)]
pub struct BodyParameters {
    pub body: JsonValue,
    pub jsep: Option<JsonValue>,
}

/// A JSEP payload: its type and the session description.
#[derive(Debug, PartialEq)]
pub struct JsepParameters {
    pub sdp_type: String,
    pub sdp: String,
    pub trickle: bool,
    pub e2ee: bool,
}

/// The payload of an `add_token` admin request.
#[derive(Debug, PartialEq)]
pub struct AddTokenParameters {
    pub token: String,
    pub plugins: Vec<String>,
}

/// A request that names an auth token.
#[derive(Debug, PartialEq)]
pub struct TokenParameters {
    pub token: String,
}

/// The envelope of an admin request.
#[derive(Debug, PartialEq)]
pub struct AdminParameters {
    pub transaction: String,
    pub janus: String,
}

/// Toggles debugging.
#[derive(Debug, PartialEq)]
pub struct DebugParameters {
    pub debug: bool,
}

/// Sets the session timeout.
#[derive(Debug, PartialEq)]
pub struct TimeoutParameters {
    pub timeout: u64,
}

/// Sets the log level.
#[derive(Debug, PartialEq)]
pub struct LevelParameters {
    pub level: u64,
}

/// Toggles log timestamps.
#[derive(Debug, PartialEq)]
pub struct TimestampsParameters {
    pub timestamps: bool,
}

/// Toggles log colors.
#[derive(Debug, PartialEq)]
pub struct ColorsParameters {
    pub colors: bool,
}

/// Sets the minimum NACK queue.
#[derive(Debug, PartialEq)]
pub struct MnqParameters {
    pub min_nack_queue: u64,
}

/// Sets the no-media timer.
#[derive(Debug, PartialEq)]
pub struct NmtParameters {
    pub no_media_timer: u64,
}

/// Sets the slowlink threshold.
#[derive(Debug, PartialEq)]
pub struct StParameters {
    pub slowlink_threshold: u64,
}

/// Accepts or rejects new sessions.
#[derive(Debug, PartialEq)]
pub struct AnsParameters {
    pub accept: bool,
}

/// Queries an event handler.
#[derive(Debug, PartialEq)]
pub struct QueryHandlerParameters {
    pub handler: String,
    pub request: JsonValue,
}

/// Queries a logger.
#[derive(Debug, PartialEq)]
pub struct QueryLoggerParameters {
    pub logger: String,
    pub request: JsonValue,
}

/// Messages a plugin through the admin surface.
#[derive(Debug, PartialEq)]
pub struct MessagePluginParameters {
    pub plugin: String,
    pub request: JsonValue,
}

/// Injects a custom event.
#[derive(Debug, PartialEq)]
pub struct CustomEventParamaters {
    pub schema: String,
    pub data: JsonValue,
}

/// Injects a custom log line.
#[derive(Debug, PartialEq)]
pub struct CustomLoglineParameters {
    pub line: String,
    pub level: u64,
}

/// Controls text2pcap dumps.
#[derive(Debug, PartialEq)]
pub struct Text2pcapParameters {
    pub folder: String,
    pub filename: String,
    pub truncate: u64,
}

/// Asks for handle info.
#[derive(Debug, PartialEq)]
pub struct HandleInfoParameters {
    pub plugin_only: bool,
}

/// Resolves an address.
#[derive(Debug, PartialEq)]
pub struct ResAddrParameters {
    pub address: String,
}

/// Tests a STUN server.
#[derive(Debug, PartialEq)]
pub struct TestStunParameters {
    pub address: String,
    pub port: u64,
    pub localport: u64,
}

} // verus!
