use vstd::prelude::*;

verus! {

/// A JSON value as the proxy models it. The Janus signalling protocol only
/// carries null, booleans, unsigned integers, strings, arrays and objects;
/// negative integers can occur inside opaque payloads and are kept as well.
/// An object is a list of key/value pairs so that the order of fields on the
/// wire is preserved.
#[derive(Debug, PartialEq)]
pub enum JsonValue {
    Null,
    Bool(bool),
    UInt(u64),
    NegInt(i64),
    Str(String),
    Arr(Vec<JsonValue>),
    Obj(Vec<(String, JsonValue)>),
}

/// The fields of an object, keys abstracted to their character sequences.
pub open spec fn obj_fields(pairs: Seq<(String, JsonValue)>) -> Seq<(Seq<char>, JsonValue)> {
    pairs.map_values(|p: (String, JsonValue)| (p.0@, p.1))
}

/// The value under the first occurrence of `key`, if any.
pub open spec fn lookup_field(fields: Seq<(Seq<char>, JsonValue)>, key: Seq<char>) -> Option<
    JsonValue,
>
    decreases fields.len(),
{
    if fields.len() == 0 {
        None
    } else if fields[0].0 == key {
        Some(fields[0].1)
    } else {
        lookup_field(fields.drop_first(), key)
    }
}

/// Relies on str's PartialEq: two slices compare equal exactly when their
/// character sequences do.
#[verifier::external_body]
pub fn str_eq(a: &str, b: &str) -> (r: bool)
    ensures
        r == (a@ == b@),
{
    a == b
}

/// Look a key up in an object's pair list; returns the first match.
pub fn obj_get<'a>(pairs: &'a Vec<(String, JsonValue)>, key: &str) -> (r: Option<&'a JsonValue>)
    ensures
        match r {
            Some(v) => lookup_field(obj_fields(pairs@), key@) == Some(*v),
            None => lookup_field(obj_fields(pairs@), key@) is None,
        },
{
    let ghost fields = obj_fields(pairs@);
    proof {
        assert(fields.skip(0) =~= fields);
    }
    let mut i: usize = 0;
    while i < pairs.len()
        invariant
            0 <= i <= pairs.len(),
            fields == obj_fields(pairs@),
            fields.len() == pairs.len(),
            lookup_field(fields, key@) == lookup_field(fields.skip(i as int), key@),
        decreases pairs.len() - i,
    {
        if str_eq(pairs[i].0.as_str(), key) {
            assert(fields.skip(i as int)[0] == fields[i as int]);
            return Some(&pairs[i].1);
        }
        assert(fields.skip(i as int).drop_first() =~= fields.skip(i + 1));
        i = i + 1;
    }
    assert(fields.skip(pairs.len() as int) =~= Seq::<(Seq<char>, JsonValue)>::empty());
    None
}

impl JsonValue {
    /// The unsigned integer a value carries, if it is one.
    pub fn as_u64(&self) -> (r: Option<u64>)
        ensures
            match r {
                Some(n) => *self == JsonValue::UInt(n),
                None => !(*self is UInt),
            },
    {
        match self {
            JsonValue::UInt(n) => Some(*n),
            _ => None,
        }
    }

    /// The string a value carries, if it is one.
    pub fn as_str(&self) -> (r: Option<&String>)
        ensures
            match r {
                Some(s) => *self == JsonValue::Str(*s),
                None => !(*self is Str),
            },
    {
        match self {
            JsonValue::Str(s) => Some(s),
            _ => None,
        }
    }

    /// The boolean a value carries, if it is one.
    pub fn as_bool(&self) -> (r: Option<bool>)
        ensures
            match r {
                Some(b) => *self == JsonValue::Bool(b),
                None => !(*self is Bool),
            },
    {
        match self {
            JsonValue::Bool(b) => Some(*b),
            _ => None,
        }
    }

    /// Whether the value is an object.
    pub fn is_object(&self) -> (r: bool)
        ensures
            r == (*self is Obj),
    {
        match self {
            JsonValue::Obj(_) => true,
            _ => false,
        }
    }
}

/// An optional string field: absent is `Ok(None)`, a string is `Ok(Some(..))`,
/// any other shape is an error.
pub fn get_opt_str(pairs: &Vec<(String, JsonValue)>, key: &str) -> (r: Result<Option<String>, ()>)
    ensures
        match r {
            Ok(opt) => match opt {
                Some(s) => lookup_field(obj_fields(pairs@), key@) == Some(JsonValue::Str(s)),
                None => lookup_field(obj_fields(pairs@), key@) is None,
            },
            Err(_) => lookup_field(obj_fields(pairs@), key@) is Some && !(lookup_field(
                obj_fields(pairs@),
                key@,
            ).unwrap() is Str),
        },
{
    match obj_get(pairs, key) {
        None => Ok(None),
        Some(JsonValue::Str(s)) => Ok(Some(s.clone())),
        Some(_) => Err(()),
    }
}

/// An optional unsigned integer field.
pub fn get_opt_u64(pairs: &Vec<(String, JsonValue)>, key: &str) -> (r: Result<Option<u64>, ()>)
    ensures
        match r {
            Ok(opt) => match opt {
                Some(n) => lookup_field(obj_fields(pairs@), key@) == Some(JsonValue::UInt(n)),
                None => lookup_field(obj_fields(pairs@), key@) is None,
            },
            Err(_) => lookup_field(obj_fields(pairs@), key@) is Some && !(lookup_field(
                obj_fields(pairs@),
                key@,
            ).unwrap() is UInt),
        },
{
    match obj_get(pairs, key) {
        None => Ok(None),
        Some(JsonValue::UInt(n)) => Ok(Some(*n)),
        Some(_) => Err(()),
    }
}

/// An optional boolean field.
pub fn get_opt_bool(pairs: &Vec<(String, JsonValue)>, key: &str) -> (r: Result<Option<bool>, ()>)
    ensures
        match r {
            Ok(opt) => match opt {
                Some(b) => lookup_field(obj_fields(pairs@), key@) == Some(JsonValue::Bool(b)),
                None => lookup_field(obj_fields(pairs@), key@) is None,
            },
            Err(_) => lookup_field(obj_fields(pairs@), key@) is Some && !(lookup_field(
                obj_fields(pairs@),
                key@,
            ).unwrap() is Bool),
        },
{
    match obj_get(pairs, key) {
        None => Ok(None),
        Some(JsonValue::Bool(b)) => Ok(Some(*b)),
        Some(_) => Err(()),
    }
}

/// Whether a JSON array holds exactly these strings, in order.
pub open spec fn spec_str_array(items: Seq<JsonValue>, ss: Seq<String>) -> bool {
    items.len() == ss.len() && forall|i: int|
        0 <= i < items.len() ==> items[i] == JsonValue::Str(#[trigger] ss[i])
}

/// An optional array-of-strings field.
pub fn get_opt_str_array(pairs: &Vec<(String, JsonValue)>, key: &str) -> (r: Result<
    Option<Vec<String>>,
    (),
>)
    ensures
        match r {
            Ok(opt) => match opt {
                Some(v) => lookup_field(obj_fields(pairs@), key@) matches Some(x) && x is Arr
                    && spec_str_array(x->Arr_0@, v@),
                None => lookup_field(obj_fields(pairs@), key@) is None,
            },
            Err(_) => lookup_field(obj_fields(pairs@), key@) matches Some(x) && !(x is Arr
                && forall|i: int| 0 <= i < x->Arr_0@.len() ==> #[trigger] x->Arr_0@[i] is Str),
        },
{
    match obj_get(pairs, key) {
        None => Ok(None),
        Some(JsonValue::Arr(items)) => {
            let mut out: Vec<String> = Vec::new();
            let mut i: usize = 0;
            while i < items.len()
                invariant
                    lookup_field(obj_fields(pairs@), key@) == Some(JsonValue::Arr(*items)),
                    0 <= i <= items@.len(),
                    out@.len() == i,
                    forall|j: int|
                        0 <= j < i ==> items@[j] == JsonValue::Str(#[trigger] out@[j]),
                decreases items.len() - i,
            {
                match &items[i] {
                    JsonValue::Str(s) => {
                        out.push(s.clone());
                    },
                    _ => {
                        proof {
                            let x = lookup_field(obj_fields(pairs@), key@).unwrap();
                            assert(x->Arr_0@[i as int] == items@[i as int]);
                            assert(!(x->Arr_0@[i as int] is Str));
                        }
                        return Err(());
                    },
                }
                i = i + 1;
            }
            proof {
                assert forall|j: int|
                    0 <= j < items@.len() implies #[trigger] items@[j] is Str by {
                    assert(items@[j] == JsonValue::Str(out@[j]));
                }
            }
            Ok(Some(out))
        },
        Some(_) => Err(()),
    }
}

/// Whether an id field holds the reserved "unset" value.
pub fn is_zero(n: &u64) -> (r: bool)
    ensures
        r == (*n == 0),
{
    *n == 0
}

} // verus!
