//! The untyped structured values that payloads and result contents are made
//! of: null, booleans, integers, strings, arrays, and objects (sequences of
//! key/value pairs looked up by key, first occurrence winning).

use vstd::prelude::*;

verus! {

/// An untyped structured value.
#[derive(Debug, PartialEq)]
pub enum Value {
    Null,
    Bool(bool),
    Int(i64),
    Str(String),
    Arr(Vec<Value>),
    Obj(Vec<(String, Value)>),
}

/// The coarse type of a [`Value`], as named in decode errors.
#[derive(Clone, Copy, Debug, PartialEq, Eq, Structural)]
pub enum JsonType {
    Null,
    Bool,
    Int,
    Str,
    Arr,
    Obj,
}

/// The value bound to `key` in a field sequence: the first pair whose key
/// matches, or `None`.
pub open spec fn find_field(fields: Seq<(String, Value)>, key: Seq<char>) -> Option<Value>
    decreases fields.len(),
{
    if fields.len() == 0 {
        None
    } else if fields[0].0@ == key {
        Some(fields[0].1)
    } else {
        find_field(fields.drop_first(), key)
    }
}

/// The value bound to `key` in an object; `None` on any other value.
pub open spec fn get_field(v: Value, key: Seq<char>) -> Option<Value> {
    match v {
        Value::Obj(fields) => find_field(fields@, key),
        _ => None,
    }
}

/// The number of fields of an object; `-1` on any other value.
pub open spec fn obj_len(v: Value) -> int {
    match v {
        Value::Obj(fields) => fields@.len() as int,
        _ => -1,
    }
}

/// The coarse type of a value.
pub open spec fn type_of(v: Value) -> JsonType {
    match v {
        Value::Null => JsonType::Null,
        Value::Bool(_) => JsonType::Bool,
        Value::Int(_) => JsonType::Int,
        Value::Str(_) => JsonType::Str,
        Value::Arr(_) => JsonType::Arr,
        Value::Obj(_) => JsonType::Obj,
    }
}

/// `v` is an object whose field `key` is the string `s`.
pub open spec fn obj_field_is_str(v: Value, key: Seq<char>, s: Seq<char>) -> bool {
    match get_field(v, key) {
        Some(Value::Str(x)) => x@ == s,
        _ => false,
    }
}

/// `v` is an object whose field `key` is the integer `i`.
pub open spec fn obj_field_is_int(v: Value, key: Seq<char>, i: int) -> bool {
    match get_field(v, key) {
        Some(Value::Int(x)) => x == i,
        _ => false,
    }
}

/// `v` is an object whose field `key` is the boolean `b`.
pub open spec fn obj_field_is_bool(v: Value, key: Seq<char>, b: bool) -> bool {
    match get_field(v, key) {
        Some(Value::Bool(x)) => x == b,
        _ => false,
    }
}

impl Value {
    /// Looks `key` up in an object; returns `None` on a missing key or on a
    /// non-object value.
    pub fn get<'a>(&'a self, key: &str) -> (r: Option<&'a Value>)
        ensures
            match r {
                Some(v) => get_field(*self, key@) == Some(*v),
                None => get_field(*self, key@) is None,
            },
    {
        match self {
            Value::Obj(fields) => {
                let n = fields.len();
                let mut i: usize = 0;
                proof {
                    assert(fields@.skip(0) =~= fields@);
                }
                #[verifier::loop_isolation(false)]
                while i < n
                    invariant
                        i <= n,
                        find_field(fields@, key@) == find_field(fields@.skip(i as int), key@),
                    decreases n - i,
                {
                    proof {
                        assert(fields@.skip(i as int)[0] == fields@[i as int]);
                        assert(fields@.skip(i as int).drop_first() =~= fields@.skip(
                            i as int + 1,
                        ));
                    }
                    if crate::text::str_eq(fields[i].0.as_str(), key) {
                        proof {
                            assert(find_field(fields@.skip(i as int), key@) == Some(
                                fields@[i as int].1,
                            ));
                            assert(get_field(*self, key@) == find_field(fields@, key@));
                        }
                        return Some(&fields[i].1);
                    }
                    i += 1;
                }
                proof {
                    assert(fields@.skip(n as int).len() == 0);
                }
                None
            },
            _ => None,
        }
    }

    /// Builds a one-field object.
    pub fn obj1(k1: &str, v1: Value) -> (r: Value)
        ensures
            obj_len(r) == 1,
            get_field(r, k1@) == Some(v1),
    {
        let mut fields: Vec<(String, Value)> = Vec::new();
        fields.push((k1.to_owned(), v1));
        let ghost fseq = fields@;
        let r = Value::Obj(fields);
        proof {
            assert(find_field(fseq, k1@) == Some(fseq[0].1));
        }
        r
    }

    /// Builds a two-field object; the keys must differ.
    pub fn obj2(k1: &str, v1: Value, k2: &str, v2: Value) -> (r: Value)
        requires
            k1@ != k2@,
        ensures
            obj_len(r) == 2,
            get_field(r, k1@) == Some(v1),
            get_field(r, k2@) == Some(v2),
    {
        let mut fields: Vec<(String, Value)> = Vec::new();
        fields.push((k1.to_owned(), v1));
        fields.push((k2.to_owned(), v2));
        let ghost fseq = fields@;
        let r = Value::Obj(fields);
        proof {
            assert(find_field(fseq, k1@) == Some(fseq[0].1));
            let d1 = fseq.drop_first();
            assert(d1 =~= seq![fseq[1]]);
            assert(find_field(d1, k2@) == Some(fseq[1].1));
            assert(find_field(fseq, k2@) == find_field(d1, k2@));
        }
        r
    }

    /// Builds a three-field object; the keys must be pairwise distinct.
    pub fn obj3(k1: &str, v1: Value, k2: &str, v2: Value, k3: &str, v3: Value) -> (r: Value)
        requires
            k1@ != k2@,
            k1@ != k3@,
            k2@ != k3@,
        ensures
            obj_len(r) == 3,
            get_field(r, k1@) == Some(v1),
            get_field(r, k2@) == Some(v2),
            get_field(r, k3@) == Some(v3),
    {
        let mut fields: Vec<(String, Value)> = Vec::new();
        fields.push((k1.to_owned(), v1));
        fields.push((k2.to_owned(), v2));
        fields.push((k3.to_owned(), v3));
        let ghost fseq = fields@;
        let r = Value::Obj(fields);
        proof {
            assert(find_field(fseq, k1@) == Some(fseq[0].1));
            let d1 = fseq.drop_first();
            assert(d1 =~= seq![fseq[1], fseq[2]]);
            let d2 = d1.drop_first();
            assert(d2 =~= seq![fseq[2]]);
            assert(find_field(d2, k3@) == Some(fseq[2].1));
            assert(find_field(d1, k2@) == Some(fseq[1].1));
            assert(find_field(d1, k3@) == find_field(d2, k3@));
            assert(find_field(fseq, k2@) == find_field(d1, k2@));
            assert(find_field(fseq, k3@) == find_field(d1, k3@));
        }
        r
    }

    /// The coarse type of this value.
    pub fn kind(&self) -> (r: JsonType)
        ensures
            r == type_of(*self),
    {
        match self {
            Value::Null => JsonType::Null,
            Value::Bool(_) => JsonType::Bool,
            Value::Int(_) => JsonType::Int,
            Value::Str(_) => JsonType::Str,
            Value::Arr(_) => JsonType::Arr,
            Value::Obj(_) => JsonType::Obj,
        }
    }
}

} // verus!
