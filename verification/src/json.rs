//! JSON values as the protocol sees them. Parsing and printing are done by
//! `serde_json`; the library keeps a tree of its own so that verified code can
//! read and build documents.

use crate::text::str_equal;
use vstd::prelude::*;
use vstd::string::*;

verus! {

#[verifier::external_type_specification]
#[verifier::external_body]
pub struct ExNumber(serde_json::Number);

#[verifier::external_type_specification]
#[verifier::external_body]
pub struct ExValue(serde_json::Value);

#[verifier::external_type_specification]
#[verifier::external_body]
pub struct ExJsonError(serde_json::Error);

/// What a JSON number holds: a non-negative integer, a negative integer, or
/// a finite double given by its IEEE-754 bit pattern.
pub enum NumberModel {
    PosInt(u64),
    NegInt(i64),
    Float(u64),
}

/// The content of a `serde_json::Number`.
pub uninterp spec fn number_model(n: serde_json::Number) -> NumberModel;

/// The model of the number that stands for the integer `i`.
pub open spec fn integer_model(i: int) -> NumberModel {
    if i >= 0 {
        NumberModel::PosInt(i as u64)
    } else {
        NumberModel::NegInt(i as i64)
    }
}

/// The number read as a signed 64-bit integer, where it is one.
pub open spec fn model_as_i64(m: NumberModel) -> Option<i64> {
    match m {
        NumberModel::PosInt(u) => if u <= i64::MAX as u64 {
            Some(u as i64)
        } else {
            None
        },
        NumberModel::NegInt(i) => Some(i),
        NumberModel::Float(_) => None,
    }
}

/// The number read as an unsigned 64-bit integer, where it is one.
pub open spec fn model_as_u64(m: NumberModel) -> Option<u64> {
    match m {
        NumberModel::PosInt(u) => Some(u),
        NumberModel::NegInt(_) => None,
        NumberModel::Float(_) => None,
    }
}

/// A JSON value. An object is kept as its members in order; where a key
/// occurs twice the later member is the one that counts.
#[derive(Debug, PartialEq)]
pub enum JsonValue {
    Null,
    Bool(bool),
    Number(serde_json::Number),
    Str(String),
    Array(Vec<JsonValue>),
    Object(Vec<(String, JsonValue)>),
}

/// The mathematical content of a [`JsonValue`].
pub enum JsonModel {
    Null,
    Bool(bool),
    Number(NumberModel),
    Str(Seq<char>),
    Array(Seq<JsonModel>),
    Object(Seq<(Seq<char>, JsonModel)>),
}

impl JsonValue {
    /// The content of this value.
    pub open spec fn model(self) -> JsonModel
        decreases self,
    {
        match self {
            JsonValue::Null => JsonModel::Null,
            JsonValue::Bool(b) => JsonModel::Bool(b),
            JsonValue::Number(n) => JsonModel::Number(number_model(n)),
            JsonValue::Str(s) => JsonModel::Str(s@),
            JsonValue::Array(items) => JsonModel::Array(
                Seq::new(
                    items@.len(),
                    |i: int|
                        if 0 <= i < items@.len() {
                            items@[i].model()
                        } else {
                            JsonModel::Null
                        },
                ),
            ),
            JsonValue::Object(members) => JsonModel::Object(
                Seq::new(
                    members@.len(),
                    |i: int|
                        if 0 <= i < members@.len() {
                            (members@[i].0@, members@[i].1.model())
                        } else {
                            (Seq::empty(), JsonModel::Null)
                        },
                ),
            ),
        }
    }
}

/// The content of a list of object members.
pub open spec fn members_model(members: Seq<(String, JsonValue)>) -> Seq<(Seq<char>, JsonModel)> {
    Seq::new(members.len(), |i: int| (members[i].0@, members[i].1.model()))
}

/// The content of an object is the content of its members, in order.
pub proof fn lemma_object_model(members: Vec<(String, JsonValue)>)
    ensures
        JsonValue::Object(members).model() == JsonModel::Object(members_model(members@)),
{
    let a = JsonValue::Object(members).model();
    assert(a is Object);
    assert(a->Object_0 =~= members_model(members@));
}

/// The member that counts for `key`: the last one that carries it.
pub open spec fn lookup(members: Seq<(Seq<char>, JsonModel)>, key: Seq<char>) -> Option<JsonModel>
    decreases members.len(),
{
    if members.len() == 0 {
        None
    } else if members.last().0 == key {
        Some(members.last().1)
    } else {
        lookup(members.drop_last(), key)
    }
}

/// The text that `serde_json` prints for a value, `None` where it reports an
/// error.
pub uninterp spec fn json_text(v: JsonModel) -> Option<Seq<char>>;

/// The indented text that `serde_json` prints for a value, `None` where it
/// reports an error.
pub uninterp spec fn json_pretty_text(v: JsonModel) -> Option<Seq<char>>;

/// The value that `serde_json` reads from a byte sequence, `None` where it
/// reports an error.
pub uninterp spec fn json_parse(bytes: Seq<u8>) -> Option<JsonModel>;

/// `serde_json::Number::as_i64`: the number as an `i64` where it is an
/// integer in that range.
#[verifier::external_body]
pub(crate) fn number_as_i64(n: &serde_json::Number) -> (r: Option<i64>)
    ensures
        r == model_as_i64(number_model(*n)),
{
    n.as_i64()
}

/// `serde_json::Number::as_u64`: the number as a `u64` where it is a
/// non-negative integer.
#[verifier::external_body]
pub(crate) fn number_as_u64(n: &serde_json::Number) -> (r: Option<u64>)
    ensures
        r == model_as_u64(number_model(*n)),
{
    n.as_u64()
}

/// `serde_json::Number::from` on an `i64`: the number that holds that
/// integer.
#[verifier::external_body]
pub(crate) fn number_from_i64(i: i64) -> (r: serde_json::Number)
    ensures
        number_model(r) == integer_model(i as int),
{
    serde_json::Number::from(i)
}

/// `serde_json::Number::from` on a `u64`: the number that holds that
/// integer.
#[verifier::external_body]
pub(crate) fn number_from_u64(u: u64) -> (r: serde_json::Number)
    ensures
        number_model(r) == integer_model(u as int),
{
    serde_json::Number::from(u)
}

/// The `serde_json::Value` with the same content: each variant becomes the
/// variant of the same name, members are inserted in order.
#[verifier::external_body]
fn to_outside(v: &JsonValue) -> serde_json::Value {
    match v {
        JsonValue::Null => serde_json::Value::Null,
        JsonValue::Bool(b) => serde_json::Value::Bool(*b),
        JsonValue::Number(n) => serde_json::Value::Number(n.clone()),
        JsonValue::Str(s) => serde_json::Value::String(s.clone()),
        JsonValue::Array(a) => serde_json::Value::Array(a.iter().map(to_outside).collect()),
        JsonValue::Object(o) => serde_json::Value::Object(
            o.iter().map(|(k, x)| (k.clone(), to_outside(x))).collect(),
        ),
    }
}

/// The library value with the same content as a `serde_json::Value`: each
/// variant becomes the variant of the same name, members keep the order in
/// which the map hands them out.
#[verifier::external_body]
fn from_outside(v: serde_json::Value) -> JsonValue {
    match v {
        serde_json::Value::Null => JsonValue::Null,
        serde_json::Value::Bool(b) => JsonValue::Bool(b),
        serde_json::Value::Number(n) => JsonValue::Number(n),
        serde_json::Value::String(s) => JsonValue::Str(s),
        serde_json::Value::Array(a) => JsonValue::Array(a.into_iter().map(from_outside).collect()),
        serde_json::Value::Object(o) => JsonValue::Object(
            o.into_iter().map(|(k, x)| (k, from_outside(x))).collect(),
        ),
    }
}

/// `serde_json::to_string` on the value: its compact JSON text.
#[verifier::external_body]
pub(crate) fn json_to_string(v: &JsonValue) -> (r: Result<String, serde_json::Error>)
    ensures
        r is Ok <==> json_text(v.model()) is Some,
        r matches Ok(s) ==> json_text(v.model()) == Some(s@),
{
    serde_json::to_string(&to_outside(v))
}

/// `serde_json::to_string_pretty` on the value: its JSON text with line
/// breaks and indentation.
#[verifier::external_body]
pub(crate) fn json_to_string_pretty(v: &JsonValue) -> (r: Result<String, serde_json::Error>)
    ensures
        r is Ok <==> json_pretty_text(v.model()) is Some,
        r matches Ok(s) ==> json_pretty_text(v.model()) == Some(s@),
{
    serde_json::to_string_pretty(&to_outside(v))
}

/// `serde_json::from_slice`: the value that a complete JSON document holds.
#[verifier::external_body]
pub(crate) fn json_from_slice(bytes: &[u8]) -> (r: Result<JsonValue, serde_json::Error>)
    ensures
        r is Ok <==> json_parse(bytes@) is Some,
        r matches Ok(v) ==> json_parse(bytes@) == Some(v.model()),
{
    serde_json::from_slice::<serde_json::Value>(bytes).map(from_outside)
}

/// The message of a `serde_json::Error`, as its `Display` gives it.
#[verifier::external_body]
pub(crate) fn json_error_text(e: &serde_json::Error) -> String {
    e.to_string()
}

/// `Clone` for `serde_json::Number`: a number with the same content.
pub assume_specification[ <serde_json::Number as Clone>::clone ](n: &serde_json::Number) -> (r:
    serde_json::Number)
    ensures
        number_model(r) == number_model(*n),
;

/// The content of an optional reference to a value.
pub open spec fn model_of(o: Option<&JsonValue>) -> Option<JsonModel> {
    match o {
        Some(v) => Some(v.model()),
        None => None,
    }
}

/// Appending a member appends its content.
pub proof fn lemma_members_push(members: Seq<(String, JsonValue)>, key: String, value: JsonValue)
    ensures
        members_model(members.push((key, value))) == members_model(members).push(
            (key@, value.model()),
        ),
{
    assert(members_model(members.push((key, value))) =~= members_model(members).push(
        (key@, value.model()),
    ));
}

/// Appends a member to a list of object members.
pub fn put(members: &mut Vec<(String, JsonValue)>, key: &str, value: JsonValue)
    ensures
        members_model(final(members)@) == members_model(old(members)@).push(
            (key@, value.model()),
        ),
{
    let k = String::from_str(key);
    proof {
        lemma_members_push(members@, k, value);
    }
    members.push((k, value));
}

/// The member that counts for `key` among the members of an object.
pub fn find<'a>(members: &'a Vec<(String, JsonValue)>, key: &str) -> (r: Option<&'a JsonValue>)
    ensures
        model_of(r) == lookup(members_model(members@), key@),
{
    let ghost all = members_model(members@);
    let mut i: usize = members.len();
    assert(all.subrange(0, i as int) =~= all);
    while i > 0
        invariant
            i <= members.len(),
            all == members_model(members@),
            lookup(all, key@) == lookup(all.subrange(0, i as int), key@),
        decreases i,
    {
        i -= 1;
        proof {
            let upto = all.subrange(0, i + 1);
            assert(upto.last() == all[i as int]);
            assert(upto.drop_last() =~= all.subrange(0, i as int));
        }
        if str_equal(members[i].0.as_str(), key) {
            return Some(&members[i].1);
        }
    }
    assert(all.subrange(0, 0).len() == 0);
    None
}

impl Clone for JsonValue {
    /// A deep copy.
    fn clone(&self) -> (r: Self)
        ensures
            r.model() == self.model(),
    {
        self.duplicate()
    }
}

impl JsonValue {
    /// A deep copy.
    pub fn duplicate(&self) -> (r: JsonValue)
        ensures
            r.model() == self.model(),
        decreases self,
    {
        match self {
            JsonValue::Null => JsonValue::Null,
            JsonValue::Bool(b) => JsonValue::Bool(*b),
            JsonValue::Number(n) => JsonValue::Number(n.clone()),
            JsonValue::Str(s) => JsonValue::Str(s.clone()),
            JsonValue::Array(items) => {
                let mut out: Vec<JsonValue> = Vec::new();
                let mut i: usize = 0;
                while i < items.len()
                    invariant
                        i <= items.len(),
                        out.len() == i,
                        *self == JsonValue::Array(*items),
                        forall|j: int| 0 <= j < i ==> out@[j].model() == items@[j].model(),
                    decreases items.len() - i,
                {
                    proof {
                        assert(self->Array_0 == *items);
                        assert(decreases_to!(*self => self->Array_0));
                        assert(decreases_to!(*items => items[i as int]));
                    }
                    let copy = items[i].duplicate();
                    out.push(copy);
                    i += 1;
                }
                let r = JsonValue::Array(out);
                proof {
                    assert(r.model()->Array_0 =~= self.model()->Array_0);
                }
                r
            },
            JsonValue::Object(members) => {
                let mut out: Vec<(String, JsonValue)> = Vec::new();
                let mut i: usize = 0;
                while i < members.len()
                    invariant
                        i <= members.len(),
                        out.len() == i,
                        *self == JsonValue::Object(*members),
                        forall|j: int|
                            0 <= j < i ==> out@[j].0@ == members@[j].0@ && out@[j].1.model()
                                == members@[j].1.model(),
                    decreases members.len() - i,
                {
                    proof {
                        assert(self->Object_0 == *members);
                        assert(decreases_to!(*self => self->Object_0));
                        assert(decreases_to!(*members => members[i as int]));
                        assert(decreases_to!(members[i as int] => members[i as int].1));
                    }
                    let copy = members[i].1.duplicate();
                    out.push((members[i].0.clone(), copy));
                    i += 1;
                }
                let r = JsonValue::Object(out);
                proof {
                    assert(r.model()->Object_0 =~= self.model()->Object_0);
                }
                r
            },
        }
    }

    /// The member that counts for `key` where this value is an object.
    pub fn member(&self, key: &str) -> (r: Option<&JsonValue>)
        ensures
            model_of(r) == match self.model() {
                JsonModel::Object(ms) => lookup(ms, key@),
                _ => None,
            },
    {
        match self {
            JsonValue::Object(members) => {
                proof {
                    lemma_object_model(*members);
                }
                find(members, key)
            },
            _ => None,
        }
    }

    /// The object with the given members.
    pub fn object(members: Vec<(String, JsonValue)>) -> (r: JsonValue)
        ensures
            r.model() == JsonModel::Object(members_model(members@)),
    {
        proof {
            lemma_object_model(members);
        }
        JsonValue::Object(members)
    }

    /// The text of a JSON string, `None` for any other value.
    pub fn as_text(&self) -> (r: Option<String>)
        ensures
            match self.model() {
                JsonModel::Str(s) => r matches Some(t) && t@ == s,
                _ => r is None,
            },
    {
        match self {
            JsonValue::Str(s) => Some(s.clone()),
            _ => None,
        }
    }

    /// The value of a JSON number that is an integer in the range of `i64`,
    /// `None` for any other value.
    pub fn as_i64(&self) -> (r: Option<i64>)
        ensures
            r == match self.model() {
                JsonModel::Number(n) => model_as_i64(n),
                _ => None,
            },
    {
        match self {
            JsonValue::Number(n) => number_as_i64(n),
            _ => None,
        }
    }

    /// The value of a JSON number that is a non-negative integer in the
    /// range of `u64`, `None` for any other value.
    pub fn as_u64(&self) -> (r: Option<u64>)
        ensures
            r == match self.model() {
                JsonModel::Number(n) => model_as_u64(n),
                _ => None,
            },
    {
        match self {
            JsonValue::Number(n) => number_as_u64(n),
            _ => None,
        }
    }

    /// The JSON number that holds `i`.
    pub fn from_i64(i: i64) -> (r: JsonValue)
        ensures
            r.model() == JsonModel::Number(integer_model(i as int)),
    {
        JsonValue::Number(number_from_i64(i))
    }

    /// The JSON number that holds `u`.
    pub fn from_u64(u: u64) -> (r: JsonValue)
        ensures
            r.model() == JsonModel::Number(integer_model(u as int)),
    {
        JsonValue::Number(number_from_u64(u))
    }

    /// The JSON string that holds `s`.
    pub fn from_text(s: &str) -> (r: JsonValue)
        ensures
            r.model() == JsonModel::Str(s@),
    {
        JsonValue::Str(String::from_str(s))
    }

    /// Parses a complete JSON document.
    pub fn parse(bytes: &[u8]) -> (r: Option<JsonValue>)
        ensures
            r is Some <==> json_parse(bytes@) is Some,
            r matches Some(v) ==> json_parse(bytes@) == Some(v.model()),
    {
        match json_from_slice(bytes) {
            Ok(v) => Some(v),
            Err(_) => None,
        }
    }

    /// Prints the value as JSON text with line breaks and indentation.
    pub fn print_pretty(&self) -> (r: Option<String>)
        ensures
            r is Some <==> json_pretty_text(self.model()) is Some,
            r matches Some(s) ==> json_pretty_text(self.model()) == Some(s@),
    {
        match json_to_string_pretty(self) {
            Ok(s) => Some(s),
            Err(_) => None,
        }
    }

    /// Prints the value as compact JSON text.
    pub fn print(&self) -> (r: Option<String>)
        ensures
            r is Some <==> json_text(self.model()) is Some,
            r matches Some(s) ==> json_text(self.model()) == Some(s@),
    {
        match json_to_string(self) {
            Ok(s) => Some(s),
            Err(_) => None,
        }
    }
}

} // verus!
