//! JSON values as the session reads and builds them.
//!
//! `JSObject` is the value that the library computes with; `JsonValue` is its
//! mathematical counterpart, in which every contract is stated. Turning text
//! into a value and a value into text is left to `serde_json`.

use serde_json::Value;
use vstd::prelude::*;

verus! {

/// The mathematical value of a JSON number.
pub enum JsonNumber {
    /// An integer.
    Int(int),
    /// Any other number, by its decimal text.
    Float(Seq<char>),
}

/// The mathematical value of a JSON document.
pub enum JsonValue {
    Null,
    Bool(bool),
    Number(JsonNumber),
    String(Seq<char>),
    Array(Seq<JsonValue>),
    /// The members in the order in which they were written. Where a key
    /// occurs twice, the later member is the one that counts.
    Object(Seq<(Seq<char>, JsonValue)>),
}

/// A JSON number.
#[derive(Debug, PartialEq)]
pub enum JSNumber {
    /// An integer that is not negative.
    PosInt(u64),
    /// An integer written with a sign.
    NegInt(i64),
    /// Any other number, by its decimal text.
    Float(String),
}

/// One member of a JSON object.
#[derive(Debug, PartialEq)]
pub struct Member {
    pub key: String,
    pub value: JSObject,
}

/// A JS object.
#[derive(Debug, PartialEq)]
pub enum JSObject {
    Null,
    Bool(bool),
    Number(JSNumber),
    String(String),
    Array(Vec<JSObject>),
    Object(Vec<Member>),
}

impl View for JSNumber {
    type V = JsonNumber;

    open spec fn view(&self) -> JsonNumber {
        match self {
            JSNumber::PosInt(n) => JsonNumber::Int(*n as int),
            JSNumber::NegInt(n) => JsonNumber::Int(*n as int),
            JSNumber::Float(t) => JsonNumber::Float(t@),
        }
    }
}

/// The mathematical value of `value`: that of each item and member, in
/// their order.
pub open spec fn json_model(value: JSObject) -> JsonValue
    decreases value,
{
    match value {
        JSObject::Null => JsonValue::Null,
        JSObject::Bool(b) => JsonValue::Bool(b),
        JSObject::Number(n) => JsonValue::Number(n@),
        JSObject::String(s) => JsonValue::String(s@),
        JSObject::Array(items) => JsonValue::Array(
            Seq::new(
                items@.len(),
                |i: int| if 0 <= i < items@.len() {
                    json_model(items@[i])
                } else {
                    JsonValue::Null
                },
            ),
        ),
        JSObject::Object(members) => JsonValue::Object(
            Seq::new(
                members@.len(),
                |i: int| if 0 <= i < members@.len() {
                    (members@[i].key@, json_model(members@[i].value))
                } else {
                    (Seq::empty(), JsonValue::Null)
                },
            ),
        ),
    }
}

impl View for JSObject {
    type V = JsonValue;

    open spec fn view(&self) -> JsonValue {
        json_model(*self)
    }
}

/// The value bound to `key` among `members`: that of the last member with
/// this key, and `Null` where there is none.
pub open spec fn lookup(members: Seq<(Seq<char>, JsonValue)>, key: Seq<char>) -> JsonValue
    decreases members.len(),
{
    if members.len() == 0 {
        JsonValue::Null
    } else if members.last().0 == key {
        members.last().1
    } else {
        lookup(members.drop_last(), key)
    }
}

impl JsonValue {
    /// Indexing by a key: the member of an object, `Null` for a key that the
    /// object lacks and for every value that is no object.
    pub open spec fn get(self, key: Seq<char>) -> JsonValue {
        match self {
            JsonValue::Object(members) => lookup(members, key),
            _ => JsonValue::Null,
        }
    }

    /// The characters of a string, `None` for every other value.
    pub open spec fn as_str(self) -> Option<Seq<char>> {
        match self {
            JsonValue::String(s) => Some(s),
            _ => None,
        }
    }

    /// The items of an array, `None` for every other value.
    pub open spec fn as_array(self) -> Option<Seq<JsonValue>> {
        match self {
            JsonValue::Array(items) => Some(items),
            _ => None,
        }
    }

    /// The integer that a number is, if it fits in 64 bits with a sign.
    pub open spec fn as_i64(self) -> Option<i64> {
        match self {
            JsonValue::Number(JsonNumber::Int(n)) => if i64::MIN <= n <= i64::MAX {
                Some(n as i64)
            } else {
                None
            },
            _ => None,
        }
    }

    /// Whether the value is `Null`.
    pub open spec fn is_null(self) -> bool {
        self is Null
    }

    /// An object with exactly this member.
    pub open spec fn object1(k0: Seq<char>, v0: JsonValue) -> JsonValue {
        JsonValue::Object(seq![(k0, v0)])
    }

    /// An object with exactly these two members, in this order.
    pub open spec fn object2(k0: Seq<char>, v0: JsonValue, k1: Seq<char>, v1: JsonValue) -> JsonValue {
        JsonValue::Object(seq![(k0, v0), (k1, v1)])
    }

    /// An object with exactly these three members, in this order.
    pub open spec fn object3(
        k0: Seq<char>,
        v0: JsonValue,
        k1: Seq<char>,
        v1: JsonValue,
        k2: Seq<char>,
        v2: JsonValue,
    ) -> JsonValue {
        JsonValue::Object(seq![(k0, v0), (k1, v1), (k2, v2)])
    }

    /// The number `n`.
    pub open spec fn integer(n: int) -> JsonValue {
        JsonValue::Number(JsonNumber::Int(n))
    }
}

/// The mathematical value of an optional JSON value.
pub open spec fn option_view(value: Option<JSObject>) -> Option<JsonValue> {
    match value {
        Some(v) => Some(v@),
        None => None,
    }
}

/// What `serde_json` reads out of `text`: the document, or `None` where the
/// text is no single JSON document.
pub uninterp spec fn json_parse(text: Seq<char>) -> Option<JsonValue>;

/// The compact text that `serde_json` writes for `value`.
pub uninterp spec fn json_text(value: JsonValue) -> Seq<char>;

/// `serde_json::Value`. Nothing inside a value of it is read here: it is
/// rebuilt as a `JSObject`, or built from one.
#[verifier::external_type_specification]
#[verifier::external_body]
pub struct ExValue(Value);

/// Rebuilds the number that a `serde_json::Value` holds as a number of this
/// library, by what `as_u64` and `as_i64` give for it. Nothing is claimed of
/// it.
#[verifier::external_body]
fn from_number(v: &Value) -> JSNumber {
    v.as_u64().map(JSNumber::PosInt).or(v.as_i64().map(JSNumber::NegInt)).unwrap_or(
        JSNumber::Float(v.to_string()),
    )
}

/// Rebuilds a `serde_json::Value` as a value of this library, variant by
/// variant. Nothing is claimed of it.
#[verifier::external_body]
fn from_value(v: &Value) -> JSObject {
    match v {
        Value::Null => JSObject::Null,
        Value::Bool(b) => JSObject::Bool(*b),
        Value::Number(_) => JSObject::Number(from_number(v)),
        Value::String(s) => JSObject::String(s.clone()),
        Value::Array(a) => JSObject::Array(a.iter().map(from_value).collect()),
        Value::Object(o) => JSObject::Object(
            o.iter().map(|(k, v)| Member { key: k.clone(), value: from_value(v) }).collect(),
        ),
    }
}

/// Rebuilds a number of this library as a `serde_json::Value`, variant by
/// variant; a text that is no number becomes `Null`. Nothing is claimed of
/// it.
#[verifier::external_body]
fn to_number(n: &JSNumber) -> Value {
    match n {
        JSNumber::PosInt(n) => Value::from(*n),
        JSNumber::NegInt(n) => Value::from(*n),
        JSNumber::Float(t) => serde_json::from_str::<serde_json::Number>(t).map_or(
            Value::Null,
            Value::Number,
        ),
    }
}

/// Rebuilds a value of this library as a `serde_json::Value`, variant by
/// variant. Nothing is claimed of it.
#[verifier::external_body]
fn to_value(v: &JSObject) -> Value {
    match v {
        JSObject::Null => Value::Null,
        JSObject::Bool(b) => Value::Bool(*b),
        JSObject::Number(n) => to_number(n),
        JSObject::String(s) => Value::String(s.clone()),
        JSObject::Array(a) => Value::Array(a.iter().map(to_value).collect()),
        JSObject::Object(o) => Value::Object(
            o.iter().map(|m| (m.key.clone(), to_value(&m.value))).collect(),
        ),
    }
}

/// `serde_json::from_str`, reading a `serde_json::Value`: the result is the
/// document that the text holds, and `None` where `serde_json` reports an
/// error.
#[verifier::external_body]
fn parse_text(text: &str) -> (r: Option<JSObject>)
    ensures
        option_view(r) == json_parse(text@),
{
    serde_json::from_str::<Value>(text).ok().map(|v| from_value(&v))
}

/// `serde_json::Value`'s `to_string`: the compact text of the value.
#[verifier::external_body]
fn render_text(value: &JSObject) -> (text: String)
    ensures
        text@ == json_text(value@),
{
    to_value(value).to_string()
}

/// `str`'s `==`: whether the two hold the same characters.
#[verifier::external_body]
pub(crate) fn str_eq(a: &str, b: &str) -> (same: bool)
    ensures
        same == (a@ == b@),
{
    a == b
}

impl Member {
    /// The member `key` with the value `value`.
    pub fn new(key: &str, value: JSObject) -> (m: Member)
        ensures
            m.key@ == key@,
            m.value == value,
    {
        Member { key: String::from_str(key), value }
    }
}

/// The mathematical members of an object, one for one.
pub open spec fn members_view(members: Seq<Member>) -> Seq<(Seq<char>, JsonValue)> {
    Seq::new(members.len(), |i: int| (members[i].key@, members[i].value@))
}

/// The mathematical items of an array, one for one.
pub open spec fn items_view(items: Seq<JSObject>) -> Seq<JsonValue> {
    Seq::new(items.len(), |i: int| items[i]@)
}

/// The view of an object is that of its members; the view of an array that
/// of its items.
pub proof fn lemma_view_unfold(value: JSObject)
    ensures
        value matches JSObject::Object(members) ==> value@ == JsonValue::Object(members_view(members@)),
        value matches JSObject::Array(items) ==> value@ == JsonValue::Array(items_view(items@)),
{
    match value {
        JSObject::Object(members) => {
            assert(value@->Object_0 =~= members_view(members@));
        },
        JSObject::Array(items) => {
            assert(value@->Array_0 =~= items_view(items@));
        },
        _ => {},
    }
}

impl JSObject {
    /// Reads one JSON document. `None` where the text is not one.
    pub fn parse(text: &str) -> (r: Option<JSObject>)
        ensures
            option_view(r) == json_parse(text@),
    {
        parse_text(text)
    }

    /// The compact JSON text of the value.
    pub fn render(&self) -> (text: String)
        ensures
            text@ == json_text(self@),
    {
        render_text(self)
    }

    /// A JSON string with the characters of `s`.
    pub fn string(s: &str) -> (r: JSObject)
        ensures
            r@ == JsonValue::String(s@),
    {
        JSObject::String(String::from_str(s))
    }

    /// A JSON number with the value `n`.
    pub fn integer(n: i64) -> (r: JSObject)
        ensures
            r@ == JsonValue::integer(n as int),
    {
        if n < 0 {
            JSObject::Number(JSNumber::NegInt(n))
        } else {
            JSObject::Number(JSNumber::PosInt(n as u64))
        }
    }

    /// An object with the given members, in their order.
    pub fn object(members: Vec<Member>) -> (r: JSObject)
        ensures
            r@ == JsonValue::Object(members_view(members@)),
    {
        let r = JSObject::Object(members);
        proof {
            lemma_view_unfold(r);
        }
        r
    }

    /// An object with one member.
    pub fn object1(k0: &str, v0: JSObject) -> (r: JSObject)
        ensures
            r@ == JsonValue::object1(k0@, v0@),
    {
        let mut members: Vec<Member> = Vec::new();
        members.push(Member::new(k0, v0));
        let r = JSObject::object(members);
        assert(r@->Object_0 =~= seq![(k0@, v0@)]);
        r
    }

    /// An object with two members, in this order.
    pub fn object2(k0: &str, v0: JSObject, k1: &str, v1: JSObject) -> (r: JSObject)
        ensures
            r@ == JsonValue::object2(k0@, v0@, k1@, v1@),
    {
        let mut members: Vec<Member> = Vec::new();
        members.push(Member::new(k0, v0));
        members.push(Member::new(k1, v1));
        let r = JSObject::object(members);
        assert(r@->Object_0 =~= seq![(k0@, v0@), (k1@, v1@)]);
        r
    }

    /// An object with three members, in this order.
    pub fn object3(k0: &str, v0: JSObject, k1: &str, v1: JSObject, k2: &str, v2: JSObject) -> (r:
        JSObject)
        ensures
            r@ == JsonValue::object3(k0@, v0@, k1@, v1@, k2@, v2@),
    {
        let mut members: Vec<Member> = Vec::new();
        members.push(Member::new(k0, v0));
        members.push(Member::new(k1, v1));
        members.push(Member::new(k2, v2));
        let r = JSObject::object(members);
        assert(r@->Object_0 =~= seq![(k0@, v0@), (k1@, v1@), (k2@, v2@)]);
        r
    }

    /// Indexing by a key, as `value[key]` reads a JSON value: the member of
    /// an object, and `Null` wherever there is no such member.
    pub fn get<'a>(&'a self, key: &str) -> (r: &'a JSObject)
        ensures
            r@ == self@.get(key@),
    {
        match self {
            JSObject::Object(members) => {
                proof {
                    lemma_view_unfold(*self);
                }
                let ghost all = members_view(members@);
                let mut n: usize = members.len();
                proof {
                    assert(all.take(n as int) =~= all);
                }
                while n > 0
                    invariant
                        n <= members.len(),
                        all == members_view(members@),
                        self@ == JsonValue::Object(all),
                        lookup(all, key@) == lookup(all.take(n as int), key@),
                    decreases n,
                {
                    proof {
                        assert(all.take(n as int).drop_last() =~= all.take(n as int - 1));
                    }
                    n -= 1;
                    if str_eq(members[n].key.as_str(), key) {
                        return &members[n].value;
                    }
                }
                &JSObject::Null
            },
            _ => &JSObject::Null,
        }
    }

    /// The characters of a string; `None` for any other value.
    pub fn as_str<'a>(&'a self) -> (r: Option<&'a str>)
        ensures
            match r {
                Some(s) => self@.as_str() == Some(s@),
                None => self@.as_str() is None,
            },
    {
        match self {
            JSObject::String(s) => Some(s.as_str()),
            _ => None,
        }
    }

    /// The items of an array; `None` for any other value.
    pub fn as_array<'a>(&'a self) -> (r: Option<&'a Vec<JSObject>>)
        ensures
            match r {
                Some(items) => self@.as_array() == Some(items_view(items@)),
                None => self@.as_array() is None,
            },
    {
        proof {
            lemma_view_unfold(*self);
        }
        match self {
            JSObject::Array(items) => Some(items),
            _ => None,
        }
    }

    /// The integer that a number is, if it fits in an `i64`; `None` for any
    /// other value.
    pub fn as_i64(&self) -> (r: Option<i64>)
        ensures
            r == self@.as_i64(),
    {
        match self {
            JSObject::Number(JSNumber::PosInt(n)) => if *n <= 0x7fff_ffff_ffff_ffffu64 {
                Some(*n as i64)
            } else {
                None
            },
            JSObject::Number(JSNumber::NegInt(n)) => Some(*n),
            _ => None,
        }
    }

    /// Whether the value is an integer that fits in an `i64`.
    pub fn is_i64(&self) -> (r: bool)
        ensures
            r == self@.as_i64().is_some(),
    {
        self.as_i64().is_some()
    }

    /// Whether the value is `Null`.
    pub fn is_null(&self) -> (r: bool)
        ensures
            r == self@.is_null(),
    {
        match self {
            JSObject::Null => true,
            _ => false,
        }
    }

    /// Whether the value is the string `s`.
    pub fn eq_str(&self, s: &str) -> (r: bool)
        ensures
            r == (self@ == JsonValue::String(s@)),
    {
        match self {
            JSObject::String(own) => str_eq(own.as_str(), s),
            _ => false,
        }
    }

    /// Whether the value is the integer `n`.
    pub fn eq_i64(&self, n: i64) -> (r: bool)
        ensures
            r == (self@.as_i64() == Some(n)),
    {
        match self.as_i64() {
            Some(own) => own == n,
            None => false,
        }
    }
}

impl Clone for JSNumber {
    fn clone(&self) -> (r: Self)
        ensures
            r@ == self@,
    {
        match self {
            JSNumber::PosInt(n) => JSNumber::PosInt(*n),
            JSNumber::NegInt(n) => JSNumber::NegInt(*n),
            JSNumber::Float(t) => JSNumber::Float(t.clone()),
        }
    }
}

impl Clone for JSObject {
    fn clone(&self) -> (r: Self)
        ensures
            r@ == self@,
        decreases self,
    {
        match self {
            JSObject::Null => JSObject::Null,
            JSObject::Bool(b) => JSObject::Bool(*b),
            JSObject::Number(n) => JSObject::Number(n.clone()),
            JSObject::String(s) => JSObject::String(s.clone()),
            JSObject::Array(items) => {
                let mut copy: Vec<JSObject> = Vec::new();
                let mut i: usize = 0;
                while i < items.len()
                    invariant
                        *self == JSObject::Array(*items),
                        i <= items.len(),
                        copy.len() == i,
                        forall|j: int| 0 <= j < i ==> copy@[j]@ == items@[j]@,
                    decreases items.len() - i,
                {
                    assert(decreases_to!(*self => self->Array_0));
                    copy.push(items[i].clone());
                    i += 1;
                }
                let r = JSObject::Array(copy);
                assert(r@->Array_0 =~= self@->Array_0);
                r
            },
            JSObject::Object(members) => {
                let mut copy: Vec<Member> = Vec::new();
                let mut i: usize = 0;
                while i < members.len()
                    invariant
                        *self == JSObject::Object(*members),
                        i <= members.len(),
                        copy.len() == i,
                        forall|j: int|
                            0 <= j < i ==> copy@[j].key@ == members@[j].key@ && copy@[j].value@
                                == members@[j].value@,
                    decreases members.len() - i,
                {
                    assert(decreases_to!(*self => self->Object_0));
                    copy.push(Member { key: members[i].key.clone(), value: members[i].value.clone() });
                    i += 1;
                }
                let r = JSObject::Object(copy);
                assert(r@->Object_0 =~= self@->Object_0);
                r
            },
        }
    }
}

} // verus!
