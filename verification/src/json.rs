//! JSON values as this crate reads and writes them.

use vstd::prelude::*;
use vstd::std_specs::cmp::PartialEqSpecImpl;

verus! {

/// `serde_json::Number`, a JSON number. Nothing is known of what is inside.
#[verifier::external_type_specification]
#[verifier::external_body]
pub struct ExJsonNumber(serde_json::Number);

/// `serde_json::Value`, a JSON value as the parser builds it. Nothing is
/// known of what is inside: a value is turned into a [`Json`] before it is
/// looked at.
#[verifier::external_type_specification]
#[verifier::external_body]
pub struct ExJsonValue(serde_json::Value);

/// `Clone::clone` of `serde_json::Number`: the copy is the same number.
pub assume_specification[ <serde_json::Number as Clone>::clone ](n: &serde_json::Number) -> (r:
    serde_json::Number)
    ensures
        r == *n,
;

/// A JSON value. `Int` holds an integer that fits `i64`, and it is what
/// reading a document yields for such an integer. `Number` carries a number
/// as `serde_json` holds it. A value that is built by hand may hold an
/// integer in `Number` or a name twice in an object; writing and reading
/// such a value yields the integer in `Int` and the last member of the name.
#[derive(Debug)]
pub enum Json {
    Null,
    Bool(bool),
    Int(i64),
    Number(serde_json::Number),
    Str(String),
    Array(Vec<Json>),
    Object(Vec<Member>),
}

/// One named member of a JSON object.
#[derive(Debug)]
pub struct Member {
    pub name: String,
    pub value: Json,
}

/// The mathematical value of a [`Json`].
pub enum JsonV {
    Null,
    Bool(bool),
    Int(i64),
    Number(serde_json::Number),
    Str(Seq<char>),
    Array(Seq<JsonV>),
    Object(Seq<MemberV>),
}

/// The mathematical value of a [`Member`].
pub struct MemberV {
    pub name: Seq<char>,
    pub value: JsonV,
}

impl Json {
    /// The mathematical value of this JSON value.
    pub open spec fn value(self) -> JsonV
        decreases self,
    {
        match self {
            Json::Null => JsonV::Null,
            Json::Bool(b) => JsonV::Bool(b),
            Json::Int(i) => JsonV::Int(i),
            Json::Number(n) => JsonV::Number(n),
            Json::Str(s) => JsonV::Str(s@),
            Json::Array(items) => JsonV::Array(
                Seq::new(
                    items@.len(),
                    |i: int|
                        if 0 <= i < items@.len() {
                            items@[i].value()
                        } else {
                            JsonV::Null
                        },
                ),
            ),
            Json::Object(members) => JsonV::Object(
                Seq::new(
                    members@.len(),
                    |i: int|
                        if 0 <= i < members@.len() {
                            MemberV { name: members@[i].name@, value: members@[i].value.value() }
                        } else {
                            MemberV { name: Seq::empty(), value: JsonV::Null }
                        },
                ),
            ),
        }
    }
}

impl View for Json {
    type V = JsonV;

    open spec fn view(&self) -> JsonV {
        self.value()
    }
}

impl DeepView for Json {
    type V = JsonV;

    open spec fn deep_view(&self) -> JsonV {
        self.value()
    }
}

/// Two values are equal where they have the same shape and the same
/// contents, the members of an object taken in their order.
impl PartialEq for Json {
    fn eq(&self, other: &Json) -> (r: bool) {
        self.same(other)
    }
}

/// In specifications `==` on JSON values means that the two are alike.
impl PartialEqSpecImpl for Json {
    open spec fn obeys_eq_spec() -> bool {
        true
    }

    open spec fn eq_spec(&self, other: &Json) -> bool {
        alike(self@, other@)
    }
}

impl Clone for Json {
    fn clone(&self) -> (r: Json)
        ensures
            r@ == self@,
    {
        self.duplicate()
    }
}

/// The values of a run of JSON values, one by one.
pub open spec fn items_value(items: Seq<Json>) -> Seq<JsonV> {
    Seq::new(items.len(), |i: int| items[i]@)
}

/// The values of a run of members, one by one.
pub open spec fn members_value(members: Seq<Member>) -> Seq<MemberV> {
    Seq::new(members.len(), |i: int| MemberV { name: members[i].name@, value: members[i].value@ })
}

/// An array's value is made of its items' values.
pub proof fn lemma_array_value(items: Vec<Json>)
    ensures
        Json::Array(items)@ == JsonV::Array(items_value(items@)),
{
    assert(Json::Array(items)@->Array_0 =~= items_value(items@));
}

/// An object's value is made of its members' values.
pub proof fn lemma_object_value(members: Vec<Member>)
    ensures
        Json::Object(members)@ == JsonV::Object(members_value(members@)),
{
    assert(Json::Object(members)@->Object_0 =~= members_value(members@));
}

/// The member of an object that is called `key`. Where several members share
/// a name, the last of them counts.
#[verifier::opaque]
pub open spec fn lookup(members: Seq<MemberV>, key: Seq<char>) -> Option<JsonV>
    decreases members.len(),
{
    if members.len() == 0 {
        None
    } else if members.last().name == key {
        Some(members.last().value)
    } else {
        lookup(members.drop_last(), key)
    }
}

impl JsonV {
    /// The member called `key`, if this is an object that has one.
    pub open spec fn member(self, key: Seq<char>) -> Option<JsonV> {
        match self {
            JsonV::Object(members) => lookup(members, key),
            _ => None,
        }
    }
}

/// Equality of two string slices, as `==` on `str` computes it.
#[verifier::external_body]
pub(crate) fn str_eq(a: &str, b: &str) -> (r: bool)
    ensures
        r == (a@ == b@),
{
    a == b
}

impl Json {
    /// Looks a member up by name. Of several members with one name the last
    /// is returned.
    pub fn get(&self, key: &str) -> (r: Option<&Json>)
        ensures
            match r {
                Some(j) => self@.member(key@) == Some(j@),
                None => self@.member(key@) is None,
            },
    {
        match self {
            Json::Object(members) => {
                let mut i: usize = members.len();
                proof {
                    reveal(lookup);
                    assert(*self == Json::Object(*members));
                    assert(self@->Object_0.take(i as int) =~= self@->Object_0);
                }
                while i > 0
                    invariant
                        i <= members.len(),
                        self@ is Object,
                        self@->Object_0.len() == members@.len(),
                        forall|k: int|
                            0 <= k < members@.len() ==> #[trigger] self@->Object_0[k] == (MemberV {
                                name: members@[k].name@,
                                value: members@[k].value@,
                            }),
                        lookup(self@->Object_0, key@) == lookup(
                            self@->Object_0.take(i as int),
                            key@,
                        ),
                    decreases i,
                {
                    i -= 1;
                    proof {
                        reveal(lookup);
                        let seen = self@->Object_0.take(i + 1);
                        assert(seen.last() == self@->Object_0[i as int]);
                        assert(seen.drop_last() =~= self@->Object_0.take(i as int));
                    }
                    if str_eq(members[i].name.as_str(), key) {
                        return Some(&members[i].value);
                    }
                }
                proof {
                    reveal(lookup);
                }
                None
            },
            _ => None,
        }
    }
}

/// What reading a byte string as one JSON document gives: the value that it
/// denotes, or where it is no such document the message that says why.
pub uninterp spec fn json_parse(bytes: Seq<u8>) -> Result<JsonV, Seq<char>>;

/// The mathematical value of what reading gives: the value of the JSON value
/// that was read, or the message as text.
pub open spec fn outcome_value(r: Result<Json, String>) -> Result<JsonV, Seq<char>> {
    match r {
        Ok(j) => Ok(j@),
        Err(message) => Err(message@),
    }
}

/// The compact JSON text of a value.
pub uninterp spec fn json_text(value: JsonV) -> Seq<char>;

/// Moves a `serde_json::Value` into a [`Json`], variant by variant. A number
/// becomes `Int` where `serde_json::Number::as_i64` yields it.
#[verifier::external_body]
fn from_value(value: serde_json::Value) -> Json {
    match value {
        serde_json::Value::Null => Json::Null,
        serde_json::Value::Bool(b) => Json::Bool(b),
        serde_json::Value::Number(n) => n.as_i64().map_or(Json::Number(n), Json::Int),
        serde_json::Value::String(s) => Json::Str(s),
        serde_json::Value::Array(items) => Json::Array(items.into_iter().map(from_value).collect()),
        serde_json::Value::Object(members) => Json::Object(
            members.into_iter().map(|(name, v)| Member { name, value: from_value(v) }).collect(),
        ),
    }
}

/// Copies a [`Json`] into a `serde_json::Value`, variant by variant.
#[verifier::external_body]
fn to_value(json: &Json) -> serde_json::Value {
    match json {
        Json::Null => serde_json::Value::Null,
        Json::Bool(b) => serde_json::Value::Bool(*b),
        Json::Int(i) => serde_json::Value::Number(serde_json::Number::from(*i)),
        Json::Number(n) => serde_json::Value::Number(n.clone()),
        Json::Str(s) => serde_json::Value::String(s.clone()),
        Json::Array(items) => serde_json::Value::Array(items.iter().map(to_value).collect()),
        Json::Object(members) => serde_json::Value::Object(
            members.iter().map(|m| (m.name.clone(), to_value(&m.value))).collect(),
        ),
    }
}

/// `serde_json::from_slice` at type `serde_json::Value`: the bytes are read
/// as one JSON document. Where they are such a document the result is the
/// value that they denote; where they are not, it is the message of the
/// error that `serde_json` reports for them.
#[verifier::external_body]
fn parse_bytes(bytes: &[u8]) -> (r: Result<Json, String>)
    ensures
        outcome_value(r) == json_parse(bytes@),
{
    serde_json::from_slice::<serde_json::Value>(bytes).map(from_value).map_err(|e| e.to_string())
}

/// `serde_json::to_string` on the value: the result is the value's compact
/// text. The call succeeds on every value: a `serde_json::Value` is written
/// into a buffer in memory, its names are strings and its numbers are
/// finite, so that none of the printer's reasons to fail can arise. The
/// result keeps the type of the outside function, whose error would be
/// handed on as its message.
#[verifier::external_body]
fn print_text(json: &Json) -> (r: Result<String, String>)
    ensures
        r is Ok,
        r matches Ok(text) ==> text@ == json_text(json@),
{
    serde_json::to_string(&to_value(json)).map_err(|e| e.to_string())
}

/// Whether two numbers are equal as `serde_json` compares them.
pub uninterp spec fn numbers_equal(a: serde_json::Number, b: serde_json::Number) -> bool;

/// `PartialEq::eq` of `serde_json::Number`: whether the two numbers are
/// equal. A number equals itself.
#[verifier::external_body]
fn number_eq(a: &serde_json::Number, b: &serde_json::Number) -> (r: bool)
    ensures
        r == numbers_equal(*a, *b),
        *a == *b ==> r,
{
    a == b
}

/// Whether two values have the same shape and the same contents: the same
/// kind of value, equal truth values, integers and strings, numbers that
/// `serde_json` finds equal, arrays of the same length whose items are alike
/// one by one, and objects of the same length whose members have the same
/// names and alike values one by one, in their order.
pub open spec fn alike(a: JsonV, b: JsonV) -> bool
    decreases a,
{
    match a {
        JsonV::Null => b is Null,
        JsonV::Bool(x) => b == JsonV::Bool(x),
        JsonV::Int(x) => b == JsonV::Int(x),
        JsonV::Number(x) => b is Number && numbers_equal(x, b->Number_0),
        JsonV::Str(x) => b == JsonV::Str(x),
        JsonV::Array(x) => b is Array && x.len() == b->Array_0.len() && forall|i: int|
            0 <= i < x.len() ==> alike(x[i], #[trigger] b->Array_0[i]),
        JsonV::Object(x) => b is Object && x.len() == b->Object_0.len() && forall|i: int|
            0 <= i < x.len() ==> x[i].name == (#[trigger] b->Object_0[i]).name && alike(
                x[i].value,
                b->Object_0[i].value,
            ),
    }
}

impl Json {
    /// Whether two values have the same shape and the same contents, the
    /// members of an object taken in their order. Values that stand for the
    /// same mathematical value are the same.
    pub fn same(&self, other: &Json) -> (r: bool)
        ensures
            r == alike(self@, other@),
            self@ == other@ ==> r,
        decreases self,
    {
        match (self, other) {
            (Json::Null, Json::Null) => true,
            (Json::Bool(a), Json::Bool(b)) => *a == *b,
            (Json::Int(a), Json::Int(b)) => *a == *b,
            (Json::Number(a), Json::Number(b)) => number_eq(a, b),
            (Json::Str(a), Json::Str(b)) => {
                let r = str_eq(a.as_str(), b.as_str());
                proof {
                    assert(self@ == JsonV::Str(a@) && other@ == JsonV::Str(b@));
                }
                r
            },
            (Json::Array(a), Json::Array(b)) => {
                proof {
                    lemma_array_value(*a);
                    lemma_array_value(*b);
                    assert(*self == Json::Array(*a) && *other == Json::Array(*b));
                    assert(items_value(a@).len() == a@.len());
                    assert(items_value(b@).len() == b@.len());
                }
                if a.len() != b.len() {
                    return false;
                }
                let mut i: usize = 0;
                while i < a.len()
                    invariant
                        i <= a.len(),
                        a.len() == b.len(),
                        *self == Json::Array(*a),
                        self@ == JsonV::Array(items_value(a@)),
                        other@ == JsonV::Array(items_value(b@)),
                        forall|k: int|
                            0 <= k < i ==> alike(
                                items_value(a@)[k],
                                #[trigger] items_value(b@)[k],
                            ),
                    decreases a.len() - i,
                {
                    proof {
                        assert(self->Array_0 == *a);
                        assert(decreases_to!(*self => self->Array_0));
                        assert(decreases_to!(*a => a[i as int]));
                        assert(items_value(a@)[i as int] == a@[i as int]@);
                        assert(items_value(b@)[i as int] == b@[i as int]@);
                    }
                    if !a[i].same(&b[i]) {
                        return false;
                    }
                    i += 1;
                }
                true
            },
            (Json::Object(a), Json::Object(b)) => {
                proof {
                    lemma_object_value(*a);
                    lemma_object_value(*b);
                    assert(*self == Json::Object(*a) && *other == Json::Object(*b));
                    assert(members_value(a@).len() == a@.len());
                    assert(members_value(b@).len() == b@.len());
                }
                if a.len() != b.len() {
                    return false;
                }
                let mut i: usize = 0;
                while i < a.len()
                    invariant
                        i <= a.len(),
                        a.len() == b.len(),
                        *self == Json::Object(*a),
                        self@ == JsonV::Object(members_value(a@)),
                        other@ == JsonV::Object(members_value(b@)),
                        forall|k: int|
                            0 <= k < i ==> members_value(a@)[k].name == (
                            #[trigger] members_value(b@)[k]).name && alike(
                                members_value(a@)[k].value,
                                members_value(b@)[k].value,
                            ),
                    decreases a.len() - i,
                {
                    proof {
                        assert(self->Object_0 == *a);
                        assert(decreases_to!(*self => self->Object_0));
                        assert(decreases_to!(*a => a[i as int]));
                        assert(decreases_to!(a[i as int] => a[i as int].value));
                        assert(members_value(a@)[i as int].name == a@[i as int].name@);
                        assert(members_value(b@)[i as int].name == b@[i as int].name@);
                        assert(members_value(a@)[i as int].value == a@[i as int].value@);
                        assert(members_value(b@)[i as int].value == b@[i as int].value@);
                    }
                    if !str_eq(a[i].name.as_str(), b[i].name.as_str()) {
                        return false;
                    }
                    if !a[i].value.same(&b[i].value) {
                        return false;
                    }
                    i += 1;
                }
                true
            },
            _ => false,
        }
    }

    /// A copy of the value.
    pub fn duplicate(&self) -> (r: Json)
        ensures
            r@ == self@,
        decreases self,
    {
        match self {
            Json::Null => Json::Null,
            Json::Bool(b) => Json::Bool(*b),
            Json::Int(i) => Json::Int(*i),
            Json::Number(n) => Json::Number(n.clone()),
            Json::Str(s) => Json::Str(s.clone()),
            Json::Array(items) => {
                let mut copy: Vec<Json> = Vec::new();
                let mut i: usize = 0;
                while i < items.len()
                    invariant
                        i <= items.len(),
                        *self == Json::Array(*items),
                        copy@.len() == i,
                        forall|k: int| 0 <= k < i ==> (#[trigger] copy@[k])@ == items@[k]@,
                    decreases items.len() - i,
                {
                    proof {
                        assert(self->Array_0 == *items);
                        assert(decreases_to!(*self => self->Array_0));
                        assert(decreases_to!(*items => items[i as int]));
                    }
                    copy.push(items[i].duplicate());
                    i += 1;
                }
                proof {
                    lemma_array_value(*items);
                    lemma_array_value(copy);
                    assert(items_value(copy@) =~= items_value(items@));
                }
                Json::Array(copy)
            },
            Json::Object(members) => {
                let mut copy: Vec<Member> = Vec::new();
                let mut i: usize = 0;
                while i < members.len()
                    invariant
                        i <= members.len(),
                        *self == Json::Object(*members),
                        copy@.len() == i,
                        forall|k: int|
                            0 <= k < i ==> (#[trigger] copy@[k]).name@ == members@[k].name@
                                && copy@[k].value@ == members@[k].value@,
                    decreases members.len() - i,
                {
                    proof {
                        assert(self->Object_0 == *members);
                        assert(decreases_to!(*self => self->Object_0));
                        assert(decreases_to!(*members => members[i as int]));
                        assert(decreases_to!(members[i as int] => members[i as int].value));
                    }
                    copy.push(
                        Member { name: members[i].name.clone(), value: members[i].value.duplicate() },
                    );
                    i += 1;
                }
                proof {
                    lemma_object_value(*members);
                    lemma_object_value(copy);
                    assert(members_value(copy@) =~= members_value(members@));
                }
                Json::Object(copy)
            },
        }
    }

    /// Reads one JSON document. An error carries the parser's message.
    pub fn parse(bytes: &[u8]) -> (r: Result<Json, String>)
        ensures
            outcome_value(r) == json_parse(bytes@),
    {
        parse_bytes(bytes)
    }

    /// Writes the value as compact JSON text, which succeeds on every value.
    pub fn to_text(&self) -> (r: Result<String, String>)
        ensures
            r matches Ok(text) && text@ == json_text(self@),
    {
        print_text(self)
    }
}

} // verus!
