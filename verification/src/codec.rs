//! How resource models are written to and read from JSON values.

use crate::json::{
    items_value, lemma_array_value, lemma_object_value, lookup, members_value, Json, JsonV, Member,
    MemberV,
};
use vstd::prelude::*;

verus! {

/// A type with a JSON form.
///
/// `encoded` is the JSON value that stands for a model and `decoded` reads
/// one back; `round_trip` obliges every implementation to show that reading
/// what was written gives the same model again.
pub trait Model: Sized + DeepView {
    /// The JSON value that stands for a model.
    spec fn encoded(v: Self::V) -> JsonV;

    /// The model that a JSON value stands for, if it stands for one.
    spec fn decoded(j: JsonV) -> Option<Self::V>;

    /// The models that come back unchanged after being written and read.
    spec fn faithful(v: Self::V) -> bool;

    fn to_json(&self) -> (j: Json)
        ensures
            j@ == Self::encoded(self.deep_view()),
    ;

    fn from_json(j: &Json) -> (r: Option<Self>)
        ensures
            r is Some <==> Self::decoded(j@) is Some,
            r matches Some(m) ==> Self::decoded(j@) == Some(m.deep_view()),
    ;

    /// Reading back what was written yields the model that was written.
    proof fn round_trip(v: Self::V)
        requires
            Self::faithful(v),
        ensures
            Self::decoded(Self::encoded(v)) == Some(v),
    ;
}

/// The members of an object after one more was appended.
#[verifier::opaque]
pub open spec fn put(members: Seq<MemberV>, key: Seq<char>, value: JsonV) -> Seq<MemberV> {
    members.push(MemberV { name: key, value })
}

/// A member that must be there, read as a `T`.
#[verifier::opaque]
pub open spec fn field<T: Model>(j: JsonV, key: Seq<char>) -> Option<T::V> {
    match j.member(key) {
        Some(v) => T::decoded(v),
        None => None,
    }
}

/// A member that may be missing or `null`, which both read as `Some(None)`.
/// `None` means that the member is there and cannot be read as a `T`.
#[verifier::opaque]
pub open spec fn opt_field<T: Model>(j: JsonV, key: Seq<char>) -> Option<Option<T::V>> {
    match j.member(key) {
        None => Some(None),
        Some(JsonV::Null) => Some(None),
        Some(v) => match T::decoded(v) {
            Some(t) => Some(Some(t)),
            None => None,
        },
    }
}

/// The members of an object after the JSON form of `v` was appended.
#[verifier::opaque]
pub open spec fn with<T: Model>(members: Seq<MemberV>, key: Seq<char>, v: T::V) -> Seq<MemberV> {
    put(members, key, T::encoded(v))
}

/// The members of an object after the JSON form of an optional `v` was
/// appended: an absent value leaves no trace.
#[verifier::opaque]
pub open spec fn with_opt<T: Model>(members: Seq<MemberV>, key: Seq<char>, v: Option<T::V>) -> Seq<
    MemberV,
> {
    match v {
        Some(x) => put(members, key, T::encoded(x)),
        None => members,
    }
}

/// What a member that is there reads as where it may be `null`.
pub open spec fn read_opt<T: Model>(j: JsonV) -> Option<Option<T::V>> {
    if j is Null {
        Some(None)
    } else {
        match T::decoded(j) {
            Some(t) => Some(Some(t)),
            None => None,
        }
    }
}

/// An optional value comes back unchanged if it is absent, or if it is
/// faithful and is not written as `null`.
pub open spec fn opt_faithful<T: Model>(v: Option<T::V>) -> bool {
    match v {
        Some(x) => T::faithful(x) && !(T::encoded(x) is Null),
        None => true,
    }
}

/// Starts an object that has no members yet.
pub fn begin() -> (members: Vec<Member>)
    ensures
        members_value(members@) == Seq::<MemberV>::empty(),
{
    let members: Vec<Member> = Vec::new();
    proof {
        assert(members_value(members@) =~= Seq::<MemberV>::empty());
    }
    members
}

/// Appends a member to an object under construction.
pub fn append(members: &mut Vec<Member>, key: &str, value: Json)
    ensures
        members_value(final(members)@) == put(members_value(old(members)@), key@, value@),
{
    members.push(Member { name: key.to_owned(), value });
    proof {
        reveal(put);
        assert(members_value(members@) =~= put(members_value(old(members)@), key@, value@));
    }
}

/// Closes an object under construction.
pub fn object(members: Vec<Member>) -> (j: Json)
    ensures
        j@ == JsonV::Object(members_value(members@)),
{
    proof {
        lemma_object_value(members);
    }
    Json::Object(members)
}

/// Whether the value is an object.
pub fn is_object(j: &Json) -> (r: bool)
    ensures
        r == (j@ is Object),
{
    match j {
        Json::Object(_) => true,
        _ => false,
    }
}

/// A member that is there and is not `null`.
pub fn present<'a>(j: &'a Json, key: &str) -> (r: Option<&'a Json>)
    ensures
        match r {
            Some(v) => j@.member(key@) == Some(v@) && !(v@ is Null),
            None => j@.member(key@) is None || j@.member(key@) == Some(JsonV::Null),
        },
{
    match j.get(key) {
        Some(Json::Null) => None,
        other => other,
    }
}

/// Reads the member `key` as a `T`.
pub fn read_field<T: Model>(j: &Json, key: &str) -> (r: Option<T>)
    ensures
        r is Some <==> field::<T>(j@, key@) is Some,
        r matches Some(x) ==> field::<T>(j@, key@) == Some(x.deep_view()),
{
    reveal(field);
    match j.get(key) {
        Some(v) => T::from_json(v),
        None => None,
    }
}

/// Reads the member `key` as a `T` if it is there and is not `null`.
pub fn read_opt_field<T: Model>(j: &Json, key: &str) -> (r: Option<Option<T>>)
    ensures
        r is Some <==> opt_field::<T>(j@, key@) is Some,
        r matches Some(x) ==> opt_field::<T>(j@, key@) == Some(x.deep_view()),
{
    reveal(opt_field);
    match present(j, key) {
        Some(v) => match T::from_json(v) {
            Some(t) => Some(Some(t)),
            None => None,
        },
        None => Some(None),
    }
}

/// Appends the JSON form of `value` as the member `key`.
pub fn write_field<T: Model>(members: &mut Vec<Member>, key: &str, value: &T)
    ensures
        members_value(final(members)@) == with::<T>(
            members_value(old(members)@),
            key@,
            value.deep_view(),
        ),
{
    reveal(with);
    append(members, key, value.to_json());
}

/// Appends the JSON form of `value` as the member `key` if there is a value.
pub fn write_opt_field<T: Model>(members: &mut Vec<Member>, key: &str, value: &Option<T>)
    ensures
        members_value(final(members)@) == with_opt::<T>(
            members_value(old(members)@),
            key@,
            value.deep_view(),
        ),
{
    reveal(with_opt);
    match value {
        Some(v) => append(members, key, v.to_json()),
        None => {},
    }
}

/// A 32-bit integer is written as a JSON integer, and read from one that is
/// within its range.
impl Model for i32 {
    open spec fn encoded(v: i32) -> JsonV {
        JsonV::Int(v as i64)
    }

    open spec fn decoded(j: JsonV) -> Option<i32> {
        match j {
            JsonV::Int(i) => if i32::MIN <= i <= i32::MAX {
                Some(i as i32)
            } else {
                None
            },
            _ => None,
        }
    }

    open spec fn faithful(v: i32) -> bool {
        true
    }

    fn to_json(&self) -> (j: Json) {
        Json::Int(*self as i64)
    }

    fn from_json(j: &Json) -> (r: Option<i32>) {
        match j {
            Json::Int(i) => if -2147483648 <= *i && *i <= 2147483647 {
                Some(*i as i32)
            } else {
                None
            },
            _ => None,
        }
    }

    proof fn round_trip(v: i32) {
    }
}

/// A 64-bit integer is written as a JSON integer and read from one.
impl Model for i64 {
    open spec fn encoded(v: i64) -> JsonV {
        JsonV::Int(v)
    }

    open spec fn decoded(j: JsonV) -> Option<i64> {
        match j {
            JsonV::Int(i) => Some(i),
            _ => None,
        }
    }

    open spec fn faithful(v: i64) -> bool {
        true
    }

    fn to_json(&self) -> (j: Json) {
        Json::Int(*self)
    }

    fn from_json(j: &Json) -> (r: Option<i64>) {
        match j {
            Json::Int(i) => Some(*i),
            _ => None,
        }
    }

    proof fn round_trip(v: i64) {
    }
}

/// A truth value is written as `true` or `false`.
impl Model for bool {
    open spec fn encoded(v: bool) -> JsonV {
        JsonV::Bool(v)
    }

    open spec fn decoded(j: JsonV) -> Option<bool> {
        match j {
            JsonV::Bool(b) => Some(b),
            _ => None,
        }
    }

    open spec fn faithful(v: bool) -> bool {
        true
    }

    fn to_json(&self) -> (j: Json) {
        Json::Bool(*self)
    }

    fn from_json(j: &Json) -> (r: Option<bool>) {
        match j {
            Json::Bool(b) => Some(*b),
            _ => None,
        }
    }

    proof fn round_trip(v: bool) {
    }
}

/// A string is written as a JSON string.
impl Model for String {
    open spec fn encoded(v: Seq<char>) -> JsonV {
        JsonV::Str(v)
    }

    open spec fn decoded(j: JsonV) -> Option<Seq<char>> {
        match j {
            JsonV::Str(s) => Some(s),
            _ => None,
        }
    }

    open spec fn faithful(v: Seq<char>) -> bool {
        true
    }

    fn to_json(&self) -> (j: Json) {
        Json::Str(self.clone())
    }

    fn from_json(j: &Json) -> (r: Option<String>) {
        match j {
            Json::Str(s) => Some(s.clone()),
            _ => None,
        }
    }

    proof fn round_trip(v: Seq<char>) {
    }
}

/// The unit value is written as `null` and read from nothing else.
impl Model for () {
    open spec fn encoded(v: ()) -> JsonV {
        JsonV::Null
    }

    open spec fn decoded(j: JsonV) -> Option<()> {
        if j is Null {
            Some(())
        } else {
            None
        }
    }

    open spec fn faithful(v: ()) -> bool {
        true
    }

    fn to_json(&self) -> (j: Json) {
        Json::Null
    }

    fn from_json(j: &Json) -> (r: Option<()>) {
        match j {
            Json::Null => Some(()),
            _ => None,
        }
    }

    proof fn round_trip(v: ()) {
    }
}

/// A JSON value stands for itself.
impl Model for Json {
    open spec fn encoded(v: JsonV) -> JsonV {
        v
    }

    open spec fn decoded(j: JsonV) -> Option<JsonV> {
        Some(j)
    }

    open spec fn faithful(v: JsonV) -> bool {
        true
    }

    fn to_json(&self) -> (j: Json) {
        self.duplicate()
    }

    fn from_json(j: &Json) -> (r: Option<Json>) {
        Some(j.duplicate())
    }

    proof fn round_trip(v: JsonV) {
    }
}

/// A boxed model has the JSON form of what is in the box.
impl<T: Model> Model for Box<T> {
    open spec fn encoded(v: T::V) -> JsonV {
        T::encoded(v)
    }

    open spec fn decoded(j: JsonV) -> Option<T::V> {
        T::decoded(j)
    }

    open spec fn faithful(v: T::V) -> bool {
        T::faithful(v)
    }

    fn to_json(&self) -> (j: Json) {
        (**self).to_json()
    }

    fn from_json(j: &Json) -> (r: Option<Box<T>>) {
        match T::from_json(j) {
            Some(t) => Some(Box::new(t)),
            None => None,
        }
    }

    proof fn round_trip(v: T::V) {
        T::round_trip(v);
    }
}

/// An absent value is written as `null`, and `null` is read as an absent
/// value.
impl<T: Model> Model for Option<T> {
    open spec fn encoded(v: Option<T::V>) -> JsonV {
        match v {
            Some(x) => T::encoded(x),
            None => JsonV::Null,
        }
    }

    open spec fn decoded(j: JsonV) -> Option<Option<T::V>> {
        read_opt::<T>(j)
    }

    open spec fn faithful(v: Option<T::V>) -> bool {
        opt_faithful::<T>(v)
    }

    fn to_json(&self) -> (j: Json) {
        match self {
            Some(x) => x.to_json(),
            None => Json::Null,
        }
    }

    fn from_json(j: &Json) -> (r: Option<Option<T>>) {
        match j {
            Json::Null => Some(None),
            _ => match T::from_json(j) {
                Some(t) => Some(Some(t)),
                None => None,
            },
        }
    }

    proof fn round_trip(v: Option<T::V>) {
        if v is Some {
            T::round_trip(v.unwrap());
        }
    }
}

/// A list is written as an array of its items' JSON forms, and read from an
/// array whose every item can be read.
impl<T: Model> Model for Vec<T> {
    open spec fn encoded(v: Seq<T::V>) -> JsonV {
        JsonV::Array(Seq::new(v.len(), |i: int| T::encoded(v[i])))
    }

    open spec fn decoded(j: JsonV) -> Option<Seq<T::V>> {
        match j {
            JsonV::Array(items) => if forall|i: int|
                0 <= i < items.len() ==> (#[trigger] T::decoded(items[i])) is Some {
                Some(Seq::new(items.len(), |i: int| T::decoded(items[i]).unwrap()))
            } else {
                None
            },
            _ => None,
        }
    }

    open spec fn faithful(v: Seq<T::V>) -> bool {
        forall|i: int| 0 <= i < v.len() ==> #[trigger] T::faithful(v[i])
    }

    fn to_json(&self) -> (j: Json) {
        let mut items: Vec<Json> = Vec::new();
        let mut i: usize = 0;
        while i < self.len()
            invariant
                i <= self.len(),
                items@.len() == i,
                forall|k: int| 0 <= k < i ==> (#[trigger] items@[k])@ == T::encoded(self@[k].deep_view()),
            decreases self.len() - i,
        {
            items.push(self[i].to_json());
            i += 1;
        }
        proof {
            lemma_array_value(items);
            assert(items_value(items@) =~= Seq::new(
                self.deep_view().len(),
                |i: int| T::encoded(self.deep_view()[i]),
            ));
        }
        Json::Array(items)
    }

    fn from_json(j: &Json) -> (r: Option<Vec<T>>) {
        match j {
            Json::Array(items) => {
                proof {
                    lemma_array_value(*items);
                }
                let mut out: Vec<T> = Vec::new();
                let mut i: usize = 0;
                while i < items.len()
                    invariant
                        i <= items.len(),
                        out@.len() == i,
                        j@ == JsonV::Array(items_value(items@)),
                        forall|k: int|
                            0 <= k < i ==> T::decoded(#[trigger] items@[k]@) == Some(
                                out@[k].deep_view(),
                            ),
                    decreases items.len() - i,
                {
                    match T::from_json(&items[i]) {
                        Some(t) => out.push(t),
                        None => {
                            proof {
                                assert(items_value(items@)[i as int] == items@[i as int]@);
                            }
                            return None;
                        },
                    }
                    i += 1;
                }
                proof {
                    let values = items_value(items@);
                    assert forall|k: int| 0 <= k < values.len() implies (#[trigger] T::decoded(
                        values[k],
                    )) is Some by {
                        assert(values[k] == items@[k]@);
                    }
                    assert(out.deep_view() =~= Seq::new(
                        values.len(),
                        |k: int| T::decoded(values[k]).unwrap(),
                    )) by {
                        assert forall|k: int| 0 <= k < values.len() implies out.deep_view()[k]
                            == T::decoded(values[k]).unwrap() by {
                            assert(values[k] == items@[k]@);
                        }
                    }
                }
                Some(out)
            },
            _ => None,
        }
    }

    proof fn round_trip(v: Seq<T::V>) {
        let items = Seq::new(v.len(), |i: int| T::encoded(v[i]));
        assert forall|i: int| 0 <= i < items.len() implies (#[trigger] T::decoded(items[i])) == Some(
            v[i],
        ) by {
            T::round_trip(v[i]);
        }
        assert(Seq::new(items.len(), |i: int| T::decoded(items[i]).unwrap()) =~= v);
    }
}

/// Looking a name up after a member was appended: the new member answers for
/// its own name, and every other name is answered as before.
pub broadcast proof fn lemma_lookup_put(members: Seq<MemberV>, key: Seq<char>, value: JsonV, name: Seq<char>)
    ensures
        #[trigger] lookup(put(members, key, value), name) == if key == name {
            Some(value)
        } else {
            lookup(members, name)
        },
{
    reveal(put);
    reveal(lookup);
    let after = put(members, key, value);
    assert(after.last() == MemberV { name: key, value });
    assert(after.drop_last() =~= members);
}

/// An object without members answers for no name.
pub broadcast proof fn lemma_lookup_empty(name: Seq<char>)
    ensures
        #[trigger] lookup(Seq::<MemberV>::empty(), name) is None,
{
    reveal(lookup);
}

pub broadcast group group_lookup {
    lemma_lookup_put,
    lemma_lookup_empty,
}

/// An object without members has no member to read.
pub broadcast proof fn lemma_field_of_empty<T: Model>(name: Seq<char>)
    ensures
        #[trigger] field::<T>(JsonV::Object(Seq::empty()), name) is None,
{
    broadcast use group_lookup;

    reveal(field);
}

/// In an object without members every optional member is absent.
pub broadcast proof fn lemma_opt_field_of_empty<T: Model>(name: Seq<char>)
    ensures
        #[trigger] opt_field::<T>(JsonV::Object(Seq::empty()), name) == Some(None::<T::V>),
{
    broadcast use group_lookup;

    reveal(opt_field);
}

/// Reading a member after another was written: the written member answers
/// for its own name, every other name is answered as before.
pub broadcast proof fn lemma_field_after_with<T: Model, U: Model>(
    m: Seq<MemberV>,
    key: Seq<char>,
    v: U::V,
    name: Seq<char>,
)
    ensures
        #[trigger] field::<T>(JsonV::Object(with::<U>(m, key, v)), name) == if key == name {
            T::decoded(U::encoded(v))
        } else {
            field::<T>(JsonV::Object(m), name)
        },
{
    broadcast use group_lookup;

    reveal(field);
    reveal(with);
}

/// Reading a member after an optional one was written.
pub broadcast proof fn lemma_field_after_with_opt<T: Model, U: Model>(
    m: Seq<MemberV>,
    key: Seq<char>,
    v: Option<U::V>,
    name: Seq<char>,
)
    ensures
        #[trigger] field::<T>(JsonV::Object(with_opt::<U>(m, key, v)), name) == if v is Some && key
            == name {
            T::decoded(U::encoded(v.unwrap()))
        } else {
            field::<T>(JsonV::Object(m), name)
        },
{
    broadcast use group_lookup;

    reveal(field);
    reveal(with_opt);
}

/// Reading an optional member after another was written.
pub broadcast proof fn lemma_opt_field_after_with<T: Model, U: Model>(
    m: Seq<MemberV>,
    key: Seq<char>,
    v: U::V,
    name: Seq<char>,
)
    ensures
        #[trigger] opt_field::<T>(JsonV::Object(with::<U>(m, key, v)), name) == if key == name {
            read_opt::<T>(U::encoded(v))
        } else {
            opt_field::<T>(JsonV::Object(m), name)
        },
{
    broadcast use group_lookup;

    reveal(opt_field);
    reveal(with);
}

/// Reading an optional member after an optional one was written.
pub broadcast proof fn lemma_opt_field_after_with_opt<T: Model, U: Model>(
    m: Seq<MemberV>,
    key: Seq<char>,
    v: Option<U::V>,
    name: Seq<char>,
)
    ensures
        #[trigger] opt_field::<T>(JsonV::Object(with_opt::<U>(m, key, v)), name) == if v is Some
            && key == name {
            read_opt::<T>(U::encoded(v.unwrap()))
        } else {
            opt_field::<T>(JsonV::Object(m), name)
        },
{
    broadcast use group_lookup;

    reveal(opt_field);
    reveal(with_opt);
}

/// The round trip of a faithful model, ready for use wherever a model is
/// read back from its own JSON form.
pub broadcast proof fn lemma_read_back<T: Model>(v: T::V)
    ensures
        T::faithful(v) ==> #[trigger] T::decoded(T::encoded(v)) == Some(v),
{
    if T::faithful(v) {
        T::round_trip(v);
    }
}

pub broadcast group group_codec {
    lemma_field_of_empty,
    lemma_opt_field_of_empty,
    lemma_field_after_with,
    lemma_field_after_with_opt,
    lemma_opt_field_after_with,
    lemma_opt_field_after_with_opt,
    lemma_read_back,
}

} // verus!
