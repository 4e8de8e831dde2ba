//! JSON values as the crate reads and builds them.
use vstd::prelude::*;
use vstd::string::*;

use crate::text::same_text;

verus! {

/// A JSON value.
#[derive(Debug, PartialEq, Eq)]
pub enum Json {
    Null,
    Bool(bool),
    /// A whole number that is not negative.
    Unsigned(u64),
    /// A negative whole number.
    Negative(i64),
    /// A number with a fraction or an exponent, as it is spelled.
    Float(String),
    Text(String),
    Array(Vec<Json>),
    /// The members in order. Where a key occurs twice, the later member counts.
    Object(Vec<(String, Json)>),
}

/// What a [`Json`] says, with mathematical numbers, texts and sequences.
#[verifier::ext_equal]
pub enum JsonView {
    Null,
    Bool(bool),
    Int(int),
    Float(Seq<char>),
    Text(Seq<char>),
    Array(Seq<JsonView>),
    Object(Seq<(Seq<char>, JsonView)>),
}

impl View for Json {
    type V = JsonView;

    open spec fn view(&self) -> JsonView {
        json_view(*self)
    }
}

pub open spec fn json_view(j: Json) -> JsonView
    decreases j,
{
    match j {
        Json::Null => JsonView::Null,
        Json::Bool(b) => JsonView::Bool(b),
        Json::Unsigned(n) => JsonView::Int(n as int),
        Json::Negative(n) => JsonView::Int(n as int),
        Json::Float(s) => JsonView::Float(s@),
        Json::Text(s) => JsonView::Text(s@),
        Json::Array(v) => JsonView::Array(
            Seq::new(
                v@.len(),
                |i: int|
                    if 0 <= i < v@.len() {
                        json_view(v@[i])
                    } else {
                        JsonView::Null
                    },
            ),
        ),
        Json::Object(v) => JsonView::Object(
            Seq::new(
                v@.len(),
                |i: int|
                    if 0 <= i < v@.len() {
                        (v@[i].0@, json_view(v@[i].1))
                    } else {
                        (Seq::empty(), JsonView::Null)
                    },
            ),
        ),
    }
}

/// The views of the items of a sequence.
pub open spec fn views(items: Seq<Json>) -> Seq<JsonView> {
    Seq::new(items.len(), |i: int| items[i]@)
}

/// The views of the members of an object.
pub open spec fn member_views(members: Seq<(String, Json)>) -> Seq<(Seq<char>, JsonView)> {
    Seq::new(members.len(), |i: int| (members[i].0@, members[i].1@))
}

/// The value of the last member called `key`.
pub open spec fn member(members: Seq<(Seq<char>, JsonView)>, key: Seq<char>) -> Option<JsonView>
    decreases members.len(),
{
    if members.len() == 0 {
        None
    } else if members.last().0 == key {
        Some(members.last().1)
    } else {
        member(members.drop_last(), key)
    }
}

impl JsonView {
    /// The member called `key`, where this is an object that has one.
    pub open spec fn get(self, key: Seq<char>) -> Option<JsonView> {
        match self {
            JsonView::Object(members) => member(members, key),
            _ => None,
        }
    }

    /// The text, where this is one.
    pub open spec fn as_text(self) -> Option<Seq<char>> {
        match self {
            JsonView::Text(s) => Some(s),
            _ => None,
        }
    }

    /// The truth value, where this is one.
    pub open spec fn as_bool(self) -> Option<bool> {
        match self {
            JsonView::Bool(b) => Some(b),
            _ => None,
        }
    }

    /// The number, where this is a whole one that fits `i64`.
    pub open spec fn as_i64(self) -> Option<i64> {
        match self {
            JsonView::Int(n) => if i64::MIN <= n <= i64::MAX {
                Some(n as i64)
            } else {
                None
            },
            _ => None,
        }
    }

    /// The number, where this is a whole one that fits `u64`.
    pub open spec fn as_u64(self) -> Option<u64> {
        match self {
            JsonView::Int(n) => if 0 <= n <= u64::MAX {
                Some(n as u64)
            } else {
                None
            },
            _ => None,
        }
    }

    /// The items, where this is an array.
    pub open spec fn as_array(self) -> Option<Seq<JsonView>> {
        match self {
            JsonView::Array(items) => Some(items),
            _ => None,
        }
    }

    /// The text of the member called `key`.
    pub open spec fn text_at(self, key: Seq<char>) -> Option<Seq<char>> {
        match self.get(key) {
            Some(v) => v.as_text(),
            None => None,
        }
    }

    /// The number of the member called `key`.
    pub open spec fn i64_at(self, key: Seq<char>) -> Option<i64> {
        match self.get(key) {
            Some(v) => v.as_i64(),
            None => None,
        }
    }

    /// The truth value of the member called `key`.
    pub open spec fn bool_at(self, key: Seq<char>) -> Option<bool> {
        match self.get(key) {
            Some(v) => v.as_bool(),
            None => None,
        }
    }
}

proof fn lemma_array_view(v: Vec<Json>)
    ensures
        Json::Array(v)@ == JsonView::Array(views(v@)),
{
    assert(Json::Array(v)@->Array_0 =~= views(v@));
}

proof fn lemma_object_view(v: Vec<(String, Json)>)
    ensures
        Json::Object(v)@ == JsonView::Object(member_views(v@)),
{
    assert(Json::Object(v)@->Object_0 =~= member_views(v@));
}

impl Clone for Json {
    fn clone(&self) -> (r: Self)
        ensures
            r@ == self@,
        decreases self,
    {
        match self {
            Json::Null => Json::Null,
            Json::Bool(b) => Json::Bool(*b),
            Json::Unsigned(n) => Json::Unsigned(*n),
            Json::Negative(n) => Json::Negative(*n),
            Json::Float(s) => Json::Float(s.clone()),
            Json::Text(s) => Json::Text(s.clone()),
            Json::Array(items) => {
                let mut copy: Vec<Json> = Vec::new();
                let mut i: usize = 0;
                while i < items.len()
                    invariant
                        i <= items.len(),
                        self == Json::Array(*items),
                        copy@.len() == i,
                        forall|j: int| 0 <= j < i ==> copy@[j]@ == #[trigger] items@[j]@,
                    decreases items.len() - i,
                {
                    proof {
                        assert(decreases_to!(*self => self->Array_0@[i as int]));
                    }
                    let item: Json = items[i].clone();
                    copy.push(item);
                    i = i + 1;
                }
                proof {
                    lemma_array_view(copy);
                    lemma_array_view(*items);
                    assert(views(copy@) =~= views(items@));
                }
                Json::Array(copy)
            },
            Json::Object(members) => {
                let mut copy: Vec<(String, Json)> = Vec::new();
                let mut i: usize = 0;
                while i < members.len()
                    invariant
                        i <= members.len(),
                        self == Json::Object(*members),
                        copy@.len() == i,
                        forall|j: int|
                            0 <= j < i ==> copy@[j].0@ == (#[trigger] members@[j]).0@ && copy@[j].1@
                                == members@[j].1@,
                    decreases members.len() - i,
                {
                    proof {
                        assert(decreases_to!(*self => self->Object_0@[i as int].1));
                    }
                    let value: Json = members[i].1.clone();
                    copy.push((members[i].0.clone(), value));
                    i = i + 1;
                }
                proof {
                    lemma_object_view(copy);
                    lemma_object_view(*members);
                    assert(member_views(copy@) =~= member_views(members@));
                }
                Json::Object(copy)
            },
        }
    }
}

/// The view of a borrowed value that may be absent.
pub open spec fn opt_view(v: Option<&Json>) -> Option<JsonView> {
    match v {
        Some(j) => Some(j@),
        None => None,
    }
}

/// The view of a borrowed text that may be absent.
pub open spec fn opt_text(v: Option<&str>) -> Option<Seq<char>> {
    match v {
        Some(s) => Some(s@),
        None => None,
    }
}

impl Json {
    /// The member called `key`, where this is an object that has one.
    pub fn get(&self, key: &str) -> (r: Option<&Json>)
        ensures
            opt_view(r) == self@.get(key@),
    {
        match self {
            Json::Object(members) => {
                let ghost all = member_views(members@);
                proof {
                    lemma_object_view(*members);
                }
                let mut i: usize = members.len();
                assert(all.take(i as int) =~= all);
                while i > 0
                    invariant
                        i <= members.len(),
                        all == member_views(members@),
                        self@.get(key@) == member(all.take(i as int), key@),
                    decreases i,
                {
                    assert(all.take(i as int).last() == all[i - 1]);
                    assert(all.take(i as int).drop_last() =~= all.take(i - 1));
                    i = i - 1;
                    if same_text(members[i].0.as_str(), key) {
                        return Some(&members[i].1);
                    }
                }
                None
            },
            _ => None,
        }
    }

    /// The text, where this is one.
    pub fn as_text(&self) -> (r: Option<&str>)
        ensures
            opt_text(r) == self@.as_text(),
    {
        match self {
            Json::Text(s) => Some(s.as_str()),
            _ => None,
        }
    }

    /// The truth value, where this is one.
    pub fn as_bool(&self) -> (r: Option<bool>)
        ensures
            r == self@.as_bool(),
    {
        match self {
            Json::Bool(b) => Some(*b),
            _ => None,
        }
    }

    /// The number, where this is a whole one that fits `i64`.
    pub fn as_i64(&self) -> (r: Option<i64>)
        ensures
            r == self@.as_i64(),
    {
        match self {
            Json::Unsigned(n) => if *n <= i64::MAX as u64 {
                Some(*n as i64)
            } else {
                None
            },
            Json::Negative(n) => Some(*n),
            _ => None,
        }
    }

    /// The number, where this is a whole one that fits `u64`.
    pub fn as_u64(&self) -> (r: Option<u64>)
        ensures
            r == self@.as_u64(),
    {
        match self {
            Json::Unsigned(n) => Some(*n),
            Json::Negative(n) => if *n >= 0 {
                Some(*n as u64)
            } else {
                None
            },
            _ => None,
        }
    }

    /// The items, where this is an array.
    pub fn as_array(&self) -> (r: Option<&Vec<Json>>)
        ensures
            match r {
                Some(items) => self@.as_array() == Some(views(items@)),
                None => self@.as_array() is None,
            },
    {
        match self {
            Json::Array(items) => {
                proof {
                    lemma_array_view(*items);
                }
                Some(items)
            },
            _ => None,
        }
    }

    /// The text of the member called `key`.
    pub fn text_at(&self, key: &str) -> (r: Option<&str>)
        ensures
            opt_text(r) == self@.text_at(key@),
    {
        match self.get(key) {
            Some(v) => v.as_text(),
            None => None,
        }
    }

    /// The number of the member called `key`.
    pub fn i64_at(&self, key: &str) -> (r: Option<i64>)
        ensures
            r == self@.i64_at(key@),
    {
        match self.get(key) {
            Some(v) => v.as_i64(),
            None => None,
        }
    }

    /// The truth value of the member called `key`.
    pub fn bool_at(&self, key: &str) -> (r: Option<bool>)
        ensures
            r == self@.bool_at(key@),
    {
        match self.get(key) {
            Some(v) => v.as_bool(),
            None => None,
        }
    }

    /// A text.
    pub fn text(s: &str) -> (r: Json)
        ensures
            r@ == JsonView::Text(s@),
    {
        Json::Text(s.to_string())
    }

    /// A whole number of either sign.
    pub fn number(n: i64) -> (r: Json)
        ensures
            r@ == JsonView::Int(n as int),
    {
        if n < 0 {
            Json::Negative(n)
        } else {
            Json::Unsigned(n as u64)
        }
    }

    /// An array of `items`.
    pub fn array(items: Vec<Json>) -> (r: Json)
        ensures
            r@ == JsonView::Array(views(items@)),
    {
        proof {
            lemma_array_view(items);
        }
        Json::Array(items)
    }

    /// An object without members.
    pub fn object() -> (r: Json)
        ensures
            r@ == JsonView::Object(Seq::empty()),
    {
        let members: Vec<(String, Json)> = Vec::new();
        proof {
            lemma_object_view(members);
            assert(member_views(members@) =~= Seq::empty());
        }
        Json::Object(members)
    }

    /// This object with one member more; anything but an object is left as it is.
    pub fn with(self, key: &str, value: Json) -> (r: Json)
        ensures
            r@ == self@.with(key@, value@),
    {
        match self {
            Json::Object(members) => {
                proof {
                    lemma_object_view(members);
                }
                let ghost before = members@;
                let mut members = members;
                members.push((key.to_string(), value));
                proof {
                    lemma_object_view(members);
                    assert(member_views(members@) =~= member_views(before).push((key@, value@)));
                }
                Json::Object(members)
            },
            other => other,
        }
    }
}

impl JsonView {
    /// An object with one member more; anything but an object as it is.
    pub open spec fn with(self, key: Seq<char>, value: JsonView) -> JsonView {
        match self {
            JsonView::Object(members) => JsonView::Object(members.push((key, value))),
            other => other,
        }
    }
}

/// An object without members.
pub open spec fn empty_object() -> JsonView {
    JsonView::Object(Seq::empty())
}

/// `serde_json::Value`, the parsed form of a JSON text.
#[verifier::external_type_specification]
#[verifier::external_body]
pub struct ExValue(serde_json::Value);

/// A `serde_json::Value` as a [`Json`], variant by variant.
#[verifier::external_body]
fn json_of(v: serde_json::Value) -> Json {
    match v {
        serde_json::Value::Null => Json::Null,
        serde_json::Value::Bool(b) => Json::Bool(b),
        serde_json::Value::Number(n) => match (n.as_u64(), n.as_i64()) {
            (Some(u), _) => Json::Unsigned(u),
            (None, Some(i)) => Json::Negative(i),
            (None, None) => Json::Float(n.to_string()),
        },
        serde_json::Value::String(s) => Json::Text(s),
        serde_json::Value::Array(items) => Json::Array(items.into_iter().map(json_of).collect()),
        serde_json::Value::Object(m) => Json::Object(m.into_iter().map(|(k, v)| (k, json_of(v))).collect()),
    }
}

/// A [`Json`] as a `serde_json::Value`, variant by variant.
#[verifier::external_body]
fn value_of(j: &Json) -> serde_json::Value {
    match j {
        Json::Null => serde_json::Value::Null,
        Json::Bool(b) => serde_json::Value::Bool(*b),
        Json::Unsigned(n) => serde_json::Value::from(*n),
        Json::Negative(n) => serde_json::Value::from(*n),
        Json::Float(s) => s.parse().map_or(serde_json::Value::Null, serde_json::Value::Number),
        Json::Text(s) => serde_json::Value::String(s.clone()),
        Json::Array(items) => items.iter().map(value_of).collect(),
        Json::Object(m) => m.iter().map(|(k, v)| (k.clone(), value_of(v))).collect(),
    }
}

/// What `serde_json::from_str` reads out of a text, or the message of its error.
pub uninterp spec fn json_read(text: Seq<char>) -> Result<JsonView, Seq<char>>;

/// What `serde_json::from_slice` reads out of a body, or the message of its error.
pub uninterp spec fn json_read_bytes(body: Seq<u8>) -> Result<JsonView, Seq<char>>;

/// What `serde_json::Value` displays as.
pub uninterp spec fn json_written(value: JsonView) -> Seq<char>;

/// The view of what reading gave.
pub open spec fn read_view(r: Result<Json, String>) -> Result<JsonView, Seq<char>> {
    match r {
        Ok(j) => Ok(j@),
        Err(e) => Err(e@),
    }
}

/// Calls `serde_json::from_str`. The outcome, a value or the text of the error, depends on `text`
/// alone.
#[verifier::external_body]
fn read_json(text: &str) -> (r: Result<Json, String>)
    ensures
        read_view(r) == json_read(text@),
{
    serde_json::from_str::<serde_json::Value>(text).map(json_of).map_err(|e| e.to_string())
}

/// Calls `serde_json::from_slice`. The outcome, a value or the text of the error, depends on the
/// bytes alone.
#[verifier::external_body]
fn read_json_bytes(body: &Vec<u8>) -> (r: Result<Json, String>)
    ensures
        read_view(r) == json_read_bytes(body@),
{
    serde_json::from_slice::<serde_json::Value>(body).map(json_of).map_err(|e| e.to_string())
}

/// Calls the `Display` of `serde_json::Value`, the compact form. The text depends on the value
/// alone.
#[verifier::external_body]
fn write_json(value: &Json) -> (r: String)
    ensures
        r@ == json_written(value@),
{
    value_of(value).to_string()
}

/// Reads a JSON text.
pub fn parse_json(s: &str) -> (r: Result<Json, String>)
    ensures
        read_view(r) == json_read(s@),
{
    read_json(s)
}

/// Reads the JSON of a response body.
pub fn parse_json_bytes(body: &Vec<u8>) -> (r: Result<Json, String>)
    ensures
        read_view(r) == json_read_bytes(body@),
{
    read_json_bytes(body)
}

/// The compact JSON text of `value`.
pub fn json_text(value: &Json) -> (r: String)
    ensures
        r@ == json_written(value@),
{
    write_json(value)
}

proof fn lemma_member_is_the_last(members: Seq<(Seq<char>, JsonView)>, key: Seq<char>, i: int)
    requires
        0 <= i < members.len(),
        members[i].0 == key,
        forall|j: int| i < j < members.len() ==> (#[trigger] members[j]).0 != key,
    ensures
        member(members, key) == Some(members[i].1),
    decreases members.len(),
{
    if i < members.len() - 1 {
        let less = members.drop_last();
        assert forall|j: int| i < j < less.len() implies (#[trigger] less[j]).0 != key by {
            assert(less[j] == members[j]);
        }
        assert(members.last() == members[members.len() - 1]);
        lemma_member_is_the_last(less, key, i);
    }
}

proof fn lemma_no_member(members: Seq<(Seq<char>, JsonView)>, key: Seq<char>)
    requires
        forall|j: int| 0 <= j < members.len() ==> (#[trigger] members[j]).0 != key,
    ensures
        member(members, key) is None,
    decreases members.len(),
{
    if members.len() > 0 {
        let less = members.drop_last();
        assert forall|j: int| 0 <= j < less.len() implies (#[trigger] less[j]).0 != key by {
            assert(less[j] == members[j]);
        }
        assert(members.last() == members[members.len() - 1]);
        lemma_no_member(less, key);
    }
}

/// A key finds the last member called by it, and nothing where no member is or where there are no
/// members at all.
pub proof fn law_a_key_finds_the_last_member(v: JsonView, key: Seq<char>, i: int)
    ensures
        v matches JsonView::Object(members) ==> {
            &&& 0 <= i < members.len() && members[i].0 == key && (forall|j: int|
                i < j < members.len() ==> (#[trigger] members[j]).0 != key) ==> v.get(key) == Some(
                members[i].1,
            )
            &&& (forall|j: int| 0 <= j < members.len() ==> (#[trigger] members[j]).0 != key)
                ==> v.get(key) is None
        },
        v !is Object ==> v.get(key) is None,
{
    if let JsonView::Object(members) = v {
        if 0 <= i < members.len() && members[i].0 == key && (forall|j: int|
            i < j < members.len() ==> (#[trigger] members[j]).0 != key) {
            lemma_member_is_the_last(members, key, i);
        }
        if forall|j: int| 0 <= j < members.len() ==> (#[trigger] members[j]).0 != key {
            lemma_no_member(members, key);
        }
    }
}

/// A member that is added is found under its key, and every other one is found as before.
pub proof fn law_an_added_member_is_found(
    v: JsonView,
    key: Seq<char>,
    value: JsonView,
    other: Seq<char>,
)
    requires
        v is Object,
    ensures
        v.with(key, value).get(key) == Some(value),
        other != key ==> v.with(key, value).get(other) == v.get(other),
        empty_object().get(key) is None,
        empty_object() is Object,
        v.with(key, value) is Object,
        v.with(key, value)->Object_0.len() == v->Object_0.len() + 1,
{
    let members = v->Object_0;
    assert(members.push((key, value)).drop_last() =~= members);
}

/// A value is read as what it is and as nothing else: a number only where it fits.
pub proof fn law_values_are_read_as_what_they_are(v: JsonView, key: Seq<char>)
    ensures
        forall|s: Seq<char>| #[trigger] v.as_text() == Some(s) <==> v == JsonView::Text(s),
        forall|b: bool| #[trigger] v.as_bool() == Some(b) <==> v == JsonView::Bool(b),
        forall|n: i64| #[trigger] v.as_i64() == Some(n) <==> v == JsonView::Int(n as int),
        forall|n: u64| #[trigger] v.as_u64() == Some(n) <==> v == JsonView::Int(n as int),
        forall|items: Seq<JsonView>| #[trigger]
            v.as_array() == Some(items) <==> v == JsonView::Array(items),
        forall|s: Seq<char>| #[trigger]
            v.text_at(key) == Some(s) <==> v.get(key) == Some(JsonView::Text(s)),
        forall|b: bool| #[trigger]
            v.bool_at(key) == Some(b) <==> v.get(key) == Some(JsonView::Bool(b)),
        forall|n: i64| #[trigger]
            v.i64_at(key) == Some(n) <==> v.get(key) == Some(JsonView::Int(n as int)),
{
}

/// A value says what stands in it, item by item and member by member.
pub proof fn law_a_value_says_what_stands_in_it(
    n: u64,
    m: i64,
    s: String,
    items: Vec<Json>,
    members: Vec<(String, Json)>,
    i: int,
)
    ensures
        Json::Unsigned(n)@ == JsonView::Int(n as int),
        Json::Negative(m)@ == JsonView::Int(m as int),
        Json::Text(s)@ == JsonView::Text(s@),
        Json::Array(items)@ is Array,
        Json::Array(items)@->Array_0.len() == items@.len(),
        0 <= i < items@.len() ==> Json::Array(items)@->Array_0[i] == items@[i]@,
        Json::Object(members)@ is Object,
        Json::Object(members)@->Object_0.len() == members@.len(),
        0 <= i < members@.len() ==> Json::Object(members)@->Object_0[i] == (
            members@[i].0@,
            members@[i].1@,
        ),
{
    lemma_array_view(items);
    lemma_object_view(members);
}

/// What may be absent says what it is where it is there, and what was read says what was read.
pub proof fn law_what_is_there_says_what_it_is(v: Json, s: &str, e: String)
    ensures
        opt_view(Some(&v)) == Some(v@),
        opt_view(None) is None,
        opt_text(Some(s)) == Some(s@),
        opt_text(None) is None,
        read_view(Ok(v)) == Ok::<_, Seq<char>>(v@),
        read_view(Err(e)) == Err::<JsonView, _>(e@),
{
}

/// Values are read and built as they are stated.
pub proof fn law_values_are_read_and_built_as_stated(
    v: Json,
    key: &str,
    found: Option<&Json>,
    text: Option<&str>,
    yes: Option<bool>,
    n: Option<i64>,
    u: Option<u64>,
    value: Json,
    r: Json,
    number: i64,
    items: Vec<Json>,
    array: Option<&Vec<Json>>,
)
    ensures
        call_ensures(Json::get, (&v, key), found) ==> opt_view(found) == v@.get(key@),
        call_ensures(Json::as_text, (&v,), text) ==> opt_text(text) == v@.as_text(),
        call_ensures(Json::as_bool, (&v,), yes) ==> yes == v@.as_bool(),
        call_ensures(Json::as_i64, (&v,), n) ==> n == v@.as_i64(),
        call_ensures(Json::as_u64, (&v,), u) ==> u == v@.as_u64(),
        call_ensures(Json::as_array, (&v,), array) ==> match array {
            Some(a) => v@ == JsonView::Array(views(a@)),
            None => v@ !is Array,
        },
        call_ensures(Json::text_at, (&v, key), text) ==> opt_text(text) == v@.text_at(key@),
        call_ensures(Json::i64_at, (&v, key), n) ==> n == v@.i64_at(key@),
        call_ensures(Json::bool_at, (&v, key), yes) ==> yes == v@.bool_at(key@),
        call_ensures(Json::text, (key,), r) ==> r@ == JsonView::Text(key@),
        call_ensures(Json::number, (number,), r) ==> r@ == JsonView::Int(number as int),
        call_ensures(Json::array, (items,), r) ==> r@ == JsonView::Array(views(items@)),
        call_ensures(Json::object, (), r) ==> r@ == empty_object(),
        call_ensures(Json::with, (v, key, value), r) ==> r@ == v@.with(key@, value@),
        call_ensures(Json::clone, (&v,), r) ==> r@ == v@,
{
}

} // verus!
