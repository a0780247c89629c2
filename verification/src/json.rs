//! JSON documents as the decoders read them.
//!
//! The text of a document is parsed by `serde_json`; what comes out is held
//! in [`Json`], a plain tree that the verified decoders walk.

use vstd::prelude::*;
use vstd::string::*;

verus! {

/// A JSON value.
#[derive(Debug, PartialEq)]
pub enum Json {
    /// `null`.
    Null,
    /// `true` or `false`.
    Bool(bool),
    /// An integer that is not negative.
    PosInt(u64),
    /// A negative integer.
    NegInt(i64),
    /// A number that is no 64-bit integer.
    Float,
    /// A string.
    Str(String),
    /// An array.
    Array(Vec<Json>),
    /// An object: its members, each a key and a value.
    Object(Vec<(String, Json)>),
}

/// The mathematical model of a [`Json`] value.
pub enum JsonView {
    Null,
    Bool(bool),
    PosInt(u64),
    NegInt(i64),
    Float,
    Str(Seq<char>),
    Array(Seq<JsonView>),
    Object(Seq<(Seq<char>, JsonView)>),
}

/// The model of the items of an array.
pub open spec fn items_view(items: Seq<Json>) -> Seq<JsonView>
    decreases items,
{
    Seq::new(
        items.len(),
        |i: int|
            if 0 <= i < items.len() {
                json_view(items[i])
            } else {
                JsonView::Null
            },
    )
}

/// The model of the members of an object.
pub open spec fn members_view(members: Seq<(String, Json)>) -> Seq<(Seq<char>, JsonView)>
    decreases members,
{
    Seq::new(
        members.len(),
        |i: int|
            if 0 <= i < members.len() {
                (members[i].0@, json_view(members[i].1))
            } else {
                (Seq::empty(), JsonView::Null)
            },
    )
}

/// The model of a JSON value.
pub open spec fn json_view(json: Json) -> JsonView
    decreases json,
{
    match json {
        Json::Null => JsonView::Null,
        Json::Bool(b) => JsonView::Bool(b),
        Json::PosInt(n) => JsonView::PosInt(n),
        Json::NegInt(n) => JsonView::NegInt(n),
        Json::Float => JsonView::Float,
        Json::Str(s) => JsonView::Str(s@),
        Json::Array(items) => JsonView::Array(items_view(items@)),
        Json::Object(members) => JsonView::Object(members_view(members@)),
    }
}

impl DeepView for Json {
    type V = JsonView;

    open spec fn deep_view(&self) -> JsonView {
        json_view(*self)
    }
}

/// A value as `serde_json` parsed it. It is opaque here; [`open_value`]
/// looks one level into it.
#[verifier::external_type_specification]
#[verifier::external_body]
pub struct ExJsonValue(serde_json::Value);

/// What the bytes of a document parse to: the value they write, or the
/// parser's diagnostic where they are no JSON document.
pub uninterp spec fn json_document(bytes: Seq<u8>) -> Result<JsonView, Seq<char>>;

/// What a parsed value holds.
pub uninterp spec fn value_view(value: serde_json::Value) -> JsonView;

/// One level of a parsed value: which variant it is, with the values inside
/// an array or an object still unopened.
enum Node<'a> {
    Null,
    Bool(bool),
    PosInt(u64),
    NegInt(i64),
    Float,
    Str(&'a String),
    Array(&'a Vec<serde_json::Value>),
    Object(Vec<(&'a String, &'a serde_json::Value)>),
}

/// What a value holds, given its first level.
spec fn node_view(node: Node) -> JsonView {
    match node {
        Node::Null => JsonView::Null,
        Node::Bool(b) => JsonView::Bool(b),
        Node::PosInt(n) => JsonView::PosInt(n),
        Node::NegInt(n) => JsonView::NegInt(n),
        Node::Float => JsonView::Float,
        Node::Str(s) => JsonView::Str(s@),
        Node::Array(items) => JsonView::Array(
            Seq::new(items@.len(), |i: int| value_view(items@[i])),
        ),
        Node::Object(members) => JsonView::Object(
            Seq::new(members@.len(), |i: int| (members@[i].0@, value_view(*members@[i].1))),
        ),
    }
}

/// `serde_json::from_slice`, asked for a `serde_json::Value`: parses `bytes`
/// as one JSON document. The contract claims only that the outcome, what the
/// value holds or the text of the parser's error, is a function of the
/// bytes.
#[verifier::external_body]
fn parse_value(bytes: &[u8]) -> (r: Result<serde_json::Value, String>)
    ensures
        match r {
            Ok(value) => json_document(bytes@) == Ok::<JsonView, Seq<char>>(value_view(value)),
            Err(diagnostic) => json_document(bytes@) == Err::<JsonView, Seq<char>>(diagnostic@),
        },
{
    match serde_json::from_slice::<serde_json::Value>(bytes) {
        Ok(value) => Ok(value),
        Err(e) => Err(e.to_string()),
    }
}

/// Tells the variants of a `serde_json::Value` apart and hands out what the
/// variant holds. A number that `serde_json::Number::as_u64` gives is a
/// `PosInt`, another one that `as_i64` gives is a `NegInt`, and the rest are
/// `Float`. The members of an object come in the order in which
/// `serde_json::Map::iter` walks them. The contract says that the value
/// holds what its first level shows.
#[verifier::external_body]
fn open_value<'a>(value: &'a serde_json::Value) -> (node: Node<'a>)
    ensures
        node_view(node) == value_view(*value),
{
    match value {
        serde_json::Value::Null => Node::Null,
        serde_json::Value::Bool(b) => Node::Bool(*b),
        serde_json::Value::Number(n) => match (n.as_u64(), n.as_i64()) {
            (Some(u), _) => Node::PosInt(u),
            (None, Some(i)) => Node::NegInt(i),
            (None, None) => Node::Float,
        },
        serde_json::Value::String(s) => Node::Str(s),
        serde_json::Value::Array(items) => Node::Array(items),
        serde_json::Value::Object(members) => Node::Object(members.iter().collect()),
    }
}

/// Copies a parsed value into a [`Json`].
fn json_of_value(value: &serde_json::Value) -> (json: Json)
    ensures
        json.deep_view() == value_view(*value),
    decreases value_view(*value),
{
    match open_value(value) {
        Node::Null => Json::Null,
        Node::Bool(b) => Json::Bool(b),
        Node::PosInt(n) => Json::PosInt(n),
        Node::NegInt(n) => Json::NegInt(n),
        Node::Float => Json::Float,
        Node::Str(s) => Json::Str(s.clone()),
        Node::Array(items) => {
            let ghost all = value_view(*value)->Array_0;
            let n = items.len();
            let mut out: Vec<Json> = Vec::new();
            let mut i: usize = 0;
            while i < n
                invariant
                    i <= n,
                    n == items@.len(),
                    value_view(*value) == JsonView::Array(all),
                    all.len() == n,
                    forall|k: int| 0 <= k < n ==> #[trigger] all[k] == value_view(items@[k]),
                    out@.len() == i,
                    forall|k: int| 0 <= k < i ==> (#[trigger] out@[k]).deep_view() == all[k],
                decreases n - i,
            {
                assert(all[i as int] == value_view(items@[i as int]));
                assert(decreases_to!(value_view(*value) => value_view(*value)->Array_0));
                assert(decreases_to!(all => all[i as int]));
                out.push(json_of_value(&items[i]));
                i += 1;
            }
            assert(items_view(out@) =~= all);
            Json::Array(out)
        },
        Node::Object(members) => {
            let ghost all = value_view(*value)->Object_0;
            let n = members.len();
            let mut out: Vec<(String, Json)> = Vec::new();
            let mut i: usize = 0;
            while i < n
                invariant
                    i <= n,
                    n == members@.len(),
                    value_view(*value) == JsonView::Object(all),
                    all.len() == n,
                    forall|k: int|
                        0 <= k < n ==> #[trigger] all[k] == (
                            members@[k].0@,
                            value_view(*members@[k].1),
                        ),
                    out@.len() == i,
                    forall|k: int|
                        0 <= k < i ==> (#[trigger] out@[k]).0@ == all[k].0 && out@[k].1.deep_view()
                            == all[k].1,
                decreases n - i,
            {
                assert(all[i as int].1 == value_view(*members@[i as int].1));
                assert(decreases_to!(value_view(*value) => value_view(*value)->Object_0));
                assert(decreases_to!(all => all[i as int]));
                assert(decreases_to!(all[i as int] => all[i as int].1));
                let key = members[i].0.clone();
                out.push((key, json_of_value(members[i].1)));
                i += 1;
            }
            assert(members_view(out@) =~= all);
            Json::Object(out)
        },
    }
}

/// Parses `bytes` as one JSON document.
pub(crate) fn parse_document(bytes: &[u8]) -> (r: Result<Json, String>)
    ensures
        match r {
            Ok(json) => json_document(bytes@) == Ok::<JsonView, Seq<char>>(json.deep_view()),
            Err(diagnostic) => json_document(bytes@) == Err::<JsonView, Seq<char>>(diagnostic@),
        },
{
    match parse_value(bytes) {
        Ok(value) => Ok(json_of_value(&value)),
        Err(diagnostic) => Err(diagnostic),
    }
}

/// The value of the first member of `members` whose key is `key`.
pub open spec fn lookup(members: Seq<(Seq<char>, JsonView)>, key: Seq<char>) -> Option<JsonView>
    decreases members.len(),
{
    if members.len() == 0 {
        None
    } else if members[0].0 == key {
        Some(members[0].1)
    } else {
        lookup(members.drop_first(), key)
    }
}

impl JsonView {
    /// The member `key` of an object; `None` for anything but an object
    /// that has such a member.
    pub open spec fn field(self, key: Seq<char>) -> Option<JsonView> {
        match self {
            JsonView::Object(members) => lookup(members, key),
            _ => None,
        }
    }
}

impl Json {
    /// Looks up the member `key` of an object.
    pub fn field<'a>(&'a self, key: &str) -> (r: Option<&'a Json>)
        ensures
            r.deep_view() == self.deep_view().field(key@),
    {
        match self {
            Json::Object(members) => {
                let wanted = String::from_str(key);
                let ghost all = self.deep_view()->Object_0;
                let n = members.len();
                let mut i: usize = 0;
                assert(all.skip(0) =~= all);
                while i < n
                    invariant
                        i <= n,
                        n == members@.len(),
                        wanted@ == key@,
                        self.deep_view() == JsonView::Object(all),
                        all.len() == n,
                        forall|k: int|
                            0 <= k < n ==> #[trigger] all[k] == (
                                members@[k].0@,
                                members@[k].1.deep_view(),
                            ),
                        lookup(all, key@) == lookup(all.skip(i as int), key@),
                    decreases n - i,
                {
                    let ghost rest = all.skip(i as int);
                    assert(rest[0] == all[i as int]);
                    assert(rest.drop_first() =~= all.skip(i + 1));
                    if members[i].0 == wanted {
                        return Some(&members[i].1);
                    }
                    i += 1;
                }
                assert(all.skip(n as int) =~= Seq::<(Seq<char>, JsonView)>::empty());
                None
            },
            _ => None,
        }
    }
}

/// Why a JSON value does not have the shape that a decoder asks for.
#[derive(Debug, Clone, Copy, PartialEq, Eq)]
pub enum DecodeError {
    /// An object lacks the named member.
    MissingField(&'static str),
    /// A value is of another JSON type than the one expected.
    InvalidType(&'static str),
    /// A value is of the expected JSON type but outside its range.
    InvalidValue(&'static str),
}

impl DecodeError {
    /// The diagnostic as text.
    pub open spec fn text(self) -> Seq<char> {
        match self {
            DecodeError::MissingField(name) => "missing field `"@ + name@ + "`"@,
            DecodeError::InvalidType(expected) => "invalid type: expected "@ + expected@,
            DecodeError::InvalidValue(expected) => "invalid value: expected "@ + expected@,
        }
    }

    /// Writes the diagnostic out.
    pub fn message(&self) -> (s: String)
        ensures
            s@ == self.text(),
    {
        match self {
            DecodeError::MissingField(name) => {
                let mut out = String::from_str("missing field `");
                out.append(name);
                out.append("`");
                out
            },
            DecodeError::InvalidType(expected) => {
                let mut out = String::from_str("invalid type: expected ");
                out.append(expected);
                out
            },
            DecodeError::InvalidValue(expected) => {
                let mut out = String::from_str("invalid value: expected ");
                out.append(expected);
                out
            },
        }
    }
}

/// The model of a decoder's result: the view of what was decoded, or the
/// error as it is.
pub open spec fn decoded_view<T: DeepView>(r: Result<T, DecodeError>) -> Result<T::V, DecodeError> {
    match r {
        Ok(value) => Ok(value.deep_view()),
        Err(e) => Err(e),
    }
}

/// A type that is decoded from a JSON value.
pub trait FromJson: Sized + DeepView {
    /// What `json` decodes to, or why it does not decode.
    spec fn decoded(json: JsonView) -> Result<Self::V, DecodeError>;

    /// Decodes `json`.
    fn from_json(json: &Json) -> (r: Result<Self, DecodeError>)
        ensures
            decoded_view(r) == Self::decoded(json.deep_view()),
    ;
}

/// What the member `name` of `object` decodes to; the member has to be there.
pub open spec fn required_field<T: FromJson>(object: JsonView, name: &'static str) -> Result<
    T::V,
    DecodeError,
> {
    match object.field(name@) {
        Some(value) => T::decoded(value),
        None => Err(DecodeError::MissingField(name)),
    }
}

/// What the member `name` of `object` decodes to, where it may be left out:
/// a member that is absent or `null` gives `None`.
pub open spec fn optional_field<T: FromJson>(object: JsonView, name: &'static str) -> Result<
    Option<T::V>,
    DecodeError,
> {
    match object.field(name@) {
        None => Ok(None),
        Some(JsonView::Null) => Ok(None),
        Some(value) => match T::decoded(value) {
            Ok(v) => Ok(Some(v)),
            Err(e) => Err(e),
        },
    }
}

/// Decodes the member `name` of `object`, which has to be there.
pub fn required<T: FromJson>(object: &Json, name: &'static str) -> (r: Result<T, DecodeError>)
    ensures
        decoded_view(r) == required_field::<T>(object.deep_view(), name),
{
    match object.field(name) {
        Some(value) => T::from_json(value),
        None => Err(DecodeError::MissingField(name)),
    }
}

/// Decodes the member `name` of `object`, which may be absent or `null`.
pub fn optional<T: FromJson>(object: &Json, name: &'static str) -> (r: Result<
    Option<T>,
    DecodeError,
>)
    ensures
        decoded_view(r) == optional_field::<T>(object.deep_view(), name),
{
    match object.field(name) {
        None => Ok(None),
        Some(Json::Null) => Ok(None),
        Some(value) => match T::from_json(value) {
            Ok(v) => Ok(Some(v)),
            Err(e) => Err(e),
        },
    }
}

impl FromJson for bool {
    open spec fn decoded(json: JsonView) -> Result<bool, DecodeError> {
        match json {
            JsonView::Bool(b) => Ok(b),
            _ => Err(DecodeError::InvalidType("a boolean")),
        }
    }

    fn from_json(json: &Json) -> (r: Result<bool, DecodeError>) {
        match json {
            Json::Bool(b) => Ok(*b),
            _ => Err(DecodeError::InvalidType("a boolean")),
        }
    }
}

impl FromJson for i32 {
    open spec fn decoded(json: JsonView) -> Result<i32, DecodeError> {
        match json {
            JsonView::PosInt(n) => if n <= i32::MAX {
                Ok(n as i32)
            } else {
                Err(DecodeError::InvalidValue("i32"))
            },
            JsonView::NegInt(n) => if i32::MIN <= n <= i32::MAX {
                Ok(n as i32)
            } else {
                Err(DecodeError::InvalidValue("i32"))
            },
            _ => Err(DecodeError::InvalidType("i32")),
        }
    }

    fn from_json(json: &Json) -> (r: Result<i32, DecodeError>) {
        match json {
            Json::PosInt(n) => if *n <= 2147483647 {
                Ok(*n as i32)
            } else {
                Err(DecodeError::InvalidValue("i32"))
            },
            Json::NegInt(n) => if -2147483648 <= *n && *n <= 2147483647 {
                Ok(*n as i32)
            } else {
                Err(DecodeError::InvalidValue("i32"))
            },
            _ => Err(DecodeError::InvalidType("i32")),
        }
    }
}

impl FromJson for String {
    open spec fn decoded(json: JsonView) -> Result<Seq<char>, DecodeError> {
        match json {
            JsonView::Str(s) => Ok(s),
            _ => Err(DecodeError::InvalidType("a string")),
        }
    }

    fn from_json(json: &Json) -> (r: Result<String, DecodeError>) {
        match json {
            Json::Str(s) => Ok(s.clone()),
            _ => Err(DecodeError::InvalidType("a string")),
        }
    }
}

/// What the items of an array decode to: each item's value in order, or the
/// error of the first item that does not decode.
pub open spec fn decoded_items<T: FromJson>(items: Seq<JsonView>) -> Result<Seq<T::V>, DecodeError>
    decreases items.len(),
{
    if items.len() == 0 {
        Ok(Seq::empty())
    } else {
        match T::decoded(items[0]) {
            Err(e) => Err(e),
            Ok(first) => match decoded_items::<T>(items.drop_first()) {
                Err(e) => Err(e),
                Ok(rest) => Ok(seq![first] + rest),
            },
        }
    }
}

impl<T: FromJson> FromJson for Vec<T> {
    open spec fn decoded(json: JsonView) -> Result<Seq<T::V>, DecodeError> {
        match json {
            JsonView::Array(items) => decoded_items::<T>(items),
            _ => Err(DecodeError::InvalidType("a sequence")),
        }
    }

    fn from_json(json: &Json) -> (r: Result<Vec<T>, DecodeError>) {
        match json {
            Json::Array(items) => {
                let ghost all = json.deep_view()->Array_0;
                let n = items.len();
                let mut out: Vec<T> = Vec::new();
                let mut i: usize = 0;
                assert(all.skip(0) =~= all);
                assert(out.deep_view() =~= Seq::<T::V>::empty());
                while i < n
                    invariant
                        i <= n,
                        n == items@.len(),
                        json.deep_view() == JsonView::Array(all),
                        all.len() == n,
                        forall|k: int| 0 <= k < n ==> #[trigger] all[k] == items@[k].deep_view(),
                        decoded_items::<T>(all) == match decoded_items::<T>(all.skip(i as int)) {
                            Err(e) => Err::<Seq<T::V>, DecodeError>(e),
                            Ok(rest) => Ok(out.deep_view() + rest),
                        },
                    decreases n - i,
                {
                    let ghost remaining = all.skip(i as int);
                    assert(remaining[0] == all[i as int]);
                    assert(remaining.drop_first() =~= all.skip(i + 1));
                    let ghost before = out.deep_view();
                    match T::from_json(&items[i]) {
                        Err(e) => {
                            return Err(e);
                        },
                        Ok(value) => {
                            out.push(value);
                            proof {
                                assert(out.deep_view() =~= before.push(value.deep_view()));
                                match decoded_items::<T>(all.skip(i + 1)) {
                                    Err(e) => {},
                                    Ok(rest) => {
                                        assert(before + (seq![value.deep_view()] + rest)
                                            =~= out.deep_view() + rest);
                                    },
                                }
                            }
                        },
                    }
                    i += 1;
                }
                assert(all.skip(n as int) =~= Seq::<JsonView>::empty());
                assert(out.deep_view() + Seq::<T::V>::empty() =~= out.deep_view());
                Ok(out)
            },
            _ => Err(DecodeError::InvalidType("a sequence")),
        }
    }
}

} // verus!
