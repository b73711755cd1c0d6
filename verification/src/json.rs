//! A model of JSON documents. `serde_json` reads and writes them.

use vstd::prelude::*;
use vstd::string::*;

verus! {

/// A JSON document.
#[derive(Debug, PartialEq, Eq)]
pub enum Json {
    Null,
    Bool(bool),
    /// A number; `None` stands for one that no `i64` holds.
    Number(Option<i64>),
    Text(String),
    Array(Vec<Json>),
    /// The members of an object, in the order in which they are written.
    Object(Vec<(String, Json)>),
}

/// What a `Json` document holds, as mathematical values.
pub enum JsonView {
    Null,
    Bool(bool),
    Number(Option<int>),
    Text(Seq<char>),
    Array(Seq<JsonView>),
    Object(Seq<(Seq<char>, JsonView)>),
}

impl Json {
    /// What the document holds.
    pub open spec fn content(self) -> JsonView
        decreases self,
    {
        match self {
            Json::Null => JsonView::Null,
            Json::Bool(b) => JsonView::Bool(b),
            Json::Number(n) => JsonView::Number(
                match n {
                    Some(i) => Some(i as int),
                    None => None,
                },
            ),
            Json::Text(s) => JsonView::Text(s@),
            Json::Array(items) => JsonView::Array(
                Seq::new(
                    items@.len(),
                    |i: int|
                        if 0 <= i < items@.len() {
                            items@[i].content()
                        } else {
                            JsonView::Null
                        },
                ),
            ),
            Json::Object(members) => JsonView::Object(
                Seq::new(
                    members@.len(),
                    |i: int|
                        if 0 <= i < members@.len() {
                            (members@[i].0@, members@[i].1.content())
                        } else {
                            (Seq::empty(), JsonView::Null)
                        },
                ),
            ),
        }
    }
}

impl View for Json {
    type V = JsonView;

    open spec fn view(&self) -> JsonView {
        self.content()
    }
}

/// No two members carry the same key.
pub open spec fn distinct_keys(members: Seq<(Seq<char>, JsonView)>) -> bool {
    forall|i: int, j: int|
        0 <= i < j < members.len() ==> (#[trigger] members[i]).0 != (#[trigger] members[j]).0
}

/// The value under `key` among the members from index `from` on: that of the
/// first member with this key.
pub open spec fn lookup(members: Seq<(Seq<char>, JsonView)>, key: Seq<char>, from: int) -> Option<
    JsonView,
>
    decreases members.len() - from,
{
    if from < 0 || from >= members.len() {
        None
    } else if members[from].0 == key {
        Some(members[from].1)
    } else {
        lookup(members, key, from + 1)
    }
}

impl JsonView {
    /// Every number is an integer, and no object names a member twice. Such
    /// a document can be written out.
    pub open spec fn well_formed(self) -> bool
        decreases self,
    {
        match self {
            JsonView::Number(n) => n is Some,
            JsonView::Array(items) => forall|i: int|
                0 <= i < items.len() ==> (#[trigger] items[i]).well_formed(),
            JsonView::Object(members) => {
                &&& forall|i: int|
                    0 <= i < members.len() ==> (#[trigger] members[i]).1.well_formed()
                &&& distinct_keys(members)
            },
            _ => true,
        }
    }

    /// The member of an object under `key`; `None` for a document that is no
    /// object or has no such member.
    pub open spec fn member(self, key: Seq<char>) -> Option<JsonView> {
        match self {
            JsonView::Object(members) => lookup(members, key, 0),
            _ => None,
        }
    }

    /// The integer that the document is, if it is one.
    pub open spec fn integer(self) -> Option<int> {
        match self {
            JsonView::Number(Some(i)) => Some(i),
            _ => None,
        }
    }

    /// The text that the document is, if it is one.
    pub open spec fn text(self) -> Option<Seq<char>> {
        match self {
            JsonView::Text(s) => Some(s),
            _ => None,
        }
    }

    /// The truth value that the document is, if it is one.
    pub open spec fn boolean(self) -> Option<bool> {
        match self {
            JsonView::Bool(b) => Some(b),
            _ => None,
        }
    }

    /// The items of the array that the document is, if it is one.
    pub open spec fn items(self) -> Option<Seq<JsonView>> {
        match self {
            JsonView::Array(items) => Some(items),
            _ => None,
        }
    }

    /// The integer under `key`, if the document is an object with such a member.
    pub open spec fn integer_at(self, key: Seq<char>) -> Option<int> {
        match self.member(key) {
            Some(value) => value.integer(),
            None => None,
        }
    }

    /// The text under `key`, if the document is an object with such a member.
    pub open spec fn text_at(self, key: Seq<char>) -> Option<Seq<char>> {
        match self.member(key) {
            Some(value) => value.text(),
            None => None,
        }
    }

    /// The truth value under `key`, if the document is an object with such a member.
    pub open spec fn boolean_at(self, key: Seq<char>) -> Option<bool> {
        match self.member(key) {
            Some(value) => value.boolean(),
            None => None,
        }
    }
}

/// The views of the documents in `items`, in order.
pub open spec fn views(items: Seq<Json>) -> Seq<JsonView> {
    Seq::new(items.len(), |i: int| items[i]@)
}

/// The views of the members in `members`, in order.
pub open spec fn member_views(members: Seq<(String, Json)>) -> Seq<(Seq<char>, JsonView)> {
    Seq::new(members.len(), |i: int| (members[i].0@, members[i].1@))
}

/// An array holds the views of its items.
pub proof fn lemma_array_view(items: Vec<Json>)
    ensures
        Json::Array(items)@ == JsonView::Array(views(items@)),
{
    assert(Json::Array(items)@->Array_0 =~= views(items@));
}

/// An object holds the views of its members.
pub proof fn lemma_object_view(members: Vec<(String, Json)>)
    ensures
        Json::Object(members)@ == JsonView::Object(member_views(members@)),
{
    assert(Json::Object(members)@->Object_0 =~= member_views(members@));
}

impl Json {
    /// The member of an object under `key`.
    pub fn get(&self, key: &str) -> (r: Option<&Json>)
        ensures
            match r {
                Some(found) => self@.member(key@) == Some(found@),
                None => self@.member(key@) is None,
            },
    {
        match self {
            Json::Object(members) => {
                let wanted = String::from_str(key);
                let ghost all = member_views(members@);
                proof {
                    lemma_object_view(*members);
                }
                let mut i: usize = 0;
                while i < members.len()
                    invariant
                        i <= members.len(),
                        wanted@ == key@,
                        self@ == JsonView::Object(all),
                        all.len() == members@.len(),
                        forall|k: int|
                            0 <= k < members@.len() ==> all[k] == (
                                members@[k].0@,
                                members@[k].1@,
                            ),
                        lookup(all, key@, 0) == lookup(all, key@, i as int),
                    decreases members.len() - i,
                {
                    if members[i].0 == wanted {
                        return Some(&members[i].1);
                    }
                    i += 1;
                }
                None
            },
            _ => None,
        }
    }

    /// The integer that the document is, if it is one.
    pub fn as_i64(&self) -> (r: Option<i64>)
        ensures
            match r {
                Some(i) => self@.integer() == Some(i as int),
                None => self@.integer() is None,
            },
    {
        match self {
            Json::Number(Some(i)) => Some(*i),
            _ => None,
        }
    }

    /// The text that the document is, if it is one.
    pub fn as_text(&self) -> (r: Option<&String>)
        ensures
            match r {
                Some(s) => self@.text() == Some(s@),
                None => self@.text() is None,
            },
    {
        match self {
            Json::Text(s) => Some(s),
            _ => None,
        }
    }

    /// The truth value that the document is, if it is one.
    pub fn as_bool(&self) -> (r: Option<bool>)
        ensures
            r == self@.boolean(),
    {
        match self {
            Json::Bool(b) => Some(*b),
            _ => None,
        }
    }

    /// The integer under `key`, if the document is an object with such a member.
    pub fn integer_at(&self, key: &str) -> (r: Option<i64>)
        ensures
            match r {
                Some(i) => self@.integer_at(key@) == Some(i as int),
                None => self@.integer_at(key@) is None,
            },
    {
        match self.get(key) {
            Some(value) => value.as_i64(),
            None => None,
        }
    }

    /// The text under `key`, if the document is an object with such a member.
    pub fn text_at(&self, key: &str) -> (r: Option<String>)
        ensures
            r.deep_view() == self@.text_at(key@),
    {
        match self.get(key) {
            Some(value) => match value.as_text() {
                Some(text) => Some(text.clone()),
                None => None,
            },
            None => None,
        }
    }

    /// The truth value under `key`, if the document is an object with such a member.
    pub fn boolean_at(&self, key: &str) -> (r: Option<bool>)
        ensures
            r == self@.boolean_at(key@),
    {
        match self.get(key) {
            Some(value) => value.as_bool(),
            None => None,
        }
    }

    /// A document that is the text `s`.
    pub fn text(s: &str) -> (r: Json)
        ensures
            r@ == JsonView::Text(s@),
    {
        Json::Text(String::from_str(s))
    }

    /// A document that is the integer `i`.
    pub fn integer(i: i64) -> (r: Json)
        ensures
            r@ == JsonView::Number(Some(i as int)),
    {
        Json::Number(Some(i))
    }

    /// An object with the given members, in their order.
    pub fn object(members: Vec<(String, Json)>) -> (r: Json)
        ensures
            r@ == JsonView::Object(member_views(members@)),
    {
        proof {
            lemma_object_view(members);
        }
        Json::Object(members)
    }

    /// An array with the given items, in their order.
    pub fn array(items: Vec<Json>) -> (r: Json)
        ensures
            r@ == JsonView::Array(views(items@)),
    {
        proof {
            lemma_array_view(items);
        }
        Json::Array(items)
    }

    /// The member that carries `value` under `key`.
    pub fn entry(key: &str, value: Json) -> (r: (String, Json))
        ensures
            r.0@ == key@,
            r.1@ == value@,
    {
        (String::from_str(key), value)
    }

    /// Tells whether the document can be written out: every number in it is
    /// an integer, and no object in it names a member twice.
    pub fn is_well_formed(&self) -> (r: bool)
        ensures
            r == self@.well_formed(),
        decreases self,
    {
        match self {
            Json::Number(n) => n.is_some(),
            Json::Array(items) => {
                proof {
                    lemma_array_view(*items);
                }
                let mut i: usize = 0;
                while i < items.len()
                    invariant
                        i <= items.len(),
                        *self == Json::Array(*items),
                        self@ == JsonView::Array(views(items@)),
                        forall|k: int| 0 <= k < i ==> (#[trigger] items@[k])@.well_formed(),
                    decreases items.len() - i,
                {
                    if !items[i].is_well_formed() {
                        proof {
                            let held = self@->Array_0;
                            assert(!(#[trigger] held[i as int]).well_formed());
                        }
                        return false;
                    }
                    i += 1;
                }
                true
            },
            Json::Object(members) => {
                proof {
                    lemma_object_view(*members);
                }
                let ghost all = member_views(members@);
                let mut i: usize = 0;
                while i < members.len()
                    invariant
                        i <= members.len(),
                        *self == Json::Object(*members),
                        self@ == JsonView::Object(all),
                        all == member_views(members@),
                        forall|k: int| 0 <= k < i ==> (#[trigger] all[k]).1.well_formed(),
                        forall|k: int, l: int| 0 <= k < l < i ==> (#[trigger] all[k]).0 != (
                        #[trigger] all[l]).0,
                    decreases members.len() - i,
                {
                    if !members[i].1.is_well_formed() {
                        assert(!all[i as int].1.well_formed());
                        return false;
                    }
                    let mut j: usize = 0;
                    while j < i
                        invariant
                            j <= i < members.len(),
                            self@ == JsonView::Object(all),
                            all == member_views(members@),
                            forall|k: int| 0 <= k < j ==> (#[trigger] all[k]).0 != all[i as int].0,
                        decreases i - j,
                    {
                        if members[j].0 == members[i].0 {
                            assert(all[j as int].0 == all[i as int].0);
                            return false;
                        }
                        j += 1;
                    }
                    i += 1;
                }
                true
            },
            _ => true,
        }
    }

    /// The items of the array that the document is, if it is one.
    pub fn as_array(&self) -> (r: Option<&Vec<Json>>)
        ensures
            match r {
                Some(items) => self@.items() == Some(views(items@)),
                None => self@.items() is None,
            },
    {
        match self {
            Json::Array(items) => {
                Some(items)
            },
            _ => None,
        }
    }
}

/// Makes `serde_json::Value` known as a type, with nothing said of what is
/// inside a value of it.
#[verifier::external_type_specification]
#[verifier::external_body]
pub struct ExValue(serde_json::Value);

/// The document that a `serde_json::Value` holds.
pub uninterp spec fn document(value: serde_json::Value) -> JsonView;

/// What `serde_json::from_slice` reads from `bytes` as a `Value`; `None` where
/// it reports an error.
pub uninterp spec fn parsed(bytes: Seq<u8>) -> Option<JsonView>;

/// What `serde_json::to_string` writes for a `Value` holding `doc`; `None`
/// where it reports an error.
pub uninterp spec fn compact_text(doc: JsonView) -> Option<Seq<char>>;

/// What `serde_json::to_string_pretty` writes for a `Value` holding `doc`;
/// `None` where it reports an error.
pub uninterp spec fn pretty_text(doc: JsonView) -> Option<Seq<char>>;

/// Calls `serde_json::from_slice` for a `Value`. The contract claims only that
/// the outcome is a function of the bytes: a `Value` holding `parsed(bytes)`,
/// or nothing where `serde_json` reports an error.
#[verifier::external_body]
fn value_from_slice(bytes: &[u8]) -> (r: Option<serde_json::Value>)
    ensures
        match r {
            Some(value) => parsed(bytes@) == Some(document(value)),
            None => parsed(bytes@) is None,
        },
{
    serde_json::from_slice::<serde_json::Value>(bytes).ok()
}

/// Copies a `serde_json::Value` into a `Json`, variant by variant. A number
/// becomes what `Number::as_i64` returns, an object its entries in the order of
/// `Map::iter`. The contract names the copy as the document that the value
/// holds.
#[verifier::external_body]
fn json_from_value(value: &serde_json::Value) -> (r: Json)
    ensures
        r@ == document(*value),
{
    match value {
        serde_json::Value::Null => Json::Null,
        serde_json::Value::Bool(b) => Json::Bool(*b),
        serde_json::Value::Number(n) => Json::Number(n.as_i64()),
        serde_json::Value::String(s) => Json::Text(s.clone()),
        serde_json::Value::Array(items) => Json::Array(items.iter().map(json_from_value).collect()),
        serde_json::Value::Object(map) => Json::Object(
            map.iter().map(|(k, v)| (k.clone(), json_from_value(v))).collect(),
        ),
    }
}

/// Builds a `serde_json::Value` from a `Json`, variant by variant: a number
/// with `Value::from`, an object by collecting its members into a `Map` in
/// their order. The contract claims that the value holds the same document;
/// it asks for a well-formed one, since `Value::from` makes a null of a
/// number without a value and a `Map` keeps one entry per key.
#[verifier::external_body]
fn value_from_json(doc: &Json) -> (r: serde_json::Value)
    requires
        doc@.well_formed(),
    ensures
        document(r) == doc@,
{
    match doc {
        Json::Null => serde_json::Value::Null,
        Json::Bool(b) => serde_json::Value::Bool(*b),
        Json::Number(n) => serde_json::Value::from(*n),
        Json::Text(s) => serde_json::Value::String(s.clone()),
        Json::Array(items) => serde_json::Value::Array(items.iter().map(value_from_json).collect()),
        Json::Object(members) => serde_json::Value::Object(
            members.iter().map(|m| (m.0.clone(), value_from_json(&m.1))).collect(),
        ),
    }
}

/// Calls `serde_json::to_string`. The contract claims only that the outcome is
/// a function of the document that the value holds, which is so for a
/// well-formed one: it then fixes the value.
#[verifier::external_body]
fn value_to_string(value: &serde_json::Value) -> (r: Option<String>)
    requires
        document(*value).well_formed(),
    ensures
        match r {
            Some(text) => compact_text(document(*value)) == Some(text@),
            None => compact_text(document(*value)) is None,
        },
{
    serde_json::to_string(value).ok()
}

/// Calls `serde_json::to_string_pretty`. The contract claims only that the
/// outcome is a function of the document that the value holds, which is so
/// for a well-formed one: it then fixes the value.
#[verifier::external_body]
fn value_to_string_pretty(value: &serde_json::Value) -> (r: Option<String>)
    requires
        document(*value).well_formed(),
    ensures
        match r {
            Some(text) => pretty_text(document(*value)) == Some(text@),
            None => pretty_text(document(*value)) is None,
        },
{
    serde_json::to_string_pretty(value).ok()
}

/// Reads a document from JSON text in UTF-8.
pub fn parse(bytes: &[u8]) -> (r: Option<Json>)
    ensures
        match r {
            Some(doc) => parsed(bytes@) == Some(doc@),
            None => parsed(bytes@) is None,
        },
{
    match value_from_slice(bytes) {
        Some(value) => Some(json_from_value(&value)),
        None => None,
    }
}

/// Writes a document as JSON text on one line.
pub fn compact(doc: &Json) -> (r: Option<String>)
    requires
        doc@.well_formed(),
    ensures
        match r {
            Some(text) => compact_text(doc@) == Some(text@),
            None => compact_text(doc@) is None,
        },
{
    let value = value_from_json(doc);
    value_to_string(&value)
}

/// Writes a document as indented JSON text.
pub fn pretty(doc: &Json) -> (r: Option<String>)
    requires
        doc@.well_formed(),
    ensures
        match r {
            Some(text) => pretty_text(doc@) == Some(text@),
            None => pretty_text(doc@) is None,
        },
{
    let value = value_from_json(doc);
    value_to_string_pretty(&value)
}

} // verus!
