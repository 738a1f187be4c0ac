//! JSON documents, as far as the pipeline reads them.

use crate::text::same_text;
use vstd::prelude::*;
use vstd::string::*;

verus! {

/// A JSON value.
#[derive(Debug)]
pub enum Json {
    Null,
    Bool(bool),
    /// A number, as its decimal text.
    Number(String),
    Text(String),
    Array(Vec<Json>),
    /// An object: its members as pairs of name and value.
    Object(Vec<(String, Json)>),
}

/// The mathematical value of a [`Json`].
pub enum JsonView {
    Null,
    Bool(bool),
    Number(Seq<char>),
    Text(Seq<char>),
    Array(Seq<JsonView>),
    Object(Seq<(Seq<char>, JsonView)>),
}

impl Json {
    /// The mathematical value of the document.
    pub open spec fn value(self) -> JsonView
        decreases self,
    {
        match self {
            Json::Null => JsonView::Null,
            Json::Bool(b) => JsonView::Bool(b),
            Json::Number(text) => JsonView::Number(text@),
            Json::Text(text) => JsonView::Text(text@),
            Json::Array(items) => JsonView::Array(
                Seq::new(
                    items@.len(),
                    |i: int|
                        if 0 <= i < items@.len() {
                            items@[i].value()
                        } else {
                            JsonView::Null
                        },
                ),
            ),
            Json::Object(members) => JsonView::Object(
                Seq::new(
                    members@.len(),
                    |i: int|
                        if 0 <= i < members@.len() {
                            (members@[i].0@, members@[i].1.value())
                        } else {
                            (Seq::empty(), JsonView::Null)
                        },
                ),
            ),
        }
    }
}

impl View for Json {
    type V = JsonView;

    open spec fn view(&self) -> JsonView {
        self.value()
    }
}

/// What `serde_json::from_str` makes of a text: the document that it
/// reads, or, for a text that it rejects, its complaint in the words that
/// the error shows.
pub uninterp spec fn parsed_json(text: Seq<char>) -> Result<JsonView, Seq<char>>;

/// The value of what parsing gave.
pub open spec fn parsed_view(parsed: Result<Json, String>) -> Result<JsonView, Seq<char>> {
    match parsed {
        Ok(doc) => Ok(doc@),
        Err(complaint) => Err(complaint@),
    }
}

/// A `serde_json::Value` on its way into a [`Json`].
#[verifier::external_body]
struct RawJson {
    value: serde_json::Value,
}

/// Moves a `serde_json::Value` into a [`Json`], variant by variant: a
/// number goes over as its text, a map as its entries in the map's order.
/// Nothing is claimed of the result here; see [`parsed_json`].
#[verifier::external_body]
fn json_from_raw(raw: RawJson) -> (doc: Json) {
    match raw.value {
        serde_json::Value::Null => Json::Null,
        serde_json::Value::Bool(b) => Json::Bool(b),
        serde_json::Value::Number(n) => Json::Number(n.to_string()),
        serde_json::Value::String(s) => Json::Text(s),
        serde_json::Value::Array(items) => Json::Array(
            items.into_iter().map(|value| json_from_raw(RawJson { value })).collect(),
        ),
        serde_json::Value::Object(members) => Json::Object(
            members.into_iter().map(|(k, value)| (k, json_from_raw(RawJson { value }))).collect(),
        ),
    }
}

/// Calls `serde_json::from_str` for a `serde_json::Value` and moves the
/// value into a [`Json`]; an error goes over as the text that it shows.
/// What comes back depends on the text alone.
#[verifier::external_body]
fn parse_value(text: &str) -> (parsed: Result<Json, String>)
    ensures
        parsed_view(parsed) == parsed_json(text@),
{
    match serde_json::from_str::<serde_json::Value>(text) {
        Ok(value) => Ok(json_from_raw(RawJson { value })),
        Err(error) => Err(error.to_string()),
    }
}

/// The value of the first of `members`, from index `from` on, that is
/// named `name`.
pub open spec fn lookup(
    members: Seq<(Seq<char>, JsonView)>,
    name: Seq<char>,
    from: int,
) -> Option<JsonView>
    decreases members.len() - from,
{
    if from < 0 || from >= members.len() {
        None
    } else if members[from].0 == name {
        Some(members[from].1)
    } else {
        lookup(members, name, from + 1)
    }
}

impl JsonView {
    /// The member named `name`, if this is an object that has one; of
    /// several members of that name, the first.
    pub open spec fn member(self, name: Seq<char>) -> Option<JsonView> {
        match self {
            JsonView::Object(members) => lookup(members, name, 0),
            _ => None,
        }
    }

    /// The items, if this is an array.
    pub open spec fn items(self) -> Option<Seq<JsonView>> {
        match self {
            JsonView::Array(items) => Some(items),
            _ => None,
        }
    }

    /// The text, if this is a string.
    pub open spec fn text(self) -> Option<Seq<char>> {
        match self {
            JsonView::Text(text) => Some(text),
            _ => None,
        }
    }
}

/// The values of a list of documents.
pub open spec fn items_view(items: Seq<Json>) -> Seq<JsonView> {
    Seq::new(items.len(), |i: int| items[i]@)
}

impl Json {
    /// The member named `name`, if this is an object that has one; of
    /// several members of that name, the first.
    pub fn get(&self, name: &str) -> (found: Option<&Json>)
        ensures
            match found {
                Some(value) => self@.member(name@) == Some(value@),
                None => self@.member(name@) is None,
            },
    {
        match self {
            Json::Object(members) => {
                let ghost listed = self@->Object_0;
                let mut i: usize = 0;
                while i < members.len()
                    invariant
                        i <= members.len(),
                        listed.len() == members@.len(),
                        forall|j: int|
                            0 <= j < members@.len() ==> #[trigger] listed[j] == (
                                members@[j].0@,
                                members@[j].1@,
                            ),
                        self@.member(name@) == lookup(listed, name@, i as int),
                    decreases members.len() - i,
                {
                    if same_text(members[i].0.as_str(), name) {
                        return Some(&members[i].1);
                    }
                    i = i + 1;
                }
                None
            },
            _ => None,
        }
    }

    /// The items, if this is an array.
    pub fn as_array(&self) -> (found: Option<&Vec<Json>>)
        ensures
            match found {
                Some(items) => self@.items() == Some(items_view(items@)),
                None => self@.items() is None,
            },
    {
        match self {
            Json::Array(items) => {
                assert(self@->Array_0 =~= items_view(items@));
                Some(items)
            },
            _ => None,
        }
    }

    /// The text, if this is a string.
    pub fn as_str(&self) -> (found: Option<&str>)
        ensures
            match found {
                Some(text) => self@.text() == Some(text@),
                None => self@.text() is None,
            },
    {
        match self {
            Json::Text(text) => Some(text.as_str()),
            _ => None,
        }
    }
}

/// Reads `text` as a JSON document. A text that is not JSON gives the
/// parser's complaint.
pub fn parse_json(text: &str) -> (parsed: Result<Json, String>)
    ensures
        parsed_view(parsed) == parsed_json(text@),
{
    parse_value(text)
}

} // verus!
