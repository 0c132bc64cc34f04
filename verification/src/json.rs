//! JSON values: what is read out of a response, and what a request is made of.

use crate::text::{decimal, decimal_text, str_eq};
use vstd::prelude::*;

verus! {

/// A JSON value.
#[derive(Debug)]
pub enum Json {
    Null,
    Bool(bool),
    /// A number, as it is written, and its value where that is a `u64`.
    Number { text: String, unsigned: Option<u64> },
    Text(String),
    Array(Vec<Json>),
    /// The entries of an object. Where a key stands twice, the first counts.
    Object(Vec<(String, Json)>),
}

/// What a JSON value holds.
pub enum JsonView {
    Null,
    Bool(bool),
    Number { text: Seq<char>, unsigned: Option<u64> },
    Text(Seq<char>),
    Array(Seq<JsonView>),
    Object(Seq<(Seq<char>, JsonView)>),
}

impl View for Json {
    type V = JsonView;

    open spec fn view(&self) -> JsonView
        decreases self,
    {
        match self {
            Json::Null => JsonView::Null,
            Json::Bool(b) => JsonView::Bool(*b),
            Json::Number { text, unsigned } => JsonView::Number {
                text: text@,
                unsigned: *unsigned,
            },
            Json::Text(t) => JsonView::Text(t@),
            Json::Array(items) => JsonView::Array(
                Seq::new(
                    items@.len(),
                    |i: int| if 0 <= i < items@.len() { items@[i].view() } else { JsonView::Null },
                ),
            ),
            Json::Object(entries) => JsonView::Object(
                Seq::new(
                    entries@.len(),
                    |i: int|
                        if 0 <= i < entries@.len() {
                            (entries@[i].0@, entries@[i].1.view())
                        } else {
                            (Seq::empty(), JsonView::Null)
                        },
                ),
            ),
        }
    }
}

/// What a list of JSON values holds.
pub open spec fn json_views(items: Seq<Json>) -> Seq<JsonView> {
    items.map_values(|item: Json| item@)
}

/// What the entries of an object hold.
pub open spec fn entry_views(entries: Seq<(String, Json)>) -> Seq<(Seq<char>, JsonView)> {
    entries.map_values(|entry: (String, Json)| (entry.0@, entry.1@))
}

/// What an array holds, from what its items hold.
pub proof fn lemma_array_view(items: Vec<Json>)
    ensures
        Json::Array(items)@ == JsonView::Array(json_views(items@)),
{
    reveal_with_fuel(<Json as View>::view, 2);
    assert(Json::Array(items)@->Array_0 =~= json_views(items@));
}

/// What an object holds, from what its entries hold.
pub proof fn lemma_object_view(entries: Vec<(String, Json)>)
    ensures
        Json::Object(entries)@ == JsonView::Object(entry_views(entries@)),
{
    reveal_with_fuel(<Json as View>::view, 2);
    assert(Json::Object(entries)@->Object_0 =~= entry_views(entries@));
}

/// The value at the first entry with a key.
pub open spec fn entry_of(entries: Seq<(Seq<char>, JsonView)>, key: Seq<char>) -> Option<JsonView>
    decreases entries.len(),
{
    if entries.len() == 0 {
        None
    } else if entries[0].0 == key {
        Some(entries[0].1)
    } else {
        entry_of(entries.skip(1), key)
    }
}

impl JsonView {
    /// The value at a key, where this is an object that has it.
    pub open spec fn field(self, key: Seq<char>) -> Option<JsonView> {
        match self {
            JsonView::Object(entries) => entry_of(entries, key),
            _ => None,
        }
    }

    /// The text, where this is one.
    pub open spec fn text(self) -> Option<Seq<char>> {
        match self {
            JsonView::Text(text) => Some(text),
            _ => None,
        }
    }

    /// The number, where this is one that a `u64` can hold.
    pub open spec fn unsigned(self) -> Option<u64> {
        match self {
            JsonView::Number { unsigned, .. } => unsigned,
            _ => None,
        }
    }

    /// The items, where this is an array.
    pub open spec fn items(self) -> Option<Seq<JsonView>> {
        match self {
            JsonView::Array(items) => Some(items),
            _ => None,
        }
    }

    /// The object with a value set at a key.
    pub open spec fn set(self, key: Seq<char>, value: JsonView) -> JsonView {
        JsonView::Object(with_entry(self->Object_0, key, value))
    }

    /// The text at a key.
    pub open spec fn text_at(self, key: Seq<char>) -> Option<Seq<char>> {
        match self.field(key) {
            Some(value) => value.text(),
            None => None,
        }
    }

    /// The number at a key.
    pub open spec fn unsigned_at(self, key: Seq<char>) -> Option<u64> {
        match self.field(key) {
            Some(value) => value.unsigned(),
            None => None,
        }
    }

    /// The items at a key.
    pub open spec fn items_at(self, key: Seq<char>) -> Option<Seq<JsonView>> {
        match self.field(key) {
            Some(value) => value.items(),
            None => None,
        }
    }
}

impl Json {
    /// A text.
    pub fn text(text: &str) -> (value: Json)
        ensures
            value@ == JsonView::Text(text@),
    {
        Json::Text(text.to_owned())
    }

    /// A number.
    pub fn number(n: u64) -> (value: Json)
        ensures
            value@ == (JsonView::Number { text: decimal_text(n as nat), unsigned: Some(n) }),
    {
        Json::Number { text: decimal(n), unsigned: Some(n) }
    }

    /// The value at a key, where this is an object that has it.
    pub fn get(&self, key: &str) -> (r: Option<&Json>)
        ensures
            self@.field(key@) == (match r {
                Some(value) => Some(value@),
                None => None,
            }),
    {
        match self {
            Json::Object(entries) => {
                proof {
                    lemma_object_view(*entries);
                }
                let ghost views = entry_views(entries@);
                let mut i: usize = 0;
                assert(views.skip(0) =~= views);
                while i < entries.len()
                    invariant
                        i <= entries.len(),
                        views == entry_views(entries@),
                        self@.field(key@) == entry_of(views, key@),
                        entry_of(views, key@) == entry_of(views.skip(i as int), key@),
                    decreases entries.len() - i,
                {
                    assert(views.skip(i as int)[0] == views[i as int]);
                    if str_eq(entries[i].0.as_str(), key) {
                        return Some(&entries[i].1);
                    }
                    assert(views.skip(i as int).skip(1) =~= views.skip(i + 1));
                    i += 1;
                }
                None
            },
            _ => None,
        }
    }

    /// The text, where this is one.
    pub fn as_str(&self) -> (r: Option<&str>)
        ensures
            self@.text() == (match r {
                Some(text) => Some(text@),
                None => None,
            }),
    {
        match self {
            Json::Text(text) => Some(text.as_str()),
            _ => None,
        }
    }

    /// The number, where this is one that a `u64` can hold.
    pub fn as_u64(&self) -> (r: Option<u64>)
        ensures
            r == self@.unsigned(),
    {
        match self {
            Json::Number { unsigned, .. } => *unsigned,
            _ => None,
        }
    }

    /// The items, where this is an array.
    pub fn as_array(&self) -> (r: Option<&Vec<Json>>)
        ensures
            self@.items() == (match r {
                Some(items) => Some(json_views(items@)),
                None => None,
            }),
    {
        match self {
            Json::Array(items) => {
                proof {
                    lemma_array_view(*items);
                }
                Some(items)
            },
            _ => None,
        }
    }

    /// The text at a key.
    pub fn str_at(&self, key: &str) -> (r: Option<&str>)
        ensures
            self@.text_at(key@) == (match r {
                Some(text) => Some(text@),
                None => None,
            }),
    {
        match self.get(key) {
            Some(value) => value.as_str(),
            None => None,
        }
    }

    /// The number at a key.
    pub fn u64_at(&self, key: &str) -> (r: Option<u64>)
        ensures
            r == self@.unsigned_at(key@),
    {
        match self.get(key) {
            Some(value) => value.as_u64(),
            None => None,
        }
    }

    /// The items at a key.
    pub fn array_at(&self, key: &str) -> (r: Option<&Vec<Json>>)
        ensures
            self@.items_at(key@) == (match r {
                Some(items) => Some(json_views(items@)),
                None => None,
            }),
    {
        match self.get(key) {
            Some(value) => value.as_array(),
            None => None,
        }
    }
}

/// The entries of an object with one more, or with another value where the key
/// is there.
pub open spec fn with_entry(
    entries: Seq<(Seq<char>, JsonView)>,
    key: Seq<char>,
    value: JsonView,
) -> Seq<(Seq<char>, JsonView)>
    decreases entries.len(),
{
    if entries.len() == 0 {
        seq![(key, value)]
    } else if entries[0].0 == key {
        entries.update(0, (key, value))
    } else {
        seq![entries[0]] + with_entry(entries.skip(1), key, value)
    }
}

/// Where the key is not there before, the entry comes at its first place or at
/// the end.
proof fn lemma_with_entry(
    entries: Seq<(Seq<char>, JsonView)>,
    i: int,
    key: Seq<char>,
    value: JsonView,
)
    requires
        0 <= i <= entries.len(),
        forall|j: int| 0 <= j < i ==> (#[trigger] entries[j]).0 != key,
        i < entries.len() ==> entries[i].0 == key,
    ensures
        with_entry(entries, key, value) == (if i < entries.len() {
            entries.update(i, (key, value))
        } else {
            entries.push((key, value))
        }),
    decreases i,
{
    if i > 0 {
        let rest = entries.skip(1);
        assert forall|j: int| 0 <= j < i - 1 implies (#[trigger] rest[j]).0 != key by {
            assert(rest[j] == entries[j + 1]);
        }
        lemma_with_entry(rest, i - 1, key, value);
        if i < entries.len() {
            assert(seq![entries[0]] + rest.update(i - 1, (key, value)) =~= entries.update(
                i,
                (key, value),
            ));
        } else {
            assert(seq![entries[0]] + rest.push((key, value)) =~= entries.push((key, value)));
        }
    } else if entries.len() == 0 {
        assert(entries.push((key, value)) =~= seq![(key, value)]);
    }
}

/// What is set at a key is found there, and what is at other keys stays.
pub proof fn law_set_is_found(object: JsonView, key: Seq<char>, value: JsonView, other: Seq<char>)
    requires
        object is Object,
    ensures
        object.set(key, value).field(key) == Some(value),
        other != key ==> object.set(key, value).field(other) == object.field(other),
{
    lemma_set_is_found(object->Object_0, key, value, other);
}

/// What is set at a key is found there, and what is at other keys stays.
proof fn lemma_set_is_found(
    entries: Seq<(Seq<char>, JsonView)>,
    key: Seq<char>,
    value: JsonView,
    other: Seq<char>,
)
    ensures
        entry_of(with_entry(entries, key, value), key) == Some(value),
        other != key ==> entry_of(with_entry(entries, key, value), other) == entry_of(
            entries,
            other,
        ),
    decreases entries.len(),
{
    reveal_with_fuel(entry_of, 2);
    let after = with_entry(entries, key, value);
    if entries.len() == 0 {
        assert(after.skip(1) =~= Seq::empty());
    } else if entries[0].0 == key {
        assert(after.skip(1) =~= entries.skip(1));
    } else {
        lemma_set_is_found(entries.skip(1), key, value, other);
        assert(after.skip(1) =~= with_entry(entries.skip(1), key, value));
    }
}

/// Sets the value at a key.
fn set_entry(entries: &mut Vec<(String, Json)>, key: &str, value: Json)
    ensures
        entry_views(final(entries)@) == with_entry(entry_views(old(entries)@), key@, value@),
{
    let ghost before = entries@;
    let ghost views = entry_views(before);
    let mut i: usize = 0;
    while i < entries.len()
        invariant
            i <= entries.len(),
            entries@ == before,
            before == old(entries)@,
            views == entry_views(before),
            forall|j: int| 0 <= j < i ==> (#[trigger] views[j]).0 != key@,
        decreases entries.len() - i,
    {
        if str_eq(entries[i].0.as_str(), key) {
            proof {
                lemma_with_entry(views, i as int, key@, value@);
            }
            let entry = (key.to_owned(), value);
            entries.set(i, entry);
            assert(entry_views(entries@) =~= views.update(i as int, (key@, value@)));
            return;
        }
        i += 1;
    }
    proof {
        lemma_with_entry(views, i as int, key@, value@);
    }
    let entry = (key.to_owned(), value);
    entries.push(entry);
    assert(entry_views(entries@) =~= views.push((key@, value@)));
}

impl Json {
    /// Sets the value at a key of an object.
    pub fn set(&mut self, key: &str, value: Json)
        requires
            old(self)@ is Object,
        ensures
            final(self)@ == old(self)@.set(key@, value@),
    {
        proof {
            lemma_object_view((*self)->Object_0);
        }
        match self {
            Json::Object(entries) => {
                set_entry(entries, key, value);
            },
            _ => {},
        }
        proof {
            lemma_object_view((*self)->Object_0);
        }
    }
}

/// `serde_json::Value`, a JSON value as `serde_json` holds it.
#[verifier::external_type_specification]
#[verifier::external_body]
pub struct ExValue(serde_json::Value);

/// What a `serde_json::Value` holds: its own variants and their fields, the
/// entries of an object in the order in which its map gives them.
pub uninterp spec fn value_content(value: serde_json::Value) -> JsonView;

/// The JSON value that a text denotes, or none where it is not JSON.
pub uninterp spec fn json_of_text(text: Seq<char>) -> Option<JsonView>;

/// `serde_json::from_str`, read as a `serde_json::Value`: the value that the
/// text denotes, or nothing where the text is not JSON. Which texts are JSON
/// and what they denote is named and not written out.
#[verifier::external_body]
fn value_from_text(text: &str) -> (r: Option<serde_json::Value>)
    ensures
        json_of_text(text@) == (match r {
            Some(value) => Some(value_content(value)),
            None => None,
        }),
{
    serde_json::from_str::<serde_json::Value>(text).ok()
}

/// One level of a `serde_json::Value`.
enum ValueParts<'a> {
    Null,
    Bool(bool),
    Number { text: String, unsigned: Option<u64> },
    Text(&'a str),
    Array(&'a Vec<serde_json::Value>),
    Object(Vec<(&'a String, &'a serde_json::Value)>),
}

/// What one level of a value holds, from what the values below it hold.
spec fn parts_content(parts: ValueParts<'_>) -> JsonView {
    match parts {
        ValueParts::Null => JsonView::Null,
        ValueParts::Bool(b) => JsonView::Bool(b),
        ValueParts::Number { text, unsigned } => JsonView::Number { text: text@, unsigned },
        ValueParts::Text(text) => JsonView::Text(text@),
        ValueParts::Array(items) => JsonView::Array(
            items@.map_values(|item: serde_json::Value| value_content(item)),
        ),
        ValueParts::Object(entries) => JsonView::Object(
            entries@.map_values(
                |entry: (&String, &serde_json::Value)| (entry.0@, value_content(*entry.1)),
            ),
        ),
    }
}

/// The variants of `serde_json::Value` and their fields. A `serde_json::Number`
/// is taken as what its `Display` writes and what its `as_u64` gives, a
/// `serde_json::Map` as what its `iter` gives.
#[verifier::external_body]
fn value_parts(value: &serde_json::Value) -> (parts: ValueParts<'_>)
    ensures
        parts_content(parts) == value_content(*value),
{
    match value {
        serde_json::Value::Null => ValueParts::Null,
        serde_json::Value::Bool(b) => ValueParts::Bool(*b),
        serde_json::Value::Number(n) => ValueParts::Number {
            text: n.to_string(),
            unsigned: n.as_u64(),
        },
        serde_json::Value::String(text) => ValueParts::Text(text),
        serde_json::Value::Array(items) => ValueParts::Array(items),
        serde_json::Value::Object(map) => ValueParts::Object(map.iter().collect()),
    }
}

/// A JSON value as the library holds it.
pub fn json_from_value(value: &serde_json::Value) -> (r: Json)
    ensures
        r@ == value_content(*value),
    decreases value_content(*value),
{
    match value_parts(value) {
        ValueParts::Null => Json::Null,
        ValueParts::Bool(b) => Json::Bool(b),
        ValueParts::Number { text, unsigned } => Json::Number { text, unsigned },
        ValueParts::Text(text) => Json::text(text),
        ValueParts::Array(items) => {
            let ghost contents = value_content(*value)->Array_0;
            let mut array: Vec<Json> = Vec::new();
            let mut i: usize = 0;
            while i < items.len()
                invariant
                    i <= items.len(),
                    array@.len() == i,
                    contents == items@.map_values(|item: serde_json::Value| value_content(item)),
                    value_content(*value) == JsonView::Array(contents),
                    forall|j: int| 0 <= j < i ==> (#[trigger] array@[j])@ == contents[j],
                decreases items.len() - i,
            {
                assert(value_content(items@[i as int]) == contents[i as int]);
                proof {
                    let whole = value_content(*value);
                    assert(decreases_to!(whole => whole->Array_0[i as int]));
                }
                array.push(json_from_value(&items[i]));
                i += 1;
            }
            proof {
                lemma_array_view(array);
                assert(json_views(array@) =~= contents);
            }
            Json::Array(array)
        },
        ValueParts::Object(entries) => {
            let ghost contents = value_content(*value)->Object_0;
            let mut object: Vec<(String, Json)> = Vec::new();
            let mut i: usize = 0;
            while i < entries.len()
                invariant
                    i <= entries.len(),
                    object@.len() == i,
                    contents == entries@.map_values(
                        |entry: (&String, &serde_json::Value)| (entry.0@, value_content(*entry.1)),
                    ),
                    value_content(*value) == JsonView::Object(contents),
                    forall|j: int|
                        0 <= j < i ==> ((#[trigger] object@[j]).0@, object@[j].1@) == contents[j],
                decreases entries.len() - i,
            {
                assert((entries@[i as int].0@, value_content(*entries@[i as int].1))
                    == contents[i as int]);
                proof {
                    let whole = value_content(*value);
                    assert(decreases_to!(whole => whole->Object_0[i as int].1));
                }
                let item = json_from_value(entries[i].1);
                object.push((entries[i].0.clone(), item));
                i += 1;
            }
            proof {
                lemma_object_view(object);
                assert(entry_views(object@) =~= contents);
            }
            Json::Object(object)
        },
    }
}

/// The JSON value that a text denotes, or none where it is not JSON.
pub fn parse_json(text: &str) -> (r: Option<Json>)
    ensures
        json_of_text(text@) == (match r {
            Some(value) => Some(value@),
            None => None,
        }),
{
    match value_from_text(text) {
        Some(value) => Some(json_from_value(&value)),
        None => None,
    }
}

/// The value at a key is that of the first entry with the key, whatever stands
/// before it under other keys and whatever after it; where no entry has the
/// key, there is none.
pub proof fn law_first_entry_counts(
    before: Seq<(Seq<char>, JsonView)>,
    key: Seq<char>,
    value: JsonView,
    after: Seq<(Seq<char>, JsonView)>,
)
    requires
        forall|i: int| 0 <= i < before.len() ==> (#[trigger] before[i]).0 != key,
    ensures
        JsonView::Object(before.push((key, value)) + after).field(key) == Some(value),
        JsonView::Object(before).field(key) is None,
    decreases before.len(),
{
    let entries = before.push((key, value)) + after;
    if before.len() > 0 {
        let rest = before.skip(1);
        assert forall|i: int| 0 <= i < rest.len() implies (#[trigger] rest[i]).0 != key by {
            assert(rest[i] == before[i + 1]);
        }
        law_first_entry_counts(rest, key, value, after);
        assert(entries.skip(1) =~= rest.push((key, value)) + after);
    }
}

/// What is read out of a value is what it holds, where it is of the kind that
/// is asked for, and nothing where it is of another.
pub proof fn law_values_are_read_as_they_are(
    text: Seq<char>,
    number: Option<u64>,
    items: Seq<JsonView>,
    entries: Seq<(Seq<char>, JsonView)>,
    b: bool,
)
    ensures
        JsonView::Text(text).text() == Some(text),
        (JsonView::Number { text, unsigned: number }).unsigned() == number,
        JsonView::Array(items).items() == Some(items),
        JsonView::Null.text() is None && JsonView::Bool(b).text() is None,
        (JsonView::Number { text, unsigned: number }).text() is None,
        JsonView::Array(items).text() is None && JsonView::Object(entries).text() is None,
        JsonView::Text(text).items() is None && JsonView::Object(entries).items() is None,
        JsonView::Text(text).unsigned() is None && JsonView::Null.unsigned() is None,
        JsonView::Text(text).field(text) is None && JsonView::Array(items).field(text) is None,
{
}

/// JSON values show all that they hold, as it is: arrays and objects each of
/// their items, in their order.
pub proof fn law_values_show_what_they_hold(
    text: String,
    number: Option<u64>,
    b: bool,
    items: Vec<Json>,
    entries: Vec<(String, Json)>,
    i: int,
)
    ensures
        Json::Null@ == JsonView::Null,
        Json::Bool(b)@ == JsonView::Bool(b),
        (Json::Number { text, unsigned: number })@ == (JsonView::Number {
            text: text@,
            unsigned: number,
        }),
        Json::Text(text)@ == JsonView::Text(text@),
        Json::Array(items)@ matches JsonView::Array(held) && held.len() == items@.len() && (0 <= i
            < items@.len() ==> held[i] == items@[i]@),
        Json::Object(entries)@ matches JsonView::Object(held) && held.len() == entries@.len() && (0
            <= i < entries@.len() ==> held[i] == (entries@[i].0@, entries@[i].1@)),
        json_views(items@).len() == items@.len(),
        0 <= i < items@.len() ==> json_views(items@)[i] == items@[i]@,
{
    lemma_array_view(items);
    lemma_object_view(entries);
}

} // verus!
