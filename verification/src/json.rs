//! JSON values. A number is kept as its text, and an object as its entries in
//! their order.

use crate::text::{decimal_i64, same_text};
use crate::text;
use vstd::prelude::*;

verus! {

#[derive(Debug, PartialEq, Eq)]
pub enum JsonValue {
    Null,
    Bool(bool),
    Number(String),
    Text(String),
    List(Vec<JsonValue>),
    Object(Vec<(String, JsonValue)>),
}

/// A JSON value as mathematics has it.
pub enum JsonModel {
    Null,
    Bool(bool),
    Number(Seq<char>),
    Text(Seq<char>),
    List(Seq<JsonModel>),
    Object(Seq<(Seq<char>, JsonModel)>),
}

impl JsonModel {
    /// An object without entries.
    pub open spec fn object() -> JsonModel {
        JsonModel::Object(Seq::empty())
    }

    /// A list without items.
    pub open spec fn list() -> JsonModel {
        JsonModel::List(Seq::empty())
    }

    /// The object with one more entry at its end.
    pub open spec fn with(self, key: Seq<char>, value: JsonModel) -> JsonModel {
        match self {
            JsonModel::Object(entries) => JsonModel::Object(entries.push((key, value))),
            _ => self,
        }
    }

    /// The list with one more item at its end.
    pub open spec fn item(self, value: JsonModel) -> JsonModel {
        match self {
            JsonModel::List(items) => JsonModel::List(items.push(value)),
            _ => self,
        }
    }

    /// The value under a key, if this is an object that has the key.
    pub open spec fn get(self, key: Seq<char>) -> Option<JsonModel> {
        match self {
            JsonModel::Object(entries) => lookup(entries, key),
            _ => None,
        }
    }

    /// The first item, if this is a list that has one.
    pub open spec fn first(self) -> Option<JsonModel> {
        match self {
            JsonModel::List(items) => if items.len() > 0 {
                Some(items[0])
            } else {
                None
            },
            _ => None,
        }
    }

    /// The text under a key, if this is an object that has a text there.
    pub open spec fn text_at(self, key: Seq<char>) -> Option<Seq<char>> {
        match self.get(key) {
            Some(JsonModel::Text(s)) => Some(s),
            _ => None,
        }
    }
}

/// The value of the first entry with the key.
pub open spec fn lookup(entries: Seq<(Seq<char>, JsonModel)>, key: Seq<char>) -> Option<JsonModel>
    decreases entries.len(),
{
    if entries.len() == 0 {
        None
    } else if entries[0].0 == key {
        Some(entries[0].1)
    } else {
        lookup(entries.skip(1), key)
    }
}

/// The entries of an object with the value under a key set: in the place of the
/// first entry with the key, or at the end.
pub open spec fn updated(
    entries: Seq<(Seq<char>, JsonModel)>,
    key: Seq<char>,
    value: JsonModel,
) -> Seq<(Seq<char>, JsonModel)>
    decreases entries.len(),
{
    if entries.len() == 0 {
        seq![(key, value)]
    } else if entries[0].0 == key {
        seq![(key, value)] + entries.skip(1)
    } else {
        seq![entries[0]] + updated(entries.skip(1), key, value)
    }
}

impl JsonValue {
    pub open spec fn model(self) -> JsonModel
        decreases self,
    {
        match self {
            JsonValue::Null => JsonModel::Null,
            JsonValue::Bool(b) => JsonModel::Bool(b),
            JsonValue::Number(n) => JsonModel::Number(n@),
            JsonValue::Text(s) => JsonModel::Text(s@),
            JsonValue::List(items) => JsonModel::List(
                Seq::new(
                    items@.len(),
                    |i: int|
                        if 0 <= i < items@.len() {
                            items@[i].model()
                        } else {
                            JsonModel::Null
                        },
                ),
            ),
            JsonValue::Object(entries) => JsonModel::Object(
                Seq::new(
                    entries@.len(),
                    |i: int|
                        if 0 <= i < entries@.len() {
                            (entries@[i].0@, entries@[i].1.model())
                        } else {
                            (Seq::empty(), JsonModel::Null)
                        },
                ),
            ),
        }
    }

    /// A text.
    pub fn text(s: &str) -> (r: JsonValue)
        ensures
            r.model() == JsonModel::Text(s@),
    {
        JsonValue::Text(s.to_string())
    }

    /// A whole number.
    pub fn number(n: i64) -> (r: JsonValue)
        ensures
            r.model() == JsonModel::Number(text::decimal(n as int)),
    {
        JsonValue::Number(decimal_i64(n))
    }

    /// An object without entries.
    pub fn object() -> (r: JsonValue)
        ensures
            r.model() == JsonModel::object(),
    {
        let r = JsonValue::Object(Vec::new());
        assert(r.model()->Object_0 == Seq::<(Seq<char>, JsonModel)>::empty());
        r
    }

    /// A list without items.
    pub fn list() -> (r: JsonValue)
        ensures
            r.model() == JsonModel::list(),
    {
        let r = JsonValue::List(Vec::new());
        assert(r.model()->List_0 == Seq::<JsonModel>::empty());
        r
    }

    /// The object with one more entry at its end; another value stays as it is.
    pub fn with(self, key: &str, value: JsonValue) -> (r: JsonValue)
        ensures
            r.model() == self.model().with(key@, value.model()),
    {
        match self {
            JsonValue::Object(entries) => {
                let ghost before = JsonValue::Object(entries).model();
                let mut all = entries;
                all.push((key.to_string(), value));
                let r = JsonValue::Object(all);
                assert(r.model()->Object_0 == before->Object_0.push((key@, value.model())));
                r
            },
            other => other,
        }
    }

    /// The list with one more item at its end; another value stays as it is.
    pub fn item(self, value: JsonValue) -> (r: JsonValue)
        ensures
            r.model() == self.model().item(value.model()),
    {
        match self {
            JsonValue::List(items) => {
                let ghost before = JsonValue::List(items).model();
                let mut all = items;
                all.push(value);
                let r = JsonValue::List(all);
                assert(r.model()->List_0 == before->List_0.push(value.model()));
                r
            },
            other => other,
        }
    }

    /// The value under a key, if this is an object that has the key.
    pub fn get(&self, key: &str) -> (r: Option<&JsonValue>)
        ensures
            match r {
                Some(v) => self.model().get(key@) == Some(v.model()),
                None => self.model().get(key@) is None,
            },
    {
        match self {
            JsonValue::Object(entries) => {
                let ghost all = self.model()->Object_0;
                let mut i: usize = 0;
                assert(all.skip(0) == all);
                while i < entries.len()
                    invariant
                        i <= entries@.len(),
                        all == self.model()->Object_0,
                        *self == JsonValue::Object(*entries),
                        lookup(all, key@) == lookup(all.skip(i as int), key@),
                    decreases entries@.len() - i,
                {
                    assert(all.skip(i as int)[0] == all[i as int]);
                    assert(all[i as int] == (entries@[i as int].0@, entries@[i as int].1.model()));
                    assert(all.skip(i as int).skip(1) == all.skip(i + 1));
                    if same_text(entries[i].0.as_str(), key) {
                        return Some(&entries[i].1);
                    }
                    i += 1;
                }
                None
            },
            _ => None,
        }
    }

    /// The first item, if this is a list that has one.
    pub fn first(&self) -> (r: Option<&JsonValue>)
        ensures
            match r {
                Some(v) => self.model().first() == Some(v.model()),
                None => self.model().first() is None,
            },
    {
        match self {
            JsonValue::List(items) => {
                if items.len() > 0 {
                    assert(self.model()->List_0[0] == items@[0].model());
                    Some(&items[0])
                } else {
                    None
                }
            },
            _ => None,
        }
    }

    /// The characters of a text.
    pub fn as_str(&self) -> (r: Option<&str>)
        ensures
            match r {
                Some(s) => self.model() == JsonModel::Text(s@),
                None => !(self.model() is Text),
            },
    {
        match self {
            JsonValue::Text(s) => Some(s.as_str()),
            _ => None,
        }
    }

    /// The text under a key, if this is an object that has a text there.
    pub fn get_str(&self, key: &str) -> (r: Option<&str>)
        ensures
            match r {
                Some(s) => self.model().text_at(key@) == Some(s@),
                None => self.model().text_at(key@) is None,
            },
    {
        match self.get(key) {
            Some(v) => v.as_str(),
            None => None,
        }
    }
}

/// The place of the first entry with the key.
pub open spec fn first_place(entries: Seq<(Seq<char>, JsonModel)>, key: Seq<char>) -> Option<int>
    decreases entries.len(),
{
    if entries.len() == 0 {
        None
    } else if entries[0].0 == key {
        Some(0)
    } else {
        match first_place(entries.skip(1), key) {
            Some(i) => Some(i + 1),
            None => None,
        }
    }
}

/// What is looked up and what is set is the entry in the first place with the key.
pub proof fn lemma_place(entries: Seq<(Seq<char>, JsonModel)>, key: Seq<char>)
    ensures
        match first_place(entries, key) {
            Some(i) => 0 <= i < entries.len() && entries[i].0 == key && lookup(entries, key)
                == Some(entries[i].1) && forall|value: JsonModel| #[trigger]
                updated(entries, key, value) == entries.update(i, (key, value)),
            None => lookup(entries, key) is None && forall|value: JsonModel| #[trigger]
                updated(entries, key, value) == entries.push((key, value)),
        },
    decreases entries.len(),
{
    if entries.len() == 0 {
        assert forall|value: JsonModel| #[trigger] updated(entries, key, value) == entries.push(
            (key, value),
        ) by {
            assert(updated(entries, key, value) =~= entries.push((key, value)));
        }
    } else if entries[0].0 == key {
        assert forall|value: JsonModel| #[trigger] updated(entries, key, value) == entries.update(
            0,
            (key, value),
        ) by {
            assert(updated(entries, key, value) =~= entries.update(0, (key, value)));
        }
    } else {
        let rest = entries.skip(1);
        lemma_place(rest, key);
        match first_place(rest, key) {
            Some(i) => {
                assert forall|value: JsonModel| #[trigger]
                    updated(entries, key, value) == entries.update(i + 1, (key, value)) by {
                    assert(updated(rest, key, value) == rest.update(i, (key, value)));
                    assert(updated(entries, key, value) =~= entries.update(i + 1, (key, value)));
                }
            },
            None => {
                assert forall|value: JsonModel| #[trigger]
                    updated(entries, key, value) == entries.push((key, value)) by {
                    assert(updated(rest, key, value) == rest.push((key, value)));
                    assert(updated(entries, key, value) =~= entries.push((key, value)));
                }
            },
        }
    }
}

/// The place of the first entry with the key.
pub fn place_of(entries: &Vec<(String, JsonValue)>, key: &str) -> (r: Option<usize>)
    ensures
        match r {
            Some(i) => first_place(JsonValue::Object(*entries).model()->Object_0, key@) == Some(
                i as int,
            ) && i < entries@.len(),
            None => first_place(JsonValue::Object(*entries).model()->Object_0, key@) is None,
        },
{
    let ghost all = JsonValue::Object(*entries).model()->Object_0;
    let mut i: usize = 0;
    assert(all.skip(0) == all);
    while i < entries.len()
        invariant
            i <= entries@.len(),
            all == JsonValue::Object(*entries).model()->Object_0,
            match first_place(all.skip(i as int), key@) {
                Some(j) => first_place(all, key@) == Some(i + j),
                None => first_place(all, key@) is None,
            },
        decreases entries@.len() - i,
    {
        assert(all.skip(i as int)[0] == all[i as int]);
        assert(all[i as int] == (entries@[i as int].0@, entries@[i as int].1.model()));
        assert(all.skip(i as int).skip(1) == all.skip(i + 1));
        if same_text(entries[i].0.as_str(), key) {
            return Some(i);
        }
        i += 1;
    }
    None
}

/// The entries with the value under a key set.
pub fn set_entry(entries: Vec<(String, JsonValue)>, key: &str, value: JsonValue) -> (r: Vec<
    (String, JsonValue),
>)
    ensures
        JsonValue::Object(r).model()->Object_0 == updated(
            JsonValue::Object(entries).model()->Object_0,
            key@,
            value.model(),
        ),
{
    let ghost all = JsonValue::Object(entries).model()->Object_0;
    proof {
        lemma_place(all, key@);
    }
    let mut out = entries;
    match place_of(&out, key) {
        Some(i) => {
            out.set(i, (key.to_string(), value));
            assert(JsonValue::Object(out).model()->Object_0 =~= all.update(
                i as int,
                (key@, value.model()),
            ));
            assert(updated(all, key@, value.model()) == all.update(i as int, (key@, value.model())));
        },
        None => {
            out.push((key.to_string(), value));
            assert(JsonValue::Object(out).model()->Object_0 =~= all.push((key@, value.model())));
            assert(updated(all, key@, value.model()) == all.push((key@, value.model())));
        },
    }
    out
}

/// What is set is found: the value under the key that was set, and under every
/// other key the value that was there before.
pub proof fn law_updated_is_found(
    entries: Seq<(Seq<char>, JsonModel)>,
    key: Seq<char>,
    value: JsonModel,
    other: Seq<char>,
)
    ensures
        lookup(updated(entries, key, value), key) == Some(value),
        other != key ==> lookup(updated(entries, key, value), other) == lookup(entries, other),
    decreases entries.len(),
{
    let after = updated(entries, key, value);
    if entries.len() == 0 {
        assert(after.skip(1) == Seq::<(Seq<char>, JsonModel)>::empty());
        assert(lookup(after.skip(1), other) is None);
    } else if entries[0].0 == key {
        assert(after.skip(1) == entries.skip(1));
    } else {
        law_updated_is_found(entries.skip(1), key, value, other);
        assert(after.skip(1) == updated(entries.skip(1), key, value));
    }
}

/// An entry that is put at the end of an object is found under its key, if no entry had
/// that key before, and what stands under every other key stays.
pub proof fn law_entries_are_found(
    entries: Seq<(Seq<char>, JsonModel)>,
    key: Seq<char>,
    value: JsonModel,
    other: Seq<char>,
)
    ensures
        JsonModel::Object(entries).get(key) is None ==> JsonModel::Object(entries).with(
            key,
            value,
        ).get(key) == Some(value),
        JsonModel::Object(entries).get(key) is Some ==> JsonModel::Object(entries).with(
            key,
            value,
        ).get(key) == JsonModel::Object(entries).get(key),
        other != key ==> JsonModel::Object(entries).with(key, value).get(other)
            == JsonModel::Object(entries).get(other),
        JsonModel::Object(Seq::empty()).get(key) is None,
    decreases entries.len(),
{
    let all = entries.push((key, value));
    if entries.len() > 0 {
        let rest = entries.skip(1);
        law_entries_are_found(rest, key, value, other);
        assert(all.skip(1) =~= rest.push((key, value)));
    } else {
        assert(all.skip(1) =~= Seq::<(Seq<char>, JsonModel)>::empty());
        assert(lookup(all.skip(1), other) is None);
    }
}

/// A text under a key is read as it is; what is no text is not read as one.
pub proof fn law_texts_are_read(object: JsonModel, key: Seq<char>, s: Seq<char>)
    ensures
        object.text_at(key) == Some(s) <==> object.get(key) == Some(JsonModel::Text(s)),
{
}

} // verus!
