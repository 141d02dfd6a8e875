//! JSON documents: the tree that a message is turned into before it is
//! written out, and that a server's answer is read from.
//!
//! The tree is the library's own. Writing a tree as JSON text and reading JSON
//! text into a tree is the work of `serde_json`, reached through the few
//! trusted functions at the end of this file.

use crate::utils::error::Error;
use vstd::prelude::*;

verus! {

/// A JSON number as `serde_json` holds it. The library never looks inside
/// one, except to read an unsigned integer from it.
#[verifier::external_type_specification]
#[verifier::external_body]
pub struct OutsideNumber(serde_json::Number);

/// A JSON value as `serde_json` holds it.
#[verifier::external_type_specification]
#[verifier::external_body]
pub struct OutsideValue(serde_json::Value);

/// A JSON document.
///
/// An object is kept as the list of its entries in the order in which they
/// were added. Where a key occurs more than once the last entry counts.
#[derive(Debug)]
pub enum Json {
    Null,
    Bool(bool),
    Number(serde_json::Number),
    Text(String),
    Array(Vec<Json>),
    Object(Vec<(String, Json)>),
}

/// What a JSON document is, mathematically: the order of an object's entries
/// is gone, and each key has one value.
pub enum JsonView {
    Null,
    Bool(bool),
    Number(serde_json::Number),
    Text(Seq<char>),
    Array(Seq<JsonView>),
    Object(Map<Seq<char>, JsonView>),
}

/// A field of a record on its way into an object: the key, and the value if
/// the field is present.
pub type Field = (Seq<char>, Option<JsonView>);

/// The views of the first `n` items.
pub open spec fn items_view(items: Vec<Json>, n: nat) -> Seq<JsonView>
    decreases items, n,
{
    if n == 0 || n > items@.len() {
        Seq::empty()
    } else {
        items_view(items, (n - 1) as nat).push(items@[n - 1].view())
    }
}

/// The map that the first `n` entries make: a later entry replaces an earlier
/// one with the same key.
pub open spec fn entries_view(entries: Vec<(String, Json)>, n: nat) -> Map<Seq<char>, JsonView>
    decreases entries, n,
{
    if n == 0 || n > entries@.len() {
        Map::empty()
    } else {
        entries_view(entries, (n - 1) as nat).insert(
            entries@[n - 1].0@,
            entries@[n - 1].1.view(),
        )
    }
}

impl View for Json {
    type V = JsonView;

    open spec fn view(&self) -> JsonView
        decreases self, 0nat,
    {
        match self {
            Json::Null => JsonView::Null,
            Json::Bool(b) => JsonView::Bool(*b),
            Json::Number(n) => JsonView::Number(*n),
            Json::Text(s) => JsonView::Text(s@),
            Json::Array(items) => JsonView::Array(items_view(*items, items@.len())),
            Json::Object(entries) => JsonView::Object(entries_view(*entries, entries@.len())),
        }
    }
}

/// The object that a list of fields makes: the present fields, each under its
/// key; the absent ones leave no trace.
pub open spec fn object_of(fields: Seq<Field>) -> Map<Seq<char>, JsonView>
    decreases fields.len(),
{
    if fields.len() == 0 {
        Map::empty()
    } else {
        match fields.last().1 {
            Some(value) => object_of(fields.drop_last()).insert(fields.last().0, value),
            None => object_of(fields.drop_last()),
        }
    }
}

/// No two fields share a key.
pub open spec fn distinct_keys(fields: Seq<Field>) -> bool {
    forall|i: int, j: int| 0 <= i < j < fields.len() ==> fields[i].0 != fields[j].0
}

/// The view of an optional value.
pub open spec fn viewed<T: View>(value: Option<T>) -> Option<T::V> {
    match value {
        Some(x) => Some(x@),
        None => None,
    }
}

/// A record, as mathematics sees it, that is sent as a JSON document.
pub trait JsonModel {
    /// The document that the record is sent as.
    spec fn json(self) -> JsonView;
}

/// An optional record as a field.
pub open spec fn record_field<T: JsonModel>(key: Seq<char>, value: Option<T>) -> Field {
    (
        key,
        match value {
            Some(record) => Some(record.json()),
            None => None,
        },
    )
}

/// An optional document as a field.
pub open spec fn document_field(key: Seq<char>, value: Option<JsonView>) -> Field {
    (key, value)
}

/// The views of a list of strings.
pub open spec fn text_list(items: Vec<String>) -> Seq<Seq<char>> {
    Seq::new(items@.len(), |i: int| items@[i]@)
}

/// The views of an optional list of strings.
pub open spec fn opt_text_list(value: Option<Vec<String>>) -> Option<Seq<Seq<char>>> {
    match value {
        Some(items) => Some(text_list(items)),
        None => None,
    }
}

/// An optional string as a field.
pub open spec fn text_field(key: Seq<char>, value: Option<Seq<char>>) -> Field {
    (
        key,
        match value {
            Some(t) => Some(JsonView::Text(t)),
            None => None,
        },
    )
}

/// An optional boolean as a field.
pub open spec fn flag_field(key: Seq<char>, value: Option<bool>) -> Field {
    (
        key,
        match value {
            Some(b) => Some(JsonView::Bool(b)),
            None => None,
        },
    )
}

/// An array of strings.
pub open spec fn text_array(items: Seq<Seq<char>>) -> JsonView {
    JsonView::Array(Seq::new(items.len(), |i: int| JsonView::Text(items[i])))
}

/// An optional list of strings as a field.
pub open spec fn text_list_field(key: Seq<char>, value: Option<Seq<Seq<char>>>) -> Field {
    (
        key,
        match value {
            Some(items) => Some(text_array(items)),
            None => None,
        },
    )
}

/// The first `n` items of a list have the views that `items_view` gives, one
/// by one.
pub proof fn lemma_items_view(items: Vec<Json>, n: nat)
    requires
        n <= items@.len(),
    ensures
        items_view(items, n).len() == n,
        forall|i: int| 0 <= i < n ==> #[trigger] items_view(items, n)[i] == items@[i]@,
    decreases n,
{
    if n > 0 {
        lemma_items_view(items, (n - 1) as nat);
        assert(items_view(items, n) == items_view(items, (n - 1) as nat).push(items@[n - 1].view()));
    }
}

/// One step of `entries_view`: the last of the first `n` entries is put on
/// top of what the entries before it make.
pub proof fn lemma_entries_view_step(entries: Vec<(String, Json)>, n: nat)
    requires
        0 < n <= entries@.len(),
    ensures
        entries_view(entries, n) == entries_view(entries, (n - 1) as nat).insert(
            entries@[n - 1].0@,
            entries@[n - 1].1@,
        ),
{
}

/// Two lists of entries that agree on their first `n` keys and values make
/// the same map from them.
pub proof fn lemma_entries_view_agree(a: Vec<(String, Json)>, b: Vec<(String, Json)>, n: nat)
    requires
        n <= a@.len(),
        n <= b@.len(),
        forall|i: int| 0 <= i < n ==> a@[i].0@ == b@[i].0@ && a@[i].1@ == b@[i].1@,
    ensures
        entries_view(a, n) == entries_view(b, n),
    decreases n,
{
    if n > 0 {
        lemma_entries_view_agree(a, b, (n - 1) as nat);
        lemma_entries_view_step(a, n);
        lemma_entries_view_step(b, n);
    }
}

/// A key that none of the first `n` entries has is not in their map.
pub proof fn lemma_entries_view_miss(entries: Vec<(String, Json)>, n: nat, key: Seq<char>)
    requires
        n <= entries@.len(),
        forall|i: int| 0 <= i < n ==> entries@[i].0@ != key,
    ensures
        !entries_view(entries, n).contains_key(key),
    decreases n,
{
    if n > 0 {
        lemma_entries_view_miss(entries, (n - 1) as nat, key);
        lemma_entries_view_step(entries, n);
    }
}

/// The value under a key is that of the last entry with this key.
pub proof fn lemma_entries_view_hit(entries: Vec<(String, Json)>, n: nat, at: int, key: Seq<char>)
    requires
        n <= entries@.len(),
        0 <= at < n,
        entries@[at].0@ == key,
        forall|i: int| at < i < n ==> entries@[i].0@ != key,
    ensures
        entries_view(entries, n).contains_key(key),
        entries_view(entries, n)[key] == entries@[at].1@,
    decreases n,
{
    lemma_entries_view_step(entries, n);
    if at < n - 1 {
        lemma_entries_view_hit(entries, (n - 1) as nat, at, key);
    }
}

/// The key of each of the first `n` entries is in their map.
pub proof fn lemma_entries_view_has(entries: Vec<(String, Json)>, n: nat, at: int)
    requires
        n <= entries@.len(),
        0 <= at < n,
    ensures
        entries_view(entries, n).contains_key(entries@[at].0@),
    decreases n,
{
    lemma_entries_view_step(entries, n);
    if at < n - 1 {
        lemma_entries_view_has(entries, (n - 1) as nat, at);
    }
}

/// Every key in the map of the first `n` entries is the key of one of them.
pub proof fn lemma_entries_view_keys(entries: Vec<(String, Json)>, n: nat, key: Seq<char>)
    requires
        n <= entries@.len(),
        entries_view(entries, n).contains_key(key),
    ensures
        exists|i: int| 0 <= i < n && entries@[i].0@ == key,
    decreases n,
{
    if n > 0 {
        lemma_entries_view_step(entries, n);
        if entries@[n - 1].0@ != key {
            lemma_entries_view_keys(entries, (n - 1) as nat, key);
        }
    }
}

/// Adding a field to a list adds its value, if it has one, to the object.
pub proof fn lemma_object_of_push(fields: Seq<Field>, field: Field)
    ensures
        object_of(fields.push(field)) == match field.1 {
            Some(value) => object_of(fields).insert(field.0, value),
            None => object_of(fields),
        },
{
    assert(fields.push(field).drop_last() =~= fields);
}

/// The object holds the present fields, each under its key, and nothing
/// else: an absent field's key is not in it.
pub open spec fn holds_exactly(object: Map<Seq<char>, JsonView>, fields: Seq<Field>) -> bool {
    &&& forall|i: int|
        0 <= i < fields.len() ==> (#[trigger] object.contains_key(fields[i].0) <==> fields[i].1 is Some)
    &&& forall|i: int|
        0 <= i < fields.len() && fields[i].1 is Some ==> object[#[trigger] fields[i].0]
            == fields[i].1->0
    &&& forall|key: Seq<char>| #[trigger]
        object.contains_key(key) ==> exists|i: int|
            0 <= i < fields.len() && fields[i].0 == key && fields[i].1 is Some
}

/// The object made of fields with distinct keys holds exactly the present
/// ones: a key is in it exactly when its field is present, and has that
/// field's value.
pub proof fn lemma_object_of_fields(fields: Seq<Field>)
    requires
        distinct_keys(fields),
    ensures
        holds_exactly(object_of(fields), fields),
    decreases fields.len(),
{
    if fields.len() > 0 {
        let rest = fields.drop_last();
        let last = fields.last();
        assert(distinct_keys(rest)) by {
            assert forall|i: int, j: int| 0 <= i < j < rest.len() implies rest[i].0 != rest[j].0 by {
                assert(rest[i] == fields[i]);
                assert(rest[j] == fields[j]);
            }
        }
        lemma_object_of_fields(rest);
        assert forall|i: int| 0 <= i < fields.len() implies (#[trigger] object_of(
            fields,
        ).contains_key(fields[i].0) <==> fields[i].1 is Some) by {
            if i < fields.len() - 1 {
                assert(rest[i] == fields[i]);
                assert(fields[i].0 != last.0);
                assert(object_of(rest).contains_key(rest[i].0) <==> rest[i].1 is Some);
            } else if object_of(rest).contains_key(last.0) {
                let j = choose|j: int| 0 <= j < rest.len() && rest[j].0 == last.0 && rest[j].1 is Some;
                assert(rest[j] == fields[j]);
            }
        }
        assert forall|i: int| 0 <= i < fields.len() && fields[i].1 is Some implies object_of(
            fields,
        )[#[trigger] fields[i].0] == fields[i].1->0 by {
            if i < fields.len() - 1 {
                assert(rest[i] == fields[i]);
                assert(fields[i].0 != last.0);
                assert(object_of(rest)[rest[i].0] == rest[i].1->0);
            }
        }
        assert forall|key: Seq<char>| #[trigger] object_of(fields).contains_key(key) implies exists|
            i: int,
        | 0 <= i < fields.len() && fields[i].0 == key && fields[i].1 is Some by {
            if last.1 is Some && key == last.0 {
                assert(fields[fields.len() - 1].0 == key);
            } else {
                assert(object_of(rest).contains_key(key));
                let i = choose|i: int| 0 <= i < rest.len() && rest[i].0 == key && rest[i].1 is Some;
                assert(fields[i] == rest[i]);
            }
        }
    }
}

impl Clone for Json {
    fn clone(&self) -> (copy: Self)
        ensures
            copy@ == self@,
    {
        self.duplicate()
    }
}

/// An object under construction: fields are handed over one at a time, and
/// the present ones become the entries of the object.
pub struct ObjectBuilder {
    entries: Vec<(String, Json)>,
    fields: Ghost<Seq<Field>>,
}

impl ObjectBuilder {
    /// The fields handed over so far, absent ones included.
    pub closed spec fn fields(&self) -> Seq<Field> {
        self.fields@
    }

    #[verifier::type_invariant]
    spec fn well_formed(&self) -> bool {
        entries_view(self.entries, self.entries@.len()) == object_of(self.fields@)
    }

    /// A builder that has been handed no field yet.
    pub fn new() -> (builder: Self)
        ensures
            builder.fields() == Seq::<Field>::empty(),
    {
        ObjectBuilder { entries: Vec::new(), fields: Ghost(Seq::empty()) }
    }

    /// Hands over a field whose value is a document.
    pub fn put(self, key: &str, value: Option<Json>) -> (builder: Self)
        ensures
            builder.fields() == self.fields().push((key@, viewed(value))),
    {
        proof {
            use_type_invariant(&self);
            lemma_object_of_push(self.fields@, (key@, viewed(value)));
        }
        let ghost before = self.entries;
        let ghost fields = self.fields@.push((key@, viewed(value)));
        let mut entries = self.entries;
        match value {
            Some(doc) => {
                entries.push((key.to_owned(), doc));
                proof {
                    lemma_entries_view_agree(before, entries, before@.len());
                }
            },
            None => {},
        }
        ObjectBuilder { entries, fields: Ghost(fields) }
    }

    /// Hands over a field whose value is a string.
    pub fn text(self, key: &str, value: &Option<String>) -> (builder: Self)
        ensures
            builder.fields() == self.fields().push(text_field(key@, viewed(*value))),
    {
        match value {
            Some(s) => self.put(key, Some(Json::Text(s.clone()))),
            None => self.put(key, None),
        }
    }

    /// Hands over a field whose value is a boolean.
    pub fn flag(self, key: &str, value: Option<bool>) -> (builder: Self)
        ensures
            builder.fields() == self.fields().push(flag_field(key@, value)),
    {
        match value {
            Some(b) => self.put(key, Some(Json::Bool(b))),
            None => self.put(key, None),
        }
    }

    /// Hands over a field whose value is a list of strings.
    pub fn text_list(self, key: &str, value: &Option<Vec<String>>) -> (builder: Self)
        ensures
            builder.fields() == self.fields().push(text_list_field(key@, opt_text_list(*value))),
    {
        match value {
            Some(items) => self.put(key, Some(Json::of_texts(items))),
            None => self.put(key, None),
        }
    }

    /// The object with the present fields as its entries.
    pub fn finish(self) -> (doc: Json)
        ensures
            doc@ == JsonView::Object(object_of(self.fields())),
    {
        proof {
            use_type_invariant(&self);
        }
        Json::Object(self.entries)
    }
}

impl Json {
    /// The array whose items are the given strings, in their order.
    pub fn of_texts(items: &Vec<String>) -> (doc: Json)
        ensures
            doc@ == text_array(text_list(*items)),
    {
        let mut out: Vec<Json> = Vec::new();
        let mut i: usize = 0;
        while i < items.len()
            invariant
                i <= items@.len(),
                out@.len() == i,
                forall|j: int| 0 <= j < i ==> #[trigger] out@[j]@ == JsonView::Text(items@[j]@),
            decreases items@.len() - i,
        {
            out.push(Json::Text(items[i].clone()));
            i += 1;
        }
        proof {
            lemma_items_view(out, out@.len() as nat);
            assert(items_view(out, out@.len() as nat) =~= Seq::new(
                text_list(*items).len(),
                |i: int| JsonView::Text(text_list(*items)[i]),
            ));
        }
        Json::Array(out)
    }

    /// The value under `key`, where the document is an object that has the
    /// key.
    pub fn get(&self, key: &str) -> (found: Option<&Json>)
        ensures
            match found {
                Some(value) => self@ is Object && self@->Object_0.contains_key(key@)
                    && self@->Object_0[key@] == value@,
                None => !(self@ is Object && self@->Object_0.contains_key(key@)),
            },
    {
        match self {
            Json::Object(entries) => {
                let wanted = key.to_owned();
                let mut i: usize = entries.len();
                while i > 0
                    invariant
                        *self == Json::Object(*entries),
                        i <= entries@.len(),
                        wanted@ == key@,
                        forall|j: int| i <= j < entries@.len() ==> entries@[j].0@ != key@,
                    decreases i,
                {
                    i -= 1;
                    if entries[i].0 == wanted {
                        proof {
                            lemma_entries_view_hit(*entries, entries@.len(), i as int, key@);
                            assert(self@ == JsonView::Object(
                                entries_view(*entries, entries@.len()),
                            ));
                        }
                        return Some(&entries[i].1);
                    }
                }
                proof {
                    lemma_entries_view_miss(*entries, entries@.len(), key@);
                    assert(self@ == JsonView::Object(entries_view(*entries, entries@.len())));
                }
                None
            },
            _ => None,
        }
    }

    /// The one entry of the document, where it is an object with exactly one
    /// key.
    pub fn single_entry(&self) -> (found: Option<(&String, &Json)>)
        ensures
            match found {
                Some((key, value)) => self@ == JsonView::Object(map![key@ => value@]),
                None => forall|key: Seq<char>, value: JsonView|
                    self@ != JsonView::Object(map![key => value]),
            },
    {
        match self {
            Json::Object(entries) => {
                let n = entries.len();
                if n == 0 {
                    assert forall|key: Seq<char>, value: JsonView|
                        self@ != JsonView::Object(map![key => value]) by {
                        assert(map![key => value].contains_key(key));
                    }
                    return None;
                }
                let last = n - 1;
                let mut i: usize = 0;
                while i < last
                    invariant
                        *self == Json::Object(*entries),
                        last == n - 1,
                        n == entries@.len(),
                        i <= last,
                        forall|j: int| 0 <= j < i ==> entries@[j].0@ == entries@[last as int].0@,
                    decreases last - i,
                {
                    if !(entries[i].0 == entries[last].0) {
                        proof {
                            let whole = entries_view(*entries, n as nat);
                            let other = entries@[i as int].0@;
                            lemma_entries_view_has(*entries, n as nat, last as int);
                            lemma_entries_view_has(*entries, n as nat, i as int);
                            assert(self@ == JsonView::Object(whole));
                            assert forall|key: Seq<char>, value: JsonView|
                                self@ != JsonView::Object(map![key => value]) by {
                                if self@ == JsonView::Object(map![key => value]) {
                                    assert(whole == map![key => value]);
                                    assert(whole.contains_key(other));
                                    assert(whole.contains_key(entries@[last as int].0@));
                                }
                            }
                        }
                        return None;
                    }
                    i += 1;
                }
                proof {
                    let key = entries@[last as int].0@;
                    let whole = entries_view(*entries, n as nat);
                    lemma_entries_view_hit(*entries, n as nat, last as int, key);
                    assert(self@ == JsonView::Object(whole));
                    assert forall|k: Seq<char>| whole.contains_key(k) implies k == key by {
                        lemma_entries_view_keys(*entries, n as nat, k);
                    }
                    assert(whole =~= map![key => entries@[last as int].1@]);
                }
                Some((&entries[last].0, &entries[last].1))
            },
            _ => {
                return None;
            },
        }
    }

    /// A copy of the document.
    pub fn duplicate(&self) -> (copy: Json)
        ensures
            copy@ == self@,
        decreases self,
    {
        match self {
            Json::Null => Json::Null,
            Json::Bool(b) => Json::Bool(*b),
            Json::Number(n) => Json::Number(n.clone()),
            Json::Text(s) => Json::Text(s.clone()),
            Json::Array(items) => {
                let mut out: Vec<Json> = Vec::new();
                let mut i: usize = 0;
                while i < items.len()
                    invariant
                        decreases_to!(*self => *items),
                        i <= items@.len(),
                        out@.len() == i,
                        forall|j: int| 0 <= j < i ==> #[trigger] out@[j]@ == items@[j]@,
                    decreases items@.len() - i,
                {
                    proof {
                        vstd::std_specs::vec::axiom_vec_index_decreases(*items, i as int);
                    }
                    out.push(items[i].duplicate());
                    i += 1;
                }
                proof {
                    lemma_items_view(out, out@.len() as nat);
                    lemma_items_view(*items, items@.len() as nat);
                    assert(items_view(out, out@.len() as nat) =~= items_view(
                        *items,
                        items@.len() as nat,
                    ));
                }
                Json::Array(out)
            },
            Json::Object(entries) => {
                let mut out: Vec<(String, Json)> = Vec::new();
                let mut i: usize = 0;
                while i < entries.len()
                    invariant
                        decreases_to!(*self => *entries),
                        i <= entries@.len(),
                        out@.len() == i,
                        forall|j: int|
                            0 <= j < i ==> (#[trigger] out@[j]).0@ == entries@[j].0@ && out@[j].1@
                                == entries@[j].1@,
                    decreases entries@.len() - i,
                {
                    proof {
                        vstd::std_specs::vec::axiom_vec_index_decreases(*entries, i as int);
                    }
                    out.push((entries[i].0.clone(), entries[i].1.duplicate()));
                    i += 1;
                }
                proof {
                    lemma_entries_view_agree(out, *entries, entries@.len() as nat);
                }
                Json::Object(out)
            },
        }
    }

    /// The number that stands for a signed integer.
    pub fn integer(v: i64) -> (doc: Json)
        ensures
            doc@ == JsonView::Number(integer_number(v)),
            unsigned_of(doc@) == if v >= 0 {
                Some(v as u64)
            } else {
                None
            },
    {
        Json::Number(number_from(v))
    }

    /// The unsigned integer that the document holds, where it is a number
    /// that is one.
    pub fn as_unsigned(&self) -> (found: Option<u64>)
        ensures
            found == unsigned_of(self@),
    {
        match self {
            Json::Number(n) => number_as_u64(n),
            _ => None,
        }
    }

    /// The document as JSON text.
    pub fn encode(&self) -> (outcome: Result<Vec<u8>, Error>)
        ensures
            match outcome {
                Ok(bytes) => json_text(self@) == Some(bytes@),
                Err(e) => json_text(self@) is None && e is JsonSerialize,
            },
    {
        let value = to_outside(self);
        match value_to_vec(&value) {
            Ok(bytes) => Ok(bytes),
            Err(reason) => Err(Error::JsonSerialize(reason)),
        }
    }

    /// The document that a JSON text holds.
    pub fn parse(bytes: &[u8]) -> (outcome: Result<Json, Error>)
        ensures
            match outcome {
                Ok(doc) => json_parse(bytes@) == Some(doc@),
                Err(e) => json_parse(bytes@) is None && e is JsonSerialize,
            },
    {
        match value_from_slice(bytes) {
            Ok(value) => Ok(from_outside(&value)),
            Err(reason) => Err(Error::JsonSerialize(reason)),
        }
    }
}

/// The unsigned integer that a document holds: one only where the document
/// is a number that reads as an unsigned integer.
pub open spec fn unsigned_of(doc: JsonView) -> Option<u64> {
    match doc {
        JsonView::Number(n) => number_unsigned(n),
        _ => None,
    }
}

/// What a `serde_json::Value` holds.
pub uninterp spec fn value_model(value: serde_json::Value) -> JsonView;

/// The number that `serde_json` makes of a signed integer.
pub uninterp spec fn integer_number(v: i64) -> serde_json::Number;

/// What `serde_json::Number::as_u64` reads from a number.
pub uninterp spec fn number_unsigned(n: serde_json::Number) -> Option<u64>;

/// The compact JSON text that `serde_json` writes for a document, where it
/// writes one. The keys of an object are written in their sorted order, in
/// which `serde_json` keeps them, so the text depends on the document alone.
pub uninterp spec fn json_text(doc: JsonView) -> Option<Seq<u8>>;

/// The document that `serde_json` reads from a text, where the text is JSON.
pub uninterp spec fn json_parse(text: Seq<u8>) -> Option<JsonView>;

/// `Clone::clone` of `serde_json::Number`: the copy is the same number.
pub assume_specification[ <serde_json::Number as Clone>::clone ](
    n: &serde_json::Number,
) -> (copy: serde_json::Number)
    ensures
        copy == *n,
;

/// `From<i64>` of `serde_json::Number`: the number of a signed integer,
/// which depends on the integer alone. It is kept as an unsigned integer
/// where the integer is not negative, so `Number::as_u64` reads it back then
/// and reads nothing from a negative one.
#[verifier::external_body]
fn number_from(v: i64) -> (n: serde_json::Number)
    ensures
        n == integer_number(v),
        number_unsigned(n) == if v >= 0 {
            Some(v as u64)
        } else {
            None
        },
{
    serde_json::Number::from(v)
}

/// `serde_json::Number::as_u64`: what it reads depends on the number alone.
#[verifier::external_body]
fn number_as_u64(n: &serde_json::Number) -> (found: Option<u64>)
    ensures
        found == number_unsigned(*n),
{
    n.as_u64()
}

/// Builds the `serde_json::Value` that holds the same document, variant by
/// variant. An object's entries are put into a `serde_json::Map` one by one,
/// in their order, with `Map::insert`, which updates the value of a key that
/// is already there: so a later entry replaces an earlier one with the same
/// key.
#[verifier::external_body]
fn to_outside(doc: &Json) -> (value: serde_json::Value)
    ensures
        value_model(value) == doc@,
{
    match doc {
        Json::Null => serde_json::Value::Null,
        Json::Bool(b) => serde_json::Value::Bool(*b),
        Json::Number(n) => serde_json::Value::Number(n.clone()),
        Json::Text(s) => serde_json::Value::String(s.clone()),
        Json::Array(items) => serde_json::Value::Array(items.iter().map(to_outside).collect()),
        Json::Object(entries) => {
            let mut map = serde_json::Map::new();
            for entry in entries {
                map.insert(entry.0.clone(), to_outside(&entry.1));
            }
            serde_json::Value::Object(map)
        },
    }
}

/// Builds the document that a `serde_json::Value` holds, variant by variant.
#[verifier::external_body]
fn from_outside(value: &serde_json::Value) -> (doc: Json)
    ensures
        doc@ == value_model(*value),
{
    match value {
        serde_json::Value::Null => Json::Null,
        serde_json::Value::Bool(b) => Json::Bool(*b),
        serde_json::Value::Number(n) => Json::Number(n.clone()),
        serde_json::Value::String(s) => Json::Text(s.clone()),
        serde_json::Value::Array(items) => Json::Array(items.iter().map(from_outside).collect()),
        serde_json::Value::Object(map) => Json::Object(
            map.iter().map(|(k, v)| (k.clone(), from_outside(v))).collect(),
        ),
    }
}

/// `serde_json::to_vec` on a value: the text depends on what the value holds
/// alone. A failure comes back as its message.
#[verifier::external_body]
fn value_to_vec(value: &serde_json::Value) -> (outcome: Result<Vec<u8>, String>)
    ensures
        match outcome {
            Ok(bytes) => json_text(value_model(*value)) == Some(bytes@),
            Err(_) => json_text(value_model(*value)) is None,
        },
{
    serde_json::to_vec(value).map_err(|e| e.to_string())
}

/// `serde_json::from_slice` to a value: what is read depends on the text
/// alone. A failure comes back as its message.
#[verifier::external_body]
fn value_from_slice(bytes: &[u8]) -> (outcome: Result<serde_json::Value, String>)
    ensures
        match outcome {
            Ok(value) => json_parse(bytes@) == Some(value_model(value)),
            Err(_) => json_parse(bytes@) is None,
        },
{
    serde_json::from_slice::<serde_json::Value>(bytes).map_err(|e| e.to_string())
}

} // verus!
