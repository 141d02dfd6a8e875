//! The flat map from strings to strings that data, headers and payload
//! fields hold, and what can be put into one.

use crate::json::{
    entries_view, lemma_entries_view_agree, lemma_entries_view_step, Field, Json, JsonView,
};
use crate::utils::text::{decimal, decimal_string, signed_decimal, signed_decimal_string};
use vstd::prelude::*;

verus! {

/// A value that has a canonical text, under which it enters a
/// [`FirebaseMap`].
pub trait FirebaseMapValue {
    /// The canonical text of the value. Each implementation says what it is.
    open spec fn text(&self) -> Seq<char> {
        arbitrary()
    }

    /// The canonical text of the value.
    fn to_string(&self) -> (s: String)
        ensures
            s@ == self.text(),
    ;
}

/// A record that can be laid out as a flat map from strings to strings.
pub trait IntoFirebaseMap {
    /// The map that the record is laid out as. Each implementation says
    /// what it is.
    open spec fn projection(&self) -> Map<Seq<char>, Seq<char>> {
        arbitrary()
    }

    /// Lays the record out as a map.
    fn as_map(&self) -> (m: FirebaseMap)
        ensures
            m@ == self.projection(),
    ;
}

/// A map from strings to strings. It is kept as a list of entries in which no
/// key occurs twice.
#[derive(Debug)]
pub struct FirebaseMap {
    entries: Vec<(String, String)>,
}

/// The map that a list of pairs makes: a later pair replaces an earlier one
/// with the same key.
pub open spec fn pairs_map(pairs: Seq<(String, String)>) -> Map<Seq<char>, Seq<char>>
    decreases pairs.len(),
{
    if pairs.len() == 0 {
        Map::empty()
    } else {
        pairs_map(pairs.drop_last()).insert(pairs.last().0@, pairs.last().1@)
    }
}

/// No key occurs twice in the list of pairs.
pub open spec fn distinct_pairs(pairs: Seq<(String, String)>) -> bool {
    forall|i: int, j: int| 0 <= i < j < pairs.len() ==> pairs[i].0@ != pairs[j].0@
}

/// The JSON object that a map from strings to strings is: the same keys, and
/// under each its string.
pub open spec fn text_object(m: Map<Seq<char>, Seq<char>>) -> JsonView {
    JsonView::Object(
        Map::new(|k: Seq<char>| m.contains_key(k), |k: Seq<char>| JsonView::Text(m[k])),
    )
}

/// An optional map as a field.
pub open spec fn map_field(key: Seq<char>, value: Option<Map<Seq<char>, Seq<char>>>) -> Field {
    (
        key,
        match value {
            Some(m) => Some(text_object(m)),
            None => None,
        },
    )
}

/// Adding a pair at the end puts its value under its key.
pub proof fn lemma_pairs_map_push(pairs: Seq<(String, String)>, pair: (String, String))
    ensures
        pairs_map(pairs.push(pair)) == pairs_map(pairs).insert(pair.0@, pair.1@),
{
    assert(pairs.push(pair).drop_last() =~= pairs);
}

/// Replacing a pair by one with the same key, in a list without repeated
/// keys, puts the new value under that key and changes nothing else.
pub proof fn lemma_pairs_map_update(pairs: Seq<(String, String)>, at: int, pair: (String, String))
    requires
        distinct_pairs(pairs),
        0 <= at < pairs.len(),
        pair.0@ == pairs[at].0@,
    ensures
        pairs_map(pairs.update(at, pair)) == pairs_map(pairs).insert(pair.0@, pair.1@),
        distinct_pairs(pairs.update(at, pair)),
    decreases pairs.len(),
{
    let changed = pairs.update(at, pair);
    let rest = pairs.drop_last();
    if at == pairs.len() - 1 {
        assert(changed.drop_last() =~= rest);
        assert(pairs_map(changed) =~= pairs_map(pairs).insert(pair.0@, pair.1@));
    } else {
        assert(changed.drop_last() =~= rest.update(at, pair));
        assert(distinct_pairs(rest)) by {
            assert forall|i: int, j: int| 0 <= i < j < rest.len() implies rest[i].0@ != rest[j].0@ by {
                assert(rest[i] == pairs[i]);
                assert(rest[j] == pairs[j]);
            }
        }
        lemma_pairs_map_update(rest, at, pair);
        assert(pairs.last().0@ != pair.0@);
        assert(pairs_map(changed) =~= pairs_map(pairs).insert(pair.0@, pair.1@));
    }
}

impl View for FirebaseMap {
    type V = Map<Seq<char>, Seq<char>>;

    closed spec fn view(&self) -> Map<Seq<char>, Seq<char>> {
        pairs_map(self.entries@)
    }
}

impl FirebaseMap {
    #[verifier::type_invariant]
    spec fn well_formed(&self) -> bool {
        distinct_pairs(self.entries@)
    }

    /// The empty map.
    pub fn new() -> (m: Self)
        ensures
            m@ == Map::<Seq<char>, Seq<char>>::empty(),
    {
        FirebaseMap { entries: Vec::new() }
    }

    /// Puts the canonical text of `value` under `key`. A value that was
    /// there under this key is replaced.
    pub fn insert<V: FirebaseMapValue>(&mut self, key: &str, value: &V)
        ensures
            final(self)@ == old(self)@.insert(key@, value.text()),
    {
        proof {
            use_type_invariant(&*self);
        }
        let mut entries: Vec<(String, String)> = Vec::new();
        core::mem::swap(&mut self.entries, &mut entries);
        let pair = (key.to_owned(), value.to_string());
        let ghost before = entries@;
        let mut i: usize = 0;
        let mut found: Option<usize> = None;
        while i < entries.len()
            invariant_except_break
                found is None,
                forall|j: int| 0 <= j < i ==> entries@[j].0@ != key@,
            invariant
                i <= entries@.len(),
                pair.0@ == key@,
            ensures
                match found {
                    Some(at) => at < entries@.len() && entries@[at as int].0@ == key@,
                    None => forall|j: int| 0 <= j < entries@.len() ==> entries@[j].0@ != key@,
                },
            decreases entries@.len() - i,
        {
            if entries[i].0 == pair.0 {
                found = Some(i);
                break ;
            }
            i += 1;
        }
        match found {
            Some(at) => {
                proof {
                    lemma_pairs_map_update(before, at as int, pair);
                }
                entries.set(at, pair);
            },
            None => {
                proof {
                    lemma_pairs_map_push(before, pair);
                }
                entries.push(pair);
            },
        }
        self.entries = entries;
    }

    /// The entries of the map, one for each key.
    pub fn get_map(self) -> (entries: Vec<(String, String)>)
        ensures
            pairs_map(entries@) == self@,
            distinct_pairs(entries@),
    {
        proof {
            use_type_invariant(&self);
        }
        self.entries
    }

    /// A copy of the map.
    pub fn duplicate(&self) -> (copy: Self)
        ensures
            copy@ == self@,
    {
        proof {
            use_type_invariant(self);
        }
        let mut out: Vec<(String, String)> = Vec::new();
        let mut i: usize = 0;
        while i < self.entries.len()
            invariant
                i <= self.entries@.len(),
                out@ == self.entries@.take(i as int),
            decreases self.entries@.len() - i,
        {
            out.push((self.entries[i].0.clone(), self.entries[i].1.clone()));
            assert(out@ =~= self.entries@.take(i + 1));
            i += 1;
        }
        assert(out@ =~= self.entries@);
        FirebaseMap { entries: out }
    }

    /// The JSON object with the same keys and, under each, its string.
    pub fn to_json(&self) -> (doc: Json)
        ensures
            doc@ == text_object(self@),
    {
        let mut out: Vec<(String, Json)> = Vec::new();
        let mut i: usize = 0;
        assert(entries_view(out, 0) =~= text_object(
            pairs_map(self.entries@.take(0)),
        )->Object_0);
        while i < self.entries.len()
            invariant
                i <= self.entries@.len(),
                out@.len() == i,
                JsonView::Object(entries_view(out, i as nat)) == text_object(
                    pairs_map(self.entries@.take(i as int)),
                ),
            decreases self.entries@.len() - i,
        {
            let ghost before = out;
            out.push((self.entries[i].0.clone(), Json::Text(self.entries[i].1.clone())));
            proof {
                lemma_entries_view_agree(before, out, i as nat);
                lemma_entries_view_step(out, (i + 1) as nat);
                let taken = self.entries@.take(i + 1);
                assert(taken.drop_last() =~= self.entries@.take(i as int));
                assert(taken.last() == self.entries@[i as int]);
                assert(entries_view(out, (i + 1) as nat) =~= text_object(
                    pairs_map(taken),
                )->Object_0);
            }
            i += 1;
        }
        assert(self.entries@.take(i as int) =~= self.entries@);
        Json::Object(out)
    }
}

impl Default for FirebaseMap {
    fn default() -> (m: Self)
        ensures
            m@ == Map::<Seq<char>, Seq<char>>::empty(),
    {
        FirebaseMap::new()
    }
}

impl Clone for FirebaseMap {
    fn clone(&self) -> (copy: Self)
        ensures
            copy@ == self@,
    {
        self.duplicate()
    }
}

impl IntoFirebaseMap for FirebaseMap {
    open spec fn projection(&self) -> Map<Seq<char>, Seq<char>> {
        self@
    }

    fn as_map(&self) -> (m: FirebaseMap) {
        self.duplicate()
    }
}

impl FirebaseMapValue for String {
    open spec fn text(&self) -> Seq<char> {
        self@
    }

    fn to_string(&self) -> (s: String) {
        self.clone()
    }
}

impl FirebaseMapValue for bool {
    open spec fn text(&self) -> Seq<char> {
        if *self {
            "true"@
        } else {
            "false"@
        }
    }

    fn to_string(&self) -> (s: String) {
        if *self {
            "true".to_owned()
        } else {
            "false".to_owned()
        }
    }
}

impl FirebaseMapValue for char {
    open spec fn text(&self) -> Seq<char> {
        seq![*self]
    }

    fn to_string(&self) -> (s: String) {
        let mut s = String::new();
        s.push(*self);
        assert(s@ =~= seq![*self]);
        s
    }
}

impl FirebaseMapValue for u8 {
    open spec fn text(&self) -> Seq<char> {
        decimal(*self as nat)
    }

    fn to_string(&self) -> (s: String) {
        decimal_string(*self as u128)
    }
}

impl FirebaseMapValue for u16 {
    open spec fn text(&self) -> Seq<char> {
        decimal(*self as nat)
    }

    fn to_string(&self) -> (s: String) {
        decimal_string(*self as u128)
    }
}

impl FirebaseMapValue for u32 {
    open spec fn text(&self) -> Seq<char> {
        decimal(*self as nat)
    }

    fn to_string(&self) -> (s: String) {
        decimal_string(*self as u128)
    }
}

impl FirebaseMapValue for u64 {
    open spec fn text(&self) -> Seq<char> {
        decimal(*self as nat)
    }

    fn to_string(&self) -> (s: String) {
        decimal_string(*self as u128)
    }
}

impl FirebaseMapValue for u128 {
    open spec fn text(&self) -> Seq<char> {
        decimal(*self as nat)
    }

    fn to_string(&self) -> (s: String) {
        decimal_string(*self)
    }
}

impl FirebaseMapValue for usize {
    open spec fn text(&self) -> Seq<char> {
        decimal(*self as nat)
    }

    fn to_string(&self) -> (s: String) {
        decimal_string(*self as u128)
    }
}

impl FirebaseMapValue for i8 {
    open spec fn text(&self) -> Seq<char> {
        signed_decimal(*self as int)
    }

    fn to_string(&self) -> (s: String) {
        signed_decimal_string(*self as i128)
    }
}

impl FirebaseMapValue for i16 {
    open spec fn text(&self) -> Seq<char> {
        signed_decimal(*self as int)
    }

    fn to_string(&self) -> (s: String) {
        signed_decimal_string(*self as i128)
    }
}

impl FirebaseMapValue for i32 {
    open spec fn text(&self) -> Seq<char> {
        signed_decimal(*self as int)
    }

    fn to_string(&self) -> (s: String) {
        signed_decimal_string(*self as i128)
    }
}

impl FirebaseMapValue for i64 {
    open spec fn text(&self) -> Seq<char> {
        signed_decimal(*self as int)
    }

    fn to_string(&self) -> (s: String) {
        signed_decimal_string(*self as i128)
    }
}

impl FirebaseMapValue for i128 {
    open spec fn text(&self) -> Seq<char> {
        signed_decimal(*self as int)
    }

    fn to_string(&self) -> (s: String) {
        signed_decimal_string(*self)
    }
}

impl FirebaseMapValue for isize {
    open spec fn text(&self) -> Seq<char> {
        signed_decimal(*self as int)
    }

    fn to_string(&self) -> (s: String) {
        signed_decimal_string(*self as i128)
    }
}

} // verus!
