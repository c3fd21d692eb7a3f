//! The library's own model of a JSON document: the shape of the payloads that
//! the engine validates and persists, and of the values inside contracts.

use vstd::prelude::*;
use crate::text::same_text;

verus! {

/// How a JSON number was written: a non-negative integer, a negative integer
/// or a floating-point number (held by its IEEE-754 bit pattern).
pub enum NumberRepr {
    PosInt(u64),
    NegInt(i64),
    Float(u64),
}

/// A JSON number together with its value as a double: the bit pattern of that
/// double (what comparisons read) and its decimal rendering (what messages show).
pub struct JsonNumber {
    pub repr: NumberRepr,
    pub as_f64_bits: u64,
    pub as_f64_text: String,
}

/// A JSON value. An object keeps its members in order; a lookup finds the
/// first member with the key.
pub enum JsonValue {
    Null,
    Bool(bool),
    Number(JsonNumber),
    Str(String),
    Array(Vec<JsonValue>),
    Object(Vec<(String, JsonValue)>),
}

/// The value of the first entry whose key is `key`.
pub open spec fn entry_lookup(entries: Seq<(String, JsonValue)>, key: Seq<char>) -> Option<JsonValue>
    decreases entries.len(),
{
    if entries.len() == 0 {
        None
    } else if entries[0].0@ == key {
        Some(entries[0].1)
    } else {
        entry_lookup(entries.drop_first(), key)
    }
}

/// Finds the first entry of `entries` whose key is `key`.
pub fn find_entry<'a>(entries: &'a Vec<(String, JsonValue)>, key: &str) -> (found: Option<&'a JsonValue>)
    ensures
        found is Some <==> entry_lookup(entries@, key@) is Some,
        found matches Some(v) ==> entry_lookup(entries@, key@) == Some(*v),
{
    let n = entries.len();
    let mut i: usize = 0;
    assert(entries@.skip(0) =~= entries@);
    while i < n
        invariant
            n == entries@.len(),
            i <= n,
            entry_lookup(entries@, key@) == entry_lookup(entries@.skip(i as int), key@),
        decreases n - i,
    {
        assert(entries@.skip(i as int).drop_first() =~= entries@.skip(i + 1));
        let entry = &entries[i];
        if same_text(entry.0.as_str(), key) {
            return Some(&entry.1);
        }
        i = i + 1;
    }
    None
}

impl JsonValue {
    /// The member `key` of an object; nothing for any other value.
    pub open spec fn member(self, key: Seq<char>) -> Option<JsonValue> {
        match self {
            JsonValue::Object(entries) => entry_lookup(entries@, key),
            _ => None,
        }
    }

    /// Looks up the member `key` of an object.
    pub fn get(&self, key: &str) -> (found: Option<&JsonValue>)
        ensures
            found is Some <==> self.member(key@) is Some,
            found matches Some(v) ==> self.member(key@) == Some(*v),
    {
        match self {
            JsonValue::Object(entries) => find_entry(entries, key),
            _ => None,
        }
    }

    /// Whether the value is `null`.
    pub fn is_null(&self) -> (b: bool)
        ensures
            b == (*self is Null),
    {
        match self {
            JsonValue::Null => true,
            _ => false,
        }
    }
}


/// Appending an entry changes the lookup of no other key.
pub proof fn law_appended_entry_touches_only_its_key(entries: Seq<(String, JsonValue)>, entry: (String, JsonValue), key: Seq<char>)
    requires
        key != entry.0@,
    ensures
        entry_lookup(entries.push(entry), key) == entry_lookup(entries, key),
    decreases entries.len(),
{
    if entries.len() > 0 {
        assert(entries.push(entry)[0] == entries[0]);
        assert(entries.push(entry).drop_first() =~= entries.drop_first().push(entry));
        law_appended_entry_touches_only_its_key(entries.drop_first(), entry, key);
    } else {
        assert(entries.push(entry)[0] == entry);
        assert(entries.push(entry).drop_first() =~= entries);
    }
}

/// Replacing the value of an entry changes the lookup of no other key.
pub proof fn law_replaced_entry_touches_only_its_key(entries: Seq<(String, JsonValue)>, j: int, entry: (String, JsonValue), key: Seq<char>)
    requires
        0 <= j < entries.len(),
        entries[j].0@ == entry.0@,
        key != entry.0@,
    ensures
        entry_lookup(entries.update(j, entry), key) == entry_lookup(entries, key),
    decreases entries.len(),
{
    if j > 0 {
        assert(entries.update(j, entry).drop_first() =~= entries.drop_first().update(j - 1, entry));
        law_replaced_entry_touches_only_its_key(entries.drop_first(), j - 1, entry, key);
    } else {
        assert(entries.update(j, entry).drop_first() =~= entries.drop_first());
    }
}


/// A lookup finds nothing exactly when no entry has the key, and otherwise
/// the value of the first entry that has it.
pub proof fn law_lookup_finds_first_entry(entries: Seq<(String, JsonValue)>, key: Seq<char>)
    ensures
        entry_lookup(entries, key) is None <==> forall|i: int| 0 <= i < entries.len() ==> #[trigger] entries[i].0@ != key,
        forall|i: int| 0 <= i < entries.len() && #[trigger] entries[i].0@ == key
            && (forall|j: int| 0 <= j < i ==> entries[j].0@ != key)
            ==> entry_lookup(entries, key) == Some(entries[i].1),
    decreases entries.len(),
{
    if entries.len() > 0 {
        let rest = entries.drop_first();
        law_lookup_finds_first_entry(rest, key);
        assert forall|i: int| 0 <= i < rest.len() implies rest[i] == entries[i + 1] by {}
        if entries[0].0@ != key {
            assert forall|i: int| 0 <= i < entries.len() && #[trigger] entries[i].0@ == key
                && (forall|j: int| 0 <= j < i ==> entries[j].0@ != key)
                implies entry_lookup(entries, key) == Some(entries[i].1) by {
                assert(i > 0);
                assert(rest[i - 1] == entries[i]);
                assert forall|j: int| 0 <= j < i - 1 implies rest[j].0@ != key by {
                    assert(rest[j] == entries[j + 1]);
                }
            }
            if forall|i: int| 0 <= i < rest.len() ==> #[trigger] rest[i].0@ != key {
                assert forall|i: int| 0 <= i < entries.len() implies #[trigger] entries[i].0@ != key by {
                    if i > 0 {
                        assert(rest[i - 1] == entries[i]);
                    }
                }
            }
            if forall|i: int| 0 <= i < entries.len() ==> #[trigger] entries[i].0@ != key {
                assert forall|i: int| 0 <= i < rest.len() implies #[trigger] rest[i].0@ != key by {
                    assert(entries[i + 1].0@ != key);
                }
            }
        }
    }
}

} // verus!
