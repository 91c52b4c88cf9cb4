use vstd::prelude::*;

verus! {

/// A JSON number, as the request body carried it: the bit pattern of its
/// IEEE-754 double value, and the shortest decimal text of that value.
pub struct JsonNumber {
    pub bits: u64,
    pub text: String,
}

/// A parsed JSON document.
pub enum JsonValue {
    Null,
    Bool(bool),
    Number(JsonNumber),
    Str(String),
    Array(Vec<JsonValue>),
    Object(Vec<(String, JsonValue)>),
}

/// The value of the first entry at or after `i` whose key is `key`.
pub open spec fn entry_from(entries: Seq<(String, JsonValue)>, key: Seq<char>, i: int) -> Option<
    JsonValue,
>
    decreases entries.len() - i,
{
    if i < 0 || i >= entries.len() {
        None
    } else if entries[i].0@ == key {
        Some(entries[i].1)
    } else {
        entry_from(entries, key, i + 1)
    }
}

/// The member `key` of an object, where it is present and not `null`.
pub open spec fn present(v: JsonValue, key: Seq<char>) -> Option<JsonValue> {
    match v {
        JsonValue::Object(entries) => match entry_from(entries@, key, 0) {
            Some(JsonValue::Null) => None,
            other => other,
        },
        _ => None,
    }
}

/// Exact comparison of two strings, character by character.
pub fn same_text(a: &str, b: &str) -> (r: bool)
    ensures
        r == (a@ == b@),
{
    let n = a.unicode_len();
    let m = b.unicode_len();
    if n != m {
        return false;
    }
    let mut i: usize = 0;
    while i < n
        invariant
            n == a@.len(),
            m == b@.len(),
            n == m,
            i <= n,
            forall|j: int| 0 <= j < i ==> a@[j] == b@[j],
        decreases n - i,
    {
        if a.get_char(i) != b.get_char(i) {
            return false;
        }
        i = i + 1;
    }
    assert(a@ =~= b@);
    true
}

/// The member `key` of `v`, where `v` is an object that has it with a value
/// other than `null`.
pub fn member<'a>(v: &'a JsonValue, key: &str) -> (r: Option<&'a JsonValue>)
    ensures
        match r {
            Some(x) => present(*v, key@) == Some(*x),
            None => present(*v, key@) is None,
        },
{
    match v {
        JsonValue::Object(entries) => {
            let mut i: usize = 0;
            while i < entries.len()
                invariant
                    *v == JsonValue::Object(*entries),
                    0 <= i <= entries@.len(),
                    entry_from(entries@, key@, 0) == entry_from(entries@, key@, i as int),
                decreases entries@.len() - i,
            {
                if same_text(entries[i].0.as_str(), key) {
                    let found = &entries[i].1;
                    assert(entry_from(entries@, key@, i as int) == Some(entries@[i as int].1));
                    match found {
                        JsonValue::Null => {
                            return None;
                        },
                        _ => {
                            return Some(found);
                        },
                    }
                }
                assert(entry_from(entries@, key@, i as int) == entry_from(entries@, key@, i + 1));
                i = i + 1;
            }
            None
        },
        _ => None,
    }
}

} // verus!
