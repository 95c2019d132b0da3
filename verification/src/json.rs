//! JSON documents as plain data, and the lookups the vendor clients make.

use vstd::prelude::*;
use crate::text::str_eq;

verus! {

/// A JSON document. A number is held as the integer it stands for, or as
/// `None` where it is a fraction or does not fit in an `i64`.
#[derive(Debug, PartialEq, Eq)]
pub enum JsonValue {
    Null,
    Bool(bool),
    Number(Option<i64>),
    String(String),
    Array(Vec<JsonValue>),
    Object(Vec<(String, JsonValue)>),
}

/// `serde_json::Value`, handed on without a look inside.
#[verifier::external_type_specification]
#[verifier::external_body]
pub struct ExSerdeValue(serde_json::Value);

/// The document that `serde_json::from_str` reads from `text`, or `None`
/// where it reports an error.
pub uninterp spec fn json_parse(text: Seq<char>) -> Option<JsonValue>;

/// Copies a `serde_json::Value` into a `JsonValue`, node for node; a number
/// becomes what `Number::as_i64` gives for it.
#[verifier::external_body]
fn value_tree(v: serde_json::Value) -> JsonValue {
    match v {
        serde_json::Value::Null => JsonValue::Null,
        serde_json::Value::Bool(b) => JsonValue::Bool(b),
        serde_json::Value::Number(n) => JsonValue::Number(n.as_i64()),
        serde_json::Value::String(s) => JsonValue::String(s),
        serde_json::Value::Array(a) => JsonValue::Array(a.into_iter().map(value_tree).collect()),
        serde_json::Value::Object(m) => JsonValue::Object(
            m.into_iter().map(|(k, v)| (k, value_tree(v))).collect(),
        ),
    }
}

/// `serde_json::from_str` on `text`, read as a `serde_json::Value` and
/// copied into a `JsonValue`. The contract only names the result.
#[verifier::external_body]
fn read_json(text: &str) -> (r: Option<JsonValue>)
    ensures
        r == json_parse(text@),
{
    serde_json::from_str::<serde_json::Value>(text).ok().map(value_tree)
}

/// The index of the first entry of `entries` under `key`, or the number of
/// entries where there is none.
pub open spec fn entry_index(entries: Seq<(String, JsonValue)>, key: Seq<char>) -> int
    decreases entries.len(),
{
    if entries.len() == 0 {
        0
    } else if entries[0].0@ == key {
        0
    } else {
        1 + entry_index(entries.drop_first(), key)
    }
}

proof fn lemma_entry_index(entries: Seq<(String, JsonValue)>, key: Seq<char>)
    ensures
        0 <= entry_index(entries, key) <= entries.len(),
        entry_index(entries, key) < entries.len() ==> entries[entry_index(
            entries,
            key,
        )].0@ == key,
        forall|k: int| 0 <= k < entry_index(entries, key) ==> (#[trigger] entries[k]).0@ != key,
    decreases entries.len(),
{
    if entries.len() > 0 && entries[0].0@ != key {
        let rest = entries.drop_first();
        lemma_entry_index(rest, key);
        let n = entry_index(rest, key);
        assert forall|k: int| 0 <= k < n + 1 implies (#[trigger] entries[k]).0@ != key by {
            if k > 0 {
                assert(entries[k] == rest[k - 1]);
            }
        }
    }
}

impl JsonValue {
    /// The member under `key` where this is an object that has one (the
    /// first, should a hand-built object hold the key twice).
    pub open spec fn member(self, key: Seq<char>) -> Option<JsonValue> {
        match self {
            JsonValue::Object(entries) => {
                let i = entry_index(entries@, key);
                if i < entries@.len() {
                    Some(entries@[i].1)
                } else {
                    None
                }
            },
            _ => None,
        }
    }

    /// What is reached from here by following `path` member by member.
    pub open spec fn at(self, path: Seq<Seq<char>>) -> Option<JsonValue>
        decreases path.len(),
    {
        if path.len() == 0 {
            Some(self)
        } else {
            match self.member(path[0]) {
                Some(v) => v.at(path.drop_first()),
                None => None,
            }
        }
    }

    /// The integer this value holds, where it is a number that is one.
    pub open spec fn int_value(self) -> Option<i64> {
        match self {
            JsonValue::Number(n) => n,
            _ => None,
        }
    }

    /// The text this value holds, where it is a string.
    pub open spec fn str_value(self) -> Option<Seq<char>> {
        match self {
            JsonValue::String(s) => Some(s@),
            _ => None,
        }
    }

    /// Reads a JSON document from text.
    pub fn parse(text: &str) -> (r: Option<JsonValue>)
        ensures
            r == json_parse(text@),
    {
        read_json(text)
    }

    /// The member under `key`.
    pub fn get<'a>(&'a self, key: &str) -> (r: Option<&'a JsonValue>)
        ensures
            r == match self.member(key@) {
                Some(v) => Some(&v),
                None => None,
            },
    {
        match self {
            JsonValue::Object(entries) => {
                let mut i: usize = 0;
                while i < entries.len()
                    invariant
                        *self == JsonValue::Object(*entries),
                        i <= entries.len(),
                        forall|k: int| 0 <= k < i ==> (#[trigger] entries@[k]).0@ != key@,
                    decreases entries.len() - i,
                {
                    if str_eq(entries[i].0.as_str(), key) {
                        proof {
                            lemma_entry_index(entries@, key@);
                            let e = entry_index(entries@, key@);
                            if e < i {
                                assert(entries@[e].0@ == key@);
                            } else if e > i {
                                assert(entries@[i as int].0@ != key@);
                            }
                        }
                        return Some(&entries[i].1);
                    }
                    i = i + 1;
                }
                proof {
                    lemma_entry_index(entries@, key@);
                    let e = entry_index(entries@, key@);
                    if e < entries@.len() {
                        assert(entries@[e].0@ == key@);
                    }
                }
                None
            },
            _ => None,
        }
    }

    /// The integer that this value holds.
    pub fn as_i64(&self) -> (r: Option<i64>)
        ensures
            r == self.int_value(),
    {
        match self {
            JsonValue::Number(n) => *n,
            _ => None,
        }
    }

    /// The text that this value holds.
    pub fn as_str<'a>(&'a self) -> (r: Option<&'a str>)
        ensures
            match r {
                Some(s) => self.str_value() == Some(s@),
                None => self.str_value() is None,
            },
    {
        match self {
            JsonValue::String(s) => Some(s.as_str()),
            _ => None,
        }
    }
}

/// The integer found by following `path`, where there is one.
pub open spec fn int_at(json: JsonValue, path: Seq<Seq<char>>) -> Option<i64> {
    match json.at(path) {
        Some(v) => v.int_value(),
        None => None,
    }
}

/// The text found by following `path`, where there is a string.
pub open spec fn str_at(json: JsonValue, path: Seq<Seq<char>>) -> Option<Seq<char>> {
    match json.at(path) {
        Some(v) => v.str_value(),
        None => None,
    }
}

impl JsonValue {
    /// The member `b` of the member `a`.
    pub fn get2<'a>(&'a self, a: &str, b: &str) -> (r: Option<&'a JsonValue>)
        ensures
            r == match self.at(seq![a@, b@]) {
                Some(v) => Some(&v),
                None => None,
            },
    {
        proof {
            let p = seq![a@, b@];
            assert(p.drop_first() =~= seq![b@]);
            assert(p.drop_first().drop_first() =~= Seq::<Seq<char>>::empty());
            reveal_with_fuel(JsonValue::at, 3);
        }
        match self.get(a) {
            Some(v) => v.get(b),
            None => None,
        }
    }

    /// The member `c` of the member `b` of the member `a`.
    pub fn get3<'a>(&'a self, a: &str, b: &str, c: &str) -> (r: Option<&'a JsonValue>)
        ensures
            r == match self.at(seq![a@, b@, c@]) {
                Some(v) => Some(&v),
                None => None,
            },
    {
        proof {
            let p = seq![a@, b@, c@];
            assert(p.drop_first() =~= seq![b@, c@]);
            assert(p.drop_first().drop_first() =~= seq![c@]);
            assert(p.drop_first().drop_first().drop_first() =~= Seq::<Seq<char>>::empty());
            reveal_with_fuel(JsonValue::at, 4);
        }
        match self.get(a) {
            Some(v) => match v.get(b) {
                Some(w) => w.get(c),
                None => None,
            },
            None => None,
        }
    }

    /// The integer that is the member `b` of the member `a`.
    pub fn i64_at2(&self, a: &str, b: &str) -> (r: Option<i64>)
        ensures
            r == int_at(*self, seq![a@, b@]),
    {
        match self.get2(a, b) {
            Some(v) => v.as_i64(),
            None => None,
        }
    }

    /// The integer that is the member `c` of the member `b` of the member
    /// `a`.
    pub fn i64_at3(&self, a: &str, b: &str, c: &str) -> (r: Option<i64>)
        ensures
            r == int_at(*self, seq![a@, b@, c@]),
    {
        match self.get3(a, b, c) {
            Some(v) => v.as_i64(),
            None => None,
        }
    }

    /// The text that is the member `b` of the member `a`.
    pub fn str_at2<'a>(&'a self, a: &str, b: &str) -> (r: Option<&'a str>)
        ensures
            match r {
                Some(s) => str_at(*self, seq![a@, b@]) == Some(s@),
                None => str_at(*self, seq![a@, b@]) is None,
            },
    {
        match self.get2(a, b) {
            Some(v) => v.as_str(),
            None => None,
        }
    }
}

} // verus!
