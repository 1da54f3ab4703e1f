//! Manifest text handling.
//!
//! `mod.json` manifests are JSON. The text is parsed by serde_json behind a
//! trusted boundary; the parse result is carried as the crate's own
//! [`JsonValue`] tree, and everything that reads fields out of that tree —
//! the whole of the manifest-schema logic — is verified.

use vstd::prelude::*;

verus! {

/// A JSON document, as plain values. A number is carried as the text
/// serde_json renders for it (`1.50` comes back as `1.5`): the manifest
/// schemas never read a number, and this crate holds no floats.
#[derive(Debug, PartialEq, Eq)]
pub enum JsonValue {
    Null,
    Bool { b: bool },
    Num { text: String },
    Str { s: String },
    Arr { items: Vec<JsonValue> },
    Obj { fields: Vec<(String, JsonValue)> },
}

#[verifier::external_type_specification]
#[verifier::external_body]
pub struct ExValue(serde_json::Value);

/// What `parse_json` returns for a given manifest text: `None` when the text
/// is not JSON, otherwise the document. serde_json's parse result depends on
/// the text alone, so this is a function of the text.
pub uninterp spec fn json_doc_of(text: Seq<char>) -> Option<JsonValue>;

/// Carries serde_json's tree over into the crate's own representation, one
/// variant at a time. Relied upon only through `parse_json` below, whose
/// contract covers the composition of the parse and this move.
#[verifier::external_body]
fn value_to_json(v: &serde_json::Value) -> JsonValue {
    match v {
        serde_json::Value::Null => JsonValue::Null,
        serde_json::Value::Bool(b) => JsonValue::Bool { b: *b },
        serde_json::Value::Number(n) => JsonValue::Num { text: n.to_string() },
        serde_json::Value::String(s) => JsonValue::Str { s: s.clone() },
        serde_json::Value::Array(a) => JsonValue::Arr {
            items: a.iter().map(value_to_json).collect(),
        },
        serde_json::Value::Object(m) => JsonValue::Obj {
            fields: m.iter().map(|(k, x)| (k.clone(), value_to_json(x))).collect(),
        },
    }
}

/// Relies on serde_json::from_str: whether the text parses as JSON, and what
/// document it denotes, depend on the text alone.
#[verifier::external_body]
pub fn parse_json(text: &str) -> (r: Option<JsonValue>)
    ensures
        r == json_doc_of(text@),
{
    match serde_json::from_str::<serde_json::Value>(text) {
        Ok(v) => Some(value_to_json(&v)),
        Err(_) => None,
    }
}

/// First binding of `key` among `fields`, if any.
pub open spec fn json_lookup(fields: Seq<(String, JsonValue)>, key: Seq<char>) -> Option<
    JsonValue,
>
    decreases fields.len(),
{
    if fields.len() == 0 {
        None
    } else if fields[0].0@ == key {
        Some(fields[0].1)
    } else {
        json_lookup(fields.drop_first(), key)
    }
}

/// The value of field `key` when `j` is an object that has it.
pub open spec fn json_field(j: JsonValue, key: Seq<char>) -> Option<JsonValue> {
    match j {
        JsonValue::Obj { fields } => json_lookup(fields@, key),
        _ => None,
    }
}

/// The characters of field `key` when `j` is an object whose field `key` is a
/// string.
pub open spec fn json_str_field(j: JsonValue, key: Seq<char>) -> Option<Seq<char>> {
    match json_field(j, key) {
        Some(JsonValue::Str { s }) => Some(s@),
        _ => None,
    }
}

proof fn lemma_lookup_skip(fields: Seq<(String, JsonValue)>, key: Seq<char>, i: int)
    requires
        0 <= i <= fields.len(),
        forall|k: int| 0 <= k < i ==> fields[k].0@ != key,
    ensures
        json_lookup(fields, key) == json_lookup(fields.skip(i), key),
    decreases i,
{
    if i > 0 {
        lemma_lookup_skip(fields.drop_first(), key, i - 1);
        assert(fields.drop_first().skip(i - 1) =~= fields.skip(i));
    } else {
        assert(fields.skip(0) =~= fields);
    }
}

impl JsonValue {
    /// The value of field `key`, when this is an object that has it.
    pub fn get_field<'a>(&'a self, key: &str) -> (r: Option<&'a JsonValue>)
        ensures
            match r {
                Some(v) => json_field(*self, key@) == Some(*v),
                None => json_field(*self, key@) is None,
            },
    {
        match self {
            JsonValue::Obj { fields } => {
                let ghost allf = fields@;
                let n = fields.len();
                let mut i: usize = 0;
                while i < n
                    invariant
                        n == allf.len(),
                        allf == fields@,
                        0 <= i <= n,
                        forall|k: int| 0 <= k < i ==> allf[k].0@ != key@,
                        json_field(*self, key@) == json_lookup(allf, key@),
                    decreases n - i,
                {
                    if crate::paths::str_eq(fields[i].0.as_str(), key) {
                        proof {
                            lemma_lookup_skip(allf, key@, i as int);
                            assert(allf.skip(i as int)[0] == allf[i as int]);
                            assert(allf.skip(i as int).len() > 0);
                            assert(json_lookup(allf.skip(i as int), key@) == Some(
                                allf[i as int].1,
                            ));
                            assert(json_field(*self, key@) == json_lookup(allf, key@));
                        }
                        return Some(&fields[i].1);
                    }
                    i += 1;
                }
                proof {
                    lemma_lookup_skip(allf, key@, n as int);
                    assert(allf.skip(n as int) =~= Seq::<(String, JsonValue)>::empty());
                }
                None
            },
            _ => None,
        }
    }

    /// A copy of string field `key`, when this is an object whose field `key`
    /// is a string.
    pub fn get_str_field(&self, key: &str) -> (r: Option<String>)
        ensures
            match r {
                Some(s) => json_str_field(*self, key@) == Some(s@),
                None => json_str_field(*self, key@) is None,
            },
    {
        match self.get_field(key) {
            Some(JsonValue::Str { s }) => Some(s.clone()),
            _ => None,
        }
    }
}

} // verus!
