use vstd::prelude::*;

verus! {

/// A structured document tree, as this library models one wire frame.
/// Numbers are kept as their exact decimal text so that no floating-point
/// rounding is ever introduced.
#[derive(Debug, PartialEq, Eq)]
pub enum JsonValue {
    Null,
    Bool(bool),
    Number(String),
    Text(String),
    Array(Vec<JsonValue>),
    Object(Vec<(String, JsonValue)>),
}

/// The tree that parsing a given frame text yields, if any.  Parsing is a
/// pure function of the text alone, so the result carries a name rather than
/// a page-long grammar; `parse_text` is the one function that produces it.
pub uninterp spec fn json_parsed(s: Seq<char>) -> Option<JsonValue>;

#[verifier::external_type_specification]
#[verifier::external_body]
pub struct ExSerdeValue(serde_json::Value);

/// Relies on `serde_json::Value` and `serde_json::Number::to_string`: each
/// variant of the parsed tree is carried over one for one; a number becomes
/// its exact decimal text.
#[verifier::external_body]
fn value_to_json(v: serde_json::Value) -> JsonValue {
    match v {
        serde_json::Value::Null => JsonValue::Null,
        serde_json::Value::Bool(b) => JsonValue::Bool(b),
        serde_json::Value::Number(n) => JsonValue::Number(n.to_string()),
        serde_json::Value::String(s) => JsonValue::Text(s),
        serde_json::Value::Array(a) => JsonValue::Array(a.into_iter().map(value_to_json).collect()),
        serde_json::Value::Object(m) => JsonValue::Object(
            m.into_iter().map(|(k, x)| (k, value_to_json(x))).collect(),
        ),
    }
}

/// Relies on `serde_json::from_str`: parsing is deterministic, a pure
/// function of the text, and fails exactly on malformed documents; a failure
/// becomes `None`.
#[verifier::external_body]
pub fn parse_text(s: &str) -> (r: Option<JsonValue>)
    ensures
        r == json_parsed(s@),
{
    match serde_json::from_str::<serde_json::Value>(s) {
        Ok(v) => Some(value_to_json(v)),
        Err(_) => None,
    }
}

/// The first field of `fields` named `name`, if any.
pub open spec fn lookup_field(fields: Seq<(String, JsonValue)>, name: Seq<char>) -> Option<
    JsonValue,
>
    decreases fields.len(),
{
    if fields.len() == 0 {
        None
    } else if fields[0].0@ == name {
        Some(fields[0].1)
    } else {
        lookup_field(fields.drop_first(), name)
    }
}

/// Find the first field of `fields` named `name`.
pub fn get_field<'a>(fields: &'a Vec<(String, JsonValue)>, name: &String) -> (r: Option<
    &'a JsonValue,
>)
    ensures
        match r {
            Some(v) => lookup_field(fields@, name@) == Some(*v),
            None => lookup_field(fields@, name@) is None,
        },
{
    let n = fields.len();
    proof {
        assert(fields@.subrange(0, n as int) =~= fields@);
    }
    let mut i: usize = 0;
    while i < n
        invariant
            0 <= i <= n,
            n == fields@.len(),
            lookup_field(fields@, name@) == lookup_field(
                fields@.subrange(i as int, n as int),
                name@,
            ),
        decreases n - i,
    {
        proof {
            assert(fields@.subrange(i as int, n as int)[0] == fields@[i as int]);
        }
        if fields[i].0 == *name {
            proof {
                assert(lookup_field(fields@.subrange(i as int, n as int), name@) == Some(
                    fields@[i as int].1,
                ));
            }
            return Some(&fields[i].1);
        }
        proof {
            assert(fields@.subrange(i as int, n as int).drop_first() =~= fields@.subrange(
                i + 1,
                n as int,
            ));
        }
        i = i + 1;
    }
    None
}

} // verus!
