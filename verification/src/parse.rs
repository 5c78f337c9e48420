use vstd::prelude::*;

use crate::value::RawValue;

verus! {

#[verifier::external_type_specification]
#[verifier::external_body]
pub struct ExTomlValue(toml::Value);

/// The document that parsing a configuration text yields, or `None` when the
/// text is not well-formed TOML. The result is a function of the text alone;
/// nothing further is assumed of it, so callers state their behaviour for
/// every document the parser might hand back.
pub uninterp spec fn parsed_toml(s: Seq<char>) -> Option<RawValue>;

/// Rebuilds toml's parsed tree in the library's own `RawValue`, one variant
/// per arm. Floats and datetimes lose their payload: no rule of the library
/// reads them beyond "not a string". Only `parse_toml_text`'s body calls
/// this.
#[verifier::external_body]
fn raw_of_toml(v: toml::Value) -> RawValue {
    match v {
        toml::Value::String(s) => RawValue::Str(s),
        toml::Value::Integer(i) => RawValue::Int(i),
        toml::Value::Float(_) => RawValue::OtherScalar,
        toml::Value::Boolean(b) => RawValue::Bool(b),
        toml::Value::Datetime(_) => RawValue::OtherScalar,
        toml::Value::Array(a) => RawValue::List(a.into_iter().map(raw_of_toml).collect()),
        toml::Value::Table(t) => RawValue::Table(
            t.into_iter().map(|(k, w)| (k, raw_of_toml(w))).collect(),
        ),
    }
}

/// Relies on `str::parse::<toml::Value>` (toml's text parser): the parsed
/// document is a function of the text alone, and its tables iterate in
/// source declaration order (the crate's `preserve_order` feature backs them
/// with an insertion-ordered map).
#[verifier::external_body]
pub fn parse_toml_text(s: &str) -> (r: Option<RawValue>)
    ensures
        r == parsed_toml(s@),
{
    match s.parse::<toml::Value>() {
        Ok(v) => Some(raw_of_toml(v)),
        Err(_) => None,
    }
}

} // verus!
