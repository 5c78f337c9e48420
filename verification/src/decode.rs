use vstd::prelude::*;

use crate::value::RawValue;

verus! {

/// Why a raw configuration value was rejected as an icon mapping.
#[derive(Debug, PartialEq, Eq)]
pub enum DecodeError {
    /// The root of the document is not a table.
    NotATable,
    /// A table entry's value is not a string; `key` names the offending
    /// entry, for diagnostics.
    NonStringValue { key: String },
}

/// Every entry's value is a string.
pub open spec fn all_string_values(es: Seq<(String, RawValue)>) -> bool {
    forall|i: int| 0 <= i < es.len() ==> es[i].1 is Str
}

/// The entries as plain (key, string) pairs, in the same order.
pub open spec fn string_entries(es: Seq<(String, RawValue)>) -> Seq<(Seq<char>, Seq<char>)> {
    es.map_values(|e: (String, RawValue)| (e.0@, e.1->Str_0@))
}

/// The key of the first entry whose value is not a string.
pub open spec fn first_bad_key(es: Seq<(String, RawValue)>) -> Seq<char>
    decreases es.len(),
{
    if es.len() == 0 {
        Seq::empty()
    } else if !(es[0].1 is Str) {
        es[0].0@
    } else {
        first_bad_key(es.drop_first())
    }
}

/// A raw value decodes into an icon mapping exactly when it is a table of
/// string values.
pub open spec fn decode_ok(v: RawValue) -> bool {
    v matches RawValue::Table(es) && all_string_values(es@)
}

/// The mapping a decodable value yields: its entries, order preserved.
pub open spec fn decoded_pairs(v: RawValue) -> Seq<(Seq<char>, Seq<char>)>
    recommends
        decode_ok(v),
{
    string_entries(v->Table_0@)
}

/// The exact error owed for a value that does not decode.
pub open spec fn decode_error_spec(v: RawValue, e: DecodeError) -> bool {
    match v {
        RawValue::Table(es) => e matches DecodeError::NonStringValue { key } && key@
            == first_bad_key(es@),
        _ => e == DecodeError::NotATable,
    }
}

proof fn lemma_first_bad_key_at(es: Seq<(String, RawValue)>, i: int)
    requires
        0 <= i < es.len(),
        !(es[i].1 is Str),
        forall|j: int| 0 <= j < i ==> es[j].1 is Str,
    ensures
        first_bad_key(es) == es[i].0@,
    decreases i,
{
    if i > 0 {
        lemma_first_bad_key_at(es.drop_first(), i - 1);
    }
}

/// Decodes an untyped configuration value into the ordered icon mapping.
///
/// Succeeds exactly on a root table whose values are all strings, and then
/// returns the (key, value) pairs in their declaration order; fails with
/// `NotATable` on any other root, and with `NonStringValue` naming the first
/// offending key on a table holding a non-string value.
pub fn try_from_toml_value(value: &RawValue) -> (r: Result<Vec<(String, String)>, DecodeError>)
    ensures
        decode_ok(*value) ==> (r matches Ok(m) && m.deep_view() == decoded_pairs(*value)),
        !decode_ok(*value) ==> (r matches Err(e) && decode_error_spec(*value, e)),
{
    match value {
        RawValue::Table(es) => {
            let mut out: Vec<(String, String)> = Vec::new();
            let mut i: usize = 0;
            proof {
                assert(out.deep_view() =~= string_entries(es@.take(0)));
            }
            while i < es.len()
                invariant
                    *value == RawValue::Table(*es),
                    i <= es.len(),
                    forall|j: int| 0 <= j < i ==> es@[j].1 is Str,
                    out.deep_view() == string_entries(es@.take(i as int)),
                decreases es.len() - i,
            {
                let e = &es[i];
                match &e.1 {
                    RawValue::Str(s) => {
                        let ghost prev = out.deep_view();
                        out.push((e.0.clone(), s.clone()));
                        proof {
                            let ghost entry = (es@[i as int].0@, es@[i as int].1->Str_0@);
                            assert(out.deep_view() =~= prev.push(entry));
                            assert(es@.take(i + 1) =~= es@.take(i as int).push(es@[i as int]));
                            assert(string_entries(es@.take(i + 1)) =~= prev.push(entry));
                        }
                    },
                    _ => {
                        proof {
                            assert(!all_string_values(es@));
                            lemma_first_bad_key_at(es@, i as int);
                        }
                        return Err(DecodeError::NonStringValue { key: e.0.clone() });
                    },
                }
                i += 1;
            }
            proof {
                assert(es@.take(es@.len() as int) =~= es@);
            }
            Ok(out)
        },
        _ => Err(DecodeError::NotATable),
    }
}

} // verus!
