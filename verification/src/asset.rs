use vstd::prelude::*;

use crate::decode::{decode_ok, decoded_pairs, string_entries};
use crate::value::RawValue;

verus! {

/// The ordered pairs of the compiled-in default mapping.
pub open spec fn default_mapping() -> Seq<(Seq<char>, Seq<char>)> {
    seq![("firefox"@, "\u{1f30d}"@), ("code"@, "\u{1f4bb}"@)]
}

/// The compiled-in default scalar: the icon used when no mapping entry
/// matches.
pub open spec fn default_fallback_icon_spec() -> Seq<char> {
    " "@
}

/// The text of the compiled-in default configuration.
pub open spec fn default_config_text_spec() -> Seq<char> {
    "firefox = \"\u{1f30d}\"\ncode = \"\u{1f4bb}\"\n"@
}

/// The default configuration as editable text, used to seed a first-run
/// user file. Decoding this text yields exactly `default_mapping()`.
pub fn default_config_text() -> (r: String)
    ensures
        r@ == default_config_text_spec(),
{
    "firefox = \"\u{1f30d}\"\ncode = \"\u{1f4bb}\"\n".to_owned()
}

/// The default configuration as an already-parsed value: a root table
/// binding each default key to its icon, in declaration order. It always
/// decodes, and decodes to exactly the default mapping — the asset is not
/// user-editable, so anything less would be a defect of the library itself.
pub fn default_raw_config() -> (r: RawValue)
    ensures
        decode_ok(r),
        decoded_pairs(r) == default_mapping(),
{
    let mut es: Vec<(String, RawValue)> = Vec::new();
    es.push(("firefox".to_owned(), RawValue::Str("\u{1f30d}".to_owned())));
    es.push(("code".to_owned(), RawValue::Str("\u{1f4bb}".to_owned())));
    let raw = RawValue::Table(es);
    proof {
        let ghost t = raw->Table_0@;
        assert(t[0].1 is Str);
        assert(t[1].1 is Str);
        assert(forall|i: int| 0 <= i < t.len() ==> t[i].1 is Str);
        assert(string_entries(t) =~= default_mapping());
    }
    raw
}

} // verus!
