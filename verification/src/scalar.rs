use vstd::prelude::*;

use crate::asset::default_fallback_icon_spec;
use crate::parse::{parse_toml_text, parsed_toml};
use crate::value::{lookup, lookup_spec, RawValue};

verus! {

/// The optional extra settings held in a document's `[other]` table.
pub struct ExtraConfig {
    pub fallback_icon: String,
}

/// The fallback icon a parsed document carries: the string bound to
/// `fallback_icon` inside the root table's `other` table, and the
/// compiled-in default whenever any link of that chain is missing or of the
/// wrong shape.
pub open spec fn fallback_icon_of_doc(doc: RawValue) -> Seq<char> {
    match doc {
        RawValue::Table(es) => match lookup_spec(es@, "other"@) {
            Some(RawValue::Table(os)) => match lookup_spec(os@, "fallback_icon"@) {
                Some(RawValue::Str(s)) => s@,
                _ => default_fallback_icon_spec(),
            },
            _ => default_fallback_icon_spec(),
        },
        _ => default_fallback_icon_spec(),
    }
}

/// The fallback icon a configuration text resolves to.
pub open spec fn resolved_fallback_icon(t: Seq<char>) -> Seq<char> {
    match parsed_toml(t) {
        Some(doc) => fallback_icon_of_doc(doc),
        None => default_fallback_icon_spec(),
    }
}

impl ExtraConfig {
    /// The compiled-in default fallback icon.
    pub fn default_fallback_icon() -> (r: String)
        ensures
            r@ == default_fallback_icon_spec(),
    {
        " ".to_owned()
    }

    /// Reads the `[other]` section out of a parsed document, filling in the
    /// default for whatever is absent or mis-shaped.
    pub fn from_doc(doc: &RawValue) -> (r: ExtraConfig)
        ensures
            r.fallback_icon@ == fallback_icon_of_doc(*doc),
    {
        match doc {
            RawValue::Table(es) => {
                let other_key: String = "other".to_owned();
                match lookup(es, &other_key) {
                    Some(RawValue::Table(os)) => {
                        let icon_key: String = "fallback_icon".to_owned();
                        match lookup(os, &icon_key) {
                            Some(RawValue::Str(s)) => ExtraConfig { fallback_icon: s.clone() },
                            _ => ExtraConfig { fallback_icon: Self::default_fallback_icon() },
                        }
                    },
                    _ => ExtraConfig { fallback_icon: Self::default_fallback_icon() },
                }
            },
            _ => ExtraConfig { fallback_icon: Self::default_fallback_icon() },
        }
    }
}

/// Resolves the fallback icon from the contents of the user configuration
/// file, handed in as `Some(text)` when the file could be located and read
/// and as `None` otherwise. Total: it degrades to the compiled-in default
/// instead of failing, like the mapping resolver.
pub fn get_fallback_icon(content: &Option<String>) -> (r: String)
    ensures
        match *content {
            Some(t) => r@ == resolved_fallback_icon(t@),
            None => r@ == default_fallback_icon_spec(),
        },
{
    match content {
        Some(text) => match parse_toml_text(text.as_str()) {
            Some(doc) => {
                let extra = ExtraConfig::from_doc(&doc);
                extra.fallback_icon
            },
            None => ExtraConfig::default_fallback_icon(),
        },
        None => ExtraConfig::default_fallback_icon(),
    }
}

/// Law: scalar resolution reads only the `[other]` table. A document whose
/// root table has no `other` entry resolves to the compiled-in default
/// icon; one whose `other` entry is a table binding `fallback_icon` to a
/// string resolves to exactly that string.
pub proof fn lemma_scalar_resolution(doc: RawValue)
    ensures
        (doc matches RawValue::Table(es) && lookup_spec(es@, "other"@) is None)
            ==> fallback_icon_of_doc(doc) == default_fallback_icon_spec(),
        doc matches RawValue::Table(es) ==> lookup_spec(es@, "other"@) matches Some(
            RawValue::Table(os),
        ) ==> lookup_spec(os@, "fallback_icon"@) matches Some(RawValue::Str(s))
            ==> fallback_icon_of_doc(doc) == s@,
{
}

} // verus!
