use vstd::prelude::*;

use crate::asset::{default_mapping, default_raw_config};
use crate::decode::{decode_error_spec, decode_ok, decoded_pairs, try_from_toml_value, DecodeError};
use crate::parse::{parse_toml_text, parsed_toml};

verus! {

/// Why a configuration text could not be used as an icon mapping.
#[derive(Debug, PartialEq, Eq)]
pub enum ConfigError {
    /// The text is not well-formed TOML.
    InvalidSyntax,
    /// The text parsed, but its shape is not an icon mapping.
    Schema(DecodeError),
}

/// The mapping that a configuration text resolves to: the decoded user
/// mapping when the text parses and decodes, the default mapping otherwise.
/// An empty table is a valid (empty) mapping, not a fallback trigger.
pub open spec fn resolved_mapping(t: Seq<char>) -> Seq<(Seq<char>, Seq<char>)> {
    match parsed_toml(t) {
        Some(doc) => if decode_ok(doc) {
            decoded_pairs(doc)
        } else {
            default_mapping()
        },
        None => default_mapping(),
    }
}

/// Parses a configuration text and decodes the ordered icon mapping from
/// it. Succeeds exactly when the text is well-formed and its root table
/// holds only string values; the error says which of the two failed.
pub fn get_icon_mappings_from_config(content: &str) -> (r: Result<
    Vec<(String, String)>,
    ConfigError,
>)
    ensures
        match parsed_toml(content@) {
            Some(doc) => {
                &&& decode_ok(doc) ==> (r matches Ok(m) && m.deep_view() == decoded_pairs(doc))
                &&& !decode_ok(doc) ==> (r matches Err(ce) && ce matches ConfigError::Schema(e)
                    && decode_error_spec(doc, e))
            },
            None => r == Err::<Vec<(String, String)>, ConfigError>(ConfigError::InvalidSyntax),
        },
{
    match parse_toml_text(content) {
        Some(doc) => match try_from_toml_value(&doc) {
            Ok(m) => Ok(m),
            Err(e) => Err(ConfigError::Schema(e)),
        },
        None => Err(ConfigError::InvalidSyntax),
    }
}

/// The default mapping in decoded form. The default asset always decodes:
/// the decoder is run on it here and the error branch is provably
/// unreachable.
pub fn get_icon_mappings_from_default_config() -> (r: Vec<(String, String)>)
    ensures
        r.deep_view() == default_mapping(),
{
    let raw = default_raw_config();
    match try_from_toml_value(&raw) {
        Ok(m) => m,
        // never reached: `default_raw_config` always decodes
        Err(_) => Vec::new(),
    }
}

/// Resolves the icon mapping from the contents of the user configuration
/// file, handed in as `Some(text)` when the file could be located and read
/// and as `None` otherwise. Total: for every combination of missing,
/// unreadable, malformed, mis-shaped or empty input it still returns a
/// valid mapping, at worst the compiled-in default.
pub fn get_icon_mappings(content: &Option<String>) -> (r: Vec<(String, String)>)
    ensures
        match *content {
            Some(t) => r.deep_view() == resolved_mapping(t@),
            None => r.deep_view() == default_mapping(),
        },
{
    if let Some(text) = content {
        match get_icon_mappings_from_config(text.as_str()) {
            Ok(m) => {
                return m;
            },
            Err(_) => {},
        }
    }
    get_icon_mappings_from_default_config()
}

} // verus!
