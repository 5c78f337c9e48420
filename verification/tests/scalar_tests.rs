use workstyle_config::scalar::{get_fallback_icon, ExtraConfig};
use workstyle_config::value::RawValue;

#[test]
fn default_fallback_icon_is_a_space() {
    assert_eq!(ExtraConfig::default_fallback_icon(), " ".to_string());
}

#[test]
fn fallback_defaults_without_an_other_section() {
    let content = Some("firefox = \"f\"\n".to_string());
    assert_eq!(get_fallback_icon(&content), " ".to_string());
}

#[test]
fn fallback_takes_the_configured_override() {
    let content = Some("[other]\nfallback_icon = \"X\"\n".to_string());
    assert_eq!(get_fallback_icon(&content), "X".to_string());
}

#[test]
fn fallback_override_is_read_beside_the_mapping() {
    let content = Some("a = \"b\"\n[other]\nfallback_icon = \"Z\"\n".to_string());
    assert_eq!(get_fallback_icon(&content), "Z".to_string());
}

#[test]
fn fallback_defaults_when_the_field_is_absent() {
    let content = Some("[other]\n".to_string());
    assert_eq!(get_fallback_icon(&content), " ".to_string());
}

#[test]
fn fallback_defaults_when_the_field_is_not_a_string() {
    let content = Some("[other]\nfallback_icon = 3\n".to_string());
    assert_eq!(get_fallback_icon(&content), " ".to_string());
}

#[test]
fn fallback_defaults_on_syntax_error() {
    let content = Some("[other\nfallback_icon = \"X\"\n".to_string());
    assert_eq!(get_fallback_icon(&content), " ".to_string());
}

#[test]
fn fallback_defaults_without_content() {
    assert_eq!(get_fallback_icon(&None), " ".to_string());
}

#[test]
fn from_doc_reads_the_other_table() {
    let doc = RawValue::Table(vec![(
        "other".to_string(),
        RawValue::Table(vec![(
            "fallback_icon".to_string(),
            RawValue::Str("Q".to_string()),
        )]),
    )]);
    let extra = ExtraConfig::from_doc(&doc);
    assert_eq!(extra.fallback_icon, "Q".to_string());
}

#[test]
fn from_doc_defaults_when_other_is_not_a_table() {
    let doc = RawValue::Table(vec![("other".to_string(), RawValue::Str("no".to_string()))]);
    let extra = ExtraConfig::from_doc(&doc);
    assert_eq!(extra.fallback_icon, " ".to_string());
}
