use workstyle_config::asset::default_config_text;
use workstyle_config::locate::{config_file, generate_config_file_if_absent, LocateError};
use workstyle_config::resolve::{get_icon_mappings, get_icon_mappings_from_default_config};

#[test]
fn config_file_builds_the_conventional_path() {
    let dir = Some("/home/user/.config".to_string());
    let loc = config_file(&dir).unwrap();
    assert_eq!(loc.dir_path, "/home/user/.config/workstyle".to_string());
    assert_eq!(loc.file_path, "/home/user/.config/workstyle/config.toml".to_string());
}

#[test]
fn config_file_fails_without_a_config_directory() {
    assert_eq!(config_file(&None).unwrap_err(), LocateError::MissingConfigDir);
}

#[test]
fn locator_seeds_a_missing_file_with_the_default_asset() {
    let dir = Some("/home/user/.config".to_string());
    let plan = generate_config_file_if_absent(&dir, false, false).unwrap();
    assert!(plan.create_dir);
    assert_eq!(plan.seed, Some(default_config_text()));
}

#[test]
fn locator_seed_decodes_to_the_default_mapping() {
    let dir = Some("/home/user/.config".to_string());
    let plan = generate_config_file_if_absent(&dir, true, false).unwrap();
    assert_eq!(get_icon_mappings(&plan.seed), get_icon_mappings_from_default_config());
}

#[test]
fn locator_is_idempotent_once_the_file_exists() {
    let dir = Some("/home/user/.config".to_string());
    let first = generate_config_file_if_absent(&dir, true, true).unwrap();
    let second = generate_config_file_if_absent(&dir, true, true).unwrap();
    assert!(!first.create_dir);
    assert_eq!(first.seed, None);
    assert!(!second.create_dir);
    assert_eq!(second.seed, None);
    assert_eq!(first.location.file_path, second.location.file_path);
}

#[test]
fn locator_fails_without_a_config_directory() {
    let r = generate_config_file_if_absent(&None, false, false);
    assert_eq!(r.unwrap_err(), LocateError::MissingConfigDir);
}
