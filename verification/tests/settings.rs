use os_detect::settings::{ConfigSource, Settings};

fn source(name: &str, required: bool) -> ConfigSource {
    ConfigSource { name: name.to_string(), required }
}

#[test]
fn the_three_runtime_environments_are_selected() {
    for name in ["production", "staging", "development"] {
        assert_eq!(Settings::get_runtime_env(Some(name.to_string())), Some(name.to_string()));
    }
}

#[test]
fn any_other_value_selects_no_runtime_environment() {
    for name in ["", "prod", "Production", "production ", "testing", "staging\n"] {
        assert_eq!(Settings::get_runtime_env(Some(name.to_string())), None);
    }
    assert_eq!(Settings::get_runtime_env(None), None);
}

#[test]
fn without_an_environment_two_files_are_loaded() {
    assert_eq!(
        Settings::sources(None),
        vec![source("config.json5", true), source("config.local.json5", false)]
    );
}

#[test]
fn the_environment_file_comes_between_base_and_local() {
    assert_eq!(
        Settings::sources(Some(&"staging".to_string())),
        vec![
            source("config.json5", true),
            source("config.staging.json5", false),
            source("config.local.json5", false),
        ]
    );
}

#[test]
fn settings_hold_the_backup_file_name() {
    let settings = Settings { backup_file_name: "backup.json".to_string() };
    assert_eq!(settings.clone().backup_file_name, "backup.json");
}
