use d2rlauncher::config::{default_quick_launch, plan_config_load, Config, ConfigError, ConfigLoad, LaunchMode};
use d2rlauncher::domain::Region;

fn config_from_json(text: &str) -> Result<Config, ConfigError> {
    let value: serde_json::Value = serde_json::from_str(text).unwrap();
    let launch_mode = value.get("launch_mode").map(|v| v.as_str().unwrap().to_string());
    let d2r_path = value.get("d2r_path").and_then(|v| v.as_str()).map(|s| s.to_string());
    let quick_launch = value.get("quick_launch").map(|v| v.as_bool().unwrap());
    let default_region = value.get("default_region").and_then(|v| v.as_str()).map(|s| s.to_string());
    Config::from_fields(launch_mode.as_deref(), d2r_path, quick_launch, default_region.as_deref())
}

#[test]
fn launch_mode_should_map_legacy_battle_net_value_to_direct() {
    let config = config_from_json(r#"{"launch_mode":"battle_net"}"#).unwrap();
    assert_eq!(config.launch_mode, LaunchMode::Direct);
}

#[test]
fn launch_mode_should_map_legacy_custom_value_to_direct() {
    let config = config_from_json(r#"{"launch_mode":"custom"}"#).unwrap();
    assert_eq!(config.launch_mode, LaunchMode::Direct);
}

#[test]
fn missing_fields_take_defaults() {
    let config = config_from_json("{}").unwrap();
    assert_eq!(config.launch_mode, LaunchMode::Steam);
    assert_eq!(config.d2r_path, None);
    assert!(config.quick_launch);
    assert_eq!(config.default_region, None);
    assert!(default_quick_launch());
    let default = Config::default();
    assert_eq!(default.launch_mode, LaunchMode::Steam);
    assert!(default.quick_launch);
    assert_eq!(default.default_region, None);
    assert_eq!(default.d2r_path, None);
}

#[test]
fn all_fields_are_read() {
    let config = config_from_json(
        r#"{"launch_mode":"direct","d2r_path":"C:/Games/D2R","quick_launch":false,"default_region":"Asia"}"#,
    )
    .unwrap();
    assert_eq!(config.launch_mode, LaunchMode::Direct);
    assert_eq!(config.d2r_path.as_deref(), Some("C:/Games/D2R"));
    assert!(!config.quick_launch);
    assert_eq!(config.default_region, Some(Region::Asia));
}

#[test]
fn unknown_names_are_rejected() {
    assert_eq!(
        config_from_json(r#"{"launch_mode":"epic"}"#).unwrap_err(),
        ConfigError::UnknownLaunchMode("epic".to_string())
    );
    assert_eq!(
        config_from_json(r#"{"default_region":"Mars"}"#).unwrap_err(),
        ConfigError::UnknownRegion("Mars".to_string())
    );
    assert_eq!(
        config_from_json(r#"{"launch_mode":"epic","default_region":"Mars"}"#).unwrap_err(),
        ConfigError::UnknownLaunchMode("epic".to_string())
    );
}

#[test]
fn launch_mode_names_round_trip() {
    for mode in [LaunchMode::Steam, LaunchMode::Direct] {
        assert_eq!(LaunchMode::from_config_name(mode.config_name()), Some(mode));
    }
    assert_eq!(LaunchMode::Steam.config_name(), "steam");
    assert_eq!(LaunchMode::Direct.config_name(), "direct");
    assert_eq!(LaunchMode::from_config_name("Steam"), None);
}

#[test]
fn config_path_is_next_to_launcher() {
    assert_eq!(Config::config_path(Some("/tools")), "/tools/config.json");
    assert_eq!(Config::config_path(None), "./config.json");
}

#[test]
fn resolved_d2r_path_is_configured_path() {
    let mut config = Config::default();
    assert_eq!(config.resolved_d2r_path(), None);
    config.d2r_path = Some("/games/d2r".to_string());
    assert_eq!(config.resolved_d2r_path().as_deref(), Some("/games/d2r"));
}

#[test]
fn written_config_reads_back_unchanged() {
    let config = Config {
        launch_mode: LaunchMode::Direct,
        d2r_path: Some("/games/d2r".to_string()),
        quick_launch: false,
        default_region: Some(Region::Europe),
    };
    let read = Config::from_fields(
        Some(config.launch_mode.config_name()),
        config.d2r_path.clone(),
        Some(config.quick_launch),
        config.default_region.map(|r| r.name()),
    )
    .unwrap();
    assert_eq!(read.launch_mode, config.launch_mode);
    assert_eq!(read.d2r_path, config.d2r_path);
    assert_eq!(read.quick_launch, config.quick_launch);
    assert_eq!(read.default_region, config.default_region);
}

#[test]
fn missing_config_file_is_written_with_defaults() {
    assert!(matches!(plan_config_load(true), ConfigLoad::ReadFile));
    match plan_config_load(false) {
        ConfigLoad::WriteDefault(config) => {
            assert_eq!(config.launch_mode, LaunchMode::Steam);
            assert_eq!(config.d2r_path, None);
            assert!(config.quick_launch);
            assert_eq!(config.default_region, None);
        }
        ConfigLoad::ReadFile => panic!("expected the default configuration"),
    }
}
