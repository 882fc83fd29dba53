use mts_linkchats_launcher::config_file::ConfigFile;

#[test]
fn test_empty_config() {
    let cf = ConfigFile::parse("").unwrap();
    assert_eq!(cf, ConfigFile::default());
}

#[test]
fn test_empty_mts_linkchats_config() {
    let cf = ConfigFile::parse("[mts-linkchats]").unwrap();
    assert_eq!(cf, ConfigFile::default());
}

#[test]
fn test_empty_launcher_config() {
    let cf = ConfigFile::parse("[launcher]").unwrap();
    assert_eq!(cf, ConfigFile::default());
}

#[test]
fn test_check_update_and_check_update_interval_confg() {
    let cf = ConfigFile::parse(
        "\n[launcher]\ncheck_update = false\ncheck_update_interval = 0\n        ",
    )
    .unwrap();
    assert!(!cf.launcher.check_update);
    assert_eq!(cf.launcher.check_update_interval, 0);
}

#[test]
fn test_check_update_interval_negative_config() {
    let cf = ConfigFile::parse("\n[launcher]\ncheck_update_interval = -1\n        ");
    assert!(cf.is_err());
}
