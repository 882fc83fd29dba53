use mts_linkchats_launcher::args::Args;
use mts_linkchats_launcher::config::Config;
use mts_linkchats_launcher::config_file::{ConfigError, ConfigFile};
use mts_linkchats_launcher::paths::Paths;

fn get_default_args() -> Args {
    Args {
        check_update: false,
        timeout: None,
        tar: None,
        install_dir: None,
        check_update_interval: None,
        download_attempts: None,
        verbose: 0,
        print_tar_url: false,
        no_exec: true,
    }
}

#[test]
fn check_overrided_args_over_config_file() {
    let args = Args {
        check_update: true,
        install_dir: Some(
            dirs::data_dir().unwrap().join(".test").to_string_lossy().into_owned(),
        ),
        download_attempts: Some(1),
        tar: Some(
            dirs::cache_dir().unwrap().join(".test.tar.gz").to_string_lossy().into_owned(),
        ),
        ..get_default_args()
    };
    let cf = ConfigFile::parse(
        "\n[launcher]\ncheck_update = false\ndownload_attempts = 2\n        ",
    )
    .unwrap();
    let config = Config::builder(&args).config_file(&cf).build().unwrap();

    assert!(!cf.launcher.check_update);
    assert_eq!(cf.launcher.download_attempts, Some(2));

    assert_eq!(config.check_update, args.check_update);
    assert_eq!(config.download_attempts, args.download_attempts.unwrap());
    assert_eq!(config.install_path, *args.install_dir.as_ref().unwrap());
    assert_eq!(config.new_install_path, *args.install_dir.as_ref().unwrap());
    assert!(config.force_check_update);
}

#[test]
fn config_file_wins_over_defaults() {
    let args = get_default_args();
    let cf = ConfigFile::parse("[launcher]\ncheck_update = false\ncheck_update_interval = 60\n")
        .unwrap();
    let paths = Paths::new("/data", "/cache");
    let config = Config::new(&args, &cf, &paths).unwrap();
    assert!(!config.check_update);
    assert_eq!(config.check_update_interval, 60);
    assert_eq!(config.download_attempts, 5);
    assert_eq!(config.install_path, "/data/install");
    assert_eq!(config.new_install_path, "/data/install-new");
    assert_eq!(config.state_path, "/data/state.toml");
    assert_eq!(config.cache_path, "/cache");
    assert!(!config.force_check_update);
}

#[test]
fn builder_without_config_file_uses_defaults() {
    let args = get_default_args();
    let config = Config::builder(&args).build().unwrap();
    assert!(config.check_update);
    assert_eq!(config.check_update_interval, 86400);
    assert_eq!(config.download_attempts, 5);
    assert!(config.extra_arguments.is_empty());
}

#[test]
fn extra_arguments_are_carried_over() {
    let args = get_default_args();
    let cf = ConfigFile::parse("[mts-linkchats]\nextra_arguments = [\"--a\", \"--b\"]\n").unwrap();
    let paths = Paths::new("/d", "/c");
    let config = Config::new(&args, &cf, &paths).unwrap();
    assert_eq!(config.extra_arguments, vec!["--a".to_string(), "--b".to_string()]);
}

#[test]
fn bad_value_for_bool_key_is_type_mismatch() {
    let cf = ConfigFile::parse("[launcher]\ncheck_update = 5\n");
    assert_eq!(cf.unwrap_err(), ConfigError::TypeMismatch);
}

#[test]
fn out_of_range_integers_are_rejected_as_such() {
    let neg = ConfigFile::parse("[launcher]\ncheck_update_interval = -1\n");
    assert_eq!(neg.unwrap_err(), ConfigError::OutOfRange);
    let huge = ConfigFile::parse(
        "[launcher]\ncheck_update_interval = 99999999999999999999999999\n",
    );
    assert_eq!(huge.unwrap_err(), ConfigError::OutOfRange);
}

#[test]
fn meaningless_line_is_syntax_error() {
    let cf = ConfigFile::parse("[launcher]\nwhat is this\n");
    assert_eq!(cf.unwrap_err(), ConfigError::Syntax);
}

#[test]
fn comments_and_unknown_keys_are_ignored() {
    let cf = ConfigFile::parse(
        "# a comment\nsomething = 1\n[launcher]\nunknown_key = whatever\n[other-table]\nx = 2\n",
    )
    .unwrap();
    assert_eq!(cf, ConfigFile::default());
}

#[test]
fn empty_array_parses_empty() {
    let cf = ConfigFile::parse("[mts-linkchats]\nextra_env_vars = [ ]\n").unwrap();
    assert!(cf.mts_linkchats.extra_env_vars.is_empty());
    assert_eq!(cf.launcher, ConfigFile::default().launcher);
}
