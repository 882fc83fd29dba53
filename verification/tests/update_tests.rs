use mts_linkchats_launcher::args::Args;
use mts_linkchats_launcher::config::Config;
use mts_linkchats_launcher::config_file::ConfigFile;
use mts_linkchats_launcher::paths::Paths;
use mts_linkchats_launcher::state::State;
use mts_linkchats_launcher::update::{apply_remote_version, should_update};

fn config_with_interval(interval: usize) -> Config {
    let args = Args {
        check_update: false,
        timeout: None,
        tar: None,
        install_dir: None,
        check_update_interval: Some(interval),
        download_attempts: None,
        verbose: 0,
        print_tar_url: false,
        no_exec: true,
    };
    let cf = ConfigFile::default();
    let paths = Paths::new("/d", "/c");
    let mut c = Config::new(&args, &cf, &paths).unwrap();
    c.check_update = true;
    c
}

#[test]
fn elapsed_time_against_the_interval_decides() {
    let now: u64 = 1_700_000_000;
    let st = State {
        version: "1.2.3".to_string(),
        last_update_check: now - 25 * 3600,
        pid: None,
    };
    let day = config_with_interval(24 * 3600);
    assert!(should_update(&day, &Some(st), now));
    let st2 = State {
        version: "1.2.3".to_string(),
        last_update_check: now - 25 * 3600,
        pid: None,
    };
    let two_days = config_with_interval(48 * 3600);
    assert!(!should_update(&two_days, &Some(st2), now));
}

#[test]
fn running_process_blocks_update_regardless_of_elapsed_time() {
    let now: u64 = 1_700_000_000;
    let st = State { version: "1.2.3".to_string(), last_update_check: 0, pid: Some(4321) };
    let c = config_with_interval(1);
    assert!(!should_update(&c, &Some(st), now));
}

#[test]
fn missing_state_forces_a_first_check() {
    let c = config_with_interval(u32::MAX as usize);
    assert!(should_update(&c, &None, 5));
}

#[test]
fn disabled_checks_never_run_and_force_always_does() {
    let now: u64 = 100;
    let mut c = config_with_interval(1);
    c.check_update = false;
    assert!(!should_update(&c, &None, now));
    c.force_check_update = true;
    assert!(should_update(&c, &None, now));
}

#[test]
fn a_check_stamp_in_the_future_counts_as_elapsed() {
    let c = config_with_interval(24 * 3600);
    let st = State { version: "1".to_string(), last_update_check: 1000, pid: None };
    assert!(should_update(&c, &Some(st), 500));
}

#[test]
fn update_pipeline_is_idempotent() {
    let mut st = State::default();
    let remote = "2.0.0".to_string();
    // First cycle: the version differs, an install is due.
    let first = apply_remote_version(&mut st, &remote, false, 1000);
    assert!(first);
    assert_eq!(st.version, "2.0.0");
    assert_eq!(st.last_update_check, 1000);
    // Second cycle, same remote version: no install, no swap; the state's
    // version is unchanged.
    let second = apply_remote_version(&mut st, &remote, false, 2000);
    assert!(!second);
    assert_eq!(st.version, "2.0.0");
    assert_eq!(st.last_update_check, 2000);
}

#[test]
fn forced_update_installs_even_when_current() {
    let mut st = State { version: "2.0.0".to_string(), last_update_check: 0, pid: Some(9) };
    let remote = "2.0.0".to_string();
    let install = apply_remote_version(&mut st, &remote, true, 50);
    assert!(install);
    assert_eq!(st.pid, Some(9));
}
