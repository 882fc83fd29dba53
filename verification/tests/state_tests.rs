use mts_linkchats_launcher::state::State;

#[test]
fn state_renders_exact_text() {
    let st = State { version: "1.2.3".to_string(), last_update_check: 12345, pid: Some(4321) };
    assert_eq!(st.to_toml(), "version = \"1.2.3\"\nlast_update_check = 12345\npid = 4321\n");
}

#[test]
fn state_without_pid_renders_without_pid_line() {
    let st = State { version: "0.1.0".to_string(), last_update_check: 0, pid: None };
    assert_eq!(st.to_toml(), "version = \"0.1.0\"\nlast_update_check = 0\n");
}

#[test]
fn save_load_save_is_byte_identical() {
    let st = State { version: "1.2.3".to_string(), last_update_check: 1700000000, pid: Some(77) };
    let text = st.to_toml();
    let loaded = State::parse(&text).unwrap();
    assert_eq!(loaded.version, "1.2.3");
    assert_eq!(loaded.last_update_check, 1700000000);
    assert_eq!(loaded.pid, Some(77));
    assert_eq!(loaded.to_toml(), text);
}

#[test]
fn save_load_save_without_pid_is_byte_identical() {
    let st = State { version: "9.0.1".to_string(), last_update_check: 42, pid: None };
    let text = st.to_toml();
    let loaded = State::parse(&text).unwrap();
    assert_eq!(loaded.pid, None);
    assert_eq!(loaded.to_toml(), text);
}

#[test]
fn corrupt_state_text_parses_to_nothing() {
    assert!(State::parse("").is_none());
    assert!(State::parse("not a state file").is_none());
    assert!(State::parse("version = \"1.2.3\"").is_none());
    assert!(State::parse("version = \"1.2.3\"\nlast_update_check = \n").is_none());
    assert!(State::parse("version = \"1.2.3\"\nlast_update_check = 5\npid = \n").is_none());
    assert!(State::parse("version = \"1.2.3\"\nlast_update_check = 5\npid = 1\nx").is_none());
}

#[test]
fn numbers_beyond_their_fields_are_rejected() {
    // One digit past what a u64 can hold.
    let t = "version = \"1\"\nlast_update_check = 18446744073709551616\n";
    assert!(State::parse(t).is_none());
    // A pid past what a u32 can hold.
    let t2 = "version = \"1\"\nlast_update_check = 5\npid = 4294967296\n";
    assert!(State::parse(t2).is_none());
    // The largest values that do fit survive the round trip.
    let st = State {
        version: "1".to_string(),
        last_update_check: u64::MAX,
        pid: Some(u32::MAX),
    };
    let loaded = State::parse(&st.to_toml()).unwrap();
    assert_eq!(loaded.last_update_check, u64::MAX);
    assert_eq!(loaded.pid, Some(u32::MAX));
}

#[test]
fn default_state_is_zero_valued() {
    let st = State::default();
    assert_eq!(st.version, "");
    assert_eq!(st.last_update_check, 0);
    assert_eq!(st.pid, None);
    let loaded = State::parse(&st.to_toml()).unwrap();
    assert_eq!(loaded.version, "");
    assert_eq!(loaded.last_update_check, 0);
}

#[test]
fn set_pid_changes_only_the_pid() {
    let mut st = State { version: "1.2.3".to_string(), last_update_check: 9, pid: None };
    st.set_pid(Some(10));
    assert_eq!(st.pid, Some(10));
    assert_eq!(st.version, "1.2.3");
    assert_eq!(st.last_update_check, 9);
    st.set_pid(None);
    assert_eq!(st.pid, None);
}
