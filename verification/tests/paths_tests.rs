use mts_linkchats_launcher::paths::Paths;
use mts_linkchats_launcher::state::State;
use mts_linkchats_launcher::update::run_update_cycle;
use std::io::Write;

#[test]
fn paths_are_laid_out_under_the_roots() {
    let p = Paths::new("/home/u/.local/share", "/home/u/.cache");
    assert_eq!(p.install, "/home/u/.local/share/install");
    assert_eq!(p.new_install, "/home/u/.local/share/install-new");
    assert_eq!(p.state, "/home/u/.local/share/state.toml");
    assert_eq!(p.cache, "/home/u/.cache");
}

#[test]
fn one_update_cycle_stamps_the_state() {
    let mut builder = tar::Builder::new(Vec::new());
    let contents = b"x";
    let mut header = tar::Header::new_gnu();
    header.set_size(contents.len() as u64);
    header.set_mode(0o644);
    builder.append_data(&mut header, "linkchats-desktop-3.1.4-x64/f", &contents[..]).unwrap();
    let tar_bytes = builder.into_inner().unwrap();
    let mut encoder = libflate::gzip::Encoder::new(Vec::new()).unwrap();
    encoder.write_all(&tar_bytes).unwrap();
    let data = encoder.finish().into_result().unwrap();

    let mut st = State::default();
    let install = run_update_cycle(&mut st, &data, false, 999).unwrap();
    assert!(install);
    assert_eq!(st.version, "3.1.4");
    assert_eq!(st.last_update_check, 999);
    // The second cycle against the same archive is a no-op on the install.
    let again = run_update_cycle(&mut st, &data, false, 1001).unwrap();
    assert!(!again);
    assert_eq!(st.version, "3.1.4");
}

#[test]
fn an_unreadable_archive_leaves_the_state_untouched() {
    let mut st = State { version: "1.0.0".to_string(), last_update_check: 5, pid: None };
    let r = run_update_cycle(&mut st, &vec![1, 2, 3], false, 999);
    assert!(r.is_err());
    assert_eq!(st.version, "1.0.0");
    assert_eq!(st.last_update_check, 5);
}
