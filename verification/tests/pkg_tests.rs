use mts_linkchats_launcher::pkg::{parse_version, version_of_path, PkgError, DOWNLOAD_URL};
use std::io::Write;

fn gzipped_tar_with_first_entry(path: &str) -> Vec<u8> {
    let mut builder = tar::Builder::new(Vec::new());
    let contents = b"payload";
    let mut header = tar::Header::new_gnu();
    header.set_size(contents.len() as u64);
    header.set_mode(0o644);
    builder.append_data(&mut header, path, &contents[..]).unwrap();
    let tar_bytes = builder.into_inner().unwrap();
    let mut encoder = libflate::gzip::Encoder::new(Vec::new()).unwrap();
    encoder.write_all(&tar_bytes).unwrap();
    encoder.finish().into_result().unwrap()
}

#[test]
fn version_is_read_out_of_the_archive() {
    let data = gzipped_tar_with_first_entry("linkchats-desktop-9.8.7-x64/app.bin");
    assert_eq!(parse_version(&data).unwrap(), "9.8.7");
}

#[test]
fn garbage_bytes_give_no_entry() {
    let data = vec![0u8, 1, 2, 3, 4, 5];
    assert_eq!(parse_version(&data).unwrap_err(), PkgError::NoEntry);
}

#[test]
fn a_path_without_a_version_is_rejected() {
    let data = gzipped_tar_with_first_entry("no-version/app.bin");
    assert_eq!(parse_version(&data).unwrap_err(), PkgError::BadVersion);
}

#[test]
fn a_two_part_numeral_is_not_a_version() {
    let data = gzipped_tar_with_first_entry("linkchats-desktop-1.2-x64/app.bin");
    assert_eq!(parse_version(&data).unwrap_err(), PkgError::BadVersion);
}

#[test]
fn version_of_path_picks_the_third_dash_segment() {
    assert_eq!(version_of_path("linkchats-desktop-1.2.3-x64/a").unwrap(), "1.2.3");
    assert_eq!(version_of_path("a-b-0.0.1").unwrap(), "0.0.1");
    assert!(version_of_path("a-b").is_none());
    assert!(version_of_path("a-b-1.2.3.4-x").is_none());
    assert!(version_of_path("").is_none());
}

#[test]
fn the_download_url_names_the_artifact() {
    assert!(DOWNLOAD_URL.ends_with("linkchats-desktop.tar.gz"));
}
