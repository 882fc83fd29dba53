//! The release artifact: its download URL and the version carried in the
//! archive's first entry path.
//!
//! The artifact is a gzipped tar archive whose first entry path embeds the
//! version as its third dash-separated segment, a three-part dotted numeral
//! (`name-desktop-1.2.3-x64/...`). Decompressing and walking the archive is
//! the work of outside libraries behind one trusted wrapper; what the path
//! means is decided here, verified.

use vstd::prelude::*;
use crate::text::{count_char, count_char_from, split_from, split_on, chars_to_string,
    str_to_chars};

verus! {

/// Where the release artifact is downloaded from.
pub const DOWNLOAD_URL: &'static str = "https://apps.webinar.ru/weteams/linkchats-desktop.tar.gz";

/// Why no version could be read from an archive.
#[derive(Debug, PartialEq, Eq, Structural, Clone, Copy)]
pub enum PkgError {
    /// The bytes are not a readable gzipped tar archive with at least one
    /// entry.
    NoEntry,
    /// The first entry's path does not carry a version where one is
    /// expected.
    BadVersion,
}

/// The path of the first entry of the gzipped tar archive held in the given
/// bytes, when the bytes decompress and list at all: a pure function of the
/// bytes.
pub uninterp spec fn archive_first_path(data: Seq<u8>) -> Option<Seq<char>>;

/// Reads the first entry's path out of a gzipped tar archive.
///
/// Relies on `libflate::gzip::Decoder::new` to undo the gzip framing and on
/// `tar::Archive::entries` to list the archive's entries in order, with
/// `tar::Entry::path` giving the entry's path name; all three are functions
/// of the bytes alone. Any failure — bad gzip framing, a bad tar header, no
/// entry at all — is `None`.
#[verifier::external_body]
fn first_entry_path(data: &Vec<u8>) -> (r: Option<String>)
    ensures
        r is Some <==> archive_first_path(data@) is Some,
        r matches Some(p) ==> p@ == archive_first_path(data@)->0,
{
    let decoder = libflate::gzip::Decoder::new(&data[..]).ok()?;
    let mut archive = tar::Archive::new(decoder);
    let mut entries = archive.entries().ok()?;
    let entry = entries.next()?.ok()?;
    let path = entry.path().ok()?;
    Some(path.to_string_lossy().into_owned())
}

/// The version a first-entry path carries: its third dash-separated segment,
/// accepted only as a three-part dotted numeral (exactly two dots).
pub open spec fn spec_version_of_path(path: Seq<char>) -> Option<Seq<char>> {
    let segments = split_on(path, '-');
    if segments.len() > 2 && count_char(segments[2], '.') == 2 {
        Some(segments[2])
    } else {
        None
    }
}

/// Extracts the version out of a first-entry path.
pub fn version_of_path(path: &str) -> (r: Option<String>)
    ensures
        r is Some <==> spec_version_of_path(path@) is Some,
        r matches Some(ver) ==> ver@ == spec_version_of_path(path@)->0,
{
    let chars = str_to_chars(path);
    proof {
        assert(chars@.skip(0) =~= path@);
    }
    let segments = split_from(&chars, 0, '-');
    if segments.len() > 2 {
        let seg = &segments[2];
        proof {
            assert(seg@ == segments.deep_view()[2]);
            assert(seg@.skip(0) =~= seg@);
        }
        if count_char_from(seg, 0, '.') == 2 {
            Some(chars_to_string(seg))
        } else {
            None
        }
    } else {
        None
    }
}

/// Reads the release version out of a downloaded or locally supplied
/// archive: the third dash-separated segment of the first entry's path,
/// which must be a three-part dotted numeral. Says exactly which of the two
/// ways this can fail occurred.
pub fn parse_version(data: &Vec<u8>) -> (r: Result<String, PkgError>)
    ensures
        ({
            let p = archive_first_path(data@);
            &&& (r is Ok <==> p is Some && spec_version_of_path(p->0) is Some)
            &&& (r matches Ok(ver) ==> ver@ == spec_version_of_path(p->0)->0)
            &&& (p is None ==> r == Err::<String, PkgError>(PkgError::NoEntry))
            &&& (p is Some && spec_version_of_path(p->0) is None ==> r == Err::<String, PkgError>(
                PkgError::BadVersion,
            ))
        }),
{
    match first_entry_path(data) {
        None => Err(PkgError::NoEntry),
        Some(path) => match version_of_path(path.as_str()) {
            Some(ver) => Ok(ver),
            None => Err(PkgError::BadVersion),
        },
    }
}

} // verus!
