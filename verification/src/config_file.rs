//! The on-disk configuration file: its sections and their defaults.
//!
//! The file is a small TOML document with two tables, `[launcher]` and
//! `[mts-linkchats]`. Reading the file from disk is the shell's job; parsing
//! the text is done here, by a verified parser for the subset of TOML the
//! file uses.

use vstd::prelude::*;
use crate::text::{
    digits_val, find_char, scan_digits, split_on, trimmed, chars_to_string, copy_range,
    digits_value_u64, find_char_from, lemma_scan_digits_all_digits, match_at, scan_digits_from,
    split_from, str_to_chars, trim_copy,
};

verus! {

/// Seconds in one day: the default interval between update checks.
pub const DEFAULT_CHECK_UPDATE_INTERVAL: usize = 86400;

/// Why a configuration text was rejected.
#[derive(Debug, PartialEq, Eq, Structural, Clone, Copy)]
pub enum ConfigError {
    /// A line is not blank, not a comment, not a table header and not a
    /// `key = value` pair, or a value is malformed.
    Syntax,
    /// An integer value does not fit the field it is for.
    OutOfRange,
    /// A known key carries a value of the wrong type.
    TypeMismatch,
}

/// Settings of the managed application itself.
#[derive(Debug, PartialEq)]
pub struct MtsLinkchatsConfig {
    /// Extra arguments handed to the managed binary.
    pub extra_arguments: Vec<String>,
    /// Extra environment variables handed to the managed binary.
    pub extra_env_vars: Vec<String>,
}

/// Settings of the launcher.
#[derive(Debug, PartialEq)]
pub struct LauncherConfig {
    /// Whether to check for updates at all.
    pub check_update: bool,
    /// Seconds between update checks.
    pub check_update_interval: usize,
    /// Download attempt budget; `None` defers to the built-in default.
    pub download_attempts: Option<usize>,
}

/// The whole configuration file.
#[derive(Debug, PartialEq)]
pub struct ConfigFile {
    pub mts_linkchats: MtsLinkchatsConfig,
    pub launcher: LauncherConfig,
}

/// What a default [`ConfigFile`] holds, stated as a predicate so that
/// contracts can speak of it.
pub open spec fn is_default_config_file(c: ConfigFile) -> bool {
    &&& c.mts_linkchats.extra_arguments@ == Seq::<String>::empty()
    &&& c.mts_linkchats.extra_env_vars@ == Seq::<String>::empty()
    &&& c.launcher.check_update == true
    &&& c.launcher.check_update_interval == DEFAULT_CHECK_UPDATE_INTERVAL
    &&& c.launcher.download_attempts == Option::<usize>::None
}

impl Default for MtsLinkchatsConfig {
    /// No extra arguments and no extra environment variables.
    fn default() -> (c: Self)
        ensures
            c.extra_arguments@ == Seq::<String>::empty(),
            c.extra_env_vars@ == Seq::<String>::empty(),
    {
        MtsLinkchatsConfig { extra_arguments: Vec::new(), extra_env_vars: Vec::new() }
    }
}

impl Default for LauncherConfig {
    /// Update checks are on, once a day, with the attempt budget left to the
    /// built-in default.
    fn default() -> (c: Self)
        ensures
            c.check_update == true,
            c.check_update_interval == DEFAULT_CHECK_UPDATE_INTERVAL,
            c.download_attempts == Option::<usize>::None,
    {
        LauncherConfig {
            check_update: true,
            check_update_interval: DEFAULT_CHECK_UPDATE_INTERVAL,
            download_attempts: None,
        }
    }
}

impl Default for ConfigFile {
    fn default() -> (c: Self)
        ensures
            is_default_config_file(c),
    {
        ConfigFile {
            mts_linkchats: MtsLinkchatsConfig::default(),
            launcher: LauncherConfig::default(),
        }
    }
}

/// What a [`ConfigFile`] holds, mathematically.
pub ghost struct ConfigFileV {
    pub extra_arguments: Seq<Seq<char>>,
    pub extra_env_vars: Seq<Seq<char>>,
    pub check_update: bool,
    pub check_update_interval: int,
    pub download_attempts: Option<int>,
}

impl View for ConfigFile {
    type V = ConfigFileV;

    open spec fn view(&self) -> ConfigFileV {
        ConfigFileV {
            extra_arguments: self.mts_linkchats.extra_arguments.deep_view(),
            extra_env_vars: self.mts_linkchats.extra_env_vars.deep_view(),
            check_update: self.launcher.check_update,
            check_update_interval: self.launcher.check_update_interval as int,
            download_attempts: match self.launcher.download_attempts {
                Some(n) => Some(n as int),
                None => None,
            },
        }
    }
}

/// What a default configuration holds.
pub open spec fn default_config_v() -> ConfigFileV {
    ConfigFileV {
        extra_arguments: Seq::<Seq<char>>::empty(),
        extra_env_vars: Seq::<Seq<char>>::empty(),
        check_update: true,
        check_update_interval: DEFAULT_CHECK_UPDATE_INTERVAL as int,
        download_attempts: None,
    }
}

/// Which table of the file a line belongs to.
#[derive(Debug, PartialEq, Eq, Structural, Clone, Copy)]
pub enum Section {
    /// Before any table header.
    Preamble,
    /// Inside `[launcher]`.
    Launcher,
    /// Inside `[mts-linkchats]`.
    MtsLinkchats,
    /// Inside a table this file does not know; its keys are ignored.
    Other,
}

/// The section a table header names.
pub open spec fn section_of(name: Seq<char>) -> Section {
    if name == "launcher"@ {
        Section::Launcher
    } else if name == "mts-linkchats"@ {
        Section::MtsLinkchats
    } else {
        Section::Other
    }
}

/// A boolean value: the word `true` or the word `false`.
pub open spec fn spec_bool_value(v: Seq<char>) -> Option<bool> {
    if v == "true"@ {
        Some(true)
    } else if v == "false"@ {
        Some(false)
    } else {
        None
    }
}

/// An integer value's shape: an optional minus sign, then digits; gives the
/// sign and the digits.
pub open spec fn spec_int_shape(v: Seq<char>) -> Option<(bool, Seq<char>)> {
    if v.len() >= 1 && v[0] == '-' {
        let ds = v.skip(1);
        if ds.len() >= 1 && scan_digits(ds) == ds.len() {
            Some((true, ds))
        } else {
            None
        }
    } else if v.len() >= 1 && scan_digits(v) == v.len() {
        Some((false, v))
    } else {
        None
    }
}

/// An integer value for an unsigned field: negative values and values beyond
/// the field are rejected, each with its own error.
pub open spec fn spec_usize_value(v: Seq<char>) -> Result<int, ConfigError> {
    match spec_int_shape(v) {
        None => Err(ConfigError::TypeMismatch),
        Some((neg, ds)) => if neg {
            Err(ConfigError::OutOfRange)
        } else if digits_val(ds) > usize::MAX {
            Err(ConfigError::OutOfRange)
        } else {
            Ok(digits_val(ds))
        },
    }
}

/// A string value: quote-delimited, with no quote inside.
pub open spec fn spec_str_value(v: Seq<char>) -> Option<Seq<char>> {
    if v.len() >= 2 && v[0] == '"' && v.last() == '"' && find_char(
        v.subrange(1, v.len() - 1),
        '"',
    ) is None {
        Some(v.subrange(1, v.len() - 1))
    } else {
        None
    }
}

/// An array value: bracket-delimited, comma-separated string values.
pub open spec fn spec_array_value(v: Seq<char>) -> Option<Seq<Seq<char>>> {
    if v.len() >= 2 && v[0] == '[' && v.last() == ']' {
        let inner = trimmed(v.subrange(1, v.len() - 1));
        if inner.len() == 0 {
            Some(Seq::<Seq<char>>::empty())
        } else {
            let elems = split_on(inner, ',');
            if forall|i: int|
                0 <= i < elems.len() ==> spec_str_value(trimmed(#[trigger] elems[i])) is Some {
                Some(Seq::new(elems.len(), |i: int| spec_str_value(trimmed(elems[i]))->0))
            } else {
                None
            }
        }
    } else {
        None
    }
}

/// What one `key = value` pair does to the configuration: known keys of the
/// known tables set their field, everything else is ignored; a known key
/// with an unusable value is an error.
pub open spec fn apply_kv(sec: Section, cfg: ConfigFileV, key: Seq<char>, val: Seq<char>) -> Result<
    ConfigFileV,
    ConfigError,
> {
    if sec == Section::Launcher {
        if key == "check_update"@ {
            match spec_bool_value(val) {
                Some(b) => Ok(ConfigFileV { check_update: b, ..cfg }),
                None => Err(ConfigError::TypeMismatch),
            }
        } else if key == "check_update_interval"@ {
            match spec_usize_value(val) {
                Ok(n) => Ok(ConfigFileV { check_update_interval: n, ..cfg }),
                Err(e) => Err(e),
            }
        } else if key == "download_attempts"@ {
            match spec_usize_value(val) {
                Ok(n) => Ok(ConfigFileV { download_attempts: Some(n), ..cfg }),
                Err(e) => Err(e),
            }
        } else {
            Ok(cfg)
        }
    } else if sec == Section::MtsLinkchats {
        if key == "extra_arguments"@ {
            match spec_array_value(val) {
                Some(a) => Ok(ConfigFileV { extra_arguments: a, ..cfg }),
                None => Err(ConfigError::TypeMismatch),
            }
        } else if key == "extra_env_vars"@ {
            match spec_array_value(val) {
                Some(a) => Ok(ConfigFileV { extra_env_vars: a, ..cfg }),
                None => Err(ConfigError::TypeMismatch),
            }
        } else {
            Ok(cfg)
        }
    } else {
        Ok(cfg)
    }
}

/// What one line does: blank lines and comments are skipped, a bracketed
/// header switches the section, a `key = value` pair applies, anything else
/// is a syntax error.
pub open spec fn process_line(sec: Section, cfg: ConfigFileV, line: Seq<char>) -> Result<
    (Section, ConfigFileV),
    ConfigError,
> {
    let s = trimmed(line);
    if s.len() == 0 {
        Ok((sec, cfg))
    } else if s[0] == '#' {
        Ok((sec, cfg))
    } else if s[0] == '[' {
        if s.len() >= 2 && s.last() == ']' {
            Ok((section_of(s.subrange(1, s.len() - 1)), cfg))
        } else {
            Err(ConfigError::Syntax)
        }
    } else {
        match find_char(s, '=') {
            None => Err(ConfigError::Syntax),
            Some(i) => {
                let key = trimmed(s.take(i));
                let val = trimmed(s.skip(i + 1));
                match apply_kv(sec, cfg, key, val) {
                    Ok(c) => Ok((sec, c)),
                    Err(e) => Err(e),
                }
            },
        }
    }
}

/// The lines processed in order; the first error wins.
pub open spec fn process_lines(sec: Section, cfg: ConfigFileV, lines: Seq<Seq<char>>) -> Result<
    (Section, ConfigFileV),
    ConfigError,
>
    decreases lines.len(),
{
    if lines.len() == 0 {
        Ok((sec, cfg))
    } else {
        match process_line(sec, cfg, lines[0]) {
            Err(e) => Err(e),
            Ok(p) => process_lines(p.0, p.1, lines.drop_first()),
        }
    }
}

/// What a configuration text parses to: its lines folded over a default
/// configuration.
pub open spec fn spec_parse_config(t: Seq<char>) -> Result<ConfigFileV, ConfigError> {
    match process_lines(Section::Preamble, default_config_v(), split_on(t, '\n')) {
        Ok(p) => Ok(p.1),
        Err(e) => Err(e),
    }
}

/// Reads a boolean value.
fn parse_bool_value(v: &Vec<char>) -> (r: Option<bool>)
    ensures
        r == spec_bool_value(v@),
{
    proof {
        reveal_strlit("true");
        reveal_strlit("false");
        assert(v@.skip(0) =~= v@);
        if v@.len() == 4 {
            assert(v@.take(4) =~= v@);
        }
        if v@.len() == 5 {
            assert(v@.take(5) =~= v@);
        }
    }
    if v.len() == 4 && match_at(v, 0, "true") {
        Some(true)
    } else if v.len() == 5 && match_at(v, 0, "false") {
        Some(false)
    } else {
        None
    }
}

/// Reads an integer value for an unsigned field.
fn parse_usize_value(v: &Vec<char>) -> (r: Result<usize, ConfigError>)
    ensures
        ({
            let sp = spec_usize_value(v@);
            &&& (r matches Ok(n) ==> sp == Ok::<int, ConfigError>(n as int))
            &&& (r matches Err(e) ==> sp == Err::<int, ConfigError>(e))
        }),
{
    proof {
        assert(v@.skip(0) =~= v@);
    }
    if v.len() >= 1 && v[0] == '-' {
        let dend = scan_digits_from(v, 1);
        if v.len() >= 2 && dend == v.len() {
            Err(ConfigError::OutOfRange)
        } else {
            proof {
                let ds = v@.skip(1);
                if ds.len() >= 1 && scan_digits(ds) == ds.len() {
                    assert(dend - 1 == scan_digits(ds));
                    assert(dend == v@.len());
                }
            }
            Err(ConfigError::TypeMismatch)
        }
    } else {
        let dend = scan_digits_from(v, 0);
        if v.len() >= 1 && dend == v.len() {
            proof {
                lemma_scan_digits_all_digits(v@);
                assert(forall|k: int|
                    0 <= k < v@.len() ==> crate::text::is_digit(#[trigger] v@[k]));
                assert(v@.subrange(0, v@.len() as int) =~= v@);
            }
            match digits_value_u64(v, 0, v.len()) {
                None => Err(ConfigError::OutOfRange),
                Some(x) => {
                    if x > usize::MAX as u64 {
                        Err(ConfigError::OutOfRange)
                    } else {
                        Ok(x as usize)
                    }
                },
            }
        } else {
            Err(ConfigError::TypeMismatch)
        }
    }
}

/// Reads a string value.
fn parse_str_value(v: &Vec<char>) -> (r: Option<Vec<char>>)
    ensures
        r is Some <==> spec_str_value(v@) is Some,
        r matches Some(inner) ==> inner@ == spec_str_value(v@)->0,
{
    if v.len() >= 2 && v[0] == '"' && v[v.len() - 1] == '"' {
        let inner = copy_range(v, 1, v.len() - 1);
        proof {
            assert(inner@ == v@.subrange(1, v@.len() - 1));
            assert(inner@.skip(0) =~= inner@);
        }
        if find_char_from(&inner, 0, '"').is_none() {
            Some(inner)
        } else {
            None
        }
    } else {
        None
    }
}

/// Reads an array-of-strings value.
fn parse_array_value(v: &Vec<char>) -> (r: Option<Vec<String>>)
    ensures
        r is Some <==> spec_array_value(v@) is Some,
        r matches Some(items) ==> items.deep_view() == spec_array_value(v@)->0,
{
    if !(v.len() >= 2 && v[0] == '[' && v[v.len() - 1] == ']') {
        return None;
    }
    let inner_raw = copy_range(v, 1, v.len() - 1);
    let inner = trim_copy(&inner_raw);
    proof {
        assert(inner@ == trimmed(v@.subrange(1, v@.len() - 1)));
    }
    if inner.len() == 0 {
        let items: Vec<String> = Vec::new();
        proof {
            assert(items.deep_view() =~~= spec_array_value(v@)->0);
        }
        return Some(items);
    }
    proof {
        assert(inner@.skip(0) =~= inner@);
    }
    let elems = split_from(&inner, 0, ',');
    let ghost selems = split_on(inner@, ',');
    let mut items: Vec<String> = Vec::new();
    let mut j: usize = 0;
    while j < elems.len()
        invariant
            j <= elems.len(),
            selems == split_on(inner@, ','),
            elems.deep_view() == selems,
            inner@ == trimmed(v@.subrange(1, v@.len() - 1)),
            v@.len() >= 2,
            v@[0] == '[',
            v@.last() == ']',
            inner@.len() > 0,
            items@.len() == j,
            forall|k: int|
                0 <= k < j ==> spec_str_value(trimmed(#[trigger] selems[k])) is Some
                    && items.deep_view()[k] == spec_str_value(trimmed(selems[k]))->0,
        decreases elems.len() - j,
    {
        let et = trim_copy(&elems[j]);
        proof {
            assert(elems[j as int]@ == selems[j as int]);
            assert(et@ == trimmed(selems[j as int]));
        }
        match parse_str_value(&et) {
            Some(sv) => {
                items.push(chars_to_string(&sv));
            },
            None => {
                proof {
                    let sinner = trimmed(v@.subrange(1, v@.len() - 1));
                    let sel = split_on(sinner, ',');
                    assert(sel == selems);
                    assert(selems.len() == elems@.len());
                    assert(0 <= j < sel.len());
                    assert(!(forall|i: int|
                        0 <= i < sel.len() ==> spec_str_value(
                            trimmed(#[trigger] sel[i]),
                        ) is Some)) by {
                        assert(spec_str_value(trimmed(sel[j as int])) is None);
                    }
                    assert(spec_array_value(v@) is None);
                }
                return None;
            },
        }
        j = j + 1;
    }
    proof {
        assert(forall|i: int|
            0 <= i < selems.len() ==> spec_str_value(trimmed(#[trigger] selems[i])) is Some);
        assert(spec_array_value(v@) is Some);
        assert(items.deep_view() =~~= spec_array_value(v@)->0);
    }
    Some(items)
}

/// Applies one `key = value` pair to the configuration.
fn apply_kv_exec(sec: Section, cfg: &mut ConfigFile, key: &Vec<char>, val: &Vec<char>) -> (r:
    Result<(), ConfigError>)
    ensures
        ({
            let sp = apply_kv(sec, old(cfg)@, key@, val@);
            &&& (r is Ok ==> sp is Ok && final(cfg)@ == sp->Ok_0)
            &&& (r matches Err(e) ==> sp == Err::<ConfigFileV, ConfigError>(e))
            &&& (r is Err ==> *final(cfg) == *old(cfg))
        }),
{
    proof {
        reveal_strlit("check_update");
        reveal_strlit("check_update_interval");
        reveal_strlit("download_attempts");
        reveal_strlit("extra_arguments");
        reveal_strlit("extra_env_vars");
        assert(key@.skip(0) =~= key@);
        if key@.len() == 12 {
            assert(key@.take(12) =~= key@);
        }
        if key@.len() == 21 {
            assert(key@.take(21) =~= key@);
        }
        if key@.len() == 17 {
            assert(key@.take(17) =~= key@);
        }
        if key@.len() == 15 {
            assert(key@.take(15) =~= key@);
        }
        if key@.len() == 14 {
            assert(key@.take(14) =~= key@);
        }
    }
    match sec {
        Section::Launcher => {
            if key.len() == 12 && match_at(key, 0, "check_update") {
                match parse_bool_value(val) {
                    Some(b) => {
                        cfg.launcher.check_update = b;
                        Ok(())
                    },
                    None => Err(ConfigError::TypeMismatch),
                }
            } else if key.len() == 21 && match_at(key, 0, "check_update_interval") {
                match parse_usize_value(val) {
                    Ok(n) => {
                        cfg.launcher.check_update_interval = n;
                        Ok(())
                    },
                    Err(e) => Err(e),
                }
            } else if key.len() == 17 && match_at(key, 0, "download_attempts") {
                match parse_usize_value(val) {
                    Ok(n) => {
                        cfg.launcher.download_attempts = Some(n);
                        Ok(())
                    },
                    Err(e) => Err(e),
                }
            } else {
                Ok(())
            }
        },
        Section::MtsLinkchats => {
            if key.len() == 15 && match_at(key, 0, "extra_arguments") {
                match parse_array_value(val) {
                    Some(items) => {
                        cfg.mts_linkchats.extra_arguments = items;
                        Ok(())
                    },
                    None => Err(ConfigError::TypeMismatch),
                }
            } else if key.len() == 14 && match_at(key, 0, "extra_env_vars") {
                match parse_array_value(val) {
                    Some(items) => {
                        cfg.mts_linkchats.extra_env_vars = items;
                        Ok(())
                    },
                    None => Err(ConfigError::TypeMismatch),
                }
            } else {
                Ok(())
            }
        },
        _ => Ok(()),
    }
}

/// Processes one line of the file.
fn process_line_exec(sec: Section, cfg: &mut ConfigFile, line: &Vec<char>) -> (r: Result<
    Section,
    ConfigError,
>)
    ensures
        ({
            let sp = process_line(sec, old(cfg)@, line@);
            &&& (r matches Ok(s2) ==> sp matches Ok(p) && p.0 == s2 && final(cfg)@ == p.1)
            &&& (r matches Err(e) ==> sp == Err::<(Section, ConfigFileV), ConfigError>(e))
            &&& (r is Err ==> *final(cfg) == *old(cfg))
        }),
{
    let t = trim_copy(line);
    if t.len() == 0 {
        return Ok(sec);
    }
    if t[0] == '#' {
        return Ok(sec);
    }
    if t[0] == '[' {
        if t.len() >= 2 && t[t.len() - 1] == ']' {
            let name = copy_range(&t, 1, t.len() - 1);
            proof {
                reveal_strlit("launcher");
                reveal_strlit("mts-linkchats");
                assert(name@.skip(0) =~= name@);
                if name@.len() == 8 {
                    assert(name@.take(8) =~= name@);
                }
                if name@.len() == 13 {
                    assert(name@.take(13) =~= name@);
                }
            }
            let s2 = if name.len() == 8 && match_at(&name, 0, "launcher") {
                Section::Launcher
            } else if name.len() == 13 && match_at(&name, 0, "mts-linkchats") {
                Section::MtsLinkchats
            } else {
                Section::Other
            };
            return Ok(s2);
        } else {
            return Err(ConfigError::Syntax);
        }
    }
    proof {
        assert(t@.skip(0) =~= t@);
    }
    match find_char_from(&t, 0, '=') {
        None => Err(ConfigError::Syntax),
        Some(i) => {
            let key_raw = copy_range(&t, 0, i);
            let key = trim_copy(&key_raw);
            let val_raw = copy_range(&t, i + 1, t.len());
            let val = trim_copy(&val_raw);
            proof {
                assert(key_raw@ =~= t@.take(i as int));
                assert(val_raw@ =~= t@.skip(i as int + 1));
            }
            match apply_kv_exec(sec, cfg, &key, &val) {
                Ok(()) => Ok(sec),
                Err(e) => Err(e),
            }
        },
    }
}

impl ConfigFile {
    /// Parses a configuration text: the subset of TOML the file uses —
    /// comments, the two known tables, booleans, unsigned integers and
    /// arrays of plain strings. Keys the file does not know are ignored;
    /// known keys with unusable values, and lines with no meaning, are
    /// errors. Keys not set keep their defaults.
    pub fn parse(s: &str) -> (r: Result<ConfigFile, ConfigError>)
        ensures
            ({
                let sp = spec_parse_config(s@);
                &&& (r is Ok <==> sp is Ok)
                &&& (r matches Ok(c) ==> c@ == sp->Ok_0)
                &&& (r matches Err(e) ==> sp == Err::<ConfigFileV, ConfigError>(e))
            }),
    {
        let chars = str_to_chars(s);
        proof {
            assert(chars@.skip(0) =~= s@);
        }
        let lines = split_from(&chars, 0, '\n');
        let ghost slines = split_on(s@, '\n');
        let mut cfg = ConfigFile::default();
        let mut sec = Section::Preamble;
        proof {
            assert(cfg@.extra_arguments =~= default_config_v().extra_arguments);
            assert(cfg@.extra_env_vars =~= default_config_v().extra_env_vars);
            assert(cfg@ == default_config_v());
            assert(slines.skip(0) =~= slines);
        }
        let mut i: usize = 0;
        while i < lines.len()
            invariant
                i <= lines.len(),
                slines == split_on(s@, '\n'),
                lines.deep_view() == slines,
                process_lines(Section::Preamble, default_config_v(), slines) == process_lines(
                    sec,
                    cfg@,
                    slines.skip(i as int),
                ),
            decreases lines.len() - i,
        {
            let li = &lines[i];
            proof {
                assert(slines.len() == lines@.len());
                assert(li@ == slines[i as int]);
                assert(slines.skip(i as int).len() > 0);
                assert(slines.skip(i as int)[0] == slines[i as int]);
                assert(slines.skip(i as int).drop_first() =~= slines.skip(i as int + 1));
            }
            match process_line_exec(sec, &mut cfg, li) {
                Ok(s2) => {
                    sec = s2;
                },
                Err(e) => {
                    return Err(e);
                },
            }
            i = i + 1;
        }
        proof {
            assert(slines.skip(slines.len() as int) =~= Seq::<Seq<char>>::empty());
        }
        Ok(cfg)
    }
}

} // verus!
