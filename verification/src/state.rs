//! The launcher's persisted state: the installed version, the time of the
//! last update check, and the process id of a managed child, if one runs.
//!
//! The state survives launcher invocations in a small TOML text file. The
//! codec here is verified both ways: rendering a state and parsing it back
//! gives the state itself, so saving what was loaded never changes the file.
//! Reading and writing the file is the unverified shell's job; a file that
//! does not parse degrades to a default state rather than fail the launcher.

use vstd::prelude::*;
use crate::text::{
    dec_digits, digits_val, find_char, is_digit, scan_digits, starts_with, chars_to_string,
    copy_range, digits_value_u64, find_char_from, lemma_concat_parts, lemma_dec_digits_are_digits,
    lemma_digits_val_dec_digits, lemma_find_char_absent, lemma_find_char_found, lemma_find_char_none,
    lemma_find_char_past_prefix, lemma_scan_digits_past_prefix, match_at, push_dec_u64,
    push_str_chars, scan_digits_from, str_to_chars,
};

verus! {

/// The durable record surviving across launcher invocations.
///
/// `last_update_check` is a timestamp in whole seconds. `pid` is `Some`
/// exactly while a managed child process is believed to be running.
pub struct State {
    pub version: String,
    pub last_update_check: u64,
    pub pid: Option<u32>,
}

/// A version string the codec can carry: free of quotes and line breaks.
/// Real versions are dotted numerals, well within this.
pub open spec fn wf_version(v: Seq<char>) -> bool {
    forall|k: int| 0 <= k < v.len() ==> v[k] != '"' && v[k] != '\n'
}

/// The state file's text: one `key = value` line per field, the `pid` line
/// present exactly while a managed child runs.
pub open spec fn state_text(version: Seq<char>, last: u64, pid: Option<u32>) -> Seq<char> {
    "version = \""@ + version + "\"\nlast_update_check = "@ + dec_digits(last as nat) + "\n"@
        + (match pid {
        Some(p) => "pid = "@ + dec_digits(p as nat) + "\n"@,
        None => Seq::<char>::empty(),
    })
}

/// What the state file's text parses to, if anything: exactly the shape
/// [`state_text`] renders, with the numbers required to fit their fields.
pub open spec fn spec_parse_state(t: Seq<char>) -> Option<(Seq<char>, u64, Option<u32>)> {
    let l1 = "version = \""@;
    let l2 = "\"\nlast_update_check = "@;
    let l3 = "pid = "@;
    if !starts_with(t, l1) {
        None
    } else {
        let t1 = t.skip(l1.len() as int);
        match find_char(t1, '"') {
            None => None,
            Some(q) => {
                let version = t1.take(q);
                if find_char(version, '\n') is Some {
                    None
                } else {
                    let t2 = t1.skip(q);
                    if !starts_with(t2, l2) {
                        None
                    } else {
                        let t3 = t2.skip(l2.len() as int);
                        let d = scan_digits(t3);
                        if d == 0 || digits_val(t3.take(d)) > u64::MAX {
                            None
                        } else {
                            let last = digits_val(t3.take(d)) as u64;
                            let t4 = t3.skip(d);
                            if !starts_with(t4, "\n"@) {
                                None
                            } else {
                                let t5 = t4.skip(1);
                                if t5.len() == 0 {
                                    Some((version, last, None))
                                } else if !starts_with(t5, l3) {
                                    None
                                } else {
                                    let t6 = t5.skip(l3.len() as int);
                                    let d2 = scan_digits(t6);
                                    if d2 == 0 || digits_val(t6.take(d2)) > u32::MAX {
                                        None
                                    } else {
                                        let pid = digits_val(t6.take(d2)) as u32;
                                        let t7 = t6.skip(d2);
                                        if t7.len() == 1 && t7[0] == '\n' {
                                            Some((version, last, Some(pid)))
                                        } else {
                                            None
                                        }
                                    }
                                }
                            }
                        }
                    }
                }
            },
        }
    }
}

impl State {
    /// Whether the codec can carry this state.
    pub open spec fn wf(&self) -> bool {
        wf_version(self.version@)
    }

    /// Records whether a managed child process is running.
    pub fn set_pid(&mut self, pid: Option<u32>)
        ensures
            final(self).pid == pid,
            final(self).version == old(self).version,
            final(self).last_update_check == old(self).last_update_check,
    {
        self.pid = pid;
    }

    /// Renders the state as its file text.
    pub fn to_toml(&self) -> (s: String)
        requires
            self.wf(),
        ensures
            s@ == state_text(self.version@, self.last_update_check, self.pid),
    {
        let mut out: Vec<char> = Vec::new();
        push_str_chars(&mut out, "version = \"");
        push_str_chars(&mut out, self.version.as_str());
        push_str_chars(&mut out, "\"\nlast_update_check = ");
        push_dec_u64(&mut out, self.last_update_check);
        push_str_chars(&mut out, "\n");
        match self.pid {
            Some(p) => {
                push_str_chars(&mut out, "pid = ");
                push_dec_u64(&mut out, p as u64);
                push_str_chars(&mut out, "\n");
            },
            None => {},
        }
        proof {
            assert(out@ =~= state_text(self.version@, self.last_update_check, self.pid));
        }
        chars_to_string(&out)
    }

    /// Parses a state file's text. Anything but the exact shape the codec
    /// writes — the shape [`spec_parse_state`] describes — gives `None`, and
    /// the caller proceeds with a default state.
    #[verifier::rlimit(60)]
    #[verifier::spinoff_prover]
    pub fn parse(s: &str) -> (r: Option<State>)
        ensures
            r is Some <==> spec_parse_state(s@) is Some,
            r matches Some(st) ==> {
                &&& spec_parse_state(s@) matches Some(p)
                &&& st.version@ == p.0
                &&& st.last_update_check == p.1
                &&& st.pid == p.2
                &&& st.wf()
            },
    {
        let v = str_to_chars(s);
        let vn = v.len();
        let ghost t = s@;
        proof {
            assert(v@.skip(0) =~= t);
        }
        if !match_at(&v, 0, "version = \"") {
            return None;
        }
        let p1: usize = 11;
        proof {
            reveal_strlit("version = \"");
            assert(v@.skip(0) =~= t);
            assert(t.skip(11) =~= v@.skip(p1 as int));
        }
        let ghost t1 = t.skip("version = \""@.len() as int);
        let q = match find_char_from(&v, p1, '"') {
            Some(q) => q,
            None => {
                proof {
                    assert(t1 =~= v@.skip(p1 as int));
                }
                return None;
            },
        };
        proof {
            assert(t1 =~= v@.skip(p1 as int));
            lemma_find_char_found(t1, '"');
            assert(find_char(t1, '"')->0 == q - p1);
        }
        let ghost version = t1.take(q - p1);
        let version_chars = copy_range(&v, p1, q);
        proof {
            assert(version_chars@ =~= version);
        }
        if find_char_from(&version_chars, 0, '\n').is_some() {
            proof {
                assert(version_chars@.skip(0) =~= version);
            }
            return None;
        }
        proof {
            assert(version_chars@.skip(0) =~= version);
            lemma_find_char_none(version, '\n');
            assert(forall|k: int| 0 <= k < version.len() ==> version[k] == t1[k]);
            assert(forall|k: int| 0 <= k < version.len() ==> version[k] != '"');
            assert(wf_version(version));
        }
        if !match_at(&v, q, "\"\nlast_update_check = ") {
            proof {
                assert(t1.skip(q - p1) =~= v@.skip(q as int));
            }
            return None;
        }
        proof {
            reveal_strlit("\"\nlast_update_check = ");
            assert(t1.skip(q - p1) =~= v@.skip(q as int));
        }
        let p2 = q + 22;
        let ghost t3 = t1.skip(q - p1).skip("\"\nlast_update_check = "@.len() as int);
        proof {
            assert(t3 =~= v@.skip(p2 as int));
        }
        let dend = scan_digits_from(&v, p2);
        if dend == p2 {
            return None;
        }
        proof {
            assert(forall|k: int|
                p2 <= k < dend ==> is_digit(#[trigger] v@[k])) by {
                assert(forall|k: int|
                    0 <= k < scan_digits(t3) ==> is_digit(#[trigger] t3[k])) by {
                    crate::text::lemma_scan_digits_all_digits(t3);
                }
                assert(forall|k: int| p2 <= k < dend ==> v@[k] == t3[k - p2]);
            }
            assert(t3.take(dend - p2) =~= v@.subrange(p2 as int, dend as int));
        }
        let last = match digits_value_u64(&v, p2, dend) {
            Some(x) => x,
            None => {
                return None;
            },
        };
        if !match_at(&v, dend, "\n") {
            proof {
                assert(t3.skip(dend - p2) =~= v@.skip(dend as int));
            }
            return None;
        }
        proof {
            reveal_strlit("\n");
            assert(t3.skip(dend - p2) =~= v@.skip(dend as int));
        }
        let p3 = dend + 1;
        let ghost t5 = t3.skip(dend - p2).skip(1);
        proof {
            assert(t5 =~= v@.skip(p3 as int));
        }
        if p3 == vn {
            let st = State {
                version: chars_to_string(&version_chars),
                last_update_check: last,
                pid: None,
            };
            return Some(st);
        }
        if !match_at(&v, p3, "pid = ") {
            return None;
        }
        proof {
            reveal_strlit("pid = ");
        }
        let p4 = p3 + 6;
        let ghost t6 = t5.skip("pid = "@.len() as int);
        proof {
            assert(t6 =~= v@.skip(p4 as int));
        }
        let dend2 = scan_digits_from(&v, p4);
        if dend2 == p4 {
            return None;
        }
        proof {
            assert(forall|k: int|
                p4 <= k < dend2 ==> is_digit(#[trigger] v@[k])) by {
                assert(forall|k: int|
                    0 <= k < scan_digits(t6) ==> is_digit(#[trigger] t6[k])) by {
                    crate::text::lemma_scan_digits_all_digits(t6);
                }
                assert(forall|k: int| p4 <= k < dend2 ==> v@[k] == t6[k - p4]);
            }
            assert(t6.take(dend2 - p4) =~= v@.subrange(p4 as int, dend2 as int));
        }
        let pid64 = match digits_value_u64(&v, p4, dend2) {
            Some(x) => x,
            None => {
                return None;
            },
        };
        if pid64 > u32::MAX as u64 {
            return None;
        }
        let ghost t7 = t6.skip(dend2 - p4);
        proof {
            assert(t7 =~= v@.skip(dend2 as int));
        }
        if vn - dend2 == 1 && match_at(&v, dend2, "\n") {
            proof {
                reveal_strlit("\n");
                assert("\n"@ =~= seq!['\n']);
                assert(t7.len() == 1);
                assert(v@.skip(dend2 as int).take(1) =~= seq![v@[dend2 as int]]);
                assert(v@[dend2 as int] == seq!['\n'][0]);
                assert(t7[0] == v@[dend2 as int]);
            }
            let st = State {
                version: chars_to_string(&version_chars),
                last_update_check: last,
                pid: Some(pid64 as u32),
            };
            Some(st)
        } else {
            proof {
                reveal_strlit("\n");
                assert("\n"@ =~= seq!['\n']);
                if t7.len() == 1 && t7[0] == '\n' {
                    assert(v@[dend2 as int] == '\n');
                    assert(v@.skip(dend2 as int).take(1) =~= seq!['\n']);
                    assert(starts_with(v@.skip(dend2 as int), "\n"@));
                }
            }
            None
        }
    }
}

impl Default for State {
    /// The zero-value state a first run starts from: no version installed,
    /// never checked, nothing running.
    fn default() -> (s: State)
        ensures
            s.version@ == Seq::<char>::empty(),
            s.last_update_check == 0,
            s.pid is None,
            s.wf(),
    {
        State { version: String::new(), last_update_check: 0, pid: None }
    }
}

/// The state-file round trip: the text a state renders to parses back to
/// that very state. Saving what was loaded therefore rewrites the file
/// byte-identically: serialize, deserialize, serialize again gives the same
/// text.
pub proof fn lemma_state_round_trip(version: Seq<char>, last: u64, pid: Option<u32>)
    requires
        wf_version(version),
    ensures
        spec_parse_state(state_text(version, last, pid)) == Some((version, last, pid)),
{
    let l1 = "version = \""@;
    let l2 = "\"\nlast_update_check = "@;
    let l3 = "pid = "@;
    let nl = "\n"@;
    reveal_strlit("version = \"");
    reveal_strlit("\"\nlast_update_check = ");
    reveal_strlit("pid = ");
    reveal_strlit("\n");
    let num = dec_digits(last as nat);
    lemma_dec_digits_are_digits(last as nat);
    lemma_digits_val_dec_digits(last as nat);
    let pidpart = match pid {
        Some(p) => l3 + dec_digits(p as nat) + nl,
        None => Seq::<char>::empty(),
    };
    let t = state_text(version, last, pid);
    let rest1 = version + l2 + num + nl + pidpart;
    assert(t =~= l1 + rest1);
    lemma_concat_parts(l1, rest1);
    assert(starts_with(t, l1));
    let t1 = t.skip(l1.len() as int);
    assert(t1 == rest1);

    // The version ends exactly at the quote that closes it.
    let after_version = l2 + num + nl + pidpart;
    assert(rest1 =~= version + after_version);
    assert(after_version[0] == '"');
    lemma_find_char_past_prefix(version, after_version, '"');
    assert(find_char(t1, '"') == Some(version.len() as int));
    lemma_concat_parts(version, after_version);
    assert(t1.take(version.len() as int) == version);
    lemma_find_char_absent(version, '\n');

    let t2 = t1.skip(version.len() as int);
    assert(t2 == after_version);
    lemma_concat_parts(l2, num + nl + pidpart);
    assert(t2 =~= l2 + (num + nl + pidpart));
    assert(starts_with(t2, l2));

    let t3 = t2.skip(l2.len() as int);
    assert(t3 == num + nl + pidpart);

    // The timestamp's digits end exactly at the line break.
    let after_num = nl + pidpart;
    assert(t3 =~= num + after_num);
    assert(after_num[0] == '\n');
    assert(!is_digit('\n'));
    lemma_scan_digits_past_prefix(num, after_num);
    assert(scan_digits(t3) == num.len());
    lemma_concat_parts(num, after_num);
    assert(t3.take(num.len() as int) == num);
    assert(digits_val(num) == last);

    let t4 = t3.skip(num.len() as int);
    assert(t4 == after_num);
    lemma_concat_parts(nl, pidpart);
    assert(starts_with(t4, nl));

    let t5 = t4.skip(1);
    assert(t5 =~= pidpart);

    match pid {
        None => {
            assert(t5.len() == 0);
        },
        Some(p) => {
            let num2 = dec_digits(p as nat);
            lemma_dec_digits_are_digits(p as nat);
            lemma_digits_val_dec_digits(p as nat);
            assert(t5 =~= l3 + (num2 + nl));
            lemma_concat_parts(l3, num2 + nl);
            assert(starts_with(t5, l3));
            let t6 = t5.skip(l3.len() as int);
            assert(t6 == num2 + nl);
            assert(nl[0] == '\n');
            lemma_scan_digits_past_prefix(num2, nl);
            assert(scan_digits(t6) == num2.len());
            lemma_concat_parts(num2, nl);
            assert(t6.take(num2.len() as int) == num2);
            assert(digits_val(num2) == p);
            let t7 = t6.skip(num2.len() as int);
            assert(t7 == nl);
            assert(t7.len() == 1 && t7[0] == '\n');
        },
    }
}

} // verus!
