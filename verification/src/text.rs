//! Verified text utilities over character sequences: decimal numerals,
//! searching, scanning, splitting and copying. The state-file codec, the
//! version parser and the configuration parser are built on these.

use vstd::prelude::*;

verus! {

/// Whether `c` is a decimal digit.
pub open spec fn is_digit(c: char) -> bool {
    48 <= c as u32 <= 57
}

/// The digit character for a value between zero and nine.
pub open spec fn digit_char(d: int) -> char {
    ((48 + d) as u32) as char
}

/// The value of a digit character.
pub open spec fn digit_val(c: char) -> int {
    c as u32 - 48
}

/// The decimal numeral of `n`, most significant digit first, without
/// leading zeros (the numeral of zero is the single digit zero).
pub open spec fn dec_digits(n: nat) -> Seq<char>
    decreases n,
{
    if n < 10 {
        seq![digit_char(n as int)]
    } else {
        dec_digits(n / 10) + seq![digit_char((n % 10) as int)]
    }
}

/// The value of a digit string, read in base ten.
pub open spec fn digits_val(s: Seq<char>) -> int
    decreases s.len(),
{
    if s.len() == 0 {
        0
    } else {
        digits_val(s.drop_last()) * 10 + digit_val(s.last())
    }
}

/// Whether `t` begins with `p`.
pub open spec fn starts_with(t: Seq<char>, p: Seq<char>) -> bool {
    p.len() <= t.len() && t.take(p.len() as int) == p
}

/// The index of the first occurrence of `c` in `t`, if any.
pub open spec fn find_char(t: Seq<char>, c: char) -> Option<int>
    decreases t.len(),
{
    if t.len() == 0 {
        None
    } else if t[0] == c {
        Some(0)
    } else {
        match find_char(t.drop_first(), c) {
            Some(i) => Some(i + 1),
            None => None,
        }
    }
}

/// How many decimal digits `t` begins with.
pub open spec fn scan_digits(t: Seq<char>) -> int
    decreases t.len(),
{
    if t.len() == 0 {
        0
    } else if !is_digit(t[0]) {
        0
    } else {
        1 + scan_digits(t.drop_first())
    }
}

/// How many occurrences of `c` stand in `t`.
pub open spec fn count_char(t: Seq<char>, c: char) -> int
    decreases t.len(),
{
    if t.len() == 0 {
        0
    } else {
        (if t[0] == c {
            1int
        } else {
            0int
        }) + count_char(t.drop_first(), c)
    }
}

/// `t` split on the separator: the segments between occurrences of `sep`,
/// in order; one segment more than there are separators.
pub open spec fn split_on(t: Seq<char>, sep: char) -> Seq<Seq<char>>
    decreases t.len(),
{
    match find_char(t, sep) {
        None => seq![t],
        Some(i) => if 0 <= i < t.len() {
            seq![t.take(i)] + split_on(t.skip(i + 1), sep)
        } else {
            seq![t]
        },
    }
}

/// A found index lies in range and holds the character, and nothing before
/// it does.
pub proof fn lemma_find_char_found(t: Seq<char>, c: char)
    requires
        find_char(t, c) is Some,
    ensures
        0 <= find_char(t, c)->0 < t.len(),
        t[find_char(t, c)->0] == c,
        forall|k: int| 0 <= k < find_char(t, c)->0 ==> t[k] != c,
    decreases t.len(),
{
    if t.len() == 0 {
    } else if t[0] == c {
    } else {
        lemma_find_char_found(t.drop_first(), c);
        assert(forall|k: int|
            1 <= k < find_char(t, c)->0 ==> t[k] == t.drop_first()[k - 1] && t.drop_first()[k - 1]
                != c);
    }
}

/// If `c` stands nowhere in `t`, nothing is found.
pub proof fn lemma_find_char_absent(t: Seq<char>, c: char)
    requires
        forall|k: int| 0 <= k < t.len() ==> t[k] != c,
    ensures
        find_char(t, c) is None,
    decreases t.len(),
{
    if t.len() > 0 {
        assert(forall|k: int|
            0 <= k < t.drop_first().len() ==> t.drop_first()[k] == t[k + 1] && t[k + 1] != c);
        lemma_find_char_absent(t.drop_first(), c);
    }
}

/// Nothing found means the character stands nowhere in the text.
pub proof fn lemma_find_char_none(t: Seq<char>, c: char)
    requires
        find_char(t, c) is None,
    ensures
        forall|k: int| 0 <= k < t.len() ==> t[k] != c,
    decreases t.len(),
{
    if t.len() > 0 {
        lemma_find_char_none(t.drop_first(), c);
        assert(forall|k: int| 1 <= k < t.len() ==> t[k] == t.drop_first()[k - 1]);
    }
}

/// The first occurrence of `c` in `a + b` is where `b` begins, when `a` is
/// free of `c` and `b` opens with it.
pub proof fn lemma_find_char_past_prefix(a: Seq<char>, b: Seq<char>, c: char)
    requires
        forall|k: int| 0 <= k < a.len() ==> a[k] != c,
        b.len() > 0,
        b[0] == c,
    ensures
        find_char(a + b, c) == Some(a.len() as int),
    decreases a.len(),
{
    if a.len() == 0 {
        assert(a + b =~= b);
    } else {
        assert((a + b)[0] == a[0]);
        assert((a + b).drop_first() =~= a.drop_first() + b);
        lemma_find_char_past_prefix(a.drop_first(), b, c);
    }
}

/// A numeral is never empty and consists of digits.
pub proof fn lemma_dec_digits_are_digits(n: nat)
    ensures
        dec_digits(n).len() >= 1,
        forall|k: int| 0 <= k < dec_digits(n).len() ==> is_digit(#[trigger] dec_digits(n)[k]),
    decreases n,
{
    if n < 10 {
    } else {
        lemma_dec_digits_are_digits(n / 10);
    }
}

/// Scanning digits across `a + b` stops exactly where `a` ends, when `a` is
/// all digits and `b` opens with a non-digit.
pub proof fn lemma_scan_digits_past_prefix(a: Seq<char>, b: Seq<char>)
    requires
        forall|k: int| 0 <= k < a.len() ==> is_digit(#[trigger] a[k]),
        b.len() > 0,
        !is_digit(b[0]),
    ensures
        scan_digits(a + b) == a.len(),
    decreases a.len(),
{
    if a.len() == 0 {
        assert(a + b =~= b);
    } else {
        assert((a + b)[0] == a[0]);
        assert((a + b).drop_first() =~= a.drop_first() + b);
        lemma_scan_digits_past_prefix(a.drop_first(), b);
    }
}

/// Reading a numeral back gives the number: the decimal codec inverts.
pub proof fn lemma_digits_val_dec_digits(n: nat)
    ensures
        digits_val(dec_digits(n)) == n,
    decreases n,
{
    if n < 10 {
        let s = dec_digits(n);
        assert(s.drop_last() =~= Seq::<char>::empty());
        assert(s.last() == digit_char(n as int));
        assert(digit_val(digit_char(n as int)) == n);
        assert(digits_val(Seq::<char>::empty()) == 0);
        assert(digits_val(s) == n);
    } else {
        lemma_digits_val_dec_digits(n / 10);
        let s = dec_digits(n);
        assert(s.drop_last() =~= dec_digits(n / 10));
        assert(s.last() == digit_char((n % 10) as int));
        assert(digit_val(digit_char((n % 10) as int)) == n % 10);
        assert(digits_val(s) == (n / 10) * 10 + n % 10);
        vstd::arithmetic::div_mod::lemma_fundamental_div_mod(n as int, 10);
        assert(digits_val(s) == n);
    }
}

/// Reading one more digit multiplies the value by ten and adds the digit.
pub proof fn lemma_digits_val_take_step(s: Seq<char>, i: int)
    requires
        0 <= i < s.len(),
    ensures
        digits_val(s.take(i + 1)) == digits_val(s.take(i)) * 10 + digit_val(s[i]),
{
    assert(s.take(i + 1).drop_last() =~= s.take(i));
    assert(s.take(i + 1).last() == s[i]);
}

/// The value of a digit string is never negative.
pub proof fn lemma_digits_val_nonneg(s: Seq<char>)
    requires
        forall|k: int| 0 <= k < s.len() ==> is_digit(#[trigger] s[k]),
    ensures
        digits_val(s) >= 0,
    decreases s.len(),
{
    if s.len() > 0 {
        assert(forall|k: int|
            0 <= k < s.drop_last().len() ==> is_digit(#[trigger] s.drop_last()[k]));
        lemma_digits_val_nonneg(s.drop_last());
        assert(digit_val(s.last()) >= 0);
        assert(digits_val(s.drop_last()) * 10 >= 0) by (nonlinear_arith)
            requires
                digits_val(s.drop_last()) >= 0,
        ;
    }
}

/// Extending a digit string never shrinks its value.
pub proof fn lemma_digits_val_grows(s: Seq<char>, i: int, j: int)
    requires
        forall|k: int| 0 <= k < s.len() ==> is_digit(#[trigger] s[k]),
        0 <= i <= j <= s.len(),
    ensures
        digits_val(s.take(i)) <= digits_val(s.take(j)),
    decreases j - i,
{
    if i < j {
        lemma_digits_val_grows(s, i, j - 1);
        lemma_digits_val_take_step(s, j - 1);
        assert(forall|k: int| 0 <= k < s.take(j - 1).len() ==> is_digit(#[trigger] s.take(j - 1)[k]));
        lemma_digits_val_nonneg(s.take(j - 1));
        let v = digits_val(s.take(j - 1));
        assert(v * 10 >= v) by (nonlinear_arith)
            requires
                v >= 0,
        ;
    }
}

/// The scanned leading run consists of digits and lies within the text.
pub proof fn lemma_scan_digits_all_digits(t: Seq<char>)
    ensures
        0 <= scan_digits(t) <= t.len(),
        forall|k: int| 0 <= k < scan_digits(t) ==> is_digit(#[trigger] t[k]),
    decreases t.len(),
{
    if t.len() == 0 {
    } else if !is_digit(t[0]) {
    } else {
        lemma_scan_digits_all_digits(t.drop_first());
        assert(forall|k: int|
            1 <= k < scan_digits(t) ==> t[k] == t.drop_first()[k - 1] && is_digit(t.drop_first()[k
                - 1]));
    }
}

/// Splitting the concatenation of two sequences back apart.
pub proof fn lemma_concat_parts(a: Seq<char>, b: Seq<char>)
    ensures
        (a + b).take(a.len() as int) == a,
        (a + b).skip(a.len() as int) == b,
{
    assert((a + b).take(a.len() as int) =~= a);
    assert((a + b).skip(a.len() as int) =~= b);
}

/// Whether `c` is a decimal digit.
pub fn is_digit_char(c: char) -> (b: bool)
    ensures
        b == is_digit(c),
{
    let u = c as u32;
    48 <= u && u <= 57
}

/// The characters of a string, one by one.
pub fn str_to_chars(s: &str) -> (v: Vec<char>)
    ensures
        v@ == s@,
{
    let n = s.unicode_len();
    let mut v: Vec<char> = Vec::new();
    let mut i: usize = 0;
    while i < n
        invariant
            i <= n,
            n == s@.len(),
            v@ == s@.take(i as int),
        decreases n - i,
    {
        v.push(s.get_char(i));
        i = i + 1;
        proof {
            assert(v@ =~= s@.take(i as int));
        }
    }
    proof {
        assert(v@ =~= s@);
    }
    v
}

/// Appends the characters of a string.
pub fn push_str_chars(out: &mut Vec<char>, s: &str)
    ensures
        final(out)@ == old(out)@ + s@,
{
    let n = s.unicode_len();
    let mut i: usize = 0;
    while i < n
        invariant
            i <= n,
            n == s@.len(),
            out@ == old(out)@ + s@.take(i as int),
        decreases n - i,
    {
        out.push(s.get_char(i));
        i = i + 1;
        proof {
            assert(out@ =~= old(out)@ + s@.take(i as int));
        }
    }
    proof {
        assert(out@ =~= old(out)@ + s@);
    }
}

/// Collects characters into a `String`.
///
/// Relies on `core::iter::Iterator::collect` through `String`'s
/// `FromIterator<char>`, which builds the string from exactly the iterated
/// characters, in order.
#[verifier::external_body]
pub fn chars_to_string(v: &Vec<char>) -> (s: String)
    ensures
        s@ == v@,
{
    v.iter().collect()
}

/// Appends the decimal numeral of `n`.
pub fn push_dec_u64(out: &mut Vec<char>, n: u64)
    ensures
        final(out)@ == old(out)@ + dec_digits(n as nat),
    decreases n,
{
    if n < 10 {
        out.push((48 + n as u8) as char);
    } else {
        push_dec_u64(out, n / 10);
        out.push((48 + (n % 10) as u8) as char);
        proof {
            assert(out@ =~= old(out)@ + dec_digits(n as nat));
        }
    }
}

/// Whether the characters at `pos` begin with the literal.
pub fn match_at(v: &Vec<char>, pos: usize, lit: &str) -> (b: bool)
    requires
        pos <= v@.len(),
    ensures
        b == starts_with(v@.skip(pos as int), lit@),
{
    let n = lit.unicode_len();
    let vn = v.len();
    if vn - pos < n {
        return false;
    }
    let mut i: usize = 0;
    while i < n
        invariant
            i <= n,
            n == lit@.len(),
            vn == v@.len(),
            pos <= vn,
            n <= vn - pos,
            forall|k: int| 0 <= k < i ==> v@[pos + k] == lit@[k],
        decreases n - i,
    {
        if v[pos + i] != lit.get_char(i) {
            return false;
        }
        i = i + 1;
    }
    proof {
        assert(v@.skip(pos as int).take(n as int) =~= lit@);
    }
    true
}

/// The index of the first occurrence of `c` at or after `pos`, if any.
pub fn find_char_from(v: &Vec<char>, pos: usize, c: char) -> (r: Option<usize>)
    requires
        pos <= v@.len(),
    ensures
        ({
            let f = find_char(v@.skip(pos as int), c);
            &&& (r is Some <==> f is Some)
            &&& (r is Some ==> r->0 == pos + f->0 && pos <= r->0 < v@.len())
        }),
    decreases v@.len() - pos,
{
    if pos == v.len() {
        None
    } else if v[pos] == c {
        Some(pos)
    } else {
        let r = find_char_from(v, pos + 1, c);
        proof {
            assert(v@.skip(pos as int).drop_first() =~= v@.skip(pos as int + 1));
        }
        r
    }
}

/// The index just past the digits beginning at `pos`.
pub fn scan_digits_from(v: &Vec<char>, pos: usize) -> (end: usize)
    requires
        pos <= v@.len(),
    ensures
        pos <= end <= v@.len(),
        end - pos == scan_digits(v@.skip(pos as int)),
    decreases v@.len() - pos,
{
    if pos < v.len() && is_digit_char(v[pos]) {
        let end = scan_digits_from(v, pos + 1);
        proof {
            assert(v@.skip(pos as int).drop_first() =~= v@.skip(pos as int + 1));
        }
        end
    } else {
        pos
    }
}

/// How many occurrences of `c` stand at or after `pos`.
pub fn count_char_from(v: &Vec<char>, pos: usize, c: char) -> (r: usize)
    requires
        pos <= v@.len(),
    ensures
        r == count_char(v@.skip(pos as int), c),
        r <= v@.len() - pos,
    decreases v@.len() - pos,
{
    if pos == v.len() {
        0
    } else {
        let rest = count_char_from(v, pos + 1, c);
        proof {
            assert(v@.skip(pos as int).drop_first() =~= v@.skip(pos as int + 1));
        }
        if v[pos] == c {
            rest + 1
        } else {
            rest
        }
    }
}

/// A copy of the characters between `start` and `end`.
pub fn copy_range(v: &Vec<char>, start: usize, end: usize) -> (r: Vec<char>)
    requires
        start <= end <= v@.len(),
    ensures
        r@ == v@.subrange(start as int, end as int),
{
    let mut r: Vec<char> = Vec::new();
    let mut i: usize = start;
    while i < end
        invariant
            start <= i <= end <= v@.len(),
            r@ == v@.subrange(start as int, i as int),
        decreases end - i,
    {
        r.push(v[i]);
        i = i + 1;
        proof {
            assert(r@ =~= v@.subrange(start as int, i as int));
        }
    }
    r
}

/// The value of the digits between `start` and `end`, if it fits a `u64`.
pub fn digits_value_u64(v: &Vec<char>, start: usize, end: usize) -> (r: Option<u64>)
    requires
        start <= end <= v@.len(),
        forall|k: int| start <= k < end ==> is_digit(#[trigger] v@[k]),
    ensures
        ({
            let s = v@.subrange(start as int, end as int);
            &&& (r is Some <==> digits_val(s) <= u64::MAX)
            &&& (r is Some ==> r->0 == digits_val(s))
        }),
{
    let ghost s = v@.subrange(start as int, end as int);
    proof {
        assert(forall|k: int| 0 <= k < s.len() ==> is_digit(#[trigger] s[k]));
    }
    let mut acc: u64 = 0;
    let mut i: usize = start;
    proof {
        assert(s.take(0) =~= Seq::<char>::empty());
    }
    while i < end
        invariant
            start <= i <= end <= v@.len(),
            s == v@.subrange(start as int, end as int),
            forall|k: int| 0 <= k < s.len() ==> is_digit(#[trigger] s[k]),
            acc == digits_val(s.take(i - start)),
        decreases end - i,
    {
        proof {
            assert(v@[i as int] == s[i - start]);
            assert(is_digit(s[i - start]));
        }
        let d = (v[i] as u32 - 48) as u64;
        proof {
            assert(d == digit_val(s[i - start]));
            lemma_digits_val_take_step(s, i - start);
        }
        let m = match acc.checked_mul(10) {
            Some(m) => m,
            None => {
                proof {
                    assert(digits_val(s.take(i - start + 1)) > u64::MAX);
                    lemma_digits_val_grows(s, i - start + 1, s.len() as int);
                    assert(s.take(s.len() as int) =~= s);
                }
                return None;
            },
        };
        let a = match m.checked_add(d) {
            Some(a) => a,
            None => {
                proof {
                    assert(digits_val(s.take(i - start + 1)) > u64::MAX);
                    lemma_digits_val_grows(s, i - start + 1, s.len() as int);
                    assert(s.take(s.len() as int) =~= s);
                }
                return None;
            },
        };
        acc = a;
        i = i + 1;
    }
    proof {
        assert(s.take(s.len() as int) =~= s);
    }
    Some(acc)
}

/// The dash- or dot- or otherwise-separated segments at or after `pos`.
pub fn split_from(v: &Vec<char>, pos: usize, sep: char) -> (r: Vec<Vec<char>>)
    requires
        pos <= v@.len(),
    ensures
        r.deep_view() == split_on(v@.skip(pos as int), sep),
    decreases v@.len() - pos,
{
    let ghost t = v@.skip(pos as int);
    match find_char_from(v, pos, sep) {
        None => {
            let seg = copy_range(v, pos, v.len());
            proof {
                assert(t =~= v@.subrange(pos as int, v@.len() as int));
            }
            let mut r: Vec<Vec<char>> = Vec::new();
            r.push(seg);
            proof {
                assert(r.deep_view() =~~= split_on(t, sep));
            }
            r
        },
        Some(j) => {
            proof {
                lemma_find_char_found(t, sep);
            }
            let seg = copy_range(v, pos, j);
            let next = if j < v.len() {
                j + 1
            } else {
                j
            };
            let mut r = split_from(v, next, sep);
            r.insert(0, seg);
            proof {
                let i = find_char(t, sep)->0;
                assert(next == j + 1);
                assert(t.take(i) =~= v@.subrange(pos as int, j as int));
                assert(t.skip(i + 1) =~= v@.skip(j as int + 1));
                assert(r.deep_view() =~~= split_on(t, sep));
            }
            r
        },
    }
}

/// Whether `c` is line-internal whitespace: a space, a tab or a carriage
/// return.
pub open spec fn is_ws(c: char) -> bool {
    c == ' ' || c == '\t' || c == '\r'
}

/// How many whitespace characters `t` begins with.
pub open spec fn scan_ws(t: Seq<char>) -> int
    decreases t.len(),
{
    if t.len() == 0 {
        0
    } else if !is_ws(t[0]) {
        0
    } else {
        1 + scan_ws(t.drop_first())
    }
}

/// How many whitespace characters `t` ends with.
pub open spec fn scan_ws_end(t: Seq<char>) -> int
    decreases t.len(),
{
    if t.len() == 0 {
        0
    } else if !is_ws(t.last()) {
        0
    } else {
        1 + scan_ws_end(t.drop_last())
    }
}

/// `t` with leading and trailing whitespace stripped.
pub open spec fn trimmed(t: Seq<char>) -> Seq<char> {
    if scan_ws(t) == t.len() {
        Seq::<char>::empty()
    } else {
        t.subrange(scan_ws(t), t.len() - scan_ws_end(t))
    }
}

/// The leading whitespace run lies within the text, is all whitespace, and
/// ends at a non-whitespace character if it ends at all.
pub proof fn lemma_scan_ws_props(t: Seq<char>)
    ensures
        0 <= scan_ws(t) <= t.len(),
        forall|k: int| 0 <= k < scan_ws(t) ==> is_ws(#[trigger] t[k]),
        scan_ws(t) < t.len() ==> !is_ws(t[scan_ws(t)]),
    decreases t.len(),
{
    if t.len() == 0 {
    } else if !is_ws(t[0]) {
    } else {
        lemma_scan_ws_props(t.drop_first());
        assert(forall|k: int|
            1 <= k < scan_ws(t) ==> t[k] == t.drop_first()[k - 1] && is_ws(t.drop_first()[k - 1]));
    }
}

/// The trailing whitespace run lies within the text, is all whitespace, and
/// is preceded by a non-whitespace character if anything precedes it.
pub proof fn lemma_scan_ws_end_props(t: Seq<char>)
    ensures
        0 <= scan_ws_end(t) <= t.len(),
        forall|k: int| t.len() - scan_ws_end(t) <= k < t.len() ==> is_ws(#[trigger] t[k]),
        scan_ws_end(t) < t.len() ==> !is_ws(t[t.len() - 1 - scan_ws_end(t)]),
    decreases t.len(),
{
    if t.len() == 0 {
    } else if !is_ws(t.last()) {
    } else {
        lemma_scan_ws_end_props(t.drop_last());
        assert(forall|k: int|
            t.len() - scan_ws_end(t) <= k < t.len() - 1 ==> t[k] == t.drop_last()[k] && is_ws(
                t.drop_last()[k]));
    }
}

/// Whether `c` is line-internal whitespace.
pub fn is_ws_char(c: char) -> (b: bool)
    ensures
        b == is_ws(c),
{
    c == ' ' || c == '\t' || c == '\r'
}

/// The index just past the whitespace beginning at `pos`.
pub fn scan_ws_from(v: &Vec<char>, pos: usize) -> (end: usize)
    requires
        pos <= v@.len(),
    ensures
        pos <= end <= v@.len(),
        end - pos == scan_ws(v@.skip(pos as int)),
    decreases v@.len() - pos,
{
    if pos < v.len() && is_ws_char(v[pos]) {
        let end = scan_ws_from(v, pos + 1);
        proof {
            assert(v@.skip(pos as int).drop_first() =~= v@.skip(pos as int + 1));
        }
        end
    } else {
        pos
    }
}

/// The index where the whitespace run ending at `end` begins.
pub fn scan_ws_back(v: &Vec<char>, end: usize) -> (start: usize)
    requires
        end <= v@.len(),
    ensures
        start <= end,
        end - start == scan_ws_end(v@.take(end as int)),
    decreases end,
{
    if end > 0 && is_ws_char(v[end - 1]) {
        let start = scan_ws_back(v, end - 1);
        proof {
            assert(v@.take(end as int).drop_last() =~= v@.take(end as int - 1));
        }
        start
    } else {
        end
    }
}

/// A copy of the characters with leading and trailing whitespace stripped.
pub fn trim_copy(v: &Vec<char>) -> (r: Vec<char>)
    ensures
        r@ == trimmed(v@),
{
    proof {
        assert(v@.skip(0) =~= v@);
        lemma_scan_ws_props(v@);
        lemma_scan_ws_end_props(v@);
    }
    let a = scan_ws_from(v, 0);
    if a == v.len() {
        Vec::new()
    } else {
        let b = scan_ws_back(v, v.len());
        proof {
            assert(v@.take(v@.len() as int) =~= v@);
            if a >= b {
                assert(is_ws(v@[a as int]));
            }
        }
        copy_range(v, a, b)
    }
}

} // verus!
