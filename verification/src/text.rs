//! Verified text utilities: character access, decimal conversion, case
//! folding, substring search and trimming.
//!
//! Exec functions here work over `Vec<char>` / `&[char]` so that indexing is
//! cheap and contracts speak directly about `Seq<char>` views.

use vstd::prelude::*;
use vstd::string::StrSliceExecFns;
use vstd::string::StringExecFns;

verus! {

/// The characters of `s`, in order.
pub fn chars_vec(s: &str) -> (r: Vec<char>)
    ensures
        r@ == s@,
{
    let n: usize = s.unicode_len();
    let mut v: Vec<char> = Vec::new();
    let mut i: usize = 0;
    while i < n
        invariant
            i <= n,
            n == s@.len(),
            v@ == s@.take(i as int),
        decreases n - i,
    {
        let c = s.get_char(i);
        v.push(c);
        i = i + 1;
        proof {
            assert(v@ =~= s@.take(i as int));
        }
    }
    proof {
        assert(s@.take(n as int) =~= s@);
    }
    v
}

/// Relies on `String::push`: appends the given character to the end of the string.
#[verifier::external_body]
pub(crate) fn push_char(s: &mut String, c: char)
    ensures
        final(s)@ == old(s)@.push(c),
{
    s.push(c);
}

/// A `String` holding exactly the characters of `v`.
pub fn chars_to_string(v: &[char]) -> (r: String)
    ensures
        r@ == v@,
{
    let mut s = String::new();
    let mut i: usize = 0;
    while i < v.len()
        invariant
            i <= v.len(),
            s@ == v@.take(i as int),
        decreases v.len() - i,
    {
        push_char(&mut s, v[i]);
        i = i + 1;
        proof {
            assert(s@ =~= v@.take(i as int));
        }
    }
    proof {
        assert(v@.take(v@.len() as int) =~= v@);
    }
    s
}

/// Whether two string slices hold the same characters.
pub fn str_eq(a: &str, b: &str) -> (r: bool)
    ensures
        r == (a@ == b@),
{
    let s1: String = a.to_owned();
    let s2: String = b.to_owned();
    s1 == s2
}

// ---- decimal rendering ----

/// The decimal digit character for `d` (`0` to `9`).
pub open spec fn digit_char(d: nat) -> char {
    ((48 + d) as char)
}

/// The decimal rendering of `n`, most significant digit first, no leading
/// zeros (except for `n == 0` itself).
pub open spec fn dec_digits(n: nat) -> Seq<char>
    decreases n,
{
    if n < 10 {
        seq![digit_char(n)]
    } else {
        dec_digits(n / 10).push(digit_char(n % 10))
    }
}

/// The decimal digit character for `d`, as a one-character string slice.
fn digit_str(d: u64) -> (r: &'static str)
    requires
        d < 10,
    ensures
        r@ == seq![digit_char(d as nat)],
{
    let r: &'static str = match d {
        0 => "0",
        1 => "1",
        2 => "2",
        3 => "3",
        4 => "4",
        5 => "5",
        6 => "6",
        7 => "7",
        8 => "8",
        _ => "9",
    };
    proof {
        reveal_strlit("0");
        reveal_strlit("1");
        reveal_strlit("2");
        reveal_strlit("3");
        reveal_strlit("4");
        reveal_strlit("5");
        reveal_strlit("6");
        reveal_strlit("7");
        reveal_strlit("8");
        reveal_strlit("9");
        assert(r@ =~= seq![digit_char(d as nat)]);
    }
    r
}

/// The decimal rendering of `n` as a `String`.
pub fn u64_to_dec(n: u64) -> (r: String)
    ensures
        r@ == dec_digits(n as nat),
    decreases n,
{
    if n < 10 {
        digit_str(n).to_owned()
    } else {
        let mut s = u64_to_dec(n / 10);
        s.append(digit_str(n % 10));
        proof {
            assert(s@ =~= dec_digits(n as nat));
        }
        s
    }
}

// ---- decimal parsing ----

/// Whether `c` is a decimal digit.
pub open spec fn is_digit(c: char) -> bool {
    48 <= c as u32 <= 57
}

/// The value of the digit `c`.
pub open spec fn digit_val(c: char) -> nat {
    ((c as u32) - 48) as nat
}

/// Whether every character of `s` is a decimal digit.
pub open spec fn all_digits(s: Seq<char>) -> bool {
    forall|i: int| 0 <= i < s.len() ==> is_digit(s[i])
}

/// The numeric value of the digit string `s`.
pub open spec fn dec_val(s: Seq<char>) -> nat
    decreases s.len(),
{
    if s.len() == 0 {
        0
    } else {
        dec_val(s.drop_last()) * 10 + digit_val(s.last())
    }
}

/// The value of a counter rendered as `s`: its numeric value when `s` is a
/// nonempty all-digit string whose value is at most `bound`, else zero.
pub open spec fn parse_or_zero(s: Seq<char>, bound: nat) -> nat {
    if s.len() > 0 && all_digits(s) && dec_val(s) <= bound {
        dec_val(s)
    } else {
        0
    }
}

proof fn lemma_dec_val_grows(s: Seq<char>, i: int)
    requires
        0 <= i <= s.len(),
    ensures
        dec_val(s.take(i)) <= dec_val(s),
    decreases s.len() - i,
{
    if i == s.len() {
        assert(s.take(i) =~= s);
    } else {
        assert(s.take(i + 1).drop_last() =~= s.take(i));
        assert(dec_val(s.take(i)) <= dec_val(s.take(i + 1)));
        lemma_dec_val_grows(s, i + 1);
    }
}

/// Parses `v` as a decimal number, yielding zero when `v` is empty, holds a
/// non-digit, or exceeds `bound`.
pub fn parse_bounded(v: &[char], bound: u64) -> (r: u64)
    ensures
        r as nat == parse_or_zero(v@, bound as nat),
{
    let mut acc: u64 = 0;
    let mut i: usize = 0;
    while i < v.len()
        invariant
            i <= v.len(),
            acc <= bound,
            all_digits(v@.take(i as int)),
            acc as nat == dec_val(v@.take(i as int)),
        decreases v.len() - i,
    {
        let c = v[i];
        let u: u32 = c as u32;
        if u < 48 || u > 57 {
            // a non-digit makes the whole string parse to zero
            assert(!is_digit(v@[i as int]));
            return 0;
        }
        let d: u64 = (u - 48) as u64;
        proof {
            assert(is_digit(c));
            assert(digit_val(c) == d as nat);
            let p = v@.take(i as int + 1);
            assert(p.drop_last() =~= v@.take(i as int));
            assert(p.last() == c);
            assert(dec_val(p) == (acc as nat) * 10 + d as nat);
            assert forall|k: int| 0 <= k < p.len() implies is_digit(p[k]) by {
                if k < i as int {
                    assert(p[k] == v@.take(i as int)[k]);
                }
            }
        }
        let next = match acc.checked_mul(10) {
            Some(m) => m.checked_add(d),
            None => None,
        };
        match next {
            Some(n) if n <= bound => {
                acc = n;
            },
            _ => {
                // the prefix already exceeds the bound, so the full string
                // either exceeds it too or holds a non-digit: zero either way
                proof {
                    assert(dec_val(v@.take(i as int + 1)) > bound);
                    if all_digits(v@) && dec_val(v@) <= bound as nat {
                        lemma_dec_val_grows(v@, i as int + 1);
                        assert(false);
                    }
                }
                return 0;
            },
        }
        i = i + 1;
    }
    proof {
        assert(v@.take(v@.len() as int) =~= v@);
    }
    acc
}

/// Parses `v` as a `u64` counter value, zero on any malformed input.
pub fn parse_u64_or_zero(v: &[char]) -> (r: u64)
    ensures
        r as nat == parse_or_zero(v@, u64::MAX as nat),
{
    parse_bounded(v, u64::MAX)
}

/// Parses `v` as a `u32` counter value, zero on any malformed input.
pub fn parse_u32_or_zero(v: &[char]) -> (r: u32)
    ensures
        r as nat == parse_or_zero(v@, u32::MAX as nat),
{
    let r = parse_bounded(v, u32::MAX as u64);
    r as u32
}

// ---- case folding (ASCII) ----

/// `c` with an ASCII lowercase letter mapped to its uppercase form.
pub open spec fn upper_char(c: char) -> char {
    if 97 <= c as int <= 122 {
        (((c as int) - 32) as char)
    } else {
        c
    }
}

/// `s` with every ASCII lowercase letter mapped to its uppercase form.
pub open spec fn to_upper(s: Seq<char>) -> Seq<char> {
    s.map_values(|c: char| upper_char(c))
}

/// `c` with an ASCII uppercase letter mapped to its lowercase form.
pub open spec fn lower_char(c: char) -> char {
    if 65 <= c as int <= 90 {
        (((c as int) + 32) as char)
    } else {
        c
    }
}

/// `s` with every ASCII uppercase letter mapped to its lowercase form.
pub open spec fn to_lower(s: Seq<char>) -> Seq<char> {
    s.map_values(|c: char| lower_char(c))
}

/// The ASCII-uppercase form of one character.
pub fn upper_char_x(c: char) -> (r: char)
    ensures
        r == upper_char(c),
{
    let u: u32 = c as u32;
    if 97 <= u && u <= 122 {
        let b: u8 = (u - 32) as u8;
        b as char
    } else {
        c
    }
}

/// The ASCII-lowercase form of one character.
pub fn lower_char_x(c: char) -> (r: char)
    ensures
        r == lower_char(c),
{
    let u: u32 = c as u32;
    if 65 <= u && u <= 90 {
        let b: u8 = (u + 32) as u8;
        b as char
    } else {
        c
    }
}

/// The ASCII-uppercase form of `v`.
pub fn upper_chars(v: &[char]) -> (r: Vec<char>)
    ensures
        r@ == to_upper(v@),
{
    let mut out: Vec<char> = Vec::new();
    let mut i: usize = 0;
    while i < v.len()
        invariant
            i <= v.len(),
            out@ == to_upper(v@.take(i as int)),
        decreases v.len() - i,
    {
        out.push(upper_char_x(v[i]));
        i = i + 1;
        proof {
            assert(out@ =~= to_upper(v@.take(i as int)));
        }
    }
    proof {
        assert(v@.take(v@.len() as int) =~= v@);
    }
    out
}

/// The ASCII-lowercase form of `v`.
pub fn lower_chars(v: &[char]) -> (r: Vec<char>)
    ensures
        r@ == to_lower(v@),
{
    let mut out: Vec<char> = Vec::new();
    let mut i: usize = 0;
    while i < v.len()
        invariant
            i <= v.len(),
            out@ == to_lower(v@.take(i as int)),
        decreases v.len() - i,
    {
        out.push(lower_char_x(v[i]));
        i = i + 1;
        proof {
            assert(out@ =~= to_lower(v@.take(i as int)));
        }
    }
    proof {
        assert(v@.take(v@.len() as int) =~= v@);
    }
    out
}

// ---- substring search ----

/// Whether `sub` occurs in `s` at position `i`.
pub open spec fn is_sub_at(s: Seq<char>, sub: Seq<char>, i: int) -> bool {
    0 <= i && i + sub.len() <= s.len() && s.subrange(i, i + sub.len() as int) == sub
}

/// Whether `sub` occurs anywhere in `s`.
pub open spec fn contains_seq(s: Seq<char>, sub: Seq<char>) -> bool {
    exists|i: int| is_sub_at(s, sub, i)
}

/// Whether `s` begins with `p`.
pub open spec fn starts_with_seq(s: Seq<char>, p: Seq<char>) -> bool {
    p.len() <= s.len() && s.subrange(0, p.len() as int) == p
}

/// Whether `needle` occurs anywhere in `hay`.
pub fn contains_chars(hay: &[char], needle: &[char]) -> (r: bool)
    ensures
        r == contains_seq(hay@, needle@),
{
    let n = needle.len();
    let h = hay.len();
    if n > h {
        assert(forall|i: int| !is_sub_at(hay@, needle@, i));
        return false;
    }
    if n == 0 {
        proof {
            assert(hay@.subrange(0, 0) =~= needle@);
            assert(is_sub_at(hay@, needle@, 0));
        }
        return true;
    }
    let mut i: usize = 0;
    while i <= h - n
        invariant
            0 < n <= h,
            h == hay@.len(),
            n == needle@.len(),
            i <= h - n + 1,
            forall|k: int| 0 <= k < i ==> !is_sub_at(hay@, needle@, k),
        decreases h - i,
    {
        let mut j: usize = 0;
        let mut matched: bool = true;
        while j < n
            invariant
                n <= h,
                h == hay@.len(),
                n == needle@.len(),
                i <= h - n,
                j <= n,
                matched ==> forall|l: int| 0 <= l < j ==> hay@[i + l] == needle@[l],
                !matched ==> !is_sub_at(hay@, needle@, i as int),
            decreases n - j,
        {
            if hay[i + j] != needle[j] {
                proof {
                    if is_sub_at(hay@, needle@, i as int) {
                        assert(hay@.subrange(i as int, i + n as int)[j as int] == needle@[j as int]);
                    }
                }
                matched = false;
                j = n;
            } else {
                j = j + 1;
            }
        }
        if matched {
            proof {
                assert(hay@.subrange(i as int, i + n as int) =~= needle@);
                assert(is_sub_at(hay@, needle@, i as int));
            }
            return true;
        }
        i = i + 1;
    }
    proof {
        assert forall|k: int| !is_sub_at(hay@, needle@, k) by {
            if is_sub_at(hay@, needle@, k) {
                assert(0 <= k <= h - n);
            }
        }
    }
    false
}

/// Whether `s` begins with `p`.
pub fn starts_with_chars(s: &[char], p: &[char]) -> (r: bool)
    ensures
        r == starts_with_seq(s@, p@),
{
    let n = p.len();
    if n > s.len() {
        return false;
    }
    let mut j: usize = 0;
    while j < n
        invariant
            n <= s@.len(),
            n == p@.len(),
            j <= n,
            forall|l: int| 0 <= l < j ==> s@[l] == p@[l],
        decreases n - j,
    {
        if s[j] != p[j] {
            proof {
                if starts_with_seq(s@, p@) {
                    assert(s@.subrange(0, n as int)[j as int] == p@[j as int]);
                }
            }
            return false;
        }
        j = j + 1;
    }
    proof {
        assert(s@.subrange(0, n as int) =~= p@);
    }
    true
}

// ---- whitespace trimming (ASCII) ----

/// Whether `c` is an ASCII whitespace character.
pub open spec fn is_space(c: char) -> bool {
    c == ' ' || c == '\t' || c == '\n' || c == '\r' || c == '\x0c'
}

/// `s` without its leading whitespace.
pub open spec fn trim_front(s: Seq<char>) -> Seq<char>
    decreases s.len(),
{
    if s.len() > 0 && is_space(s[0]) {
        trim_front(s.drop_first())
    } else {
        s
    }
}

/// `s` without its trailing whitespace.
pub open spec fn trim_back(s: Seq<char>) -> Seq<char>
    decreases s.len(),
{
    if s.len() > 0 && is_space(s.last()) {
        trim_back(s.drop_last())
    } else {
        s
    }
}

/// `s` without leading and trailing whitespace.
pub open spec fn trimmed(s: Seq<char>) -> Seq<char> {
    trim_back(trim_front(s))
}

proof fn lemma_trim_front_skip(s: Seq<char>, lo: int)
    requires
        0 <= lo <= s.len(),
        forall|k: int| 0 <= k < lo ==> is_space(s[k]),
        lo < s.len() ==> !is_space(s[lo]),
    ensures
        trim_front(s) =~= s.subrange(lo, s.len() as int),
    decreases lo,
{
    if lo == 0 {
        if s.len() > 0 && is_space(s[0]) {
            assert(false);
        }
        assert(trim_front(s) =~= s.subrange(0, s.len() as int));
    } else {
        let t = s.drop_first();
        assert(is_space(s[0]));
        lemma_trim_front_skip(t, lo - 1);
        assert(t.subrange(lo - 1, t.len() as int) =~= s.subrange(lo, s.len() as int));
    }
}

proof fn lemma_trim_back_skip(s: Seq<char>, hi: int)
    requires
        0 <= hi <= s.len(),
        forall|k: int| hi <= k < s.len() ==> is_space(s[k]),
        hi > 0 ==> !is_space(s[hi - 1]),
    ensures
        trim_back(s) =~= s.subrange(0, hi),
    decreases s.len() - hi,
{
    if hi == s.len() {
        if s.len() > 0 && is_space(s.last()) {
            assert(false);
        }
        assert(trim_back(s) =~= s.subrange(0, hi));
    } else {
        let t = s.drop_last();
        assert(is_space(s.last()));
        lemma_trim_back_skip(t, hi);
    }
}

/// `v` without leading and trailing ASCII whitespace.
pub fn trim_chars(v: &[char]) -> (r: Vec<char>)
    ensures
        r@ == trimmed(v@),
{
    let n = v.len();
    let mut lo: usize = 0;
    while lo < n && is_space_x(v[lo])
        invariant
            lo <= n,
            n == v@.len(),
            forall|k: int| 0 <= k < lo ==> is_space(v@[k]),
        decreases n - lo,
    {
        lo = lo + 1;
    }
    proof {
        lemma_trim_front_skip(v@, lo as int);
    }
    let mut hi: usize = n;
    while hi > lo && is_space_x(v[hi - 1])
        invariant
            lo <= hi <= n,
            n == v@.len(),
            forall|k: int| hi <= k < n ==> is_space(v@[k]),
            lo < n ==> !is_space(v@[lo as int]),
        decreases hi,
    {
        hi = hi - 1;
    }
    proof {
        let t = trim_front(v@);
        assert(t =~= v@.subrange(lo as int, n as int));
        assert forall|k: int| (hi - lo) <= k < t.len() implies is_space(t[k]) by {
            assert(t[k] == v@[k + lo]);
        }
        if hi > lo {
            assert(t[hi - lo - 1] == v@[hi - 1]);
        }
        lemma_trim_back_skip(t, hi - lo as int);
    }
    let mut out: Vec<char> = Vec::new();
    let mut i: usize = lo;
    while i < hi
        invariant
            lo <= i <= hi <= n,
            n == v@.len(),
            out@ == v@.subrange(lo as int, i as int),
        decreases hi - i,
    {
        out.push(v[i]);
        i = i + 1;
        proof {
            assert(out@ =~= v@.subrange(lo as int, i as int));
        }
    }
    proof {
        assert(trim_front(v@).subrange(0, hi - lo as int) =~= v@.subrange(lo as int, hi as int));
    }
    out
}

// ---- key=value assignment lines ----

/// What an assignment line of a configuration file means: nothing for a
/// blank or comment line or one without `=`, else the key and value around
/// the first `=`, each trimmed.
pub open spec fn spec_env_line(line: Seq<char>) -> Option<(Seq<char>, Seq<char>)> {
    let t = trimmed(line);
    if t.len() == 0 || t[0] == '#' {
        None
    } else {
        let j = find_idx_le(t, '=');
        if j == t.len() {
            None
        } else {
            Some((trimmed(t.take(j)), trimmed(t.skip(j + 1))))
        }
    }
}

/// Parses one `key=value` assignment line: blank lines, comment lines and
/// lines without `=` parse to nothing; key and value are trimmed.
pub fn parse_env_line(line: &str) -> (r: Option<(String, String)>)
    ensures
        match r {
            Some(kv) => (spec_env_line(line@) matches Some(p) && p.0 == kv.0@ && p.1 == kv.1@),
            None => spec_env_line(line@) is None,
        },
{
    let v = chars_vec(line);
    let t = trim_chars(v.as_slice());
    let n = t.len();
    if n == 0 {
        return None;
    }
    if t[0] == '#' {
        return None;
    }
    match find_char_range(t.as_slice(), 0, n, '=') {
        None => {
            proof {
                lemma_find_idx(t@, '=', n as int);
            }
            None
        },
        Some(j) => {
            proof {
                lemma_find_idx(t@, '=', j as int);
            }
            let key_chars = subrange_vec(t.as_slice(), 0, j);
            let value_chars = subrange_vec(t.as_slice(), j + 1, n);
            proof {
                assert(key_chars@ =~= t@.take(j as int));
                assert(value_chars@ =~= t@.skip(j as int + 1));
            }
            let key = trim_chars(key_chars.as_slice());
            let value = trim_chars(value_chars.as_slice());
            Some((chars_to_string(key.as_slice()), chars_to_string(value.as_slice())))
        },
    }
}

/// Whether `c` is an ASCII whitespace character.
pub fn is_space_x(c: char) -> (r: bool)
    ensures
        r == is_space(c),
{
    c == ' ' || c == '\t' || c == '\n' || c == '\r' || c == '\x0c'
}

/// The first position of `c` in `v[from..to]`, if any.
pub fn find_char_range(v: &[char], from: usize, to: usize, c: char) -> (r: Option<usize>)
    requires
        from <= to <= v@.len(),
    ensures
        match r {
            Some(j) => from <= j < to && v@[j as int] == c && forall|k: int|
                from <= k < j ==> v@[k] != c,
            None => forall|k: int| from <= k < to ==> v@[k] != c,
        },
{
    let mut i: usize = from;
    while i < to
        invariant
            from <= i <= to <= v@.len(),
            forall|k: int| from <= k < i ==> v@[k] != c,
        decreases to - i,
    {
        if v[i] == c {
            return Some(i);
        }
        i = i + 1;
    }
    None
}

/// A copy of `v[from..to]`.
pub fn subrange_vec(v: &[char], from: usize, to: usize) -> (r: Vec<char>)
    requires
        from <= to <= v@.len(),
    ensures
        r@ == v@.subrange(from as int, to as int),
{
    let mut out: Vec<char> = Vec::new();
    let mut i: usize = from;
    while i < to
        invariant
            from <= i <= to <= v@.len(),
            out@ == v@.subrange(from as int, i as int),
        decreases to - i,
    {
        out.push(v[i]);
        i = i + 1;
        proof {
            assert(out@ =~= v@.subrange(from as int, i as int));
        }
    }
    out
}

/// The position of the first occurrence of `c` in `s`, or `s.len()` when `c`
/// does not occur.
pub open spec fn find_idx(s: Seq<char>, c: char) -> int
    decreases s.len(),
{
    if s.len() == 0 {
        0
    } else if s[0] == c {
        0
    } else {
        1 + find_idx(s.drop_first(), c)
    }
}

/// `find_idx`, clipped into `[0, s.len()]` so that recursion and slicing
/// bounds are immediate.
pub open spec fn find_idx_le(s: Seq<char>, c: char) -> int {
    let k = find_idx(s, c);
    if 0 <= k <= s.len() {
        k
    } else {
        s.len() as int
    }
}

/// `find_idx` is exactly the first-occurrence position.
pub proof fn lemma_find_idx(s: Seq<char>, c: char, j: int)
    requires
        0 <= j <= s.len(),
        forall|k: int| 0 <= k < j ==> s[k] != c,
        j < s.len() ==> s[j] == c,
    ensures
        find_idx(s, c) == j,
    decreases j,
{
    if s.len() == 0 {
    } else if j == 0 {
    } else {
        let t = s.drop_first();
        assert forall|k: int| 0 <= k < j - 1 implies t[k] != c by {
            assert(t[k] == s[k + 1]);
        }
        assert(j - 1 < t.len() ==> t[j - 1] == c);
        lemma_find_idx(t, c, j - 1);
    }
}

} // verus!
