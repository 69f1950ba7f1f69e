//! String primitives shared by the parsers and formatters of this crate.
//!
//! All specifications are stated over `Seq<char>` views. Whitespace means
//! ASCII whitespace throughout; the files this library interprets
//! (`/proc/*/uid_map`, `/proc/self/status`, `/etc/subuid`, `/etc/subgid`)
//! only ever contain ASCII separators.

use vstd::prelude::*;

verus! {

/// ASCII whitespace, as it appears in the files this crate parses.
pub open spec fn is_space(c: char) -> bool {
    c == ' ' || c == '\t' || c == '\n' || c == '\r' || c == '\u{b}' || c == '\u{c}'
}

/// Length of the prefix of `s` before the first occurrence of `c`
/// (the whole length when `c` does not occur).
pub open spec fn upto(s: Seq<char>, c: char) -> int
    decreases s.len(),
{
    if s.len() == 0 {
        0
    } else if s[0] == c {
        0
    } else {
        1 + upto(s.subrange(1, s.len() as int), c)
    }
}

/// The characteristic facts of [`upto`]: it is the index of the first
/// occurrence of `c`, or the length of `s` when `c` does not occur.
pub proof fn lemma_upto(s: Seq<char>, c: char)
    ensures
        0 <= upto(s, c) <= s.len(),
        upto(s, c) < s.len() ==> s[upto(s, c)] == c,
        forall|j: int| 0 <= j < upto(s, c) ==> s[j] != c,
    decreases s.len(),
{
    if s.len() == 0 {
    } else if s[0] == c {
    } else {
        let t = s.subrange(1, s.len() as int);
        lemma_upto(t, c);
        assert forall|j: int| 0 <= j < upto(s, c) implies s[j] != c by {
            if j > 0 {
                assert(t[j - 1] == s[j]);
            }
        }
    }
}

/// Length of the leading run of non-whitespace characters of `s`.
pub open spec fn token_len(s: Seq<char>) -> int
    decreases s.len(),
{
    if s.len() == 0 {
        0
    } else if is_space(s[0]) {
        0
    } else {
        1 + token_len(s.subrange(1, s.len() as int))
    }
}

/// The characteristic facts of [`token_len`].
pub proof fn lemma_token_len(s: Seq<char>)
    ensures
        0 <= token_len(s) <= s.len(),
        token_len(s) < s.len() ==> is_space(s[token_len(s)]),
        forall|j: int| 0 <= j < token_len(s) ==> !is_space(s[j]),
    decreases s.len(),
{
    if s.len() == 0 {
    } else if is_space(s[0]) {
    } else {
        let t = s.subrange(1, s.len() as int);
        lemma_token_len(t);
        assert forall|j: int| 0 <= j < token_len(s) implies !is_space(s[j]) by {
            if j > 0 {
                assert(t[j - 1] == s[j]);
            }
        }
    }
}

/// Length of the leading run of whitespace characters of `s`.
pub open spec fn lead_spaces(s: Seq<char>) -> int
    decreases s.len(),
{
    if s.len() == 0 {
        0
    } else if !is_space(s[0]) {
        0
    } else {
        1 + lead_spaces(s.subrange(1, s.len() as int))
    }
}

/// The characteristic facts of [`lead_spaces`].
pub proof fn lemma_lead_spaces(s: Seq<char>)
    ensures
        0 <= lead_spaces(s) <= s.len(),
        lead_spaces(s) < s.len() ==> !is_space(s[lead_spaces(s)]),
        forall|j: int| 0 <= j < lead_spaces(s) ==> is_space(s[j]),
    decreases s.len(),
{
    if s.len() == 0 {
    } else if !is_space(s[0]) {
    } else {
        let t = s.subrange(1, s.len() as int);
        lemma_lead_spaces(t);
        assert forall|j: int| 0 <= j < lead_spaces(s) implies is_space(s[j]) by {
            if j > 0 {
                assert(t[j - 1] == s[j]);
            }
        }
    }
}

/// Length of the trailing run of whitespace characters of `s`.
pub open spec fn trail_spaces(s: Seq<char>) -> int
    decreases s.len(),
{
    if s.len() == 0 {
        0
    } else if !is_space(s[s.len() - 1]) {
        0
    } else {
        1 + trail_spaces(s.subrange(0, s.len() - 1))
    }
}

/// The characteristic facts of [`trail_spaces`].
pub proof fn lemma_trail_spaces(s: Seq<char>)
    ensures
        0 <= trail_spaces(s) <= s.len(),
        trail_spaces(s) < s.len() ==> !is_space(s[s.len() - 1 - trail_spaces(s)]),
        forall|j: int| s.len() - trail_spaces(s) <= j < s.len() ==> is_space(s[j]),
    decreases s.len(),
{
    if s.len() == 0 {
    } else if !is_space(s[s.len() - 1]) {
    } else {
        let t = s.subrange(0, s.len() - 1);
        lemma_trail_spaces(t);
        assert forall|j: int| s.len() - trail_spaces(s) <= j < s.len() implies is_space(
            s[j],
        ) by {
            if j < s.len() - 1 {
                assert(t[j] == s[j]);
            }
        }
    }
}

/// `s` with leading and trailing ASCII whitespace removed.
pub open spec fn spec_trim(s: Seq<char>) -> Seq<char> {
    let lead = lead_spaces(s);
    let rest = s.subrange(lead, s.len() as int);
    rest.subrange(0, rest.len() - trail_spaces(rest))
}

/// Index of the first `c` in `s` (the length of `s` when `c` is absent).
pub fn upto_exec(s: &str, c: char) -> (n: usize)
    ensures
        n == upto(s@, c),
{
    proof {
        lemma_upto(s@, c);
    }
    let len: usize = s.unicode_len();
    let mut i: usize = 0;
    while i < len
        invariant
            0 <= i <= len,
            len == s@.len(),
            forall|j: int| 0 <= j < i ==> s@[j] != c,
            0 <= upto(s@, c) <= s@.len(),
            upto(s@, c) < s@.len() ==> s@[upto(s@, c)] == c,
            forall|j: int| 0 <= j < upto(s@, c) ==> s@[j] != c,
        decreases len - i,
    {
        if s.get_char(i) == c {
            return i;
        }
        i = i + 1;
    }
    i
}

/// Length of the leading non-whitespace run of `s`.
pub fn token_len_exec(s: &str) -> (n: usize)
    ensures
        n == token_len(s@),
{
    proof {
        lemma_token_len(s@);
    }
    let len: usize = s.unicode_len();
    let mut i: usize = 0;
    while i < len
        invariant
            0 <= i <= len,
            len == s@.len(),
            forall|j: int| 0 <= j < i ==> !is_space(s@[j]),
            0 <= token_len(s@) <= s@.len(),
            token_len(s@) < s@.len() ==> is_space(s@[token_len(s@)]),
            forall|j: int| 0 <= j < token_len(s@) ==> !is_space(s@[j]),
        decreases len - i,
    {
        if is_space_exec(s.get_char(i)) {
            return i;
        }
        i = i + 1;
    }
    i
}

/// Length of the leading whitespace run of `s`.
pub fn lead_spaces_exec(s: &str) -> (n: usize)
    ensures
        n == lead_spaces(s@),
{
    proof {
        lemma_lead_spaces(s@);
    }
    let len: usize = s.unicode_len();
    let mut i: usize = 0;
    while i < len
        invariant
            0 <= i <= len,
            len == s@.len(),
            forall|j: int| 0 <= j < i ==> is_space(s@[j]),
            0 <= lead_spaces(s@) <= s@.len(),
            lead_spaces(s@) < s@.len() ==> !is_space(s@[lead_spaces(s@)]),
            forall|j: int| 0 <= j < lead_spaces(s@) ==> is_space(s@[j]),
        decreases len - i,
    {
        if !is_space_exec(s.get_char(i)) {
            return i;
        }
        i = i + 1;
    }
    i
}

/// Whether `c` is ASCII whitespace.
pub fn is_space_exec(c: char) -> (r: bool)
    ensures
        r == is_space(c),
{
    c == ' ' || c == '\t' || c == '\n' || c == '\r' || c == '\u{b}' || c == '\u{c}'
}

/// Length of the trailing whitespace run of `s`.
pub fn trail_spaces_exec(s: &str) -> (n: usize)
    ensures
        n == trail_spaces(s@),
{
    proof {
        lemma_trail_spaces(s@);
    }
    let len: usize = s.unicode_len();
    let mut i: usize = 0;
    while i < len
        invariant
            0 <= i <= len,
            len == s@.len(),
            forall|k: int| len - i <= k < len ==> is_space(s@[k]),
            0 <= trail_spaces(s@) <= s@.len(),
            trail_spaces(s@) < s@.len() ==> !is_space(s@[s@.len() - 1 - trail_spaces(s@)]),
            forall|k: int| s@.len() - trail_spaces(s@) <= k < s@.len() ==> is_space(s@[k]),
        decreases len - i,
    {
        if !is_space_exec(s.get_char(len - 1 - i)) {
            return i;
        }
        i = i + 1;
    }
    i
}

/// `s` with leading and trailing ASCII whitespace removed.
pub fn trim_exec<'a>(s: &'a str) -> (r: &'a str)
    ensures
        r@ == spec_trim(s@),
{
    proof {
        lemma_lead_spaces(s@);
    }
    let len: usize = s.unicode_len();
    let lead: usize = lead_spaces_exec(s);
    let rest = s.substring_char(lead, len);
    let trail: usize = trail_spaces_exec(rest);
    proof {
        lemma_trail_spaces(rest@);
    }
    let r = s.substring_char(lead, len - trail);
    proof {
        assert(r@ =~= rest@.subrange(0, rest@.len() - trail_spaces(rest@)));
    }
    r
}

/// Whether the characters of `a` and `b` are equal.
pub fn str_eq(a: &str, b: &str) -> (r: bool)
    ensures
        r == (a@ == b@),
{
    let alen: usize = a.unicode_len();
    let blen: usize = b.unicode_len();
    if alen != blen {
        return false;
    }
    let mut i: usize = 0;
    while i < alen
        invariant
            0 <= i <= alen,
            alen == a@.len(),
            alen == b@.len(),
            forall|j: int| 0 <= j < i ==> a@[j] == b@[j],
        decreases alen - i,
    {
        if a.get_char(i) != b.get_char(i) {
            return false;
        }
        i = i + 1;
    }
    proof {
        assert(a@ =~= b@);
    }
    true
}

/// `l` with a single trailing carriage return removed, as `str::lines` does.
pub open spec fn chomp_cr(l: Seq<char>) -> Seq<char> {
    if l.len() > 0 && l[l.len() - 1] == '\r' {
        l.subrange(0, l.len() - 1)
    } else {
        l
    }
}

/// The lines of `s`, split exactly as `str::lines` splits them: pieces are
/// separated by `\n`, a final line ending is optional, and one `\r` before
/// each line break is removed.
pub open spec fn spec_lines(s: Seq<char>) -> Seq<Seq<char>>
    decreases s.len(),
    via spec_lines_decreases
{
    if s.len() == 0 {
        Seq::empty()
    } else {
        let n = upto(s, '\n');
        if n == s.len() {
            seq![s]
        } else {
            seq![chomp_cr(s.subrange(0, n))] + spec_lines(s.subrange(n + 1, s.len() as int))
        }
    }
}

#[via_fn]
proof fn spec_lines_decreases(s: Seq<char>) {
    lemma_upto(s, '\n');
}

/// The whitespace-separated tokens of `s`, split as `str::split_whitespace`
/// splits them (with ASCII whitespace).
pub open spec fn spec_tokens(s: Seq<char>) -> Seq<Seq<char>>
    decreases s.len(),
    via spec_tokens_decreases
{
    if s.len() == 0 {
        Seq::empty()
    } else if is_space(s[0]) {
        spec_tokens(s.subrange(1, s.len() as int))
    } else {
        let n = token_len(s);
        seq![s.subrange(0, n)] + spec_tokens(s.subrange(n, s.len() as int))
    }
}

#[via_fn]
proof fn spec_tokens_decreases(s: Seq<char>) {
    lemma_token_len(s);
    if s.len() > 0 && !is_space(s[0]) {
        lemma_token_len(s.subrange(1, s.len() as int));
    }
}

/// A whitespace-separated token: non-empty, with no whitespace inside.
pub open spec fn is_token(t: Seq<char>) -> bool {
    t.len() > 0 && (forall|j: int| 0 <= j < t.len() ==> !is_space(t[j]))
}

/// Every piece of [`spec_tokens`] is a [token](is_token).
pub proof fn lemma_tokens_are_tokens(s: Seq<char>)
    ensures
        forall|k: int|
            0 <= k < spec_tokens(s).len() ==> #[trigger] is_token(spec_tokens(s)[k]),
    decreases s.len(),
{
    if s.len() == 0 {
    } else if is_space(s[0]) {
        lemma_tokens_are_tokens(s.subrange(1, s.len() as int));
        assert(spec_tokens(s) == spec_tokens(s.subrange(1, s.len() as int)));
    } else {
        lemma_token_len(s);
        let n = token_len(s);
        lemma_token_len(s.subrange(1, s.len() as int));
        lemma_tokens_are_tokens(s.subrange(n, s.len() as int));
        assert(spec_tokens(s) == seq![s.subrange(0, n)] + spec_tokens(
            s.subrange(n, s.len() as int),
        ));
        assert(is_token(s.subrange(0, n)));
        assert forall|k: int|
            0 <= k < spec_tokens(s).len() implies #[trigger] is_token(spec_tokens(s)[k]) by {
            if k > 0 {
                assert(spec_tokens(s)[k] == spec_tokens(s.subrange(n, s.len() as int))[k - 1]);
            }
        }
    }
}

/// Split off the first line of a non-empty string; the remaining lines are
/// exactly the lines of the returned rest.
pub fn split_first_line<'a>(s: &'a str) -> (r: (&'a str, &'a str))
    requires
        s@.len() > 0,
    ensures
        spec_lines(s@) == seq![r.0@] + spec_lines(r.1@),
        r.1@.len() < s@.len(),
{
    proof {
        lemma_upto(s@, '\n');
    }
    let len: usize = s.unicode_len();
    let n: usize = upto_exec(s, '\n');
    let line_end: usize = if n < len && n > 0 && s.get_char(n - 1) == '\r' {
        n - 1
    } else {
        n
    };
    let line = s.substring_char(0, line_end);
    let rest = if n < len {
        s.substring_char(n + 1, len)
    } else {
        s.substring_char(len, len)
    };
    proof {
        if n == s@.len() {
            assert(s@.subrange(0, s@.len() as int) =~= s@);
            assert(rest@ =~= Seq::<char>::empty());
            assert(spec_lines(s@) =~~= seq![line@] + spec_lines(rest@));
        } else {
            assert(line@ =~= chomp_cr(s@.subrange(0, n as int)));
            assert(rest@ =~= s@.subrange(n + 1, s@.len() as int));
            assert(spec_lines(s@) =~~= seq![line@] + spec_lines(rest@));
        }
    }
    (line, rest)
}

/// The whitespace-separated tokens of `s`.
pub fn tokens_exec(s: &str) -> (r: Vec<String>)
    ensures
        r.deep_view() == spec_tokens(s@),
    decreases s@.len(),
{
    proof {
        lemma_token_len(s@);
    }
    let len: usize = s.unicode_len();
    if len == 0 {
        let v: Vec<String> = Vec::new();
        proof {
            assert(v.deep_view() =~~= spec_tokens(s@));
        }
        v
    } else if is_space_exec(s.get_char(0)) {
        let rest = s.substring_char(1, len);
        let v = tokens_exec(rest);
        proof {
            assert(rest@ =~= s@.subrange(1, s@.len() as int));
            assert(v.deep_view() =~~= spec_tokens(s@));
        }
        v
    } else {
        let n: usize = token_len_exec(s);
        proof {
            lemma_token_len(s@.subrange(1, s@.len() as int));
        }
        let tok: String = s.substring_char(0, n).to_owned();
        let rest = s.substring_char(n, len);
        let mut v = tokens_exec(rest);
        v.insert(0, tok);
        proof {
            assert(v.deep_view() =~~= spec_tokens(s@));
        }
        v
    }
}

/// Whether `c` is an ASCII decimal digit.
pub open spec fn is_digit(c: char) -> bool {
    '0' <= c && c <= '9'
}

/// The numeric value of a digit character (0 for anything else).
pub open spec fn digit_val(c: char) -> nat {
    if is_digit(c) {
        (c as nat - '0' as nat) as nat
    } else {
        0
    }
}

/// The number denoted by a digit string, most significant digit first.
pub open spec fn digits_val(s: Seq<char>) -> nat
    decreases s.len(),
{
    if s.len() == 0 {
        0
    } else {
        digits_val(s.subrange(0, s.len() - 1)) * 10 + digit_val(s[s.len() - 1])
    }
}

/// Whether every character of `s` is a decimal digit.
pub open spec fn all_digits(s: Seq<char>) -> bool {
    forall|j: int| 0 <= j < s.len() ==> is_digit(s[j])
}

/// What `str::parse::<u32>` returns on `s`: the denoted value for a
/// non-empty digit string (an optional leading `+` is allowed) that fits
/// in `u32`, and nothing otherwise.
pub open spec fn spec_parse_u32(s: Seq<char>) -> Option<u32> {
    let body = if s.len() > 0 && s[0] == '+' {
        s.subrange(1, s.len() as int)
    } else {
        s
    };
    if body.len() > 0 && all_digits(body) && digits_val(body) <= u32::MAX {
        Some(digits_val(body) as u32)
    } else {
        None
    }
}

/// Extending a digit string on the right never decreases its value.
pub proof fn lemma_digits_val_prefix(s: Seq<char>, i: int)
    requires
        0 <= i <= s.len(),
    ensures
        digits_val(s) >= digits_val(s.subrange(0, i)),
    decreases s.len(),
{
    if i == s.len() {
        assert(s.subrange(0, i) =~= s);
    } else {
        let t = s.subrange(0, s.len() - 1);
        lemma_digits_val_prefix(t, i);
        assert(t.subrange(0, i) =~= s.subrange(0, i));
    }
}

/// Parse a decimal `u32` exactly as `str::parse::<u32>` would.
pub fn parse_u32(s: &str) -> (r: Option<u32>)
    ensures
        r == spec_parse_u32(s@),
{
    let len: usize = s.unicode_len();
    let start: usize = if len > 0 && s.get_char(0) == '+' {
        1
    } else {
        0
    };
    let ghost body = if s@.len() > 0 && s@[0] == '+' {
        s@.subrange(1, s@.len() as int)
    } else {
        s@
    };
    if len == start {
        return None;
    }
    let mut acc: u64 = 0;
    let mut i: usize = start;
    while i < len
        invariant
            start <= i <= len,
            len == s@.len(),
            start < len,
            start == 0 || start == 1,
            start == 1 ==> s@.len() > 0 && s@[0] == '+',
            start == 0 ==> !(s@.len() > 0 && s@[0] == '+'),
            body == if s@.len() > 0 && s@[0] == '+' {
                s@.subrange(1, s@.len() as int)
            } else {
                s@
            },
            forall|j: int| 0 <= j < i - start ==> is_digit(body[j]),
            acc == digits_val(body.subrange(0, i - start)),
            acc <= u32::MAX,
        decreases len - i,
    {
        let c = s.get_char(i);
        if c < '0' || c > '9' {
            proof {
                assert(body[i - start] == s@[i as int]);
                assert(!is_digit(body[i - start]));
            }
            return None;
        }
        let d: u64 = (c as u32 as u64) - 48;
        proof {
            assert(body[i - start] == s@[i as int]);
            assert(is_digit(s@[i as int]));
            assert(d == digit_val(body[i - start]));
        }
        let next: u64 = acc * 10 + d;
        proof {
            assert(body.subrange(0, i - start + 1).subrange(0, i - start) =~= body.subrange(
                0,
                i - start,
            ));
            assert(body.subrange(0, i - start + 1)[i - start] == body[i - start]);
            assert(next == digits_val(body.subrange(0, i - start + 1)));
        }
        if next > 0xffff_ffff {
            proof {
                lemma_digits_val_prefix(body, i - start + 1);
            }
            return None;
        }
        acc = next;
        i = i + 1;
    }
    proof {
        assert(body.subrange(0, body.len() as int) =~= body);
    }
    Some(acc as u32)
}

/// The decimal digit character for `d` (`d` below ten).
pub open spec fn digit_char(d: nat) -> char {
    if d == 0 {
        '0'
    } else if d == 1 {
        '1'
    } else if d == 2 {
        '2'
    } else if d == 3 {
        '3'
    } else if d == 4 {
        '4'
    } else if d == 5 {
        '5'
    } else if d == 6 {
        '6'
    } else if d == 7 {
        '7'
    } else if d == 8 {
        '8'
    } else {
        '9'
    }
}

/// The decimal representation of `n`, most significant digit first.
pub open spec fn spec_u32_digits(n: nat) -> Seq<char>
    decreases n,
{
    if n < 10 {
        seq![digit_char(n)]
    } else {
        spec_u32_digits(n / 10) + seq![digit_char(n % 10)]
    }
}

/// The decimal representation denotes the number it was made from.
pub proof fn lemma_u32_digits_value(n: nat)
    ensures
        all_digits(spec_u32_digits(n)),
        spec_u32_digits(n).len() >= 1,
        digits_val(spec_u32_digits(n)) == n,
    decreases n,
{
    if n < 10 {
        let s = spec_u32_digits(n);
        assert(s.len() == 1);
        assert(s.subrange(0, 0) =~= Seq::<char>::empty());
        assert(digits_val(Seq::<char>::empty()) == 0);
        assert(digits_val(s) == digits_val(s.subrange(0, 0)) * 10 + digit_val(s[0]));
    } else {
        lemma_u32_digits_value(n / 10);
        let s = spec_u32_digits(n);
        let a = spec_u32_digits(n / 10);
        assert(s == a + seq![digit_char(n % 10)]);
        assert(s.subrange(0, s.len() - 1) =~= a);
        assert(s[s.len() - 1] == digit_char(n % 10));
        assert(digits_val(s) == digits_val(a) * 10 + digit_val(digit_char(n % 10)));
        assert((n / 10) * 10 + n % 10 == n) by (nonlinear_arith);
        assert forall|j: int| 0 <= j < s.len() implies is_digit(s[j]) by {
            if j < s.len() - 1 {
                assert(s[j] == a[j]);
            }
        }
    }
}

/// Formatting a number and parsing the result yields the number back:
/// the decimal writer and reader agree.
pub proof fn lemma_u32_round_trip(n: u32)
    ensures
        spec_parse_u32(spec_u32_digits(n as nat)) == Some(n),
{
    lemma_u32_digits_value(n as nat);
    let s = spec_u32_digits(n as nat);
    assert(is_digit(s[0]));
    assert(s[0] != '+');
}

/// The decimal digit character for `d` as a string slice.
fn digit_str(d: u32) -> (r: &'static str)
    requires
        d < 10,
    ensures
        r@ =~= seq![digit_char(d as nat)],
{
    proof {
        reveal_strlit("0");
        reveal_strlit("1");
        reveal_strlit("2");
        reveal_strlit("3");
        reveal_strlit("4");
        reveal_strlit("5");
        reveal_strlit("6");
        reveal_strlit("7");
        reveal_strlit("8");
        reveal_strlit("9");
    }
    if d == 0 {
        "0"
    } else if d == 1 {
        "1"
    } else if d == 2 {
        "2"
    } else if d == 3 {
        "3"
    } else if d == 4 {
        "4"
    } else if d == 5 {
        "5"
    } else if d == 6 {
        "6"
    } else if d == 7 {
        "7"
    } else if d == 8 {
        "8"
    } else {
        "9"
    }
}

/// The decimal representation of `n`, with a sign when negative.
pub open spec fn spec_i32_digits(n: int) -> Seq<char> {
    if n < 0 {
        seq!['-'] + spec_u32_digits((-n) as nat)
    } else {
        spec_u32_digits(n as nat)
    }
}

/// Format `n` in decimal, exactly as `i32::to_string` would.
pub fn fmt_i32(n: i32) -> (r: String)
    ensures
        r@ == spec_i32_digits(n as int),
{
    if n < 0 {
        let magnitude: u32 = (-(n as i64)) as u32;
        let mut s = "-".to_owned();
        s.append(fmt_u32(magnitude).as_str());
        proof {
            reveal_strlit("-");
            assert("-"@ =~= seq!['-']);
            assert(s@ =~= spec_i32_digits(n as int));
        }
        s
    } else {
        let r = fmt_u32(n as u32);
        proof {
            assert(r@ =~= spec_i32_digits(n as int));
        }
        r
    }
}

/// Format `n` in decimal, exactly as `u32::to_string` would.
pub fn fmt_u32(n: u32) -> (r: String)
    ensures
        r@ == spec_u32_digits(n as nat),
    decreases n,
{
    if n < 10 {
        let s = digit_str(n);
        let r = s.to_owned();
        proof {
            assert(r@ =~= spec_u32_digits(n as nat));
        }
        r
    } else {
        let mut r = fmt_u32(n / 10);
        r.append(digit_str(n % 10));
        proof {
            assert(r@ =~= spec_u32_digits(n as nat));
        }
        r
    }
}

} // verus!
