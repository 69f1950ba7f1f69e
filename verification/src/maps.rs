//! Derivation of the child's `uid_map` / `gid_map` from the parent's own map.
//!
//! A map file consists of lines `inside outside count`. The child receives
//! the identity transformation of the parent's map: each line becomes
//! `inside inside count`, so that the ranges the kernel already granted the
//! parent are propagated without widening or narrowing them. An empty (or
//! wholly unusable) parent map yields the default map `"0 0 1\n"`.

use vstd::prelude::*;

use crate::strutil::{
    is_token, lemma_tokens_are_tokens, spec_lines, spec_tokens, spec_u32_digits,
    split_first_line, token_len, tokens_exec, upto, chomp_cr, is_space, fmt_u32,
};

verus! {

/// Which of the two ID map files is meant.
#[derive(Clone, Copy, PartialEq, Eq, Structural, Debug)]
pub enum MapKind {
    /// `uid_map`, mapping user IDs.
    Uid,
    /// `gid_map`, mapping group IDs.
    Gid,
}

/// The default map used when the parent map has no usable line.
pub open spec fn default_map() -> Seq<char> {
    seq!['0', ' ', '0', ' ', '1', '\n']
}

/// The output produced for one input line: `inside inside count\n` when the
/// line has at least three tokens (the first is copied twice, the third is
/// the count), and nothing otherwise.
pub open spec fn spec_identity_line(line: Seq<char>) -> Seq<char> {
    let t = spec_tokens(line);
    if t.len() >= 3 {
        t[0] + seq![' '] + t[0] + seq![' '] + t[2] + seq!['\n']
    } else {
        Seq::empty()
    }
}

/// The concatenated outputs for a sequence of input lines.
pub open spec fn spec_identity_outputs(ls: Seq<Seq<char>>) -> Seq<char>
    decreases ls.len(),
{
    if ls.len() == 0 {
        Seq::empty()
    } else {
        spec_identity_line(ls[0]) + spec_identity_outputs(ls.drop_first())
    }
}

/// The identity map derived from the parent map `s`.
pub open spec fn spec_identity_map(s: Seq<char>) -> Seq<char> {
    let body = spec_identity_outputs(spec_lines(s));
    if body.len() == 0 {
        default_map()
    } else {
        body
    }
}

/// Unfolding step for [`spec_identity_outputs`] on a cons of lines.
proof fn lemma_outputs_cons(l: Seq<char>, ls: Seq<Seq<char>>)
    ensures
        spec_identity_outputs(seq![l] + ls) == spec_identity_line(l) + spec_identity_outputs(ls),
{
    let cons = seq![l] + ls;
    assert(cons[0] == l);
    assert(cons.drop_first() =~~= ls);
}

/// The output for one input line.
fn identity_line_exec(line: &str) -> (r: String)
    ensures
        r@ == spec_identity_line(line@),
{
    let toks = tokens_exec(line);
    if toks.len() >= 3 {
        let mut out = String::new();
        out.append(toks[0].as_str());
        out.append(" ");
        out.append(toks[0].as_str());
        out.append(" ");
        out.append(toks[2].as_str());
        out.append("\n");
        proof {
            reveal_strlit(" ");
            reveal_strlit("\n");
            assert(" "@ =~= seq![' ']);
            assert("\n"@ =~= seq!['\n']);
            assert(toks@[0]@ == spec_tokens(line@)[0]);
            assert(toks@[2]@ == spec_tokens(line@)[2]);
            assert(out@ =~= spec_identity_line(line@));
        }
        out
    } else {
        let out = String::new();
        proof {
            assert(out@ =~= spec_identity_line(line@));
        }
        out
    }
}

/// The concatenated outputs for every line of `s`.
fn identity_body(s: &str) -> (r: String)
    ensures
        r@ == spec_identity_outputs(spec_lines(s@)),
    decreases s@.len(),
{
    let len: usize = s.unicode_len();
    if len == 0 {
        let r = String::new();
        proof {
            assert(r@ =~= spec_identity_outputs(spec_lines(s@)));
        }
        r
    } else {
        let (line, rest) = split_first_line(s);
        let mut out = identity_line_exec(line);
        let tail = identity_body(rest);
        out.append(tail.as_str());
        proof {
            lemma_outputs_cons(line@, spec_lines(rest@));
        }
        out
    }
}

/// First occurrence of `c` in `x + [c] + y` is at `x.len()` when `c` is not in `x`.
proof fn lemma_upto_concat(x: Seq<char>, y: Seq<char>, c: char)
    requires
        forall|j: int| 0 <= j < x.len() ==> x[j] != c,
    ensures
        upto(x + seq![c] + y, c) == x.len(),
    decreases x.len(),
{
    let s = x + seq![c] + y;
    if x.len() == 0 {
        assert(s[0] == c);
    } else {
        assert(s[0] == x[0]);
        let x1 = x.subrange(1, x.len() as int);
        lemma_upto_concat(x1, y, c);
        assert(s.subrange(1, s.len() as int) =~= x1 + seq![c] + y);
    }
}

/// Splitting off one full line: when `x` holds no line break and does not
/// end in a carriage return, the lines of `x + "\n" + y` are `x` followed
/// by the lines of `y`.
proof fn lemma_lines_cons(x: Seq<char>, y: Seq<char>)
    requires
        forall|j: int| 0 <= j < x.len() ==> x[j] != '\n',
        x.len() > 0 ==> x[x.len() - 1] != '\r',
    ensures
        spec_lines(x + seq!['\n'] + y) == seq![x] + spec_lines(y),
{
    let s = x + seq!['\n'] + y;
    lemma_upto_concat(x, y, '\n');
    let n = upto(s, '\n');
    assert(n == x.len());
    assert(n < s.len());
    assert(s.subrange(0, n) =~= x);
    assert(chomp_cr(x) =~= x);
    assert(s.subrange(n + 1, s.len() as int) =~= y);
    assert(spec_lines(s) =~~= seq![x] + spec_lines(y));
}

/// The leading token run of `t + rest` is exactly `t` when `t` is a token
/// and `rest` starts with whitespace (or is empty).
proof fn lemma_token_len_concat(t: Seq<char>, rest: Seq<char>)
    requires
        is_token(t),
        rest.len() == 0 || is_space(rest[0]),
    ensures
        token_len(t + rest) == t.len(),
    decreases t.len(),
{
    let s = t + rest;
    assert(s[0] == t[0]);
    assert(!is_space(t[0]));
    if t.len() == 1 {
        assert(s.subrange(1, s.len() as int) =~= rest);
        assert(token_len(rest) == 0);
        assert(token_len(s) == 1 + token_len(s.subrange(1, s.len() as int)));
    } else {
        let t1 = t.subrange(1, t.len() as int);
        assert forall|j: int| 0 <= j < t1.len() implies !is_space(t1[j]) by {
            assert(t1[j] == t[j + 1]);
        }
        assert(is_token(t1));
        lemma_token_len_concat(t1, rest);
        assert(s.subrange(1, s.len() as int) =~= t1 + rest);
        assert(token_len(s) == 1 + token_len(s.subrange(1, s.len() as int)));
    }
}

/// Splitting off one token: the tokens of `t + rest` are `t` followed by
/// the tokens of `rest`.
proof fn lemma_tokens_cons(t: Seq<char>, rest: Seq<char>)
    requires
        is_token(t),
        rest.len() == 0 || is_space(rest[0]),
    ensures
        spec_tokens(t + rest) == seq![t] + spec_tokens(rest),
{
    let s = t + rest;
    assert(s[0] == t[0]);
    lemma_token_len_concat(t, rest);
    let n = token_len(s);
    assert(s.subrange(0, n) =~= t);
    assert(s.subrange(n, s.len() as int) =~= rest);
    assert(spec_tokens(s) =~~= seq![t] + spec_tokens(rest));
}

/// A leading space does not contribute a token.
proof fn lemma_tokens_drop_space(rest: Seq<char>)
    ensures
        spec_tokens(seq![' '] + rest) == spec_tokens(rest),
{
    let s = seq![' '] + rest;
    assert(s[0] == ' ');
    assert(s.subrange(1, s.len() as int) =~= rest);
}

/// The tokens of `a a c` (single spaces between tokens) are `[a, a, c]`.
proof fn lemma_inner_tokens(a: Seq<char>, c: Seq<char>)
    requires
        is_token(a),
        is_token(c),
    ensures
        spec_tokens(a + seq![' '] + a + seq![' '] + c) == seq![a, a, c],
{
    let inner = a + seq![' '] + a + seq![' '] + c;
    let r1 = seq![' '] + a + seq![' '] + c;
    let r2 = a + seq![' '] + c;
    let r3 = seq![' '] + c;
    assert(inner =~= a + r1);
    assert(r1[0] == ' ');
    lemma_tokens_cons(a, r1);
    assert(r1 =~= seq![' '] + r2);
    lemma_tokens_drop_space(r2);
    assert(r2 =~= a + r3);
    assert(r3[0] == ' ');
    lemma_tokens_cons(a, r3);
    assert(r3 =~= seq![' '] + c);
    lemma_tokens_drop_space(c);
    assert(c =~= c + Seq::<char>::empty());
    lemma_tokens_cons(c, Seq::empty());
    assert(spec_tokens(Seq::<char>::empty()) =~~= Seq::<Seq<char>>::empty());
    assert(spec_tokens(inner) =~~= seq![a, a, c]);
}

/// No character of the line `a a c` is a line break, and it does not end
/// in a carriage return.
proof fn lemma_inner_clean(a: Seq<char>, c: Seq<char>)
    requires
        is_token(a),
        is_token(c),
    ensures
        forall|j: int|
            0 <= j < (a + seq![' '] + a + seq![' '] + c).len() ==> (a + seq![' '] + a + seq![' ']
                + c)[j] != '\n',
        (a + seq![' '] + a + seq![' '] + c).len() > 0,
        (a + seq![' '] + a + seq![' '] + c).last() != '\r',
{
    let inner = a + seq![' '] + a + seq![' '] + c;
    assert forall|j: int| 0 <= j < inner.len() implies inner[j] != '\n' by {
        if j < a.len() {
            assert(inner[j] == a[j]);
            assert(!is_space(a[j]));
        } else if j == a.len() {
            assert(inner[j] == ' ');
        } else if j < 2 * a.len() + 1 {
            assert(inner[j] == a[j - a.len() - 1]);
            assert(!is_space(a[j - a.len() - 1]));
        } else if j == 2 * a.len() + 1 {
            assert(inner[j] == ' ');
        } else {
            assert(inner[j] == c[j - 2 * a.len() - 2]);
            assert(!is_space(c[j - 2 * a.len() - 2]));
        }
    }
    assert(inner.last() == c.last());
    assert(!is_space(c.last()));
}

/// The identity transformation maps each of its own output bodies to
/// itself.
proof fn lemma_outputs_stable(ls: Seq<Seq<char>>)
    ensures
        spec_identity_outputs(spec_lines(spec_identity_outputs(ls))) == spec_identity_outputs(ls),
    decreases ls.len(),
{
    if ls.len() == 0 {
        assert(spec_identity_outputs(ls) =~= Seq::<char>::empty());
    } else {
        let l0 = ls[0];
        let rest = ls.drop_first();
        lemma_outputs_stable(rest);
        let brest = spec_identity_outputs(rest);
        let t = spec_tokens(l0);
        if t.len() >= 3 {
            lemma_tokens_are_tokens(l0);
            let a = t[0];
            let c = t[2];
            assert(is_token(a));
            assert(is_token(c));
            let inner = a + seq![' '] + a + seq![' '] + c;
            let w = spec_identity_line(l0);
            assert(w =~= inner + seq!['\n']);
            assert(spec_identity_outputs(ls) == w + brest);
            lemma_inner_clean(a, c);
            lemma_lines_cons(inner, brest);
            assert((w + brest) =~= (inner + seq!['\n'] + brest));
            assert(spec_lines(w + brest) == seq![inner] + spec_lines(brest));
            lemma_outputs_cons(inner, spec_lines(brest));
            lemma_inner_tokens(a, c);
            assert(spec_identity_line(inner) =~= w);
            assert(spec_identity_outputs(spec_lines(spec_identity_outputs(ls)))
                == spec_identity_outputs(ls));
        } else {
            assert(spec_identity_line(l0) =~= Seq::<char>::empty());
            assert(spec_identity_outputs(ls) =~= brest);
        }
    }
}

/// The identity-map derivation is idempotent: applying it to its own
/// output yields that output again.
pub proof fn lemma_identity_map_idempotent(s: Seq<char>)
    ensures
        spec_identity_map(spec_identity_map(s)) == spec_identity_map(s),
{
    let b = spec_identity_outputs(spec_lines(s));
    if b.len() == 0 {
        let a = seq!['0'];
        let c = seq!['1'];
        assert(is_token(a));
        assert(is_token(c));
        let inner = a + seq![' '] + a + seq![' '] + c;
        lemma_inner_clean(a, c);
        lemma_lines_cons(inner, Seq::empty());
        assert((inner + seq!['\n'] + Seq::<char>::empty()) =~= default_map());
        assert(spec_lines(default_map()) == seq![inner] + spec_lines(Seq::<char>::empty()));
        assert(spec_lines(default_map()) =~~= seq![inner]);
        lemma_outputs_cons(inner, Seq::empty());
        assert(seq![inner] =~~= seq![inner] + Seq::<Seq<char>>::empty());
        lemma_inner_tokens(a, c);
        assert(spec_identity_line(inner) =~= default_map());
        assert(spec_identity_outputs(spec_lines(default_map())) =~= default_map());
    } else {
        lemma_outputs_stable(spec_lines(s));
    }
}

/// Convert a `uid_map`/`gid_map` to an identity mapping.
///
/// Each line `inside outside count` of the parent map becomes
/// `inside inside count`; lines with fewer than three whitespace-separated
/// tokens are skipped. When nothing usable remains, the result is the
/// default map `"0 0 1\n"`.
pub fn make_identity_map(map: &str) -> (r: String)
    ensures
        r@ == spec_identity_map(map@),
        map@.len() == 0 ==> r@ == default_map(),
{
    let body = identity_body(map);
    if body.as_str().unicode_len() == 0 {
        let r = "0 0 1\n".to_owned();
        proof {
            reveal_strlit("0 0 1\n");
            assert(r@ =~= default_map());
        }
        r
    } else {
        body
    }
}

/// The path of the map file of `kind` for process `pid`.
pub open spec fn spec_proc_map_path(pid: nat, kind: MapKind) -> Seq<char> {
    seq!['/', 'p', 'r', 'o', 'c', '/'] + spec_u32_digits(pid) + match kind {
        MapKind::Uid => seq!['/', 'u', 'i', 'd', '_', 'm', 'a', 'p'],
        MapKind::Gid => seq!['/', 'g', 'i', 'd', '_', 'm', 'a', 'p'],
    }
}

/// Build `/proc/<pid>/uid_map` or `/proc/<pid>/gid_map`.
pub fn proc_map_path(pid: u32, kind: MapKind) -> (r: String)
    ensures
        r@ == spec_proc_map_path(pid as nat, kind),
{
    let mut s = "/proc/".to_owned();
    let digits = fmt_u32(pid);
    s.append(digits.as_str());
    match kind {
        MapKind::Uid => s.append("/uid_map"),
        MapKind::Gid => s.append("/gid_map"),
    }
    proof {
        reveal_strlit("/proc/");
        reveal_strlit("/uid_map");
        reveal_strlit("/gid_map");
        assert(s@ =~= spec_proc_map_path(pid as nat, kind));
    }
    s
}

} // verus!
