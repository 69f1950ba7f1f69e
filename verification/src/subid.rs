//! Parsing of `/etc/subuid` and `/etc/subgid`.
//!
//! Each line has the form `name:start:count`. A lookup scans the lines in
//! order; a line counts only when its first field, trimmed, equals the
//! username exactly and its `start` and `count` fields parse as `u32`.
//! Malformed lines are skipped without failing the file as a whole, and
//! the first usable line wins.

use vstd::prelude::*;

use crate::strutil::{
    lemma_upto, spec_lines, spec_parse_u32, spec_trim, split_first_line, str_eq, parse_u32,
    trim_exec, upto, upto_exec,
};
use crate::SubIdRange;

verus! {

/// The colon-separated pieces of `s`, exactly as `str::split(':')` yields
/// them: always one more piece than there are colons, empty pieces kept.
pub open spec fn spec_colon_split(s: Seq<char>) -> Seq<Seq<char>>
    decreases s.len(),
    via spec_colon_split_decreases
{
    let n = upto(s, ':');
    if n == s.len() {
        seq![s]
    } else {
        seq![s.subrange(0, n)] + spec_colon_split(s.subrange(n + 1, s.len() as int))
    }
}

#[via_fn]
proof fn spec_colon_split_decreases(s: Seq<char>) {
    lemma_upto(s, ':');
}

/// What one line contributes for `user`: a range when the first field,
/// trimmed, equals `user` and both numeric fields parse; nothing otherwise.
pub open spec fn spec_subid_line(line: Seq<char>, user: Seq<char>) -> Option<SubIdRange> {
    let ps = spec_colon_split(line);
    if spec_trim(ps[0]) != user {
        None
    } else if ps.len() < 3 {
        None
    } else {
        match (spec_parse_u32(spec_trim(ps[1])), spec_parse_u32(spec_trim(ps[2]))) {
            (Some(start), Some(count)) => Some(SubIdRange { start, count }),
            _ => None,
        }
    }
}

/// The first line that contributes a range for `user` decides the lookup.
pub open spec fn spec_subid_lookup(lines: Seq<Seq<char>>, user: Seq<char>) -> Option<SubIdRange>
    decreases lines.len(),
{
    if lines.len() == 0 {
        None
    } else if spec_subid_line(lines[0], user) is Some {
        spec_subid_line(lines[0], user)
    } else {
        spec_subid_lookup(lines.drop_first(), user)
    }
}

/// The lookup over a whole file's content.
pub open spec fn spec_parse_subid(content: Seq<char>, user: Seq<char>) -> Option<SubIdRange> {
    spec_subid_lookup(spec_lines(content), user)
}

/// The colon-separated pieces of `s`.
fn colon_split_exec(s: &str) -> (r: Vec<String>)
    ensures
        r.deep_view() == spec_colon_split(s@),
    decreases s@.len(),
{
    proof {
        lemma_upto(s@, ':');
    }
    let len: usize = s.unicode_len();
    let n: usize = upto_exec(s, ':');
    if n == len {
        let mut v: Vec<String> = Vec::new();
        v.push(s.to_owned());
        proof {
            assert(v.deep_view() =~~= spec_colon_split(s@));
        }
        v
    } else {
        let piece: String = s.substring_char(0, n).to_owned();
        let rest = s.substring_char(n + 1, len);
        let mut v = colon_split_exec(rest);
        v.insert(0, piece);
        proof {
            assert(rest@ =~= s@.subrange(n + 1, s@.len() as int));
            assert(v.deep_view() =~~= spec_colon_split(s@));
        }
        v
    }
}

/// What one line contributes for `username`.
fn subid_line_exec(line: &str, username: &str) -> (r: Option<SubIdRange>)
    ensures
        r == spec_subid_line(line@, username@),
{
    let ps = colon_split_exec(line);
    proof {
        assert(spec_colon_split(line@).len() >= 1);
        assert(ps@.len() == spec_colon_split(line@).len());
        assert(ps@[0]@ == spec_colon_split(line@)[0]);
    }
    let first = trim_exec(ps[0].as_str());
    if !str_eq(first, username) {
        return None;
    }
    if ps.len() < 3 {
        return None;
    }
    proof {
        assert(ps@[1]@ == spec_colon_split(line@)[1]);
        assert(ps@[2]@ == spec_colon_split(line@)[2]);
    }
    let start_opt = parse_u32(trim_exec(ps[1].as_str()));
    let count_opt = parse_u32(trim_exec(ps[2].as_str()));
    match (start_opt, count_opt) {
        (Some(start), Some(count)) => Some(SubIdRange { start, count }),
        _ => None,
    }
}

/// Unfolding step for [`spec_subid_lookup`] on a cons of lines.
proof fn lemma_lookup_cons(l: Seq<char>, ls: Seq<Seq<char>>, user: Seq<char>)
    ensures
        spec_subid_lookup(seq![l] + ls, user) == if spec_subid_line(l, user) is Some {
            spec_subid_line(l, user)
        } else {
            spec_subid_lookup(ls, user)
        },
{
    let cons = seq![l] + ls;
    assert(cons[0] == l);
    assert(cons.drop_first() =~~= ls);
}

/// Find the subordinate ID range for a user in the content of
/// `/etc/subuid` or `/etc/subgid`.
///
/// Lines whose numeric fields do not parse are skipped; the first line
/// whose trimmed first field equals `username` and whose `start` and
/// `count` parse as `u32` yields the result.
pub fn parse_subid_file(content: &str, username: &str) -> (r: Option<SubIdRange>)
    ensures
        r == spec_parse_subid(content@, username@),
    decreases content@.len(),
{
    if content.unicode_len() == 0 {
        None
    } else {
        let (line, rest) = split_first_line(content);
        let here = subid_line_exec(line, username);
        proof {
            lemma_lookup_cons(line@, spec_lines(rest@), username@);
        }
        match here {
            Some(range) => Some(range),
            None => parse_subid_file(rest, username),
        }
    }
}

/// A line that contributes nothing for `user` can be removed without
/// changing the lookup: malformed or foreign lines are ignored, they do
/// not fail the file as a whole.
pub proof fn lemma_subid_ignores_unusable_line(lines: Seq<Seq<char>>, user: Seq<char>, k: int)
    requires
        0 <= k < lines.len(),
        spec_subid_line(lines[k], user) is None,
    ensures
        spec_subid_lookup(lines.remove(k), user) == spec_subid_lookup(lines, user),
    decreases lines.len(),
{
    if k == 0 {
        assert(lines.remove(0) =~~= lines.drop_first());
    } else {
        if spec_subid_line(lines[0], user) is Some {
            assert(lines.remove(k)[0] == lines[0]);
        } else {
            assert(lines.drop_first()[k - 1] == lines[k]);
            lemma_subid_ignores_unusable_line(lines.drop_first(), user, k - 1);
            assert(lines.remove(k).drop_first() =~~= lines.drop_first().remove(k - 1));
            assert(lines.remove(k)[0] == lines[0]);
        }
    }
}

/// The first line that contributes a range for `user` decides the lookup.
pub proof fn lemma_subid_first_match_wins(lines: Seq<Seq<char>>, user: Seq<char>, k: int)
    requires
        0 <= k < lines.len(),
        spec_subid_line(lines[k], user) is Some,
        forall|j: int| 0 <= j < k ==> spec_subid_line(lines[j], user) is None,
    ensures
        spec_subid_lookup(lines, user) == spec_subid_line(lines[k], user),
    decreases k,
{
    if k == 0 {
    } else {
        assert(spec_subid_line(lines[0], user) is None);
        assert(lines.drop_first()[k - 1] == lines[k]);
        assert forall|j: int| 0 <= j < k - 1 implies spec_subid_line(
            lines.drop_first()[j],
            user,
        ) is None by {
            assert(lines.drop_first()[j] == lines[j + 1]);
        }
        lemma_subid_first_match_wins(lines.drop_first(), user, k - 1);
    }
}

} // verus!
