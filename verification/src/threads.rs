//! The single-thread gate.
//!
//! Cloning a multi-threaded process without sharing its address space
//! leaves the child with locks and allocator state captured mid-change, so
//! the isolator refuses to run unless the process provably has exactly one
//! thread. The evidence is the `Threads:` line of `/proc/self/status`.

use vstd::prelude::*;

use crate::strutil::{
    spec_lines, spec_parse_u32, spec_trim, split_first_line, str_eq, parse_u32, trim_exec,
};

verus! {

/// The `Threads:` prefix of the relevant status line.
pub open spec fn threads_prefix() -> Seq<char> {
    seq!['T', 'h', 'r', 'e', 'a', 'd', 's', ':']
}

/// Whether `l` starts with [`threads_prefix`].
pub open spec fn is_threads_line(l: Seq<char>) -> bool {
    l.len() >= 8 && l.subrange(0, 8) == threads_prefix()
}

/// The verdict drawn from a sequence of status lines: the first line
/// starting with `Threads:` decides. Its remainder, trimmed, must parse as
/// a `u32`; the verdict is whether that count is one. An unparsable count
/// or the absence of any `Threads:` line leaves the verdict unknown.
pub open spec fn spec_single_threaded_lines(ls: Seq<Seq<char>>) -> Option<bool>
    decreases ls.len(),
{
    if ls.len() == 0 {
        None
    } else if is_threads_line(ls[0]) {
        match spec_parse_u32(spec_trim(ls[0].subrange(8, ls[0].len() as int))) {
            Some(count) => Some(count == 1),
            None => None,
        }
    } else {
        spec_single_threaded_lines(ls.drop_first())
    }
}

/// The verdict drawn from the content of `/proc/self/status`.
pub open spec fn spec_single_threaded(content: Seq<char>) -> Option<bool> {
    spec_single_threaded_lines(spec_lines(content))
}

/// Unfolding step for [`spec_single_threaded_lines`] on a cons of lines.
proof fn lemma_single_threaded_cons(l: Seq<char>, ls: Seq<Seq<char>>)
    ensures
        spec_single_threaded_lines(seq![l] + ls) == if is_threads_line(l) {
            match spec_parse_u32(spec_trim(l.subrange(8, l.len() as int))) {
                Some(count) => Some(count == 1),
                None => None,
            }
        } else {
            spec_single_threaded_lines(ls)
        },
{
    let cons = seq![l] + ls;
    assert(cons[0] == l);
    assert(cons.drop_first() =~~= ls);
}

/// Check whether the process described by this `/proc/self/status` content
/// is single-threaded; the verdict is unknown when the thread count cannot
/// be determined.
pub fn is_single_threaded(status: &str) -> (r: Option<bool>)
    ensures
        r == spec_single_threaded(status@),
    decreases status@.len(),
{
    if status.unicode_len() == 0 {
        None
    } else {
        let (line, rest) = split_first_line(status);
        proof {
            lemma_single_threaded_cons(line@, spec_lines(rest@));
        }
        let line_len: usize = line.unicode_len();
        if line_len >= 8 && str_eq(line.substring_char(0, 8), "Threads:") {
            proof {
                reveal_strlit("Threads:");
                assert(line@.subrange(0, 8) =~= threads_prefix());
                assert(is_threads_line(line@));
            }
            let count_str = line.substring_char(8, line_len);
            proof {
                assert(count_str@ =~= line@.subrange(8, line@.len() as int));
            }
            match parse_u32(trim_exec(count_str)) {
                Some(count) => Some(count == 1),
                None => None,
            }
        } else {
            proof {
                reveal_strlit("Threads:");
                assert("Threads:"@ =~= threads_prefix());
                assert(!is_threads_line(line@));
            }
            is_single_threaded(rest)
        }
    }
}

} // verus!
