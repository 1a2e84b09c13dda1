//! The names of the per-process log files.
//!
//! Each log file is named after a path from the environment, or a default,
//! with the process id put before the last dot of the path, or at its end
//! when the path has no dot.

use vstd::prelude::*;
use vstd::string::{StrSliceExecFns, StringExecFns};

verus! {

/// The index of the last `.` in `s`.
pub open spec fn last_dot(s: Seq<char>) -> Option<int>
    decreases s.len(),
{
    if s.len() == 0 {
        None
    } else if s.last() == '.' {
        Some(s.len() - 1)
    } else {
        last_dot(s.drop_last())
    }
}

/// `path` with `_` and `id` put before its last dot, or at its end when it
/// has no dot.
pub open spec fn idified(path: Seq<char>, id: Seq<char>) -> Seq<char> {
    match last_dot(path) {
        Some(i) => path.subrange(0, i) + seq!['_'] + id + seq!['.'] + path.subrange(
            i + 1,
            path.len() as int,
        ),
        None => path + seq!['_'] + id,
    }
}

/// The path that `configured` stands for: itself, or `default` when no
/// path was configured.
pub open spec fn path_or(configured: Option<&str>, default: &str) -> Seq<char> {
    match configured {
        Some(path) => path@,
        None => default@,
    }
}

/// What `last_dot` reports is the position of a dot after which no dot
/// follows, and it reports nothing only for a text without a dot.
pub proof fn lemma_last_dot(s: Seq<char>)
    ensures
        match last_dot(s) {
            Some(i) => 0 <= i < s.len() && s[i] == '.' && forall|j: int|
                i < j < s.len() ==> s[j] != '.',
            None => forall|j: int| 0 <= j < s.len() ==> s[j] != '.',
        },
    decreases s.len(),
{
    if s.len() > 0 && s.last() != '.' {
        let front = s.drop_last();
        lemma_last_dot(front);
        assert forall|j: int| 0 <= j < front.len() implies front[j] == s[j] by {}
        match last_dot(front) {
            Some(i) => {
                assert forall|j: int| i < j < s.len() implies s[j] != '.' by {
                    if j < front.len() {
                        assert(front[j] != '.');
                    }
                }
            },
            None => {
                assert forall|j: int| 0 <= j < s.len() implies s[j] != '.' by {
                    if j < front.len() {
                        assert(front[j] != '.');
                    }
                }
            },
        }
    }
}

/// Dots are looked for from the end: a tail without a dot does not change
/// the answer.
proof fn lemma_last_dot_skips(s: Seq<char>, i: int)
    requires
        0 <= i <= s.len(),
        forall|j: int| i <= j < s.len() ==> s[j] != '.',
    ensures
        last_dot(s) == last_dot(s.subrange(0, i)),
    decreases s.len() - i,
{
    if i < s.len() {
        lemma_last_dot_skips(s.drop_last(), i);
        assert(s.drop_last().subrange(0, i) =~= s.subrange(0, i));
    } else {
        assert(s.subrange(0, i) =~= s);
    }
}

/// Puts `id` into `path`: before the last dot of `path`, or at its end
/// when `path` has no dot, after an underscore in either case.
pub fn idify_file_path(path: &str, id: &str) -> (r: String)
    ensures
        r@ == idified(path@, id@),
{
    let n: usize = path.unicode_len();
    let mut i: usize = n;
    while i > 0 && path.get_char(i - 1) != '.'
        invariant
            i <= n,
            n == path@.len(),
            forall|j: int| i <= j < n ==> path@[j] != '.',
        decreases i,
    {
        i = i - 1;
    }
    proof {
        lemma_last_dot_skips(path@, i as int);
        reveal_strlit("_");
        reveal_strlit(".");
    }
    if i > 0 {
        assert(path@.subrange(0, i as int).last() == '.');
        let mut out = String::from_str(path.substring_char(0, i - 1));
        out.append("_");
        out.append(id);
        out.append(".");
        out.append(path.substring_char(i, n));
        assert(out@ =~= idified(path@, id@));
        out
    } else {
        assert(path@.subrange(0, 0).len() == 0);
        let mut out = String::from_str(path);
        out.append("_");
        out.append(id);
        assert(out@ =~= idified(path@, id@));
        out
    }
}

/// The path of the log of resolved symbols of the process `id`.
pub fn dlsym_log_path(configured: Option<&str>, id: &str) -> (r: String)
    ensures
        r@ == idified(path_or(configured, "resolve_dlsym.json"), id@),
{
    match configured {
        Some(path) => idify_file_path(path, id),
        None => idify_file_path("resolve_dlsym.json", id),
    }
}

/// The path of the runtime trace of the process `id`.
pub fn runtime_log_path(configured: Option<&str>, id: &str) -> (r: String)
    ensures
        r@ == idified(path_or(configured, "resolve_log.out"), id@),
{
    match configured {
        Some(path) => idify_file_path(path, id),
        None => idify_file_path("resolve_log.out", id),
    }
}

/// The path of the runtime error log of the process `id`.
pub fn runtime_err_path(configured: Option<&str>, id: &str) -> (r: String)
    ensures
        r@ == idified(path_or(configured, "resolve_err_log.out"), id@),
{
    match configured {
        Some(path) => idify_file_path(path, id),
        None => idify_file_path("resolve_err_log.out", id),
    }
}

} // verus!
