//! Paths of the repository, as the integration tests find them.
use vstd::prelude::*;

verus! {

/// What `path_clean::clean` makes of a path.
pub uninterp spec fn cleaned_path(path: Seq<char>) -> Seq<char>;

/// A `.` segment of `p` starts at `j`.
pub open spec fn dot_segment_at(p: Seq<char>, j: int) -> bool {
    0 <= j < p.len() && p[j] == '.' && (j + 1 == p.len() || p[j + 1] == '/')
}

/// A `..` segment of `p` starts at `j`.
pub open spec fn dot_dot_segment_at(p: Seq<char>, j: int) -> bool {
    0 <= j && j + 1 < p.len() && p[j] == '.' && p[j + 1] == '.' && (j + 2 == p.len() || p[j + 2] == '/')
}

/// A clean absolute path: it starts at the root; unless it is the root
/// itself, every `/` is followed by a segment that is neither empty (so no
/// repeated and no trailing slash), nor `.`, nor `..`.
pub open spec fn is_clean_absolute(p: Seq<char>) -> bool {
    &&& is_absolute(p)
    &&& p.len() > 1 ==> forall|i: int| 0 <= i < p.len() && #[trigger] p[i] == '/' ==> i + 1 < p.len() && p[i + 1] != '/'
    &&& forall|i: int|
        0 <= i < p.len() && #[trigger] p[i] == '/' ==> !dot_segment_at(p, i + 1) && !dot_dot_segment_at(p, i + 1)
}

/// Calls `path_clean::clean`, which shortens a path lexically: repeated
/// slashes become one, `.` segments go, a `..` segment takes the segment
/// before it away (and is dropped at the start of a rooted path), and
/// trailing slashes go. Its result is named `cleaned_path`; the crate's
/// documentation and source show that it is never empty (an empty result
/// becomes `.`) and that a rooted path gives a clean absolute path: the root
/// followed by segments, none of them empty, `.` or `..`. Nothing else of the
/// result is stated here.
#[verifier::external_body]
fn clean(path: &str) -> (r: String)
    ensures
        r@ == cleaned_path(path@),
        r@.len() > 0,
        is_absolute(path@) ==> is_clean_absolute(r@),
{
    path_clean::clean(path)
}

/// A path that starts at the root.
pub open spec fn is_absolute(p: Seq<char>) -> bool {
    p.len() > 0 && p[0] == '/'
}

/// `base` joined with `p` as a path: `p` itself when it is absolute, else
/// `p` after `base`, with a `/` between them unless `base` is empty or ends
/// with one.
pub open spec fn join(base: Seq<char>, p: Seq<char>) -> Seq<char> {
    if is_absolute(p) {
        p
    } else if base.len() == 0 || base.last() == '/' {
        base + p
    } else {
        base + seq!['/'] + p
    }
}

pub fn join_path(base: &str, p: &str) -> (r: String)
    ensures
        r@ == join(base@, p@),
{
    let n = base.unicode_len();
    if p.unicode_len() > 0 && p.get_char(0) == '/' {
        p.to_owned()
    } else if n == 0 || base.get_char(n - 1) == '/' {
        let mut r = base.to_owned();
        r.append(p);
        r
    } else {
        proof {
            reveal_strlit("/");
        }
        let mut r = base.to_owned();
        r.append("/");
        r.append(p);
        r
    }
}

/// `path` made absolute against the current directory, then cleaned.
pub open spec fn spec_absolute_path(path: Seq<char>, current_dir: Seq<char>) -> Seq<char> {
    cleaned_path(join(current_dir, path))
}

/// `path` made absolute against `current_dir`, the process's current
/// directory, then cleaned.
pub fn absolute_path(path: &str, current_dir: &str) -> (r: String)
    ensures
        r@ == spec_absolute_path(path@, current_dir@),
        is_absolute(path@) || is_absolute(current_dir@) ==> is_clean_absolute(r@),
{
    let joined = join_path(current_dir, path);
    clean(joined.as_str())
}

/// The path of this helper's source file, relative to the repository's root,
/// as the compiler names it.
pub const SOURCE_FILE: &'static str = "test_utils/src/path.rs";

/// Four levels up from the source file.
pub const UP_FROM_SOURCE: &'static str = "/../../../..";

pub open spec fn spec_root_path(current_dir: Seq<char>) -> Seq<char> {
    spec_absolute_path(SOURCE_FILE@ + UP_FROM_SOURCE@, current_dir)
}

/// The root of the repository, from the current directory of the tests.
pub fn root_path(current_dir: &str) -> (r: String)
    ensures
        r@ == spec_root_path(current_dir@),
        is_absolute(current_dir@) ==> is_clean_absolute(r@),
{
    let mut rel = SOURCE_FILE.to_owned();
    rel.append(UP_FROM_SOURCE);
    absolute_path(rel.as_str(), current_dir)
}

pub const RUN_SCRIPT: &'static str = "run.sh";

pub const TESTS_LOCK: &'static str = "server/tests/.tests.lock";

/// The script that runs the programs of the repository.
pub fn executable_path(current_dir: &str) -> (r: String)
    ensures
        r@ == join(spec_root_path(current_dir@), RUN_SCRIPT@),
{
    let root = root_path(current_dir);
    join_path(root.as_str(), RUN_SCRIPT)
}

/// The lock file that keeps test runs from overlapping.
pub fn tests_lock_path(current_dir: &str) -> (r: String)
    ensures
        r@ == join(spec_root_path(current_dir@), TESTS_LOCK@),
{
    let root = root_path(current_dir);
    join_path(root.as_str(), TESTS_LOCK)
}

} // verus!
