use vstd::prelude::*;
use vstd::string::*;

use crate::envelope::ExecError;

verus! {

/// `p` names something at or under the directory `base`: `base` is a prefix
/// of `p`, and what follows it, if anything, starts at a path separator.
pub open spec fn path_within(p: Seq<char>, base: Seq<char>) -> bool {
    &&& p.len() >= base.len()
    &&& p.subrange(0, base.len() as int) == base
    &&& (p.len() == base.len() || p[base.len() as int] == '/')
}

/// Tests `path_within` on path text.
pub fn check_path_within(p: &str, base: &str) -> (r: bool)
    ensures
        r == path_within(p@, base@),
{
    let n = base.unicode_len();
    let m = p.unicode_len();
    if m < n {
        return false;
    }
    let mut i: usize = 0;
    while i < n
        invariant
            n == base@.len(),
            m == p@.len(),
            n <= m,
            i <= n,
            forall|j: int| 0 <= j < i ==> p@[j] == base@[j],
        decreases n - i,
    {
        if p.get_char(i) != base.get_char(i) {
            proof {
                assert(p@.subrange(0, n as int) != base@);
            }
            return false;
        }
        i += 1;
    }
    proof {
        assert(p@.subrange(0, n as int) =~= base@);
    }
    if m == n {
        true
    } else {
        p.get_char(n) == '/'
    }
}

/// Relies on safe_path::scoped_join: joins untrusted path text to a base
/// directory, resolving `..` and symlinks with the base treated as the root
/// of the filesystem. The error text is the underlying error's own; a result
/// that is not valid Unicode is reported as an empty error text.
#[verifier::external_body]
fn scoped_join_raw(base: &str, untrusted: &str) -> (r: Result<String, String>)
{
    match safe_path::scoped_join(base, untrusted) {
        Ok(p) => p.into_os_string().into_string().map_err(|_| String::new()),
        Err(e) => Err(e.to_string()),
    }
}

/// Sorts what the scoped join handed back: a joined path inside `base` is the
/// staging destination, one outside it is a path escape carrying that path,
/// and a join failure is an I/O error carrying its message.
pub fn classify_joined(base: &str, joined: Result<String, String>) -> (r: Result<
    String,
    ExecError,
>)
    ensures
        joined matches Ok(p) ==> r == (if path_within(p@, base@) {
            Ok::<String, ExecError>(p)
        } else {
            Err::<String, ExecError>(ExecError::PathEscape(p))
        }),
        joined matches Err(m) ==> r == Err::<String, ExecError>(ExecError::IoError(m)),
{
    match joined {
        Ok(p) => {
            if check_path_within(p.as_str(), base) {
                Ok(p)
            } else {
                Err(ExecError::PathEscape(p))
            }
        },
        Err(m) => Err(ExecError::IoError(m)),
    }
}

/// Resolves an uploaded file's name to the place it is persisted at: a path
/// checked to lie inside the per-request directory `base`, however many `..`
/// or symlinked components the name tries. A path escape carries the joined
/// path that failed the containment check.
pub fn stage_destination(base: &str, name: &str) -> (r: Result<String, ExecError>)
    ensures
        r matches Ok(p) ==> path_within(p@, base@),
        r matches Err(ExecError::PathEscape(p)) ==> !path_within(p@, base@),
        r matches Err(e) ==> (e is PathEscape || e is IoError),
{
    let joined = scoped_join_raw(base, name);
    classify_joined(base, joined)
}

/// Joins a file name onto a directory with a single separator.
pub fn path_join(dir: &str, name: &str) -> (r: String)
    ensures
        r@ == dir@ + "/"@ + name@,
{
    let mut s = String::from_str(dir);
    s.append("/");
    s.append(name);
    s
}

/// The bind-mount argument `<host_dir>:<mountpoint>` handed to the engine.
pub fn bind_mount(host_dir: &str, mountpoint: &str) -> (r: String)
    ensures
        r@ == host_dir@ + ":"@ + mountpoint@,
{
    let mut s = String::from_str(host_dir);
    s.append(":");
    s.append(mountpoint);
    s
}

} // verus!
