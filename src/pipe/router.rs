use crate::protocol::locator::{has_no_slash, is_dot, is_dot_dot};
use vstd::prelude::*;

verus! {

/// The host directory that serves any host without a directory of its own.
pub const ANY_HOST: &'static str = "any";

pub open spec fn ends_with_slash(s: Seq<char>) -> bool {
    s.len() > 0 && s.last() == '/'
}

/// Holds for a locator that names a directory.
pub fn is_directory_locator(locator: String) -> (r: bool)
    ensures
        r == ends_with_slash(locator@),
{
    let n = locator.unicode_len();
    n > 0 && locator.get_char(n - 1) == '/'
}

/// `part` placed under `base`, with one separator between them.
pub open spec fn join_path(base: Seq<char>, part: Seq<char>) -> Seq<char> {
    if base.len() == 0 || base.last() == '/' {
        base + part
    } else {
        base + seq!['/'] + part
    }
}

pub fn join(base: &str, part: &str) -> (r: String)
    ensures
        r@ == join_path(base@, part@),
{
    proof {
        reveal_strlit("/");
    }
    let n = base.unicode_len();
    let mut r = String::from_str(base);
    if n > 0 && base.get_char(n - 1) != '/' {
        r.append("/");
    }
    r.append(part);
    assert(r@ =~= join_path(base@, part@));
    r
}

/// The directory of a host under the server root.
pub fn host_dir(root: &String, host: &String) -> (r: String)
    ensures
        r@ == join_path(root@, host@),
{
    join(root.as_str(), host.as_str())
}

/// A host that names one directory right under the server root: not empty,
/// not `.` or `..`, and without a slash.
pub open spec fn is_plain_host(host: Seq<char>) -> bool {
    host.len() > 0 && !is_dot(host) && !is_dot_dot(host) && has_no_slash(host)
}

/// Checks that a host names one directory right under the server root.
pub fn plain_host(host: &String) -> (r: bool)
    ensures
        r == is_plain_host(host@),
{
    proof {
        reveal_strlit(".");
        reveal_strlit("..");
    }
    let n = host.unicode_len();
    let dot = String::from_str(".");
    let dot_dot = String::from_str("..");
    assert(dot@ =~= seq!['.']);
    assert(dot_dot@ =~= seq!['.', '.']);
    if n == 0 || *host == dot || *host == dot_dot {
        return false;
    }
    let mut i: usize = 0;
    while i < n
        invariant
            n == host@.len(),
            i <= n,
            forall|k: int| 0 <= k < i ==> host@[k] != '/',
        decreases n - i,
    {
        if host.get_char(i) == '/' {
            return false;
        }
        i = i + 1;
    }
    true
}

/// The host whose directory serves a request: its own when it is a plain
/// name and its directory exists, else the fallback `any` when that exists,
/// else none.
pub open spec fn chosen_host(host: Seq<char>, host_exists: bool, any_exists: bool) -> Option<Seq<char>> {
    if host_exists && is_plain_host(host) {
        Some(host)
    } else if any_exists {
        Some(ANY_HOST@)
    } else {
        None
    }
}

pub fn select_host(host: String, host_exists: bool, any_exists: bool) -> (r: Option<String>)
    ensures
        r matches Some(h) ==> chosen_host(host@, host_exists, any_exists) == Some(h@),
        r is None ==> chosen_host(host@, host_exists, any_exists) is None,
{
    if host_exists && plain_host(&host) {
        Some(host)
    } else if any_exists {
        Some(String::from_str(ANY_HOST))
    } else {
        None
    }
}

} // verus!
