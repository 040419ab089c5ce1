use vstd::prelude::*;
use vstd::string::*;

use crate::text::push_str;

pub mod extract;
pub mod monitor;
pub mod validate;

verus! {

/// Where the client writes its log, under the user's profile directory.
pub const OUTPUT_LOG_RELATIVE_PATH: &'static str = "AppData/LocalLow/miHoYo/Genshin Impact/output_log.txt";

/// The folder, under the game's data directory, that holds one subdirectory
/// per session.
pub const WEB_CACHES_DIR_NAME: &'static str = "webCaches";

/// The cache data file inside a session directory.
pub const CACHE_DATA_RELATIVE_PATH: &'static str = "Cache/Cache_Data/data_2";

pub open spec fn is_separator(c: char) -> bool {
    c == '/' || c == '\\'
}

/// `rel` appended to `base`, with one separator between them.
pub open spec fn path_join(base: Seq<char>, rel: Seq<char>) -> Seq<char> {
    if base.len() == 0 {
        rel
    } else if is_separator(base.last()) {
        base + rel
    } else {
        base + "/"@ + rel
    }
}

pub open spec fn unify_separator(c: char) -> char {
    if c == '\\' {
        '/'
    } else {
        c
    }
}

/// Two paths name the same place when they agree once both separators are
/// written alike.
pub open spec fn same_path(a: Seq<char>, b: Seq<char>) -> bool {
    a.map_values(|c: char| unify_separator(c)) == b.map_values(|c: char| unify_separator(c))
}

/// Appends `rel` to `base` as a path.
pub fn join_path(base: &str, rel: &str) -> (r: String)
    ensures
        r@ == path_join(base@, rel@),
{
    let n = base.unicode_len();
    let mut s = base.to_owned();
    if n == 0 {
        let r = rel.to_owned();
        return r;
    }
    let last = base.get_char(n - 1);
    if !(last == '/' || last == '\\') {
        push_str(&mut s, "/");
    }
    push_str(&mut s, rel);
    proof {
        assert(base@.last() == last);
    }
    s
}

/// Whether two paths name the same place, `/` and `\` counting as one
/// separator.
pub fn paths_match(a: &str, b: &str) -> (r: bool)
    ensures
        r == same_path(a@, b@),
{
    let n = a.unicode_len();
    let m = b.unicode_len();
    if n != m {
        proof {
            assert(a@.map_values(|c: char| unify_separator(c)).len() != b@.map_values(
                |c: char| unify_separator(c),
            ).len());
        }
        return false;
    }
    let mut i: usize = 0;
    while i < n
        invariant
            n == a@.len(),
            m == b@.len(),
            n == m,
            i <= n,
            forall|k: int| 0 <= k < i ==> unify_separator(#[trigger] a@[k]) == unify_separator(b@[k]),
        decreases n - i,
    {
        let x = a.get_char(i);
        let y = b.get_char(i);
        let ux = if x == '\\' { '/' } else { x };
        let uy = if y == '\\' { '/' } else { y };
        if ux != uy {
            proof {
                assert(a@.map_values(|c: char| unify_separator(c))[i as int] != b@.map_values(
                    |c: char| unify_separator(c),
                )[i as int]);
            }
            return false;
        }
        i += 1;
    }
    proof {
        assert(a@.map_values(|c: char| unify_separator(c)) =~= b@.map_values(
            |c: char| unify_separator(c),
        ));
    }
    true
}

/// The client's log file, from the user's profile directory.
pub fn output_log_path(user_profile: &str) -> (r: String)
    ensures
        r@ == path_join(user_profile@, OUTPUT_LOG_RELATIVE_PATH@),
{
    join_path(user_profile, OUTPUT_LOG_RELATIVE_PATH)
}

/// The folder of session directories, from the game's data directory.
pub fn web_caches_dir(data_dir: &str) -> (r: String)
    ensures
        r@ == path_join(data_dir@, WEB_CACHES_DIR_NAME@),
{
    join_path(data_dir, WEB_CACHES_DIR_NAME)
}

/// The cache data file of a session directory.
pub fn cache_file_path(session_dir: &str) -> (r: String)
    ensures
        r@ == path_join(session_dir@, CACHE_DATA_RELATIVE_PATH@),
{
    join_path(session_dir, CACHE_DATA_RELATIVE_PATH)
}

} // verus!
