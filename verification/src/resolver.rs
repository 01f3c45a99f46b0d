//! The Path Resolver: turns one search-result entry into the absolute path of
//! the repository it names.
//!
//! An entry reported by the search utility ends in the metadata-folder marker
//! `/.git/`. The resolver removes that trailing marker, if present, and joins
//! the remainder under the fixed base directory: the user's home directory
//! plus the constant `projects` component.

use vstd::prelude::*;
use vstd::string::*;

verus! {

/// The trailing marker that identifies a reported repository path: the
/// version-control metadata folder together with its separators.
pub open spec fn marker_seq() -> Seq<char> {
    seq!['/', '.', 'g', 'i', 't', '/']
}

/// Holds when `s` ends in the metadata-folder marker.
pub open spec fn ends_with_marker(s: Seq<char>) -> bool {
    s.len() >= 6 && s.subrange(s.len() - 6, s.len() as int) == marker_seq()
}

/// The entry with one trailing metadata-folder marker removed when it ends in
/// one, and otherwise the entry unchanged.
pub open spec fn strip_marker_spec(s: Seq<char>) -> Seq<char> {
    if ends_with_marker(s) {
        s.take(s.len() - 6)
    } else {
        s
    }
}

/// The fixed base directory: the home directory with the constant `projects`
/// component appended.
pub open spec fn projects_dir(home: Seq<char>) -> Seq<char> {
    home + seq!['/', 'p', 'r', 'o', 'j', 'e', 'c', 't', 's']
}

/// Joining one path component onto a base directory with a separator.
pub open spec fn join_path(base: Seq<char>, tail: Seq<char>) -> Seq<char> {
    base + seq!['/'] + tail
}

/// What the resolver returns: the entry with the marker stripped, joined
/// under the base directory derived from `home`.
pub open spec fn resolved_path_spec(home: Seq<char>, folder: Seq<char>) -> Seq<char> {
    join_path(projects_dir(home), strip_marker_spec(folder))
}

/// For every entry that ends in the metadata-folder marker, the resolved path
/// equals the base directory joined with the entry after removing exactly
/// that trailing marker.
pub proof fn lemma_resolver_strips_trailing_marker(home: Seq<char>, folder: Seq<char>)
    requires
        ends_with_marker(folder),
    ensures
        resolved_path_spec(home, folder) == join_path(
            projects_dir(home),
            folder.take(folder.len() - 6),
        ),
{
}

/// For every entry that does not end in the marker, the resolver passes the
/// entry through unchanged before joining it under the base directory.
pub proof fn lemma_resolver_keeps_unmarked_entry(home: Seq<char>, folder: Seq<char>)
    requires
        !ends_with_marker(folder),
    ensures
        resolved_path_spec(home, folder) == join_path(projects_dir(home), folder),
{
}

/// Whether `s` ends in the literal metadata-folder marker.
fn ends_with_git_marker(s: &str) -> (b: bool)
    ensures
        b == ends_with_marker(s@),
{
    let n = s.unicode_len();
    if n < 6 {
        return false;
    }
    let b = s.get_char(n - 6) == '/' && s.get_char(n - 5) == '.' && s.get_char(n - 4) == 'g'
        && s.get_char(n - 3) == 'i' && s.get_char(n - 2) == 't' && s.get_char(n - 1) == '/';
    proof {
        let tail = s@.subrange(n - 6, n as int);
        assert(tail[0] == s@[n - 6]);
        assert(tail[1] == s@[n - 5]);
        assert(tail[2] == s@[n - 4]);
        assert(tail[3] == s@[n - 3]);
        assert(tail[4] == s@[n - 2]);
        assert(tail[5] == s@[n - 1]);
        if b {
            assert(tail =~= marker_seq());
        }
        if ends_with_marker(s@) {
            assert(tail == marker_seq());
            assert(tail[0] == '/');
            assert(tail[1] == '.');
            assert(tail[2] == 'g');
            assert(tail[3] == 'i');
            assert(tail[4] == 't');
            assert(tail[5] == '/');
        }
    }
    b
}

/// The search entry with one trailing metadata-folder marker removed.
pub fn strip_marker(folder: &str) -> (r: &str)
    ensures
        r@ == strip_marker_spec(folder@),
{
    if ends_with_git_marker(folder) {
        let n = folder.unicode_len();
        let stem = folder.substring_char(0, n - 6);
        proof {
            assert(stem@ =~= folder@.take(folder@.len() - 6));
        }
        stem
    } else {
        folder
    }
}

/// The Path Resolver: strips the metadata-folder marker from `folder` and
/// joins the remainder under `home` plus the constant `projects` component.
pub fn get_final_path(home: &str, folder: &str) -> (r: String)
    ensures
        r@ == resolved_path_spec(home@, folder@),
{
    let mut r = String::from_str(home);
    r.append("/projects/");
    let stem = strip_marker(folder);
    r.append(stem);
    proof {
        reveal_strlit("/projects/");
        assert(("/projects/")@ =~= seq!['/', 'p', 'r', 'o', 'j', 'e', 'c', 't', 's', '/']);
        assert(r@ =~= resolved_path_spec(home@, folder@));
    }
    r
}

/// Relies on `dirs::home_dir`: the home directory as the host environment
/// reports it, converted to a string, or `None` when no home directory can be
/// determined. Nothing is assumed about which directory comes back.
#[verifier::external_body]
pub(crate) fn home_dir_string() -> Option<String> {
    dirs::home_dir().map(|p| p.to_string_lossy().into_owned())
}

/// Resolves a search entry against the home directory that the host
/// environment reports. Returns `None` exactly when that directory cannot be
/// determined; the run cannot continue past that point.
pub fn get_home_path_and_projects_without_dot_git_string(folder: &str) -> (r: Option<String>)
    ensures
        r matches Some(p) ==> exists|h: Seq<char>| p@ == resolved_path_spec(h, folder@),
{
    match home_dir_string() {
        Some(home) => {
            let p = get_final_path(home.as_str(), folder);
            proof {
                assert(p@ == resolved_path_spec(home@, folder@));
            }
            Some(p)
        },
        None => None,
    }
}

} // verus!

