//! File-system locations of the download back-end and of its settings,
//! kept as strings; joining is done by `std::path`.

use vstd::prelude::*;
use crate::text::strip_prefix;

verus! {

/// The Windows extended-length prefix `\\?\`.
pub open spec fn verbatim_prefix() -> Seq<char> {
    seq!['\\', '\\', '?', '\\']
}

/// A single path component: non-empty, neither `.` nor `..`, with no
/// separator or drive colon.
pub open spec fn is_plain_name(seg: Seq<char>) -> bool {
    &&& seg.len() > 0
    &&& seg != seq!['.']
    &&& seg != seq!['.', '.']
    &&& forall|i: int|
        0 <= i < seg.len() ==> #[trigger] seg[i] != '/' && seg[i] != '\\' && seg[i] != ':'
}

/// What holds of `base` joined with the plain name `seg` on every platform:
/// the result ends with `seg`; unless `base` is a Windows extended-length
/// path (which `std` rebuilds from its components), it is `base`, then the
/// platform's separator when one is needed, then `seg`. No separator
/// follows an empty base or a trailing `/`; after a trailing `\` Windows
/// adds none and other platforms add `/`; after a trailing `:` (a Windows
/// drive such as `C:`) either may happen; after any other character one
/// separator, `/` or `\`, is always added.
pub open spec fn joined_under(r: Seq<char>, base: Seq<char>, seg: Seq<char>) -> bool {
    &&& seg.is_suffix_of(r)
    &&& !verbatim_prefix().is_prefix_of(base) ==> {
        ||| base.len() == 0 && r == seg
        ||| base.len() > 0 && base.last() == '/' && r == base + seg
        ||| base.len() > 0 && base.last() == '\\' && (r == base + seg || r == base + seq!['/']
            + seg)
        ||| base.len() > 0 && base.last() == ':' && (r == base + seg || r == base + seq!['/']
            + seg || r == base + seq!['\\'] + seg)
        ||| base.len() > 0 && base.last() != '/' && base.last() != '\\' && base.last() != ':'
            && (r == base + seq!['/'] + seg || r == base + seq!['\\'] + seg)
    }
}

/// `base` joined with the plain name `seg` by `Path::join`, as a string.
/// Claimed: `joined_under`, which is what holds on every platform (the
/// separator, and whether one is added, depend on the platform).
#[verifier::external_body]
pub(crate) fn path_join(base: &str, seg: &str) -> (r: String)
    requires
        is_plain_name(seg@),
    ensures
        joined_under(r@, base@, seg@),
{
    std::path::Path::new(base).join(seg).to_string_lossy().into_owned()
}

/// The settings file of the download back-end: `<data_dir>/sonovel/settings.json`.
pub fn settings_path(data_dir: &str) -> (r: String)
    ensures
        exists|dir: Seq<char>|
            joined_under(dir, data_dir@, "sonovel"@) && #[trigger] joined_under(
                r@,
                dir,
                "settings.json"@,
            ),
{
    proof {
        reveal_strlit("sonovel");
        reveal_strlit("settings.json");
    }
    assert("settings.json"@.len() != seq!['.'].len());
    assert("settings.json"@.len() != seq!['.', '.'].len());
    let dir = path_join(data_dir, "sonovel");
    let r = path_join(dir.as_str(), "settings.json");
    assert(joined_under(r@, dir@, "settings.json"@));
    r
}

/// The default book shelf: `<data_dir>/books`.
pub fn default_bookshelf(data_dir: &str) -> (r: String)
    ensures
        joined_under(r@, data_dir@, "books"@),
{
    proof {
        reveal_strlit("books");
    }
    path_join(data_dir, "books")
}

/// `p` without a leading Windows extended-length prefix `\\?\`, which the
/// Java launcher cannot parse.
pub fn strip_verbatim(p: &str) -> (r: String)
    ensures
        verbatim_prefix().is_prefix_of(p@) ==> r@ == p@.skip(4),
        !verbatim_prefix().is_prefix_of(p@) ==> r@ == p@,
{
    proof {
        reveal_strlit("\\\\?\\");
    }
    assert("\\\\?\\"@ =~= verbatim_prefix());
    match strip_prefix(p, "\\\\?\\") {
        Some(rest) => rest,
        None => String::from_str(p),
    }
}

/// Law: stripping the prefix from `\\?\` followed by a path gives the path.
pub proof fn strip_verbatim_inverts_prefix(p: Seq<char>)
    ensures
        verbatim_prefix().is_prefix_of(verbatim_prefix() + p),
        (verbatim_prefix() + p).skip(4) == p,
{
    assert((verbatim_prefix() + p).subrange(0, 4) =~= verbatim_prefix());
    assert((verbatim_prefix() + p).skip(4) =~= p);
}

/// The resource directory the back-end is started from: the installed one
/// when it holds the back-end's jar, else the one beside the sources.
pub fn choose_resource_dir(installed: Option<String>, installed_has_jar: bool, fallback: String) -> (r: String)
    ensures
        installed_has_jar ==> (installed matches Some(dir) ==> r == dir),
        !(installed is Some && installed_has_jar) ==> r == fallback,
{
    match installed {
        Some(dir) => if installed_has_jar {
            dir
        } else {
            fallback
        },
        None => fallback,
    }
}

} // verus!
