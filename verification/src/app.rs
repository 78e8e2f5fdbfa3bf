//! What the application says of itself.

use vstd::prelude::*;
use vstd::string::StringExecFns;
use crate::text::same_text;

verus! {

/// The identifier of the application.
pub const APP_ID: &'static str = "studio.planetpeanut.Bobby";

/// A text without the white space around it.
pub uninterp spec fn trim_of(s: Seq<char>) -> Seq<char>;

/// `str::trim`: the text without leading and trailing white space, which
/// depends on the text alone.
#[verifier::external_body]
fn trimmed(s: &str) -> (r: &str)
    ensures
        r@ == trim_of(s@),
{
    s.trim()
}

/// `rusqlite::version`: the version of the SQLite library in use. It
/// depends on the library that the program runs with, so nothing is claimed
/// of it. The call panics only where SQLite names its version in bytes that
/// are no text.
#[verifier::external_body]
fn sqlite_version() -> (r: &'static str)
{
    rusqlite::version()
}

/// The line that names the application and its version.
pub open spec fn version_line(name: Seq<char>, version: Seq<char>, flatpak: bool) -> Seq<char> {
    name + " "@ + version + (if flatpak {
        " (Flatpak)"@
    } else {
        Seq::empty()
    })
}

/// The line that names the application and its version, and says so where
/// it runs as a Flatpak.
pub fn app_version(name: &str, version: &str, flatpak: bool) -> (r: String)
    ensures
        r@ == version_line(name@, version@, flatpak),
{
    let mut out = name.to_owned();
    out.append(" ");
    out.append(version);
    if flatpak {
        out.append(" (Flatpak)");
    } else {
        assert(out@ =~= version_line(name@, version@, flatpak));
    }
    out
}

/// The line that names a version of SQLite.
pub fn deps_line(version: &str) -> (r: String)
    ensures
        r@ == "SQLite "@ + version@,
{
    let mut out = "SQLite ".to_owned();
    out.append(version);
    out
}

/// The line that names the SQLite library in use.
pub fn app_deps() -> (r: String)
    ensures
        exists|version: Seq<char>| r@ == "SQLite "@ + version,
{
    deps_line(sqlite_version())
}

/// Whether the application runs as root, going by what `id -u` printed;
/// `None` stands for a check that could not be made, and then the answer
/// is yes.
pub fn app_runs_as_root(uid: Option<&str>) -> (b: bool)
    ensures
        b == match uid {
            Some(s) => trim_of(s@) == "0"@,
            None => true,
        },
{
    match uid {
        Some(s) => same_text(trimmed(s), "0"),
        None => true,
    }
}

} // verus!
