//! Where the launcher keeps what it has fetched: the cache home of the user, as the XDG
//! base directory rules give it, in a directory of its own for every pinned version.
//! The launcher always uses this directory and never the one beside its executable, so
//! that a binary cached by one run is found by the next.

use vstd::prelude::*;
use vstd::string::*;
use crate::error::{Error, ErrorView};

verus! {

#[verifier::external_type_specification]
#[verifier::external_body]
pub struct ExBaseDirectories(xdg::BaseDirectories);

/// The directory of an application and a profile that a set of base directories was
/// made for, relative to each of the homes: the text of the path that
/// `xdg::BaseDirectories` keeps as the prefix of the user.
pub uninterp spec fn profile_directory(dirs: xdg::BaseDirectories) -> Seq<char>;

/// Whether a path names something below the directory it is joined to: it is not empty
/// and does not begin at the root.
pub open spec fn relative(path: Seq<char>) -> bool {
    path.len() > 0 && path[0] != '/'
}

/// Calls `xdg::BaseDirectories::with_profile`, which reads the home directory and the
/// `XDG_*` variables of the environment and fails where no home directory is known.
/// Whether it succeeds, and which homes it finds, is up to the environment. What it
/// keeps as the directory of the profile is the profile joined to the prefix: for a
/// relative profile and a relative prefix that does not end in `/`, the text of the
/// prefix, a `/` and the text of the profile.
#[verifier::external_body]
fn base_directories(prefix: &str, profile: &str) -> (dirs: Option<xdg::BaseDirectories>)
    ensures
        dirs matches Some(d) ==> (relative(prefix@) && prefix@.last() != '/' && relative(profile@)
            ==> profile_directory(d) == prefix@ + "/"@ + profile@),
{
    xdg::BaseDirectories::with_profile(prefix, profile).ok()
}

/// Calls `xdg::BaseDirectories::get_cache_home`, which joins the directory of the
/// profile to the cache home, and hands the path back as text; `None` where the path is
/// not valid Unicode. The cache home is never empty, so the path of a relative
/// directory ends in a `/` and that directory.
#[verifier::external_body]
fn cache_home(dirs: &xdg::BaseDirectories) -> (home: Option<String>)
    ensures
        home matches Some(h) ==> (relative(profile_directory(*dirs)) ==> ("/"@
            + profile_directory(*dirs)).is_suffix_of(h@)),
{
    dirs.get_cache_home().into_os_string().into_string().ok()
}

/// The cache directory, given what the lookup of the cache home brought: the path that
/// was found, or the failure to resolve one.
pub fn base_from_lookup(found: Option<String>) -> (base: Result<String, Error>)
    ensures
        match found {
            Some(home) => base matches Ok(path) && path@ == home@,
            None => base matches Err(e) && e@ == ErrorView::UnresolvableBasePath,
        },
{
    match found {
        Some(home) => Ok(home),
        None => Err(Error::UnresolvableBasePath),
    }
}

/// The cache directory for the pinned `version`: the directory
/// `editorconfig-checker/<version>` below the cache home of the user. Where the cache
/// home lies depends on the environment; the path that comes back for a relative
/// version ends in `/editorconfig-checker/<version>`. The run fails with
/// `UnresolvableBasePath`, and with nothing else, where there is no cache home.
pub fn resolve_base(version: &str) -> (base: Result<String, Error>)
    ensures
        base matches Ok(found) ==> (relative(version@) ==> ("/editorconfig-checker/"@
            + version@).is_suffix_of(found@)),
        base matches Err(e) ==> e@ == ErrorView::UnresolvableBasePath,
{
    proof {
        reveal_strlit("editorconfig-checker");
        reveal_strlit("/");
        reveal_strlit("/editorconfig-checker/");
    }
    match base_directories("editorconfig-checker", version) {
        Some(dirs) => {
            assert("/"@ + ("editorconfig-checker"@ + "/"@ + version@)
                =~= "/editorconfig-checker/"@ + version@);
            base_from_lookup(cache_home(&dirs))
        },
        None => base_from_lookup(None),
    }
}

} // verus!
