//! A self-updating launcher for the editorconfig-checker binary: it identifies the host
//! platform, names the matching release artifact, decides what has to be fetched into
//! the local cache and hands the command line over to the cached binary.
//!
//! The functions of this file work on plain strings; the modules hold the typed form of
//! the same steps.

use vstd::prelude::*;
use vstd::string::*;
use vstd::std_specs::iter::IteratorSpec;
use crate::error::{Error, ErrorView};
use crate::text::{lowercase, to_lowercase};

pub mod architecture;
pub mod cache;
pub mod checker;
pub mod delegate;
pub mod error;
pub mod ostype;
pub mod pipeline;
pub mod text;

verus! {

/// The views of a sequence of strings.
pub open spec fn texts(items: Seq<String>) -> Seq<Seq<char>> {
    Seq::new(items.len(), |i: int| items[i]@)
}

/// The parts of `parts`, in order, with one space between neighbours.
pub open spec fn spaced(parts: Seq<Seq<char>>) -> Seq<char>
    decreases parts.len(),
{
    if parts.len() == 0 {
        Seq::empty()
    } else if parts.len() == 1 {
        parts[0]
    } else {
        spaced(parts.drop_last()) + " "@ + parts.last()
    }
}

/// What is left of a command line once the name of the program, its first word, has been
/// taken away. An empty command line stays empty.
pub open spec fn after_program_name<A>(argv: Seq<A>) -> Seq<A> {
    if argv.len() == 0 {
        argv
    } else {
        argv.subrange(1, argv.len() as int)
    }
}

/// The architecture tag that goes with a pointer width: `amd64` for 64 bits, `386` for 32
/// bits, none for any other width.
pub open spec fn tag_of_pointer_width(bits: int) -> Option<Seq<char>> {
    if bits == 64 {
        Some("amd64"@)
    } else if bits == 32 {
        Some("386"@)
    } else {
        None
    }
}

/// The architecture tag of the machine that the launcher was built for, told from the
/// width of a pointer.
pub fn get_architecture() -> (tag: Result<String, String>)
    ensures
        match tag_of_pointer_width(usize::BITS as int) {
            Some(t) => tag matches Ok(found) && found@ == t,
            None => tag matches Err(m) && m@ == "Unknown architecture"@,
        },
{
    if usize::BITS == 64 {
        Ok("amd64".to_owned())
    } else if usize::BITS == 32 {
        Ok("386".to_owned())
    } else {
        Err("Unknown architecture".to_owned())
    }
}

/// Whether a regular file is at `filename`. The answer is that of the disk at the moment
/// of the call.
pub fn path_exists(filename: &String) -> (found: bool) {
    checker::path_exists(filename.as_str())
}

/// Joins the words of a command line that follow the name of the program, with one space
/// between neighbours.
pub fn get_args_as_string<T>(args: T) -> (joined: String) where T: Iterator<Item = String>
    requires
        args.obeys_prophetic_iter_laws(),
        args.decrease() is Some,
    ensures
        joined@ == spaced(texts(after_program_name(args.remaining()))),
{
    let mut rest = args;
    let ghost all = rest.remaining();
    let mut joined = String::new();
    if rest.next().is_none() {
        assert(texts(after_program_name(all)) =~= Seq::<Seq<char>>::empty());
        return joined;
    }
    let ghost words = after_program_name(all);
    let ghost mut taken: int = 0;
    assert(rest.remaining() =~= words.subrange(0, words.len() as int));
    let mut first = true;
    loop
        invariant
            rest.obeys_prophetic_iter_laws(),
            rest.decrease() is Some,
            0 <= taken <= words.len(),
            rest.remaining() == words.subrange(taken, words.len() as int),
            first <==> taken == 0,
            joined@ == spaced(texts(words.subrange(0, taken))),
        ensures
            joined@ == spaced(texts(words)),
        decreases rest.decrease()->0,
    {
        match rest.next() {
            None => {
                assert(words.subrange(0, taken) =~= words);
                break ;
            },
            Some(word) => {
                proof {
                    let grown = texts(words.subrange(0, taken + 1));
                    assert(word == words[taken]);
                    assert(grown.drop_last() =~= texts(words.subrange(0, taken)));
                    assert(grown.last() == word@);
                    assert(rest.remaining() =~= words.subrange(taken + 1, words.len() as int));
                    if taken == 0 {
                        assert(spaced(texts(words.subrange(0, taken))) =~= Seq::<char>::empty());
                        assert(spaced(grown) == word@);
                    } else {
                        assert(spaced(grown) == spaced(grown.drop_last()) + " "@ + word@);
                    }
                }
                if !first {
                    joined.append(" ");
                }
                joined.append(word.as_str());
                first = false;
                proof {
                    taken = taken + 1;
                }
            },
        }
    }
    joined
}

/// Calls `sys_info::os_type`, which asks the running system for the name of its kind
/// (`Linux`, `Darwin`, `Windows`, ...) and fails where it cannot tell. The answer is
/// that of the machine, so the contract claims nothing about it.
#[verifier::external_body]
fn reported_os_type() -> (reported: Option<String>) {
    sys_info::os_type().ok()
}

/// Turns the answer of the system into the lowercase name of the operating system, or
/// into the complaint that there was none.
pub fn os_type_from_report(reported: Option<String>) -> (os: Result<String, String>)
    ensures
        match reported {
            Some(name) => os matches Ok(lower) && lower@ == lowercase(name@),
            None => os matches Err(m) && m@ == "Can't get operating system type"@,
        },
{
    match reported {
        Some(name) => Ok(to_lowercase(name.as_str())),
        None => Err("Can't get operating system type".to_owned()),
    }
}

/// The lowercase name of the operating system that the launcher runs on. Whether the
/// system tells its name is not known before the call. A name that comes back is the
/// lowercase form of a name that the system reported; the only complaint that can come
/// back is that it reported none.
pub fn get_os_type() -> (os: Result<String, String>)
    ensures
        os matches Ok(lower) ==> exists|reported: Seq<char>| lower@ == #[trigger] lowercase(reported),
        os matches Err(m) ==> m@ == "Can't get operating system type"@,
{
    let reported = reported_os_type();
    let ghost told = reported;
    let os = os_type_from_report(reported);
    proof {
        if os is Ok {
            assert(os->Ok_0@ == lowercase(told->0@));
        }
    }
    os
}

/// Names the release artifact from the tags of an operating system and an architecture:
/// `ec-<os>-<arch>`.
pub fn generate_filename(os: String, arch: String) -> (name: String)
    ensures
        name@ == "ec-"@ + os@ + "-"@ + arch@,
{
    let mut name = "ec-".to_owned();
    name.append(os.as_str());
    name.append("-");
    name.append(arch.as_str());
    name
}

/// The address of the directory that holds the artifacts of `version` on the release
/// host.
pub fn generate_base_url(version: String) -> (url: String)
    ensures
        url@ == checker::version_url(checker::release_host(), version@),
{
    checker::generate_base_url(version.as_str())
}

/// The position of the last `/` in `path`, or -1 where it holds none.
pub open spec fn last_slash(path: Seq<char>) -> int
    decreases path.len(),
{
    if path.len() == 0 {
        -1
    } else if path.last() == '/' {
        path.len() - 1
    } else {
        last_slash(path.drop_last())
    }
}

/// The directory that holds the file at `path`: all that stands before its last `/`.
/// A path without a `/` has no such directory.
pub open spec fn parent_directory(path: Seq<char>) -> Option<Seq<char>> {
    if last_slash(path) < 0 {
        None
    } else {
        Some(path.subrange(0, last_slash(path)))
    }
}

/// [`last_slash`] is the greatest position that holds a `/`.
pub proof fn lemma_last_slash(path: Seq<char>)
    ensures
        -1 <= last_slash(path) < path.len(),
        last_slash(path) >= 0 ==> path[last_slash(path)] == '/',
        forall|i: int| last_slash(path) < i < path.len() ==> path[i] != '/',
    decreases path.len(),
{
    if path.len() > 0 && path.last() != '/' {
        let shorter = path.drop_last();
        lemma_last_slash(shorter);
        assert forall|i: int| last_slash(path) < i < path.len() implies path[i] != '/' by {
            if i < shorter.len() {
                assert(shorter[i] == path[i]);
            }
        }
    }
}

/// The cache directory of a launcher that keeps its cache beside itself: the directory
/// of the running executable, whose path the caller hands in, or `None` where it could
/// not be determined. There is no such directory where the path is unknown or holds
/// no `/`.
pub fn get_base_path(executable: Option<&str>) -> (base: Result<String, Error>)
    ensures
        match executable {
            Some(path) => match parent_directory(path@) {
                Some(dir) => base matches Ok(found) && found@ == dir,
                None => base matches Err(e) && e@ == ErrorView::UnresolvableBasePath,
            },
            None => base matches Err(e) && e@ == ErrorView::UnresolvableBasePath,
        },
{
    let path = match executable {
        Some(path) => path,
        None => return Err(Error::UnresolvableBasePath),
    };
    let len = path.unicode_len();
    let mut end: usize = len;
    assert(path@.subrange(0, end as int) =~= path@);
    while end > 0 && path.get_char(end - 1) != '/'
        invariant
            end <= len,
            len == path@.len(),
            last_slash(path@) == last_slash(path@.subrange(0, end as int)),
        decreases end,
    {
        assert(path@.subrange(0, end as int).drop_last() =~= path@.subrange(0, end - 1));
        end = end - 1;
    }
    if end == 0 {
        Err(Error::UnresolvableBasePath)
    } else {
        let dir = path.substring_char(0, end - 1);
        Ok(dir.to_owned())
    }
}

} // verus!
