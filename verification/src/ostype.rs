//! The operating systems for which release artifacts are published.

use vstd::prelude::*;
use vstd::string::*;
use crate::error::{Error, ErrorView};
use crate::text::{lowercase, same_text, to_lowercase};

verus! {

/// An operating system with a published release artifact.
#[derive(Clone, Copy, PartialEq, Eq, Debug, Structural)]
pub enum OsType {
    Darwin,
    Dragonfly,
    FreeBSD,
    Linux,
    NetBSD,
    OpenBSD,
    Plan9,
    Solaris,
    Windows,
}

impl OsType {
    /// The canonical lowercase tag of the operating system, as it appears in artifact
    /// names.
    pub open spec fn tag(self) -> Seq<char> {
        match self {
            OsType::Darwin => "darwin"@,
            OsType::Dragonfly => "dragonfly"@,
            OsType::FreeBSD => "freebsd"@,
            OsType::Linux => "linux"@,
            OsType::NetBSD => "netbsd"@,
            OsType::OpenBSD => "openbsd"@,
            OsType::Plan9 => "plan9"@,
            OsType::Solaris => "solaris"@,
            OsType::Windows => "windows"@,
        }
    }

    /// The alias table: the operating system that a lowercase name stands for, if any.
    /// Every canonical tag is an alias, and `macos` is a second name of Darwin.
    pub open spec fn from_alias(name: Seq<char>) -> Option<OsType> {
        if name == "linux"@ {
            Some(OsType::Linux)
        } else if name == "darwin"@ || name == "macos"@ {
            Some(OsType::Darwin)
        } else if name == "dragonfly"@ {
            Some(OsType::Dragonfly)
        } else if name == "freebsd"@ {
            Some(OsType::FreeBSD)
        } else if name == "netbsd"@ {
            Some(OsType::NetBSD)
        } else if name == "openbsd"@ {
            Some(OsType::OpenBSD)
        } else if name == "plan9"@ {
            Some(OsType::Plan9)
        } else if name == "solaris"@ {
            Some(OsType::Solaris)
        } else if name == "windows"@ {
            Some(OsType::Windows)
        } else {
            None
        }
    }

    /// The operating system that a reported name stands for, whatever its case.
    pub open spec fn from_name(name: Seq<char>) -> Option<OsType> {
        Self::from_alias(lowercase(name))
    }

    pub fn stringify(self) -> (tag: &'static str)
        ensures
            tag@ == self.tag(),
    {
        match self {
            OsType::Darwin => "darwin",
            OsType::Dragonfly => "dragonfly",
            OsType::FreeBSD => "freebsd",
            OsType::Linux => "linux",
            OsType::NetBSD => "netbsd",
            OsType::OpenBSD => "openbsd",
            OsType::Plan9 => "plan9",
            OsType::Solaris => "solaris",
            OsType::Windows => "windows",
        }
    }

    /// Looks a name that is already lowercase up in the alias table.
    pub fn from_lowercase(name: &str) -> (found: Option<OsType>)
        ensures
            found == Self::from_alias(name@),
    {
        if same_text(name, "linux") {
            Some(OsType::Linux)
        } else if same_text(name, "darwin") || same_text(name, "macos") {
            Some(OsType::Darwin)
        } else if same_text(name, "dragonfly") {
            Some(OsType::Dragonfly)
        } else if same_text(name, "freebsd") {
            Some(OsType::FreeBSD)
        } else if same_text(name, "netbsd") {
            Some(OsType::NetBSD)
        } else if same_text(name, "openbsd") {
            Some(OsType::OpenBSD)
        } else if same_text(name, "plan9") {
            Some(OsType::Plan9)
        } else if same_text(name, "solaris") {
            Some(OsType::Solaris)
        } else if same_text(name, "windows") {
            Some(OsType::Windows)
        } else {
            None
        }
    }

    /// Identifies the operating system from the name that the host reports. The name is
    /// lowercased before it is looked up. A name that no alias matches is an error that
    /// carries the name as it was given; no operating system is ever guessed.
    pub fn parse(name: &str) -> (parsed: Result<OsType, Error>)
        ensures
            match Self::from_name(name@) {
                Some(os) => parsed matches Ok(found) && found == os,
                None => parsed matches Err(e) && e@ == ErrorView::UnrecognizedPlatform(name@),
            },
    {
        let lower = to_lowercase(name);
        match Self::from_lowercase(lower.as_str()) {
            Some(os) => Ok(os),
            None => Err(Error::UnrecognizedPlatform(name.to_owned())),
        }
    }

    /// Two spellings that differ only in case name the same operating system, or both
    /// name none.
    pub proof fn lemma_case_insensitive(a: Seq<char>, b: Seq<char>)
        ensures
            lowercase(a) == lowercase(b) ==> Self::from_name(a) == Self::from_name(b),
    {
    }

    /// The canonical tag of every operating system is one of its aliases.
    pub proof fn lemma_tag_is_alias(os: OsType)
        ensures
            Self::from_alias(os.tag()) == Some(os),
    {
        reveal_strlit("linux");
        reveal_strlit("darwin");
        reveal_strlit("macos");
        reveal_strlit("dragonfly");
        reveal_strlit("freebsd");
        reveal_strlit("netbsd");
        reveal_strlit("openbsd");
        reveal_strlit("plan9");
        reveal_strlit("solaris");
        reveal_strlit("windows");
        assert("linux"@[0] == 'l');
        assert("darwin"@[0] == 'd' && "darwin"@[1] == 'a');
        assert("macos"@[0] == 'm');
        assert("dragonfly"@[0] == 'd' && "dragonfly"@[1] == 'r');
        assert("freebsd"@[0] == 'f');
        assert("netbsd"@[0] == 'n');
        assert("openbsd"@[0] == 'o');
        assert("plan9"@[0] == 'p');
        assert("solaris"@[0] == 's');
        assert("windows"@[0] == 'w');
    }
}

impl std::str::FromStr for OsType {
    type Err = Error;

    /// Identifies the operating system as [`OsType::parse`] does.
    fn from_str(s: &str) -> (parsed: Result<Self, Self::Err>)
        ensures
            match OsType::from_name(s@) {
                Some(os) => parsed matches Ok(found) && found == os,
                None => parsed matches Err(e) && e@ == ErrorView::UnrecognizedPlatform(s@),
            },
    {
        OsType::parse(s)
    }
}

} // verus!
