//! The CPU architectures for which release artifacts are published.

use vstd::prelude::*;
use vstd::string::*;
use crate::error::{Error, ErrorView};
use crate::text::{lowercase, same_text, to_lowercase};

verus! {

/// A CPU architecture with a published release artifact.
#[derive(Clone, Copy, PartialEq, Eq, Debug, Structural)]
pub enum Architecture {
    Amd64,
    I386,
}

impl Architecture {
    /// The canonical lowercase tag of the architecture, as it appears in artifact names.
    pub open spec fn tag(self) -> Seq<char> {
        match self {
            Architecture::Amd64 => "amd64"@,
            Architecture::I386 => "386"@,
        }
    }

    /// The alias table: the architecture that a lowercase name stands for, if any.
    /// `x86_64` stands for Amd64, `x86` and `386` stand for I386, and no other name
    /// stands for an architecture.
    pub open spec fn from_alias(name: Seq<char>) -> Option<Architecture> {
        if name == "x86_64"@ {
            Some(Architecture::Amd64)
        } else if name == "x86"@ || name == "386"@ {
            Some(Architecture::I386)
        } else {
            None
        }
    }

    /// The architecture that a reported name stands for, whatever its case.
    pub open spec fn from_name(name: Seq<char>) -> Option<Architecture> {
        Self::from_alias(lowercase(name))
    }

    pub fn stringify(self) -> (tag: &'static str)
        ensures
            tag@ == self.tag(),
    {
        match self {
            Architecture::Amd64 => "amd64",
            Architecture::I386 => "386",
        }
    }

    /// Looks a name that is already lowercase up in the alias table.
    pub fn from_lowercase(name: &str) -> (found: Option<Architecture>)
        ensures
            found == Self::from_alias(name@),
    {
        if same_text(name, "x86_64") {
            Some(Architecture::Amd64)
        } else if same_text(name, "x86") || same_text(name, "386") {
            Some(Architecture::I386)
        } else {
            None
        }
    }

    /// Identifies the architecture from the name that the host reports. The name is
    /// lowercased before it is looked up. A name that no alias matches is an error that
    /// carries the name as it was given; no architecture is ever guessed.
    pub fn parse(name: &str) -> (parsed: Result<Architecture, Error>)
        ensures
            match Self::from_name(name@) {
                Some(arch) => parsed matches Ok(found) && found == arch,
                None => parsed matches Err(e) && e@ == ErrorView::UnrecognizedArchitecture(name@),
            },
    {
        let lower = to_lowercase(name);
        match Self::from_lowercase(lower.as_str()) {
            Some(arch) => Ok(arch),
            None => Err(Error::UnrecognizedArchitecture(name.to_owned())),
        }
    }

    /// Two spellings that differ only in case name the same architecture, or both name
    /// none.
    pub proof fn lemma_case_insensitive(a: Seq<char>, b: Seq<char>)
        ensures
            lowercase(a) == lowercase(b) ==> Self::from_name(a) == Self::from_name(b),
    {
    }

    /// The alias table is closed: each architecture is named by its own aliases and by
    /// nothing else, and a name that is none of the three names no architecture.
    pub proof fn lemma_alias_table(name: Seq<char>)
        ensures
            Self::from_alias(name) == Some(Architecture::Amd64) <==> name == "x86_64"@,
            Self::from_alias(name) == Some(Architecture::I386) <==> name == "x86"@ || name
                == "386"@,
            Self::from_alias(name) is None <==> name != "x86_64"@ && name != "x86"@ && name
                != "386"@,
    {
        reveal_strlit("x86_64");
        reveal_strlit("x86");
        reveal_strlit("386");
        assert("x86_64"@.len() == 6 && "x86"@.len() == 3 && "386"@.len() == 3);
        assert("x86_64"@[0] == 'x' && "386"@[0] == '3');
    }
}

impl std::str::FromStr for Architecture {
    type Err = Error;

    /// Identifies the architecture as [`Architecture::parse`] does.
    fn from_str(s: &str) -> (parsed: Result<Self, Self::Err>)
        ensures
            match Architecture::from_name(s@) {
                Some(arch) => parsed matches Ok(found) && found == arch,
                None => parsed matches Err(e) && e@ == ErrorView::UnrecognizedArchitecture(s@),
            },
    {
        Architecture::parse(s)
    }
}

} // verus!
