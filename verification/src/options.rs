//! The choices that a run is started with: the target language and how
//! much documentation the stubs carry.

use vstd::prelude::*;

verus! {

/// The language that the stubs are written for.
#[derive(Clone, Copy, Debug, PartialEq, Eq)]
pub enum Lang {
    Python,
    Lua,
}

/// How much the stubs carry besides the code.
#[derive(Clone, Copy, Debug, PartialEq, Eq)]
pub enum Level {
    /// The declarations alone.
    Code,
    /// The declarations and their documentation.
    CodeDoc,
    /// All that the source gives.
    Full,
}

/// The language that a word names.
pub open spec fn lang_named(word: Seq<char>) -> Option<Lang> {
    if word == "lua"@ {
        Some(Lang::Lua)
    } else if word == "python"@ {
        Some(Lang::Python)
    } else {
        None
    }
}

/// The level that a word names.
pub open spec fn level_named(word: Seq<char>) -> Option<Level> {
    if word == "Code"@ {
        Some(Level::Code)
    } else if word == "CodeDoc"@ {
        Some(Level::CodeDoc)
    } else if word == "Full"@ {
        Some(Level::Full)
    } else {
        None
    }
}

/// The complaint about a word that names no choice.
pub open spec fn not_supported(word: Seq<char>) -> Seq<char> {
    word + " not supported"@
}

fn complain(word: &str) -> (r: String)
    ensures
        r@ == not_supported(word@),
{
    String::from_str(word).concat(" not supported")
}

impl Lang {
    /// Reads a language from its name, `lua` or `python`. Any other word is
    /// answered with a complaint that quotes it.
    pub fn from_str(s: &str) -> (r: Result<Lang, String>)
        ensures
            match r {
                Ok(lang) => lang_named(s@) == Some(lang),
                Err(complaint) => lang_named(s@) is None && complaint@ == not_supported(s@),
            },
    {
        if s.eq("lua") {
            Ok(Lang::Lua)
        } else if s.eq("python") {
            Ok(Lang::Python)
        } else {
            Err(complain(s))
        }
    }
}

impl Level {
    /// Reads a level from its name, `Code`, `CodeDoc` or `Full`. Any other
    /// word is answered with a complaint that quotes it.
    pub fn from_str(s: &str) -> (r: Result<Level, String>)
        ensures
            match r {
                Ok(level) => level_named(s@) == Some(level),
                Err(complaint) => level_named(s@) is None && complaint@ == not_supported(s@),
            },
    {
        if s.eq("Code") {
            Ok(Level::Code)
        } else if s.eq("CodeDoc") {
            Ok(Level::CodeDoc)
        } else if s.eq("Full") {
            Ok(Level::Full)
        } else {
            Err(complain(s))
        }
    }

    /// Whether the stubs carry documentation at this level: at every level
    /// but `Code`.
    pub fn with_documentation(&self) -> (r: bool)
        ensures
            r == !(*self is Code),
    {
        match self {
            Level::Code => false,
            Level::CodeDoc => true,
            Level::Full => true,
        }
    }

    /// Whether the stubs carry all that the source gives: at `Full` alone.
    pub fn with_everything(&self) -> (r: bool)
        ensures
            r == (*self is Full),
    {
        match self {
            Level::Code => false,
            Level::CodeDoc => false,
            Level::Full => true,
        }
    }

    /// The name of the level, which `from_str` reads back.
    pub fn name(&self) -> (r: &'static str)
        ensures
            level_named(r@) == Some(*self),
    {
        proof {
            reveal_strlit("Code");
            reveal_strlit("CodeDoc");
            reveal_strlit("Full");
            assert("Full"@[0] != "Code"@[0]);
            assert("Full"@.len() != "CodeDoc"@.len());
        }
        match self {
            Level::Code => "Code",
            Level::CodeDoc => "CodeDoc",
            Level::Full => "Full",
        }
    }
}

impl std::str::FromStr for Lang {
    type Err = String;

    /// As [`Lang::from_str`]: `lua` and `python` name a language, and any
    /// other word is answered with a complaint that quotes it.
    fn from_str(s: &str) -> (r: Result<Lang, String>)
        ensures
            match r {
                Ok(lang) => lang_named(s@) == Some(lang),
                Err(complaint) => lang_named(s@) is None && complaint@ == not_supported(s@),
            },
    {
        Lang::from_str(s)
    }
}

impl std::str::FromStr for Level {
    type Err = String;

    /// As [`Level::from_str`]: `Code`, `CodeDoc` and `Full` name a level,
    /// and any other word is answered with a complaint that quotes it.
    fn from_str(s: &str) -> (r: Result<Level, String>)
        ensures
            match r {
                Ok(level) => level_named(s@) == Some(level),
                Err(complaint) => level_named(s@) is None && complaint@ == not_supported(s@),
            },
    {
        Level::from_str(s)
    }
}

} // verus!
