//! Submissions and the closed set of languages the judge understands.

use vstd::prelude::*;
use crate::text::{lower_of, str_eq, to_lower};

verus! {

/// One submitted solution, as read from the submission row. Identifiers are
/// carried as the 128-bit value of the row's UUID.
#[derive(Clone, Debug)]
pub struct Submission {
    pub id: u128,
    pub problem_id: u128,
    pub user_id: u128,
    pub language: SubmissionLanguage,
    pub code: String,
    pub status: String,
}

/// The languages a submission can name. Each variant carries a canonical
/// source filename, a file extension, and whether a compile step is needed
/// before the program can run.
#[derive(Clone, Copy, Debug, PartialEq, Eq, Structural)]
pub enum SubmissionLanguage {
    Cpp,
    Python,
    Java,
    Rust,
}

/// Which language a lowercased tag names; an unknown tag falls back to
/// Python.
pub open spec fn language_for_tag(t: Seq<char>) -> SubmissionLanguage {
    if t == "cpp"@ || t == "c++"@ {
        SubmissionLanguage::Cpp
    } else if t == "python"@ || t == "py"@ {
        SubmissionLanguage::Python
    } else if t == "java"@ {
        SubmissionLanguage::Java
    } else if t == "rust"@ || t == "rs"@ {
        SubmissionLanguage::Rust
    } else {
        SubmissionLanguage::Python
    }
}

/// The file extension of each language.
pub open spec fn extension_of(l: SubmissionLanguage) -> Seq<char> {
    match l {
        SubmissionLanguage::Cpp => "cpp"@,
        SubmissionLanguage::Python => "py"@,
        SubmissionLanguage::Java => "java"@,
        SubmissionLanguage::Rust => "rs"@,
    }
}

/// The canonical filename under which each language's source is written into
/// the scratch directory.
pub open spec fn source_filename_of(l: SubmissionLanguage) -> Seq<char> {
    match l {
        SubmissionLanguage::Cpp => "solution.cpp"@,
        SubmissionLanguage::Python => "solution.py"@,
        SubmissionLanguage::Java => "Solution.java"@,
        SubmissionLanguage::Rust => "solution.rs"@,
    }
}

impl SubmissionLanguage {
    /// Recognise a language tag, case-insensitively.
    pub fn from_tag(s: &str) -> (r: SubmissionLanguage)
        ensures
            r == language_for_tag(lower_of(s@)),
    {
        let lowered = to_lower(s);
        let t = lowered.as_str();
        if str_eq(t, "cpp") || str_eq(t, "c++") {
            SubmissionLanguage::Cpp
        } else if str_eq(t, "python") || str_eq(t, "py") {
            SubmissionLanguage::Python
        } else if str_eq(t, "java") {
            SubmissionLanguage::Java
        } else if str_eq(t, "rust") || str_eq(t, "rs") {
            SubmissionLanguage::Rust
        } else {
            SubmissionLanguage::Python
        }
    }

    /// The language's file extension.
    pub fn file_extension(&self) -> (r: &str)
        ensures
            r@ == extension_of(*self),
    {
        match self {
            SubmissionLanguage::Cpp => "cpp",
            SubmissionLanguage::Python => "py",
            SubmissionLanguage::Java => "java",
            SubmissionLanguage::Rust => "rs",
        }
    }

    /// The canonical filename the source text is written under.
    pub fn source_filename(&self) -> (r: &str)
        ensures
            r@ == source_filename_of(*self),
    {
        match self {
            SubmissionLanguage::Cpp => "solution.cpp",
            SubmissionLanguage::Python => "solution.py",
            SubmissionLanguage::Java => "Solution.java",
            SubmissionLanguage::Rust => "solution.rs",
        }
    }

    /// Whether the language needs a compile step before its run step.
    pub fn requires_compile(&self) -> (r: bool)
        ensures
            r == (*self != SubmissionLanguage::Python),
    {
        match self {
            SubmissionLanguage::Python => false,
            _ => true,
        }
    }
}

impl From<String> for SubmissionLanguage {
    fn from(s: String) -> (r: SubmissionLanguage) {
        SubmissionLanguage::from_tag(s.as_str())
    }
}

impl vstd::std_specs::convert::FromSpecImpl<String> for SubmissionLanguage {
    open spec fn obeys_from_spec() -> bool {
        true
    }

    open spec fn from_spec(s: String) -> SubmissionLanguage {
        language_for_tag(lower_of(s@))
    }
}

} // verus!
