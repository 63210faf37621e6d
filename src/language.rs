use vstd::prelude::*;
use crate::text::same_text;

verus! {

/// The extension of the last component of a path, when it has one.
pub uninterp spec fn extension_of(path: Seq<char>) -> Option<Seq<char>>;

/// Relies on std::path::Path::extension (read as UTF-8): the part of the file name
/// after its last '.', which depends on the path text alone.
#[verifier::external_body]
pub(crate) fn path_extension(path: &str) -> (r: Option<String>)
    ensures
        match r {
            Some(e) => extension_of(path@) == Some(e@),
            None => extension_of(path@).is_none(),
        },
{
    std::path::Path::new(path).extension().and_then(|e| e.to_str()).map(|e| e.to_string())
}

/// A language whose files the scanner reads.
#[derive(Clone, Copy, Debug, PartialEq, Eq, Hash, Structural)]
pub enum Language {
    Python,
    JavaScript,
    TypeScript,
}

/// The language that a file extension stands for.
pub open spec fn language_of_extension(ext: Seq<char>) -> Option<Language> {
    if ext == "py"@ || ext == "pyw"@ {
        Some(Language::Python)
    } else if ext == "js"@ || ext == "jsx"@ || ext == "mjs"@ || ext == "cjs"@ {
        Some(Language::JavaScript)
    } else if ext == "ts"@ || ext == "tsx"@ || ext == "mts"@ || ext == "cts"@ {
        Some(Language::TypeScript)
    } else {
        None
    }
}

/// The language of a file, by the extension of its path.
pub open spec fn language_of_path(path: Seq<char>) -> Option<Language> {
    match extension_of(path) {
        Some(e) => language_of_extension(e),
        None => None,
    }
}

impl Language {
    /// The language's lower-case name.
    pub open spec fn spec_name(self) -> Seq<char> {
        match self {
            Language::Python => "python"@,
            Language::JavaScript => "javascript"@,
            Language::TypeScript => "typescript"@,
        }
    }

    /// The key of the rule set that applies: both JavaScript dialects share one.
    pub open spec fn spec_rule_dir(self) -> Seq<char> {
        match self {
            Language::Python => "python"@,
            Language::JavaScript | Language::TypeScript => "javascript"@,
        }
    }

    /// The language that a file extension (without the dot) stands for.
    pub fn from_extension_text(ext: &str) -> (r: Option<Language>)
        ensures
            r == language_of_extension(ext@),
    {
        if same_text(ext, "py") || same_text(ext, "pyw") {
            Some(Language::Python)
        } else if same_text(ext, "js") || same_text(ext, "jsx") || same_text(ext, "mjs")
            || same_text(ext, "cjs") {
            Some(Language::JavaScript)
        } else if same_text(ext, "ts") || same_text(ext, "tsx") || same_text(ext, "mts")
            || same_text(ext, "cts") {
            Some(Language::TypeScript)
        } else {
            None
        }
    }

    /// The language of a file, by its path's extension; `None` for any other file.
    pub fn from_extension(path: &str) -> (r: Option<Language>)
        ensures
            r == language_of_path(path@),
    {
        match path_extension(path) {
            Some(e) => Language::from_extension_text(e.as_str()),
            None => None,
        }
    }

    /// The language's lower-case name.
    pub fn name(&self) -> (r: &'static str)
        ensures
            r@ == self.spec_name(),
    {
        match self {
            Language::Python => "python",
            Language::JavaScript => "javascript",
            Language::TypeScript => "typescript",
        }
    }

    /// The key of the rule set that applies to the language.
    pub fn rule_dir(&self) -> (r: &'static str)
        ensures
            r@ == self.spec_rule_dir(),
    {
        match self {
            Language::Python => "python",
            Language::JavaScript | Language::TypeScript => "javascript",
        }
    }
}

} // verus!
