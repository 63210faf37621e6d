use vstd::prelude::*;
use crate::text::views_of;

verus! {

/// Parameters of a scan request.
pub struct ScanParams {
    /// A single file or directory to scan (this or `paths`).
    pub path: Option<String>,
    /// Several files or directories to scan (this or `path`).
    pub paths: Option<Vec<String>>,
    /// Minimum severity to report, as a lower-case word.
    pub severity: Option<String>,
    /// Scan only the files changed in the working tree.
    pub diff: Option<bool>,
    /// Largest number of findings to return.
    pub max_results: Option<usize>,
}

/// The paths that a scan request names.
pub open spec fn requested_paths(p: ScanParams) -> Seq<Seq<char>> {
    match p.path {
        Some(one) => seq![one@],
        None => match p.paths {
            Some(many) if many@.len() > 0 => views_of(many@),
            _ => seq!["."@],
        },
    }
}

impl ScanParams {
    /// `path` when given; else `paths` when given and not empty; else ".".
    pub fn resolved_paths(&self) -> (r: Vec<String>)
        ensures
            views_of(r@) == requested_paths(*self),
    {
        match &self.path {
            Some(p) => {
                let r = vec![p.clone()];
                assert(views_of(r@) =~= seq![p@]);
                return r;
            },
            None => {},
        }
        match &self.paths {
            Some(ps) => {
                if ps.len() > 0 {
                    return crate::text::copy_strings(ps);
                }
            },
            None => {},
        }
        let r = vec![String::from_str(".")];
        assert(views_of(r@) =~= seq!["."@]);
        r
    }
}

/// The outcome of a scan request.
pub struct ScanResult {
    pub total_findings: usize,
    pub files_scanned: usize,
    pub rules_loaded: usize,
    pub findings: Vec<FindingOutput>,
}

/// One finding as a scan request reports it.
pub struct FindingOutput {
    pub rule_id: String,
    pub rule_name: String,
    pub severity: String,
    pub file: String,
    pub line: usize,
    pub column: usize,
    pub matched_text: String,
    pub message: String,
    pub description: String,
    pub fix_hint: Option<String>,
    pub cwe: Option<String>,
    pub owasp: Option<String>,
    pub references: Vec<String>,
    pub context_before: Vec<String>,
    pub context_after: Vec<String>,
}

/// Parameters of a rule listing request.
pub struct ListRulesParams {
    /// Only rules of this language key.
    pub language: Option<String>,
    /// Only rules of at least this severity, as a lower-case word.
    pub severity: Option<String>,
    /// Only rules whose name, id or description holds this text.
    pub search: Option<String>,
}

/// The outcome of a rule listing request.
pub struct ListRulesResult {
    pub total: usize,
    pub rules: Vec<RuleOutput>,
}

/// One rule as a listing reports it.
pub struct RuleOutput {
    pub id: String,
    pub name: String,
    pub severity: String,
    pub language: String,
    pub description: String,
    pub cwe: Option<String>,
    pub owasp: Option<String>,
    pub fix_hint: Option<String>,
    pub references: Vec<String>,
}

/// Parameters of a request to explain one finding.
pub struct ExplainFindingParams {
    pub path: String,
    pub line: usize,
    pub rule_id: String,
    pub ai_provider: Option<String>,
}

/// Parameters of a request to review one file.
pub struct ReviewParams {
    pub path: String,
    pub ai_provider: Option<String>,
}

/// Parameters of a dependency check request.
pub struct CheckDepsParams {
    /// Project folder or manifest file; "." by default.
    pub path: String,
}

/// The path a dependency check uses when none is given: ".".
pub fn default_dot() -> (r: String)
    ensures
        r@ == "."@,
{
    String::from_str(".")
}

/// The outcome of a dependency check request.
pub struct CheckDepsResult {
    pub files_checked: Vec<String>,
    pub python_packages: Vec<String>,
    pub npm_packages: Vec<String>,
    pub npm_dev_packages: Vec<String>,
}

} // verus!
