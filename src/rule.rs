use vstd::prelude::*;
use crate::text::{opt_view, same_text, views_of};

verus! {

/// How bad a finding is. Ranked by `ordinal` alone.
#[derive(Clone, Copy, Debug, PartialEq, Eq, Hash, Structural)]
pub enum Severity {
    Critical,
    High,
    Medium,
    Low,
    Info,
}

/// The severity that a rule document's word names.
pub open spec fn severity_of_word(w: Seq<char>) -> Option<Severity> {
    if w == "critical"@ {
        Some(Severity::Critical)
    } else if w == "high"@ {
        Some(Severity::High)
    } else if w == "medium"@ {
        Some(Severity::Medium)
    } else if w == "low"@ {
        Some(Severity::Low)
    } else if w == "info"@ {
        Some(Severity::Info)
    } else {
        None
    }
}

impl Severity {
    /// The rank used for every comparison of severities.
    pub open spec fn spec_ordinal(self) -> u8 {
        match self {
            Severity::Critical => 4,
            Severity::High => 3,
            Severity::Medium => 2,
            Severity::Low => 1,
            Severity::Info => 0,
        }
    }

    /// The severity's name in capitals.
    pub open spec fn spec_label(self) -> Seq<char> {
        match self {
            Severity::Critical => "CRITICAL"@,
            Severity::High => "HIGH"@,
            Severity::Medium => "MEDIUM"@,
            Severity::Low => "LOW"@,
            Severity::Info => "INFO"@,
        }
    }

    /// The rank of the severity: Critical 4, High 3, Medium 2, Low 1, Info 0.
    pub fn ordinal(&self) -> (r: u8)
        ensures
            r == self.spec_ordinal(),
    {
        match self {
            Severity::Critical => 4,
            Severity::High => 3,
            Severity::Medium => 2,
            Severity::Low => 1,
            Severity::Info => 0,
        }
    }

    /// The severity's name in capitals.
    pub fn label(&self) -> (r: &'static str)
        ensures
            r@ == self.spec_label(),
    {
        match self {
            Severity::Critical => "CRITICAL",
            Severity::High => "HIGH",
            Severity::Medium => "MEDIUM",
            Severity::Low => "LOW",
            Severity::Info => "INFO",
        }
    }

    /// The severity named by a lower-case word of a rule document.
    pub fn from_word(w: &str) -> (r: Option<Severity>)
        ensures
            r == severity_of_word(w@),
    {
        if same_text(w, "critical") {
            Some(Severity::Critical)
        } else if same_text(w, "high") {
            Some(Severity::High)
        } else if same_text(w, "medium") {
            Some(Severity::Medium)
        } else if same_text(w, "low") {
            Some(Severity::Low)
        } else if same_text(w, "info") {
            Some(Severity::Info)
        } else {
            None
        }
    }
}

/// Which matching strategy leads a rule: a syntax-tree query, or regular expressions alone.
#[derive(Clone, Copy, Debug, PartialEq, Eq, Hash, Structural)]
pub enum PatternType {
    Ast,
    Regex,
}

/// The pattern type that a rule document's word names.
pub open spec fn pattern_type_of_word(w: Seq<char>) -> Option<PatternType> {
    if w == "ast"@ {
        Some(PatternType::Ast)
    } else if w == "regex"@ {
        Some(PatternType::Regex)
    } else {
        None
    }
}

impl PatternType {
    pub fn from_word(w: &str) -> (r: Option<PatternType>)
        ensures
            r == pattern_type_of_word(w@),
    {
        if same_text(w, "ast") {
            Some(PatternType::Ast)
        } else if same_text(w, "regex") {
            Some(PatternType::Regex)
        } else {
            None
        }
    }
}

/// What a rule looks for: a query (used when the type is `Ast`), and regular
/// expressions that are tried whatever the type.
#[derive(Clone, Debug)]
pub struct Pattern {
    pub pattern_type: PatternType,
    pub query: Option<String>,
    pub regex: Vec<String>,
}

/// A vulnerability-detection rule.
#[derive(Clone, Debug)]
pub struct Rule {
    pub id: String,
    pub name: String,
    pub severity: Severity,
    pub language: String,
    pub cwe: Option<String>,
    pub owasp: Option<String>,
    pub description: String,
    pub pattern: Pattern,
    pub message: String,
    pub fix_hint: Option<String>,
    pub references: Vec<String>,
}

/// The pattern part of a rule document, as written.
#[derive(Clone, Debug)]
pub struct PatternDocument {
    pub kind: String,
    pub query: Option<String>,
    pub regex: Vec<String>,
}

/// One rule document, as written: its closed vocabularies still unchecked.
#[derive(Clone, Debug)]
pub struct RuleDocument {
    pub id: String,
    pub name: String,
    pub severity: String,
    pub language: String,
    pub cwe: Option<String>,
    pub owasp: Option<String>,
    pub description: String,
    pub pattern: PatternDocument,
    pub message: String,
    pub fix_hint: Option<String>,
    pub references: Vec<String>,
}

/// Why a rule document was refused.
#[derive(Clone, Copy, Debug, PartialEq, Eq, Structural)]
pub enum RuleError {
    UnknownSeverity,
    UnknownPatternType,
    UnknownLanguage,
}

/// The languages that a rule document may name.
pub open spec fn is_language_word(w: Seq<char>) -> bool {
    w == "python"@ || w == "javascript"@ || w == "typescript"@
}

/// What a rule says, as mathematical values.
pub ghost struct RuleView {
    pub id: Seq<char>,
    pub name: Seq<char>,
    pub severity: Severity,
    pub language: Seq<char>,
    pub cwe: Option<Seq<char>>,
    pub owasp: Option<Seq<char>>,
    pub description: Seq<char>,
    pub pattern_type: PatternType,
    pub query: Option<Seq<char>>,
    pub regex: Seq<Seq<char>>,
    pub message: Seq<char>,
    pub fix_hint: Option<Seq<char>>,
    pub references: Seq<Seq<char>>,
}

impl View for Rule {
    type V = RuleView;

    open spec fn view(&self) -> RuleView {
        RuleView {
            id: self.id@,
            name: self.name@,
            severity: self.severity,
            language: self.language@,
            cwe: opt_view(self.cwe),
            owasp: opt_view(self.owasp),
            description: self.description@,
            pattern_type: self.pattern.pattern_type,
            query: opt_view(self.pattern.query),
            regex: views_of(self.pattern.regex@),
            message: self.message@,
            fix_hint: opt_view(self.fix_hint),
            references: views_of(self.references@),
        }
    }
}

/// What a rule document says, as mathematical values.
pub ghost struct DocumentView {
    pub id: Seq<char>,
    pub name: Seq<char>,
    pub severity: Seq<char>,
    pub language: Seq<char>,
    pub cwe: Option<Seq<char>>,
    pub owasp: Option<Seq<char>>,
    pub description: Seq<char>,
    pub kind: Seq<char>,
    pub query: Option<Seq<char>>,
    pub regex: Seq<Seq<char>>,
    pub message: Seq<char>,
    pub fix_hint: Option<Seq<char>>,
    pub references: Seq<Seq<char>>,
}

impl View for RuleDocument {
    type V = DocumentView;

    open spec fn view(&self) -> DocumentView {
        DocumentView {
            id: self.id@,
            name: self.name@,
            severity: self.severity@,
            language: self.language@,
            cwe: opt_view(self.cwe),
            owasp: opt_view(self.owasp),
            description: self.description@,
            kind: self.pattern.kind@,
            query: opt_view(self.pattern.query),
            regex: views_of(self.pattern.regex@),
            message: self.message@,
            fix_hint: opt_view(self.fix_hint),
            references: views_of(self.references@),
        }
    }
}

/// The views of a list of rules.
pub open spec fn rule_views(v: Seq<Rule>) -> Seq<RuleView> {
    v.map_values(|r: Rule| r@)
}

/// The views of a list of rule documents.
pub open spec fn document_views(v: Seq<RuleDocument>) -> Seq<DocumentView> {
    v.map_values(|d: RuleDocument| d@)
}

/// What parsing a rule document yields: the first unknown word, checked in the
/// order severity, pattern type, language; else the rule's severity and type.
pub open spec fn document_outcome(d: DocumentView) -> Result<(Severity, PatternType), RuleError> {
    if severity_of_word(d.severity).is_none() {
        Err(RuleError::UnknownSeverity)
    } else if pattern_type_of_word(d.kind).is_none() {
        Err(RuleError::UnknownPatternType)
    } else if !is_language_word(d.language) {
        Err(RuleError::UnknownLanguage)
    } else {
        Ok((severity_of_word(d.severity).unwrap(), pattern_type_of_word(d.kind).unwrap()))
    }
}

/// The rule that holds the document's fields, with its words read as `sev` and `kind`.
pub open spec fn rule_of_document(d: DocumentView, sev: Severity, kind: PatternType) -> RuleView {
    RuleView {
        id: d.id,
        name: d.name,
        severity: sev,
        language: d.language,
        cwe: d.cwe,
        owasp: d.owasp,
        description: d.description,
        pattern_type: kind,
        query: d.query,
        regex: d.regex,
        message: d.message,
        fix_hint: d.fix_hint,
        references: d.references,
    }
}

/// The rules that the valid documents among `docs` become, in order.
pub open spec fn valid_rules(docs: Seq<DocumentView>) -> Seq<RuleView>
    decreases docs.len(),
{
    if docs.len() == 0 {
        seq![]
    } else {
        valid_rules(docs.drop_last()) + match document_outcome(docs.last()) {
            Ok((sev, kind)) => seq![rule_of_document(docs.last(), sev, kind)],
            Err(_) => seq![],
        }
    }
}

impl Rule {
    /// Checks a document's severity, pattern type and language against their
    /// vocabularies and builds the rule.
    pub fn from_document(d: RuleDocument) -> (r: Result<Rule, RuleError>)
        ensures
            match (r, document_outcome(d@)) {
                (Ok(rule), Ok((sev, kind))) => rule@ == rule_of_document(d@, sev, kind),
                (Err(e), Err(f)) => e == f,
                _ => false,
            },
    {
        let sev = match Severity::from_word(d.severity.as_str()) {
            Some(s) => s,
            None => {
                return Err(RuleError::UnknownSeverity);
            },
        };
        let kind = match PatternType::from_word(d.pattern.kind.as_str()) {
            Some(k) => k,
            None => {
                return Err(RuleError::UnknownPatternType);
            },
        };
        let lang = d.language.as_str();
        if !(same_text(lang, "python") || same_text(lang, "javascript") || same_text(
            lang,
            "typescript",
        )) {
            return Err(RuleError::UnknownLanguage);
        }
        Ok(
            Rule {
                id: d.id,
                name: d.name,
                severity: sev,
                language: d.language,
                cwe: d.cwe,
                owasp: d.owasp,
                description: d.description,
                pattern: Pattern { pattern_type: kind, query: d.pattern.query, regex: d.pattern.regex },
                message: d.message,
                fix_hint: d.fix_hint,
                references: d.references,
            },
        )
    }
}

} // verus!

verus! {

/// The rules of the valid documents among `docs`, in order; the others are dropped.
pub fn rules_from_documents(docs: Vec<RuleDocument>) -> (r: Vec<Rule>)
    ensures
        rule_views(r@) == valid_rules(document_views(docs@)),
{
    let ghost all = docs@;
    let count = docs.len();
    let mut rest = docs;
    let mut r: Vec<Rule> = Vec::new();
    let mut n: usize = 0;
    while rest.len() > 0
        invariant
            n + rest@.len() == all.len(),
            all.len() == count,
            rest@ == all.skip(n as int),
            rule_views(r@) == valid_rules(document_views(all.take(n as int))),
        decreases rest@.len(),
    {
        let d = rest.remove(0);
        assert(document_views(all.take(n + 1)).drop_last() =~= document_views(all.take(n as int)));
        assert(document_views(all.take(n + 1)).last() == d@);
        let ghost before = rule_views(r@);
        match Rule::from_document(d) {
            Ok(rule) => {
                r.push(rule);
            },
            Err(_) => {},
        }
        n = n + 1;
        assert(rest@ =~= all.skip(n as int));
        assert(rule_views(r@) =~= valid_rules(document_views(all.take(n as int))));
    }
    assert(all.take(n as int) =~= all);
    r
}

} // verus!
