use mycop::backend::RuleBasedBackend;
use mycop::language::Language;
use mycop::matcher::Finding;
use mycop::prompt::{explain_prompt, fix_file_prompt, fix_prompt, review_prompt};
use mycop::protocol::{default_dot, ScanParams};
use mycop::report::{first_finding_per_rule, severity_to_sarif_level};
use mycop::rule::{PatternDocument, PatternType, Rule, RuleDocument, RuleError, Severity};
use mycop::text::decimal_text;

fn document(severity: &str, kind: &str, language: &str) -> RuleDocument {
    RuleDocument {
        id: "X-1".to_string(),
        name: "x".to_string(),
        severity: severity.to_string(),
        language: language.to_string(),
        cwe: None,
        owasp: None,
        description: "d".to_string(),
        pattern: PatternDocument { kind: kind.to_string(), query: None, regex: vec!["a".to_string()] },
        message: "m".to_string(),
        fix_hint: None,
        references: vec![],
    }
}

fn finding(rule_id: &str, rule_name: &str, line: usize) -> Finding {
    Finding {
        rule_id: rule_id.to_string(),
        rule_name: rule_name.to_string(),
        severity: Severity::High,
        file: "src/app.py".to_string(),
        line,
        column: 1,
        matched_text: "eval(".to_string(),
        context_before: vec![],
        context_after: vec![],
        message: "Use of eval".to_string(),
        fix_hint: Some("Use ast.literal_eval".to_string()),
        cwe: Some("CWE-95".to_string()),
        owasp: Some("A03:2021".to_string()),
        description: "Eval is dangerous.".to_string(),
        references: vec!["https://a".to_string(), "https://b".to_string()],
    }
}

#[test]
fn documents_are_checked_against_their_vocabularies() {
    let ok = Rule::from_document(document("high", "regex", "python")).unwrap();
    assert_eq!(ok.severity, Severity::High);
    assert_eq!(ok.pattern.pattern_type, PatternType::Regex);
    assert_eq!(ok.id, "X-1");
    assert_eq!(Rule::from_document(document("urgent", "regex", "python")).unwrap_err(), RuleError::UnknownSeverity);
    assert_eq!(Rule::from_document(document("low", "glob", "python")).unwrap_err(), RuleError::UnknownPatternType);
    assert_eq!(Rule::from_document(document("low", "ast", "cobol")).unwrap_err(), RuleError::UnknownLanguage);
    assert_eq!(Rule::from_document(document("HIGH", "ast", "python")).unwrap_err(), RuleError::UnknownSeverity);
}

#[test]
fn severity_words_labels_and_levels() {
    assert_eq!(Severity::from_word("critical"), Some(Severity::Critical));
    assert_eq!(Severity::from_word("info"), Some(Severity::Info));
    assert_eq!(Severity::from_word("Critical"), None);
    assert_eq!(Severity::Medium.label(), "MEDIUM");
    assert_eq!(Severity::Critical.ordinal(), 4);
    assert_eq!(Severity::Info.ordinal(), 0);
    assert_eq!(severity_to_sarif_level(&Severity::High), "error");
    assert_eq!(severity_to_sarif_level(&Severity::Medium), "warning");
    assert_eq!(severity_to_sarif_level(&Severity::Info), "note");
}

#[test]
fn language_names_and_rule_sets() {
    assert_eq!(Language::TypeScript.name(), "typescript");
    assert_eq!(Language::TypeScript.rule_dir(), "javascript");
    assert_eq!(Language::Python.rule_dir(), "python");
    assert_eq!(Language::from_extension("dir/x.mjs"), Some(Language::JavaScript));
    assert_eq!(Language::from_extension("x.pyw"), Some(Language::Python));
    assert_eq!(Language::from_extension("Makefile"), None);
    assert_eq!(Language::from_extension_text("cts"), Some(Language::TypeScript));
}

#[test]
fn unique_rules_for_sarif() {
    let fs = vec![finding("A", "a", 1), finding("B", "b", 2), finding("A", "a", 3), finding("C", "c", 4)];
    assert_eq!(first_finding_per_rule(&fs), vec![0, 1, 3]);
    assert!(first_finding_per_rule(&vec![]).is_empty());
}

#[test]
fn requested_paths() {
    let mut p = ScanParams { path: None, paths: None, severity: None, diff: None, max_results: None };
    assert_eq!(p.resolved_paths(), vec![".".to_string()]);
    p.paths = Some(vec![]);
    assert_eq!(p.resolved_paths(), vec![".".to_string()]);
    p.paths = Some(vec!["a".to_string(), "b".to_string()]);
    assert_eq!(p.resolved_paths(), vec!["a".to_string(), "b".to_string()]);
    p.path = Some("one".to_string());
    assert_eq!(p.resolved_paths(), vec!["one".to_string()]);
    assert_eq!(default_dot(), ".");
}

#[test]
fn offline_backend_answers() {
    let b = RuleBasedBackend::new();
    let f = finding("PY-SEC-005", "eval-exec", 7);
    assert_eq!(
        b.explain(&f, "").unwrap(),
        "Eval is dangerous.\n\nCWE: CWE-95\nOWASP: A03:2021\n\nReferences:\n  - https://a\n  - https://b"
    );
    assert_eq!(b.suggest_fix(&f, "").unwrap(), "Suggested fix:\nUse ast.literal_eval");
    let mut g = finding("R", "name", 1);
    g.fix_hint = None;
    g.cwe = None;
    g.owasp = None;
    g.references = vec![];
    assert_eq!(b.explain(&g, "").unwrap(), "Eval is dangerous.");
    assert!(b.suggest_fix(&g, "").unwrap().starts_with("No specific fix suggestion available for name."));
    assert!(b.deep_review("", "python").unwrap().starts_with("Deep review requires"));
    assert!(b.fix_file("a.py", "python", "", &vec![]).is_err());
}

#[test]
fn prompts_carry_the_finding() {
    let f = finding("PY-SEC-005", "eval-exec", 1207);
    let e = explain_prompt(&f, "x = eval(y)");
    assert!(e.starts_with("You are a security expert. Explain this vulnerability in plain English.\n\nVulnerability: eval-exec (Eval is dangerous.)\nSeverity: HIGH\nCWE: CWE-95\nFile: src/app.py:1207\n\nCode:\n```\nx = eval(y)\n```\n\nMatched pattern: eval("));
    let fx = fix_prompt(&f, "x = eval(y)");
    assert!(fx.contains("Matched pattern: eval(\n\nHint: Use ast.literal_eval\n\nProvide:"));
    let g = finding("R", "a-b-c", 3);
    let ff = fix_file_prompt("a.py", "python", "body", &vec![&f, &g]);
    assert!(ff.contains("VULNERABILITIES TO FIX:\n1. Line 1207: eval exec (CWE-95) -- Use of eval\n   Hint: Use ast.literal_eval\n2. Line 3: a b c (CWE-95) -- Use of eval\n"));
    assert!(ff.contains("<FILE>\nbody\n</FILE>"));
    let r = review_prompt("code", "python");
    assert!(r.contains("Language: python\n"));
    assert!(r.contains("```python\ncode\n```"));
}

#[test]
fn decimal_numbers() {
    assert_eq!(decimal_text(0), "0");
    assert_eq!(decimal_text(7), "7");
    assert_eq!(decimal_text(10), "10");
    assert_eq!(decimal_text(90210), "90210");
    assert_eq!(decimal_text(usize::MAX), usize::MAX.to_string());
}
