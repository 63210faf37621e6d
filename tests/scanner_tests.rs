use mycop::engine::{scan_sources, SourceFile};
use mycop::language::Language;
use mycop::matcher::{get_context_lines, match_rule, Finding};
use mycop::registry::RuleRegistry;
use mycop::rule::{Pattern, PatternType, Rule, Severity};

const VULNERABLE_PY: &str = "import os\nimport sqlite3\n\nPASSWORD = \"hunter2secret\"\n\ndef find_user(cursor, user_id):\n    cursor.execute(\"SELECT * FROM users WHERE id=\" + user_id)\n    return cursor.fetchone()\n\ndef run(cmd):\n    os.system(cmd)\n\ndef calc(expr):\n    return eval(expr)\n";

const SAFE_PY: &str = "import subprocess\n\ndef find_user(cursor, user_id):\n    cursor.execute(\"SELECT * FROM users WHERE id = %s\", (user_id,))\n    return cursor.fetchone()\n\ndef run(args):\n    subprocess.run(args, check=True)\n";

const VULNERABLE_JS: &str = "function show(userInput) {\n  const element = document.getElementById('out');\n  element.innerHTML = userInput;\n}\n\nfunction calc(expr) {\n  return eval(expr);\n}\n";

fn scan(path: &str, content: &str) -> Vec<Finding> {
    let registry = RuleRegistry::load_embedded();
    let files = vec![SourceFile { path: path.to_string(), content: content.to_string() }];
    scan_sources(&files, &registry, None)
}

fn rule(id: &str, kind: PatternType, query: Option<&str>, regex: &[&str], severity: Severity) -> Rule {
    Rule {
        id: id.to_string(),
        name: format!("{}-name", id),
        severity,
        language: "python".to_string(),
        cwe: Some("CWE-1".to_string()),
        owasp: None,
        description: "desc".to_string(),
        pattern: Pattern {
            pattern_type: kind,
            query: query.map(|q| q.to_string()),
            regex: regex.iter().map(|r| r.to_string()).collect(),
        },
        message: "msg".to_string(),
        fix_hint: None,
        references: vec![],
    }
}

#[test]
fn test_python_vulnerable_file_has_findings() {
    let findings = scan("vulnerable.py", VULNERABLE_PY);
    assert!(!findings.is_empty(), "Expected findings in vulnerable.py but found none");
    assert!(findings.iter().any(|f| f.rule_id.contains("SEC-001")), "Expected SQL injection findings");
    assert!(findings.iter().any(|f| f.rule_id.contains("SEC-002")), "Expected OS command injection findings");
    assert!(findings.iter().any(|f| f.rule_id.contains("SEC-003")), "Expected hardcoded secret findings");
    assert!(findings.iter().any(|f| f.rule_id.contains("SEC-005")), "Expected eval/exec findings");
}

#[test]
fn test_python_safe_file_has_fewer_findings() {
    let vuln_findings = scan("vulnerable.py", VULNERABLE_PY);
    let safe_findings = scan("safe.py", SAFE_PY);
    assert!(
        safe_findings.len() < vuln_findings.len(),
        "Safe file should have fewer findings ({}) than vulnerable file ({})",
        safe_findings.len(),
        vuln_findings.len()
    );
}

#[test]
fn test_javascript_vulnerable_file_has_findings() {
    let findings = scan("vulnerable.js", VULNERABLE_JS);
    assert!(!findings.is_empty(), "Expected findings in vulnerable.js but found none");
    assert!(
        findings.iter().any(|f| f.rule_name.contains("xss") || f.rule_name.contains("innerhtml")),
        "Expected XSS findings"
    );
    assert!(findings.iter().any(|f| f.rule_name.contains("eval")), "Expected eval injection findings");
}

#[test]
fn test_rule_loading() {
    let registry = RuleRegistry::load_embedded();
    assert!(registry.rule_count() >= 20, "Expected at least 20 rules, got {}", registry.rule_count());
}

#[test]
fn test_language_detection() {
    assert_eq!(Language::from_extension("test.py"), Some(Language::Python));
    assert_eq!(Language::from_extension("test.js"), Some(Language::JavaScript));
    assert_eq!(Language::from_extension("test.ts"), Some(Language::TypeScript));
    assert_eq!(Language::from_extension("test.tsx"), Some(Language::TypeScript));
    assert_eq!(Language::from_extension("test.rs"), None);
    assert_eq!(Language::from_extension("test.txt"), None);
}

#[test]
fn test_severity_ordering() {
    assert!(Severity::Critical.ordinal() > Severity::High.ordinal());
    assert!(Severity::High.ordinal() > Severity::Medium.ordinal());
    assert!(Severity::Medium.ordinal() > Severity::Low.ordinal());
    assert!(Severity::Low.ordinal() > Severity::Info.ordinal());
}

#[test]
fn test_findings_sorted_by_severity() {
    let findings = scan("vulnerable.py", VULNERABLE_PY);
    for window in findings.windows(2) {
        assert!(
            window[0].severity.ordinal() >= window[1].severity.ordinal() || window[0].file != window[1].file,
            "Findings should be sorted by severity"
        );
    }
}

#[test]
fn sql_injection_statement_is_flagged_on_its_line() {
    let content = "cursor.execute(\"SELECT * FROM x WHERE id=\" + user_id)";
    let findings = scan("app.py", content);
    let sql: Vec<&Finding> = findings.iter().filter(|f| f.rule_name.contains("sql")).collect();
    assert!(!sql.is_empty());
    assert!(sql.iter().all(|f| f.line == 1));
}

#[test]
fn inner_html_assignment_is_flagged() {
    let findings = scan("page.js", "element.innerHTML = userInput;");
    assert!(findings.iter().any(|f| f.rule_name.contains("innerhtml")));
    let ts = scan("page.ts", "element.innerHTML = userInput;");
    assert!(ts.iter().any(|f| f.rule_name.contains("innerhtml")));
}

#[test]
fn invalid_query_falls_back_to_regex() {
    for query in ["", "(((", "bogus: (identifier)", "(bogus) @x"] {
        let r = rule("T-1", PatternType::Ast, Some(query), &[r"eval\("], Severity::High);
        let findings = match_rule(&r, "x = 1\ny = eval(z)\n", "a.py", &Language::Python);
        assert_eq!(findings.len(), 1);
        assert_eq!(findings[0].line, 2);
        assert_eq!(findings[0].column, 5);
        assert_eq!(findings[0].matched_text, "eval(");
    }
}

#[test]
fn structural_and_regex_rules_both_report_a_shared_line() {
    let ast = rule("T-AST", PatternType::Ast, Some("(call function: (identifier) @f)"), &[], Severity::High);
    let re = rule("T-RE", PatternType::Regex, None, &[r"eval"], Severity::Low);
    let content = "eval(data)\n";
    let a = match_rule(&ast, content, "a.py", &Language::Python);
    let b = match_rule(&re, content, "a.py", &Language::Python);
    assert_eq!(a.len(), 1);
    assert_eq!(a[0].line, 1);
    assert_eq!(a[0].column, 1);
    assert_eq!(a[0].matched_text, "eval");
    assert_eq!(b.len(), 1);
    assert_eq!(b[0].line, 1);
}

#[test]
fn context_is_cut_at_file_edges() {
    let r = rule("T-2", PatternType::Regex, None, &["HIT"], Severity::Medium);
    let first = match_rule(&r, "HIT\nb\nc\nd", "a.py", &Language::Python);
    assert!(first[0].context_before.is_empty());
    assert_eq!(first[0].context_after, vec!["b".to_string(), "c".to_string()]);
    let last = match_rule(&r, "a\nb\nc\nHIT", "a.py", &Language::Python);
    assert!(last[0].context_after.is_empty());
    assert_eq!(last[0].context_before, vec!["b".to_string(), "c".to_string()]);
}

#[test]
fn one_finding_per_rule_and_line() {
    let r = rule("T-3", PatternType::Regex, None, &["a", "b", "ab"], Severity::Low);
    let findings = match_rule(&r, "ab\nb\nxyz\n", "a.py", &Language::Python);
    let lines: Vec<usize> = findings.iter().map(|f| f.line).collect();
    assert_eq!(lines, vec![1, 2]);
    assert_eq!(findings[0].matched_text, "a");
}

#[test]
fn bad_regex_is_skipped_alone() {
    let r = rule("T-4", PatternType::Regex, None, &["(unclosed", "ok"], Severity::Low);
    let findings = match_rule(&r, "fine\nok here\n", "a.py", &Language::Python);
    assert_eq!(findings.len(), 1);
    assert_eq!(findings[0].line, 2);
    assert_eq!(findings[0].column, 1);
}

#[test]
fn matching_twice_gives_the_same_findings() {
    let registry = RuleRegistry::load_embedded();
    for r in registry.rules_for_language(&Language::Python) {
        let a = match_rule(r, VULNERABLE_PY, "v.py", &Language::Python);
        let b = match_rule(r, VULNERABLE_PY, "v.py", &Language::Python);
        let ka: Vec<(usize, usize, String)> = a.iter().map(|f| (f.line, f.column, f.matched_text.clone())).collect();
        let kb: Vec<(usize, usize, String)> = b.iter().map(|f| (f.line, f.column, f.matched_text.clone())).collect();
        assert_eq!(ka, kb);
    }
}

#[test]
fn findings_are_ordered_by_severity_across_files() {
    let registry = RuleRegistry::load_embedded();
    let files = vec![
        SourceFile { path: "a.py".to_string(), content: VULNERABLE_PY.to_string() },
        SourceFile { path: "b.js".to_string(), content: VULNERABLE_JS.to_string() },
        SourceFile { path: "notes.txt".to_string(), content: "eval(x)".to_string() },
    ];
    let findings = scan_sources(&files, &registry, None);
    assert!(!findings.is_empty());
    for w in findings.windows(2) {
        assert!(w[0].severity.ordinal() >= w[1].severity.ordinal());
    }
    assert!(findings.iter().all(|f| f.file != "notes.txt"));
    let high = scan_sources(&files, &registry, Some(Severity::Critical));
    assert!(!high.is_empty());
    assert!(high.iter().all(|f| f.severity == Severity::Critical));
}

#[test]
fn empty_sources_give_an_empty_registry() {
    let registry = RuleRegistry::from_sources(vec![]);
    assert_eq!(registry.rule_count(), 0);
    assert!(registry.languages().is_empty());
    assert_eq!(RuleRegistry::new().rule_count(), 0);
}

#[test]
fn embedded_rules_exist() {
    let registry = RuleRegistry::load_embedded();
    assert!(registry.rule_count() >= 1);
    assert_eq!(registry.languages(), vec!["python", "javascript"]);
    assert_eq!(registry.all_rules().len(), registry.rule_count());
    assert_eq!(
        registry.rules_for_language(&Language::TypeScript).len(),
        registry.rules_for_language(&Language::JavaScript).len()
    );
    let critical = registry.rules_with_min_severity(&Language::Python, &Severity::Critical);
    assert!(critical.iter().all(|r| r.severity == Severity::Critical));
    assert_eq!(critical.len(), 3);
}

#[test]
fn merge_appends_per_language() {
    let mut registry = RuleRegistry::load_embedded();
    let before = registry.rule_count();
    let mut extra = RuleRegistry::new();
    extra.add_rules("python", vec![rule("PY-SEC-001", PatternType::Regex, None, &["x"], Severity::Low)]);
    extra.add_rules("go", vec![rule("GO-1", PatternType::Regex, None, &["x"], Severity::Low)]);
    registry.merge(extra);
    assert_eq!(registry.rule_count(), before + 2);
    assert_eq!(registry.languages(), vec!["python", "javascript", "go"]);
    let py = registry.rules_for_language(&Language::Python);
    assert_eq!(py.last().unwrap().severity, Severity::Low);
    assert_eq!(py.iter().filter(|r| r.id == "PY-SEC-001").count(), 2);
}

#[test]
fn context_lines_are_clamped() {
    let lines: Vec<String> = ["a", "b", "c", "d", "e"].iter().map(|s| s.to_string()).collect();
    assert_eq!(get_context_lines(&lines, 2, 2, true), vec!["a".to_string(), "b".to_string()]);
    assert_eq!(get_context_lines(&lines, 2, 2, false), vec!["d".to_string(), "e".to_string()]);
    assert_eq!(get_context_lines(&lines, 1, 2, true), vec!["a".to_string()]);
    assert!(get_context_lines(&lines, 4, 2, false).is_empty());
    assert!(get_context_lines(&lines, 9, 2, false).is_empty());
}

#[test]
fn crlf_lines_and_columns() {
    let r = rule("T-5", PatternType::Regex, None, &["tok"], Severity::Info);
    let findings = match_rule(&r, "a\r\n  tok\r\n", "a.py", &Language::Python);
    assert_eq!(findings.len(), 1);
    assert_eq!(findings[0].line, 2);
    assert_eq!(findings[0].column, 3);
    assert_eq!(findings[0].context_before, vec!["a".to_string()]);
    assert_eq!(findings[0].rule_id, "T-5");
    assert_eq!(findings[0].cwe, Some("CWE-1".to_string()));
}

#[test]
fn matches_without_capture_report_nothing() {
    let r = rule("T-6", PatternType::Ast, Some("(call)"), &[], Severity::High);
    assert!(match_rule(&r, "eval(data)\n", "a.py", &Language::Python).is_empty());
    let c = rule("T-7", PatternType::Ast, Some("(call) @c"), &[], Severity::High);
    let found = match_rule(&c, "x = 1\neval(data)\n", "a.py", &Language::Python);
    assert_eq!(found.len(), 1);
    assert_eq!(found[0].line, 2);
    assert_eq!(found[0].matched_text, "eval(data)");
}

#[test]
fn embedded_languages_are_distinct() {
    let registry = RuleRegistry::load_embedded();
    assert_eq!(registry.rule_count(), 20);
    let langs = registry.languages();
    assert_eq!(langs.len(), 2);
    assert_ne!(langs[0], langs[1]);
}
