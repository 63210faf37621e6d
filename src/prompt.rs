use vstd::prelude::*;
use crate::matcher::Finding;
use crate::text::{decimal, decimal_text, dashes_to_spaces, or_na, replace_dashes, text_or_na};

verus! {

/// The part shared by the explain and fix prompts, from "Vulnerability:" to the
/// file location.
pub open spec fn finding_header(f: Finding) -> Seq<char> {
    "\n\nVulnerability: "@ + f.rule_name@ + " ("@ + f.description@ + ")\nSeverity: "@
        + f.severity.spec_label() + "\nCWE: "@ + or_na(f.cwe) + "\nFile: "@ + f.file@ + ":"@
        + decimal(f.line as nat)
}

/// Appends the finding's header lines.
fn push_header(s: &mut String, f: &Finding)
    ensures
        final(s)@ == old(s)@ + finding_header(*f),
{
    s.append("\n\nVulnerability: ");
    s.append(f.rule_name.as_str());
    s.append(" (");
    s.append(f.description.as_str());
    s.append(")\nSeverity: ");
    s.append(f.severity.label());
    s.append("\nCWE: ");
    s.append(text_or_na(&f.cwe));
    s.append("\nFile: ");
    s.append(f.file.as_str());
    s.append(":");
    let line = decimal_text(f.line);
    s.append(line.as_str());
    assert(s@ =~= old(s)@ + finding_header(*f));
}

/// The text of the explain request.
pub open spec fn explain_text(f: Finding, code: Seq<char>) -> Seq<char> {
    "You are a security expert. Explain this vulnerability in plain English."@ + finding_header(f)
        + "\n\nCode:\n```\n"@ + code + "\n```\n\nMatched pattern: "@ + f.matched_text@
        + "\n\nProvide:\n1. A clear explanation of why this is dangerous (2-3 sentences)\n2. A realistic attack scenario (1-2 sentences)\n3. The potential impact\n\nKeep your response concise and actionable. No markdown headers."@
}

/// The request that asks a model to explain a finding.
pub fn explain_prompt(finding: &Finding, code_context: &str) -> (r: String)
    ensures
        r@ == explain_text(*finding, code_context@),
{
    let mut s = String::from_str("You are a security expert. Explain this vulnerability in plain English.");
    push_header(&mut s, finding);
    s.append("\n\nCode:\n```\n");
    s.append(code_context);
    s.append("\n```\n\nMatched pattern: ");
    s.append(finding.matched_text.as_str());
    s.append(
        "\n\nProvide:\n1. A clear explanation of why this is dangerous (2-3 sentences)\n2. A realistic attack scenario (1-2 sentences)\n3. The potential impact\n\nKeep your response concise and actionable. No markdown headers.",
    );
    s
}

/// "\nHint: <hint>" when the finding has a fix hint, else nothing.
pub open spec fn hint_line(f: Finding) -> Seq<char> {
    match f.fix_hint {
        Some(h) => "\nHint: "@ + h@,
        None => seq![],
    }
}

/// The text of the fix request.
pub open spec fn fix_text(f: Finding, code: Seq<char>) -> Seq<char> {
    "You are a security expert. Fix this vulnerability."@ + finding_header(f)
        + "\n\nVulnerable code:\n```\n"@ + code + "\n```\n\nMatched pattern: "@ + f.matched_text@
        + "\n"@ + hint_line(f)
        + "\n\nProvide:\n1. A brief explanation of the fix (1-2 sentences)\n2. The corrected code (just the fixed version, ready to use)\n\nFormat the fixed code in a code block. Keep explanation minimal."@
}

/// The request that asks a model to fix a finding.
pub fn fix_prompt(finding: &Finding, code_context: &str) -> (r: String)
    ensures
        r@ == fix_text(*finding, code_context@),
{
    let mut s = String::from_str("You are a security expert. Fix this vulnerability.");
    push_header(&mut s, finding);
    s.append("\n\nVulnerable code:\n```\n");
    s.append(code_context);
    s.append("\n```\n\nMatched pattern: ");
    s.append(finding.matched_text.as_str());
    s.append("\n");
    let ghost before = s@;
    match &finding.fix_hint {
        Some(h) => {
            s.append("\nHint: ");
            s.append(h.as_str());
        },
        None => {},
    }
    assert(s@ =~= before + hint_line(*finding));
    s.append(
        "\n\nProvide:\n1. A brief explanation of the fix (1-2 sentences)\n2. The corrected code (just the fixed version, ready to use)\n\nFormat the fixed code in a code block. Keep explanation minimal.",
    );
    s
}

/// One numbered entry of the list of findings to fix (`n` counts from 1).
pub open spec fn vuln_entry(n: nat, f: Finding) -> Seq<char> {
    decimal(n) + ". Line "@ + decimal(f.line as nat) + ": "@ + dashes_to_spaces(f.rule_name@) + " ("@
        + or_na(f.cwe) + ") -- "@ + f.message@ + "\n"@ + match f.fix_hint {
        Some(h) => "   Hint: "@ + h@ + "\n"@,
        None => seq![],
    }
}

/// The numbered list of the first `k` findings.
pub open spec fn vuln_list(fs: Seq<&Finding>, k: nat) -> Seq<char>
    decreases k,
{
    if k == 0 {
        seq![]
    } else {
        vuln_list(fs, (k - 1) as nat) + vuln_entry(k, *fs[k - 1])
    }
}

/// Appends the numbered entry of one finding.
fn push_entry(s: &mut String, n: usize, f: &Finding)
    ensures
        final(s)@ == old(s)@ + vuln_entry(n as nat, *f),
{
    let number = decimal_text(n);
    s.append(number.as_str());
    s.append(". Line ");
    let line = decimal_text(f.line);
    s.append(line.as_str());
    s.append(": ");
    let name = replace_dashes(f.rule_name.as_str());
    s.append(name.as_str());
    s.append(" (");
    s.append(text_or_na(&f.cwe));
    s.append(") -- ");
    s.append(f.message.as_str());
    s.append("\n");
    let ghost before = s@;
    match &f.fix_hint {
        Some(h) => {
            s.append("   Hint: ");
            s.append(h.as_str());
            s.append("\n");
        },
        None => {},
    }
    assert(s@ =~= old(s)@ + vuln_entry(n as nat, *f));
}

/// The text of the whole-file fix request.
pub open spec fn fix_file_text(path: Seq<char>, language: Seq<char>, content: Seq<char>, fs: Seq<&Finding>) -> Seq<char> {
    "You are a security engineer. Fix ALL the security vulnerabilities listed below in this file.\n\nRULES:\n- Return ONLY the complete fixed file content between <FIXED_FILE> and </FIXED_FILE> tags.\n- Do NOT add explanatory comments about your changes.\n- Do NOT remove or change any existing functionality.\n- Preserve the original formatting, indentation, and code style.\n- Fix ONLY the listed vulnerabilities, nothing else.\n\nFile: "@
        + path + "\nLanguage: "@ + language + "\n\nVULNERABILITIES TO FIX:\n"@ + vuln_list(fs, fs.len())
        + "\nFULL FILE CONTENT:\n<FILE>\n"@ + content
        + "\n</FILE>\n\nReturn the complete fixed file between <FIXED_FILE> and </FIXED_FILE> tags. Nothing else."@
}

/// The request that asks a model to return a whole file with all its findings fixed.
pub fn fix_file_prompt(file_path: &str, language: &str, file_content: &str, findings: &Vec<&Finding>) -> (r: String)
    ensures
        r@ == fix_file_text(file_path@, language@, file_content@, findings@),
{
    let mut s = String::from_str(
        "You are a security engineer. Fix ALL the security vulnerabilities listed below in this file.\n\nRULES:\n- Return ONLY the complete fixed file content between <FIXED_FILE> and </FIXED_FILE> tags.\n- Do NOT add explanatory comments about your changes.\n- Do NOT remove or change any existing functionality.\n- Preserve the original formatting, indentation, and code style.\n- Fix ONLY the listed vulnerabilities, nothing else.\n\nFile: ",
    );
    s.append(file_path);
    s.append("\nLanguage: ");
    s.append(language);
    s.append("\n\nVULNERABILITIES TO FIX:\n");
    let ghost head = s@;
    let mut i: usize = 0;
    while i < findings.len()
        invariant
            i <= findings.len(),
            s@ == head + vuln_list(findings@, i as nat),
        decreases findings.len() - i,
    {
        let f = findings[i];
        let ghost before = s@;
        push_entry(&mut s, i + 1, f);
        assert(vuln_list(findings@, (i + 1) as nat) == vuln_list(findings@, i as nat) + vuln_entry((i + 1) as nat, *f));
        i = i + 1;
    }
    s.append("\nFULL FILE CONTENT:\n<FILE>\n");
    s.append(file_content);
    s.append(
        "\n</FILE>\n\nReturn the complete fixed file between <FIXED_FILE> and </FIXED_FILE> tags. Nothing else.",
    );
    s
}

/// The text of the review request.
pub open spec fn review_text(content: Seq<char>, language: Seq<char>) -> Seq<char> {
    "You are a senior security engineer performing a deep security code review.\n\nLanguage: "@ + language
        + "\n\nReview this code for security vulnerabilities, focusing on:\n1. Authentication and authorization issues\n2. Input validation and sanitization\n3. Injection vulnerabilities (SQL, command, XSS, etc.)\n4. Sensitive data exposure (hardcoded secrets, logging PII)\n5. Race conditions and TOCTOU issues\n6. Insecure cryptographic practices\n7. Path traversal and file access issues\n8. Deserialization vulnerabilities\n9. Logic flaws that could be exploited\n10. Missing security headers or configurations\n\nCode:\n```"@
        + language + "\n"@ + content
        + "\n```\n\nFor each issue found, provide:\n- Line number(s)\n- Severity (CRITICAL/HIGH/MEDIUM/LOW)\n- Description of the vulnerability\n- How it could be exploited\n- Recommended fix\n\nIf no significant issues are found, say so clearly."@
}

/// The request that asks a model for a deep security review of a file.
pub fn review_prompt(file_content: &str, language: &str) -> (r: String)
    ensures
        r@ == review_text(file_content@, language@),
{
    let mut s = String::from_str(
        "You are a senior security engineer performing a deep security code review.\n\nLanguage: ",
    );
    s.append(language);
    s.append(
        "\n\nReview this code for security vulnerabilities, focusing on:\n1. Authentication and authorization issues\n2. Input validation and sanitization\n3. Injection vulnerabilities (SQL, command, XSS, etc.)\n4. Sensitive data exposure (hardcoded secrets, logging PII)\n5. Race conditions and TOCTOU issues\n6. Insecure cryptographic practices\n7. Path traversal and file access issues\n8. Deserialization vulnerabilities\n9. Logic flaws that could be exploited\n10. Missing security headers or configurations\n\nCode:\n```",
    );
    s.append(language);
    s.append("\n");
    s.append(file_content);
    s.append(
        "\n```\n\nFor each issue found, provide:\n- Line number(s)\n- Severity (CRITICAL/HIGH/MEDIUM/LOW)\n- Description of the vulnerability\n- How it could be exploited\n- Recommended fix\n\nIf no significant issues are found, say so clearly.",
    );
    s
}

} // verus!
