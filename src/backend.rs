use vstd::prelude::*;
use crate::matcher::Finding;
use crate::text::views_of;

verus! {

/// The offline assistant: answers from the rule's own text, with no model behind it.
pub struct RuleBasedBackend;

/// Each reference on a line of its own, as a list item.
pub open spec fn reference_lines(refs: Seq<Seq<char>>) -> Seq<char>
    decreases refs.len(),
{
    if refs.len() == 0 {
        seq![]
    } else {
        reference_lines(refs.drop_last()) + "\n  - "@ + refs.last()
    }
}

/// The offline explanation of a finding: its description, then its CWE, OWASP
/// category and references where it has them.
pub open spec fn offline_explanation(f: Finding) -> Seq<char> {
    let cwe = match f.cwe {
        Some(c) => "\n\nCWE: "@ + c@,
        None => seq![],
    };
    let owasp = match f.owasp {
        Some(o) => "\nOWASP: "@ + o@,
        None => seq![],
    };
    let refs = if f.references@.len() > 0 {
        "\n\nReferences:"@ + reference_lines(views_of(f.references@))
    } else {
        seq![]
    };
    f.description@ + cwe + owasp + refs
}

/// The offline fix suggestion: the rule's hint, or a note that there is none.
pub open spec fn offline_fix(f: Finding) -> Seq<char> {
    match f.fix_hint {
        Some(h) => "Suggested fix:\n"@ + h@,
        None => "No specific fix suggestion available for "@ + f.rule_name@
            + ". Please review the vulnerability description and apply appropriate security measures."@,
    }
}

impl RuleBasedBackend {
    pub fn new() -> Self {
        RuleBasedBackend
    }

    /// Explains a finding from its rule's description, CWE, OWASP category and references.
    pub fn explain(&self, finding: &Finding, code_context: &str) -> (r: Result<String, String>)
        ensures
            r matches Ok(s) && s@ == offline_explanation(*finding),
    {
        let mut s = finding.description.clone();
        let ghost d = s@;
        match &finding.cwe {
            Some(c) => {
                s.append("\n\nCWE: ");
                s.append(c.as_str());
            },
            None => {},
        }
        let ghost after_cwe = s@;
        match &finding.owasp {
            Some(o) => {
                s.append("\nOWASP: ");
                s.append(o.as_str());
            },
            None => {},
        }
        let ghost after_owasp = s@;
        if finding.references.len() > 0 {
            s.append("\n\nReferences:");
            let ghost head = s@;
            let ghost refs = views_of(finding.references@);
            let mut i: usize = 0;
            while i < finding.references.len()
                invariant
                    i <= finding.references.len(),
                    refs == views_of(finding.references@),
                    s@ == head + reference_lines(refs.take(i as int)),
                decreases finding.references.len() - i,
            {
                assert(refs.take(i + 1).drop_last() =~= refs.take(i as int));
                s.append("\n  - ");
                s.append(finding.references[i].as_str());
                i = i + 1;
            }
            assert(refs.take(finding.references.len() as int) =~= refs);
        }
        assert(s@ =~= offline_explanation(*finding));
        Ok(s)
    }

    /// Suggests a fix: the rule's hint when it has one.
    pub fn suggest_fix(&self, finding: &Finding, code_context: &str) -> (r: Result<String, String>)
        ensures
            r matches Ok(s) && s@ == offline_fix(*finding),
    {
        match &finding.fix_hint {
            Some(h) => {
                let mut s = String::from_str("Suggested fix:\n");
                s.append(h.as_str());
                Ok(s)
            },
            None => {
                let mut s = String::from_str("No specific fix suggestion available for ");
                s.append(finding.rule_name.as_str());
                s.append(
                    ". Please review the vulnerability description and apply appropriate security measures.",
                );
                Ok(s)
            },
        }
    }

    /// A deep review needs a model: the offline answer says so.
    pub fn deep_review(&self, file_content: &str, language: &str) -> (r: Result<String, String>)
        ensures
            r matches Ok(s) && s@ == "Deep review requires a model provider.\nRun with --ai-provider to specify a provider, or ensure one is available.\nWithout a provider, use `mycop scan` for rule-based vulnerability detection."@,
    {
        Ok(String::from_str("Deep review requires a model provider.\nRun with --ai-provider to specify a provider, or ensure one is available.\nWithout a provider, use `mycop scan` for rule-based vulnerability detection."))
    }

    /// Rewriting a file needs a model: the offline backend always refuses.
    pub fn fix_file(&self, file_path: &str, language: &str, file_content: &str, findings: &Vec<&Finding>) -> (r: Result<String, String>)
        ensures
            r matches Err(e) && e@ == "Auto-fix requires a model provider.\nSet the API key of a hosted provider, or start a local one."@,
    {
        Err(String::from_str("Auto-fix requires a model provider.\nSet the API key of a hosted provider, or start a local one."))
    }
}

} // verus!
