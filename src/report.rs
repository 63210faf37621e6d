use vstd::prelude::*;
use crate::matcher::Finding;
use crate::rule::Severity;
use crate::text::same_text;

verus! {

/// Renders findings as a JSON document.
pub struct JsonReporter;

impl JsonReporter {
    pub fn new() -> Self {
        JsonReporter
    }
}

/// Renders findings as a SARIF 2.1.0 log.
pub struct SarifReporter;

impl SarifReporter {
    pub fn new() -> Self {
        SarifReporter
    }
}

pub open spec fn sarif_level(s: Severity) -> Seq<char> {
    match s {
        Severity::Critical | Severity::High => "error"@,
        Severity::Medium => "warning"@,
        Severity::Low | Severity::Info => "note"@,
    }
}

/// The SARIF result level of a severity.
pub fn severity_to_sarif_level(severity: &Severity) -> (r: &'static str)
    ensures
        r@ == sarif_level(*severity),
{
    match severity {
        Severity::Critical | Severity::High => "error",
        Severity::Medium => "warning",
        Severity::Low | Severity::Info => "note",
    }
}

/// Whether some finding before position `i` has the rule id of finding `i`.
pub open spec fn seen_before(findings: Seq<Finding>, i: int) -> bool {
    exists|j: int| 0 <= j < i && findings[j].rule_id@ == findings[i].rule_id@
}

/// The positions of the first finding of each rule id, in increasing order: one
/// SARIF rule entry is written for each.
pub fn first_finding_per_rule(findings: &Vec<Finding>) -> (r: Vec<usize>)
    ensures
        forall|k: int| 0 <= k < r@.len() ==> r@[k] < findings@.len() && !seen_before(findings@, r@[k] as int),
        forall|i: int| 0 <= i < findings@.len() && !seen_before(findings@, i) ==> r@.contains(i as usize),
        forall|a: int, b: int| 0 <= a < b < r@.len() ==> r@[a] < r@[b],
{
    let mut r: Vec<usize> = Vec::new();
    let mut i: usize = 0;
    while i < findings.len()
        invariant
            i <= findings.len(),
            forall|k: int| 0 <= k < r@.len() ==> r@[k] < i && !seen_before(findings@, r@[k] as int),
            forall|t: int| 0 <= t < i && !seen_before(findings@, t) ==> r@.contains(t as usize),
            forall|a: int, b: int| 0 <= a < b < r@.len() ==> r@[a] < r@[b],
        decreases findings.len() - i,
    {
        let mut seen = false;
        let mut j: usize = 0;
        while j < i
            invariant
                j <= i < findings.len(),
                seen == exists|t: int| 0 <= t < j && findings@[t].rule_id@ == findings@[i as int].rule_id@,
            decreases i - j,
        {
            if same_text(findings[j].rule_id.as_str(), findings[i].rule_id.as_str()) {
                seen = true;
            }
            j = j + 1;
        }
        let ghost old_r = r@;
        if !seen {
            r.push(i);
            assert forall|t: int| 0 <= t < i + 1 && !seen_before(findings@, t) implies r@.contains(t as usize) by {
                if t < i {
                    assert(old_r.contains(t as usize));
                    let w = choose|w: int| 0 <= w < old_r.len() && old_r[w] == t as usize;
                    assert(r@[w] == t as usize);
                } else {
                    assert(r@[old_r.len() as int] == i);
                }
            }
        }
        i = i + 1;
    }
    r
}

} // verus!
