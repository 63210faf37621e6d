use vstd::prelude::*;
use crate::language::{language_of_path, Language};
use crate::matcher::{copy_finding, finding_views, findings_of, match_rule, Finding, FindingView};
use crate::registry::{at_least, derefs, rules_under, RegistryView, RuleRegistry};
use crate::rule::{RuleView, Severity};

verus! {

/// A file to scan: its path and its full text.
pub struct SourceFile {
    pub path: String,
    pub content: String,
}

/// Paths and texts of files, as mathematical values.
pub open spec fn file_views(v: Seq<SourceFile>) -> Seq<(Seq<char>, Seq<char>)> {
    v.map_values(|f: SourceFile| (f.path@, f.content@))
}

/// The rules that apply to a language, with the severity floor when there is one.
pub open spec fn applicable(reg: RegistryView, language: Language, min: Option<Severity>) -> Seq<RuleView> {
    match min {
        Some(m) => at_least(rules_under(reg, language.spec_rule_dir()), m),
        None => rules_under(reg, language.spec_rule_dir()),
    }
}

/// The findings of each rule in turn on one file.
pub open spec fn file_findings(rules: Seq<RuleView>, content: Seq<char>, path: Seq<char>, language: Language) -> Seq<FindingView>
    decreases rules.len(),
{
    if rules.len() == 0 {
        seq![]
    } else {
        file_findings(rules.drop_last(), content, path, language) + findings_of(rules.last(), content, path, language)
    }
}

/// The findings of every file in turn; a file of no known language gives none.
pub open spec fn collected(files: Seq<(Seq<char>, Seq<char>)>, reg: RegistryView, min: Option<Severity>) -> Seq<FindingView>
    decreases files.len(),
{
    if files.len() == 0 {
        seq![]
    } else {
        collected(files.drop_last(), reg, min) + match language_of_path(files.last().0) {
            Some(l) => file_findings(applicable(reg, l, min), files.last().1, files.last().0, l),
            None => seq![],
        }
    }
}

/// The findings of one severity ordinal, in order.
pub open spec fn with_ordinal(s: Seq<FindingView>, k: int) -> Seq<FindingView> {
    s.filter(|f: FindingView| f.severity.spec_ordinal() == k)
}

/// The findings of ordinal 4 down to `k`, each ordinal's in their original order.
pub open spec fn bands_from(s: Seq<FindingView>, k: int) -> Seq<FindingView>
    decreases 5 - k,
{
    if k >= 5 {
        seq![]
    } else {
        bands_from(s, k + 1) + with_ordinal(s, k)
    }
}

/// The stable sort of findings by severity ordinal, highest first.
pub open spec fn by_severity(s: Seq<FindingView>) -> Seq<FindingView> {
    bands_from(s, 0)
}

/// No finding ranks below a later one.
pub open spec fn severity_descending(s: Seq<FindingView>) -> bool {
    forall|i: int, j: int| 0 <= i < j < s.len() ==> s[i].severity.spec_ordinal() >= s[j].severity.spec_ordinal()
}

/// The bands from `k` up are in descending order, none below `k`.
proof fn lemma_bands_sorted(s: Seq<FindingView>, k: int)
    requires
        0 <= k <= 5,
    ensures
        severity_descending(bands_from(s, k)),
        forall|i: int| 0 <= i < bands_from(s, k).len() ==> bands_from(s, k)[i].severity.spec_ordinal() >= k,
    decreases 5 - k,
{
    if k < 5 {
        lemma_bands_sorted(s, k + 1);
        let a = bands_from(s, k + 1);
        let b = with_ordinal(s, k);
        broadcast use vstd::seq_lib::group_filter_ensures;
        assert(bands_from(s, k) == a + b);
        assert forall|i: int, j: int| 0 <= i < j < (a + b).len() implies (a + b)[i].severity.spec_ordinal()
            >= (a + b)[j].severity.spec_ordinal() by {
            if j < a.len() {
            } else if i < a.len() {
                assert((a + b)[j] == b[j - a.len()]);
            } else {
                assert((a + b)[i] == b[i - a.len()]);
                assert((a + b)[j] == b[j - a.len()]);
            }
        }
        assert forall|i: int| 0 <= i < (a + b).len() implies (a + b)[i].severity.spec_ordinal() >= k by {
            if i >= a.len() {
                assert((a + b)[i] == b[i - a.len()]);
            }
        }
    } else {
        assert(bands_from(s, k) =~= Seq::<FindingView>::empty());
    }
}

/// Sorted findings rank from highest severity to lowest: of any two adjacent
/// findings, the first has an ordinal at least the second's.
pub proof fn lemma_by_severity_descending(s: Seq<FindingView>)
    ensures
        forall|i: int| #![trigger by_severity(s)[i]] 0 <= i < by_severity(s).len() - 1 ==> by_severity(s)[i].severity.spec_ordinal()
            >= by_severity(s)[i + 1].severity.spec_ordinal(),
{
    lemma_bands_sorted(s, 0);
}

/// Findings ordered by severity ordinal, highest first; findings of equal
/// severity keep their order.
pub fn sort_by_severity(findings: &Vec<Finding>) -> (r: Vec<Finding>)
    ensures
        finding_views(r@) == by_severity(finding_views(findings@)),
{
    let ghost s = finding_views(findings@);
    let mut r: Vec<Finding> = Vec::new();
    let mut level: u8 = 5;
    assert(finding_views(r@) =~= bands_from(s, 5));
    while level > 0
        invariant
            level <= 5,
            s == finding_views(findings@),
            finding_views(r@) == bands_from(s, level as int),
        decreases level,
    {
        level = level - 1;
        let ghost base = finding_views(r@);
        let mut j: usize = 0;
        while j < findings.len()
            invariant
                j <= findings.len(),
                level < 5,
                s == finding_views(findings@),
                finding_views(r@) == base + with_ordinal(s.take(j as int), level as int),
            decreases findings.len() - j,
        {
            let ghost before = finding_views(r@);
            assert(s.take(j + 1).drop_last() =~= s.take(j as int));
            assert(s.take(j + 1).last() == findings@[j as int]@);
            reveal(Seq::filter);
            if findings[j].severity.ordinal() == level {
                let f = copy_finding(&findings[j]);
                r.push(f);
                assert(finding_views(r@) =~= before.push(f@));
                assert(with_ordinal(s.take(j + 1), level as int) == with_ordinal(s.take(j as int), level as int).push(f@));
                assert(base + with_ordinal(s.take(j as int), level as int).push(f@) =~= before.push(f@));
            } else {
                assert(with_ordinal(s.take(j + 1), level as int) == with_ordinal(s.take(j as int), level as int));
            }
            j = j + 1;
        }
        assert(s.take(findings.len() as int) =~= s);
    }
    r
}

/// The findings of one file: every applicable rule in registry order.
fn scan_file(file: &SourceFile, language: Language, registry: &RuleRegistry, min_severity: &Option<Severity>) -> (r: Vec<Finding>)
    requires
        registry.wf(),
    ensures
        finding_views(r@) == file_findings(applicable(registry@, language, *min_severity), file.content@, file.path@, language),
{
    let rules = match min_severity {
        Some(m) => registry.rules_with_min_severity(&language, m),
        None => registry.rules_for_language(&language),
    };
    let ghost rs = derefs(rules@);
    let mut out: Vec<Finding> = Vec::new();
    let mut i: usize = 0;
    while i < rules.len()
        invariant
            i <= rules.len(),
            rs == derefs(rules@),
            finding_views(out@) == file_findings(rs.take(i as int), file.content@, file.path@, language),
        decreases rules.len() - i,
    {
        let rule = rules[i];
        let mut more = match_rule(rule, file.content.as_str(), file.path.as_str(), &language);
        let ghost before = finding_views(out@);
        let ghost added = finding_views(more@);
        assert(rs.take(i + 1).drop_last() =~= rs.take(i as int));
        assert(rs.take(i + 1).last() == rule@);
        out.append(&mut more);
        assert(finding_views(out@) =~= before + added);
        i = i + 1;
    }
    assert(rs.take(rules.len() as int) =~= rs);
    out
}

/// The findings of every file in turn, unsorted.
fn collect_findings(files: &Vec<SourceFile>, registry: &RuleRegistry, min_severity: Option<Severity>) -> (r: Vec<Finding>)
    requires
        registry.wf(),
    ensures
        finding_views(r@) == collected(file_views(files@), registry@, min_severity),
{
    let ghost fs = file_views(files@);
    let mut all: Vec<Finding> = Vec::new();
    let mut i: usize = 0;
    while i < files.len()
        invariant
            i <= files.len(),
            registry.wf(),
            fs == file_views(files@),
            finding_views(all@) == collected(fs.take(i as int), registry@, min_severity),
        decreases files.len() - i,
    {
        let file = &files[i];
        let ghost before = finding_views(all@);
        assert(fs.take(i + 1).drop_last() =~= fs.take(i as int));
        assert(fs.take(i + 1).last() == (file.path@, file.content@));
        match Language::from_extension(file.path.as_str()) {
            Some(language) => {
                let mut more = scan_file(file, language, registry, &min_severity);
                let ghost added = finding_views(more@);
                all.append(&mut more);
                assert(finding_views(all@) =~= before + added);
            },
            None => {
                assert(before + Seq::<FindingView>::empty() =~= before);
            },
        }
        i = i + 1;
    }
    assert(fs.take(files.len() as int) =~= fs);
    all
}

/// Scans files with the rules of a registry: each file's language is found from
/// its path (files of no known language are skipped), every applicable rule is
/// matched in registry order, files in the given order, and all findings are then
/// sorted by severity, highest first, keeping that order within a severity.
pub fn scan_sources(files: &Vec<SourceFile>, registry: &RuleRegistry, min_severity: Option<Severity>) -> (r: Vec<Finding>)
    requires
        registry.wf(),
    ensures
        finding_views(r@) == by_severity(collected(file_views(files@), registry@, min_severity)),
        forall|i: int| #![trigger r@[i]] 0 <= i < r@.len() - 1 ==> r@[i].severity.spec_ordinal() >= r@[i + 1].severity.spec_ordinal(),
{
    let all = collect_findings(files, registry, min_severity);
    let r = sort_by_severity(&all);
    proof {
        lemma_by_severity_descending(finding_views(all@));
        assert forall|i: int| #![trigger r@[i]] 0 <= i < r@.len() - 1 implies r@[i].severity.spec_ordinal() >= r@[i + 1].severity.spec_ordinal() by {
            assert(finding_views(r@)[i] == r@[i]@);
            assert(finding_views(r@)[i + 1] == r@[i + 1]@);
        }
    }
    r
}

} // verus!
