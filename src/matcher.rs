use vstd::prelude::*;
use crate::language::Language;
use crate::rule::{PatternType, Rule, RuleView, Severity};
use streaming_iterator::StreamingIterator;
use crate::text::{copy_opt, copy_strings, lines_of, opt_view, split_lines, views_of};

verus! {

#[verifier::external_type_specification]
#[verifier::external_body]
pub struct ExRegex(regex::Regex);

#[verifier::external_type_specification]
#[verifier::external_body]
pub struct ExTree(tree_sitter::Tree);

/// Whether a regular expression compiles.
pub uninterp spec fn regex_compiles(pattern: Seq<char>) -> bool;

/// The leftmost-first match of a regular expression in a line: its start byte
/// offset and its text.
pub uninterp spec fn regex_first_match(pattern: Seq<char>, line: Seq<char>) -> Option<(nat, Seq<char>)>;

/// Whether a text parses with the grammar of a language.
pub uninterp spec fn source_parses(language: Language, content: Seq<char>) -> bool;

/// For a query run over the syntax tree of `content`, each match in order: the
/// row and column (0-based) where its first capture starts, and the text it
/// covers; `None` for a match without captures. `None` in all when the query
/// does not compile.
pub uninterp spec fn query_hits(language: Language, query: Seq<char>, content: Seq<char>) -> Option<Seq<Option<(nat, nat, Seq<char>)>>>;

/// Relies on regex::Regex::new: whether it fails depends on the pattern alone.
#[verifier::external_body]
fn regex_new(pattern: &str) -> (r: Option<regex::Regex>)
    ensures
        r.is_some() == regex_compiles(pattern@),
{
    regex::Regex::new(pattern).ok()
}

/// A compiled regular expression beside the text it was compiled from. The fields
/// are private and `compile` is the only constructor, so `re` is always `source`
/// compiled: `find_first` relies on that.
struct LinePattern {
    source: String,
    re: regex::Regex,
}

impl LinePattern {
    fn compile(pattern: &str) -> (r: Option<LinePattern>)
        ensures
            match r {
                Some(p) => regex_compiles(pattern@) && p.source@ == pattern@,
                None => !regex_compiles(pattern@),
            },
    {
        match regex_new(pattern) {
            Some(re) => Some(LinePattern { source: String::from_str(pattern), re }),
            None => None,
        }
    }

    /// Relies on regex::Regex::find, on the expression that `compile` built from
    /// `source`: the leftmost-first match as its start byte offset and its text.
    /// The offset lies inside a `str`, whose length std keeps below isize::MAX.
    #[verifier::external_body]
    fn find_first(&self, line: &str) -> (r: Option<(usize, String)>)
        ensures
            match r {
                Some(m) => regex_first_match(self.source@, line@) == Some((m.0 as nat, m.1@))
                    && m.0 < usize::MAX,
                None => regex_first_match(self.source@, line@).is_none(),
            },
    {
        self.re.find(line).map(|m| (m.start(), m.as_str().to_string()))
    }
}

/// Relies on tree_sitter::Parser::parse, with the grammar crate of each language;
/// whether it yields a tree depends on the language and the text alone.
#[verifier::external_body]
fn parse_source(language: Language, content: &str) -> (r: Option<tree_sitter::Tree>)
    ensures
        r.is_some() == source_parses(language, content@),
{
    let grammar: tree_sitter::Language = match language {
        Language::Python => tree_sitter_python::LANGUAGE.into(),
        Language::JavaScript => tree_sitter_javascript::LANGUAGE.into(),
        Language::TypeScript => tree_sitter_typescript::LANGUAGE_TYPESCRIPT.into(),
    };
    let mut parser = tree_sitter::Parser::new();
    parser.set_language(&grammar).ok()?;
    parser.parse(content, None)
}

/// The (row, column, text) triples of a list of query matches.
pub open spec fn hit_views(v: Seq<Option<(usize, usize, String)>>) -> Seq<Option<(nat, nat, Seq<char>)>> {
    v.map_values(
        |h: Option<(usize, usize, String)>|
            match h {
                Some(x) => Some((x.0 as nat, x.1 as nat, x.2@)),
                None => None,
            },
    )
}

/// A match's row and column leave room for one more.
pub open spec fn position_fits(h: Option<(usize, usize, String)>) -> bool {
    match h {
        Some(x) => x.0 < usize::MAX && x.1 < usize::MAX,
        None => true,
    }
}

/// The matches that have a capture, in order.
pub open spec fn captured(h: Seq<Option<(nat, nat, Seq<char>)>>) -> Seq<(nat, nat, Seq<char>)>
    decreases h.len(),
{
    if h.len() == 0 {
        seq![]
    } else {
        captured(h.drop_last()) + match h.last() {
            Some(c) => seq![c],
            None => seq![],
        }
    }
}

/// A syntax tree beside the language and the text it was parsed from. The fields
/// are private and `parse` is the only constructor, so `tree` is always `source`
/// parsed with `language`'s grammar: `query_hits` relies on that.
struct SyntaxTree {
    tree: tree_sitter::Tree,
    language: Language,
    source: String,
}

impl SyntaxTree {
    fn parse(language: Language, content: &str) -> (r: Option<SyntaxTree>)
        ensures
            match r {
                Some(t) => source_parses(language, content@) && t.language == language
                    && t.source@ == content@,
                None => !source_parses(language, content@),
            },
    {
        match parse_source(language, content) {
            Some(tree) => Some(SyntaxTree { tree, language, source: String::from_str(content) }),
            None => None,
        }
    }

    /// Relies on tree_sitter::Query::new and QueryCursor::matches over the tree that
    /// `parse` built from `source`: for each match in order, where its first captured
    /// node starts and the text under it (`None` for a match without captures).
    /// On a bad name `Query::new` reads the byte before the name; a query that
    /// begins with a space (which the query grammar skips) has no name at offset 0.
    /// Rows and columns lie inside a `str`, whose length std keeps below isize::MAX.
    #[verifier::external_body]
    fn query_hits(&self, query: &str) -> (r: Option<Vec<Option<(usize, usize, String)>>>)
        requires
            query@.len() > 0,
            query@[0] == ' ',
        ensures
            match r {
                Some(v) => query_hits(self.language, query@, self.source@) == Some(hit_views(v@))
                    && forall|i: int| 0 <= i < v@.len() ==> position_fits(v@[i]),
                None => query_hits(self.language, query@, self.source@).is_none(),
            },
    {
        let q = tree_sitter::Query::new(&self.tree.language(), query).ok()?;
        let mut cursor = tree_sitter::QueryCursor::new();
        let src = self.source.as_bytes();
        let found = cursor.matches(&q, self.tree.root_node(), src).map_deref(|m| {
            m.captures.first().map(|c| (c.node.start_position(), c.node.utf8_text(src)))
        });
        Some(found.map(|h| h.map(|(p, t)| (p.row, p.column, t.unwrap_or("").to_string()))).collect())
    }
}

/// One reported rule violation, with its location and the rule's report fields.
#[derive(Clone, Debug)]
pub struct Finding {
    pub rule_id: String,
    pub rule_name: String,
    pub severity: Severity,
    pub file: String,
    pub line: usize,
    pub column: usize,
    pub matched_text: String,
    pub context_before: Vec<String>,
    pub context_after: Vec<String>,
    pub message: String,
    pub fix_hint: Option<String>,
    pub cwe: Option<String>,
    pub owasp: Option<String>,
    pub description: String,
    pub references: Vec<String>,
}

/// What a finding says, as mathematical values.
pub ghost struct FindingView {
    pub rule_id: Seq<char>,
    pub rule_name: Seq<char>,
    pub severity: Severity,
    pub file: Seq<char>,
    pub line: int,
    pub column: int,
    pub matched_text: Seq<char>,
    pub context_before: Seq<Seq<char>>,
    pub context_after: Seq<Seq<char>>,
    pub message: Seq<char>,
    pub fix_hint: Option<Seq<char>>,
    pub cwe: Option<Seq<char>>,
    pub owasp: Option<Seq<char>>,
    pub description: Seq<char>,
    pub references: Seq<Seq<char>>,
}

impl View for Finding {
    type V = FindingView;

    open spec fn view(&self) -> FindingView {
        FindingView {
            rule_id: self.rule_id@,
            rule_name: self.rule_name@,
            severity: self.severity,
            file: self.file@,
            line: self.line as int,
            column: self.column as int,
            matched_text: self.matched_text@,
            context_before: views_of(self.context_before@),
            context_after: views_of(self.context_after@),
            message: self.message@,
            fix_hint: opt_view(self.fix_hint),
            cwe: opt_view(self.cwe),
            owasp: opt_view(self.owasp),
            description: self.description@,
            references: views_of(self.references@),
        }
    }
}

/// The views of a list of findings.
pub open spec fn finding_views(v: Seq<Finding>) -> Seq<FindingView> {
    v.map_values(|f: Finding| f@)
}

/// A copy of a finding.
pub fn copy_finding(f: &Finding) -> (r: Finding)
    ensures
        r@ == f@,
{
    Finding {
        rule_id: f.rule_id.clone(),
        rule_name: f.rule_name.clone(),
        severity: f.severity,
        file: f.file.clone(),
        line: f.line,
        column: f.column,
        matched_text: f.matched_text.clone(),
        context_before: copy_strings(&f.context_before),
        context_after: copy_strings(&f.context_after),
        message: f.message.clone(),
        fix_hint: copy_opt(&f.fix_hint),
        cwe: copy_opt(&f.cwe),
        owasp: copy_opt(&f.owasp),
        description: f.description.clone(),
        references: copy_strings(&f.references),
    }
}

/// `x` held inside `0..=n`.
pub open spec fn clamp(x: int, n: int) -> int {
    if x < 0 {
        0
    } else if x > n {
        n
    } else {
        x
    }
}

/// Up to `count` lines before line `current` (or after it), cut at the file's ends.
pub open spec fn context_lines(lines: Seq<Seq<char>>, current: int, count: int, before: bool) -> Seq<Seq<char>> {
    let n = lines.len() as int;
    if before {
        lines.subrange(clamp(current - count, n), clamp(current, n))
    } else {
        lines.subrange(clamp(current + 1, n), clamp(current + count + 1, n))
    }
}

/// The lines before (`before`) or after line `current` (0-based), at most `count`
/// of them, cut at the ends of the file.
pub fn get_context_lines(lines: &Vec<String>, current: usize, count: usize, before: bool) -> (r: Vec<String>)
    ensures
        views_of(r@) == context_lines(views_of(lines@), current as int, count as int, before),
{
    let n = lines.len();
    let lo: usize;
    let hi: usize;
    if before {
        hi = if current < n { current } else { n };
        let start = if current <= count { 0 } else { current - count };
        lo = if start < n { start } else { n };
    } else {
        lo = if current < n { current + 1 } else { n };
        hi = if count < n - lo { lo + count } else { n };
    }
    let mut r: Vec<String> = Vec::new();
    let mut j: usize = lo;
    while j < hi
        invariant
            lo <= j <= hi <= n == lines.len(),
            r@.len() == j - lo,
            forall|t: int| 0 <= t < r@.len() ==> r@[t]@ == lines@[lo + t]@,
        decreases hi - j,
    {
        let s = lines[j].clone();
        assert(s@ == lines@[j as int]@);
        r.push(s);
        j = j + 1;
    }
    assert(views_of(r@) =~= views_of(lines@).subrange(lo as int, hi as int));
    r
}

/// A match candidate: row and column (0-based) and the matched text.
pub type Candidate = (nat, nat, Seq<char>);

/// The finding that a candidate of `rule` becomes.
pub open spec fn finding_view_of(rule: RuleView, file: Seq<char>, lines: Seq<Seq<char>>, c: Candidate) -> FindingView {
    FindingView {
        rule_id: rule.id,
        rule_name: rule.name,
        severity: rule.severity,
        file: file,
        line: c.0 + 1 as int,
        column: c.1 + 1 as int,
        matched_text: c.2,
        context_before: context_lines(lines, c.0 as int, 2, true),
        context_after: context_lines(lines, c.0 as int, 2, false),
        message: rule.message,
        fix_hint: rule.fix_hint,
        cwe: rule.cwe,
        owasp: rule.owasp,
        description: rule.description,
        references: rule.references,
    }
}

/// Whether some candidate is on `row`.
pub open spec fn has_row(s: Seq<Candidate>, row: nat) -> bool {
    exists|j: int| 0 <= j < s.len() && s[j].0 == row
}

/// The candidates in order, each kept only when no earlier kept one is on its row.
pub open spec fn first_per_row(c: Seq<Candidate>) -> Seq<Candidate>
    decreases c.len(),
{
    if c.len() == 0 {
        seq![]
    } else {
        let prev = first_per_row(c.drop_last());
        if has_row(prev, c.last().0) {
            prev
        } else {
            prev.push(c.last())
        }
    }
}

/// The first match of a pattern on each of the first `n` lines, line by line.
pub open spec fn line_candidates(p: Seq<char>, lines: Seq<Seq<char>>, n: nat) -> Seq<Candidate>
    decreases n,
{
    if n == 0 {
        seq![]
    } else {
        let prev = line_candidates(p, lines, (n - 1) as nat);
        match regex_first_match(p, lines[n - 1]) {
            Some(m) => prev.push(((n - 1) as nat, m.0, m.1)),
            None => prev,
        }
    }
}

/// The candidates of the first `k` patterns, pattern by pattern; a pattern that
/// does not compile gives none.
pub open spec fn regex_candidates(pats: Seq<Seq<char>>, lines: Seq<Seq<char>>, k: nat) -> Seq<Candidate>
    decreases k,
{
    if k == 0 {
        seq![]
    } else {
        regex_candidates(pats, lines, (k - 1) as nat) + if regex_compiles(pats[k - 1]) {
            line_candidates(pats[k - 1], lines, lines.len())
        } else {
            seq![]
        }
    }
}

/// The candidates of the structural pass: none unless the rule is of type `Ast`,
/// has a query, the text parses and the query (after a leading space, which the
/// query grammar skips) compiles; then the matches that have a capture.
pub open spec fn structural_candidates(rule: RuleView, language: Language, content: Seq<char>) -> Seq<Candidate> {
    if rule.pattern_type == PatternType::Ast && rule.query.is_some() && source_parses(language, content) {
        match query_hits(language, " "@ + rule.query.unwrap(), content) {
            Some(h) => captured(h),
            None => seq![],
        }
    } else {
        seq![]
    }
}

/// The matches of a rule in a text: structural candidates, then those of each
/// regular expression, at most one per line.
pub open spec fn rule_matches(rule: RuleView, language: Language, content: Seq<char>) -> Seq<Candidate> {
    let lines = lines_of(content);
    first_per_row(
        structural_candidates(rule, language, content) + regex_candidates(rule.regex, lines, rule.regex.len()),
    )
}

/// The findings of a rule in a file.
pub open spec fn findings_of(rule: RuleView, content: Seq<char>, file: Seq<char>, language: Language) -> Seq<FindingView> {
    let lines = lines_of(content);
    rule_matches(rule, language, content).map_values(|c: Candidate| finding_view_of(rule, file, lines, c))
}

/// `findings` are the findings of the kept candidates among `cands`.
pub open spec fn tracks(findings: Seq<Finding>, rule: RuleView, file: Seq<char>, lines: Seq<Seq<char>>, cands: Seq<Candidate>) -> bool {
    let kept = first_per_row(cands);
    &&& findings.len() == kept.len()
    &&& forall|j: int| 0 <= j < findings.len() ==> #[trigger] findings[j]@ == finding_view_of(rule, file, lines, kept[j])
}

/// The finding of one candidate of `rule`.
fn make_finding(rule: &Rule, file: &str, lines: &Vec<String>, row: usize, col: usize, text: String) -> (r: Finding)
    requires
        row < usize::MAX,
        col < usize::MAX,
    ensures
        r@ == finding_view_of(rule@, file@, views_of(lines@), (row as nat, col as nat, text@)),
{
    Finding {
        rule_id: rule.id.clone(),
        rule_name: rule.name.clone(),
        severity: rule.severity,
        file: String::from_str(file),
        line: row + 1,
        column: col + 1,
        matched_text: text,
        context_before: get_context_lines(lines, row, 2, true),
        context_after: get_context_lines(lines, row, 2, false),
        message: rule.message.clone(),
        fix_hint: copy_opt(&rule.fix_hint),
        cwe: copy_opt(&rule.cwe),
        owasp: copy_opt(&rule.owasp),
        description: rule.description.clone(),
        references: copy_strings(&rule.references),
    }
}

/// Whether some finding is on `line`.
fn has_line(findings: &Vec<Finding>, line: usize) -> (r: bool)
    ensures
        r == exists|j: int| 0 <= j < findings@.len() && (#[trigger] findings@[j]).line == line,
{
    let mut i: usize = 0;
    while i < findings.len()
        invariant
            i <= findings.len(),
            forall|j: int| 0 <= j < i ==> (#[trigger] findings@[j]).line != line,
        decreases findings.len() - i,
    {
        if findings[i].line == line {
            return true;
        }
        i = i + 1;
    }
    false
}

/// Records a candidate unless a kept one is on its line already.
fn add_candidate(
    findings: &mut Vec<Finding>,
    Ghost(done): Ghost<Seq<Candidate>>,
    rule: &Rule,
    file: &str,
    lines: &Vec<String>,
    row: usize,
    col: usize,
    text: String,
)
    requires
        tracks(old(findings)@, rule@, file@, views_of(lines@), done),
        row < usize::MAX,
        col < usize::MAX,
    ensures
        tracks(final(findings)@, rule@, file@, views_of(lines@), done.push((row as nat, col as nat, text@))),
{
    let ghost c: Candidate = (row as nat, col as nat, text@);
    let ghost prev = first_per_row(done);
    let ghost all = done.push(c);
    assert(all.drop_last() =~= done);
    assert(all.last() == c);
    let found = has_line(findings, row + 1);
    if found {
        let ghost j = choose|j: int| 0 <= j < findings@.len() && (#[trigger] findings@[j]).line == row + 1;
        assert(findings@[j]@ == finding_view_of(rule@, file@, views_of(lines@), prev[j]));
        assert(prev[j].0 == row);
        assert(has_row(prev, row as nat));
    } else {
        assert(!has_row(prev, row as nat)) by {
            if has_row(prev, row as nat) {
                let j = choose|j: int| 0 <= j < prev.len() && prev[j].0 == row;
                assert(findings@[j]@ == finding_view_of(rule@, file@, views_of(lines@), prev[j]));
            }
        }
        let f = make_finding(rule, file, lines, row, col, text);
        findings.push(f);
        assert(first_per_row(all) == prev.push(c));
        assert forall|j: int| 0 <= j < findings@.len() implies #[trigger] findings@[j]@
            == finding_view_of(rule@, file@, views_of(lines@), first_per_row(all)[j]) by {
            if j < prev.len() {
                assert(findings@[j] == old(findings)@[j]);
            }
        }
    }
}

/// Evaluates one rule against the full text of one file: the structural pass when
/// the rule is of type `Ast` and has a query, then every regular expression of the
/// rule over every line. At most one finding per line: the first candidate wins.
pub fn match_rule(rule: &Rule, content: &str, file_path: &str, language: &Language) -> (r: Vec<Finding>)
    ensures
        finding_views(r@) == findings_of(rule@, content@, file_path@, *language),
{
    let lines = split_lines(content);
    let ghost ls = views_of(lines@);
    let ghost pats = views_of(rule.pattern.regex@);
    let mut findings: Vec<Finding> = Vec::new();
    let ghost s: Seq<Candidate> = seq![];
    assert(first_per_row(s) =~= seq![]);
    if rule.pattern.pattern_type == PatternType::Ast {
        match &rule.pattern.query {
            Some(q) => {
                match SyntaxTree::parse(*language, content) {
                    Some(tree) => {
                        let mut padded = String::from_str(" ");
                        padded.append(q.as_str());
                        proof {
                            reveal_strlit(" ");
                            assert(padded@[0] == ' ');
                        }
                        match tree.query_hits(padded.as_str()) {
                            Some(hits) => {
                                let ghost hv = hit_views(hits@);
                                let mut i: usize = 0;
                                while i < hits.len()
                                    invariant
                                        i <= hits.len(),
                                        ls == views_of(lines@),
                                        hv == hit_views(hits@),
                                        forall|t: int| 0 <= t < hits@.len() ==> position_fits(hits@[t]),
                                        tracks(findings@, rule@, file_path@, ls, captured(hv.take(i as int))),
                                    decreases hits.len() - i,
                                {
                                    let ghost before = captured(hv.take(i as int));
                                    assert(hv.take(i + 1).drop_last() =~= hv.take(i as int));
                                    assert(hv.take(i + 1).last() == hv[i as int]);
                                    match &hits[i] {
                                        Some(h) => {
                                            let text = h.2.clone();
                                            assert(hv[i as int] == Some((h.0 as nat, h.1 as nat, text@)));
                                            add_candidate(&mut findings, Ghost(before), rule, file_path, &lines, h.0, h.1, text);
                                            assert(captured(hv.take(i + 1)) =~= before.push((h.0 as nat, h.1 as nat, text@)));
                                        },
                                        None => {
                                            assert(captured(hv.take(i + 1)) =~= before);
                                        },
                                    }
                                    i = i + 1;
                                }
                                assert(hv.take(hits.len() as int) =~= hv);
                                proof {
                                    s = captured(hv);
                                }
                            },
                            None => {},
                        }
                    },
                    None => {},
                }
            },
            None => {},
        }
    }
    assert(s == structural_candidates(rule@, *language, content@));
    let mut k: usize = 0;
    while k < rule.pattern.regex.len()
        invariant
            k <= rule.pattern.regex.len(),
            ls == lines_of(content@),
            ls == views_of(lines@),
            pats == views_of(rule.pattern.regex@),
            tracks(findings@, rule@, file_path@, ls, s + regex_candidates(pats, ls, k as nat)),
        decreases rule.pattern.regex.len() - k,
    {
        let ghost base = s + regex_candidates(pats, ls, k as nat);
        match LinePattern::compile(rule.pattern.regex[k].as_str()) {
            Some(p) => {
                let mut i: usize = 0;
                while i < lines.len()
                    invariant
                        i <= lines.len(),
                        ls == views_of(lines@),
                        k < pats.len(),
                        pats == views_of(rule.pattern.regex@),
                        p.source@ == pats[k as int],
                        tracks(findings@, rule@, file_path@, ls, base + line_candidates(p.source@, ls, i as nat)),
                    decreases lines.len() - i,
                {
                    let ghost lc = line_candidates(p.source@, ls, i as nat);
                    assert(ls[i as int] == lines@[i as int]@);
                    match p.find_first(lines[i].as_str()) {
                        Some(m) => {
                            let (col, text) = m;
                            add_candidate(&mut findings, Ghost(base + lc), rule, file_path, &lines, i, col, text);
                            assert((base + lc).push((i as nat, col as nat, text@)) =~= base + line_candidates(p.source@, ls, (i + 1) as nat));
                        },
                        None => {
                            assert(line_candidates(p.source@, ls, (i + 1) as nat) == lc);
                        },
                    }
                    i = i + 1;
                }
                assert(regex_candidates(pats, ls, (k + 1) as nat) == regex_candidates(pats, ls, k as nat) + line_candidates(pats[k as int], ls, ls.len()));
                assert(s + regex_candidates(pats, ls, (k + 1) as nat) =~= base + line_candidates(pats[k as int], ls, ls.len()));
            },
            None => {
                assert(regex_candidates(pats, ls, (k + 1) as nat) =~= regex_candidates(pats, ls, k as nat));
            },
        }
        k = k + 1;
    }
    let ghost kept = rule_matches(rule@, *language, content@);
    assert(s + regex_candidates(pats, ls, rule.pattern.regex@.len()) == structural_candidates(rule@, *language, content@) + regex_candidates(rule@.regex, lines_of(content@), rule@.regex.len()));
    assert(finding_views(findings@) =~= findings_of(rule@, content@, file_path@, *language));
    findings
}

} // verus!

verus! {

/// Kept candidates are on distinct rows.
proof fn lemma_first_per_row_distinct(c: Seq<Candidate>)
    ensures
        forall|i: int, j: int| #![trigger first_per_row(c)[i], first_per_row(c)[j]] 0 <= i < j < first_per_row(c).len() ==> first_per_row(c)[i].0 != first_per_row(c)[j].0,
    decreases c.len(),
{
    if c.len() > 0 {
        lemma_first_per_row_distinct(c.drop_last());
        let prev = first_per_row(c.drop_last());
        if !has_row(prev, c.last().0) {
            let next = prev.push(c.last());
            assert forall|i: int, j: int| #![trigger next[i], next[j]] 0 <= i < j < next.len() implies next[i].0 != next[j].0 by {
                if j == prev.len() {
                    assert(next[i] == prev[i]);
                } else {
                    assert(next[i] == prev[i] && next[j] == prev[j]);
                }
            }
        }
    }
}

/// A rule never reports two findings that share both rule id and line.
pub proof fn lemma_one_finding_per_line(rule: RuleView, content: Seq<char>, file: Seq<char>, language: Language)
    ensures
        forall|i: int, j: int|
            #![trigger findings_of(rule, content, file, language)[i], findings_of(rule, content, file, language)[j]]
            0 <= i < j < findings_of(rule, content, file, language).len() ==> findings_of(rule, content, file, language)[i].rule_id
                != findings_of(rule, content, file, language)[j].rule_id || findings_of(rule, content, file, language)[i].line
                != findings_of(rule, content, file, language)[j].line,
{
    let kept = rule_matches(rule, language, content);
    let lines = lines_of(content);
    lemma_first_per_row_distinct(
        structural_candidates(rule, language, content) + regex_candidates(rule.regex, lines, rule.regex.len()),
    );
    let f = findings_of(rule, content, file, language);
    assert forall|i: int, j: int| #![trigger f[i], f[j]] 0 <= i < j < f.len() implies f[i].rule_id != f[j].rule_id || f[i].line
        != f[j].line by {
        assert(f[i] == finding_view_of(rule, file, lines, kept[i]));
        assert(f[j] == finding_view_of(rule, file, lines, kept[j]));
    }
}

/// Matching is deterministic: two runs of the matcher on the same rule, text,
/// path and language give the same findings.
pub proof fn lemma_match_deterministic(
    rule: RuleView,
    content: Seq<char>,
    file: Seq<char>,
    language: Language,
    a: Seq<Finding>,
    b: Seq<Finding>,
)
    requires
        finding_views(a) == findings_of(rule, content, file, language),
        finding_views(b) == findings_of(rule, content, file, language),
    ensures
        finding_views(a) == finding_views(b),
{
}

} // verus!
