use vstd::prelude::*;
use crate::language::Language;
use crate::rule::{
    document_outcome, document_views, rule_views, rules_from_documents, valid_rules, DocumentView, Rule,
    RuleDocument, RuleView, Severity,
};
use crate::embedded::{embedded_sources, embedded_table, python_table};
use crate::text::same_text;

verus! {

/// Rules by language key: each key once, in the order keys were first added, and
/// each key's rules in the order they were added.
pub struct RuleRegistry {
    rules: Vec<(String, Vec<Rule>)>,
}

/// Language keys and rule lists, as mathematical values.
pub type RegistryView = Seq<(Seq<char>, Seq<RuleView>)>;

/// Whether `key` is one of the keys.
pub open spec fn has_key(e: RegistryView, key: Seq<char>) -> bool {
    exists|i: int| 0 <= i < e.len() && e[i].0 == key
}

/// A position of `key`, when it is one of the keys.
pub open spec fn key_at(e: RegistryView, key: Seq<char>) -> int {
    choose|i: int| 0 <= i < e.len() && e[i].0 == key
}

/// The rules under `key`; none when the key is absent.
pub open spec fn rules_under(e: RegistryView, key: Seq<char>) -> Seq<RuleView> {
    if has_key(e, key) {
        e[key_at(e, key)].1
    } else {
        seq![]
    }
}

/// Number of rules over all keys.
pub open spec fn total_rules(e: RegistryView) -> nat
    decreases e.len(),
{
    if e.len() == 0 {
        0
    } else {
        total_rules(e.drop_last()) + e.last().1.len()
    }
}

/// All rules, key by key.
pub open spec fn all_of(e: RegistryView) -> Seq<RuleView>
    decreases e.len(),
{
    if e.len() == 0 {
        seq![]
    } else {
        all_of(e.drop_last()) + e.last().1
    }
}

/// The registry after appending `rs` to the list under `key` (which is created
/// at the end when absent).
pub open spec fn appended(e: RegistryView, key: Seq<char>, rs: Seq<RuleView>) -> RegistryView {
    if has_key(e, key) {
        let i = key_at(e, key);
        e.update(i, (key, e[i].1 + rs))
    } else {
        e.push((key, rs))
    }
}

/// The rules whose severity ordinal is at least `min`'s, in order.
pub open spec fn at_least(rs: Seq<RuleView>, min: Severity) -> Seq<RuleView> {
    rs.filter(|r: RuleView| r.severity.spec_ordinal() >= min.spec_ordinal())
}




/// The rules that a list of references points to.
pub open spec fn derefs(v: Seq<&Rule>) -> Seq<RuleView> {
    v.map_values(|r: &Rule| r@)
}

proof fn lemma_derefs_push(v: Seq<&Rule>, x: &Rule)
    ensures
        derefs(v.push(x)) == derefs(v).push(x@),
{
    assert(derefs(v.push(x)) =~= derefs(v).push(x@));
}

impl View for RuleRegistry {
    type V = RegistryView;

    closed spec fn view(&self) -> RegistryView {
        self.rules@.map_values(|e: (String, Vec<Rule>)| (e.0@, rule_views(e.1@)))
    }
}

/// The rule count of two registries laid end to end is the sum of their counts.
pub proof fn lemma_total_append(a: RegistryView, b: RegistryView)
    ensures
        total_rules(a + b) == total_rules(a) + total_rules(b),
    decreases b.len(),
{
    if b.len() > 0 {
        assert((a + b).drop_last() =~= a + b.drop_last());
        lemma_total_append(a, b.drop_last());
    } else {
        assert(a + b =~= a);
    }
}

/// Replacing one key's list changes the count by the difference of the lengths.
pub proof fn lemma_total_update(e: RegistryView, i: int, x: (Seq<char>, Seq<RuleView>))
    requires
        0 <= i < e.len(),
    ensures
        total_rules(e.update(i, x)) == total_rules(e) - e[i].1.len() + x.1.len(),
    decreases e.len(),
{
    if i == e.len() - 1 {
        assert(e.update(i, x).drop_last() =~= e.drop_last());
    } else {
        assert(e.update(i, x).drop_last() =~= e.drop_last().update(i, x));
        lemma_total_update(e.drop_last(), i, x);
    }
}

/// Rule sources as mathematical values: a language key and its documents.
pub open spec fn source_views(v: Seq<(String, Vec<RuleDocument>)>) -> Seq<(Seq<char>, Seq<DocumentView>)> {
    v.map_values(|e: (String, Vec<RuleDocument>)| (e.0@, document_views(e.1@)))
}

/// The registry built from sources in order: each source's valid rules appended
/// under its key; a source without valid rules, or whose rules would take the
/// count past `usize::MAX`, adds nothing.
pub open spec fn loaded(sources: Seq<(Seq<char>, Seq<DocumentView>)>) -> RegistryView
    decreases sources.len(),
{
    if sources.len() == 0 {
        seq![]
    } else {
        let prev = loaded(sources.drop_last());
        let rs = valid_rules(sources.last().1);
        if rs.len() == 0 || total_rules(prev) + rs.len() > usize::MAX {
            prev
        } else {
            appended(prev, sources.last().0, rs)
        }
    }
}

/// `e` with the lists of `o` appended key by key, in `o`'s order; a list that
/// would take the count past `usize::MAX` is left out.
pub open spec fn merged(e: RegistryView, o: RegistryView) -> RegistryView
    decreases o.len(),
{
    if o.len() == 0 {
        e
    } else {
        let prev = merged(e, o.drop_last());
        if total_rules(prev) + o.last().1.len() > usize::MAX {
            prev
        } else {
            appended(prev, o.last().0, o.last().1)
        }
    }
}

/// Appending rules under a key adds their number to the count.
pub proof fn lemma_total_appended(e: RegistryView, key: Seq<char>, rs: Seq<RuleView>)
    ensures
        total_rules(appended(e, key, rs)) == total_rules(e) + rs.len(),
{
    if has_key(e, key) {
        let i = key_at(e, key);
        lemma_total_update(e, i, (key, e[i].1 + rs));
        assert(appended(e, key, rs) == e.update(i, (key, e[i].1 + rs)));
        assert((e[i].1 + rs).len() == e[i].1.len() + rs.len());
    } else {
        let one = seq![(key, rs)];
        lemma_total_append(e, one);
        assert(one.drop_last() =~= Seq::<(Seq<char>, Seq<RuleView>)>::empty());
        assert(one.last() == (key, rs));
        assert(total_rules(Seq::<(Seq<char>, Seq<RuleView>)>::empty()) == 0);
        assert(total_rules(one) == rs.len());
        assert(e + one =~= e.push((key, rs)));
        assert(appended(e, key, rs) == e.push((key, rs)));
    }
}

/// Documents never give more rules than there are documents.
pub proof fn lemma_valid_rules_len(docs: Seq<DocumentView>)
    ensures
        valid_rules(docs).len() <= docs.len(),
    decreases docs.len(),
{
    if docs.len() > 0 {
        lemma_valid_rules_len(docs.drop_last());
    }
}

/// When the first document is valid, the documents give at least one rule.
pub proof fn lemma_valid_rules_first(docs: Seq<DocumentView>)
    requires
        docs.len() >= 1,
        document_outcome(docs[0]).is_ok(),
    ensures
        valid_rules(docs).len() >= 1,
    decreases docs.len(),
{
    if docs.len() == 1 {
        assert(docs.drop_last() =~= Seq::<DocumentView>::empty());
        assert(docs.last() == docs[0]);
    } else {
        assert(docs.drop_last()[0] == docs[0]);
        lemma_valid_rules_first(docs.drop_last());
    }
}

/// A registry loaded from sources holds at least the valid rules of the first source.
pub proof fn lemma_loaded_grows(s: Seq<(Seq<char>, Seq<DocumentView>)>)
    requires
        s.len() >= 1,
        s[0].1.len() <= usize::MAX,
    ensures
        total_rules(loaded(s)) >= valid_rules(s[0].1).len(),
    decreases s.len(),
{
    let prev = loaded(s.drop_last());
    let rs = valid_rules(s.last().1);
    lemma_total_appended(prev, s.last().0, rs);
    if s.len() == 1 {
        assert(s.drop_last() =~= Seq::<(Seq<char>, Seq<DocumentView>)>::empty());
        assert(s.last() == s[0]);
        lemma_valid_rules_len(s[0].1);
    } else {
        assert(s.drop_last()[0] == s[0]);
        lemma_loaded_grows(s.drop_last());
    }
}

impl RuleRegistry {
    /// Keys are unique and the rule count fits a `usize`.
    pub closed spec fn wf(&self) -> bool {
        &&& forall|i: int, j: int| 0 <= i < j < self@.len() ==> self@[i].0 != self@[j].0
        &&& total_rules(self@) <= usize::MAX
    }

    /// A registry without rules.
    pub fn new() -> (r: RuleRegistry)
        ensures
            r.wf(),
            r@ == Seq::<(Seq<char>, Seq<RuleView>)>::empty(),
    {
        let r = RuleRegistry { rules: Vec::new() };
        assert(r@ =~= Seq::<(Seq<char>, Seq<RuleView>)>::empty());
        r
    }

    /// The position of `key`, when it is one of the keys.
    fn key_index(&self, key: &str) -> (r: Option<usize>)
        requires
            self.wf(),
        ensures
            match r {
                Some(i) => i < self@.len() && self@[i as int].0 == key@,
                None => !has_key(self@, key@),
            },
    {
        let mut i: usize = 0;
        while i < self.rules.len()
            invariant
                i <= self.rules.len(),
                forall|j: int| 0 <= j < i ==> self@[j].0 != key@,
            decreases self.rules.len() - i,
        {
            if same_text(self.rules[i].0.as_str(), key) {
                return Some(i);
            }
            i = i + 1;
        }
        None
    }

    /// Appends `rules` to the list under `key`, creating it at the end when absent.
    pub fn add_rules(&mut self, key: &str, rules: Vec<Rule>)
        requires
            old(self).wf(),
            total_rules(old(self)@) + rules@.len() <= usize::MAX,
        ensures
            final(self).wf(),
            final(self)@ == appended(old(self)@, key@, rule_views(rules@)),
            total_rules(final(self)@) == total_rules(old(self)@) + rules@.len(),
    {
        let ghost e = self@;
        match self.key_index(key) {
            Some(i) => {
                let ghost j = key_at(e, key@);
                assert(j == i);
                let (k, mut list) = self.rules.remove(i);
                let ghost l0 = list@;
                let mut more = rules;
                list.append(&mut more);
                assert(rule_views(list@) =~= rule_views(l0) + rule_views(rules@));
                self.rules.insert(i, (k, list));
                assert(self@ =~= e.update(i as int, (key@, e[i as int].1 + rule_views(rules@))));
                assert(forall|t: int| 0 <= t < self@.len() ==> self@[t].0 == e[t].0);
                proof {
                    lemma_total_update(e, i as int, (key@, e[i as int].1 + rule_views(rules@)));
                }
                assert(total_rules(self@) == total_rules(e) + rules@.len());
                assert(self.wf());
            },
            None => {
                let ghost rv = rule_views(rules@);
                self.rules.push((String::from_str(key), rules));
                assert(self@ =~= e.push((key@, rv)));
                assert(forall|t: int| 0 <= t < e.len() ==> e[t].0 != key@);
                proof {
                    lemma_total_append(e, seq![(key@, rv)]);
                    assert(total_rules(seq![(key@, rv)]) == rules@.len()) by {
                        let one = seq![(key@, rv)];
                        assert(one.drop_last() =~= Seq::<(Seq<char>, Seq<RuleView>)>::empty());
                        assert(one.last() == (key@, rv));
                        assert(total_rules(Seq::<(Seq<char>, Seq<RuleView>)>::empty()) == 0);
                    }
                }
                assert(e + seq![(key@, rv)] =~= e.push((key@, rv)));
                assert(total_rules(self@) == total_rules(e) + rules@.len());
                assert(self.wf());
            },
        }
    }

    /// Builds a registry from rule sources, one per language key in order: the
    /// valid documents of each become its rules, the others are dropped; a source
    /// with no valid document adds no key.
    pub fn from_sources(sources: Vec<(String, Vec<RuleDocument>)>) -> (r: RuleRegistry)
        ensures
            r.wf(),
            r@ == loaded(source_views(sources@)),
    {
        let ghost all = source_views(sources@);
        let count = sources.len();
        let mut rest = sources;
        let mut reg = RuleRegistry::new();
        let mut n: usize = 0;
        while rest.len() > 0
            invariant
                n + rest@.len() == all.len(),
                all.len() == count,
                source_views(rest@) == all.skip(n as int),
                reg.wf(),
                reg@ == loaded(all.take(n as int)),
            decreases rest@.len(),
        {
            let ghost r0 = rest@;
            let (key, docs) = rest.remove(0);
            assert(all.take(n + 1).drop_last() =~= all.take(n as int));
            assert(all[n as int] == source_views(r0)[0]);
            assert(all.take(n + 1).last() == (key@, document_views(docs@)));
            let rules = rules_from_documents(docs);
            let have = reg.rule_count();
            if rules.len() > 0 && rules.len() <= usize::MAX - have {
                reg.add_rules(key.as_str(), rules);
            }
            assert(rest@ =~= r0.skip(1));
            assert(source_views(r0.skip(1)) =~= source_views(r0).skip(1));
            n = n + 1;
            assert(source_views(rest@) =~= all.skip(n as int));
        }
        assert(all.take(n as int) =~= all);
        reg
    }

    /// Appends the rules of `other` to this registry, language by language; a
    /// list that would take the count past `usize::MAX` is left out.
    pub fn merge(&mut self, other: RuleRegistry)
        requires
            old(self).wf(),
        ensures
            final(self).wf(),
            final(self)@ == merged(old(self)@, other@),
    {
        let ghost e = self@;
        let ghost o = other@;
        let count = other.rules.len();
        let mut rest = other.rules;
        let mut n: usize = 0;
        while rest.len() > 0
            invariant
                n + rest@.len() == o.len(),
                o.len() == count,
                rest@.map_values(|x: (String, Vec<Rule>)| (x.0@, rule_views(x.1@))) == o.skip(n as int),
                self.wf(),
                self@ == merged(e, o.take(n as int)),
            decreases rest@.len(),
        {
            let ghost r0 = rest@;
            let (key, rules) = rest.remove(0);
            assert(o.take(n + 1).drop_last() =~= o.take(n as int));
            assert(o[n as int] == r0.map_values(|x: (String, Vec<Rule>)| (x.0@, rule_views(x.1@)))[0]);
            assert(o.take(n + 1).last() == (key@, rule_views(rules@)));
            let have = self.rule_count();
            if rules.len() <= usize::MAX - have {
                self.add_rules(key.as_str(), rules);
            }
            assert(rest@ =~= r0.skip(1));
            assert(r0.skip(1).map_values(|x: (String, Vec<Rule>)| (x.0@, rule_views(x.1@))) =~= r0.map_values(
                |x: (String, Vec<Rule>)| (x.0@, rule_views(x.1@)),
            ).skip(1));
            n = n + 1;
            assert(rest@.map_values(|x: (String, Vec<Rule>)| (x.0@, rule_views(x.1@))) =~= o.skip(n as int));
        }
        assert(o.take(n as int) =~= o);
    }

    /// The rules that ship with the library: the valid documents of the embedded
    /// table, by language key. There is always at least one.
    pub fn load_embedded() -> (r: RuleRegistry)
        ensures
            r.wf(),
            r@ == loaded(embedded_table()),
            total_rules(r@) >= 1,
    {
        let sources = embedded_sources();
        proof {
            let s = embedded_table();
            assert(s[0].1[0] == python_table()[0]);
            assert(s[0].1.len() == 10);
            lemma_valid_rules_first(s[0].1);
            lemma_loaded_grows(s);
        }
        RuleRegistry::from_sources(sources)
    }

    /// The rules for a language: those under its rule-set key.
    pub fn rules_for_language(&self, language: &Language) -> (r: Vec<&Rule>)
        requires
            self.wf(),
        ensures
            derefs(r@) == rules_under(self@, language.spec_rule_dir()),
    {
        let key = language.rule_dir();
        match self.key_index(key) {
            Some(i) => {
                let list = &self.rules[i].1;
                let mut r: Vec<&Rule> = Vec::new();
                let mut j: usize = 0;
                while j < list.len()
                    invariant
                        j <= list.len(),
                        derefs(r@) == rule_views(list@).take(j as int),
                    decreases list.len() - j,
                {
                    proof {
                        lemma_derefs_push(r@, &list[j as int]);
                    }
                    r.push(&list[j]);
                    j = j + 1;
                    assert(derefs(r@) =~= rule_views(list@).take(j as int));
                }
                assert(rule_views(list@).take(list.len() as int) =~= rule_views(list@));
                let ghost e = self@;
                let ghost c = key_at(e, key@);
                assert(c == i);
                r
            },
            None => Vec::new(),
        }
    }

    /// Every rule, language by language.
    pub fn all_rules(&self) -> (r: Vec<&Rule>)
        ensures
            derefs(r@) == all_of(self@),
    {
        let mut r: Vec<&Rule> = Vec::new();
        let mut i: usize = 0;
        while i < self.rules.len()
            invariant
                i <= self.rules.len(),
                derefs(r@) == all_of(self@.take(i as int)),
            decreases self.rules.len() - i,
        {
            let list = &self.rules[i].1;
            let ghost before = derefs(r@);
            let mut j: usize = 0;
            while j < list.len()
                invariant
                    j <= list.len(),
                    derefs(r@) == before + rule_views(list@).take(j as int),
                decreases list.len() - j,
            {
                proof {
                    lemma_derefs_push(r@, &list[j as int]);
                }
                r.push(&list[j]);
                j = j + 1;
                assert(derefs(r@) =~= before + rule_views(list@).take(j as int));
            }
            assert(self@.take(i + 1).drop_last() =~= self@.take(i as int));
            assert(rule_views(list@).take(list.len() as int) =~= rule_views(list@));
            i = i + 1;
        }
        assert(self@.take(self.rules.len() as int) =~= self@);
        r
    }

    /// The rules for a language whose severity ordinal is at least `min`'s.
    pub fn rules_with_min_severity(&self, language: &Language, min: &Severity) -> (r: Vec<&Rule>)
        requires
            self.wf(),
        ensures
            derefs(r@) == at_least(rules_under(self@, language.spec_rule_dir()), *min),
    {
        let all = self.rules_for_language(language);
        let ghost src = derefs(all@);
        let mut r: Vec<&Rule> = Vec::new();
        let mut j: usize = 0;
        while j < all.len()
            invariant
                j <= all.len(),
                src == derefs(all@),
                derefs(r@) == at_least(src.take(j as int), *min),
            decreases all.len() - j,
        {
            let rule = all[j];
            assert(src.take(j + 1).drop_last() =~= src.take(j as int));
            assert(src.take(j + 1).last() == rule@);
            reveal(Seq::filter);
            let ghost before = derefs(r@);
            if rule.severity.ordinal() >= min.ordinal() {
                proof {
                    lemma_derefs_push(r@, rule);
                }
                r.push(rule);
            }
            j = j + 1;
        }
        assert(src.take(all.len() as int) =~= src);
        r
    }

    /// Number of rules over all languages.
    pub fn rule_count(&self) -> (r: usize)
        requires
            self.wf(),
        ensures
            r == total_rules(self@),
    {
        let mut n: usize = 0;
        let mut i: usize = 0;
        while i < self.rules.len()
            invariant
                i <= self.rules.len(),
                total_rules(self@) <= usize::MAX,
                n == total_rules(self@.take(i as int)),
            decreases self.rules.len() - i,
        {
            assert(self@.take(i + 1).drop_last() =~= self@.take(i as int));
            proof {
                lemma_total_append(self@.take(i + 1), self@.skip(i + 1));
                assert(self@.take(i + 1) + self@.skip(i + 1) =~= self@);
            }
            n = n + self.rules[i].1.len();
            i = i + 1;
        }
        assert(self@.take(self.rules.len() as int) =~= self@);
        n
    }

    /// The language keys, in the order they were added.
    pub fn languages(&self) -> (r: Vec<&str>)
        requires
            self.wf(),
        ensures
            r@.map_values(|k: &str| k@) == self@.map_values(|e: (Seq<char>, Seq<RuleView>)| e.0),
            forall|i: int, j: int| 0 <= i < j < r@.len() ==> r@[i]@ != r@[j]@,
    {
        let mut r: Vec<&str> = Vec::new();
        let mut i: usize = 0;
        while i < self.rules.len()
            invariant
                i <= self.rules.len(),
                r@.len() == i,
                forall|j: int| 0 <= j < i ==> (#[trigger] r@[j])@ == self@[j].0,
            decreases self.rules.len() - i,
        {
            r.push(self.rules[i].0.as_str());
            i = i + 1;
        }
        assert(r@.map_values(|k: &str| k@) =~= self@.map_values(|e: (Seq<char>, Seq<RuleView>)| e.0));
        r
    }
}

} // verus!

verus! {

/// Loading from no rule source at all (a missing rules folder) gives a registry
/// without rules.
pub proof fn lemma_no_sources_no_rules()
    ensures
        total_rules(loaded(Seq::<(Seq<char>, Seq<DocumentView>)>::empty())) == 0,
{
}

} // verus!
