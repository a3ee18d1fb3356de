//! Rules: which pattern sends a file to which directory.

use vstd::prelude::*;
use vstd::std_specs::slice::{axiom_spec_slice_iter, into_iter_elts};
use crate::options::Options;
use crate::matcher::{compile_pattern, pattern_accepts, pattern_compiles, regex_accepts};
use crate::paths::{base_name, base_of, join, joined};

verus! {

/// The configured rules: (pattern, category) pairs in the order in which they
/// are tried.
#[derive(Debug, Clone, PartialEq, Eq)]
pub struct RawRules {
    pub rules: Vec<(String, String)>,
}

/// What a compiled rule stands for: a pattern and the directory that files
/// matching it go to.
pub struct RuleView {
    pub pattern: Seq<char>,
    pub dir: Seq<char>,
}

/// A rule ready to be tried on file names.
pub struct CompiledRule {
    pattern: String,
    dir: String,
    matcher: regex::Regex,
}

/// The rules of a run, in the order in which they are tried.
pub struct CompiledRules {
    rules: Vec<CompiledRule>,
}

/// A rule whose pattern the pattern engine refused.
#[derive(Debug, Clone, PartialEq, Eq)]
pub struct RuleError {
    /// Position of the rule in the configured list.
    pub index: usize,
    /// The pattern as configured.
    pub pattern: String,
}

/// Where a file goes: the directory of the rule that took it, and the file's
/// base name.
#[derive(Debug, Clone, PartialEq, Eq)]
pub struct Placement {
    pub dir: String,
    pub name: String,
}

pub struct PlacementView {
    pub dir: Seq<char>,
    pub name: Seq<char>,
}

impl View for Placement {
    type V = PlacementView;

    open spec fn view(&self) -> PlacementView {
        PlacementView { dir: self.dir@, name: self.name@ }
    }
}

impl DeepView for Placement {
    type V = PlacementView;

    open spec fn deep_view(&self) -> PlacementView {
        self@
    }
}

impl View for CompiledRule {
    type V = RuleView;

    closed spec fn view(&self) -> RuleView {
        RuleView { pattern: self.pattern@, dir: self.dir@ }
    }
}

impl View for CompiledRules {
    type V = Seq<RuleView>;

    closed spec fn view(&self) -> Seq<RuleView> {
        Seq::new(self.rules@.len(), |i: int| self.rules@[i]@)
    }
}

/// Whether a rule with this pattern can be compiled. Letter case is ignored
/// in every rule.
pub open spec fn rule_compiles(pattern: Seq<char>) -> bool {
    pattern_compiles(pattern, true)
}

/// Whether a rule with this pattern accepts `name`: the pattern matches
/// somewhere in the name, letter case ignored.
pub open spec fn rule_accepts(pattern: Seq<char>, name: Seq<char>) -> bool {
    pattern_accepts(pattern, true, name)
}

/// Whether every pattern of the configured rules can be compiled.
pub open spec fn all_compile(raw: Seq<(Seq<char>, Seq<char>)>) -> bool {
    forall|i: int| 0 <= i < raw.len() ==> rule_compiles((#[trigger] raw[i]).0)
}

/// Rule `i` is the first of the configured rules whose pattern cannot be
/// compiled.
pub open spec fn first_refused(raw: Seq<(Seq<char>, Seq<char>)>, i: int) -> bool {
    &&& 0 <= i < raw.len()
    &&& !rule_compiles(raw[i].0)
    &&& forall|j: int| 0 <= j < i ==> rule_compiles((#[trigger] raw[j]).0)
}

/// Rule `i` is the one that takes `name`: it accepts the name and no rule
/// before it does.
pub open spec fn wins(rules: Seq<RuleView>, name: Seq<char>, i: int) -> bool {
    &&& 0 <= i < rules.len()
    &&& rule_accepts(rules[i].pattern, name)
    &&& forall|j: int| 0 <= j < i ==> !rule_accepts((#[trigger] rules[j]).pattern, name)
}

/// The rule that takes `name`, if any does.
pub open spec fn winner(rules: Seq<RuleView>, name: Seq<char>) -> Option<int> {
    if exists|i: int| wins(rules, name, i) {
        Some(choose|i: int| wins(rules, name, i))
    } else {
        None
    }
}

/// Where `file` goes under `rules`: nowhere if it has no base name or no rule
/// accepts the name.
pub open spec fn placement_of(rules: Seq<RuleView>, file: Seq<char>) -> Option<PlacementView> {
    match base_of(file) {
        None => None,
        Some(name) => match winner(rules, name) {
            None => None,
            Some(i) => Some(PlacementView { dir: rules[i].dir, name }),
        },
    }
}

/// The rules that `raw` compiles to under the output root `output`: the same
/// patterns in the same order, each bound to its category's directory.
pub open spec fn bound_rules(raw: Seq<(Seq<char>, Seq<char>)>, output: Seq<char>) -> Seq<
    RuleView,
> {
    Seq::new(raw.len(), |i: int| RuleView { pattern: raw[i].0, dir: joined(output, raw[i].1) })
}

/// At most one rule takes a name, and `winner` names it.
pub proof fn lemma_winner(rules: Seq<RuleView>, name: Seq<char>)
    ensures
        forall|i: int| wins(rules, name, i) ==> winner(rules, name) == Some(i),
        winner(rules, name) matches Some(i) ==> wins(rules, name, i),
        winner(rules, name) is None ==> forall|j: int|
            0 <= j < rules.len() ==> !rule_accepts((#[trigger] rules[j]).pattern, name),
{
    assert forall|i: int| wins(rules, name, i) implies winner(rules, name) == Some(i) by {
        let k = choose|k: int| wins(rules, name, k);
        assert(wins(rules, name, k));
        if k < i {
            assert(!rule_accepts(rules[k].pattern, name));
        } else if i < k {
            assert(!rule_accepts(rules[i].pattern, name));
        }
    }
    if winner(rules, name) is None {
        assert forall|j: int| 0 <= j < rules.len() implies !rule_accepts(
            (#[trigger] rules[j]).pattern,
            name,
        ) by {
            if rule_accepts(rules[j].pattern, name) {
                lemma_some_rule_wins(rules, name, j);
            }
        }
    }
}

/// Where a rule accepts a name, some rule at or before it takes the name.
pub proof fn lemma_some_rule_wins(rules: Seq<RuleView>, name: Seq<char>, j: int)
    requires
        0 <= j < rules.len(),
        rule_accepts(rules[j].pattern, name),
    ensures
        exists|i: int| 0 <= i <= j && wins(rules, name, i),
    decreases j,
{
    if exists|k: int| 0 <= k < j && rule_accepts(rules[k].pattern, name) {
        let k = choose|k: int| 0 <= k < j && rule_accepts(rules[k].pattern, name);
        lemma_some_rule_wins(rules, name, k);
    } else {
        assert(wins(rules, name, j));
    }
}

impl CompiledRule {
    #[verifier::type_invariant]
    spec fn faithful(self) -> bool {
        forall|text: Seq<char>| #[trigger]
            regex_accepts(self.matcher, text) == pattern_accepts(self.pattern@, true, text)
    }

    /// Makes a rule of a pattern, its directory and what the pattern engine
    /// made of the pattern; `index` is the rule's place in the configured
    /// list and is handed back where the pattern was refused.
    pub fn from_attempt(
        pattern: String,
        dir: String,
        index: usize,
        attempt: Result<regex::Regex, regex::Error>,
    ) -> (made: Result<CompiledRule, RuleError>)
        requires
            attempt matches Ok(re) ==> forall|text: Seq<char>| #[trigger]
                regex_accepts(re, text) == pattern_accepts(pattern@, true, text),
        ensures
            match made {
                Ok(rule) => attempt is Ok && rule@ == (RuleView { pattern: pattern@, dir: dir@ }),
                Err(e) => attempt is Err && e.index == index && e.pattern@ == pattern@,
            },
    {
        match attempt {
            Ok(matcher) => Ok(CompiledRule { pattern, dir, matcher }),
            Err(_) => Err(RuleError { index, pattern }),
        }
    }

    /// The pattern as configured.
    pub fn pattern(&self) -> (pattern: &String)
        ensures
            pattern@ == self@.pattern,
    {
        &self.pattern
    }

    /// The directory that files go to which the rule accepts.
    pub fn dir(&self) -> (dir: &String)
        ensures
            dir@ == self@.dir,
    {
        &self.dir
    }

    /// Whether the rule accepts `name`.
    pub fn accepts(&self, name: &str) -> (accepted: bool)
        ensures
            accepted == rule_accepts(self@.pattern, name@),
    {
        proof {
            use_type_invariant(self);
        }
        self.matcher.is_match(name)
    }
}

impl RawRules {
    /// Compiles every pattern, with letter case ignored, and binds it to the
    /// directory of its category under `output_dir`. The order is kept. The
    /// rules come out where every pattern can be compiled; one pattern that
    /// cannot fails the whole list, and the first such rule is reported.
    pub fn compile(self, output_dir: &str) -> (result: Result<CompiledRules, RuleError>)
        ensures
            result is Ok <==> all_compile(self.rules.deep_view()),
            match result {
                Ok(compiled) => compiled@ == bound_rules(self.rules.deep_view(), output_dir@),
                Err(e) => first_refused(self.rules.deep_view(), e.index as int) && e.pattern@
                    == self.rules[e.index as int].0@,
            },
    {
        let ghost raw = self.rules.deep_view();
        let mut compiled: Vec<CompiledRule> = Vec::new();
        let mut i: usize = 0;
        while i < self.rules.len()
            invariant
                i <= self.rules.len(),
                compiled.len() == i,
                raw == self.rules.deep_view(),
                forall|j: int| 0 <= j < i ==> rule_compiles((#[trigger] raw[j]).0),
                forall|j: int|
                    0 <= j < i ==> (#[trigger] compiled[j])@ == (RuleView {
                        pattern: self.rules[j].0@,
                        dir: joined(output_dir@, self.rules[j].1@),
                    }),
            decreases self.rules.len() - i,
        {
            let pattern = self.rules[i].0.clone();
            let dir = join(output_dir, self.rules[i].1.as_str());
            assert(raw[i as int].0 == self.rules[i as int].0@);
            let attempt = compile_pattern(pattern.as_str(), true);
            match CompiledRule::from_attempt(pattern, dir, i, attempt) {
                Ok(rule) => {
                    compiled.push(rule);
                },
                Err(e) => {
                    return Err(e);
                },
            }
            i = i + 1;
        }
        let result = CompiledRules { rules: compiled };
        assert(result@ =~= bound_rules(self.rules.deep_view(), output_dir@));
        Ok(result)
    }
}

impl CompiledRules {
    /// Compiles the configured rules for the output directory of `options`.
    pub fn load(raw: RawRules, options: &Options) -> (result: Result<CompiledRules, RuleError>)
        ensures
            result is Ok <==> all_compile(raw.rules.deep_view()),
            match result {
                Ok(compiled) => compiled@ == bound_rules(raw.rules.deep_view(), options.output@),
                Err(e) => first_refused(raw.rules.deep_view(), e.index as int) && e.pattern@
                    == raw.rules[e.index as int].0@,
            },
    {
        raw.compile(options.output.as_str())
    }

    /// The rules in the order in which they are tried.
    pub fn iter(&self) -> (rules: core::slice::Iter<'_, CompiledRule>)
        ensures
            into_iter_elts(rules).len() == self@.len(),
            forall|i: int|
                0 <= i < self@.len() ==> (#[trigger] into_iter_elts(rules)[i])@ == self@[i],
    {
        broadcast use axiom_spec_slice_iter;

        self.rules.iter()
    }

    /// The rule at position `i`.
    pub fn rule(&self, i: usize) -> (rule: &CompiledRule)
        requires
            i < self@.len(),
        ensures
            rule@ == self@[i as int],
    {
        &self.rules[i]
    }

    /// The number of rules.
    pub fn len(&self) -> (n: usize)
        ensures
            n == self@.len(),
    {
        self.rules.len()
    }

    /// The first rule that accepts `name`; later rules are not consulted.
    pub fn first_match(&self, name: &str) -> (found: Option<usize>)
        ensures
            match found {
                Some(i) => wins(self@, name@, i as int),
                None => forall|j: int|
                    0 <= j < self@.len() ==> !rule_accepts((#[trigger] self@[j]).pattern, name@),
            },
    {
        let mut i: usize = 0;
        while i < self.rules.len()
            invariant
                i <= self.rules.len(),
                forall|j: int| 0 <= j < i ==> !rule_accepts((#[trigger] self@[j]).pattern, name@),
            decreases self.rules.len() - i,
        {
            if self.rules[i].accepts(name) {
                return Some(i);
            }
            i = i + 1;
        }
        None
    }

    /// Where `file` goes: the directory of the first rule that accepts its
    /// base name. A file that no rule accepts goes nowhere.
    pub fn placement(&self, file: &str) -> (placed: Option<Placement>)
        ensures
            placed.deep_view() == placement_of(self@, file@),
    {
        match base_name(file) {
            None => None,
            Some(name) => {
                proof {
                    lemma_winner(self@, name@);
                }
                match self.first_match(name.as_str()) {
                    None => None,
                    Some(i) => Some(Placement { dir: self.rules[i].dir.clone(), name }),
                }
            },
        }
    }
}

} // verus!
