//! The custom rule engine: a runtime registry of operator-defined
//! pattern rules, and the two analysis paths that apply them to raw
//! text and to syntax trees.
//!
//! The registry is one map from rule id to the rule together with its
//! compiled pattern, so rule and pattern are inserted and removed
//! atomically by construction.

use vstd::prelude::*;

verus! {

use crate::pattern::compile_pattern;
use crate::pattern::find_in;
use crate::pattern::regex_find_at;
use crate::pattern::regex_ok;
use crate::pattern::regex_src;
use crate::text::spec_lines;
use crate::text::split_lines;
use crate::text::str_eq;
use crate::tree::AttrV;
use crate::tree::FnDeclV;
use crate::tree::SyntaxTree;
use crate::tree::SyntaxTreeV;
use vstd::string::StringExecFns;

/// Severity ranking of a custom rule's findings.
#[derive(Clone, Copy, Debug, PartialEq, Eq, Structural)]
pub enum RuleSeverity {
    Critical,
    High,
    Medium,
    Low,
    Info,
}

/// Mathematical value of a `CustomRule`.
pub struct CustomRuleV {
    pub id: Seq<char>,
    pub name: Seq<char>,
    pub description: Seq<char>,
    pub severity: RuleSeverity,
    pub pattern: Seq<char>,
    pub message: Seq<char>,
    pub enabled: bool,
    pub created_by: Seq<char>,
    pub created_at: int,
    pub updated_at: int,
}

/// An operator-defined rule: a regular-expression pattern with identity,
/// severity and a message. The `id` is the registry's primary key;
/// timestamps are seconds since the epoch.
#[derive(Clone, Debug)]
pub struct CustomRule {
    pub id: String,
    pub name: String,
    pub description: String,
    pub severity: RuleSeverity,
    pub pattern: String,
    pub message: String,
    pub enabled: bool,
    pub created_by: String,
    pub created_at: i64,
    pub updated_at: i64,
}

impl View for CustomRule {
    type V = CustomRuleV;

    open spec fn view(&self) -> CustomRuleV {
        CustomRuleV {
            id: self.id@,
            name: self.name@,
            description: self.description@,
            severity: self.severity,
            pattern: self.pattern@,
            message: self.message@,
            enabled: self.enabled,
            created_by: self.created_by@,
            created_at: self.created_at as int,
            updated_at: self.updated_at as int,
        }
    }
}

/// Mathematical value of a `RuleMatch`.
pub struct RuleMatchV {
    pub rule_id: Seq<char>,
    pub file_path: Seq<char>,
    pub line: int,
    pub column: int,
    pub message: Seq<char>,
    pub severity: RuleSeverity,
    pub context: Seq<char>,
}

/// One hit of a custom rule: where it fired and the matched context.
#[derive(Clone, Debug)]
pub struct RuleMatch {
    pub rule_id: String,
    pub file_path: String,
    pub line: usize,
    pub column: usize,
    pub message: String,
    pub severity: RuleSeverity,
    pub context: String,
}

impl View for RuleMatch {
    type V = RuleMatchV;

    open spec fn view(&self) -> RuleMatchV {
        RuleMatchV {
            rule_id: self.rule_id@,
            file_path: self.file_path@,
            line: self.line as int,
            column: self.column as int,
            message: self.message@,
            severity: self.severity,
            context: self.context@,
        }
    }
}

/// One registry slot: a rule together with its compiled pattern.
struct RuleEntry {
    rule: CustomRule,
    compiled: regex::Regex,
}

/// The registry without the rules carrying the given id, from index `i` on.
pub open spec fn remove_id_from(rules: Seq<CustomRuleV>, id: Seq<char>, i: int) -> Seq<CustomRuleV>
    decreases rules.len() - i,
{
    if i < 0 || i >= rules.len() {
        Seq::empty()
    } else {
        (if rules[i].id == id {
            Seq::empty()
        } else {
            seq![rules[i]]
        }) + remove_id_from(rules, id, i + 1)
    }
}

/// The registry without the rules carrying the given id.
pub open spec fn remove_id(rules: Seq<CustomRuleV>, id: Seq<char>) -> Seq<CustomRuleV> {
    remove_id_from(rules, id, 0)
}

/// What a successful registration leaves behind: any prior rule with the
/// same id is gone, the new rule stands at the end.
pub open spec fn spec_add(rules: Seq<CustomRuleV>, r: CustomRuleV) -> Seq<CustomRuleV> {
    remove_id(rules, r.id).push(r)
}

/// Removal leaves no rule carrying the removed id.
pub proof fn lemma_remove_no_id(rules: Seq<CustomRuleV>, id: Seq<char>, i: int)
    ensures
        forall|k: int|
            0 <= k < remove_id_from(rules, id, i).len() ==> (#[trigger] remove_id_from(
                rules,
                id,
                i,
            )[k]).id != id,
    decreases rules.len() - i,
{
    if 0 <= i < rules.len() {
        lemma_remove_no_id(rules, id, i + 1);
        let rest = remove_id_from(rules, id, i + 1);
        let head: Seq<CustomRuleV> = if rules[i].id == id {
            Seq::empty()
        } else {
            seq![rules[i]]
        };
        assert(remove_id_from(rules, id, i) == head + rest);
        assert forall|k: int| 0 <= k < remove_id_from(rules, id, i).len() implies (
        #[trigger] remove_id_from(rules, id, i)[k]).id != id by {
            if k < head.len() {
                assert(remove_id_from(rules, id, i)[k] == rules[i]);
            } else {
                assert(remove_id_from(rules, id, i)[k] == rest[k - head.len()]);
            }
        }
    }
}

/// Round trip: registering a rule and then removing its id leaves the
/// registry — and with it the compiled-pattern store, which shares its
/// slots — without any rule of that id; and since registration succeeds
/// exactly when the pattern compiles, registering the same rule again
/// succeeds as the first registration did.
pub proof fn lemma_add_remove_round_trip(rules: Seq<CustomRuleV>, r: CustomRuleV)
    ensures
        forall|k: int|
            0 <= k < remove_id(spec_add(rules, r), r.id).len() ==> (#[trigger] remove_id(
                spec_add(rules, r),
                r.id,
            )[k]).id != r.id,
{
    lemma_remove_no_id(spec_add(rules, r), r.id, 0);
}

/// The matches one enabled rule produces on the lines of a text, from
/// line index `j` on: at most one per line, at the leftmost match.
pub open spec fn text_rule_matches_from(
    r: CustomRuleV,
    path: Seq<char>,
    lines: Seq<Seq<char>>,
    j: int,
) -> Seq<RuleMatchV>
    decreases lines.len() - j,
{
    if j < 0 || j >= lines.len() {
        Seq::empty()
    } else {
        (match regex_find_at(r.pattern, lines[j]) {
            Some(p) => seq![
                RuleMatchV {
                    rule_id: r.id,
                    file_path: path,
                    line: j + 1,
                    column: p + 1,
                    message: r.message,
                    severity: r.severity,
                    context: lines[j],
                },
            ],
            None => Seq::empty(),
        }) + text_rule_matches_from(r, path, lines, j + 1)
    }
}

/// The matches of all enabled rules from index `i` on over a text's lines.
pub open spec fn text_matches_from(
    rules: Seq<CustomRuleV>,
    path: Seq<char>,
    lines: Seq<Seq<char>>,
    i: int,
) -> Seq<RuleMatchV>
    decreases rules.len() - i,
{
    if i < 0 || i >= rules.len() {
        Seq::empty()
    } else {
        (if rules[i].enabled {
            text_rule_matches_from(rules[i], path, lines, 0)
        } else {
            Seq::empty()
        }) + text_matches_from(rules, path, lines, i + 1)
    }
}

/// The first attribute from index `k` on that the pattern matches.
pub open spec fn first_attr_match(pattern: Seq<char>, attrs: Seq<AttrV>, k: int) -> Option<int>
    decreases attrs.len() - k,
{
    if k < 0 || k >= attrs.len() {
        None
    } else if regex_find_at(pattern, attrs[k].text) is Some {
        Some(k)
    } else {
        first_attr_match(pattern, attrs, k + 1)
    }
}

/// The match one rule produces on one declaration: its first matching
/// attribute short-circuits the signature test; else the signature.
pub open spec fn fn_rule_match(r: CustomRuleV, file: Seq<char>, f: FnDeclV) -> Option<RuleMatchV> {
    match first_attr_match(r.pattern, f.attrs, 0) {
        Some(k) => Some(
            RuleMatchV {
                rule_id: r.id,
                file_path: file,
                line: f.attrs[k].line,
                column: f.attrs[k].column,
                message: r.message,
                severity: r.severity,
                context: f.attrs[k].text,
            },
        ),
        None => if regex_find_at(r.pattern, f.sig_text) is Some {
            Some(
                RuleMatchV {
                    rule_id: r.id,
                    file_path: file,
                    line: f.line,
                    column: f.column,
                    message: r.message,
                    severity: r.severity,
                    context: f.sig_text,
                },
            )
        } else {
            None
        },
    }
}

/// The matches of all enabled rules from index `i` on, on one declaration.
pub open spec fn fn_matches_from(
    rules: Seq<CustomRuleV>,
    file: Seq<char>,
    f: FnDeclV,
    i: int,
) -> Seq<RuleMatchV>
    decreases rules.len() - i,
{
    if i < 0 || i >= rules.len() {
        Seq::empty()
    } else {
        (if rules[i].enabled {
            match fn_rule_match(rules[i], file, f) {
                Some(m) => seq![m],
                None => Seq::empty(),
            }
        } else {
            Seq::empty()
        }) + fn_matches_from(rules, file, f, i + 1)
    }
}

/// The matches of all enabled rules over the declarations from `k` on.
pub open spec fn tree_matches_from(rules: Seq<CustomRuleV>, t: SyntaxTreeV, k: int) -> Seq<
    RuleMatchV,
>
    decreases t.functions.len() - k,
{
    if k < 0 || k >= t.functions.len() {
        Seq::empty()
    } else {
        fn_matches_from(rules, t.file, t.functions[k], 0) + tree_matches_from(rules, t, k + 1)
    }
}

/// The runtime registry of custom rules.
pub struct CustomRuleEngine {
    entries: Vec<RuleEntry>,
}

impl CustomRuleEngine {
    /// The registered rules, in registration order.
    pub closed spec fn rules(&self) -> Seq<CustomRuleV> {
        self.entries@.map_values(|e: RuleEntry| e.rule@)
    }

    /// Every slot's compiled pattern was compiled from its rule's
    /// pattern text.
    pub closed spec fn wf(&self) -> bool {
        forall|i: int|
            0 <= i < self.entries@.len() ==> regex_src(
                (#[trigger] self.entries@[i]).compiled,
            ) == self.entries@[i].rule@.pattern
    }

    pub fn new() -> (r: Self)
        ensures
            r.rules() == Seq::<CustomRuleV>::empty(),
            r.wf(),
    {
        let r = CustomRuleEngine { entries: Vec::new() };
        proof {
            assert(r.rules() =~= Seq::<CustomRuleV>::empty());
        }
        r
    }

    /// Remove the rule with the given id, and with it its compiled
    /// pattern; removing an absent id changes nothing.
    pub fn remove_rule(&mut self, rule_id: &str)
        requires
            old(self).wf(),
        ensures
            final(self).rules() == remove_id(old(self).rules(), rule_id@),
            final(self).wf(),
    {
        let ghost orig = self.entries@;
        let ghost orig_rules = old(self).rules();
        let mut kept: Vec<RuleEntry> = Vec::new();
        let ghost mut c: int = 0;
        proof {
            assert(kept@.map_values(|e: RuleEntry| e.rule@) =~= Seq::<CustomRuleV>::empty());
            assert(self.entries@ =~= orig.skip(0));
        }
        while self.entries.len() > 0
            invariant
                orig_rules == orig.map_values(|e: RuleEntry| e.rule@),
                0 <= c <= orig.len(),
                self.entries@ == orig.skip(c),
                forall|i: int|
                    0 <= i < orig.len() ==> regex_src((#[trigger] orig[i]).compiled)
                        == orig[i].rule@.pattern,
                remove_id(orig_rules, rule_id@) == kept@.map_values(|e: RuleEntry| e.rule@)
                    + remove_id_from(orig_rules, rule_id@, c),
                forall|i: int|
                    0 <= i < kept@.len() ==> regex_src((#[trigger] kept@[i]).compiled)
                        == kept@[i].rule@.pattern,
            decreases self.entries@.len(),
        {
            let e = self.entries.remove(0);
            let ghost ev = e.rule@;
            proof {
                assert(orig.skip(c)[0] == orig[c]);
                assert(ev == orig_rules[c]);
                assert(orig.skip(c).skip(1) =~= orig.skip(c + 1));
            }
            let ghost old_map = kept@.map_values(|q: RuleEntry| q.rule@);
            if !str_eq(e.rule.id.as_str(), rule_id) {
                kept.push(e);
                proof {
                    assert(kept@.map_values(|q: RuleEntry| q.rule@) =~= old_map + seq![ev]);
                }
            }
            proof {
                assert(remove_id_from(orig_rules, rule_id@, c) == (if orig_rules[c].id == rule_id@ {
                    Seq::<CustomRuleV>::empty()
                } else {
                    seq![orig_rules[c]]
                }) + remove_id_from(orig_rules, rule_id@, c + 1));
                c = c + 1;
            }
        }
        proof {
            assert(remove_id_from(orig_rules, rule_id@, c) =~= Seq::<CustomRuleV>::empty());
            assert(kept@.map_values(|e: RuleEntry| e.rule@) =~= kept@.map_values(
                |e: RuleEntry| e.rule@,
            ) + remove_id_from(orig_rules, rule_id@, c));
        }
        self.entries = kept;
    }

    /// Register a rule: compile its pattern, and on success insert rule
    /// and pattern together, overwriting any prior rule with the same
    /// id. An invalid pattern rejects the registration and leaves the
    /// registry unchanged.
    pub fn add_rule(&mut self, rule: CustomRule) -> (r: Result<(), String>)
        requires
            old(self).wf(),
        ensures
            r is Ok <==> regex_ok(rule@.pattern),
            r is Ok ==> final(self).rules() == spec_add(old(self).rules(), rule@),
            r is Err ==> *final(self) == *old(self),
            r matches Err(m) ==> m@ == "invalid pattern: "@ + rule@.pattern,
            final(self).wf(),
    {
        let ghost rv = rule@;
        match compile_pattern(rule.pattern.as_str()) {
            Some(compiled) => {
                self.remove_rule(rule.id.as_str());
                let ghost removed = self.rules();
                self.entries.push(RuleEntry { rule, compiled });
                proof {
                    assert(self.rules() =~= removed.push(rv));
                }
                Ok(())
            },
            None => {
                let mut m = "invalid pattern: ".to_owned();
                m.append(rule.pattern.as_str());
                Err(m)
            },
        }
    }

    /// Replace a rule: validate the new pattern first, then swap the
    /// rule in; an invalid pattern leaves the previously registered
    /// rule intact.
    pub fn update_rule(&mut self, rule: CustomRule) -> (r: Result<(), String>)
        requires
            old(self).wf(),
        ensures
            r is Ok <==> regex_ok(rule@.pattern),
            r is Ok ==> final(self).rules() == spec_add(old(self).rules(), rule@),
            r is Err ==> *final(self) == *old(self),
            r matches Err(m) ==> m@ == "invalid pattern: "@ + rule@.pattern,
            final(self).wf(),
    {
        self.add_rule(rule)
    }

    /// Scan raw text line by line with every enabled rule: each rule
    /// fires at most once per line, at its leftmost match, recording the
    /// 1-based line, the 1-based match column, and the line as context.
    pub fn analyze_file(&self, file_path: &str, content: &str) -> (r: Vec<RuleMatch>)
        requires
            self.wf(),
        ensures
            r@.map_values(|m: RuleMatch| m@) == text_matches_from(
                self.rules(),
                file_path@,
                spec_lines(content@),
                0,
            ),
    {
        let lines = split_lines(content);
        let ghost linesv = spec_lines(content@);
        proof {
            assert(lines@.map_values(|l: String| l@) == linesv);
        }
        let mut out: Vec<RuleMatch> = Vec::new();
        let n = self.entries.len();
        let mut i: usize = 0;
        proof {
            assert(out@.map_values(|m: RuleMatch| m@) =~= Seq::<RuleMatchV>::empty());
        }
        while i < n
            invariant
                self.wf(),
                n == self.entries@.len(),
                0 <= i <= n,
                linesv == spec_lines(content@),
                lines@.map_values(|l: String| l@) == linesv,
                text_matches_from(self.rules(), file_path@, linesv, 0) == out@.map_values(
                    |m: RuleMatch| m@,
                ) + text_matches_from(self.rules(), file_path@, linesv, i as int),
            decreases n - i,
        {
            let ghost rv = self.rules()[i as int];
            proof {
                assert(rv == self.entries@[i as int].rule@);
            }
            if self.entries[i].rule.enabled {
                let nl = lines.len();
                let mut j: usize = 0;
                while j < nl
                    invariant
                        self.wf(),
                        n == self.entries@.len(),
                        0 <= i < n,
                        rv == self.rules()[i as int],
                        rv == self.entries@[i as int].rule@,
                        rv.enabled,
                        nl == lines@.len(),
                        0 <= j <= nl,
                        linesv == spec_lines(content@),
                        lines@.map_values(|l: String| l@) == linesv,
                        text_matches_from(self.rules(), file_path@, linesv, 0) == out@.map_values(
                            |m: RuleMatch| m@,
                        ) + text_rule_matches_from(rv, file_path@, linesv, j as int)
                            + text_matches_from(self.rules(), file_path@, linesv, i + 1),
                    decreases nl - j,
                {
                    let line = &lines[j];
                    let ghost lv = linesv[j as int];
                    proof {
                        assert(lv == line@);
                        assert(regex_src(self.entries@[i as int].compiled) == rv.pattern);
                    }
                    let ghost old_map = out@.map_values(|m: RuleMatch| m@);
                    match find_in(&self.entries[i].compiled, line.as_str()) {
                        Some(p) => {
                            let m = RuleMatch {
                                rule_id: self.entries[i].rule.id.clone(),
                                file_path: file_path.to_owned(),
                                line: j + 1,
                                column: p + 1,
                                message: self.entries[i].rule.message.clone(),
                                severity: self.entries[i].rule.severity,
                                context: line.clone(),
                            };
                            proof {
                                assert(regex_find_at(rv.pattern, lv) == Some(p as int));
                            }
                            out.push(m);
                            proof {
                                assert(out@.map_values(|q: RuleMatch| q@) =~= old_map + seq![
                                    RuleMatchV {
                                        rule_id: rv.id,
                                        file_path: file_path@,
                                        line: j + 1,
                                        column: p + 1,
                                        message: rv.message,
                                        severity: rv.severity,
                                        context: lv,
                                    },
                                ]);
                            }
                        },
                        None => {
                            proof {
                                assert(regex_find_at(rv.pattern, lv) is None);
                            }
                        },
                    }
                    proof {
                        assert(text_rule_matches_from(rv, file_path@, linesv, j as int) == (match
                            regex_find_at(rv.pattern, linesv[j as int]) {
                            Some(p) => seq![
                                RuleMatchV {
                                    rule_id: rv.id,
                                    file_path: file_path@,
                                    line: j + 1,
                                    column: p + 1,
                                    message: rv.message,
                                    severity: rv.severity,
                                    context: linesv[j as int],
                                },
                            ],
                            None => Seq::<RuleMatchV>::empty(),
                        }) + text_rule_matches_from(rv, file_path@, linesv, j + 1));
                    }
                    j = j + 1;
                }
                proof {
                    assert(text_rule_matches_from(rv, file_path@, linesv, j as int) =~= Seq::<
                        RuleMatchV,
                    >::empty());
                    assert(text_matches_from(self.rules(), file_path@, linesv, i as int)
                        == text_rule_matches_from(rv, file_path@, linesv, 0) + text_matches_from(
                        self.rules(),
                        file_path@,
                        linesv,
                        i + 1,
                    ));
                }
            } else {
                proof {
                    assert(text_matches_from(self.rules(), file_path@, linesv, i as int)
                        =~= text_matches_from(self.rules(), file_path@, linesv, i + 1));
                }
            }
            i = i + 1;
        }
        proof {
            assert(text_matches_from(self.rules(), file_path@, linesv, i as int) =~= Seq::<
                RuleMatchV,
            >::empty());
            assert(out@.map_values(|m: RuleMatch| m@) =~= out@.map_values(|m: RuleMatch| m@)
                + text_matches_from(self.rules(), file_path@, linesv, i as int));
        }
        out
    }

    /// Scan a tree with every enabled rule: per rule and function, the
    /// first matching attribute fires and short-circuits the signature
    /// test; otherwise a match on the signature text fires at the
    /// declaration's position.
    pub fn analyze_ast(&self, tree: &SyntaxTree) -> (r: Vec<RuleMatch>)
        requires
            self.wf(),
        ensures
            r@.map_values(|m: RuleMatch| m@) == tree_matches_from(self.rules(), tree@, 0),
    {
        let mut out: Vec<RuleMatch> = Vec::new();
        let nf = tree.functions.len();
        let mut k: usize = 0;
        proof {
            assert(out@.map_values(|m: RuleMatch| m@) =~= Seq::<RuleMatchV>::empty());
        }
        while k < nf
            invariant
                self.wf(),
                nf == tree.functions@.len(),
                0 <= k <= nf,
                tree_matches_from(self.rules(), tree@, 0) == out@.map_values(|m: RuleMatch| m@)
                    + tree_matches_from(self.rules(), tree@, k as int),
            decreases nf - k,
        {
            let f = &tree.functions[k];
            let ghost fv = tree@.functions[k as int];
            assert(fv == f@);
            let n = self.entries.len();
            let mut i: usize = 0;
            while i < n
                invariant
                    self.wf(),
                    nf == tree.functions@.len(),
                    0 <= k < nf,
                    fv == tree@.functions[k as int],
                    fv == f@,
                    n == self.entries@.len(),
                    0 <= i <= n,
                    tree_matches_from(self.rules(), tree@, 0) == out@.map_values(
                        |m: RuleMatch| m@,
                    ) + fn_matches_from(self.rules(), tree@.file, fv, i as int)
                        + tree_matches_from(self.rules(), tree@, k + 1),
                decreases n - i,
            {
                let ghost rv = self.rules()[i as int];
                proof {
                    assert(rv == self.entries@[i as int].rule@);
                    assert(regex_src(self.entries@[i as int].compiled) == rv.pattern);
                }
                let ghost old_map = out@.map_values(|m: RuleMatch| m@);
                if self.entries[i].rule.enabled {
                    let na = f.attrs.len();
                    let mut found: Option<usize> = None;
                    let mut j: usize = 0;
                    while found.is_none() && j < na
                        invariant
                            self.wf(),
                            0 <= i < n,
                            n == self.entries@.len(),
                            rv == self.entries@[i as int].rule@,
                            fv == f@,
                            na == f.attrs@.len(),
                            0 <= j <= na,
                            match found {
                                None => first_attr_match(rv.pattern, fv.attrs, 0)
                                    == first_attr_match(rv.pattern, fv.attrs, j as int),
                                Some(a) => first_attr_match(rv.pattern, fv.attrs, 0) == Some(
                                    a as int,
                                ) && a < na,
                            },
                        decreases na - j,
                    {
                        let ghost av = fv.attrs[j as int];
                        proof {
                            assert(av == f.attrs@[j as int]@);
                        }
                        match find_in(&self.entries[i].compiled, f.attrs[j].text.as_str()) {
                            Some(_) => {
                                proof {
                                    assert(regex_find_at(rv.pattern, av.text) is Some);
                                }
                                found = Some(j);
                            },
                            None => {
                                proof {
                                    assert(regex_find_at(rv.pattern, av.text) is None);
                                }
                            },
                        }
                        j = j + 1;
                    }
                    match found {
                        Some(a) => {
                            let attr = &f.attrs[a];
                            let m = RuleMatch {
                                rule_id: self.entries[i].rule.id.clone(),
                                file_path: tree.file.clone(),
                                line: attr.line,
                                column: attr.column,
                                message: self.entries[i].rule.message.clone(),
                                severity: self.entries[i].rule.severity,
                                context: attr.text.clone(),
                            };
                            proof {
                                assert(fn_rule_match(rv, tree@.file, fv) == Some(m@));
                            }
                            out.push(m);
                            proof {
                                assert(out@.map_values(|q: RuleMatch| q@) =~= old_map + seq![m@]);
                            }
                        },
                        None => {
                            proof {
                                assert(first_attr_match(rv.pattern, fv.attrs, j as int) is None);
                            }
                            match find_in(&self.entries[i].compiled, f.sig_text.as_str()) {
                                Some(_) => {
                                    let m = RuleMatch {
                                        rule_id: self.entries[i].rule.id.clone(),
                                        file_path: tree.file.clone(),
                                        line: f.line,
                                        column: f.column,
                                        message: self.entries[i].rule.message.clone(),
                                        severity: self.entries[i].rule.severity,
                                        context: f.sig_text.clone(),
                                    };
                                    proof {
                                        assert(regex_find_at(rv.pattern, fv.sig_text) is Some);
                                        assert(fn_rule_match(rv, tree@.file, fv) == Some(m@));
                                    }
                                    out.push(m);
                                    proof {
                                        assert(out@.map_values(|q: RuleMatch| q@) =~= old_map
                                            + seq![m@]);
                                    }
                                },
                                None => {
                                    proof {
                                        assert(regex_find_at(rv.pattern, fv.sig_text) is None);
                                        assert(fn_rule_match(rv, tree@.file, fv) is None);
                                    }
                                },
                            }
                        },
                    }
                }
                proof {
                    assert(fn_matches_from(self.rules(), tree@.file, fv, i as int) == (if self
                        .rules()[i as int].enabled {
                        match fn_rule_match(self.rules()[i as int], tree@.file, fv) {
                            Some(m) => seq![m],
                            None => Seq::<RuleMatchV>::empty(),
                        }
                    } else {
                        Seq::<RuleMatchV>::empty()
                    }) + fn_matches_from(self.rules(), tree@.file, fv, i + 1));
                }
                i = i + 1;
            }
            proof {
                assert(fn_matches_from(self.rules(), tree@.file, fv, i as int) =~= Seq::<
                    RuleMatchV,
                >::empty());
                assert(tree_matches_from(self.rules(), tree@, k as int) == fn_matches_from(
                    self.rules(),
                    tree@.file,
                    fv,
                    0,
                ) + tree_matches_from(self.rules(), tree@, k + 1));
            }
            k = k + 1;
        }
        proof {
            assert(tree_matches_from(self.rules(), tree@, k as int) =~= Seq::<
                RuleMatchV,
            >::empty());
            assert(out@.map_values(|m: RuleMatch| m@) =~= out@.map_values(|m: RuleMatch| m@)
                + tree_matches_from(self.rules(), tree@, k as int));
        }
        out
    }
}

} // verus!
