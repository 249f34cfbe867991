//! The table from type paths to marshalling rules.
use vstd::prelude::*;

verus! {

/// How an argument of one Rust type crosses the C boundary.
#[derive(Clone, Debug)]
pub struct MarshalRule {
    /// The type path the rule applies to, as `path_string` composes it.
    pub path: String,
    /// The name of the C-side type.
    pub c_type: String,
    /// The expression that converts the Rust value into the C value.
    pub expr: String,
}

pub struct RuleView {
    pub path: Seq<char>,
    pub c_type: Seq<char>,
    pub expr: Seq<char>,
}

impl MarshalRule {
    /// A copy of the rule, field by field.
    pub fn duplicate(&self) -> (r: MarshalRule)
        ensures
            r@ == self@,
    {
        MarshalRule { path: self.path.clone(), c_type: self.c_type.clone(), expr: self.expr.clone() }
    }
}

impl View for MarshalRule {
    type V = RuleView;

    open spec fn view(&self) -> RuleView {
        RuleView { path: self.path@, c_type: self.c_type@, expr: self.expr@ }
    }
}

pub open spec fn rule_views(rules: Seq<MarshalRule>) -> Seq<RuleView> {
    rules.map_values(|r: MarshalRule| r@)
}

/// The first rule of `rules` for `path`.
pub open spec fn first_rule(rules: Seq<MarshalRule>, path: Seq<char>) -> Option<RuleView>
    decreases rules.len(),
{
    if rules.len() == 0 {
        None
    } else if rules[0].path@ == path {
        Some(rules[0]@)
    } else {
        first_rule(rules.drop_first(), path)
    }
}

/// The marshalling rules. A path without a rule cannot be marshalled.
#[derive(Clone, Debug)]
pub struct MarshalTable {
    pub rules: Vec<MarshalRule>,
}

impl MarshalTable {
    pub open spec fn get(&self, path: Seq<char>) -> Option<RuleView> {
        first_rule(self.rules@, path)
    }

    /// The table with no rules: every type is unsupported.
    pub fn new() -> (t: MarshalTable)
        ensures
            forall|p: Seq<char>| t.get(p) is None,
    {
        MarshalTable { rules: Vec::new() }
    }

    /// The rule for `path`, if the table has one.
    pub fn lookup(&self, path: &String) -> (r: Option<MarshalRule>)
        ensures
            match r {
                Some(m) => self.get(path@) == Some(m@),
                None => self.get(path@) is None,
            },
    {
        let n = self.rules.len();
        let mut i: usize = 0;
        assert(self.rules@.subrange(0, n as int) =~= self.rules@);
        while i < n
            invariant
                n == self.rules@.len(),
                i <= n,
                self.get(path@) == first_rule(self.rules@.subrange(i as int, n as int), path@),
            decreases n - i,
        {
            assert(self.rules@.subrange(i as int, n as int).drop_first()
                =~= self.rules@.subrange(i + 1, n as int));
            assert(self.rules@.subrange(i as int, n as int)[0] == self.rules@[i as int]);
            if self.rules[i].path == *path {
                return Some(self.rules[i].duplicate());
            }
            i = i + 1;
        }
        None
    }

    /// Adds `rule` unless the table already has a rule for its path; says
    /// whether it was added.
    pub fn add(&mut self, rule: MarshalRule) -> (added: bool)
        ensures
            added == (old(self).get(rule.path@) is None),
            final(self).get(rule.path@) == Some(if added { rule@ } else { old(self).get(rule.path@)->0 }),
            forall|p: Seq<char>| p != rule.path@ ==> final(self).get(p) == old(self).get(p),
    {
        if self.lookup(&rule.path).is_some() {
            return false;
        }
        let ghost before = self.rules@;
        let ghost path = rule.path@;
        let ghost rv = rule@;
        self.rules.push(rule);
        proof {
            assert(self.rules@ == before.push(self.rules@.last()));
            assert forall|p: Seq<char>| #[trigger] first_rule(self.rules@, p) == match first_rule(before, p) {
                Some(x) => Some(x),
                None => if path == p { Some(rv) } else { None },
            } by {
                lemma_first_rule_push(before, self.rules@.last(), p);
            }
        }
        true
    }
}

proof fn lemma_first_rule_push(rules: Seq<MarshalRule>, rule: MarshalRule, p: Seq<char>)
    ensures
        first_rule(rules.push(rule), p) == match first_rule(rules, p) {
            Some(x) => Some(x),
            None => if rule.path@ == p { Some(rule@) } else { None },
        },
    decreases rules.len(),
{
    if rules.len() > 0 {
        assert(rules.push(rule)[0] == rules[0]);
        assert(rules.push(rule).drop_first() =~= rules.drop_first().push(rule));
        lemma_first_rule_push(rules.drop_first(), rule, p);
    } else {
        assert(rules.push(rule)[0] == rule);
        assert(rules.push(rule).drop_first() =~= Seq::<MarshalRule>::empty());
        assert(first_rule(Seq::<MarshalRule>::empty(), p) is None);
    }
}

} // verus!
