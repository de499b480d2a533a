//! Validator used for checking scopes in a token.

use vstd::prelude::*;

use super::Scope;

verus! {

/// The mathematical shape of a validator: a boolean expression tree whose
/// leaves are canonical scope strings.
pub enum Expr {
    /// A single required scope, by its canonical string.
    Leaf(Seq<char>),
    /// True when every child is true; vacuously true when empty.
    All(Seq<Expr>),
    /// True when at least one child is true; false when empty.
    Any(Seq<Expr>),
    /// True when no child is true.
    Not(Seq<Expr>),
}

/// The set of canonical scope strings granted by a scope list.
pub open spec fn granted(scopes: Seq<Scope>) -> Set<Seq<char>> {
    Set::new(|t: Seq<char>| exists|i: int| 0 <= i < scopes.len() && scopes[i]@ == t)
}

impl Expr {
    /// Whether this expression is satisfied by the granted scope set.
    pub open spec fn sat(self, s: Set<Seq<char>>) -> bool
        decreases self,
    {
        match self {
            Expr::Leaf(t) => s.contains(t),
            Expr::All(cs) => all_sat(cs, s),
            Expr::Any(cs) => any_sat(cs, s),
            Expr::Not(cs) => !any_sat(cs, s),
        }
    }
}

/// Whether every expression of the list is satisfied by the granted set.
pub open spec fn all_sat(cs: Seq<Expr>, s: Set<Seq<char>>) -> bool
    decreases cs,
{
    if cs.len() == 0 {
        true
    } else {
        all_sat(cs.subrange(0, cs.len() - 1), s) && cs[cs.len() - 1].sat(s)
    }
}

/// Whether at least one expression of the list is satisfied by the granted set.
pub open spec fn any_sat(cs: Seq<Expr>, s: Set<Seq<char>>) -> bool
    decreases cs,
{
    if cs.len() == 0 {
        false
    } else {
        any_sat(cs.subrange(0, cs.len() - 1), s) || cs[cs.len() - 1].sat(s)
    }
}

/// A list is wholly satisfied exactly when each of its members is.
pub broadcast proof fn lemma_all_sat(cs: Seq<Expr>, s: Set<Seq<char>>)
    ensures
        #[trigger] all_sat(cs, s) <==> (forall|i: int|
            0 <= i < cs.len() ==> #[trigger] cs[i].sat(s)),
    decreases cs.len(),
{
    if cs.len() > 0 {
        let pre = cs.subrange(0, cs.len() - 1);
        lemma_all_sat(pre, s);
        if all_sat(cs, s) {
            assert forall|i: int| 0 <= i < cs.len() implies #[trigger] cs[i].sat(s) by {
                if i < cs.len() - 1 {
                    assert(pre[i].sat(s));
                }
            }
        }
        if forall|i: int| 0 <= i < cs.len() ==> #[trigger] cs[i].sat(s) {
            assert forall|i: int| 0 <= i < pre.len() implies #[trigger] pre[i].sat(s) by {
                assert(cs[i].sat(s));
            }
            assert(cs[cs.len() - 1].sat(s));
        }
    }
}

/// A list has a satisfied member exactly when some member is satisfied.
pub broadcast proof fn lemma_any_sat(cs: Seq<Expr>, s: Set<Seq<char>>)
    ensures
        #[trigger] any_sat(cs, s) <==> (exists|i: int|
            0 <= i < cs.len() && #[trigger] cs[i].sat(s)),
    decreases cs.len(),
{
    if cs.len() > 0 {
        let pre = cs.subrange(0, cs.len() - 1);
        lemma_any_sat(pre, s);
        if any_sat(cs, s) {
            if any_sat(pre, s) {
                let i = choose|i: int| 0 <= i < pre.len() && #[trigger] pre[i].sat(s);
                assert(cs[i].sat(s));
            } else {
                assert(cs[cs.len() - 1].sat(s));
            }
        }
        if exists|i: int| 0 <= i < cs.len() && #[trigger] cs[i].sat(s) {
            let i = choose|i: int| 0 <= i < cs.len() && #[trigger] cs[i].sat(s);
            if i < cs.len() - 1 {
                assert(pre[i].sat(s));
            }
        }
    }
}

/// The residual expressions of a list: each member's missing part, in order.
pub open spec fn missing_list(cs: Seq<Expr>, s: Set<Seq<char>>) -> Seq<Expr>
    decreases cs,
{
    if cs.len() == 0 {
        Seq::empty()
    } else {
        let pre = missing_list(cs.subrange(0, cs.len() - 1), s);
        match cs[cs.len() - 1].missing(s) {
            Some(m) => pre.push(m),
            None => pre,
        }
    }
}

/// The members of a list that are currently satisfied, in order.
pub open spec fn sat_list(cs: Seq<Expr>, s: Set<Seq<char>>) -> Seq<Expr>
    decreases cs,
{
    if cs.len() == 0 {
        Seq::empty()
    } else {
        let pre = sat_list(cs.subrange(0, cs.len() - 1), s);
        if cs[cs.len() - 1].sat(s) {
            pre.push(cs[cs.len() - 1])
        } else {
            pre
        }
    }
}

impl Expr {
    /// The pruned residual of this expression against the granted set:
    /// `None` when the expression is satisfied, otherwise exactly the unmet
    /// part, with satisfied children pruned away and singleton groups
    /// unwrapped. A `Not` residual keeps the offending children that are
    /// present but forbidden.
    pub open spec fn missing(self, s: Set<Seq<char>>) -> Option<Expr>
        decreases self,
    {
        if self.sat(s) {
            None
        } else {
            match self {
                Expr::Leaf(t) => Some(Expr::Leaf(t)),
                Expr::All(cs) => {
                    let ms = missing_list(cs, s);
                    if ms.len() == 0 {
                        None
                    } else if ms.len() == 1 {
                        Some(ms[0])
                    } else {
                        Some(Expr::All(ms))
                    }
                }
                Expr::Any(cs) => {
                    let ms = missing_list(cs, s);
                    if ms.len() == 0 {
                        None
                    } else if ms.len() == 1 {
                        Some(ms[0])
                    } else {
                        Some(Expr::Any(ms))
                    }
                }
                Expr::Not(cs) => {
                    let off = sat_list(cs, s);
                    if off.len() == 0 {
                        None
                    } else {
                        Some(Expr::Not(off))
                    }
                }
            }
        }
    }
}

/// The members of a list rendered as text, separated by `sep`.
pub open spec fn join_text(cs: Seq<Expr>, sep: Seq<char>) -> Seq<char>
    decreases cs,
{
    if cs.len() == 0 {
        Seq::empty()
    } else if cs.len() == 1 {
        cs[0].text()
    } else {
        join_text(cs.subrange(0, cs.len() - 1), sep) + sep + cs[cs.len() - 1].text()
    }
}

impl Expr {
    /// The rendering of this expression: leaves as their canonical scope
    /// string, `All` and `Any` groups parenthesized and joined with
    /// `" and "` or `" or "`, and `Not` as `not(...)` around its children.
    pub open spec fn text(self) -> Seq<char>
        decreases self,
    {
        match self {
            Expr::Leaf(t) => t,
            Expr::All(cs) => "("@ + join_text(cs, " and "@) + ")"@,
            Expr::Any(cs) => "("@ + join_text(cs, " or "@) + ")"@,
            Expr::Not(cs) => "not("@ + join_text(cs, ", "@) + ")"@,
        }
    }
}

/// A validator checks whether a list of scopes matches a predicate.
///
/// Build one with [`Validator::scope`], [`Validator::all_multiple`],
/// [`Validator::any_multiple`] and [`Validator::not`].
#[derive(Debug)]
pub enum Validator {
    /// A scope
    Scope(Scope),
    /// Matches when all validators passed inside match
    All(Vec<Validator>),
    /// Matches when **any** validator passed inside matches
    Any(Vec<Validator>),
    /// Matches when all validators passed inside fail to match
    Not(Vec<Validator>),
}

impl Validator {
    /// The expression tree this validator stands for.
    pub open spec fn model(self) -> Expr
        decreases self,
    {
        match self {
            Validator::Scope(s) => Expr::Leaf(s@),
            Validator::All(cs) => Expr::All(models(cs@)),
            Validator::Any(cs) => Expr::Any(models(cs@)),
            Validator::Not(cs) => Expr::Not(models(cs@)),
        }
    }
}

/// The expression trees of a list of validators, in order.
pub open spec fn models(s: Seq<Validator>) -> Seq<Expr>
    decreases s,
{
    if s.len() == 0 {
        Seq::empty()
    } else {
        models(s.subrange(0, s.len() - 1)).push(s[s.len() - 1].model())
    }
}

/// `models` maps each validator of a list to its expression tree.
pub broadcast proof fn lemma_models(s: Seq<Validator>)
    ensures
        (#[trigger] models(s)).len() == s.len(),
        forall|i: int| 0 <= i < s.len() ==> models(s)[i] == s[i].model(),
    decreases s.len(),
{
    if s.len() > 0 {
        lemma_models(s.subrange(0, s.len() - 1));
    }
}

impl View for Validator {
    type V = Expr;

    open spec fn view(&self) -> Expr {
        self.model()
    }
}

/// Whether the scope list holds a scope with the same canonical string.
fn contains_scope(scopes: &[Scope], s: &Scope) -> (r: bool)
    ensures
        r == granted(scopes@).contains(s@),
{
    let mut i: usize = 0;
    while i < scopes.len()
        invariant
            0 <= i <= scopes@.len(),
            forall|j: int| 0 <= j < i ==> scopes@[j]@ != s@,
        decreases scopes@.len() - i,
    {
        if scopes[i].eq(s) {
            return true;
        }
        i += 1;
    }
    false
}

impl Validator {
    /// Checks if the given scopes match the predicate.
    #[verifier::loop_isolation(false)]
    pub fn matches(&self, scopes: &[Scope]) -> (r: bool)
        ensures
            r == self@.sat(granted(scopes@)),
        decreases self,
    {
        broadcast use lemma_models, lemma_all_sat, lemma_any_sat;

        match self {
            Validator::Scope(s) => {
                let r = contains_scope(scopes, s);
                proof {
                    assert(self@ == Expr::Leaf(s@));
                    assert(self@.sat(granted(scopes@)) == granted(scopes@).contains(s@));
                }
                r
            }
            Validator::All(cs) => {
                let ghost g = granted(scopes@);
                let mut i: usize = 0;
                while i < cs.len()
                    invariant
                        0 <= i <= cs@.len(),
                        forall|j: int| 0 <= j < i ==> models(cs@)[j].sat(g),
                    decreases cs@.len() - i,
                {
                    if !cs[i].matches(scopes) {
                        proof {
                            assert(!models(cs@)[i as int].sat(g));
                            assert(!all_sat(models(cs@), g));
                            assert(self@ == Expr::All(models(cs@)));
                            assert(!self@.sat(g));
                        }
                        return false;
                    }
                    i += 1;
                }
                proof {
                    assert(all_sat(models(cs@), g));
                    assert(self@ == Expr::All(models(cs@)));
                    assert(self@.sat(g));
                }
                true
            }
            Validator::Any(cs) => {
                let ghost g = granted(scopes@);
                let mut i: usize = 0;
                while i < cs.len()
                    invariant
                        0 <= i <= cs@.len(),
                        forall|j: int| 0 <= j < i ==> !models(cs@)[j].sat(g),
                    decreases cs@.len() - i,
                {
                    if cs[i].matches(scopes) {
                        proof {
                            assert(models(cs@)[i as int].sat(g));
                            assert(any_sat(models(cs@), g));
                            assert(self@ == Expr::Any(models(cs@)));
                            assert(self@.sat(g));
                        }
                        return true;
                    }
                    i += 1;
                }
                proof {
                    assert(!any_sat(models(cs@), g));
                    assert(self@ == Expr::Any(models(cs@)));
                    assert(!self@.sat(g));
                }
                false
            }
            Validator::Not(cs) => {
                let ghost g = granted(scopes@);
                let mut i: usize = 0;
                while i < cs.len()
                    invariant
                        0 <= i <= cs@.len(),
                        forall|j: int| 0 <= j < i ==> !models(cs@)[j].sat(g),
                    decreases cs@.len() - i,
                {
                    if cs[i].matches(scopes) {
                        proof {
                            assert(models(cs@)[i as int].sat(g));
                            assert(any_sat(models(cs@), g));
                            assert(self@ == Expr::Not(models(cs@)));
                            assert(!self@.sat(g));
                        }
                        return false;
                    }
                    i += 1;
                }
                proof {
                    assert(!any_sat(models(cs@), g));
                    assert(self@ == Expr::Not(models(cs@)));
                    assert(self@.sat(g));
                }
                true
            }
        }
    }
}

/// Deep copies of a list of validators, with the same expression trees.
fn clone_validators(cs: &Vec<Validator>) -> (r: Vec<Validator>)
    ensures
        models(r@) == models(cs@),
        r@.len() == cs@.len(),
    decreases cs@,
{
    broadcast use lemma_models;

    let mut r: Vec<Validator> = Vec::new();
    let mut i: usize = 0;
    while i < cs.len()
        invariant
            0 <= i <= cs@.len(),
            r@.len() == i,
            forall|j: int| 0 <= j < i ==> models(r@)[j] == models(cs@)[j],
        decreases cs@.len() - i,
    {
        let ghost old_r = r@;
        let c = cs[i].clone();
        let ghost cv = c;
        r.push(c);
        proof {
            lemma_models_push(old_r, cv);
            lemma_models(old_r);
            lemma_models(cs@);
        }
        i += 1;
    }
    proof {
        assert(models(r@) =~= models(cs@));
    }
    r
}

impl Clone for Validator {
    /// A copy with the same expression tree.
    fn clone(&self) -> (r: Self)
        ensures
            r@ == self@,
        decreases self,
    {
        match self {
            Validator::Scope(s) => Validator::Scope(s.clone()),
            Validator::All(cs) => Validator::All(clone_validators(cs)),
            Validator::Any(cs) => Validator::Any(clone_validators(cs)),
            Validator::Not(cs) => Validator::Not(clone_validators(cs)),
        }
    }
}

/// The expression tree of an optional validator.
pub open spec fn opt_model(r: Option<Validator>) -> Option<Expr> {
    match r {
        Some(v) => Some(v@),
        None => None,
    }
}

/// Mapping to expression trees commutes with appending one validator.
proof fn lemma_models_push(s: Seq<Validator>, x: Validator)
    ensures
        models(s.push(x)) == models(s).push(x.model()),
{
    let p = s.push(x);
    assert(p.subrange(0, p.len() - 1) =~= s);
}

/// Extending a prefix by one member extends its residual list by that
/// member's residual, when there is one.
proof fn lemma_step_missing_list(cs: Seq<Expr>, s: Set<Seq<char>>, i: int)
    requires
        0 <= i < cs.len(),
    ensures
        missing_list(cs.subrange(0, i + 1), s) == match cs[i].missing(s) {
            Some(m) => missing_list(cs.subrange(0, i), s).push(m),
            None => missing_list(cs.subrange(0, i), s),
        },
{
    let a = cs.subrange(0, i + 1);
    assert(a.subrange(0, a.len() - 1) =~= cs.subrange(0, i));
    assert(a[a.len() - 1] == cs[i]);
}

/// Extending a prefix by one member extends its satisfied-member list by
/// that member, when it is satisfied.
proof fn lemma_step_sat_list(cs: Seq<Expr>, s: Set<Seq<char>>, i: int)
    requires
        0 <= i < cs.len(),
    ensures
        sat_list(cs.subrange(0, i + 1), s) == if cs[i].sat(s) {
            sat_list(cs.subrange(0, i), s).push(cs[i])
        } else {
            sat_list(cs.subrange(0, i), s)
        },
{
    let a = cs.subrange(0, i + 1);
    assert(a.subrange(0, a.len() - 1) =~= cs.subrange(0, i));
    assert(a[a.len() - 1] == cs[i]);
}

impl Validator {
    /// Returns a validator only containing the unmatched scopes: `None` when
    /// the given scopes already match, otherwise the pruned residual
    /// requirement.
    #[verifier::loop_isolation(false)]
    pub fn missing(&self, scopes: &[Scope]) -> (r: Option<Validator>)
        ensures
            opt_model(r) == self@.missing(granted(scopes@)),
        decreases self,
    {
        broadcast use lemma_models;

        let ghost g = granted(scopes@);
        if self.matches(scopes) {
            return None;
        }
        match self {
            Validator::Scope(s) => {
                proof {
                    assert(self@ == Expr::Leaf(s@));
                }
                Some(Validator::Scope(s.clone()))
            }
            Validator::All(cs) => {
                proof {
                    assert(self@ == Expr::All(models(cs@)));
                }
                let mut ms: Vec<Validator> = Vec::new();
                let mut i: usize = 0;
                while i < cs.len()
                    invariant
                        0 <= i <= cs@.len(),
                        models(ms@) == missing_list(models(cs@).subrange(0, i as int), g),
                    decreases cs@.len() - i,
                {
                    proof {
                        lemma_step_missing_list(models(cs@), g, i as int);
                    }
                    let ghost old_ms = ms@;
                    match cs[i].missing(scopes) {
                        Some(m) => {
                            let ghost mv = m;
                            ms.push(m);
                            proof {
                                lemma_models_push(old_ms, mv);
                            }
                        }
                        None => {}
                    }
                    i += 1;
                }
                proof {
                    assert(models(cs@).subrange(0, cs@.len() as int) =~= models(cs@));
                }
                if ms.len() == 0 {
                    None
                } else if ms.len() == 1 {
                    let ghost full = ms@;
                    let m = ms.pop().unwrap();
                    proof {
                        assert(m == full[0]);
                        assert(models(full)[0] == m@);
                    }
                    Some(m)
                } else {
                    Some(Validator::All(ms))
                }
            }
            Validator::Any(cs) => {
                proof {
                    assert(self@ == Expr::Any(models(cs@)));
                }
                let mut ms: Vec<Validator> = Vec::new();
                let mut i: usize = 0;
                while i < cs.len()
                    invariant
                        0 <= i <= cs@.len(),
                        models(ms@) == missing_list(models(cs@).subrange(0, i as int), g),
                    decreases cs@.len() - i,
                {
                    proof {
                        lemma_step_missing_list(models(cs@), g, i as int);
                    }
                    let ghost old_ms = ms@;
                    match cs[i].missing(scopes) {
                        Some(m) => {
                            let ghost mv = m;
                            ms.push(m);
                            proof {
                                lemma_models_push(old_ms, mv);
                            }
                        }
                        None => {}
                    }
                    i += 1;
                }
                proof {
                    assert(models(cs@).subrange(0, cs@.len() as int) =~= models(cs@));
                }
                if ms.len() == 0 {
                    None
                } else if ms.len() == 1 {
                    let ghost full = ms@;
                    let m = ms.pop().unwrap();
                    proof {
                        assert(m == full[0]);
                        assert(models(full)[0] == m@);
                    }
                    Some(m)
                } else {
                    Some(Validator::Any(ms))
                }
            }
            Validator::Not(cs) => {
                proof {
                    assert(self@ == Expr::Not(models(cs@)));
                }
                let mut off: Vec<Validator> = Vec::new();
                let mut i: usize = 0;
                while i < cs.len()
                    invariant
                        0 <= i <= cs@.len(),
                        models(off@) == sat_list(models(cs@).subrange(0, i as int), g),
                    decreases cs@.len() - i,
                {
                    proof {
                        lemma_step_sat_list(models(cs@), g, i as int);
                    }
                    if cs[i].matches(scopes) {
                        let ghost old_off = off@;
                        let c = cs[i].clone();
                        let ghost cv = c;
                        off.push(c);
                        proof {
                            lemma_models_push(old_off, cv);
                        }
                    }
                    i += 1;
                }
                proof {
                    assert(models(cs@).subrange(0, cs@.len() as int) =~= models(cs@));
                }
                if off.len() == 0 {
                    None
                } else {
                    Some(Validator::Not(off))
                }
            }
        }
    }
}

/// Extending a prefix by one member appends a separator (after the first
/// member) and that member's text.
proof fn lemma_step_join_text(cs: Seq<Expr>, sep: Seq<char>, i: int)
    requires
        0 <= i < cs.len(),
    ensures
        join_text(cs.subrange(0, i + 1), sep) == if i == 0 {
            cs[0].text()
        } else {
            join_text(cs.subrange(0, i), sep) + sep + cs[i].text()
        },
{
    let a = cs.subrange(0, i + 1);
    assert(a.subrange(0, a.len() - 1) =~= cs.subrange(0, i));
    assert(a[a.len() - 1] == cs[i]);
}

/// The members of a list of validators rendered as text, separated by `sep`.
#[verifier::loop_isolation(false)]
fn join_validators(cs: &Vec<Validator>, sep: &str) -> (r: String)
    ensures
        r@ == join_text(models(cs@), sep@),
    decreases cs@,
{
    let mut out = String::new();
    let mut i: usize = 0;
    while i < cs.len()
        invariant
            0 <= i <= cs@.len(),
            out@ == join_text(models(cs@).subrange(0, i as int), sep@),
        decreases cs@.len() - i,
    {
        proof {
            lemma_models(cs@);
            lemma_step_join_text(models(cs@), sep@, i as int);
        }
        if i != 0 {
            out.append(sep);
        }
        let t = cs[i].to_text();
        out.append(t.as_str());
        i += 1;
    }
    proof {
        lemma_models(cs@);
        assert(models(cs@).subrange(0, cs@.len() as int) =~= models(cs@));
    }
    out
}

impl Validator {
    /// The rendering of this validator, as [`Expr::text`] describes it.
    pub fn to_text(&self) -> (r: String)
        ensures
            r@ == self@.text(),
        decreases self,
    {
        match self {
            Validator::Scope(s) => {
                proof {
                    assert(self@ == Expr::Leaf(s@));
                }
                s.as_str().to_owned()
            }
            Validator::All(cs) => {
                proof {
                    assert(self@ == Expr::All(models(cs@)));
                }
                let mut out = "(".to_owned();
                let j = join_validators(cs, " and ");
                out.append(j.as_str());
                out.append(")");
                out
            }
            Validator::Any(cs) => {
                proof {
                    assert(self@ == Expr::Any(models(cs@)));
                }
                let mut out = "(".to_owned();
                let j = join_validators(cs, " or ");
                out.append(j.as_str());
                out.append(")");
                out
            }
            Validator::Not(cs) => {
                proof {
                    assert(self@ == Expr::Not(models(cs@)));
                }
                let mut out = "not(".to_owned();
                let j = join_validators(cs, ", ");
                out.append(j.as_str());
                out.append(")");
                out
            }
        }
    }

    /// Create a validator which matches if the scope is present.
    pub fn scope(scope: Scope) -> (r: Validator)
        ensures
            r@ == Expr::Leaf(scope@),
    {
        Validator::Scope(scope)
    }

    /// Create a validator which matches if all validators passed inside match.
    pub fn all_multiple(ands: Vec<Validator>) -> (r: Validator)
        ensures
            r@ == Expr::All(models(ands@)),
    {
        Validator::All(ands)
    }

    /// Create a validator which matches if **any** validator passed inside matches.
    pub fn any_multiple(anys: Vec<Validator>) -> (r: Validator)
        ensures
            r@ == Expr::Any(models(anys@)),
    {
        Validator::Any(anys)
    }

    /// Create a validator which matches if the validator passed inside fails
    /// to match. Negation takes exactly one validator.
    pub fn not(not: Validator) -> (r: Validator)
        ensures
            r@ == Expr::Not(seq![not@]),
    {
        let ghost nv = not;
        let mut v: Vec<Validator> = Vec::new();
        v.push(not);
        proof {
            lemma_models(v@);
            assert(models(v@) =~= seq![nv.model()]);
        }
        Validator::Not(v)
    }

    /// Convert `self` to `self`.
    ///
    /// This function does not change anything; it lets scopes and validators
    /// be written uniformly when composing requirements.
    pub fn to_validator(self) -> (r: Self)
        ensures
            r == self,
    {
        self
    }
}

impl From<Scope> for Validator {
    fn from(scope: Scope) -> Self {
        Validator::Scope(scope)
    }
}

impl vstd::std_specs::convert::FromSpecImpl<Scope> for Validator {
    open spec fn obeys_from_spec() -> bool {
        true
    }

    open spec fn from_spec(scope: Scope) -> Validator {
        Validator::Scope(scope)
    }
}

impl Expr {
    /// Whether no `Any` group anywhere in the expression is empty. An empty
    /// `Any` can never be satisfied, and its pruned residual is empty as
    /// well, so such groups are the one place where an unsatisfied
    /// expression reports nothing missing.
    pub open spec fn no_empty_any(self) -> bool
        decreases self,
    {
        match self {
            Expr::Leaf(_) => true,
            Expr::All(cs) => list_no_empty_any(cs),
            Expr::Any(cs) => cs.len() > 0 && list_no_empty_any(cs),
            Expr::Not(cs) => list_no_empty_any(cs),
        }
    }
}

/// Whether every member of the list is free of empty `Any` groups.
pub open spec fn list_no_empty_any(cs: Seq<Expr>) -> bool
    decreases cs,
{
    if cs.len() == 0 {
        true
    } else {
        list_no_empty_any(cs.subrange(0, cs.len() - 1)) && cs[cs.len() - 1].no_empty_any()
    }
}

/// A list is free of empty `Any` groups exactly when each member is.
pub broadcast proof fn lemma_list_no_empty_any(cs: Seq<Expr>)
    ensures
        #[trigger] list_no_empty_any(cs) <==> (forall|i: int|
            0 <= i < cs.len() ==> #[trigger] cs[i].no_empty_any()),
    decreases cs.len(),
{
    if cs.len() > 0 {
        let pre = cs.subrange(0, cs.len() - 1);
        lemma_list_no_empty_any(pre);
        if list_no_empty_any(cs) {
            assert forall|i: int| 0 <= i < cs.len() implies #[trigger] cs[i].no_empty_any() by {
                if i < cs.len() - 1 {
                    assert(pre[i].no_empty_any());
                }
            }
        }
        if forall|i: int| 0 <= i < cs.len() ==> #[trigger] cs[i].no_empty_any() {
            assert forall|i: int| 0 <= i < pre.len() implies #[trigger] pre[i].no_empty_any() by {
                assert(cs[i].no_empty_any());
            }
            assert(cs[cs.len() - 1].no_empty_any());
        }
    }
}

/// When some member of the list has a residual, the residual list is not
/// empty.
proof fn lemma_missing_list_has(cs: Seq<Expr>, s: Set<Seq<char>>, i: int)
    requires
        0 <= i < cs.len(),
        cs[i].missing(s) is Some,
    ensures
        missing_list(cs, s).len() > 0,
    decreases cs.len(),
{
    if i < cs.len() - 1 {
        let pre = cs.subrange(0, cs.len() - 1);
        lemma_missing_list_has(pre, s, i);
    }
}

/// When some member of the list is satisfied, the satisfied-member list is
/// not empty.
proof fn lemma_sat_list_has(cs: Seq<Expr>, s: Set<Seq<char>>, i: int)
    requires
        0 <= i < cs.len(),
        cs[i].sat(s),
    ensures
        sat_list(cs, s).len() > 0,
    decreases cs.len(),
{
    if i < cs.len() - 1 {
        let pre = cs.subrange(0, cs.len() - 1);
        lemma_sat_list_has(pre, s, i);
    }
}

/// An expression without empty `Any` groups is satisfied exactly when it has
/// no missing residual.
pub proof fn lemma_sat_iff_no_missing(e: Expr, s: Set<Seq<char>>)
    requires
        e.no_empty_any(),
    ensures
        e.sat(s) <==> e.missing(s) is None,
    decreases e,
{
    broadcast use lemma_all_sat, lemma_any_sat, lemma_list_no_empty_any;

    if !e.sat(s) {
        match e {
            Expr::Leaf(t) => {}
            Expr::All(cs) => {
                assert(list_no_empty_any(cs));
                assert(!all_sat(cs, s));
                assert(exists|i: int| 0 <= i < cs.len() && !(#[trigger] cs[i].sat(s)));
                let i = choose|i: int| 0 <= i < cs.len() && !(#[trigger] cs[i].sat(s));
                assert(cs[i].no_empty_any());
                lemma_sat_iff_no_missing(cs[i], s);
                lemma_missing_list_has(cs, s, i);
            }
            Expr::Any(cs) => {
                assert(cs.len() > 0 && list_no_empty_any(cs));
                assert(!any_sat(cs, s));
                assert(!cs[0].sat(s));
                assert(cs[0].no_empty_any());
                lemma_sat_iff_no_missing(cs[0], s);
                lemma_missing_list_has(cs, s, 0);
            }
            Expr::Not(cs) => {
                assert(any_sat(cs, s));
                assert(exists|i: int| 0 <= i < cs.len() && #[trigger] cs[i].sat(s));
                let i = choose|i: int| 0 <= i < cs.len() && #[trigger] cs[i].sat(s);
                lemma_sat_list_has(cs, s, i);
            }
        }
    }
}

/// An empty `all()` requirement matches any granted set.
pub proof fn lemma_empty_all_sat(s: Set<Seq<char>>)
    ensures
        Expr::All(Seq::empty()).sat(s),
{
}

/// An empty `any()` requirement matches no granted set.
pub proof fn lemma_empty_any_unsat(s: Set<Seq<char>>)
    ensures
        !Expr::Any(Seq::empty()).sat(s),
{
}

/// Negation of a single expression is satisfied exactly when that
/// expression is not.
pub proof fn lemma_not_single(x: Expr, s: Set<Seq<char>>)
    ensures
        Expr::Not(seq![x]).sat(s) == !x.sat(s),
{
    broadcast use lemma_any_sat;

    if x.sat(s) {
        assert(seq![x][0].sat(s));
        assert(any_sat(seq![x], s));
    }
    if any_sat(seq![x], s) {
        let i = choose|i: int| 0 <= i < seq![x].len() && #[trigger] seq![x][i].sat(s);
        assert(seq![x][i] == x);
    }
}

/// Wrapping a single expression in `all(...)` leaves its residual
/// unchanged: no redundant group is reported.
pub proof fn lemma_singleton_all_missing(x: Expr, s: Set<Seq<char>>)
    ensures
        Expr::All(seq![x]).missing(s) == x.missing(s),
{
    broadcast use lemma_all_sat;

    let cs = seq![x];
    assert(cs.subrange(0, 0) =~= Seq::<Expr>::empty());
    assert(missing_list(cs.subrange(0, 0), s) == Seq::<Expr>::empty());
    if Expr::All(cs).sat(s) {
        assert(all_sat(cs, s));
        assert(cs[0].sat(s));
        assert(x.missing(s) is None);
    } else {
        if x.sat(s) {
            assert forall|i: int| 0 <= i < cs.len() implies #[trigger] cs[i].sat(s) by {
                assert(cs[i] == x);
            }
            assert(all_sat(cs, s));
            assert(Expr::All(cs).sat(s));
        }
        let ms = missing_list(cs, s);
        if x.missing(s) is Some {
            assert(ms =~= seq![x.missing(s).unwrap()]);
        } else {
            assert(ms =~= Seq::<Expr>::empty());
        }
    }
}

/// Every member of a satisfied-member list is satisfied.
proof fn lemma_sat_list_sat(cs: Seq<Expr>, s: Set<Seq<char>>)
    ensures
        forall|k: int| 0 <= k < sat_list(cs, s).len() ==> #[trigger] sat_list(cs, s)[k].sat(s),
    decreases cs.len(),
{
    if cs.len() > 0 {
        let pre = cs.subrange(0, cs.len() - 1);
        lemma_sat_list_sat(pre, s);
        let lp = sat_list(pre, s);
        let l = sat_list(cs, s);
        assert forall|k: int| 0 <= k < l.len() implies #[trigger] l[k].sat(s) by {
            if k < lp.len() {
                assert(l[k] == lp[k]);
            }
        }
    }
}

/// Every member of a residual list is itself unsatisfied.
proof fn lemma_missing_list_unsat(cs: Seq<Expr>, s: Set<Seq<char>>)
    ensures
        forall|k: int|
            0 <= k < missing_list(cs, s).len() ==> !(#[trigger] missing_list(cs, s)[k].sat(s)),
    decreases cs,
{
    if cs.len() > 0 {
        let pre = cs.subrange(0, cs.len() - 1);
        lemma_missing_list_unsat(pre, s);
        let lp = missing_list(pre, s);
        let l = missing_list(cs, s);
        let last = cs[cs.len() - 1];
        if last.missing(s) is Some {
            lemma_missing_unsat(last, s);
        }
        assert forall|k: int| 0 <= k < l.len() implies !(#[trigger] l[k].sat(s)) by {
            if k < lp.len() {
                assert(l[k] == lp[k]);
            }
        }
    }
}

/// The residual reported by `missing` is itself never satisfied by the very
/// scopes it was computed against.
pub proof fn lemma_missing_unsat(e: Expr, s: Set<Seq<char>>)
    requires
        e.missing(s) is Some,
    ensures
        !e.missing(s).unwrap().sat(s),
    decreases e,
{
    broadcast use lemma_all_sat, lemma_any_sat;

    assert(!e.sat(s));
    match e {
        Expr::Leaf(t) => {
            assert(e.missing(s).unwrap() == Expr::Leaf(t));
            assert(Expr::Leaf(t).positive() && Expr::Leaf(t).no_empty_any());
        }
        Expr::All(cs) => {
            lemma_missing_list_unsat(cs, s);
            let ms = missing_list(cs, s);
            if ms.len() >= 2 {
                assert(!ms[0].sat(s));
                assert(!all_sat(ms, s));
                assert(!Expr::All(ms).sat(s));
            }
        }
        Expr::Any(cs) => {
            lemma_missing_list_unsat(cs, s);
            let ms = missing_list(cs, s);
            if ms.len() >= 2 {
                assert(!any_sat(ms, s));
                assert(!Expr::Any(ms).sat(s));
            }
        }
        Expr::Not(cs) => {
            lemma_sat_list_sat(cs, s);
            let off = sat_list(cs, s);
            assert(off[0].sat(s));
            assert(any_sat(off, s));
            assert(!Expr::Not(off).sat(s));
        }
    }
}

impl Expr {
    /// Whether the expression contains no negation: a purely additive
    /// requirement that more scopes can only help.
    pub open spec fn positive(self) -> bool
        decreases self,
    {
        match self {
            Expr::Leaf(_) => true,
            Expr::All(cs) => list_positive(cs),
            Expr::Any(cs) => list_positive(cs),
            Expr::Not(_) => false,
        }
    }

    /// The canonical strings of all leaves of the expression.
    pub open spec fn leaves(self) -> Set<Seq<char>>
        decreases self,
    {
        match self {
            Expr::Leaf(t) => Set::empty().insert(t),
            Expr::All(cs) => list_leaves(cs),
            Expr::Any(cs) => list_leaves(cs),
            Expr::Not(cs) => list_leaves(cs),
        }
    }
}

/// Whether every member of the list is free of negation.
pub open spec fn list_positive(cs: Seq<Expr>) -> bool
    decreases cs,
{
    if cs.len() == 0 {
        true
    } else {
        list_positive(cs.subrange(0, cs.len() - 1)) && cs[cs.len() - 1].positive()
    }
}

/// The canonical strings of all leaves of the members of the list.
pub open spec fn list_leaves(cs: Seq<Expr>) -> Set<Seq<char>>
    decreases cs,
{
    if cs.len() == 0 {
        Set::empty()
    } else {
        list_leaves(cs.subrange(0, cs.len() - 1)).union(cs[cs.len() - 1].leaves())
    }
}

/// A list is free of negation exactly when each member is.
pub broadcast proof fn lemma_list_positive(cs: Seq<Expr>)
    ensures
        #[trigger] list_positive(cs) <==> (forall|i: int|
            0 <= i < cs.len() ==> #[trigger] cs[i].positive()),
    decreases cs.len(),
{
    if cs.len() > 0 {
        let pre = cs.subrange(0, cs.len() - 1);
        lemma_list_positive(pre);
        if list_positive(cs) {
            assert forall|i: int| 0 <= i < cs.len() implies #[trigger] cs[i].positive() by {
                if i < cs.len() - 1 {
                    assert(pre[i].positive());
                }
            }
        }
        if forall|i: int| 0 <= i < cs.len() ==> #[trigger] cs[i].positive() {
            assert forall|i: int| 0 <= i < pre.len() implies #[trigger] pre[i].positive() by {
                assert(cs[i].positive());
            }
            assert(cs[cs.len() - 1].positive());
        }
    }
}

/// Each member's leaves are within the list's leaves.
proof fn lemma_list_leaves_member(cs: Seq<Expr>, i: int)
    requires
        0 <= i < cs.len(),
    ensures
        cs[i].leaves().subset_of(list_leaves(cs)),
    decreases cs.len(),
{
    let pre = cs.subrange(0, cs.len() - 1);
    if i < cs.len() - 1 {
        lemma_list_leaves_member(pre, i);
        assert(pre[i] == cs[i]);
        assert forall|t: Seq<char>| cs[i].leaves().contains(t) implies list_leaves(
            cs,
        ).contains(t) by {
            assert(list_leaves(pre).contains(t));
        }
    }
}

/// A positive expression stays satisfied when the granted set grows.
pub proof fn lemma_positive_monotone(e: Expr, s1: Set<Seq<char>>, s2: Set<Seq<char>>)
    requires
        e.positive(),
        s1.subset_of(s2),
        e.sat(s1),
    ensures
        e.sat(s2),
    decreases e,
{
    broadcast use lemma_all_sat, lemma_any_sat, lemma_list_positive;

    match e {
        Expr::Leaf(t) => {
            assert(s2.contains(t));
        }
        Expr::All(cs) => {
            assert(list_positive(cs));
            assert(all_sat(cs, s1));
            assert forall|i: int| 0 <= i < cs.len() implies #[trigger] cs[i].sat(s2) by {
                assert(cs[i].sat(s1));
                assert(cs[i].positive());
                lemma_positive_monotone(cs[i], s1, s2);
            }
            assert(all_sat(cs, s2));
        }
        Expr::Any(cs) => {
            assert(list_positive(cs));
            assert(any_sat(cs, s1));
            let i = choose|i: int| 0 <= i < cs.len() && #[trigger] cs[i].sat(s1);
            assert(cs[i].positive());
            lemma_positive_monotone(cs[i], s1, s2);
            assert(any_sat(cs, s2));
        }
        Expr::Not(cs) => {
            assert(!e.positive());
        }
    }
}

/// A positive expression without empty `Any` groups is satisfied once all
/// of its own leaves are granted as well.
pub proof fn lemma_sat_with_leaves(e: Expr, s: Set<Seq<char>>)
    requires
        e.positive(),
        e.no_empty_any(),
    ensures
        e.sat(s.union(e.leaves())),
    decreases e,
{
    broadcast use lemma_all_sat, lemma_any_sat, lemma_list_positive, lemma_list_no_empty_any;

    match e {
        Expr::Leaf(t) => {
            assert(e.leaves().contains(t));
            assert(s.union(e.leaves()).contains(t));
        }
        Expr::All(cs) => {
            assert(list_positive(cs) && list_no_empty_any(cs));
            assert forall|i: int| 0 <= i < cs.len() implies #[trigger] cs[i].sat(
                s.union(list_leaves(cs)),
            ) by {
                assert(cs[i].positive() && cs[i].no_empty_any());
                lemma_sat_with_leaves(cs[i], s);
                lemma_list_leaves_member(cs, i);
                assert(s.union(cs[i].leaves()).subset_of(s.union(list_leaves(cs))));
                lemma_positive_monotone(
                    cs[i],
                    s.union(cs[i].leaves()),
                    s.union(list_leaves(cs)),
                );
            }
            assert(all_sat(cs, s.union(list_leaves(cs))));
        }
        Expr::Any(cs) => {
            assert(cs.len() > 0 && list_positive(cs) && list_no_empty_any(cs));
            assert(cs[0].positive() && cs[0].no_empty_any());
            lemma_sat_with_leaves(cs[0], s);
            lemma_list_leaves_member(cs, 0);
            assert(s.union(cs[0].leaves()).subset_of(s.union(list_leaves(cs))));
            lemma_positive_monotone(cs[0], s.union(cs[0].leaves()), s.union(list_leaves(cs)));
            assert(any_sat(cs, s.union(list_leaves(cs))));
        }
        Expr::Not(cs) => {
            assert(!e.positive());
        }
    }
}

/// Every member of the residual list of a negation-free list is itself
/// negation-free and has no empty `Any` group.
proof fn lemma_missing_list_shape(cs: Seq<Expr>, s: Set<Seq<char>>)
    requires
        list_positive(cs),
    ensures
        forall|k: int|
            0 <= k < missing_list(cs, s).len() ==> (#[trigger] missing_list(cs, s)[k].positive()
                && missing_list(cs, s)[k].no_empty_any()),
    decreases cs,
{
    broadcast use lemma_list_positive;

    if cs.len() > 0 {
        let pre = cs.subrange(0, cs.len() - 1);
        assert(list_positive(pre)) by {
            assert(forall|i: int| 0 <= i < pre.len() ==> #[trigger] pre[i].positive());
        }
        lemma_missing_list_shape(pre, s);
        let lp = missing_list(pre, s);
        let l = missing_list(cs, s);
        let last = cs[cs.len() - 1];
        if last.missing(s) is Some {
            assert(last.positive());
            lemma_missing_shape(last, s);
        }
        assert forall|k: int| 0 <= k < l.len() implies (#[trigger] l[k].positive()
            && l[k].no_empty_any()) by {
            if k < lp.len() {
                assert(l[k] == lp[k]);
            }
        }
    }
}

/// The residual of a negation-free expression is negation-free and has no
/// empty `Any` group, even where the expression itself had one.
pub proof fn lemma_missing_shape(e: Expr, s: Set<Seq<char>>)
    requires
        e.positive(),
        e.missing(s) is Some,
    ensures
        e.missing(s).unwrap().positive(),
        e.missing(s).unwrap().no_empty_any(),
    decreases e,
{
    broadcast use lemma_list_positive, lemma_list_no_empty_any;

    assert(!e.sat(s));
    match e {
        Expr::Leaf(t) => {
            assert(e.missing(s).unwrap() == Expr::Leaf(t));
            assert(Expr::Leaf(t).positive() && Expr::Leaf(t).no_empty_any());
        }
        Expr::All(cs) => {
            assert(list_positive(cs));
            lemma_missing_list_shape(cs, s);
            let ms = missing_list(cs, s);
            if ms.len() >= 2 {
                assert forall|k: int| 0 <= k < ms.len() implies #[trigger] ms[k].positive() by {}
                assert forall|k: int| 0 <= k < ms.len() implies #[trigger] ms[k].no_empty_any() by {
                    assert(ms[k].positive());
                }
                assert(list_positive(ms) && list_no_empty_any(ms));
            }
        }
        Expr::Any(cs) => {
            assert(list_positive(cs));
            lemma_missing_list_shape(cs, s);
            let ms = missing_list(cs, s);
            if ms.len() >= 2 {
                assert forall|k: int| 0 <= k < ms.len() implies #[trigger] ms[k].positive() by {}
                assert forall|k: int| 0 <= k < ms.len() implies #[trigger] ms[k].no_empty_any() by {
                    assert(ms[k].positive());
                }
                assert(list_positive(ms) && list_no_empty_any(ms));
            }
        }
        Expr::Not(cs) => {
            assert(!e.positive());
        }
    }
}

/// The residual of a negation-free requirement names a real, satisfiable
/// gap: some extension of the granted scopes satisfies it — in particular,
/// granting every scope the residual itself names.
pub proof fn lemma_missing_satisfiable(e: Expr, s: Set<Seq<char>>)
    requires
        e.positive(),
        e.missing(s) is Some,
    ensures
        exists|s2: Set<Seq<char>>|
            s.subset_of(s2) && e.missing(s).unwrap().sat(s2),
{
    let r = e.missing(s).unwrap();
    lemma_missing_shape(e, s);
    lemma_sat_with_leaves(r, s);
    let s2 = s.union(r.leaves());
    assert(s.subset_of(s2) && r.sat(s2));
}

/// A two-member `all` group renders as its members joined with `" and "`,
/// in parentheses.
pub proof fn lemma_text_all_pair(a: Expr, b: Expr)
    ensures
        Expr::All(seq![a, b]).text() == "("@ + a.text() + " and "@ + b.text() + ")"@,
{
    let cs = seq![a, b];
    assert(cs.subrange(0, 1) =~= seq![a]);
    assert(join_text(cs.subrange(0, 1), " and "@) == a.text());
    assert(Expr::All(cs).text() =~= "("@ + a.text() + " and "@ + b.text() + ")"@);
}

/// A two-member `any` group renders as its members joined with `" or "`,
/// in parentheses.
pub proof fn lemma_text_any_pair(a: Expr, b: Expr)
    ensures
        Expr::Any(seq![a, b]).text() == "("@ + a.text() + " or "@ + b.text() + ")"@,
{
    let cs = seq![a, b];
    assert(cs.subrange(0, 1) =~= seq![a]);
    assert(join_text(cs.subrange(0, 1), " or "@) == a.text());
    assert(Expr::Any(cs).text() =~= "("@ + a.text() + " or "@ + b.text() + ")"@);
}

/// A single-member negation renders as `not(...)` around that member.
pub proof fn lemma_text_not_single(b: Expr)
    ensures
        Expr::Not(seq![b]).text() == "not("@ + b.text() + ")"@,
{
    assert(Expr::Not(seq![b]).text() =~= "not("@ + b.text() + ")"@);
}

} // verus!
