use vstd::prelude::*;
use crate::ast::{CompoundConstraint, Constraint, ConstraintOperator, collect_leaves, leaf_count, leaves};
use crate::schema::{DataType, Schema, find_key, has_key, key_index, keys_unique, type_in};
use crate::text::{int64_value, parse_i64, str_eq};

verus! {

/// A term of linear integer arithmetic.
#[derive(Debug, Clone, PartialEq, Eq)]
pub enum Term {
    /// An integer symbol.
    Var(String),
    /// An integer constant.
    Lit(i64),
}

/// Relations between two terms; `≠` is written as a negated `Eq`.
#[derive(Debug, Clone, Copy, PartialEq, Eq, Structural)]
pub enum Relation {
    Ge,
    Le,
    Gt,
    Lt,
    Eq,
}

/// A quantifier-free formula over integer terms.
#[derive(Debug, PartialEq, Eq)]
pub enum Formula {
    Atom(Term, Relation, Term),
    Not(Box<Formula>),
    And(Vec<Formula>),
    Or(Vec<Formula>),
}

/// Value of a term under an assignment of the symbols.
pub open spec fn term_value(t: Term, env: spec_fn(Seq<char>) -> int) -> int {
    match t {
        Term::Var(x) => env(x@),
        Term::Lit(n) => n as int,
    }
}

/// Meaning of a relation on integers.
pub open spec fn relation_holds(a: int, r: Relation, b: int) -> bool {
    match r {
        Relation::Ge => a >= b,
        Relation::Le => a <= b,
        Relation::Gt => a > b,
        Relation::Lt => a < b,
        Relation::Eq => a == b,
    }
}

/// Truth of a formula under an assignment.
pub open spec fn holds(f: Formula, env: spec_fn(Seq<char>) -> int) -> bool
    decreases f,
{
    match f {
        Formula::Atom(a, r, b) => relation_holds(term_value(a, env), r, term_value(b, env)),
        Formula::Not(g) => !holds(*g, env),
        Formula::And(fs) => holds_all(fs@, env),
        Formula::Or(fs) => holds_any(fs@, env),
    }
}

/// Every formula of the sequence holds.
pub open spec fn holds_all(fs: Seq<Formula>, env: spec_fn(Seq<char>) -> int) -> bool
    decreases fs,
{
    if fs.len() == 0 {
        true
    } else {
        holds_all(fs.drop_last(), env) && holds(fs.last(), env)
    }
}

/// Some formula of the sequence holds.
pub open spec fn holds_any(fs: Seq<Formula>, env: spec_fn(Seq<char>) -> int) -> bool
    decreases fs,
{
    if fs.len() == 0 {
        false
    } else {
        holds_any(fs.drop_last(), env) || holds(fs.last(), env)
    }
}

/// Meaning of a comparison operator on integers.
pub open spec fn compare(a: int, op: ConstraintOperator, b: int) -> bool {
    match op {
        ConstraintOperator::GreaterThanOrEqual => a >= b,
        ConstraintOperator::LessThanOrEqual => a <= b,
        ConstraintOperator::GreaterThan => a > b,
        ConstraintOperator::LessThan => a < b,
        ConstraintOperator::Equal => a == b,
        ConstraintOperator::NotEqual => a != b,
    }
}

/// Value of a right-hand side: a signed 64-bit literal, or a variable.
pub open spec fn right_value(v: Seq<char>, env: spec_fn(Seq<char>) -> int) -> int {
    match int64_value(v) {
        Some(n) => n as int,
        None => env(v),
    }
}

/// Truth of a leaf under an assignment.
pub open spec fn leaf_holds(k: Constraint, env: spec_fn(Seq<char>) -> int) -> bool {
    compare(env(k.left_variable@), k.operator, right_value(k.right_value@, env))
}

/// Truth of a tree under an assignment.
pub open spec fn satisfied(c: CompoundConstraint, env: spec_fn(Seq<char>) -> int) -> bool
    decreases c,
{
    match c {
        CompoundConstraint::Simple(k) => leaf_holds(k, env),
        CompoundConstraint::Not(inner) => !satisfied(*inner, env),
        CompoundConstraint::And(cs) => all_satisfied(cs@, env),
        CompoundConstraint::Or(cs) => any_satisfied(cs@, env),
    }
}

/// Every tree of the sequence is satisfied.
pub open spec fn all_satisfied(cs: Seq<CompoundConstraint>, env: spec_fn(Seq<char>) -> int) -> bool
    decreases cs,
{
    if cs.len() == 0 {
        true
    } else {
        all_satisfied(cs.drop_last(), env) && satisfied(cs.last(), env)
    }
}

/// Some tree of the sequence is satisfied.
pub open spec fn any_satisfied(cs: Seq<CompoundConstraint>, env: spec_fn(Seq<char>) -> int) -> bool
    decreases cs,
{
    if cs.len() == 0 {
        false
    } else {
        any_satisfied(cs.drop_last(), env) || satisfied(cs.last(), env)
    }
}

/// No `And` or `Or` node of the tree is empty.
pub open spec fn well_formed(c: CompoundConstraint) -> bool
    decreases c,
{
    match c {
        CompoundConstraint::Simple(_) => true,
        CompoundConstraint::Not(inner) => well_formed(*inner),
        CompoundConstraint::And(cs) => cs@.len() > 0 && all_well_formed(cs@),
        CompoundConstraint::Or(cs) => cs@.len() > 0 && all_well_formed(cs@),
    }
}

/// Every tree of the sequence is well formed.
pub open spec fn all_well_formed(cs: Seq<CompoundConstraint>) -> bool
    decreases cs,
{
    if cs.len() == 0 {
        true
    } else {
        all_well_formed(cs.drop_last()) && well_formed(cs.last())
    }
}

/// The term a right-hand side stands for.
pub open spec fn right_term(v: String) -> Term {
    match int64_value(v@) {
        Some(n) => Term::Lit(n),
        None => Term::Var(v),
    }
}

/// The relation of an operator, and whether it is negated (`≠`).
pub open spec fn relation_of(op: ConstraintOperator) -> (Relation, bool) {
    match op {
        ConstraintOperator::GreaterThanOrEqual => (Relation::Ge, false),
        ConstraintOperator::LessThanOrEqual => (Relation::Le, false),
        ConstraintOperator::GreaterThan => (Relation::Gt, false),
        ConstraintOperator::LessThan => (Relation::Lt, false),
        ConstraintOperator::Equal => (Relation::Eq, false),
        ConstraintOperator::NotEqual => (Relation::Eq, true),
    }
}

/// Whether `f` is the formula of the leaf `k`.
pub open spec fn leaf_translation(k: Constraint, f: Formula) -> bool {
    let atom = Formula::Atom(
        Term::Var(k.left_variable),
        relation_of(k.operator).0,
        right_term(k.right_value),
    );
    if relation_of(k.operator).1 {
        f == Formula::Not(Box::new(atom))
    } else {
        f == atom
    }
}

/// Whether `f` is the translation of the tree `c`: connective for
/// connective, leaf for leaf.
pub open spec fn translates(c: CompoundConstraint, f: Formula) -> bool
    decreases c,
{
    match c {
        CompoundConstraint::Simple(k) => leaf_translation(k, f),
        CompoundConstraint::Not(inner) => match f {
            Formula::Not(g) => translates(*inner, *g),
            _ => false,
        },
        CompoundConstraint::And(cs) => match f {
            Formula::And(fs) => translates_all(cs@, fs@),
            _ => false,
        },
        CompoundConstraint::Or(cs) => match f {
            Formula::Or(fs) => translates_all(cs@, fs@),
            _ => false,
        },
    }
}

/// `translates`, position by position.
pub open spec fn translates_all(cs: Seq<CompoundConstraint>, fs: Seq<Formula>) -> bool
    decreases cs,
{
    if cs.len() == 0 {
        fs.len() == 0
    } else {
        fs.len() == cs.len() && translates_all(cs.drop_last(), fs.drop_last()) && translates(
            cs.last(),
            fs.last(),
        )
    }
}

/// A translation has the meaning of the tree it translates.
pub proof fn lemma_translation_sound(c: CompoundConstraint, f: Formula, env: spec_fn(Seq<char>) -> int)
    requires
        translates(c, f),
    ensures
        holds(f, env) == satisfied(c, env),
    decreases c, 1nat,
{
    match c {
        CompoundConstraint::Simple(k) => {
            let rel = relation_of(k.operator).0;
            let atom = Formula::Atom(Term::Var(k.left_variable), rel, right_term(k.right_value));
            assert(term_value(right_term(k.right_value), env) == right_value(k.right_value@, env));
            assert(holds(atom, env) == relation_holds(
                env(k.left_variable@),
                rel,
                right_value(k.right_value@, env),
            ));
            if relation_of(k.operator).1 {
                let boxed = Formula::Not(Box::new(atom));
                assert(holds(boxed, env) == !holds(atom, env));
            }
        },
        CompoundConstraint::Not(inner) => {
            match f {
                Formula::Not(g) => lemma_translation_sound(*inner, *g, env),
                _ => {},
            }
        },
        CompoundConstraint::And(cs) => {
            match f {
                Formula::And(fs) => lemma_translation_all_sound(cs@, fs@, env),
                _ => {},
            }
        },
        CompoundConstraint::Or(cs) => {
            match f {
                Formula::Or(fs) => lemma_translation_all_sound(cs@, fs@, env),
                _ => {},
            }
        },
    }
}

/// `lemma_translation_sound` over sequences, for conjunction and disjunction.
pub proof fn lemma_translation_all_sound(
    cs: Seq<CompoundConstraint>,
    fs: Seq<Formula>,
    env: spec_fn(Seq<char>) -> int,
)
    requires
        translates_all(cs, fs),
    ensures
        holds_all(fs, env) == all_satisfied(cs, env),
        holds_any(fs, env) == any_satisfied(cs, env),
    decreases cs, 0nat,
{
    if cs.len() > 0 {
        lemma_translation_all_sound(cs.drop_last(), fs.drop_last(), env);
        lemma_translation_sound(cs.last(), fs.last(), env);
    }
}

/// The dual of an operator: its negation.
pub open spec fn dual(op: ConstraintOperator) -> ConstraintOperator {
    match op {
        ConstraintOperator::GreaterThanOrEqual => ConstraintOperator::LessThan,
        ConstraintOperator::LessThan => ConstraintOperator::GreaterThanOrEqual,
        ConstraintOperator::GreaterThan => ConstraintOperator::LessThanOrEqual,
        ConstraintOperator::LessThanOrEqual => ConstraintOperator::GreaterThan,
        ConstraintOperator::Equal => ConstraintOperator::NotEqual,
        ConstraintOperator::NotEqual => ConstraintOperator::Equal,
    }
}

/// The translation of a negated leaf is equivalent to the translation of
/// the leaf with the dual operator.
pub proof fn lemma_operator_duality(
    k: Constraint,
    negated: Formula,
    dualized: Formula,
    env: spec_fn(Seq<char>) -> int,
)
    requires
        translates(CompoundConstraint::Not(Box::new(CompoundConstraint::Simple(k))), negated),
        translates(
            CompoundConstraint::Simple(
                Constraint {
                    left_variable: k.left_variable,
                    operator: dual(k.operator),
                    right_value: k.right_value,
                },
            ),
            dualized,
        ),
    ensures
        holds(negated, env) == holds(dualized, env),
{
    let d = Constraint {
        left_variable: k.left_variable,
        operator: dual(k.operator),
        right_value: k.right_value,
    };
    lemma_translation_sound(
        CompoundConstraint::Not(Box::new(CompoundConstraint::Simple(k))),
        negated,
        env,
    );
    lemma_translation_sound(CompoundConstraint::Simple(d), dualized, env);
    let inner = CompoundConstraint::Simple(k);
    assert(satisfied(CompoundConstraint::Not(Box::new(inner)), env) == !satisfied(inner, env));
    assert(leaf_holds(d, env) == !leaf_holds(k, env));
}

/// Errors of the verification layer.
#[derive(Debug, Clone, PartialEq, Eq)]
pub enum VerificationError {
    /// The solver failed or gave no answer.
    SolverError(String),
    /// The tree cannot be translated (an empty conjunction or disjunction).
    TranslationError(String),
    /// The constraints have no model; the size of the unsat core is kept.
    Unsatisfiable { message: String, core_size: usize },
    /// A constraint of a kind the translation does not know.
    UnknownConstraintType,
}

/// Translates a leaf; `≠` becomes the negation of an equality.
pub fn translate_constraint(k: &Constraint) -> (r: Formula)
    ensures
        leaf_translation(*k, r),
{
    let left = Term::Var(k.left_variable.clone());
    let right = match parse_i64(k.right_value.as_str()) {
        Some(n) => Term::Lit(n),
        None => Term::Var(k.right_value.clone()),
    };
    match k.operator {
        ConstraintOperator::GreaterThanOrEqual => Formula::Atom(left, Relation::Ge, right),
        ConstraintOperator::LessThanOrEqual => Formula::Atom(left, Relation::Le, right),
        ConstraintOperator::GreaterThan => Formula::Atom(left, Relation::Gt, right),
        ConstraintOperator::LessThan => Formula::Atom(left, Relation::Lt, right),
        ConstraintOperator::Equal => Formula::Atom(left, Relation::Eq, right),
        ConstraintOperator::NotEqual => Formula::Not(
            Box::new(Formula::Atom(left, Relation::Eq, right)),
        ),
    }
}

/// Translates a tree connective for connective; an empty `And` or `Or`
/// anywhere is rejected as malformed.
pub fn translate_compound(c: &CompoundConstraint) -> (r: Result<Formula, VerificationError>)
    ensures
        r is Ok <==> well_formed(*c),
        r matches Ok(f) ==> translates(*c, f),
    decreases *c, 1nat,
{
    match c {
        CompoundConstraint::Simple(k) => Ok(translate_constraint(k)),
        CompoundConstraint::Not(inner) => match translate_compound(inner) {
            Ok(g) => Ok(Formula::Not(Box::new(g))),
            Err(e) => Err(e),
        },
        CompoundConstraint::And(cs) => {
            if cs.len() == 0 {
                return Err(VerificationError::TranslationError(String::from_str("empty conjunction")));
            }
            match translate_all(cs) {
                Ok(fs) => Ok(Formula::And(fs)),
                Err(e) => Err(e),
            }
        },
        CompoundConstraint::Or(cs) => {
            if cs.len() == 0 {
                return Err(VerificationError::TranslationError(String::from_str("empty disjunction")));
            }
            match translate_all(cs) {
                Ok(fs) => Ok(Formula::Or(fs)),
                Err(e) => Err(e),
            }
        },
    }
}

fn translate_all(cs: &Vec<CompoundConstraint>) -> (r: Result<Vec<Formula>, VerificationError>)
    ensures
        r is Ok <==> all_well_formed(cs@),
        r matches Ok(fs) ==> translates_all(cs@, fs@),
    decreases *cs, 0nat,
{
    let mut fs: Vec<Formula> = Vec::new();
    let mut i: usize = 0;
    while i < cs.len()
        invariant
            i <= cs.len(),
            fs@.len() == i,
            all_well_formed(cs@.subrange(0, i as int)),
            translates_all(cs@.subrange(0, i as int), fs@),
        decreases cs.len() - i,
    {
        proof {
            assert(cs@.subrange(0, i + 1).drop_last() == cs@.subrange(0, i as int));
            vstd::std_specs::vec::axiom_vec_index_decreases(*cs, i as int);
        }
        match translate_compound(&cs[i]) {
            Ok(f) => {
                let ghost before = fs@;
                fs.push(f);
                proof {
                    assert(fs@.drop_last() == before);
                }
            },
            Err(e) => {
                proof {
                    lemma_prefix_not_well_formed(cs@, i as int);
                }
                return Err(e);
            },
        }
        i = i + 1;
    }
    proof {
        assert(cs@.subrange(0, cs.len() as int) == cs@);
    }
    Ok(fs)
}

proof fn lemma_prefix_not_well_formed(cs: Seq<CompoundConstraint>, i: int)
    requires
        0 <= i < cs.len(),
        !well_formed(cs[i]),
    ensures
        !all_well_formed(cs),
    decreases cs.len(),
{
    if i < cs.len() - 1 {
        lemma_prefix_not_well_formed(cs.drop_last(), i);
    }
}

/// What the solver answered for one query.
#[derive(Debug, PartialEq, Eq)]
pub enum SolverReply {
    /// Satisfiable, with a value for each symbol.
    Sat { model: Vec<(String, i64)> },
    /// Unsatisfiable; only the size of the unsat core is reported.
    Unsat { core_size: usize },
    /// No answer (time out, cancellation, incompleteness).
    Unknown { reason: String },
}

/// The assignment a model gives: its value for a symbol it holds, 0 for
/// any other.
pub open spec fn model_env(m: Seq<(String, i64)>) -> spec_fn(Seq<char>) -> int {
    |x: Seq<char>|
        if has_key(m, x) {
            m[key_index(m, x)].1 as int
        } else {
            0int
        }
}

/// Whether no two entries of the model share a name.
pub fn keys_distinct(m: &Vec<(String, i64)>) -> (r: bool)
    ensures
        r == keys_unique(m@),
{
    let mut i: usize = 0;
    while i < m.len()
        invariant
            i <= m.len(),
            forall|a: int, b: int|
                0 <= a < i && 0 <= b < m@.len() && (#[trigger] m@[a]).0@ == (#[trigger] m@[b]).0@
                    ==> a == b,
        decreases m.len() - i,
    {
        let mut j: usize = 0;
        while j < m.len()
            invariant
                i < m.len(),
                j <= m.len(),
                forall|a: int, b: int|
                    0 <= a < i && 0 <= b < m@.len() && (#[trigger] m@[a]).0@ == (#[trigger] m@[b]).0@
                        ==> a == b,
                forall|b: int| 0 <= b < j && (#[trigger] m@[b]).0@ == m@[i as int].0@ ==> b == i,
            decreases m.len() - j,
        {
            if j != i && str_eq(m[i].0.as_str(), m[j].0.as_str()) {
                return false;
            }
            j = j + 1;
        }
        i = i + 1;
    }
    true
}

/// The model's value of a symbol (0 when it has none).
pub fn model_value(m: &Vec<(String, i64)>, name: &str) -> (r: i64)
    requires
        keys_unique(m@),
    ensures
        r as int == model_env(m@)(name@),
{
    match find_key(m, name) {
        Some(i) => {
            proof {
                let k = key_index(m@, name@);
                assert(m@[k].0@ == name@);
            }
            m[i].1
        },
        None => 0,
    }
}

/// Evaluates a leaf under a model.
pub fn evaluate_constraint(k: &Constraint, m: &Vec<(String, i64)>) -> (r: bool)
    requires
        keys_unique(m@),
    ensures
        r == leaf_holds(*k, model_env(m@)),
{
    let a = model_value(m, k.left_variable.as_str());
    let b = match parse_i64(k.right_value.as_str()) {
        Some(n) => n,
        None => model_value(m, k.right_value.as_str()),
    };
    match k.operator {
        ConstraintOperator::GreaterThanOrEqual => a >= b,
        ConstraintOperator::LessThanOrEqual => a <= b,
        ConstraintOperator::GreaterThan => a > b,
        ConstraintOperator::LessThan => a < b,
        ConstraintOperator::Equal => a == b,
        ConstraintOperator::NotEqual => a != b,
    }
}

/// Evaluates a tree under a model, with the operator semantics of the
/// constraint algebra.
pub fn evaluate(c: &CompoundConstraint, m: &Vec<(String, i64)>) -> (r: bool)
    requires
        keys_unique(m@),
    ensures
        r == satisfied(*c, model_env(m@)),
    decreases *c, 1nat,
{
    match c {
        CompoundConstraint::Simple(k) => evaluate_constraint(k, m),
        CompoundConstraint::Not(inner) => !evaluate(inner, m),
        CompoundConstraint::And(cs) => evaluate_all(cs, m).0,
        CompoundConstraint::Or(cs) => evaluate_all(cs, m).1,
    }
}

/// Whether all children hold, and whether some child holds.
fn evaluate_all(cs: &Vec<CompoundConstraint>, m: &Vec<(String, i64)>) -> (r: (bool, bool))
    requires
        keys_unique(m@),
    ensures
        r.0 == all_satisfied(cs@, model_env(m@)),
        r.1 == any_satisfied(cs@, model_env(m@)),
    decreases *cs, 0nat,
{
    let mut all = true;
    let mut any = false;
    let mut i: usize = 0;
    while i < cs.len()
        invariant
            i <= cs.len(),
            keys_unique(m@),
            all == all_satisfied(cs@.subrange(0, i as int), model_env(m@)),
            any == any_satisfied(cs@.subrange(0, i as int), model_env(m@)),
        decreases cs.len() - i,
    {
        proof {
            assert(cs@.subrange(0, i + 1).drop_last() == cs@.subrange(0, i as int));
            vstd::std_specs::vec::axiom_vec_index_decreases(*cs, i as int);
        }
        let v = evaluate(&cs[i], m);
        all = all && v;
        any = any || v;
        i = i + 1;
    }
    proof {
        assert(cs@.subrange(0, cs.len() as int) == cs@);
    }
    (all, any)
}

/// Whether the model names the variables of leaf `k`: its left variable,
/// and its right value unless that is an integer literal.
pub open spec fn names_leaf(m: Seq<(String, i64)>, k: Constraint) -> bool {
    has_key(m, k.left_variable@) && (int64_value(k.right_value@) is None ==> has_key(
        m,
        k.right_value@,
    ))
}

/// Whether the model names every variable of the tree.
pub open spec fn names_all(m: Seq<(String, i64)>, c: CompoundConstraint) -> bool {
    forall|i: int| 0 <= i < leaves(c).len() ==> names_leaf(m, #[trigger] leaves(c)[i])
}

/// Whether the model names every variable of the tree.
pub fn model_names_all(c: &CompoundConstraint, m: &Vec<(String, i64)>) -> (r: bool)
    ensures
        r == names_all(m@, *c),
{
    let mut ks: Vec<Constraint> = Vec::new();
    collect_leaves(c, &mut ks);
    proof {
        assert(ks@ =~= leaves(*c));
    }
    let mut i: usize = 0;
    while i < ks.len()
        invariant
            i <= ks@.len(),
            ks@ == leaves(*c),
            forall|j: int| 0 <= j < i ==> names_leaf(m@, #[trigger] ks@[j]),
        decreases ks@.len() - i,
    {
        let k = &ks[i];
        if find_key(m, k.left_variable.as_str()).is_none() {
            return false;
        }
        if parse_i64(k.right_value.as_str()).is_none() && find_key(m, k.right_value.as_str()).is_none() {
            return false;
        }
        i = i + 1;
    }
    true
}

/// Checks a solver reply against the tree it answers: a SAT model is kept
/// only when it names each symbol once, names every variable of the tree,
/// and satisfies the tree; otherwise
/// the reply becomes `Unknown`. UNSAT and UNKNOWN pass unchanged.
pub fn check_reply(c: &CompoundConstraint, reply: SolverReply) -> (r: SolverReply)
    ensures
        r matches SolverReply::Sat { model } ==> keys_unique(model@) && names_all(model@, *c)
            && satisfied(*c, model_env(model@)),
        match reply {
            SolverReply::Sat { model } => if keys_unique(model@) && names_all(model@, *c)
                && satisfied(*c, model_env(model@)) {
                r == reply
            } else {
                r is Unknown
            },
            _ => r == reply,
        },
{
    match reply {
        SolverReply::Sat { model } => {
            if keys_distinct(&model) && model_names_all(c, &model) && evaluate(c, &model) {
                SolverReply::Sat { model }
            } else {
                SolverReply::Unknown {
                    reason: String::from_str("the model does not satisfy the constraints"),
                }
            }
        },
        other => other,
    }
}

/// Truth of `a ∧ ¬b` under an assignment.
pub open spec fn differs(
    a: CompoundConstraint,
    b: CompoundConstraint,
    env: spec_fn(Seq<char>) -> int,
) -> bool {
    satisfied(a, env) && !satisfied(b, env)
}

/// Formula of `a ∧ ¬b`.
fn difference_query(a: &CompoundConstraint, b: &CompoundConstraint) -> (r: Result<
    Formula,
    VerificationError,
>)
    ensures
        r is Ok <==> well_formed(*a) && well_formed(*b),
        r matches Ok(q) ==> forall|env: spec_fn(Seq<char>) -> int|
            #[trigger] holds(q, env) == differs(*a, *b, env),
{
    let fa = match translate_compound(a) {
        Ok(f) => f,
        Err(e) => return Err(e),
    };
    let fb = match translate_compound(b) {
        Ok(f) => f,
        Err(e) => return Err(e),
    };
    let ghost ga = fa;
    let ghost gb = fb;
    let mut parts: Vec<Formula> = Vec::new();
    parts.push(fa);
    parts.push(Formula::Not(Box::new(fb)));
    let ghost ps = parts@;
    let q = Formula::And(parts);
    proof {
        let neg = Formula::Not(Box::new(gb));
        assert(ps.drop_last() =~= seq![ga]);
        assert(ps.drop_last().drop_last() =~= Seq::<Formula>::empty());
        assert forall|env: spec_fn(Seq<char>) -> int| #[trigger]
            holds(q, env) == differs(*a, *b, env) by {
            lemma_translation_sound(*a, ga, env);
            lemma_translation_sound(*b, gb, env);
            assert(holds(neg, env) == !holds(gb, env));
            assert(ps.len() == 2);
            assert(ps.last() == neg);
            assert(ps.drop_last().last() == ga);
            let one = ps.drop_last();
            assert(one.len() == 1);
            assert(one.drop_last() =~= Seq::<Formula>::empty());
            assert(holds_all(one.drop_last(), env));
            assert(holds_all(one, env) == (holds_all(one.drop_last(), env) && holds(one.last(), env)));
            assert(holds_all(one, env) == holds(ga, env));
            assert(holds_all(ps, env) == (holds(ga, env) && holds(neg, env)));
        }
    }
    Ok(q)
}

/// The two queries of an equivalence check: `a ∧ ¬b` and `b ∧ ¬a`. The
/// trees are equivalent exactly when both are unsatisfiable.
pub fn equivalence_queries(a: &CompoundConstraint, b: &CompoundConstraint) -> (r: Result<
    (Formula, Formula),
    VerificationError,
>)
    ensures
        r is Ok <==> well_formed(*a) && well_formed(*b),
        r matches Ok((q1, q2)) ==> forall|env: spec_fn(Seq<char>) -> int|
            #![trigger holds(q1, env)]
            #![trigger holds(q2, env)]
            holds(q1, env) == differs(*a, *b, env) && holds(q2, env) == differs(*b, *a, env),
{
    let q1 = match difference_query(a, b) {
        Ok(q) => q,
        Err(e) => return Err(e),
    };
    let q2 = match difference_query(b, a) {
        Ok(q) => q,
        Err(e) => return Err(e),
    };
    Ok((q1, q2))
}

/// The verdict of an equivalence check from the answers to its two
/// queries: equivalent only when both are UNSAT.
pub fn equivalence_verdict(first: &SolverReply, second: &SolverReply) -> (r: bool)
    ensures
        r == (first is Unsat && second is Unsat),
{
    match (first, second) {
        (SolverReply::Unsat { .. }, SolverReply::Unsat { .. }) => true,
        _ => false,
    }
}

/// A tree and the tree that negates its leaf with the dual operator are
/// equivalent: neither query of the equivalence check has a model.
pub proof fn lemma_negated_dual_equivalent(k: Constraint, env: spec_fn(Seq<char>) -> int)
    ensures
        ({
            let a = CompoundConstraint::Simple(k);
            let b = CompoundConstraint::Not(
                Box::new(
                    CompoundConstraint::Simple(
                        Constraint {
                            left_variable: k.left_variable,
                            operator: dual(k.operator),
                            right_value: k.right_value,
                        },
                    ),
                ),
            );
            !differs(a, b, env) && !differs(b, a, env)
        }),
{
    let d = Constraint {
        left_variable: k.left_variable,
        operator: dual(k.operator),
        right_value: k.right_value,
    };
    let inner = CompoundConstraint::Simple(d);
    assert(leaf_holds(d, env) == !leaf_holds(k, env));
    assert(satisfied(CompoundConstraint::Not(Box::new(inner)), env) == !satisfied(inner, env));
}

/// A variable compared strictly with itself has no model.
pub proof fn lemma_strict_self_comparison_unsat(k: Constraint, env: spec_fn(Seq<char>) -> int)
    requires
        k.left_variable@ == k.right_value@,
        int64_value(k.right_value@) is None,
        k.operator == ConstraintOperator::GreaterThan || k.operator == ConstraintOperator::LessThan
            || k.operator == ConstraintOperator::NotEqual,
    ensures
        !satisfied(CompoundConstraint::Simple(k), env),
{
}

/// Result of a satisfiability check.
#[derive(Debug, PartialEq, Eq)]
pub struct VerificationResultOutput {
    pub satisfiable: bool,
    pub model: Option<Vec<(String, i64)>>,
    pub proof: Option<String>,
    pub constraints_count: usize,
}

/// Reports a checked reply: SAT as a result with its model, UNSAT and
/// UNKNOWN as the matching errors.
pub fn reply_to_result(reply: SolverReply, constraints_count: usize) -> (r: Result<
    VerificationResultOutput,
    VerificationError,
>)
    ensures
        match reply {
            SolverReply::Sat { model } => r matches Ok(o) && o.satisfiable && o.model == Some(model)
                && o.constraints_count == constraints_count,
            SolverReply::Unsat { core_size } => r matches Err(
                VerificationError::Unsatisfiable { core_size: c, .. },
            ) && c == core_size,
            SolverReply::Unknown { reason } => r == Err::<VerificationResultOutput, _>(
                VerificationError::SolverError(reason),
            ),
        },
{
    match reply {
        SolverReply::Sat { model } => Ok(
            VerificationResultOutput {
                satisfiable: true,
                model: Some(model),
                proof: Some(String::from_str("Constraints are satisfiable")),
                constraints_count,
            },
        ),
        SolverReply::Unsat { core_size } => Err(
            VerificationError::Unsatisfiable {
                message: String::from_str("Constraints are unsatisfiable"),
                core_size,
            },
        ),
        SolverReply::Unknown { reason } => Err(VerificationError::SolverError(reason)),
    }
}

/// SMT-LIB symbol of an operator (`≠` is `distinct`).
pub open spec fn smt_op(op: ConstraintOperator) -> Seq<char> {
    match op {
        ConstraintOperator::GreaterThanOrEqual => ">="@,
        ConstraintOperator::LessThanOrEqual => "<="@,
        ConstraintOperator::GreaterThan => ">"@,
        ConstraintOperator::LessThan => "<"@,
        ConstraintOperator::Equal => "="@,
        ConstraintOperator::NotEqual => "distinct"@,
    }
}

/// Names declared after a list of leaves: each left variable and each
/// non-literal right value, once, in order of first use.
pub open spec fn declared_after(ks: Seq<Constraint>) -> Seq<Seq<char>>
    decreases ks.len(),
{
    if ks.len() == 0 {
        Seq::empty()
    } else {
        declared_next(declared_after(ks.drop_last()), ks.last())
    }
}

/// `d` with the names of `k` that it lacks.
pub open spec fn declared_next(d: Seq<Seq<char>>, k: Constraint) -> Seq<Seq<char>> {
    let d1 = if d.contains(k.left_variable@) {
        d
    } else {
        d.push(k.left_variable@)
    };
    if int64_value(k.right_value@) is None && !d1.contains(k.right_value@) {
        d1.push(k.right_value@)
    } else {
        d1
    }
}

/// An integer constant declaration.
pub open spec fn declaration(name: Seq<char>) -> Seq<char> {
    "(declare-const "@ + name + " Int)\n"@
}

/// The lines one leaf adds, given the names declared before it.
pub open spec fn smt_leaf(k: Constraint, d: Seq<Seq<char>>) -> Seq<char> {
    let left = if d.contains(k.left_variable@) {
        Seq::empty()
    } else {
        declaration(k.left_variable@)
    };
    let d1 = if d.contains(k.left_variable@) {
        d
    } else {
        d.push(k.left_variable@)
    };
    let right = if int64_value(k.right_value@) is None && !d1.contains(k.right_value@) {
        declaration(k.right_value@)
    } else {
        Seq::empty()
    };
    left + right + "(assert ("@ + smt_op(k.operator) + " "@ + k.left_variable@ + " "@
        + k.right_value@ + "))\n"@
}

/// Declarations and assertions of a list of leaves.
pub open spec fn smt_body(ks: Seq<Constraint>) -> Seq<char>
    decreases ks.len(),
{
    if ks.len() == 0 {
        Seq::empty()
    } else {
        smt_body(ks.drop_last()) + smt_leaf(ks.last(), declared_after(ks.drop_last()))
    }
}

/// The SMT-LIB script of a list of leaves.
pub open spec fn smt_script(ks: Seq<Constraint>) -> Seq<char> {
    "(set-logic QF_LIA)\n(set-option :produce-models true)\n\n"@ + smt_body(ks)
        + "\n(check-sat)\n(get-model)\n"@
}

/// Whether `name` is among the views of `names`.
pub(crate) fn contains_name(names: &Vec<String>, name: &str) -> (r: bool)
    ensures
        r == crate::text::views(names@).contains(name@),
{
    let mut i: usize = 0;
    while i < names.len()
        invariant
            i <= names.len(),
            forall|j: int| 0 <= j < i ==> (#[trigger] names@[j])@ != name@,
        decreases names.len() - i,
    {
        if str_eq(names[i].as_str(), name) {
            proof {
                assert(crate::text::views(names@)[i as int] == name@);
            }
            return true;
        }
        i = i + 1;
    }
    proof {
        if crate::text::views(names@).contains(name@) {
            let j = choose|j: int| 0 <= j < names@.len() && crate::text::views(names@)[j] == name@;
            assert(names@[j]@ == name@);
        }
    }
    false
}

/// Unit-size verification front: each check allocates its own solver
/// context, so the verifier holds no state.
#[derive(Debug, Clone, Copy, PartialEq, Eq)]
pub struct Z3Verifier;

impl Z3Verifier {
    /// A verifier.
    pub fn new() -> (r: Z3Verifier) {
        Z3Verifier
    }

    /// The conjunction of the leaves, one formula per leaf in order.
    pub fn prepare_constraints(&self, constraints: &[Constraint]) -> (r: Formula)
        ensures
            r matches Formula::And(fs) && fs@.len() == constraints@.len() && forall|i: int|
                0 <= i < fs@.len() ==> leaf_translation(constraints@[i], #[trigger] fs@[i]),
    {
        let mut fs: Vec<Formula> = Vec::new();
        let mut i: usize = 0;
        while i < constraints.len()
            invariant
                i <= constraints@.len(),
                fs@.len() == i,
                forall|j: int| 0 <= j < i ==> leaf_translation(constraints@[j], #[trigger] fs@[j]),
            decreases constraints@.len() - i,
        {
            let f = translate_constraint(&constraints[i]);
            fs.push(f);
            i = i + 1;
        }
        Formula::And(fs)
    }

    /// The formula of a tree; an empty `And` or `Or` is rejected.
    pub fn prepare_compound(&self, compound: &CompoundConstraint) -> (r: Result<
        Formula,
        VerificationError,
    >)
        ensures
            r is Ok <==> well_formed(*compound),
            r matches Ok(f) ==> translates(*compound, f),
    {
        translate_compound(compound)
    }

    /// SMT-LIB text of the leaves: the logic, one declaration per distinct
    /// symbol, one assertion per leaf, then `check-sat` and `get-model`.
    pub fn generate_smt_lib(&self, constraints: &[Constraint]) -> (r: String)
        ensures
            r@ == smt_script(constraints@),
    {
        let mut out = String::from_str("(set-logic QF_LIA)\n(set-option :produce-models true)\n\n");
        let mut declared: Vec<String> = Vec::new();
        let ghost head = out@;
        let mut i: usize = 0;
        while i < constraints.len()
            invariant
                i <= constraints@.len(),
                head == "(set-logic QF_LIA)\n(set-option :produce-models true)\n\n"@,
                out@ == head + smt_body(constraints@.subrange(0, i as int)),
                crate::text::views(declared@) == declared_after(constraints@.subrange(0, i as int)),
            decreases constraints@.len() - i,
        {
            proof {
                let q = constraints@.subrange(0, i + 1);
                assert(q.drop_last() == constraints@.subrange(0, i as int));
                assert(q.last() == constraints@[i as int]);
            }
            self.append_constraint_smt(&constraints[i], &mut out, &mut declared);
            i = i + 1;
        }
        proof {
            assert(constraints@.subrange(0, constraints@.len() as int) == constraints@);
        }
        out.append("\n(check-sat)\n(get-model)\n");
        out
    }

    /// Appends the declarations a leaf still needs, then its assertion.
    fn append_constraint_smt(&self, k: &Constraint, out: &mut String, declared: &mut Vec<String>)
        ensures
            final(out)@ == old(out)@ + smt_leaf(*k, crate::text::views(old(declared)@)),
            crate::text::views(final(declared)@) == declared_next(
                crate::text::views(old(declared)@),
                *k,
            ),
    {
        let ghost d = crate::text::views(declared@);
        let ghost before = out@;
        declare_if_new(out, declared, &k.left_variable);
        let ghost mid = out@;
        let ghost d1 = crate::text::views(declared@);
        let is_literal = parse_i64(k.right_value.as_str()).is_some();
        if !is_literal {
            declare_if_new(out, declared, &k.right_value);
        }
        let ghost mid2 = out@;
        out.append("(assert (");
        out.append(smt_symbol(k.operator));
        out.append(" ");
        out.append(k.left_variable.as_str());
        out.append(" ");
        out.append(k.right_value.as_str());
        out.append("))\n");
        proof {
            let left = if d.contains(k.left_variable@) {
                Seq::<char>::empty()
            } else {
                declaration(k.left_variable@)
            };
            let right = if int64_value(k.right_value@) is None && !d1.contains(k.right_value@) {
                declaration(k.right_value@)
            } else {
                Seq::<char>::empty()
            };
            assert(mid == before + left);
            assert(mid2 == mid + right);
            assert(out@ =~= before + smt_leaf(*k, d));
        }
    }
}

/// SMT-LIB symbol of an operator.
fn smt_symbol(op: ConstraintOperator) -> (r: &'static str)
    ensures
        r@ == smt_op(op),
{
    match op {
        ConstraintOperator::GreaterThanOrEqual => ">=",
        ConstraintOperator::LessThanOrEqual => "<=",
        ConstraintOperator::GreaterThan => ">",
        ConstraintOperator::LessThan => "<",
        ConstraintOperator::Equal => "=",
        ConstraintOperator::NotEqual => "distinct",
    }
}

/// Declares `name` unless it is declared already.
fn declare_if_new(out: &mut String, declared: &mut Vec<String>, name: &String)
    ensures
        crate::text::views(old(declared)@).contains(name@) ==> final(out)@ == old(out)@
            && final(declared)@ == old(declared)@,
        !crate::text::views(old(declared)@).contains(name@) ==> final(out)@ == old(out)@
            + declaration(name@) && crate::text::views(final(declared)@) == crate::text::views(
            old(declared)@,
        ).push(name@),
{
    if !contains_name(declared, name.as_str()) {
        out.append("(declare-const ");
        out.append(name.as_str());
        out.append(" Int)\n");
        let ghost d = crate::text::views(declared@);
        declared.push(name.clone());
        proof {
            assert(crate::text::views(declared@) =~= d.push(name@));
        }
    }
}

/// Verifies one leaf with a fresh verifier: the formula handed to the
/// solver.
pub fn verify_single_constraint(constraint: &Constraint) -> (r: Formula)
    ensures
        r matches Formula::And(fs) && fs@.len() == 1 && leaf_translation(*constraint, fs@[0]),
{
    let verifier = Z3Verifier::new();
    let mut one: Vec<Constraint> = Vec::new();
    one.push(constraint.duplicate());
    verifier.prepare_constraints(one.as_slice())
}

/// Whether `v` lies in the range of `dt`: the integer widths, or a custom
/// type's inclusive bounds; the other types set no range.
pub open spec fn in_type_range(dt: DataType, v: int) -> bool {
    match dt {
        DataType::Uint64 => 0 <= v <= u64::MAX,
        DataType::Uint32 => 0 <= v <= u32::MAX,
        DataType::Int64 => i64::MIN <= v <= i64::MAX,
        DataType::Int32 => i32::MIN <= v <= i32::MAX,
        DataType::Custom { range_min, range_max, .. } => (match range_min {
            Some(lo) => lo <= v,
            None => true,
        }) && (match range_max {
            Some(hi) => v <= hi,
            None => true,
        }),
        _ => true,
    }
}

/// The names of the model whose value lies outside the range of the type
/// the schema gives them, in model order.
pub open spec fn out_of_range_names(m: Seq<(String, i64)>, fields: Seq<(String, DataType)>) -> Seq<
    Seq<char>,
>
    decreases m.len(),
{
    if m.len() == 0 {
        Seq::empty()
    } else {
        let rest = out_of_range_names(m.drop_last(), fields);
        if in_type_range(type_in(fields, m.last().0@), m.last().1 as int) {
            rest
        } else {
            rest.push(m.last().0@)
        }
    }
}

fn value_in_range(dt: &DataType, v: i64) -> (r: bool)
    ensures
        r == in_type_range(*dt, v as int),
{
    match dt {
        DataType::Uint64 => v >= 0,
        DataType::Uint32 => v >= 0 && v <= 0xffff_ffff,
        DataType::Int64 => true,
        DataType::Int32 => v >= -0x8000_0000 && v <= 0x7fff_ffff,
        DataType::Custom { range_min, range_max, .. } => {
            let above = match range_min {
                Some(lo) => *lo <= v as i128,
                None => true,
            };
            let below = match range_max {
                Some(hi) => v as i128 <= *hi,
                None => true,
            };
            above && below
        },
        _ => true,
    }
}

/// Model values outside the declared type's range: a warning that leaves
/// the result valid.
pub fn model_out_of_range(model: &Vec<(String, i64)>, schema: &Schema) -> (r: Vec<String>)
    requires
        schema.wf(),
    ensures
        crate::text::views(r@) == out_of_range_names(model@, schema.fields@),
{
    let mut names: Vec<String> = Vec::new();
    let mut i: usize = 0;
    while i < model.len()
        invariant
            i <= model@.len(),
            schema.wf(),
            crate::text::views(names@) == out_of_range_names(
                model@.subrange(0, i as int),
                schema.fields@,
            ),
        decreases model@.len() - i,
    {
        proof {
            let q = model@.subrange(0, i + 1);
            assert(q.drop_last() == model@.subrange(0, i as int));
            assert(q.last() == model@[i as int]);
        }
        let dt = schema.get_type(model[i].0.as_str());
        if !value_in_range(&dt, model[i].1) {
            let ghost before = crate::text::views(names@);
            names.push(model[i].0.clone());
            proof {
                assert(crate::text::views(names@) =~= before.push(model@[i as int].0@));
            }
        }
        i = i + 1;
    }
    proof {
        assert(model@.subrange(0, model@.len() as int) == model@);
    }
    names
}

} // verus!
