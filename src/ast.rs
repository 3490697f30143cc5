use vstd::prelude::*;

verus! {

/// Comparison operators of a leaf constraint.
#[derive(Debug, Clone, Copy, PartialEq, Eq, Structural)]
pub enum ConstraintOperator {
    GreaterThanOrEqual,
    LessThanOrEqual,
    GreaterThan,
    LessThan,
    Equal,
    NotEqual,
}

/// A leaf constraint: `left_variable operator right_value`.
#[derive(Debug, Clone, PartialEq, Eq)]
pub struct Constraint {
    pub left_variable: String,
    pub operator: ConstraintOperator,
    pub right_value: String,
}

impl Constraint {
    /// A copy of the leaf.
    pub fn duplicate(&self) -> (r: Constraint)
        ensures
            r == *self,
    {
        Constraint {
            left_variable: self.left_variable.clone(),
            operator: self.operator,
            right_value: self.right_value.clone(),
        }
    }
}

/// A boolean tree over leaf constraints.
#[derive(Debug, PartialEq, Eq)]
pub enum CompoundConstraint {
    And(Vec<CompoundConstraint>),
    Or(Vec<CompoundConstraint>),
    Not(Box<CompoundConstraint>),
    Simple(Constraint),
}

/// The `Simple` leaves of `c`, left to right.
pub open spec fn leaves(c: CompoundConstraint) -> Seq<Constraint>
    decreases c,
{
    match c {
        CompoundConstraint::Simple(k) => seq![k],
        CompoundConstraint::Not(inner) => leaves(*inner),
        CompoundConstraint::And(cs) => leaves_seq(cs@),
        CompoundConstraint::Or(cs) => leaves_seq(cs@),
    }
}

/// The leaves of a sequence of trees, tree after tree.
pub open spec fn leaves_seq(cs: Seq<CompoundConstraint>) -> Seq<Constraint>
    decreases cs,
{
    if cs.len() == 0 {
        Seq::empty()
    } else {
        leaves_seq(cs.drop_last()) + leaves(cs.last())
    }
}

/// Number of `Simple` nodes reachable from `c`.
pub open spec fn leaf_count(c: CompoundConstraint) -> nat
    decreases c,
{
    match c {
        CompoundConstraint::Simple(_) => 1,
        CompoundConstraint::Not(inner) => leaf_count(*inner),
        CompoundConstraint::And(cs) => leaf_count_seq(cs@),
        CompoundConstraint::Or(cs) => leaf_count_seq(cs@),
    }
}

/// Sum of `leaf_count` over a sequence of trees.
pub open spec fn leaf_count_seq(cs: Seq<CompoundConstraint>) -> nat
    decreases cs,
{
    if cs.len() == 0 {
        0
    } else {
        leaf_count_seq(cs.drop_last()) + leaf_count(cs.last())
    }
}

/// The leaves of a prefix are no more than the leaves of the whole sequence.
pub proof fn lemma_prefix_count_le(cs: Seq<CompoundConstraint>, j: int)
    requires
        0 <= j <= cs.len(),
    ensures
        leaf_count_seq(cs.subrange(0, j)) <= leaf_count_seq(cs),
    decreases cs.len() - j,
{
    if j < cs.len() {
        lemma_prefix_count_le(cs, j + 1);
        assert(cs.subrange(0, j + 1).drop_last() == cs.subrange(0, j));
    } else {
        assert(cs.subrange(0, j) == cs);
    }
}

/// The count of a tree is the number of leaves its traversal enumerates.
pub proof fn lemma_count_is_leaf_number(c: CompoundConstraint)
    ensures
        leaf_count(c) == leaves(c).len(),
    decreases c, 1nat,
{
    match c {
        CompoundConstraint::Simple(_) => {},
        CompoundConstraint::Not(inner) => lemma_count_is_leaf_number(*inner),
        CompoundConstraint::And(cs) => lemma_count_seq_is_leaf_number(cs@),
        CompoundConstraint::Or(cs) => lemma_count_seq_is_leaf_number(cs@),
    }
}

/// `lemma_count_is_leaf_number` over a sequence of trees.
pub proof fn lemma_count_seq_is_leaf_number(cs: Seq<CompoundConstraint>)
    ensures
        leaf_count_seq(cs) == leaves_seq(cs).len(),
    decreases cs, 0nat,
{
    if cs.len() > 0 {
        lemma_count_seq_is_leaf_number(cs.drop_last());
        lemma_count_is_leaf_number(cs.last());
    }
}

impl CompoundConstraint {
    /// Counts the `Simple` nodes of the tree.
    pub fn count_constraints(&self) -> (r: usize)
        requires
            leaf_count(*self) <= usize::MAX,
        ensures
            r == leaf_count(*self),
        decreases *self, 1nat,
    {
        match self {
            CompoundConstraint::Simple(_) => 1,
            CompoundConstraint::Not(inner) => inner.count_constraints(),
            CompoundConstraint::And(cs) => count_all(cs),
            CompoundConstraint::Or(cs) => count_all(cs),
        }
    }
}

/// Sums `count_constraints` over the children of a node.
fn count_all(cs: &Vec<CompoundConstraint>) -> (r: usize)
    requires
        leaf_count_seq(cs@) <= usize::MAX,
    ensures
        r == leaf_count_seq(cs@),
    decreases *cs, 0nat,
{
    let mut total: usize = 0;
    let mut i: usize = 0;
    while i < cs.len()
        invariant
            i <= cs.len(),
            leaf_count_seq(cs@) <= usize::MAX,
            total == leaf_count_seq(cs@.subrange(0, i as int)),
        decreases cs.len() - i,
    {
        proof {
            assert(cs@.subrange(0, i + 1).drop_last() == cs@.subrange(0, i as int));
            lemma_prefix_count_le(cs@, i + 1);
            vstd::std_specs::vec::axiom_vec_index_decreases(*cs, i as int);
        }
        let n = cs[i].count_constraints();
        total = total + n;
        i = i + 1;
    }
    proof {
        assert(cs@.subrange(0, cs.len() as int) == cs@);
    }
    total
}

/// Appends the leaves of `c`, left to right.
pub fn collect_leaves(c: &CompoundConstraint, out: &mut Vec<Constraint>)
    ensures
        final(out)@ == old(out)@ + leaves(*c),
    decreases *c, 1nat,
{
    match c {
        CompoundConstraint::Simple(k) => {
            out.push(k.duplicate());
            proof {
                assert(final(out)@ =~= old(out)@ + leaves(*c));
            }
        },
        CompoundConstraint::Not(inner) => collect_leaves(inner, out),
        CompoundConstraint::And(cs) => collect_all_leaves(cs, out),
        CompoundConstraint::Or(cs) => collect_all_leaves(cs, out),
    }
}

fn collect_all_leaves(cs: &Vec<CompoundConstraint>, out: &mut Vec<Constraint>)
    ensures
        final(out)@ == old(out)@ + leaves_seq(cs@),
    decreases *cs, 0nat,
{
    let ghost start = out@;
    let mut i: usize = 0;
    while i < cs.len()
        invariant
            i <= cs.len(),
            out@ == start + leaves_seq(cs@.subrange(0, i as int)),
        decreases cs.len() - i,
    {
        proof {
            assert(cs@.subrange(0, i + 1).drop_last() == cs@.subrange(0, i as int));
            vstd::std_specs::vec::axiom_vec_index_decreases(*cs, i as int);
        }
        collect_leaves(&cs[i], out);
        proof {
            assert(out@ =~= start + leaves_seq(cs@.subrange(0, i + 1)));
        }
        i = i + 1;
    }
    proof {
        assert(cs@.subrange(0, cs.len() as int) == cs@);
    }
}

/// Structural equality: same shape, same connective at each node, and
/// leaves equal field by field.
pub open spec fn same_tree(a: CompoundConstraint, b: CompoundConstraint) -> bool
    decreases a,
{
    match (a, b) {
        (CompoundConstraint::Simple(x), CompoundConstraint::Simple(y)) => x.left_variable@
            == y.left_variable@ && x.operator == y.operator && x.right_value@ == y.right_value@,
        (CompoundConstraint::Not(x), CompoundConstraint::Not(y)) => same_tree(*x, *y),
        (CompoundConstraint::And(xs), CompoundConstraint::And(ys)) => same_trees(xs@, ys@),
        (CompoundConstraint::Or(xs), CompoundConstraint::Or(ys)) => same_trees(xs@, ys@),
        _ => false,
    }
}

/// `same_tree`, position by position.
pub open spec fn same_trees(xs: Seq<CompoundConstraint>, ys: Seq<CompoundConstraint>) -> bool
    decreases xs,
{
    xs.len() == ys.len() && (xs.len() == 0 || (same_trees(xs.drop_last(), ys.drop_last())
        && same_tree(xs.last(), ys.last())))
}

/// Whether two trees are structurally equal.
pub fn tree_equals(a: &CompoundConstraint, b: &CompoundConstraint) -> (r: bool)
    ensures
        r == same_tree(*a, *b),
    decreases *a, 1nat,
{
    match (a, b) {
        (CompoundConstraint::Simple(x), CompoundConstraint::Simple(y)) => x.left_variable
            == y.left_variable && x.operator == y.operator && x.right_value == y.right_value,
        (CompoundConstraint::Not(x), CompoundConstraint::Not(y)) => tree_equals(x, y),
        (CompoundConstraint::And(xs), CompoundConstraint::And(ys)) => trees_equal(xs, ys),
        (CompoundConstraint::Or(xs), CompoundConstraint::Or(ys)) => trees_equal(xs, ys),
        _ => false,
    }
}

fn trees_equal(xs: &Vec<CompoundConstraint>, ys: &Vec<CompoundConstraint>) -> (r: bool)
    ensures
        r == same_trees(xs@, ys@),
    decreases *xs, 0nat,
{
    if xs.len() != ys.len() {
        return false;
    }
    let mut same = true;
    let mut i: usize = 0;
    while i < xs.len()
        invariant
            i <= xs.len(),
            xs.len() == ys.len(),
            same == same_trees(xs@.subrange(0, i as int), ys@.subrange(0, i as int)),
        decreases xs.len() - i,
    {
        proof {
            assert(xs@.subrange(0, i + 1).drop_last() == xs@.subrange(0, i as int));
            assert(ys@.subrange(0, i + 1).drop_last() == ys@.subrange(0, i as int));
            vstd::std_specs::vec::axiom_vec_index_decreases(*xs, i as int);
        }
        let e = tree_equals(&xs[i], &ys[i]);
        same = same && e;
        i = i + 1;
    }
    proof {
        assert(xs@.subrange(0, xs.len() as int) == xs@);
        assert(ys@.subrange(0, ys.len() as int) == ys@);
    }
    same
}

/// Arithmetic operators.
#[derive(Debug, Clone, Copy, PartialEq, Eq, Structural)]
pub enum ArithmeticOperator {
    Add,
    Subtract,
    Multiply,
    Divide,
}

impl ArithmeticOperator {
    pub open spec fn spec_symbol(&self) -> Seq<char> {
        match self {
            ArithmeticOperator::Add => "+"@,
            ArithmeticOperator::Subtract => "-"@,
            ArithmeticOperator::Multiply => "*"@,
            ArithmeticOperator::Divide => "/"@,
        }
    }

    /// The Rust symbol of the operator.
    pub fn rust_symbol(&self) -> (r: &'static str)
        ensures
            r@ == self.spec_symbol(),
    {
        match self {
            ArithmeticOperator::Add => "+",
            ArithmeticOperator::Subtract => "-",
            ArithmeticOperator::Multiply => "*",
            ArithmeticOperator::Divide => "/",
        }
    }

    /// The symbol for display (the Rust symbol).
    pub fn symbol(&self) -> (r: &'static str)
        ensures
            r@ == self.spec_symbol(),
    {
        self.rust_symbol()
    }
}

} // verus!
