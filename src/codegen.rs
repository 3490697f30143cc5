use vstd::prelude::*;
use crate::ast::{
    ArithmeticOperator, CompoundConstraint, Constraint, ConstraintOperator, leaves, leaves_seq,
};
use crate::schema::{DataType, Schema};
use crate::text::{join, join_strings, views};

verus! {

/// The per-target decisions that together render a constraint tree as
/// source text of one target language.
pub trait CodegenStrategy: Sized {
    /// Symbol of a comparison operator.
    spec fn op_text(&self, op: ConstraintOperator) -> Seq<char>;

    /// Access path of a variable.
    spec fn var_text(&self, name: Seq<char>) -> Seq<char>;

    /// Conjunction connective.
    spec fn and_text(&self) -> Seq<char>;

    /// Disjunction connective.
    spec fn or_text(&self) -> Seq<char>;

    /// Negation of an expression, always parenthesised.
    spec fn not_text(&self, e: Seq<char>) -> Seq<char>;

    /// Runtime check of a condition.
    spec fn assertion_text(&self, e: Seq<char>) -> Seq<char>;

    /// The complete function of the plain emission path.
    spec fn function_text(
        &self,
        func: Seq<char>,
        contracts: Seq<char>,
        body: Seq<char>,
        assertions: Seq<char>,
    ) -> Seq<char>;

    /// Native type for a schema type.
    spec fn type_text(&self, dt: DataType) -> Seq<char>;

    /// Postcondition relating the function's result to an expression.
    spec fn postcondition_text(&self, e: Seq<char>) -> Seq<char>;

    /// Overflow-checked arithmetic.
    spec fn safe_op_text(&self, l: Seq<char>, op: ArithmeticOperator, r: Seq<char>) -> Seq<char>;

    /// One field of the signature.
    spec fn field_text(&self, name: Seq<char>, dt: DataType) -> Seq<char>;

    /// Separator between signature fields.
    spec fn field_sep(&self) -> Seq<char>;

    /// Signature around the joined fields (`empty` when there are none).
    spec fn signature_text(&self, func: Seq<char>, fields: Seq<char>, empty: bool) -> Seq<char>;

    /// Text that closes a function.
    spec fn end_text(&self) -> Seq<char>;

    /// Comment header embedding the traceability identifier.
    spec fn header_text(&self, id: Seq<char>) -> Seq<char>;

    /// The part of the header before the identifier.
    spec fn header_lead(&self) -> Seq<char>;

    /// Artifact of the schema-aware path.
    spec fn artifact_text(
        &self,
        header: Seq<char>,
        signature: Seq<char>,
        contracts: Seq<char>,
        postcondition: Seq<char>,
        assertions: Seq<char>,
        logic: Seq<char>,
        end: Seq<char>,
    ) -> Seq<char>;

    /// The header starts with `header_lead` followed by the identifier.
    proof fn lemma_header_shape(&self, id: Seq<char>)
        ensures
            self.header_text(id).len() >= self.header_lead().len() + id.len(),
            self.header_text(id).subrange(
                self.header_lead().len() as int,
                (self.header_lead().len() + id.len()) as int,
            ) == id,
    ;

    /// The artifact starts with the header.
    proof fn lemma_artifact_shape(
        &self,
        header: Seq<char>,
        signature: Seq<char>,
        contracts: Seq<char>,
        postcondition: Seq<char>,
        assertions: Seq<char>,
        logic: Seq<char>,
        end: Seq<char>,
    )
        ensures
            ({
                let a = self.artifact_text(
                    header,
                    signature,
                    contracts,
                    postcondition,
                    assertions,
                    logic,
                    end,
                );
                a.len() >= header.len() && a.subrange(0, header.len() as int) == header
            }),
    ;

    fn format_operator(&self, op: &ConstraintOperator) -> (r: &'static str)
        ensures
            r@ == self.op_text(*op),
    ;

    fn format_variable(&self, name: &str) -> (r: String)
        ensures
            r@ == self.var_text(name@),
    ;

    fn logical_and(&self) -> (r: &'static str)
        ensures
            r@ == self.and_text(),
    ;

    fn logical_or(&self) -> (r: &'static str)
        ensures
            r@ == self.or_text(),
    ;

    fn logical_not(&self, expr: &str) -> (r: String)
        ensures
            r@ == self.not_text(expr@),
    ;

    fn wrap_assertion(&self, condition: &str) -> (r: String)
        ensures
            r@ == self.assertion_text(condition@),
    ;

    fn wrap_verified_function(
        &self,
        func_name: &str,
        contracts: &str,
        body: &str,
        assertions: &str,
    ) -> (r: String)
        ensures
            r@ == self.function_text(func_name@, contracts@, body@, assertions@),
    ;

    fn map_type(&self, data_type: &DataType) -> (r: String)
        ensures
            r@ == self.type_text(*data_type),
    ;

    fn emit_postcondition(&self, expression: &str, schema: &Schema) -> (r: String)
        ensures
            r@ == self.postcondition_text(expression@),
    ;

    fn safe_op(&self, left: &str, op: ArithmeticOperator, right: &str, schema: &Schema) -> (r:
        String)
        ensures
            r@ == self.safe_op_text(left@, op, right@),
    ;

    fn format_field(&self, name: &str, data_type: &DataType) -> (r: String)
        ensures
            r@ == self.field_text(name@, *data_type),
    ;

    fn field_separator(&self) -> (r: &'static str)
        ensures
            r@ == self.field_sep(),
    ;

    fn wrap_signature(&self, func_name: &str, fields: &str, empty: bool) -> (r: String)
        ensures
            r@ == self.signature_text(func_name@, fields@, empty),
    ;

    fn fn_end(&self) -> (r: String)
        ensures
            r@ == self.end_text(),
    ;

    fn license_header(&self, traceability_id: &str) -> (r: String)
        ensures
            r@ == self.header_text(traceability_id@),
    ;

    fn compose_artifact(
        &self,
        header: &str,
        signature: &str,
        contracts: &str,
        postcondition: &str,
        assertions: &str,
        logic: &str,
        end: &str,
    ) -> (r: String)
        ensures
            r@ == self.artifact_text(
                header@,
                signature@,
                contracts@,
                postcondition@,
                assertions@,
                logic@,
                end@,
            ),
    ;
}

} // verus!

verus! {

/// Text of one leaf: variable, operator and right value.
pub open spec fn leaf_text<S: CodegenStrategy>(s: S, k: Constraint) -> Seq<char> {
    s.var_text(k.left_variable@) + " "@ + s.op_text(k.operator) + " "@ + k.right_value@
}

/// The boolean expression of a tree in the target's syntax.
pub open spec fn expr_text<S: CodegenStrategy>(s: S, c: CompoundConstraint) -> Seq<char>
    decreases c,
{
    match c {
        CompoundConstraint::Simple(k) => leaf_text(s, k),
        CompoundConstraint::Not(inner) => s.not_text(expr_text(s, *inner)),
        CompoundConstraint::And(cs) => "("@ + join(exprs_text(s, cs@), " "@ + s.and_text() + " "@)
            + ")"@,
        CompoundConstraint::Or(cs) => "("@ + join(exprs_text(s, cs@), " "@ + s.or_text() + " "@)
            + ")"@,
    }
}

/// `expr_text` of each tree of a sequence.
pub open spec fn exprs_text<S: CodegenStrategy>(s: S, cs: Seq<CompoundConstraint>) -> Seq<
    Seq<char>,
>
    decreases cs,
{
    if cs.len() == 0 {
        Seq::empty()
    } else {
        exprs_text(s, cs.drop_last()).push(expr_text(s, cs.last()))
    }
}

/// The runtime check of each leaf.
pub open spec fn assertion_texts<S: CodegenStrategy>(s: S, ks: Seq<Constraint>) -> Seq<Seq<char>> {
    ks.map_values(|k: Constraint| s.assertion_text(leaf_text(s, k)))
}

/// The assertion block: one check per leaf, left to right.
pub open spec fn assertions_text<S: CodegenStrategy>(s: S, c: CompoundConstraint) -> Seq<char> {
    join(assertion_texts(s, leaves(c)), "\n    "@)
}

/// The signature fields of a schema, in order.
pub open spec fn field_texts<S: CodegenStrategy>(s: S, fs: Seq<(String, DataType)>) -> Seq<
    Seq<char>,
> {
    fs.map_values(|f: (String, DataType)| s.field_text(f.0@, f.1))
}

/// The signature built from a schema's fields.
pub open spec fn signature_of<S: CodegenStrategy>(
    s: S,
    func: Seq<char>,
    fs: Seq<(String, DataType)>,
) -> Seq<char> {
    s.signature_text(func, join(field_texts(s, fs), s.field_sep()), fs.len() == 0)
}

/// Renders one leaf.
pub fn leaf_expression<S: CodegenStrategy>(s: &S, k: &Constraint) -> (r: String)
    ensures
        r@ == leaf_text(*s, *k),
{
    let mut out = s.format_variable(k.left_variable.as_str());
    out.append(" ");
    out.append(s.format_operator(&k.operator));
    out.append(" ");
    out.append(k.right_value.as_str());
    out
}

/// Builds the boolean expression of a tree.
pub fn build_expression<S: CodegenStrategy>(s: &S, compound: &CompoundConstraint) -> (r: String)
    ensures
        r@ == expr_text(*s, *compound),
    decreases *compound, 1nat,
{
    match compound {
        CompoundConstraint::Simple(k) => leaf_expression(s, k),
        CompoundConstraint::Not(inner) => {
            let e = build_expression(s, inner);
            s.logical_not(e.as_str())
        },
        CompoundConstraint::And(cs) => {
            let parts = build_expressions(s, cs);
            let mut sep = String::from_str(" ");
            sep.append(s.logical_and());
            sep.append(" ");
            let mut out = String::from_str("(");
            let body = join_strings(&parts, sep.as_str());
            out.append(body.as_str());
            out.append(")");
            out
        },
        CompoundConstraint::Or(cs) => {
            let parts = build_expressions(s, cs);
            let mut sep = String::from_str(" ");
            sep.append(s.logical_or());
            sep.append(" ");
            let mut out = String::from_str("(");
            let body = join_strings(&parts, sep.as_str());
            out.append(body.as_str());
            out.append(")");
            out
        },
    }
}

/// Builds the expression of each child, in order.
fn build_expressions<S: CodegenStrategy>(s: &S, cs: &Vec<CompoundConstraint>) -> (r: Vec<String>)
    ensures
        views(r@) == exprs_text(*s, cs@),
    decreases *cs, 0nat,
{
    let mut parts: Vec<String> = Vec::new();
    let mut i: usize = 0;
    while i < cs.len()
        invariant
            i <= cs.len(),
            views(parts@) == exprs_text(*s, cs@.subrange(0, i as int)),
        decreases cs.len() - i,
    {
        proof {
            assert(cs@.subrange(0, i + 1).drop_last() == cs@.subrange(0, i as int));
            vstd::std_specs::vec::axiom_vec_index_decreases(*cs, i as int);
        }
        let e = build_expression(s, &cs[i]);
        parts.push(e);
        proof {
            assert(views(parts@) =~= exprs_text(*s, cs@.subrange(0, i + 1)));
        }
        i = i + 1;
    }
    proof {
        assert(cs@.subrange(0, cs.len() as int) == cs@);
    }
    parts
}

/// Appends the runtime check of every leaf of `compound`, left to right.
pub fn collect_assertions<S: CodegenStrategy>(
    s: &S,
    compound: &CompoundConstraint,
    assertions: &mut Vec<String>,
)
    ensures
        views(final(assertions)@) == views(old(assertions)@) + assertion_texts(
            *s,
            leaves(*compound),
        ),
    decreases *compound, 1nat,
{
    match compound {
        CompoundConstraint::Simple(k) => {
            let e = leaf_expression(s, k);
            let a = s.wrap_assertion(e.as_str());
            assertions.push(a);
            proof {
                assert(views(final(assertions)@) =~= views(old(assertions)@) + assertion_texts(
                    *s,
                    leaves(*compound),
                ));
            }
        },
        CompoundConstraint::Not(inner) => collect_assertions(s, inner, assertions),
        CompoundConstraint::And(cs) => collect_all_assertions(s, cs, assertions),
        CompoundConstraint::Or(cs) => collect_all_assertions(s, cs, assertions),
    }
}

/// `collect_assertions` over each child, in order.
fn collect_all_assertions<S: CodegenStrategy>(
    s: &S,
    cs: &Vec<CompoundConstraint>,
    assertions: &mut Vec<String>,
)
    ensures
        views(final(assertions)@) == views(old(assertions)@) + assertion_texts(
            *s,
            leaves_seq(cs@),
        ),
    decreases *cs, 0nat,
{
    let ghost start = views(assertions@);
    let mut i: usize = 0;
    while i < cs.len()
        invariant
            i <= cs.len(),
            views(assertions@) == start + assertion_texts(*s, leaves_seq(cs@.subrange(0, i as int))),
        decreases cs.len() - i,
    {
        proof {
            assert(cs@.subrange(0, i + 1).drop_last() == cs@.subrange(0, i as int));
            vstd::std_specs::vec::axiom_vec_index_decreases(*cs, i as int);
        }
        collect_assertions(s, &cs[i], assertions);
        proof {
            let a = leaves_seq(cs@.subrange(0, i as int));
            let b = leaves(cs@[i as int]);
            assert(assertion_texts(*s, a + b) =~= assertion_texts(*s, a) + assertion_texts(*s, b));
        }
        i = i + 1;
    }
    proof {
        assert(cs@.subrange(0, cs.len() as int) == cs@);
    }
}

/// The assertion block of a tree: one check per leaf, joined by new lines.
pub fn build_assertions<S: CodegenStrategy>(s: &S, compound: &CompoundConstraint) -> (r: String)
    ensures
        r@ == assertions_text(*s, *compound),
{
    let mut assertions: Vec<String> = Vec::new();
    collect_assertions(s, compound, &mut assertions);
    proof {
        assert(views(assertions@) =~= assertion_texts(*s, leaves(*compound)));
    }
    join_strings(&assertions, "\n    ")
}

/// The signature of the validation function, from the schema's fields in
/// insertion order.
pub fn build_signature<S: CodegenStrategy>(s: &S, func_name: &str, schema: &Schema) -> (r:
    String)
    ensures
        r@ == signature_of(*s, func_name@, schema.fields@),
{
    let mut parts: Vec<String> = Vec::new();
    let mut i: usize = 0;
    while i < schema.fields.len()
        invariant
            i <= schema.fields.len(),
            views(parts@) == field_texts(*s, schema.fields@.subrange(0, i as int)),
        decreases schema.fields.len() - i,
    {
        let ghost old_parts = parts@;
        let f = s.format_field(schema.fields[i].0.as_str(), &schema.fields[i].1);
        parts.push(f);
        proof {
            let prev = schema.fields@.subrange(0, i as int);
            let next = schema.fields@.subrange(0, i + 1);
            assert(next == prev.push(schema.fields@[i as int]));
            assert(field_texts(*s, next) =~= field_texts(*s, prev).push(f@));
            assert(views(parts@) =~= views(old_parts).push(f@));
        }
        i = i + 1;
    }
    proof {
        assert(schema.fields@.subrange(0, schema.fields.len() as int) == schema.fields@);
    }
    let joined = join_strings(&parts, s.field_separator());
    s.wrap_signature(func_name, joined.as_str(), schema.fields.len() == 0)
}

/// Comparison with Rust operator symbols, whatever the operand type.
pub fn default_safe_compare(
    left: &str,
    op: &ConstraintOperator,
    right: &str,
    data_type: &DataType,
) -> (r: String)
    ensures
        r@ == left@ + " "@ + rust_op_text(*op) + " "@ + right@,
{
    let mut out = String::from_str(left);
    out.append(" ");
    out.append(
        match op {
            ConstraintOperator::GreaterThanOrEqual => ">=",
            ConstraintOperator::LessThanOrEqual => "<=",
            ConstraintOperator::GreaterThan => ">",
            ConstraintOperator::LessThan => "<",
            ConstraintOperator::Equal => "==",
            ConstraintOperator::NotEqual => "!=",
        },
    );
    out.append(" ");
    out.append(right);
    out
}

/// Rust symbol of a comparison operator.
pub open spec fn rust_op_text(op: ConstraintOperator) -> Seq<char> {
    match op {
        ConstraintOperator::GreaterThanOrEqual => ">="@,
        ConstraintOperator::LessThanOrEqual => "<="@,
        ConstraintOperator::GreaterThan => ">"@,
        ConstraintOperator::LessThan => "<"@,
        ConstraintOperator::Equal => "=="@,
        ConstraintOperator::NotEqual => "!="@,
    }
}

} // verus!
