use vstd::prelude::*;
use crate::ast::{CompoundConstraint, Constraint, ConstraintOperator, collect_leaves, leaf_count, leaves};
use crate::codegen::{
    CodegenStrategy, assertions_text, build_assertions, build_expression, build_signature,
    expr_text, leaf_expression, leaf_text, signature_of,
};
use crate::schema::{DataType, Schema, has_key};
use crate::smt::contains_name;
use crate::strategies::{
    ElixirStrategy, PythonStrategy, RustStrategy, SolidityStrategy, SparkAdaStrategy,
    TypeScriptStrategy, ZigStrategy,
};
use crate::text::{int64_value, join, join_strings, parse_i64, views};

verus! {

/// Errors of code emission.
#[derive(Debug, Clone, PartialEq, Eq)]
pub enum CodegenError {
    /// The target demands contracts the tree cannot supply.
    MissingContract(String),
    /// The target is not supported.
    UnsupportedLanguage(String),
    /// Emission failed for another reason.
    GenerationError(String),
}

/// Supported output languages.
#[derive(Debug, Clone, Copy, PartialEq, Eq, Structural)]
pub enum TargetLanguage {
    Rust,
    TypeScript,
    Python,
    Solidity,
    SparkAda,
    Zig,
    Elixir,
}

/// An emitted artifact.
#[derive(Debug, Clone, PartialEq, Eq)]
pub struct CodegenOutput {
    pub language: TargetLanguage,
    pub code: String,
    pub constraints_count: usize,
    /// Variables of the tree the schema does not hold (typed `Int32` by
    /// default); empty when the schema is complete or none was given.
    pub schema_missing: Vec<String>,
}

/// A leaf together with whether it can be checked at compile time.
#[derive(Debug, Clone, PartialEq, Eq)]
pub struct ConstraintInfo {
    pub left_variable: String,
    pub operator: ConstraintOperator,
    pub right_value: String,
    pub is_static: bool,
}

/// The emission engine.
#[derive(Debug, Clone, Copy, PartialEq, Eq)]
pub struct CodeGenerator;

/// Name of the emitted validation function.
pub open spec fn func_name() -> Seq<char> {
    "validate_intent"@
}

/// The leaves under the root conjunction: a leaf, or the leaves reached
/// through nested `And` nodes only.
pub open spec fn precondition_leaves(c: CompoundConstraint) -> Seq<Constraint>
    decreases c,
{
    match c {
        CompoundConstraint::Simple(k) => seq![k],
        CompoundConstraint::And(cs) => precondition_leaves_seq(cs@),
        CompoundConstraint::Or(_) => Seq::empty(),
        CompoundConstraint::Not(_) => Seq::empty(),
    }
}

/// `precondition_leaves` of each tree of a sequence, concatenated.
pub open spec fn precondition_leaves_seq(cs: Seq<CompoundConstraint>) -> Seq<Constraint>
    decreases cs,
{
    if cs.len() == 0 {
        Seq::empty()
    } else {
        precondition_leaves_seq(cs.drop_last()) + precondition_leaves(cs.last())
    }
}

/// Ada-style text of each precondition leaf.
pub open spec fn precondition_texts(ks: Seq<Constraint>) -> Seq<Seq<char>> {
    ks.map_values(|k: Constraint| leaf_text(SparkAdaStrategy, k))
}

/// Ada-style postcondition relating the result to the whole expression.
pub open spec fn ada_postcondition(c: CompoundConstraint) -> Seq<char> {
    "Post => (validate_intent'Result = "@ + expr_text(SparkAdaStrategy, c) + ")"@
}

/// Ada-style contract block: one precondition clause per leaf under the
/// root conjunction, then the postcondition.
pub open spec fn ada_contracts(c: CompoundConstraint) -> Seq<char> {
    let pres = precondition_texts(precondition_leaves(c)).map_values(
        |p: Seq<char>| "        Pre  => "@ + p,
    );
    "   with\n"@ + join(pres.push("        "@ + ada_postcondition(c)), ",\n"@)
}

/// Right-hand side of an Elixir guard: an integer literal as is, anything
/// else as a parameter lookup.
pub open spec fn guard_value(v: Seq<char>) -> Seq<char> {
    if int64_value(v) is Some {
        v
    } else {
        "params[:"@ + v + "]"@
    }
}

/// Elixir guard expression of a tree.
pub open spec fn guard_text(c: CompoundConstraint) -> Seq<char>
    decreases c,
{
    match c {
        CompoundConstraint::Simple(k) => ElixirStrategy.var_text(k.left_variable@) + " "@
            + ElixirStrategy.op_text(k.operator) + " "@ + guard_value(k.right_value@),
        CompoundConstraint::And(cs) => join(guard_texts(cs@), " and "@),
        CompoundConstraint::Or(cs) => "("@ + join(guard_texts(cs@), " or "@) + ")"@,
        CompoundConstraint::Not(inner) => "not ("@ + guard_text(*inner) + ")"@,
    }
}

/// `guard_text` of each tree of a sequence.
pub open spec fn guard_texts(cs: Seq<CompoundConstraint>) -> Seq<Seq<char>>
    decreases cs,
{
    if cs.len() == 0 {
        Seq::empty()
    } else {
        guard_texts(cs.drop_last()).push(guard_text(cs.last()))
    }
}

impl SparkAdaStrategy {
    /// The precondition leaves of `compound`, rendered.
    pub fn extract_preconditions(&self, compound: &CompoundConstraint) -> (r: Vec<String>)
        ensures
            views(r@) == precondition_texts(precondition_leaves(*compound)),
    {
        let mut preconditions: Vec<String> = Vec::new();
        self.collect_preconditions(compound, &mut preconditions);
        proof {
            assert(views(preconditions@) =~= precondition_texts(precondition_leaves(*compound)));
        }
        preconditions
    }

    /// Appends the rendered precondition leaves of `compound`.
    pub fn collect_preconditions(&self, compound: &CompoundConstraint, preconditions: &mut Vec<
        String,
    >)
        ensures
            views(final(preconditions)@) == views(old(preconditions)@) + precondition_texts(
                precondition_leaves(*compound),
            ),
        decreases *compound, 1nat,
    {
        match compound {
            CompoundConstraint::Simple(k) => {
                let e = leaf_expression(self, k);
                preconditions.push(e);
                proof {
                    assert(views(final(preconditions)@) =~= views(old(preconditions)@)
                        + precondition_texts(precondition_leaves(*compound)));
                }
            },
            CompoundConstraint::And(cs) => self.collect_all_preconditions(cs, preconditions),
            CompoundConstraint::Or(_) => {
                proof {
                    assert(views(preconditions@) =~= views(preconditions@) + precondition_texts(
                        precondition_leaves(*compound),
                    ));
                }
            },
            CompoundConstraint::Not(_) => {
                proof {
                    assert(views(preconditions@) =~= views(preconditions@) + precondition_texts(
                        precondition_leaves(*compound),
                    ));
                }
            },
        }
    }

    fn collect_all_preconditions(&self, cs: &Vec<CompoundConstraint>, preconditions: &mut Vec<
        String,
    >)
        ensures
            views(final(preconditions)@) == views(old(preconditions)@) + precondition_texts(
                precondition_leaves_seq(cs@),
            ),
        decreases *cs, 0nat,
    {
        let ghost start = views(preconditions@);
        let mut i: usize = 0;
        while i < cs.len()
            invariant
                i <= cs.len(),
                views(preconditions@) == start + precondition_texts(
                    precondition_leaves_seq(cs@.subrange(0, i as int)),
                ),
            decreases cs.len() - i,
        {
            proof {
                assert(cs@.subrange(0, i + 1).drop_last() == cs@.subrange(0, i as int));
                vstd::std_specs::vec::axiom_vec_index_decreases(*cs, i as int);
            }
            self.collect_preconditions(&cs[i], preconditions);
            proof {
                let a = precondition_leaves_seq(cs@.subrange(0, i as int));
                let b = precondition_leaves(cs@[i as int]);
                assert(precondition_texts(a + b) =~= precondition_texts(a) + precondition_texts(b));
            }
            i = i + 1;
        }
        proof {
            assert(cs@.subrange(0, cs.len() as int) == cs@);
        }
    }

    /// Postcondition relating the function's result to the expression.
    pub fn build_postcondition(&self, compound: &CompoundConstraint) -> (r: String)
        ensures
            r@ == ada_postcondition(*compound),
    {
        let mut out = String::from_str("Post => (validate_intent'Result = ");
        let e = build_expression(self, compound);
        out.append(e.as_str());
        out.append(")");
        out
    }

    /// Native contracts: a precondition clause per leaf of the root
    /// conjunction, then the postcondition.
    pub fn emit_contracts(&self, compound: &CompoundConstraint) -> (r: Option<String>)
        ensures
            r matches Some(t) && t@ == ada_contracts(*compound),
    {
        let pres = self.extract_preconditions(compound);
        let mut items: Vec<String> = Vec::new();
        let mut i: usize = 0;
        while i < pres.len()
            invariant
                i <= pres.len(),
                items@.len() == i,
                forall|j: int| 0 <= j < i ==> (#[trigger] items@[j])@ == "        Pre  => "@ + pres@[j]@,
            decreases pres.len() - i,
        {
            let mut item = String::from_str("        Pre  => ");
            item.append(pres[i].as_str());
            items.push(item);
            i = i + 1;
        }
        let mut post = String::from_str("        ");
        let p = self.build_postcondition(compound);
        post.append(p.as_str());
        items.push(post);
        let mut out = String::from_str("   with\n");
        let body = join_strings(&items, ",\n");
        out.append(body.as_str());
        proof {
            let pres_spec = precondition_texts(precondition_leaves(*compound)).map_values(
                |q: Seq<char>| "        Pre  => "@ + q,
            );
            assert(views(items@) =~= pres_spec.push("        "@ + ada_postcondition(*compound)));
        }
        Some(out)
    }
}

impl ZigStrategy {
    /// Every leaf of the tree is a plain comparison, checkable at compile
    /// time.
    pub fn is_static_constraint(&self, compound: &CompoundConstraint) -> (r: bool)
        ensures
            r,
        decreases *compound, 1nat,
    {
        match compound {
            CompoundConstraint::Simple(_) => true,
            CompoundConstraint::Not(inner) => self.is_static_constraint(inner),
            CompoundConstraint::And(cs) => self.all_static(cs),
            CompoundConstraint::Or(cs) => self.all_static(cs),
        }
    }

    fn all_static(&self, cs: &Vec<CompoundConstraint>) -> (r: bool)
        ensures
            r,
        decreases *cs, 0nat,
    {
        let mut all = true;
        let mut i: usize = 0;
        while i < cs.len()
            invariant
                i <= cs.len(),
                all,
            decreases cs.len() - i,
        {
            proof {
                vstd::std_specs::vec::axiom_vec_index_decreases(*cs, i as int);
            }
            all = all && self.is_static_constraint(&cs[i]);
            i = i + 1;
        }
        all
    }

    /// Whether the assertions can go in a compile-time block.
    pub fn is_comptime_capable(&self, compound: &CompoundConstraint) -> (r: bool)
        ensures
            r,
    {
        self.is_static_constraint(compound)
    }

    /// The compile-time block's content: the leaf assertions, when every
    /// leaf is static.
    pub fn emit_contracts(&self, compound: &CompoundConstraint) -> (r: Option<String>)
        ensures
            r matches Some(t) && t@ == assertions_text(ZigStrategy, *compound),
    {
        if self.is_comptime_capable(compound) {
            Some(build_assertions(self, compound))
        } else {
            None
        }
    }
}

impl ElixirStrategy {
    /// An integer literal as is; anything else as a parameter lookup.
    pub fn format_value(&self, value: &str) -> (r: String)
        ensures
            r@ == guard_value(value@),
    {
        if parse_i64(value).is_some() {
            String::from_str(value)
        } else {
            let mut out = String::from_str("params[:");
            out.append(value);
            out.append("]");
            out
        }
    }

    /// Guard-compatible expression of the tree.
    pub fn build_guard_expression(&self, compound: &CompoundConstraint) -> (r: String)
        ensures
            r@ == guard_text(*compound),
        decreases *compound, 1nat,
    {
        match compound {
            CompoundConstraint::Simple(k) => {
                let mut out = self.format_variable(k.left_variable.as_str());
                out.append(" ");
                out.append(self.format_operator(&k.operator));
                out.append(" ");
                let v = self.format_value(k.right_value.as_str());
                out.append(v.as_str());
                out
            },
            CompoundConstraint::And(cs) => {
                let parts = self.build_guards(cs);
                join_strings(&parts, " and ")
            },
            CompoundConstraint::Or(cs) => {
                let parts = self.build_guards(cs);
                let mut out = String::from_str("(");
                let body = join_strings(&parts, " or ");
                out.append(body.as_str());
                out.append(")");
                out
            },
            CompoundConstraint::Not(inner) => {
                let mut out = String::from_str("not (");
                let g = self.build_guard_expression(inner);
                out.append(g.as_str());
                out.append(")");
                out
            },
        }
    }

    fn build_guards(&self, cs: &Vec<CompoundConstraint>) -> (r: Vec<String>)
        ensures
            views(r@) == guard_texts(cs@),
        decreases *cs, 0nat,
    {
        let mut parts: Vec<String> = Vec::new();
        let mut i: usize = 0;
        while i < cs.len()
            invariant
                i <= cs.len(),
                views(parts@) == guard_texts(cs@.subrange(0, i as int)),
            decreases cs.len() - i,
        {
            proof {
                assert(cs@.subrange(0, i + 1).drop_last() == cs@.subrange(0, i as int));
                vstd::std_specs::vec::axiom_vec_index_decreases(*cs, i as int);
            }
            let g = self.build_guard_expression(&cs[i]);
            parts.push(g);
            proof {
                assert(views(parts@) =~= guard_texts(cs@.subrange(0, i + 1)));
            }
            i = i + 1;
        }
        proof {
            assert(cs@.subrange(0, cs.len() as int) == cs@);
        }
        parts
    }

    /// The guard expression of the tree.
    pub fn to_guard_expression(&self, compound: &CompoundConstraint) -> (r: Option<String>)
        ensures
            r matches Some(t) && t@ == guard_text(*compound),
    {
        Some(self.build_guard_expression(compound))
    }
}

/// The contracts the orchestrator hands the target: Ada-style native
/// contracts, the Zig-style compile-time assertions, or none.
pub open spec fn contracts_for(language: TargetLanguage, c: CompoundConstraint) -> Seq<char> {
    match language {
        TargetLanguage::SparkAda => ada_contracts(c),
        TargetLanguage::Zig => assertions_text(ZigStrategy, c),
        _ => Seq::empty(),
    }
}

/// The plain artifact of `s`: the verified function around the expression,
/// with the contracts and the assertion block.
pub open spec fn plain_code_with<S: CodegenStrategy>(
    s: S,
    c: CompoundConstraint,
    contracts: Seq<char>,
) -> Seq<char> {
    s.function_text(func_name(), contracts, expr_text(s, c), assertions_text(s, c))
}

/// The schema-aware artifact of `s`: header, signature, contracts,
/// postcondition, assertions and expression in the target's template.
pub open spec fn schema_code_with<S: CodegenStrategy>(
    s: S,
    c: CompoundConstraint,
    schema: Schema,
    contracts: Seq<char>,
) -> Seq<char> {
    let e = expr_text(s, c);
    s.artifact_text(
        s.header_text(schema.traceability_id@),
        signature_of(s, func_name(), schema.fields@),
        contracts,
        s.postcondition_text(e),
        assertions_text(s, c),
        e,
        s.end_text(),
    )
}

/// The plain artifact for a target.
pub open spec fn plain_code(language: TargetLanguage, c: CompoundConstraint) -> Seq<char> {
    let k = contracts_for(language, c);
    match language {
        TargetLanguage::Rust => plain_code_with(RustStrategy, c, k),
        TargetLanguage::TypeScript => plain_code_with(TypeScriptStrategy, c, k),
        TargetLanguage::Python => plain_code_with(PythonStrategy, c, k),
        TargetLanguage::Solidity => plain_code_with(SolidityStrategy, c, k),
        TargetLanguage::SparkAda => plain_code_with(SparkAdaStrategy, c, k),
        TargetLanguage::Zig => plain_code_with(ZigStrategy, c, k),
        TargetLanguage::Elixir => plain_code_with(ElixirStrategy, c, k),
    }
}

/// The schema-aware artifact for a target.
pub open spec fn schema_code(language: TargetLanguage, c: CompoundConstraint, schema: Schema) -> Seq<
    char,
> {
    let k = contracts_for(language, c);
    match language {
        TargetLanguage::Rust => schema_code_with(RustStrategy, c, schema, k),
        TargetLanguage::TypeScript => schema_code_with(TypeScriptStrategy, c, schema, k),
        TargetLanguage::Python => schema_code_with(PythonStrategy, c, schema, k),
        TargetLanguage::Solidity => schema_code_with(SolidityStrategy, c, schema, k),
        TargetLanguage::SparkAda => schema_code_with(SparkAdaStrategy, c, schema, k),
        TargetLanguage::Zig => schema_code_with(ZigStrategy, c, schema, k),
        TargetLanguage::Elixir => schema_code_with(ElixirStrategy, c, schema, k),
    }
}

/// Asks the target for contracts; an empty string when it has none.
fn contracts_of(compound: &CompoundConstraint, language: TargetLanguage) -> (r: String)
    ensures
        r@ == contracts_for(language, *compound),
{
    let asked = match language {
        TargetLanguage::SparkAda => SparkAdaStrategy.emit_contracts(compound),
        TargetLanguage::Zig => ZigStrategy.emit_contracts(compound),
        _ => None,
    };
    match asked {
        Some(t) => t,
        None => String::new(),
    }
}

/// Plain emission with one strategy.
fn emit_plain<S: CodegenStrategy>(s: &S, compound: &CompoundConstraint, contracts: &str) -> (r:
    String)
    ensures
        r@ == plain_code_with(*s, *compound, contracts@),
{
    let expression = build_expression(s, compound);
    let assertions = build_assertions(s, compound);
    s.wrap_verified_function("validate_intent", contracts, expression.as_str(), assertions.as_str())
}

/// Schema-aware emission with one strategy.
fn emit_with_schema<S: CodegenStrategy>(
    s: &S,
    compound: &CompoundConstraint,
    schema: &Schema,
    contracts: &str,
) -> (r: String)
    ensures
        r@ == schema_code_with(*s, *compound, *schema, contracts@),
{
    let logic = build_expression(s, compound);
    let signature = build_signature(s, "validate_intent", schema);
    let postcondition = s.emit_postcondition(logic.as_str(), schema);
    let header = s.license_header(schema.traceability_id.as_str());
    let assertions = build_assertions(s, compound);
    let end = s.fn_end();
    s.compose_artifact(
        header.as_str(),
        signature.as_str(),
        contracts,
        postcondition.as_str(),
        assertions.as_str(),
        logic.as_str(),
        end.as_str(),
    )
}

impl CodeGenerator {
    /// Emits the validation function for `compound` in `language`.
    pub fn generate(&self, compound: &CompoundConstraint, language: TargetLanguage) -> (r: Result<
        CodegenOutput,
        CodegenError,
    >)
        requires
            leaf_count(*compound) <= usize::MAX,
        ensures
            r matches Ok(o) && o.language == language && o.code@ == plain_code(language, *compound)
                && o.constraints_count == leaf_count(*compound) && o.schema_missing@.len() == 0,
    {
        let contracts = contracts_of(compound, language);
        let k = contracts.as_str();
        let code = match language {
            TargetLanguage::Rust => emit_plain(&RustStrategy, compound, k),
            TargetLanguage::TypeScript => emit_plain(&TypeScriptStrategy, compound, k),
            TargetLanguage::Python => emit_plain(&PythonStrategy, compound, k),
            TargetLanguage::Solidity => emit_plain(&SolidityStrategy, compound, k),
            TargetLanguage::SparkAda => emit_plain(&SparkAdaStrategy, compound, k),
            TargetLanguage::Zig => emit_plain(&ZigStrategy, compound, k),
            TargetLanguage::Elixir => emit_plain(&ElixirStrategy, compound, k),
        };
        Ok(
            CodegenOutput {
                language,
                code,
                constraints_count: compound.count_constraints(),
                schema_missing: Vec::new(),
            },
        )
    }

    /// Emits the schema-aware artifact for `compound` in `language`: typed
    /// signature, postcondition and a header carrying the schema's
    /// traceability identifier.
    pub fn generate_with_schema(
        &self,
        compound: &CompoundConstraint,
        schema: &Schema,
        language: TargetLanguage,
    ) -> (r: Result<CodegenOutput, CodegenError>)
        requires
            leaf_count(*compound) <= usize::MAX,
        ensures
            r matches Ok(o) && o.language == language && o.code@ == schema_code(
                language,
                *compound,
                *schema,
            ) && o.constraints_count == leaf_count(*compound) && views(o.schema_missing@)
                == missing_after(leaves(*compound), schema.fields@),
    {
        let contracts = contracts_of(compound, language);
        let k = contracts.as_str();
        let code = match language {
            TargetLanguage::Rust => emit_with_schema(&RustStrategy, compound, schema, k),
            TargetLanguage::TypeScript => emit_with_schema(&TypeScriptStrategy, compound, schema, k),
            TargetLanguage::Python => emit_with_schema(&PythonStrategy, compound, schema, k),
            TargetLanguage::Solidity => emit_with_schema(&SolidityStrategy, compound, schema, k),
            TargetLanguage::SparkAda => emit_with_schema(&SparkAdaStrategy, compound, schema, k),
            TargetLanguage::Zig => emit_with_schema(&ZigStrategy, compound, schema, k),
            TargetLanguage::Elixir => emit_with_schema(&ElixirStrategy, compound, schema, k),
        };
        let schema_missing = missing_variables(compound, schema);
        Ok(
            CodegenOutput {
                language,
                code,
                constraints_count: compound.count_constraints(),
                schema_missing,
            },
        )
    }
}

/// `missing` with the variables of leaf `k` that neither `fields` nor
/// `missing` holds.
pub open spec fn missing_next(
    missing: Seq<Seq<char>>,
    k: Constraint,
    fields: Seq<(String, DataType)>,
) -> Seq<Seq<char>> {
    let m1 = if has_key(fields, k.left_variable@) || missing.contains(k.left_variable@) {
        missing
    } else {
        missing.push(k.left_variable@)
    };
    if int64_value(k.right_value@) is None && !has_key(fields, k.right_value@) && !m1.contains(
        k.right_value@,
    ) {
        m1.push(k.right_value@)
    } else {
        m1
    }
}

/// The variables of the leaves that the schema does not hold, once each,
/// in order of first use.
pub open spec fn missing_after(ks: Seq<Constraint>, fields: Seq<(String, DataType)>) -> Seq<
    Seq<char>,
>
    decreases ks.len(),
{
    if ks.len() == 0 {
        Seq::empty()
    } else {
        missing_next(missing_after(ks.drop_last(), fields), ks.last(), fields)
    }
}

/// Notes `name` as missing unless the schema or the list holds it.
fn note_missing(missing: &mut Vec<String>, name: &String, schema: &Schema)
    ensures
        has_key(schema.fields@, name@) || views(old(missing)@).contains(name@) ==> final(missing)@
            == old(missing)@,
        !(has_key(schema.fields@, name@) || views(old(missing)@).contains(name@)) ==> views(
            final(missing)@,
        ) == views(old(missing)@).push(name@),
{
    if !schema.has_field(name.as_str()) && !contains_name(missing, name.as_str()) {
        let ghost before = views(missing@);
        missing.push(name.clone());
        proof {
            assert(views(missing@) =~= before.push(name@));
        }
    }
}

/// The variables of the tree the schema does not hold: each left variable
/// and each right value that is not an integer literal, once, in order.
pub fn missing_variables(compound: &CompoundConstraint, schema: &Schema) -> (r: Vec<String>)
    ensures
        views(r@) == missing_after(leaves(*compound), schema.fields@),
{
    let mut ks: Vec<Constraint> = Vec::new();
    collect_leaves(compound, &mut ks);
    proof {
        assert(ks@ =~= leaves(*compound));
    }
    let mut missing: Vec<String> = Vec::new();
    let mut i: usize = 0;
    while i < ks.len()
        invariant
            i <= ks@.len(),
            ks@ == leaves(*compound),
            views(missing@) == missing_after(ks@.subrange(0, i as int), schema.fields@),
        decreases ks@.len() - i,
    {
        proof {
            let q = ks@.subrange(0, i + 1);
            assert(q.drop_last() == ks@.subrange(0, i as int));
            assert(q.last() == ks@[i as int]);
        }
        let k = &ks[i];
        note_missing(&mut missing, &k.left_variable, schema);
        if parse_i64(k.right_value.as_str()).is_none() {
            note_missing(&mut missing, &k.right_value, schema);
        }
        i = i + 1;
    }
    proof {
        assert(ks@.subrange(0, ks@.len() as int) == ks@);
    }
    missing
}

/// Two emissions of the same tree, schema and target are the same text.
pub proof fn lemma_emission_deterministic(
    c: CompoundConstraint,
    schema: Schema,
    language: TargetLanguage,
    first: CodegenOutput,
    second: CodegenOutput,
)
    requires
        first.code@ == schema_code(language, c, schema),
        second.code@ == schema_code(language, c, schema),
    ensures
        first.code@ == second.code@,
{
}

/// Two plain emissions of the same tree for the same target are the same text.
pub proof fn lemma_plain_emission_deterministic(
    c: CompoundConstraint,
    language: TargetLanguage,
    first: CodegenOutput,
    second: CodegenOutput,
)
    requires
        first.code@ == plain_code(language, c),
        second.code@ == plain_code(language, c),
    ensures
        first.code@ == second.code@,
{
}

proof fn lemma_traceability_with<S: CodegenStrategy>(
    s: S,
    c: CompoundConstraint,
    schema: Schema,
    contracts: Seq<char>,
)
    ensures
        ({
            let code = schema_code_with(s, c, schema, contracts);
            let id = schema.traceability_id@;
            let k = s.header_lead().len() as int;
            k + id.len() <= code.len() && code.subrange(k, k + id.len()) == id
        }),
{
    let id = schema.traceability_id@;
    let e = expr_text(s, c);
    let header = s.header_text(id);
    s.lemma_header_shape(id);
    s.lemma_artifact_shape(
        header,
        signature_of(s, func_name(), schema.fields@),
        contracts,
        s.postcondition_text(e),
        assertions_text(s, c),
        e,
        s.end_text(),
    );
    let code = schema_code_with(s, c, schema, contracts);
    let k = s.header_lead().len() as int;
    assert forall|i: int| 0 <= i < id.len() implies code.subrange(k, k + id.len())[i] == id[i] by {
        assert(code.subrange(0, header.len() as int)[k + i] == header[k + i]);
        assert(header.subrange(k, k + id.len())[i] == id[i]);
    }
    assert(code.subrange(k, k + id.len()) =~= id);
}

/// The schema's traceability identifier appears verbatim in the artifact
/// of every target.
pub proof fn lemma_traceability_preserved(
    c: CompoundConstraint,
    schema: Schema,
    language: TargetLanguage,
)
    ensures
        exists|k: int|
            0 <= k && k + schema.traceability_id@.len() <= schema_code(language, c, schema).len()
                && #[trigger] schema_code(language, c, schema).subrange(
                k,
                k + schema.traceability_id@.len(),
            ) == schema.traceability_id@,
{
    let kc = contracts_for(language, c);
    let code = schema_code(language, c, schema);
    let n = schema.traceability_id@.len();
    let k: int = match language {
        TargetLanguage::Rust => {
            lemma_traceability_with(RustStrategy, c, schema, kc);
            RustStrategy.header_lead().len() as int
        },
        TargetLanguage::TypeScript => {
            lemma_traceability_with(TypeScriptStrategy, c, schema, kc);
            TypeScriptStrategy.header_lead().len() as int
        },
        TargetLanguage::Python => {
            lemma_traceability_with(PythonStrategy, c, schema, kc);
            PythonStrategy.header_lead().len() as int
        },
        TargetLanguage::Solidity => {
            lemma_traceability_with(SolidityStrategy, c, schema, kc);
            SolidityStrategy.header_lead().len() as int
        },
        TargetLanguage::SparkAda => {
            lemma_traceability_with(SparkAdaStrategy, c, schema, kc);
            SparkAdaStrategy.header_lead().len() as int
        },
        TargetLanguage::Zig => {
            lemma_traceability_with(ZigStrategy, c, schema, kc);
            ZigStrategy.header_lead().len() as int
        },
        TargetLanguage::Elixir => {
            lemma_traceability_with(ElixirStrategy, c, schema, kc);
            ElixirStrategy.header_lead().len() as int
        },
    };
    assert(0 <= k && k + n <= code.len() && code.subrange(k, k + n) == schema.traceability_id@);
}

} // verus!
