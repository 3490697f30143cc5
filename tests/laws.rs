use crucible::ast::{ArithmeticOperator, CompoundConstraint, Constraint, ConstraintOperator};
use crucible::frontend::{operator_to_string, ConstraintValidator};
use crucible::generator::{CodeGenerator, TargetLanguage};
use crucible::intent::IntentAst;
use crucible::schema::{DataType, Schema, SchemaError};
use crucible::smt::{
    check_reply, equivalence_queries, equivalence_verdict, evaluate, reply_to_result,
    translate_compound, SolverReply, VerificationError, Z3Verifier,
};
use crucible::text::{join_strings, parse_i64, to_ada_case};

fn leaf(l: &str, op: ConstraintOperator, r: &str) -> CompoundConstraint {
    CompoundConstraint::Simple(constraint(l, op, r))
}

fn constraint(l: &str, op: ConstraintOperator, r: &str) -> Constraint {
    Constraint { left_variable: l.to_string(), operator: op, right_value: r.to_string() }
}

fn withdraw() -> CompoundConstraint {
    CompoundConstraint::And(vec![
        leaf("balance", ConstraintOperator::GreaterThanOrEqual, "amount"),
        leaf("amount", ConstraintOperator::GreaterThan, "0"),
    ])
}

fn withdraw_schema() -> Schema {
    let mut schema = Schema::new("trace-77".to_string());
    schema.add_field("balance".to_string(), DataType::Uint64, None).unwrap();
    schema.add_field("amount".to_string(), DataType::Uint64, None).unwrap();
    schema
}

const ALL: [TargetLanguage; 7] = [
    TargetLanguage::Rust,
    TargetLanguage::TypeScript,
    TargetLanguage::Python,
    TargetLanguage::Solidity,
    TargetLanguage::SparkAda,
    TargetLanguage::Zig,
    TargetLanguage::Elixir,
];

fn model(values: &[(&str, i64)]) -> Vec<(String, i64)> {
    values.iter().map(|(k, v)| (k.to_string(), *v)).collect()
}

#[test]
fn count_matches_leaves_of_nested_tree() {
    let tree = CompoundConstraint::And(vec![
        leaf("a", ConstraintOperator::Equal, "1"),
        CompoundConstraint::Or(vec![
            leaf("b", ConstraintOperator::LessThan, "c"),
            CompoundConstraint::Not(Box::new(leaf("d", ConstraintOperator::NotEqual, "0"))),
        ]),
    ]);
    assert_eq!(tree.count_constraints(), 3);
    assert_eq!(leaf("x", ConstraintOperator::Equal, "1").count_constraints(), 1);
}

#[test]
fn negated_leaf_agrees_with_dual_operator() {
    let pairs = [
        (ConstraintOperator::LessThan, ConstraintOperator::GreaterThanOrEqual),
        (ConstraintOperator::GreaterThan, ConstraintOperator::LessThanOrEqual),
        (ConstraintOperator::Equal, ConstraintOperator::NotEqual),
    ];
    for (op, dual) in pairs {
        let negated = CompoundConstraint::Not(Box::new(leaf("x", op, "0")));
        let dualized = leaf("x", dual, "0");
        for x in [-3, 0, 4] {
            let m = model(&[("x", x)]);
            assert_eq!(evaluate(&negated, &m), evaluate(&dualized, &m));
        }
    }
}

#[test]
fn sat_reply_is_kept_only_with_a_satisfying_model() {
    let tree = withdraw();
    let good = check_reply(&tree, SolverReply::Sat { model: model(&[("balance", 10), ("amount", 3)]) });
    assert!(matches!(good, SolverReply::Sat { .. }));
    let bad = check_reply(&tree, SolverReply::Sat { model: model(&[("balance", 1), ("amount", 3)]) });
    assert!(matches!(bad, SolverReply::Unknown { .. }));
    let twice = check_reply(
        &tree,
        SolverReply::Sat { model: model(&[("balance", 10), ("amount", 3), ("amount", 4)]) },
    );
    assert!(matches!(twice, SolverReply::Unknown { .. }));
    let partial = check_reply(&tree, SolverReply::Sat { model: model(&[("balance", 10)]) });
    assert!(matches!(partial, SolverReply::Unknown { .. }));
    let unsat = check_reply(&tree, SolverReply::Unsat { core_size: 1 });
    assert_eq!(unsat, SolverReply::Unsat { core_size: 1 });
}

#[test]
fn emissions_are_byte_identical() {
    let generator = CodeGenerator;
    let schema = withdraw_schema();
    for t in ALL {
        let a = generator.generate_with_schema(&withdraw(), &schema, t).unwrap();
        let b = generator.generate_with_schema(&withdraw(), &schema, t).unwrap();
        assert_eq!(a.code, b.code);
        let c = generator.generate(&withdraw(), t).unwrap();
        let d = generator.generate(&withdraw(), t).unwrap();
        assert_eq!(c.code, d.code);
    }
}

#[test]
fn score_is_stable_and_counts_verified_requirements() {
    let mut ast = IntentAst::new();
    assert_eq!(ast.correctness_score.percent(), 0);
    ast.add_requirement("first".to_string());
    ast.add_requirement("second".to_string());
    assert_ne!(ast.requirements[0].id, ast.requirements[1].id);
    assert_eq!(ast.compute_score(), ast.compute_score());
    ast.record_verification(0, &vec![]);
    assert_eq!(ast.correctness_score.verified, 1);
    assert_eq!(ast.correctness_score.total, 2);
    assert_eq!(ast.correctness_score.percent(), 50);
    ast.requirements[1].constraints.push(constraint("x", ConstraintOperator::Equal, "1"));
    ast.record_verification(1, &vec![false]);
    assert_eq!(ast.correctness_score.percent(), 50);
    ast.record_verification(1, &vec![true]);
    assert_eq!(ast.correctness_score.percent(), 100);
}

#[test]
fn traceability_id_appears_for_every_target() {
    let generator = CodeGenerator;
    let schema = withdraw_schema();
    for t in ALL {
        let out = generator.generate_with_schema(&withdraw(), &schema, t).unwrap();
        assert!(out.code.contains("trace-77"));
        assert_eq!(out.constraints_count, 2);
        assert_eq!(out.language, t);
    }
}

#[test]
fn withdraw_pattern() {
    let generator = CodeGenerator;
    let plain = generator.generate(&withdraw(), TargetLanguage::Rust).unwrap();
    assert!(plain.code.contains("params.balance >= amount"));
    assert!(plain.code.contains("params.amount > 0"));
    let typed = generator.generate_with_schema(&withdraw(), &withdraw_schema(), TargetLanguage::Rust).unwrap();
    assert!(typed.code.contains("pub balance: u64"));
    let reply = check_reply(&withdraw(), SolverReply::Sat { model: model(&[("balance", 5), ("amount", 5)]) });
    assert!(matches!(reply, SolverReply::Sat { .. }));
}

#[test]
fn contradiction_has_no_model() {
    let tree = leaf("x", ConstraintOperator::GreaterThan, "x");
    assert!(translate_compound(&tree).is_ok());
    for x in [-7, 0, 7] {
        assert!(!evaluate(&tree, &model(&[("x", x)])));
    }
    let result = reply_to_result(SolverReply::Unsat { core_size: 1 }, 1);
    assert!(matches!(result, Err(VerificationError::Unsatisfiable { core_size: 1, .. })));
}

#[test]
fn disjunctive_access_in_python() {
    let tree = CompoundConstraint::Or(vec![
        leaf("role", ConstraintOperator::Equal, "\"admin\""),
        leaf("role", ConstraintOperator::Equal, "\"moderator\""),
    ]);
    let out = CodeGenerator.generate(&tree, TargetLanguage::Python).unwrap();
    assert!(out.code.contains("params['role'] == \"admin\""));
    assert!(out.code.contains("params['role'] == \"moderator\""));
    assert!(out.code.contains("(params['role'] == \"admin\" or params['role'] == \"moderator\")"));
}

#[test]
fn negation_in_rust() {
    let tree = CompoundConstraint::Not(Box::new(leaf("is_blocked", ConstraintOperator::Equal, "true")));
    let out = CodeGenerator.generate(&tree, TargetLanguage::Rust).unwrap();
    assert!(out.code.contains("!(params.is_blocked == true)"));
}

#[test]
fn ada_casing_of_variables() {
    let tree = leaf("max_transfer_amount", ConstraintOperator::LessThanOrEqual, "100");
    let out = CodeGenerator.generate(&tree, TargetLanguage::SparkAda).unwrap();
    assert!(out.code.contains("Params.Max_Transfer_Amount <= 100"));
    assert_eq!(to_ada_case("a__b"), "A__B");
    assert_eq!(to_ada_case(""), "");
}

#[test]
fn equivalence_of_dual_forms() {
    let a = leaf("x", ConstraintOperator::GreaterThanOrEqual, "0");
    let b = CompoundConstraint::Not(Box::new(leaf("x", ConstraintOperator::LessThan, "0")));
    assert!(equivalence_queries(&a, &b).is_ok());
    for x in [-1, 0, 1] {
        let m = model(&[("x", x)]);
        assert_eq!(evaluate(&a, &m), evaluate(&b, &m));
    }
    let u = SolverReply::Unsat { core_size: 1 };
    assert!(equivalence_verdict(&u, &SolverReply::Unsat { core_size: 2 }));
    assert!(!equivalence_verdict(&u, &SolverReply::Sat { model: vec![] }));
}

#[test]
fn empty_conjunction_is_rejected() {
    let empty = CompoundConstraint::And(vec![]);
    assert!(matches!(translate_compound(&empty), Err(VerificationError::TranslationError(_))));
    let nested = CompoundConstraint::Not(Box::new(CompoundConstraint::Or(vec![])));
    assert!(translate_compound(&nested).is_err());
}

#[test]
fn test_smt_lib_output() {
    let verifier = Z3Verifier::new();
    let constraints = vec![
        constraint("balance", ConstraintOperator::GreaterThanOrEqual, "amount"),
        constraint("amount", ConstraintOperator::GreaterThan, "0"),
    ];
    let smt_lib = verifier.generate_smt_lib(&constraints);
    assert!(smt_lib.contains("(declare-const balance Int)"));
    assert!(smt_lib.contains("(declare-const amount Int)"));
    assert!(smt_lib.contains("(assert (>= balance amount))"));
    assert!(smt_lib.contains("(assert (> amount 0))"));
}

#[test]
fn smt_lib_declares_each_symbol_once() {
    let constraints = vec![
        constraint("x", ConstraintOperator::NotEqual, "y"),
        constraint("y", ConstraintOperator::LessThan, "x"),
    ];
    let text = Z3Verifier::new().generate_smt_lib(&constraints);
    assert_eq!(
        text,
        "(set-logic QF_LIA)\n(set-option :produce-models true)\n\n(declare-const x Int)\n(declare-const y Int)\n(assert (distinct x y))\n(assert (< y x))\n\n(check-sat)\n(get-model)\n"
    );
}

#[test]
fn frozen_schema_refuses_fields() {
    let mut schema = withdraw_schema();
    schema.freeze();
    assert_eq!(schema.add_field("extra".to_string(), DataType::Bool, None), Err(SchemaError::SchemaFrozen));
    assert_eq!(schema.fields.len(), 2);
    assert_eq!(schema.get_type("unknown"), DataType::Int32);
    assert!(schema.requires_overflow_protection("unknown"));
    assert!(!schema.has_field("unknown"));
}

#[test]
fn retyping_a_field_keeps_its_place() {
    let mut schema = withdraw_schema();
    schema.add_field("balance".to_string(), DataType::String, Some("text".to_string())).unwrap();
    assert_eq!(schema.fields.len(), 2);
    assert_eq!(schema.fields[0].0, "balance");
    assert_eq!(schema.get_type("balance"), DataType::String);
    assert!(!schema.requires_overflow_protection("balance"));
    assert_eq!(schema.documentation.len(), 1);
}

#[test]
fn decimal_literals() {
    assert_eq!(parse_i64("0"), Some(0));
    assert_eq!(parse_i64("+5"), Some(5));
    assert_eq!(parse_i64("-42"), Some(-42));
    assert_eq!(parse_i64("9223372036854775807"), Some(i64::MAX));
    assert_eq!(parse_i64("-9223372036854775808"), Some(i64::MIN));
    assert_eq!(parse_i64("9223372036854775808"), None);
    assert_eq!(parse_i64("99999999999999999999999999999999999999999"), None);
    assert_eq!(parse_i64(""), None);
    assert_eq!(parse_i64("-"), None);
    assert_eq!(parse_i64("12a"), None);
    assert_eq!(parse_i64("amount"), None);
}

#[test]
fn joining_strings() {
    let parts = vec!["a".to_string(), "b".to_string(), "c".to_string()];
    assert_eq!(join_strings(&parts, ", "), "a, b, c");
    assert_eq!(join_strings(&vec![], ", "), "");
}

#[test]
fn arithmetic_symbols() {
    assert_eq!(ArithmeticOperator::Add.rust_symbol(), "+");
    assert_eq!(ArithmeticOperator::Subtract.symbol(), "-");
    assert_eq!(ArithmeticOperator::Multiply.rust_symbol(), "*");
    assert_eq!(ArithmeticOperator::Divide.symbol(), "/");
}

#[test]
fn test_greater_equal_validation() {
    let validator = ConstraintValidator::new();
    assert!(validator.validate_greater_equal(10, 5));
    assert!(validator.validate_greater_equal(5, 5));
    assert!(!validator.validate_greater_equal(5, 10));
}

#[test]
fn validators_and_operator_names() {
    let v = ConstraintValidator::new();
    assert!(v.validate_less_equal(1, 1));
    assert!(v.validate_greater(2, 1));
    assert!(v.validate_less(1, 2));
    assert!(v.validate_equal(3, 3));
    assert!(v.validate_not_equal(3, 4));
    assert_eq!(operator_to_string(0), ">=");
    assert_eq!(operator_to_string(5), "!=");
    assert_eq!(operator_to_string(6), "unknown");
    assert_eq!(operator_to_string(-1), "unknown");
}

#[test]
fn schema_gaps_are_reported_with_the_output() {
    let mut schema = Schema::new("t".to_string());
    schema.add_field("balance".to_string(), DataType::Uint64, None).unwrap();
    let tree = CompoundConstraint::And(vec![
        leaf("balance", ConstraintOperator::GreaterThanOrEqual, "amount"),
        leaf("amount", ConstraintOperator::GreaterThan, "0"),
        leaf("fee", ConstraintOperator::LessThan, "amount"),
    ]);
    let out = CodeGenerator.generate_with_schema(&tree, &schema, TargetLanguage::Zig).unwrap();
    assert_eq!(out.schema_missing, vec!["amount".to_string(), "fee".to_string()]);
    let complete = CodeGenerator.generate_with_schema(&withdraw(), &withdraw_schema(), TargetLanguage::Zig).unwrap();
    assert!(complete.schema_missing.is_empty());
    assert!(CodeGenerator.generate(&tree, TargetLanguage::Zig).unwrap().schema_missing.is_empty());
}

#[test]
fn model_values_outside_declared_ranges() {
    let mut schema = Schema::new("t".to_string());
    schema.add_field("balance".to_string(), DataType::Uint64, None).unwrap();
    schema.add_field("small".to_string(), DataType::Int32, None).unwrap();
    schema
        .add_field(
            "pct".to_string(),
            DataType::Custom { name: "Pct".to_string(), range_min: Some(0), range_max: Some(100) },
            None,
        )
        .unwrap();
    let m = model(&[("balance", -1), ("small", 1 << 40), ("pct", 101), ("other", i64::MIN)]);
    assert_eq!(
        crucible::smt::model_out_of_range(&m, &schema),
        vec!["balance".to_string(), "small".to_string(), "pct".to_string(), "other".to_string()]
    );
    let fine = model(&[("balance", 0), ("small", -5), ("pct", 100)]);
    assert!(crucible::smt::model_out_of_range(&fine, &schema).is_empty());
}

#[test]
fn deep_trees_are_handled() {
    let mut tree = leaf("x", ConstraintOperator::GreaterThan, "0");
    for _ in 0..1024 {
        tree = CompoundConstraint::Not(Box::new(tree));
    }
    assert_eq!(tree.count_constraints(), 1);
    assert!(translate_compound(&tree).is_ok());
    assert!(evaluate(&tree, &model(&[("x", 1)])));
    let out = CodeGenerator.generate(&tree, TargetLanguage::Rust).unwrap();
    assert!(out.code.contains("params.x > 0"));
}
