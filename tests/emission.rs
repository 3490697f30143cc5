use crucible::ast::{ArithmeticOperator, CompoundConstraint, Constraint, ConstraintOperator};
use crucible::codegen::{build_assertions, build_expression, build_signature, default_safe_compare, CodegenStrategy};
use crucible::schema::{DataType, Schema};
use crucible::strategies::{
    ElixirStrategy, PythonStrategy, RustStrategy, SolidityStrategy, SparkAdaStrategy, TypeScriptStrategy,
    ZigStrategy,
};

fn leaf(l: &str, op: ConstraintOperator, r: &str) -> CompoundConstraint {
    CompoundConstraint::Simple(Constraint { left_variable: l.to_string(), operator: op, right_value: r.to_string() })
}

fn mixed() -> CompoundConstraint {
    CompoundConstraint::And(vec![
        leaf("amount", ConstraintOperator::GreaterThan, "0"),
        CompoundConstraint::Or(vec![
            leaf("role", ConstraintOperator::Equal, "admin"),
            CompoundConstraint::Not(Box::new(leaf("is_blocked", ConstraintOperator::NotEqual, "1"))),
        ]),
    ])
}

#[test]
fn expressions_per_target() {
    assert_eq!(
        build_expression(&RustStrategy, &mixed()),
        "(params.amount > 0 && (params.role == admin || !(params.is_blocked != 1)))"
    );
    assert_eq!(
        build_expression(&TypeScriptStrategy, &mixed()),
        "(params.amount > 0 && (params.role === admin || !(params.is_blocked !== 1)))"
    );
    assert_eq!(
        build_expression(&SparkAdaStrategy, &mixed()),
        "(Params.Amount > 0 and then (Params.Role = admin or else not (Params.Is_Blocked /= 1)))"
    );
    assert_eq!(
        build_expression(&ElixirStrategy, &mixed()),
        "(params[:amount] > 0 and (params[:role] == admin or not (params[:is_blocked] != 1)))"
    );
}

#[test]
fn assertions_follow_leaves_left_to_right() {
    assert_eq!(
        build_assertions(&SolidityStrategy, &mixed()),
        "require(params.amount > 0);\n    require(params.role == admin);\n    require(params.is_blocked != 1);"
    );
    assert_eq!(
        build_assertions(&PythonStrategy, &mixed()),
        "assert params['amount'] > 0\n    assert params['role'] == admin\n    assert params['is_blocked'] != 1"
    );
}

#[test]
fn ada_contracts_cover_root_conjunction_only() {
    let contracts = SparkAdaStrategy.emit_contracts(&mixed()).unwrap();
    assert!(contracts.starts_with("   with\n        Pre  => Params.Amount > 0,\n        Post => (validate_intent'Result = "));
    assert!(!contracts.contains("Pre  => Params.Role"));
    let pres = SparkAdaStrategy.extract_preconditions(&mixed());
    assert_eq!(pres, vec!["Params.Amount > 0".to_string()]);
}

#[test]
fn elixir_guard_keeps_literals_and_looks_up_names() {
    let tree = CompoundConstraint::And(vec![
        leaf("amount", ConstraintOperator::GreaterThan, "0"),
        leaf("balance", ConstraintOperator::GreaterThanOrEqual, "amount"),
    ]);
    assert_eq!(
        ElixirStrategy.to_guard_expression(&tree).unwrap(),
        "params[:amount] > 0 and params[:balance] >= params[:amount]"
    );
    assert_eq!(ElixirStrategy.format_value("-3"), "-3");
    assert_eq!(ElixirStrategy.format_value("x"), "params[:x]");
}

#[test]
fn signatures_follow_insertion_order() {
    let mut schema = Schema::new("id".to_string());
    schema.add_field("zeta".to_string(), DataType::Int32, None).unwrap();
    schema.add_field("alpha".to_string(), DataType::Bool, None).unwrap();
    assert_eq!(build_signature(&ZigStrategy, "f", &schema), "pub fn f(params: { zeta: i32, alpha: bool })");
    assert_eq!(build_signature(&SparkAdaStrategy, "f", &schema), "function f (Zeta : Integer; Alpha : Boolean) return Boolean");
    assert_eq!(build_signature(&SolidityStrategy, "f", &schema), "function f (int32 zeta, bool alpha)");
    let empty = Schema::new("id".to_string());
    assert_eq!(build_signature(&TypeScriptStrategy, "f", &empty), "export interface f_Params { }");
    assert_eq!(build_signature(&RustStrategy, "f", &empty), "pub struct ValidationParams { }");
}

#[test]
fn type_mapping_and_safe_arithmetic() {
    let custom = DataType::Custom { name: "Cents".to_string(), range_min: Some(0), range_max: None };
    assert_eq!(RustStrategy.map_type(&custom), "Cents");
    assert_eq!(SolidityStrategy.map_type(&DataType::Uint64), "uint256");
    assert_eq!(SparkAdaStrategy.map_type(&DataType::Uint32), "Natural");
    let schema = Schema::new("id".to_string());
    assert_eq!(RustStrategy.safe_op("a", ArithmeticOperator::Add, "b", &schema), "a.checked_add(b).unwrap_or(0)");
    assert_eq!(ZigStrategy.safe_op("a", ArithmeticOperator::Multiply, "b", &schema), "@mulWithOverflow(a, b).*[0]");
    assert_eq!(PythonStrategy.safe_op("a", ArithmeticOperator::Divide, "b", &schema), "a/b");
    assert_eq!(
        default_safe_compare("a", &ConstraintOperator::NotEqual, "b", &DataType::Int64),
        "a != b"
    );
}

#[test]
fn elixir_assertions_come_before_the_expression() {
    let out = crucible::generator::CodeGenerator
        .generate(&mixed(), crucible::generator::TargetLanguage::Elixir)
        .unwrap();
    let a = out.code.find("assert params[:amount] > 0").unwrap();
    let e = out.code.find("(params[:amount] > 0 and").unwrap();
    assert!(a < e);
}
