use crucible::ast::{CompoundConstraint, Constraint, ConstraintOperator};
use crucible::generator::{CodeGenerator, TargetLanguage};
use crucible::schema::{DataType, Schema};
use crucible::strategies::{ElixirStrategy, SparkAdaStrategy, ZigStrategy};
use crucible::text::to_ada_case;

fn leaf(l: &str, op: ConstraintOperator, r: &str) -> CompoundConstraint {
    CompoundConstraint::Simple(Constraint {
        left_variable: l.to_string(),
        operator: op,
        right_value: r.to_string(),
    })
}

fn sample_compound() -> CompoundConstraint {
    CompoundConstraint::And(vec![
        leaf("balance", ConstraintOperator::GreaterThanOrEqual, "amount"),
        leaf("amount", ConstraintOperator::GreaterThan, "0"),
    ])
}

fn sample_schema() -> Schema {
    let mut schema = Schema::new("test-traceability-123".to_string());
    schema
        .add_field(
            "balance".to_string(),
            DataType::Uint64,
            Some("Account balance in smallest unit".to_string()),
        )
        .unwrap();
    schema
        .add_field("amount".to_string(), DataType::Uint64, Some("Transaction amount".to_string()))
        .unwrap();
    schema
}

#[test]
fn test_rust_generation() {
    let generator = CodeGenerator;
    let result = generator.generate(&sample_compound(), TargetLanguage::Rust);
    assert!(result.is_ok());
    let output = result.unwrap();
    assert!(output.code.contains("params.balance >= amount"));
    assert!(output.code.contains("params.amount > 0"));
    assert!(output.code.contains("#[kani::proof]"));
}

#[test]
fn test_spark_ada_generation() {
    let generator = CodeGenerator;
    let result = generator.generate(&sample_compound(), TargetLanguage::SparkAda);
    assert!(result.is_ok());
    let output = result.unwrap();
    assert!(output.code.contains("Params.Balance >= amount"));
    assert!(output.code.contains("and then"));
    assert!(output.code.contains("SPARK_Mode => On"));
    assert!(output.code.contains("Post =>"));
    assert!(output.code.contains("pragma Assert"));
}

#[test]
fn test_zig_generation() {
    let generator = CodeGenerator;
    let result = generator.generate(&sample_compound(), TargetLanguage::Zig);
    assert!(result.is_ok());
    let output = result.unwrap();
    assert!(output.code.contains("params.balance >= amount"));
    assert!(output.code.contains("comptime"));
    assert!(output.code.contains("std.debug.assert"));
}

#[test]
fn test_elixir_generation() {
    let generator = CodeGenerator;
    let result = generator.generate(&sample_compound(), TargetLanguage::Elixir);
    assert!(result.is_ok());
    let output = result.unwrap();
    assert!(output.code.contains("params[:balance] >= amount"));
    assert!(output.code.contains("def validate_intent?"));
    assert!(output.code.contains("when is_map(params)"));
}

#[test]
fn test_python_generation() {
    let compound = CompoundConstraint::Or(vec![
        leaf("role", ConstraintOperator::Equal, "\"admin\""),
        leaf("role", ConstraintOperator::Equal, "\"moderator\""),
    ]);
    let generator = CodeGenerator;
    let result = generator.generate(&compound, TargetLanguage::Python);
    assert!(result.is_ok());
    let output = result.unwrap();
    assert!(output.code.contains("or"));
    assert!(output.code.contains("hypothesis"));
}

#[test]
fn test_typescript_generation() {
    let generator = CodeGenerator;
    let result = generator.generate(&sample_compound(), TargetLanguage::TypeScript);
    assert!(result.is_ok());
    let output = result.unwrap();
    assert!(output.code.contains("params.balance >= amount"));
    assert!(output.code.contains("&&"));
}

#[test]
fn test_not_expression() {
    let compound = CompoundConstraint::Not(Box::new(leaf(
        "is_blocked",
        ConstraintOperator::Equal,
        "true",
    )));
    let generator = CodeGenerator;
    let result = generator.generate(&compound, TargetLanguage::Rust);
    assert!(result.is_ok());
    let output = result.unwrap();
    assert!(output.code.contains("!(params.is_blocked == true)"));
}

#[test]
fn test_ada_case_conversion() {
    assert_eq!(to_ada_case("balance"), "Balance");
    assert_eq!(to_ada_case("user_balance"), "User_Balance");
    assert_eq!(to_ada_case("max_transfer_amount"), "Max_Transfer_Amount");
}

#[test]
fn test_spark_ada_contracts() {
    let compound = CompoundConstraint::And(vec![
        leaf("amount", ConstraintOperator::GreaterThanOrEqual, "0"),
        leaf("balance", ConstraintOperator::GreaterThanOrEqual, "amount"),
    ]);
    let strategy = SparkAdaStrategy;
    let contracts = strategy.emit_contracts(&compound);
    assert!(contracts.is_some());
    let contracts_str = contracts.unwrap();
    assert!(contracts_str.contains("Pre  =>"));
    assert!(contracts_str.contains("Post =>"));
}

#[test]
fn test_zig_comptime_capable() {
    let compound = sample_compound();
    let strategy = ZigStrategy;
    assert!(strategy.is_comptime_capable(&compound));
}

#[test]
fn test_elixir_guard_expression() {
    let compound = sample_compound();
    let strategy = ElixirStrategy;
    let guard = strategy.to_guard_expression(&compound);
    assert!(guard.is_some());
    let guard_str = guard.unwrap();
    assert!(guard_str.contains("and"));
}

#[test]
fn test_solidity_generation() {
    let generator = CodeGenerator;
    let result = generator.generate(&sample_compound(), TargetLanguage::Solidity);
    assert!(result.is_ok());
    let output = result.unwrap();
    assert!(output.code.contains("params.balance >= amount"));
    assert!(output.code.contains("require("));
    assert!(output.code.contains("// SPDX-License-Identifier: MIT"));
}

#[test]
fn test_schema_creation() {
    let schema = sample_schema();
    assert_eq!(schema.fields.len(), 2);
    assert_eq!(schema.get_type("balance"), DataType::Uint64);
    assert_eq!(schema.get_type("amount"), DataType::Uint64);
    assert!(schema.requires_overflow_protection("balance"));
}

#[test]
fn test_spark_ada_type_aware_generation() {
    let generator = CodeGenerator;
    let result =
        generator.generate_with_schema(&sample_compound(), &sample_schema(), TargetLanguage::SparkAda);
    assert!(result.is_ok());
    let output = result.unwrap();
    assert!(output.code.contains("Natural"));
    assert!(output.code.contains("'Result"));
    assert!(output.code.contains("test-traceability-123"));
}

#[test]
fn test_zig_type_aware_generation() {
    let generator = CodeGenerator;
    let result =
        generator.generate_with_schema(&sample_compound(), &sample_schema(), TargetLanguage::Zig);
    assert!(result.is_ok());
    let output = result.unwrap();
    assert!(output.code.contains("u64"));
    assert!(output.code.contains("v0.1.5-alpha"));
    assert!(output.code.contains("test-traceability-123"));
}

#[test]
fn test_rust_type_aware_generation() {
    let generator = CodeGenerator;
    let result =
        generator.generate_with_schema(&sample_compound(), &sample_schema(), TargetLanguage::Rust);
    assert!(result.is_ok());
    let output = result.unwrap();
    assert!(output.code.contains("pub balance: u64"));
    assert!(output.code.contains("pub amount: u64"));
    assert!(output.code.contains("v0.1.5-alpha"));
}

#[test]
fn test_solidity_type_aware_generation() {
    let generator = CodeGenerator;
    let result = generator.generate_with_schema(
        &sample_compound(),
        &sample_schema(),
        TargetLanguage::Solidity,
    );
    assert!(result.is_ok());
    let output = result.unwrap();
    assert!(output.code.contains("uint256"));
    assert!(output.code.contains("SPDX-License-Identifier: MIT"));
}

#[test]
fn test_typescript_type_aware_generation() {
    let generator = CodeGenerator;
    let result = generator.generate_with_schema(
        &sample_compound(),
        &sample_schema(),
        TargetLanguage::TypeScript,
    );
    assert!(result.is_ok());
    let output = result.unwrap();
    assert!(output.code.contains("balance: number"));
    assert!(output.code.contains("amount: number"));
}

#[test]
fn test_python_type_aware_generation() {
    let generator = CodeGenerator;
    let result =
        generator.generate_with_schema(&sample_compound(), &sample_schema(), TargetLanguage::Python);
    assert!(result.is_ok());
    let output = result.unwrap();
    assert!(output.code.contains("balance: int"));
    assert!(output.code.contains("amount: int"));
}

#[test]
fn test_elixir_type_aware_generation() {
    let generator = CodeGenerator;
    let result =
        generator.generate_with_schema(&sample_compound(), &sample_schema(), TargetLanguage::Elixir);
    assert!(result.is_ok());
    let output = result.unwrap();
    assert!(output.code.contains("integer()"));
}

#[test]
fn test_custom_type_in_schema() {
    let mut schema = Schema::new("custom-test-456".to_string());
    schema
        .add_field(
            "value".to_string(),
            DataType::Custom {
                name: "MyRangedInt".to_string(),
                range_min: Some(0),
                range_max: Some(1000),
            },
            None,
        )
        .unwrap();
    assert_eq!(
        schema.get_type("value"),
        DataType::Custom { name: "MyRangedInt".to_string(), range_min: Some(0), range_max: Some(1000) }
    );
}
