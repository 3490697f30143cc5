use vstd::prelude::*;
use crate::ast::{ArithmeticOperator, ConstraintOperator};
use crate::codegen::CodegenStrategy;
use crate::schema::{DataType, Schema};
use crate::text::{ada_case, to_ada_case};

verus! {

/// Rust: `params.x`, debug-time assertions and a bounded-model-check harness.
#[derive(Debug, Clone, Copy, PartialEq, Eq)]
pub struct RustStrategy;

impl CodegenStrategy for RustStrategy {
    open spec fn op_text(&self, op: ConstraintOperator) -> Seq<char> {
        match op {
            ConstraintOperator::GreaterThanOrEqual => ">="@,
            ConstraintOperator::LessThanOrEqual => "<="@,
            ConstraintOperator::GreaterThan => ">"@,
            ConstraintOperator::LessThan => "<"@,
            ConstraintOperator::Equal => "=="@,
            ConstraintOperator::NotEqual => "!="@,
        }
    }

    open spec fn var_text(&self, name: Seq<char>) -> Seq<char> {
        "params."@ + name
    }

    open spec fn and_text(&self) -> Seq<char> {
        "&&"@
    }

    open spec fn or_text(&self) -> Seq<char> {
        "||"@
    }

    open spec fn not_text(&self, e: Seq<char>) -> Seq<char> {
        "!"@ + "("@ + e + ")"@
    }

    open spec fn assertion_text(&self, e: Seq<char>) -> Seq<char> {
        "debug_assert!"@ + "("@ + e + ");"@
    }

    open spec fn function_text(
        &self,
        func: Seq<char>,
        contracts: Seq<char>,
        body: Seq<char>,
        assertions: Seq<char>,
    ) -> Seq<char> {
        let ablock = if assertions.len() == 0 {
            Seq::<char>::empty()
        } else {
            "// Runtime assertion checks\n        "@ + assertions
        };
        let cblock = if contracts.len() == 0 {
            Seq::<char>::empty()
        } else {
            contracts
        };
        "//! Rust Code from Crucible - Memory Safe with Formal Verification\n//! Use with Kani for bounded model checking\n\n/// Validation parameters structure\n#"@ + "[derive(Debug, Clone)]\npub struct ValidationParams {\n    // Define your validation parameters here\n}"@ + cblock + "\n\nimpl Validator {\n    /// Validates the given parameters against the intent constraints.\n    ///\n    /// # Returns\n    /// `true` if all constraints are satisfied, `false` otherwise.\n    #"@ + "[inline]\n    pub fn "@ + func + "(&self, params: &ValidationParams) -> bool {\n"@ + ablock + "\n        "@ + body + "\n    }\n}\n\n#"@ + "[cfg(kani)]\nmod verification {\n    use super::*;\n\n    #"@ + "[kani::proof]\n    fn verify_"@ + func + "() {\n        let validator = Validator;\n        let params = kani::any::<ValidationParams>();\n        let result = validator."@ + func + "(&params);\n        kani::cover!"@ + "(result == true);\n        kani::cover!"@ + "(result == false);\n    }\n}"@
    }

    open spec fn type_text(&self, dt: DataType) -> Seq<char> {
        match dt {
            DataType::Uint64 => "u64"@,
            DataType::Uint32 => "u32"@,
            DataType::Int64 => "i64"@,
            DataType::Int32 => "i32"@,
            DataType::String => "String"@,
            DataType::Bool => "bool"@,
            DataType::Decimal => "f64"@,
            DataType::Custom { name, .. } => name@,
        }
    }

    open spec fn postcondition_text(&self, e: Seq<char>) -> Seq<char> {
        "/// Post-condition: The function returns true iff the expression evaluates to true: "@ + e
    }

    open spec fn safe_op_text(&self, l: Seq<char>, op: ArithmeticOperator, r: Seq<char>) -> Seq<char> {
        match op {
            ArithmeticOperator::Add => l + ".checked_add("@ + r + ").unwrap_or(0)"@,
            ArithmeticOperator::Subtract => l + ".checked_sub("@ + r + ").unwrap_or(0)"@,
            ArithmeticOperator::Multiply => l + ".checked_mul("@ + r + ").unwrap_or(0)"@,
            ArithmeticOperator::Divide => l + "/"@ + r,
        }
    }

    open spec fn field_text(&self, name: Seq<char>, dt: DataType) -> Seq<char> {
        "pub "@ + name + ": "@ + self.type_text(dt)
    }

    open spec fn field_sep(&self) -> Seq<char> {
        ",\n    "@
    }

    open spec fn signature_text(&self, func: Seq<char>, fields: Seq<char>, empty: bool) -> Seq<char> {
        let params = if empty {
            Seq::<char>::empty()
        } else {
            "\n    "@ + fields
        };
        "pub struct ValidationParams { "@ + params + "}"@
    }

    open spec fn end_text(&self) -> Seq<char> {
        "}"@
    }

    open spec fn header_text(&self, id: Seq<char>) -> Seq<char> {
        "//! Rust Code from Crucible - Memory Safe with Formal Verification (v0.1.5-alpha)\n//! Use with Kani for bounded model checking\n//! Patent Application: 63/928,407\n//! Traceability ID: "@ + id + "\n//! Correct by Design, Verified by Construction\n\n"@
    }

    open spec fn header_lead(&self) -> Seq<char> {
        "//! Rust Code from Crucible - Memory Safe with Formal Verification (v0.1.5-alpha)\n//! Use with Kani for bounded model checking\n//! Patent Application: 63/928,407\n//! Traceability ID: "@
    }

    open spec fn artifact_text(
        &self,
        header: Seq<char>,
        signature: Seq<char>,
        contracts: Seq<char>,
        postcondition: Seq<char>,
        assertions: Seq<char>,
        logic: Seq<char>,
        end: Seq<char>,
    ) -> Seq<char> {
        header + signature + "\n"@ + postcondition + "\nimpl Validator { \n    pub fn validate_intent(&self, params: &ValidationParams) -> bool { \n        "@ + assertions + "\n        "@ + logic + "\n    }\n}"@
    }

    proof fn lemma_header_shape(&self, id: Seq<char>) {
        let h = self.header_text(id);
        let k = self.header_lead().len() as int;
        assert(h.subrange(k, k + id.len()) =~= id);
    }

    proof fn lemma_artifact_shape(
        &self,
        header: Seq<char>,
        signature: Seq<char>,
        contracts: Seq<char>,
        postcondition: Seq<char>,
        assertions: Seq<char>,
        logic: Seq<char>,
        end: Seq<char>,
    ) {
        let a = self.artifact_text(header, signature, contracts, postcondition, assertions, logic, end);
        assert(a.subrange(0, header.len() as int) =~= header);
    }

    fn format_operator(&self, op: &ConstraintOperator) -> (r: &'static str) {
        match op {
            ConstraintOperator::GreaterThanOrEqual => ">=",
            ConstraintOperator::LessThanOrEqual => "<=",
            ConstraintOperator::GreaterThan => ">",
            ConstraintOperator::LessThan => "<",
            ConstraintOperator::Equal => "==",
            ConstraintOperator::NotEqual => "!=",
        }
    }

    fn format_variable(&self, name: &str) -> (r: String) {
        let mut out = String::from_str("params.");
        out.append(name);
        out
    }

    fn logical_and(&self) -> (r: &'static str) {
        "&&"
    }

    fn logical_or(&self) -> (r: &'static str) {
        "||"
    }

    fn logical_not(&self, expr: &str) -> (r: String) {
        let mut out = String::from_str("!");
        out.append("(");
        out.append(expr);
        out.append(")");
        out
    }

    fn wrap_assertion(&self, condition: &str) -> (r: String) {
        let mut out = String::from_str("debug_assert!");
        out.append("(");
        out.append(condition);
        out.append(");");
        out
    }

    fn wrap_verified_function(
        &self,
        func_name: &str,
        contracts: &str,
        body: &str,
        assertions: &str,
    ) -> (r: String) {
        let ablock = if assertions.unicode_len() == 0 {
            let out = String::new();
            out
        } else {
            let mut out = String::from_str("// Runtime assertion checks\n        ");
            out.append(assertions);
            out
        };
        let cblock = if contracts.unicode_len() == 0 {
            let out = String::new();
            out
        } else {
            let out = String::from_str(contracts);
            out
        };
        let mut out = String::from_str("//! Rust Code from Crucible - Memory Safe with Formal Verification\n//! Use with Kani for bounded model checking\n\n/// Validation parameters structure\n#");
        out.append("[derive(Debug, Clone)]\npub struct ValidationParams {\n    // Define your validation parameters here\n}");
        out.append(cblock.as_str());
        out.append("\n\nimpl Validator {\n    /// Validates the given parameters against the intent constraints.\n    ///\n    /// # Returns\n    /// `true` if all constraints are satisfied, `false` otherwise.\n    #");
        out.append("[inline]\n    pub fn ");
        out.append(func_name);
        out.append("(&self, params: &ValidationParams) -> bool {\n");
        out.append(ablock.as_str());
        out.append("\n        ");
        out.append(body);
        out.append("\n    }\n}\n\n#");
        out.append("[cfg(kani)]\nmod verification {\n    use super::*;\n\n    #");
        out.append("[kani::proof]\n    fn verify_");
        out.append(func_name);
        out.append("() {\n        let validator = Validator;\n        let params = kani::any::<ValidationParams>();\n        let result = validator.");
        out.append(func_name);
        out.append("(&params);\n        kani::cover!");
        out.append("(result == true);\n        kani::cover!");
        out.append("(result == false);\n    }\n}");
        out
    }

    fn map_type(&self, data_type: &DataType) -> (r: String) {
        match data_type {
            DataType::Uint64 => String::from_str("u64"),
            DataType::Uint32 => String::from_str("u32"),
            DataType::Int64 => String::from_str("i64"),
            DataType::Int32 => String::from_str("i32"),
            DataType::String => String::from_str("String"),
            DataType::Bool => String::from_str("bool"),
            DataType::Decimal => String::from_str("f64"),
            DataType::Custom { name, .. } => name.clone(),
        }
    }

    fn emit_postcondition(&self, expression: &str, schema: &Schema) -> (r: String) {
        let mut out = String::from_str("/// Post-condition: The function returns true iff the expression evaluates to true: ");
        out.append(expression);
        out
    }

    fn safe_op(&self, left: &str, op: ArithmeticOperator, right: &str, schema: &Schema) -> (r: String) {
        match op {
            ArithmeticOperator::Add => {
                let mut out = String::from_str(left);
                out.append(".checked_add(");
                out.append(right);
                out.append(").unwrap_or(0)");
                out
            },
            ArithmeticOperator::Subtract => {
                let mut out = String::from_str(left);
                out.append(".checked_sub(");
                out.append(right);
                out.append(").unwrap_or(0)");
                out
            },
            ArithmeticOperator::Multiply => {
                let mut out = String::from_str(left);
                out.append(".checked_mul(");
                out.append(right);
                out.append(").unwrap_or(0)");
                out
            },
            ArithmeticOperator::Divide => {
                let mut out = String::from_str(left);
                out.append("/");
                out.append(right);
                out
            },
        }
    }

    fn format_field(&self, name: &str, data_type: &DataType) -> (r: String) {
        let ty = self.map_type(data_type);
        let mut out = String::from_str("pub ");
        out.append(name);
        out.append(": ");
        out.append(ty.as_str());
        out
    }

    fn field_separator(&self) -> (r: &'static str) {
        ",\n    "
    }

    fn wrap_signature(&self, func_name: &str, fields: &str, empty: bool) -> (r: String) {
        let params = if empty {
            let out = String::new();
            out
        } else {
            let mut out = String::from_str("\n    ");
            out.append(fields);
            out
        };
        let mut out = String::from_str("pub struct ValidationParams { ");
        out.append(params.as_str());
        out.append("}");
        out
    }

    fn fn_end(&self) -> (r: String) {
        let out = String::from_str("}");
        out
    }

    fn license_header(&self, traceability_id: &str) -> (r: String) {
        let mut out = String::from_str("//! Rust Code from Crucible - Memory Safe with Formal Verification (v0.1.5-alpha)\n//! Use with Kani for bounded model checking\n//! Patent Application: 63/928,407\n//! Traceability ID: ");
        out.append(traceability_id);
        out.append("\n//! Correct by Design, Verified by Construction\n\n");
        out
    }

    fn compose_artifact(
        &self,
        header: &str,
        signature: &str,
        contracts: &str,
        postcondition: &str,
        assertions: &str,
        logic: &str,
        end: &str,
    ) -> (r: String) {
        let mut out = String::from_str(header);
        out.append(signature);
        out.append("\n");
        out.append(postcondition);
        out.append("\nimpl Validator { \n    pub fn validate_intent(&self, params: &ValidationParams) -> bool { \n        ");
        out.append(assertions);
        out.append("\n        ");
        out.append(logic);
        out.append("\n    }\n}");
        out
    }
}

/// TypeScript: strict equality, an interface plus a class with a static method.
#[derive(Debug, Clone, Copy, PartialEq, Eq)]
pub struct TypeScriptStrategy;

impl CodegenStrategy for TypeScriptStrategy {
    open spec fn op_text(&self, op: ConstraintOperator) -> Seq<char> {
        match op {
            ConstraintOperator::GreaterThanOrEqual => ">="@,
            ConstraintOperator::LessThanOrEqual => "<="@,
            ConstraintOperator::GreaterThan => ">"@,
            ConstraintOperator::LessThan => "<"@,
            ConstraintOperator::Equal => "==="@,
            ConstraintOperator::NotEqual => "!=="@,
        }
    }

    open spec fn var_text(&self, name: Seq<char>) -> Seq<char> {
        "params."@ + name
    }

    open spec fn and_text(&self) -> Seq<char> {
        "&&"@
    }

    open spec fn or_text(&self) -> Seq<char> {
        "||"@
    }

    open spec fn not_text(&self, e: Seq<char>) -> Seq<char> {
        "!"@ + "("@ + e + ")"@
    }

    open spec fn assertion_text(&self, e: Seq<char>) -> Seq<char> {
        "assert("@ + e + ");"@
    }

    open spec fn function_text(
        &self,
        func: Seq<char>,
        contracts: Seq<char>,
        body: Seq<char>,
        assertions: Seq<char>,
    ) -> Seq<char> {
        let ablock = if assertions.len() == 0 {
            Seq::<char>::empty()
        } else {
            "// Runtime assertion checks\n    "@ + assertions
        };
        let cblock = if contracts.len() == 0 {
            Seq::<char>::empty()
        } else {
            contracts
        };
        "// TypeScript Code from Crucible\n// Use with ts-auto-guard for runtime type checking\n\nexport interface ValidationParams {\n  // Define your validation parameters here\n"@ + cblock + "\n}\n\nexport class Validator {\n  /**\n   * Validates the given parameters against the intent constraints.\n   * @param params - The parameters to validate\n   * @returns true if all constraints are satisfied\n   */\n  static "@ + func + "(params: ValidationParams): boolean {\n"@ + ablock + "\n    return "@ + body + ";\n  }\n}"@
    }

    open spec fn type_text(&self, dt: DataType) -> Seq<char> {
        match dt {
            DataType::Uint64 => "number"@,
            DataType::Uint32 => "number"@,
            DataType::Int64 => "number"@,
            DataType::Int32 => "number"@,
            DataType::String => "string"@,
            DataType::Bool => "boolean"@,
            DataType::Decimal => "number"@,
            DataType::Custom { name, .. } => name@,
        }
    }

    open spec fn postcondition_text(&self, e: Seq<char>) -> Seq<char> {
        "// Post-condition: Returns true iff ("@ + e + ")"@
    }

    open spec fn safe_op_text(&self, l: Seq<char>, op: ArithmeticOperator, r: Seq<char>) -> Seq<char> {
        match op {
            ArithmeticOperator::Add => "Number.safeAdd("@ + l + ", "@ + r + ")"@,
            ArithmeticOperator::Subtract => "Number.safeSubtract("@ + l + ", "@ + r + ")"@,
            ArithmeticOperator::Multiply => "Number.safeMultiply("@ + l + ", "@ + r + ")"@,
            ArithmeticOperator::Divide => l + "/"@ + r,
        }
    }

    open spec fn field_text(&self, name: Seq<char>, dt: DataType) -> Seq<char> {
        name + ": "@ + self.type_text(dt)
    }

    open spec fn field_sep(&self) -> Seq<char> {
        "; "@
    }

    open spec fn signature_text(&self, func: Seq<char>, fields: Seq<char>, empty: bool) -> Seq<char> {
        let params = if empty {
            "{ }"@
        } else {
            "{ "@ + fields + " }"@
        };
        "export interface "@ + func + "_Params "@ + params
    }

    open spec fn end_text(&self) -> Seq<char> {
        "}"@
    }

    open spec fn header_text(&self, id: Seq<char>) -> Seq<char> {
        "// TypeScript Code from Crucible (v0.1.5-alpha)\n// Use with ts-auto-guard for runtime type checking\n// Patent Application: 63/928,407\n// Traceability ID: "@ + id + "\n// Correct by Design, Verified by Construction\n\n"@
    }

    open spec fn header_lead(&self) -> Seq<char> {
        "// TypeScript Code from Crucible (v0.1.5-alpha)\n// Use with ts-auto-guard for runtime type checking\n// Patent Application: 63/928,407\n// Traceability ID: "@
    }

    open spec fn artifact_text(
        &self,
        header: Seq<char>,
        signature: Seq<char>,
        contracts: Seq<char>,
        postcondition: Seq<char>,
        assertions: Seq<char>,
        logic: Seq<char>,
        end: Seq<char>,
    ) -> Seq<char> {
        header + signature + "\n\nexport class Validator { \n    static validate_intent(params: any): boolean { \n        "@ + postcondition + "\n        "@ + assertions + "\n        return "@ + logic + "\n    }\n}"@
    }

    proof fn lemma_header_shape(&self, id: Seq<char>) {
        let h = self.header_text(id);
        let k = self.header_lead().len() as int;
        assert(h.subrange(k, k + id.len()) =~= id);
    }

    proof fn lemma_artifact_shape(
        &self,
        header: Seq<char>,
        signature: Seq<char>,
        contracts: Seq<char>,
        postcondition: Seq<char>,
        assertions: Seq<char>,
        logic: Seq<char>,
        end: Seq<char>,
    ) {
        let a = self.artifact_text(header, signature, contracts, postcondition, assertions, logic, end);
        assert(a.subrange(0, header.len() as int) =~= header);
    }

    fn format_operator(&self, op: &ConstraintOperator) -> (r: &'static str) {
        match op {
            ConstraintOperator::GreaterThanOrEqual => ">=",
            ConstraintOperator::LessThanOrEqual => "<=",
            ConstraintOperator::GreaterThan => ">",
            ConstraintOperator::LessThan => "<",
            ConstraintOperator::Equal => "===",
            ConstraintOperator::NotEqual => "!==",
        }
    }

    fn format_variable(&self, name: &str) -> (r: String) {
        let mut out = String::from_str("params.");
        out.append(name);
        out
    }

    fn logical_and(&self) -> (r: &'static str) {
        "&&"
    }

    fn logical_or(&self) -> (r: &'static str) {
        "||"
    }

    fn logical_not(&self, expr: &str) -> (r: String) {
        let mut out = String::from_str("!");
        out.append("(");
        out.append(expr);
        out.append(")");
        out
    }

    fn wrap_assertion(&self, condition: &str) -> (r: String) {
        let mut out = String::from_str("assert(");
        out.append(condition);
        out.append(");");
        out
    }

    fn wrap_verified_function(
        &self,
        func_name: &str,
        contracts: &str,
        body: &str,
        assertions: &str,
    ) -> (r: String) {
        let ablock = if assertions.unicode_len() == 0 {
            let out = String::new();
            out
        } else {
            let mut out = String::from_str("// Runtime assertion checks\n    ");
            out.append(assertions);
            out
        };
        let cblock = if contracts.unicode_len() == 0 {
            let out = String::new();
            out
        } else {
            let out = String::from_str(contracts);
            out
        };
        let mut out = String::from_str("// TypeScript Code from Crucible\n// Use with ts-auto-guard for runtime type checking\n\nexport interface ValidationParams {\n  // Define your validation parameters here\n");
        out.append(cblock.as_str());
        out.append("\n}\n\nexport class Validator {\n  /**\n   * Validates the given parameters against the intent constraints.\n   * @param params - The parameters to validate\n   * @returns true if all constraints are satisfied\n   */\n  static ");
        out.append(func_name);
        out.append("(params: ValidationParams): boolean {\n");
        out.append(ablock.as_str());
        out.append("\n    return ");
        out.append(body);
        out.append(";\n  }\n}");
        out
    }

    fn map_type(&self, data_type: &DataType) -> (r: String) {
        match data_type {
            DataType::Uint64 => String::from_str("number"),
            DataType::Uint32 => String::from_str("number"),
            DataType::Int64 => String::from_str("number"),
            DataType::Int32 => String::from_str("number"),
            DataType::String => String::from_str("string"),
            DataType::Bool => String::from_str("boolean"),
            DataType::Decimal => String::from_str("number"),
            DataType::Custom { name, .. } => name.clone(),
        }
    }

    fn emit_postcondition(&self, expression: &str, schema: &Schema) -> (r: String) {
        let mut out = String::from_str("// Post-condition: Returns true iff (");
        out.append(expression);
        out.append(")");
        out
    }

    fn safe_op(&self, left: &str, op: ArithmeticOperator, right: &str, schema: &Schema) -> (r: String) {
        match op {
            ArithmeticOperator::Add => {
                let mut out = String::from_str("Number.safeAdd(");
                out.append(left);
                out.append(", ");
                out.append(right);
                out.append(")");
                out
            },
            ArithmeticOperator::Subtract => {
                let mut out = String::from_str("Number.safeSubtract(");
                out.append(left);
                out.append(", ");
                out.append(right);
                out.append(")");
                out
            },
            ArithmeticOperator::Multiply => {
                let mut out = String::from_str("Number.safeMultiply(");
                out.append(left);
                out.append(", ");
                out.append(right);
                out.append(")");
                out
            },
            ArithmeticOperator::Divide => {
                let mut out = String::from_str(left);
                out.append("/");
                out.append(right);
                out
            },
        }
    }

    fn format_field(&self, name: &str, data_type: &DataType) -> (r: String) {
        let ty = self.map_type(data_type);
        let mut out = String::from_str(name);
        out.append(": ");
        out.append(ty.as_str());
        out
    }

    fn field_separator(&self) -> (r: &'static str) {
        "; "
    }

    fn wrap_signature(&self, func_name: &str, fields: &str, empty: bool) -> (r: String) {
        let params = if empty {
            let out = String::from_str("{ }");
            out
        } else {
            let mut out = String::from_str("{ ");
            out.append(fields);
            out.append(" }");
            out
        };
        let mut out = String::from_str("export interface ");
        out.append(func_name);
        out.append("_Params ");
        out.append(params.as_str());
        out
    }

    fn fn_end(&self) -> (r: String) {
        let out = String::from_str("}");
        out
    }

    fn license_header(&self, traceability_id: &str) -> (r: String) {
        let mut out = String::from_str("// TypeScript Code from Crucible (v0.1.5-alpha)\n// Use with ts-auto-guard for runtime type checking\n// Patent Application: 63/928,407\n// Traceability ID: ");
        out.append(traceability_id);
        out.append("\n// Correct by Design, Verified by Construction\n\n");
        out
    }

    fn compose_artifact(
        &self,
        header: &str,
        signature: &str,
        contracts: &str,
        postcondition: &str,
        assertions: &str,
        logic: &str,
        end: &str,
    ) -> (r: String) {
        let mut out = String::from_str(header);
        out.append(signature);
        out.append("\n\nexport class Validator { \n    static validate_intent(params: any): boolean { \n        ");
        out.append(postcondition);
        out.append("\n        ");
        out.append(assertions);
        out.append("\n        return ");
        out.append(logic);
        out.append("\n    }\n}");
        out
    }
}

/// Python: `params['x']`, word connectives, native assertions and a property-testing stub.
#[derive(Debug, Clone, Copy, PartialEq, Eq)]
pub struct PythonStrategy;

impl CodegenStrategy for PythonStrategy {
    open spec fn op_text(&self, op: ConstraintOperator) -> Seq<char> {
        match op {
            ConstraintOperator::GreaterThanOrEqual => ">="@,
            ConstraintOperator::LessThanOrEqual => "<="@,
            ConstraintOperator::GreaterThan => ">"@,
            ConstraintOperator::LessThan => "<"@,
            ConstraintOperator::Equal => "=="@,
            ConstraintOperator::NotEqual => "!="@,
        }
    }

    open spec fn var_text(&self, name: Seq<char>) -> Seq<char> {
        "params['"@ + name + "']"@
    }

    open spec fn and_text(&self) -> Seq<char> {
        "and"@
    }

    open spec fn or_text(&self) -> Seq<char> {
        "or"@
    }

    open spec fn not_text(&self, e: Seq<char>) -> Seq<char> {
        "not ("@ + e + ")"@
    }

    open spec fn assertion_text(&self, e: Seq<char>) -> Seq<char> {
        "assert "@ + e
    }

    open spec fn function_text(
        &self,
        func: Seq<char>,
        contracts: Seq<char>,
        body: Seq<char>,
        assertions: Seq<char>,
    ) -> Seq<char> {
        let ablock = if assertions.len() == 0 {
            Seq::<char>::empty()
        } else {
            "# Runtime assertion checks\n        "@ + assertions
        };
        let cblock = if contracts.len() == 0 {
            Seq::<char>::empty()
        } else {
            contracts
        };
        "# Python Code from Crucible\n# Use with hypothesis for property-based testing\n\nfrom typing import Dict, Any\nfrom dataclasses import dataclass\n"@ + cblock + "\n\n\n@dataclass\nclass ValidationParams:\n    \"\"\"Validation parameters structure.\"\"\"\n    pass  # Define your validation parameters here\n\n\nclass Validator:\n    \"\"\"Validator derived from a Crucible intent specification.\"\"\"\n\n    @staticmethod\n    def "@ + func + "(params: Dict[str, Any]) -> bool:\n        \"\"\"\n        Validates the given parameters against the intent constraints.\n\n        Args:\n            params: Dictionary of parameters to validate\n\n        Returns:\n            True if all constraints are satisfied, False otherwise\n        \"\"\"\n"@ + ablock + "\n        return "@ + body + "\n\n\n# Property-based test example (requires hypothesis)\n# from hypothesis import given, strategies as st\n# @given(st.dictionaries(st.text(), st.integers()))\n# def test_"@ + func + "(params):\n#     result = Validator."@ + func + "(params)\n#     assert isinstance(result, bool)"@
    }

    open spec fn type_text(&self, dt: DataType) -> Seq<char> {
        match dt {
            DataType::Uint64 => "int"@,
            DataType::Uint32 => "int"@,
            DataType::Int64 => "int"@,
            DataType::Int32 => "int"@,
            DataType::String => "str"@,
            DataType::Bool => "bool"@,
            DataType::Decimal => "Decimal"@,
            DataType::Custom { name, .. } => name@,
        }
    }

    open spec fn postcondition_text(&self, e: Seq<char>) -> Seq<char> {
        "# Post-condition: Returns True iff ("@ + e + ")"@
    }

    open spec fn safe_op_text(&self, l: Seq<char>, op: ArithmeticOperator, r: Seq<char>) -> Seq<char> {
        match op {
            ArithmeticOperator::Add => l + "_add("@ + r + ", )"@,
            ArithmeticOperator::Subtract => l + "_subtract("@ + r + ", )"@,
            ArithmeticOperator::Multiply => l + "_multiply("@ + r + ", )"@,
            ArithmeticOperator::Divide => l + "/"@ + r,
        }
    }

    open spec fn field_text(&self, name: Seq<char>, dt: DataType) -> Seq<char> {
        name + ": "@ + self.type_text(dt)
    }

    open spec fn field_sep(&self) -> Seq<char> {
        "\n    "@
    }

    open spec fn signature_text(&self, func: Seq<char>, fields: Seq<char>, empty: bool) -> Seq<char> {
        let params = if empty {
            "pass  # Define your validation parameters here"@
        } else {
            "\n    "@ + fields
        };
        "@dataclass\nclass "@ + func + "_Params:\n"@ + params
    }

    open spec fn end_text(&self) -> Seq<char> {
        Seq::<char>::empty()
    }

    open spec fn header_text(&self, id: Seq<char>) -> Seq<char> {
        "# Python Code from Crucible (v0.1.5-alpha)\n# Use with hypothesis for property-based testing\n# Patent Application: 63/928,407\n# Traceability ID: "@ + id + "\n# Correct by Design, Verified by Construction\n\n"@
    }

    open spec fn header_lead(&self) -> Seq<char> {
        "# Python Code from Crucible (v0.1.5-alpha)\n# Use with hypothesis for property-based testing\n# Patent Application: 63/928,407\n# Traceability ID: "@
    }

    open spec fn artifact_text(
        &self,
        header: Seq<char>,
        signature: Seq<char>,
        contracts: Seq<char>,
        postcondition: Seq<char>,
        assertions: Seq<char>,
        logic: Seq<char>,
        end: Seq<char>,
    ) -> Seq<char> {
        header + signature + "\n\nclass Validator:\n    @staticmethod\n    def validate_intent(params) -> bool:\n        "@ + postcondition + "\n        "@ + assertions + "\n        return "@ + logic
    }

    proof fn lemma_header_shape(&self, id: Seq<char>) {
        let h = self.header_text(id);
        let k = self.header_lead().len() as int;
        assert(h.subrange(k, k + id.len()) =~= id);
    }

    proof fn lemma_artifact_shape(
        &self,
        header: Seq<char>,
        signature: Seq<char>,
        contracts: Seq<char>,
        postcondition: Seq<char>,
        assertions: Seq<char>,
        logic: Seq<char>,
        end: Seq<char>,
    ) {
        let a = self.artifact_text(header, signature, contracts, postcondition, assertions, logic, end);
        assert(a.subrange(0, header.len() as int) =~= header);
    }

    fn format_operator(&self, op: &ConstraintOperator) -> (r: &'static str) {
        match op {
            ConstraintOperator::GreaterThanOrEqual => ">=",
            ConstraintOperator::LessThanOrEqual => "<=",
            ConstraintOperator::GreaterThan => ">",
            ConstraintOperator::LessThan => "<",
            ConstraintOperator::Equal => "==",
            ConstraintOperator::NotEqual => "!=",
        }
    }

    fn format_variable(&self, name: &str) -> (r: String) {
        let mut out = String::from_str("params['");
        out.append(name);
        out.append("']");
        out
    }

    fn logical_and(&self) -> (r: &'static str) {
        "and"
    }

    fn logical_or(&self) -> (r: &'static str) {
        "or"
    }

    fn logical_not(&self, expr: &str) -> (r: String) {
        let mut out = String::from_str("not (");
        out.append(expr);
        out.append(")");
        out
    }

    fn wrap_assertion(&self, condition: &str) -> (r: String) {
        let mut out = String::from_str("assert ");
        out.append(condition);
        out
    }

    fn wrap_verified_function(
        &self,
        func_name: &str,
        contracts: &str,
        body: &str,
        assertions: &str,
    ) -> (r: String) {
        let ablock = if assertions.unicode_len() == 0 {
            let out = String::new();
            out
        } else {
            let mut out = String::from_str("# Runtime assertion checks\n        ");
            out.append(assertions);
            out
        };
        let cblock = if contracts.unicode_len() == 0 {
            let out = String::new();
            out
        } else {
            let out = String::from_str(contracts);
            out
        };
        let mut out = String::from_str("# Python Code from Crucible\n# Use with hypothesis for property-based testing\n\nfrom typing import Dict, Any\nfrom dataclasses import dataclass\n");
        out.append(cblock.as_str());
        out.append("\n\n\n@dataclass\nclass ValidationParams:\n    \"\"\"Validation parameters structure.\"\"\"\n    pass  # Define your validation parameters here\n\n\nclass Validator:\n    \"\"\"Validator derived from a Crucible intent specification.\"\"\"\n\n    @staticmethod\n    def ");
        out.append(func_name);
        out.append("(params: Dict[str, Any]) -> bool:\n        \"\"\"\n        Validates the given parameters against the intent constraints.\n\n        Args:\n            params: Dictionary of parameters to validate\n\n        Returns:\n            True if all constraints are satisfied, False otherwise\n        \"\"\"\n");
        out.append(ablock.as_str());
        out.append("\n        return ");
        out.append(body);
        out.append("\n\n\n# Property-based test example (requires hypothesis)\n# from hypothesis import given, strategies as st\n# @given(st.dictionaries(st.text(), st.integers()))\n# def test_");
        out.append(func_name);
        out.append("(params):\n#     result = Validator.");
        out.append(func_name);
        out.append("(params)\n#     assert isinstance(result, bool)");
        out
    }

    fn map_type(&self, data_type: &DataType) -> (r: String) {
        match data_type {
            DataType::Uint64 => String::from_str("int"),
            DataType::Uint32 => String::from_str("int"),
            DataType::Int64 => String::from_str("int"),
            DataType::Int32 => String::from_str("int"),
            DataType::String => String::from_str("str"),
            DataType::Bool => String::from_str("bool"),
            DataType::Decimal => String::from_str("Decimal"),
            DataType::Custom { name, .. } => name.clone(),
        }
    }

    fn emit_postcondition(&self, expression: &str, schema: &Schema) -> (r: String) {
        let mut out = String::from_str("# Post-condition: Returns True iff (");
        out.append(expression);
        out.append(")");
        out
    }

    fn safe_op(&self, left: &str, op: ArithmeticOperator, right: &str, schema: &Schema) -> (r: String) {
        match op {
            ArithmeticOperator::Add => {
                let mut out = String::from_str(left);
                out.append("_add(");
                out.append(right);
                out.append(", )");
                out
            },
            ArithmeticOperator::Subtract => {
                let mut out = String::from_str(left);
                out.append("_subtract(");
                out.append(right);
                out.append(", )");
                out
            },
            ArithmeticOperator::Multiply => {
                let mut out = String::from_str(left);
                out.append("_multiply(");
                out.append(right);
                out.append(", )");
                out
            },
            ArithmeticOperator::Divide => {
                let mut out = String::from_str(left);
                out.append("/");
                out.append(right);
                out
            },
        }
    }

    fn format_field(&self, name: &str, data_type: &DataType) -> (r: String) {
        let ty = self.map_type(data_type);
        let mut out = String::from_str(name);
        out.append(": ");
        out.append(ty.as_str());
        out
    }

    fn field_separator(&self) -> (r: &'static str) {
        "\n    "
    }

    fn wrap_signature(&self, func_name: &str, fields: &str, empty: bool) -> (r: String) {
        let params = if empty {
            let out = String::from_str("pass  # Define your validation parameters here");
            out
        } else {
            let mut out = String::from_str("\n    ");
            out.append(fields);
            out
        };
        let mut out = String::from_str("@dataclass\nclass ");
        out.append(func_name);
        out.append("_Params:\n");
        out.append(params.as_str());
        out
    }

    fn fn_end(&self) -> (r: String) {
        let out = String::new();
        out
    }

    fn license_header(&self, traceability_id: &str) -> (r: String) {
        let mut out = String::from_str("# Python Code from Crucible (v0.1.5-alpha)\n# Use with hypothesis for property-based testing\n# Patent Application: 63/928,407\n# Traceability ID: ");
        out.append(traceability_id);
        out.append("\n# Correct by Design, Verified by Construction\n\n");
        out
    }

    fn compose_artifact(
        &self,
        header: &str,
        signature: &str,
        contracts: &str,
        postcondition: &str,
        assertions: &str,
        logic: &str,
        end: &str,
    ) -> (r: String) {
        let mut out = String::from_str(header);
        out.append(signature);
        out.append("\n\nclass Validator:\n    @staticmethod\n    def validate_intent(params) -> bool:\n        ");
        out.append(postcondition);
        out.append("\n        ");
        out.append(assertions);
        out.append("\n        return ");
        out.append(logic);
        out
    }
}

/// Solidity: require-style assertions, an SPDX tag and a view-function alias.
#[derive(Debug, Clone, Copy, PartialEq, Eq)]
pub struct SolidityStrategy;

impl CodegenStrategy for SolidityStrategy {
    open spec fn op_text(&self, op: ConstraintOperator) -> Seq<char> {
        match op {
            ConstraintOperator::GreaterThanOrEqual => ">="@,
            ConstraintOperator::LessThanOrEqual => "<="@,
            ConstraintOperator::GreaterThan => ">"@,
            ConstraintOperator::LessThan => "<"@,
            ConstraintOperator::Equal => "=="@,
            ConstraintOperator::NotEqual => "!="@,
        }
    }

    open spec fn var_text(&self, name: Seq<char>) -> Seq<char> {
        "params."@ + name
    }

    open spec fn and_text(&self) -> Seq<char> {
        "&&"@
    }

    open spec fn or_text(&self) -> Seq<char> {
        "||"@
    }

    open spec fn not_text(&self, e: Seq<char>) -> Seq<char> {
        "!"@ + "("@ + e + ")"@
    }

    open spec fn assertion_text(&self, e: Seq<char>) -> Seq<char> {
        "require("@ + e + ");"@
    }

    open spec fn function_text(
        &self,
        func: Seq<char>,
        contracts: Seq<char>,
        body: Seq<char>,
        assertions: Seq<char>,
    ) -> Seq<char> {
        let ablock = if assertions.len() == 0 {
            Seq::<char>::empty()
        } else {
            "// Runtime assertion checks\n        "@ + assertions
        };
        let cblock = if contracts.len() == 0 {
            "none"@
        } else {
            contracts
        };
        "// SPDX-License-Identifier: MIT\n// Solidity Code from Crucible - Smart Contract Verification\n// Use with Slither for security analysis, Echidna for property testing\n// Contracts: "@ + cblock + "\ncontract Validator {\n    /// Validation modifier for reentrancy protection\n    modifier validate {\n        _;\n        // Post-validation checks can go here\n    }\n\n    function "@ + func + "(ValidationParams memory params) public pure returns (bool) {\n"@ + ablock + "\n        return "@ + body + ";\n    }\n\n    /// View function for external validation queries\n    function validate(ValidationParams memory params) external view returns (bool) {\n        return this."@ + func + "(params);\n    }\n}"@
    }

    open spec fn type_text(&self, dt: DataType) -> Seq<char> {
        match dt {
            DataType::Uint64 => "uint256"@,
            DataType::Uint32 => "uint32"@,
            DataType::Int64 => "int256"@,
            DataType::Int32 => "int32"@,
            DataType::String => "string"@,
            DataType::Bool => "bool"@,
            DataType::Decimal => "int256"@,
            DataType::Custom { name, .. } => name@,
        }
    }

    open spec fn postcondition_text(&self, e: Seq<char>) -> Seq<char> {
        "// Post-condition: Validated iff ("@ + e + ")"@
    }

    open spec fn safe_op_text(&self, l: Seq<char>, op: ArithmeticOperator, r: Seq<char>) -> Seq<char> {
        match op {
            ArithmeticOperator::Add => l + ".add("@ + r + ")"@,
            ArithmeticOperator::Subtract => l + ".sub("@ + r + ")"@,
            ArithmeticOperator::Multiply => l + ".mul("@ + r + ")"@,
            ArithmeticOperator::Divide => l + "/"@ + r,
        }
    }

    open spec fn field_text(&self, name: Seq<char>, dt: DataType) -> Seq<char> {
        self.type_text(dt) + " "@ + name
    }

    open spec fn field_sep(&self) -> Seq<char> {
        ", "@
    }

    open spec fn signature_text(&self, func: Seq<char>, fields: Seq<char>, empty: bool) -> Seq<char> {
        let params = if empty {
            Seq::<char>::empty()
        } else {
            " ("@ + fields + ")"@
        };
        "function "@ + func + params
    }

    open spec fn end_text(&self) -> Seq<char> {
        "}"@
    }

    open spec fn header_text(&self, id: Seq<char>) -> Seq<char> {
        "// SPDX-License-Identifier: MIT\n// Solidity Code from Crucible - Smart Contract Verification (v0.1.5-alpha)\n// Use with Slither for security analysis, Echidna for property testing\n// Patent Application: 63/928,407\n// Traceability ID: "@ + id + "\n// Correct by Design, Verified by Construction\n\n"@
    }

    open spec fn header_lead(&self) -> Seq<char> {
        "// SPDX-License-Identifier: MIT\n// Solidity Code from Crucible - Smart Contract Verification (v0.1.5-alpha)\n// Use with Slither for security analysis, Echidna for property testing\n// Patent Application: 63/928,407\n// Traceability ID: "@
    }

    open spec fn artifact_text(
        &self,
        header: Seq<char>,
        signature: Seq<char>,
        contracts: Seq<char>,
        postcondition: Seq<char>,
        assertions: Seq<char>,
        logic: Seq<char>,
        end: Seq<char>,
    ) -> Seq<char> {
        header + "\ncontract Validator { \n    "@ + signature + "\n    "@ + postcondition + "\n    "@ + assertions + "\n        return "@ + logic + "\n    }\n}"@
    }

    proof fn lemma_header_shape(&self, id: Seq<char>) {
        let h = self.header_text(id);
        let k = self.header_lead().len() as int;
        assert(h.subrange(k, k + id.len()) =~= id);
    }

    proof fn lemma_artifact_shape(
        &self,
        header: Seq<char>,
        signature: Seq<char>,
        contracts: Seq<char>,
        postcondition: Seq<char>,
        assertions: Seq<char>,
        logic: Seq<char>,
        end: Seq<char>,
    ) {
        let a = self.artifact_text(header, signature, contracts, postcondition, assertions, logic, end);
        assert(a.subrange(0, header.len() as int) =~= header);
    }

    fn format_operator(&self, op: &ConstraintOperator) -> (r: &'static str) {
        match op {
            ConstraintOperator::GreaterThanOrEqual => ">=",
            ConstraintOperator::LessThanOrEqual => "<=",
            ConstraintOperator::GreaterThan => ">",
            ConstraintOperator::LessThan => "<",
            ConstraintOperator::Equal => "==",
            ConstraintOperator::NotEqual => "!=",
        }
    }

    fn format_variable(&self, name: &str) -> (r: String) {
        let mut out = String::from_str("params.");
        out.append(name);
        out
    }

    fn logical_and(&self) -> (r: &'static str) {
        "&&"
    }

    fn logical_or(&self) -> (r: &'static str) {
        "||"
    }

    fn logical_not(&self, expr: &str) -> (r: String) {
        let mut out = String::from_str("!");
        out.append("(");
        out.append(expr);
        out.append(")");
        out
    }

    fn wrap_assertion(&self, condition: &str) -> (r: String) {
        let mut out = String::from_str("require(");
        out.append(condition);
        out.append(");");
        out
    }

    fn wrap_verified_function(
        &self,
        func_name: &str,
        contracts: &str,
        body: &str,
        assertions: &str,
    ) -> (r: String) {
        let ablock = if assertions.unicode_len() == 0 {
            let out = String::new();
            out
        } else {
            let mut out = String::from_str("// Runtime assertion checks\n        ");
            out.append(assertions);
            out
        };
        let cblock = if contracts.unicode_len() == 0 {
            let out = String::from_str("none");
            out
        } else {
            let out = String::from_str(contracts);
            out
        };
        let mut out = String::from_str("// SPDX-License-Identifier: MIT\n// Solidity Code from Crucible - Smart Contract Verification\n// Use with Slither for security analysis, Echidna for property testing\n// Contracts: ");
        out.append(cblock.as_str());
        out.append("\ncontract Validator {\n    /// Validation modifier for reentrancy protection\n    modifier validate {\n        _;\n        // Post-validation checks can go here\n    }\n\n    function ");
        out.append(func_name);
        out.append("(ValidationParams memory params) public pure returns (bool) {\n");
        out.append(ablock.as_str());
        out.append("\n        return ");
        out.append(body);
        out.append(";\n    }\n\n    /// View function for external validation queries\n    function validate(ValidationParams memory params) external view returns (bool) {\n        return this.");
        out.append(func_name);
        out.append("(params);\n    }\n}");
        out
    }

    fn map_type(&self, data_type: &DataType) -> (r: String) {
        match data_type {
            DataType::Uint64 => String::from_str("uint256"),
            DataType::Uint32 => String::from_str("uint32"),
            DataType::Int64 => String::from_str("int256"),
            DataType::Int32 => String::from_str("int32"),
            DataType::String => String::from_str("string"),
            DataType::Bool => String::from_str("bool"),
            DataType::Decimal => String::from_str("int256"),
            DataType::Custom { name, .. } => name.clone(),
        }
    }

    fn emit_postcondition(&self, expression: &str, schema: &Schema) -> (r: String) {
        let mut out = String::from_str("// Post-condition: Validated iff (");
        out.append(expression);
        out.append(")");
        out
    }

    fn safe_op(&self, left: &str, op: ArithmeticOperator, right: &str, schema: &Schema) -> (r: String) {
        match op {
            ArithmeticOperator::Add => {
                let mut out = String::from_str(left);
                out.append(".add(");
                out.append(right);
                out.append(")");
                out
            },
            ArithmeticOperator::Subtract => {
                let mut out = String::from_str(left);
                out.append(".sub(");
                out.append(right);
                out.append(")");
                out
            },
            ArithmeticOperator::Multiply => {
                let mut out = String::from_str(left);
                out.append(".mul(");
                out.append(right);
                out.append(")");
                out
            },
            ArithmeticOperator::Divide => {
                let mut out = String::from_str(left);
                out.append("/");
                out.append(right);
                out
            },
        }
    }

    fn format_field(&self, name: &str, data_type: &DataType) -> (r: String) {
        let ty = self.map_type(data_type);
        let mut out = String::from_str(ty.as_str());
        out.append(" ");
        out.append(name);
        out
    }

    fn field_separator(&self) -> (r: &'static str) {
        ", "
    }

    fn wrap_signature(&self, func_name: &str, fields: &str, empty: bool) -> (r: String) {
        let params = if empty {
            let out = String::new();
            out
        } else {
            let mut out = String::from_str(" (");
            out.append(fields);
            out.append(")");
            out
        };
        let mut out = String::from_str("function ");
        out.append(func_name);
        out.append(params.as_str());
        out
    }

    fn fn_end(&self) -> (r: String) {
        let out = String::from_str("}");
        out
    }

    fn license_header(&self, traceability_id: &str) -> (r: String) {
        let mut out = String::from_str("// SPDX-License-Identifier: MIT\n// Solidity Code from Crucible - Smart Contract Verification (v0.1.5-alpha)\n// Use with Slither for security analysis, Echidna for property testing\n// Patent Application: 63/928,407\n// Traceability ID: ");
        out.append(traceability_id);
        out.append("\n// Correct by Design, Verified by Construction\n\n");
        out
    }

    fn compose_artifact(
        &self,
        header: &str,
        signature: &str,
        contracts: &str,
        postcondition: &str,
        assertions: &str,
        logic: &str,
        end: &str,
    ) -> (r: String) {
        let mut out = String::from_str(header);
        out.append("\ncontract Validator { \n    ");
        out.append(signature);
        out.append("\n    ");
        out.append(postcondition);
        out.append("\n    ");
        out.append(assertions);
        out.append("\n        return ");
        out.append(logic);
        out.append("\n    }\n}");
        out
    }
}

/// Ada-style: `Params.X` in Ada casing, short-circuit connectives and native contracts.
#[derive(Debug, Clone, Copy, PartialEq, Eq)]
pub struct SparkAdaStrategy;

impl CodegenStrategy for SparkAdaStrategy {
    open spec fn op_text(&self, op: ConstraintOperator) -> Seq<char> {
        match op {
            ConstraintOperator::GreaterThanOrEqual => ">="@,
            ConstraintOperator::LessThanOrEqual => "<="@,
            ConstraintOperator::GreaterThan => ">"@,
            ConstraintOperator::LessThan => "<"@,
            ConstraintOperator::Equal => "="@,
            ConstraintOperator::NotEqual => "/="@,
        }
    }

    open spec fn var_text(&self, name: Seq<char>) -> Seq<char> {
        "Params."@ + ada_case(name)
    }

    open spec fn and_text(&self) -> Seq<char> {
        "and then"@
    }

    open spec fn or_text(&self) -> Seq<char> {
        "or else"@
    }

    open spec fn not_text(&self, e: Seq<char>) -> Seq<char> {
        "not ("@ + e + ")"@
    }

    open spec fn assertion_text(&self, e: Seq<char>) -> Seq<char> {
        "pragma Assert ("@ + e + ");"@
    }

    open spec fn function_text(
        &self,
        func: Seq<char>,
        contracts: Seq<char>,
        body: Seq<char>,
        assertions: Seq<char>,
    ) -> Seq<char> {
        let ablock = if assertions.len() == 0 {
            Seq::<char>::empty()
        } else {
            "-- Runtime assertion checks\n   "@ + assertions
        };
        let cblock = if contracts.len() == 0 {
            Seq::<char>::empty()
        } else {
            contracts
        };
        "-- SPARK/Ada Code from Crucible - Formally Verifiable\n-- Use GNATprove for mathematical verification: `gnatprove -P<project> --level=4`\n\nfunction "@ + func + " (Params : Validation_Params) return Boolean\n   with SPARK_Mode => On"@ + cblock + "\nis\n begin\n"@ + ablock + "   return "@ + body + ";\n end "@ + func + ";"@
    }

    open spec fn type_text(&self, dt: DataType) -> Seq<char> {
        match dt {
            DataType::Uint64 => "Natural"@,
            DataType::Uint32 => "Natural"@,
            DataType::Int64 => "Integer"@,
            DataType::Int32 => "Integer"@,
            DataType::String => "String"@,
            DataType::Bool => "Boolean"@,
            DataType::Decimal => "Long_Float"@,
            DataType::Custom { name, .. } => name@,
        }
    }

    open spec fn postcondition_text(&self, e: Seq<char>) -> Seq<char> {
        "Post => (validate_intent'Result = ("@ + e + "))"@
    }

    open spec fn safe_op_text(&self, l: Seq<char>, op: ArithmeticOperator, r: Seq<char>) -> Seq<char> {
        match op {
            ArithmeticOperator::Add => l + " >= "@ + r,
            ArithmeticOperator::Subtract => l + " >= "@ + r,
            ArithmeticOperator::Multiply => l + " >= "@ + r,
            ArithmeticOperator::Divide => l + " >= "@ + r,
        }
    }

    open spec fn field_text(&self, name: Seq<char>, dt: DataType) -> Seq<char> {
        ada_case(name) + " : "@ + self.type_text(dt)
    }

    open spec fn field_sep(&self) -> Seq<char> {
        "; "@
    }

    open spec fn signature_text(&self, func: Seq<char>, fields: Seq<char>, empty: bool) -> Seq<char> {
        let params = if empty {
            Seq::<char>::empty()
        } else {
            " ("@ + fields + ")"@
        };
        "function "@ + func + params + " return Boolean"@
    }

    open spec fn end_text(&self) -> Seq<char> {
        ";"@
    }

    open spec fn header_text(&self, id: Seq<char>) -> Seq<char> {
        "-- SPARK/Ada Code from Crucible - Formally Verifiable (v0.1.5-alpha)\n-- Use GNATprove for mathematical verification: `gnatprove -P<project> --level=4`\n-- Patent Application: 63/928,407\n-- Traceability ID: "@ + id + "\n-- Correct by Design, Verified by Construction\n"@
    }

    open spec fn header_lead(&self) -> Seq<char> {
        "-- SPARK/Ada Code from Crucible - Formally Verifiable (v0.1.5-alpha)\n-- Use GNATprove for mathematical verification: `gnatprove -P<project> --level=4`\n-- Patent Application: 63/928,407\n-- Traceability ID: "@
    }

    open spec fn artifact_text(
        &self,
        header: Seq<char>,
        signature: Seq<char>,
        contracts: Seq<char>,
        postcondition: Seq<char>,
        assertions: Seq<char>,
        logic: Seq<char>,
        end: Seq<char>,
    ) -> Seq<char> {
        header + signature + "\n   with "@ + contracts + "\n"@ + postcondition + "\nis\nbegin\n    "@ + assertions + "\n    return "@ + logic + "\n"@ + end
    }

    proof fn lemma_header_shape(&self, id: Seq<char>) {
        let h = self.header_text(id);
        let k = self.header_lead().len() as int;
        assert(h.subrange(k, k + id.len()) =~= id);
    }

    proof fn lemma_artifact_shape(
        &self,
        header: Seq<char>,
        signature: Seq<char>,
        contracts: Seq<char>,
        postcondition: Seq<char>,
        assertions: Seq<char>,
        logic: Seq<char>,
        end: Seq<char>,
    ) {
        let a = self.artifact_text(header, signature, contracts, postcondition, assertions, logic, end);
        assert(a.subrange(0, header.len() as int) =~= header);
    }

    fn format_operator(&self, op: &ConstraintOperator) -> (r: &'static str) {
        match op {
            ConstraintOperator::GreaterThanOrEqual => ">=",
            ConstraintOperator::LessThanOrEqual => "<=",
            ConstraintOperator::GreaterThan => ">",
            ConstraintOperator::LessThan => "<",
            ConstraintOperator::Equal => "=",
            ConstraintOperator::NotEqual => "/=",
        }
    }

    fn format_variable(&self, name: &str) -> (r: String) {
        let ada = to_ada_case(name);
        let mut out = String::from_str("Params.");
        out.append(ada.as_str());
        out
    }

    fn logical_and(&self) -> (r: &'static str) {
        "and then"
    }

    fn logical_or(&self) -> (r: &'static str) {
        "or else"
    }

    fn logical_not(&self, expr: &str) -> (r: String) {
        let mut out = String::from_str("not (");
        out.append(expr);
        out.append(")");
        out
    }

    fn wrap_assertion(&self, condition: &str) -> (r: String) {
        let mut out = String::from_str("pragma Assert (");
        out.append(condition);
        out.append(");");
        out
    }

    fn wrap_verified_function(
        &self,
        func_name: &str,
        contracts: &str,
        body: &str,
        assertions: &str,
    ) -> (r: String) {
        let ablock = if assertions.unicode_len() == 0 {
            let out = String::new();
            out
        } else {
            let mut out = String::from_str("-- Runtime assertion checks\n   ");
            out.append(assertions);
            out
        };
        let cblock = if contracts.unicode_len() == 0 {
            let out = String::new();
            out
        } else {
            let out = String::from_str(contracts);
            out
        };
        let mut out = String::from_str("-- SPARK/Ada Code from Crucible - Formally Verifiable\n-- Use GNATprove for mathematical verification: `gnatprove -P<project> --level=4`\n\nfunction ");
        out.append(func_name);
        out.append(" (Params : Validation_Params) return Boolean\n   with SPARK_Mode => On");
        out.append(cblock.as_str());
        out.append("\nis\n begin\n");
        out.append(ablock.as_str());
        out.append("   return ");
        out.append(body);
        out.append(";\n end ");
        out.append(func_name);
        out.append(";");
        out
    }

    fn map_type(&self, data_type: &DataType) -> (r: String) {
        match data_type {
            DataType::Uint64 => String::from_str("Natural"),
            DataType::Uint32 => String::from_str("Natural"),
            DataType::Int64 => String::from_str("Integer"),
            DataType::Int32 => String::from_str("Integer"),
            DataType::String => String::from_str("String"),
            DataType::Bool => String::from_str("Boolean"),
            DataType::Decimal => String::from_str("Long_Float"),
            DataType::Custom { name, .. } => name.clone(),
        }
    }

    fn emit_postcondition(&self, expression: &str, schema: &Schema) -> (r: String) {
        let mut out = String::from_str("Post => (validate_intent'Result = (");
        out.append(expression);
        out.append("))");
        out
    }

    fn safe_op(&self, left: &str, op: ArithmeticOperator, right: &str, schema: &Schema) -> (r: String) {
        match op {
            ArithmeticOperator::Add => {
                let mut out = String::from_str(left);
                out.append(" >= ");
                out.append(right);
                out
            },
            ArithmeticOperator::Subtract => {
                let mut out = String::from_str(left);
                out.append(" >= ");
                out.append(right);
                out
            },
            ArithmeticOperator::Multiply => {
                let mut out = String::from_str(left);
                out.append(" >= ");
                out.append(right);
                out
            },
            ArithmeticOperator::Divide => {
                let mut out = String::from_str(left);
                out.append(" >= ");
                out.append(right);
                out
            },
        }
    }

    fn format_field(&self, name: &str, data_type: &DataType) -> (r: String) {
        let ada = to_ada_case(name);
        let ty = self.map_type(data_type);
        let mut out = String::from_str(ada.as_str());
        out.append(" : ");
        out.append(ty.as_str());
        out
    }

    fn field_separator(&self) -> (r: &'static str) {
        "; "
    }

    fn wrap_signature(&self, func_name: &str, fields: &str, empty: bool) -> (r: String) {
        let params = if empty {
            let out = String::new();
            out
        } else {
            let mut out = String::from_str(" (");
            out.append(fields);
            out.append(")");
            out
        };
        let mut out = String::from_str("function ");
        out.append(func_name);
        out.append(params.as_str());
        out.append(" return Boolean");
        out
    }

    fn fn_end(&self) -> (r: String) {
        let out = String::from_str(";");
        out
    }

    fn license_header(&self, traceability_id: &str) -> (r: String) {
        let mut out = String::from_str("-- SPARK/Ada Code from Crucible - Formally Verifiable (v0.1.5-alpha)\n-- Use GNATprove for mathematical verification: `gnatprove -P<project> --level=4`\n-- Patent Application: 63/928,407\n-- Traceability ID: ");
        out.append(traceability_id);
        out.append("\n-- Correct by Design, Verified by Construction\n");
        out
    }

    fn compose_artifact(
        &self,
        header: &str,
        signature: &str,
        contracts: &str,
        postcondition: &str,
        assertions: &str,
        logic: &str,
        end: &str,
    ) -> (r: String) {
        let mut out = String::from_str(header);
        out.append(signature);
        out.append("\n   with ");
        out.append(contracts);
        out.append("\n");
        out.append(postcondition);
        out.append("\nis\nbegin\n    ");
        out.append(assertions);
        out.append("\n    return ");
        out.append(logic);
        out.append("\n");
        out.append(end);
        out
    }
}

/// Zig-style: word connectives, assertions in a compile-time block and a test stub.
#[derive(Debug, Clone, Copy, PartialEq, Eq)]
pub struct ZigStrategy;

impl CodegenStrategy for ZigStrategy {
    open spec fn op_text(&self, op: ConstraintOperator) -> Seq<char> {
        match op {
            ConstraintOperator::GreaterThanOrEqual => ">="@,
            ConstraintOperator::LessThanOrEqual => "<="@,
            ConstraintOperator::GreaterThan => ">"@,
            ConstraintOperator::LessThan => "<"@,
            ConstraintOperator::Equal => "=="@,
            ConstraintOperator::NotEqual => "!="@,
        }
    }

    open spec fn var_text(&self, name: Seq<char>) -> Seq<char> {
        "params."@ + name
    }

    open spec fn and_text(&self) -> Seq<char> {
        "and"@
    }

    open spec fn or_text(&self) -> Seq<char> {
        "or"@
    }

    open spec fn not_text(&self, e: Seq<char>) -> Seq<char> {
        "!"@ + "("@ + e + ")"@
    }

    open spec fn assertion_text(&self, e: Seq<char>) -> Seq<char> {
        "std.debug.assert("@ + e + ");"@
    }

    open spec fn function_text(
        &self,
        func: Seq<char>,
        contracts: Seq<char>,
        body: Seq<char>,
        assertions: Seq<char>,
    ) -> Seq<char> {
        let ablock = if assertions.len() == 0 {
            Seq::<char>::empty()
        } else {
            "    // Runtime assertion checks\n    "@ + assertions + "\n"@
        };
        let cblock = if contracts.len() == 0 {
            Seq::<char>::empty()
        } else {
            "    comptime {\n        // Compile-time contract validation\n        "@ + contracts + "\n    }\n"@
        };
        "// Zig Code from Crucible - Memory Safe Systems Programming\n// Compile-time and runtime verification\n\nconst std = @import(\"std\");\n\npub const ValidationParams = struct {\n    // Define your validation parameters here\n};\n\npub fn "@ + func + "(params: ValidationParams) bool {\n"@ + cblock + ablock + "    return "@ + body + ";\n}\n\ntest \""@ + func + "\" {\n    const params = ValidationParams{};\n    const result = "@ + func + "(params);\n    try std.testing.expect(result);\n}"@
    }

    open spec fn type_text(&self, dt: DataType) -> Seq<char> {
        match dt {
            DataType::Uint64 => "u64"@,
            DataType::Uint32 => "u32"@,
            DataType::Int64 => "i64"@,
            DataType::Int32 => "i32"@,
            DataType::String => "[]const u8"@,
            DataType::Bool => "bool"@,
            DataType::Decimal => "f64"@,
            DataType::Custom { name, .. } => name@,
        }
    }

    open spec fn postcondition_text(&self, e: Seq<char>) -> Seq<char> {
        "// Verified Post-condition: "@ + e
    }

    open spec fn safe_op_text(&self, l: Seq<char>, op: ArithmeticOperator, r: Seq<char>) -> Seq<char> {
        match op {
            ArithmeticOperator::Add => "@addWithOverflow("@ + l + ", "@ + r + ").*[0]"@,
            ArithmeticOperator::Subtract => "@subWithOverflow("@ + l + ", "@ + r + ").*[0]"@,
            ArithmeticOperator::Multiply => "@mulWithOverflow("@ + l + ", "@ + r + ").*[0]"@,
            ArithmeticOperator::Divide => l + "/"@ + r,
        }
    }

    open spec fn field_text(&self, name: Seq<char>, dt: DataType) -> Seq<char> {
        name + ": "@ + self.type_text(dt)
    }

    open spec fn field_sep(&self) -> Seq<char> {
        ", "@
    }

    open spec fn signature_text(&self, func: Seq<char>, fields: Seq<char>, empty: bool) -> Seq<char> {
        let params = if empty {
            "{}"@
        } else {
            "{ "@ + fields + " }"@
        };
        "pub fn "@ + func + "(params: "@ + params + ")"@
    }

    open spec fn end_text(&self) -> Seq<char> {
        "}"@
    }

    open spec fn header_text(&self, id: Seq<char>) -> Seq<char> {
        "// Zig Code from Crucible - Memory Safe Systems Programming (v0.1.5-alpha)\n// Compile-time verification via comptime blocks\n// Patent Application: 63/928,407\n// Traceability ID: "@ + id + "\n// Correct by Design, Verified by Construction\n"@
    }

    open spec fn header_lead(&self) -> Seq<char> {
        "// Zig Code from Crucible - Memory Safe Systems Programming (v0.1.5-alpha)\n// Compile-time verification via comptime blocks\n// Patent Application: 63/928,407\n// Traceability ID: "@
    }

    open spec fn artifact_text(
        &self,
        header: Seq<char>,
        signature: Seq<char>,
        contracts: Seq<char>,
        postcondition: Seq<char>,
        assertions: Seq<char>,
        logic: Seq<char>,
        end: Seq<char>,
    ) -> Seq<char> {
        header + signature + "\n"@ + postcondition + "\n    "@ + assertions + "\n    return "@ + logic + "\n"@ + end
    }

    proof fn lemma_header_shape(&self, id: Seq<char>) {
        let h = self.header_text(id);
        let k = self.header_lead().len() as int;
        assert(h.subrange(k, k + id.len()) =~= id);
    }

    proof fn lemma_artifact_shape(
        &self,
        header: Seq<char>,
        signature: Seq<char>,
        contracts: Seq<char>,
        postcondition: Seq<char>,
        assertions: Seq<char>,
        logic: Seq<char>,
        end: Seq<char>,
    ) {
        let a = self.artifact_text(header, signature, contracts, postcondition, assertions, logic, end);
        assert(a.subrange(0, header.len() as int) =~= header);
    }

    fn format_operator(&self, op: &ConstraintOperator) -> (r: &'static str) {
        match op {
            ConstraintOperator::GreaterThanOrEqual => ">=",
            ConstraintOperator::LessThanOrEqual => "<=",
            ConstraintOperator::GreaterThan => ">",
            ConstraintOperator::LessThan => "<",
            ConstraintOperator::Equal => "==",
            ConstraintOperator::NotEqual => "!=",
        }
    }

    fn format_variable(&self, name: &str) -> (r: String) {
        let mut out = String::from_str("params.");
        out.append(name);
        out
    }

    fn logical_and(&self) -> (r: &'static str) {
        "and"
    }

    fn logical_or(&self) -> (r: &'static str) {
        "or"
    }

    fn logical_not(&self, expr: &str) -> (r: String) {
        let mut out = String::from_str("!");
        out.append("(");
        out.append(expr);
        out.append(")");
        out
    }

    fn wrap_assertion(&self, condition: &str) -> (r: String) {
        let mut out = String::from_str("std.debug.assert(");
        out.append(condition);
        out.append(");");
        out
    }

    fn wrap_verified_function(
        &self,
        func_name: &str,
        contracts: &str,
        body: &str,
        assertions: &str,
    ) -> (r: String) {
        let ablock = if assertions.unicode_len() == 0 {
            let out = String::new();
            out
        } else {
            let mut out = String::from_str("    // Runtime assertion checks\n    ");
            out.append(assertions);
            out.append("\n");
            out
        };
        let cblock = if contracts.unicode_len() == 0 {
            let out = String::new();
            out
        } else {
            let mut out = String::from_str("    comptime {\n        // Compile-time contract validation\n        ");
            out.append(contracts);
            out.append("\n    }\n");
            out
        };
        let mut out = String::from_str("// Zig Code from Crucible - Memory Safe Systems Programming\n// Compile-time and runtime verification\n\nconst std = @import(\"std\");\n\npub const ValidationParams = struct {\n    // Define your validation parameters here\n};\n\npub fn ");
        out.append(func_name);
        out.append("(params: ValidationParams) bool {\n");
        out.append(cblock.as_str());
        out.append(ablock.as_str());
        out.append("    return ");
        out.append(body);
        out.append(";\n}\n\ntest \"");
        out.append(func_name);
        out.append("\" {\n    const params = ValidationParams{};\n    const result = ");
        out.append(func_name);
        out.append("(params);\n    try std.testing.expect(result);\n}");
        out
    }

    fn map_type(&self, data_type: &DataType) -> (r: String) {
        match data_type {
            DataType::Uint64 => String::from_str("u64"),
            DataType::Uint32 => String::from_str("u32"),
            DataType::Int64 => String::from_str("i64"),
            DataType::Int32 => String::from_str("i32"),
            DataType::String => String::from_str("[]const u8"),
            DataType::Bool => String::from_str("bool"),
            DataType::Decimal => String::from_str("f64"),
            DataType::Custom { name, .. } => name.clone(),
        }
    }

    fn emit_postcondition(&self, expression: &str, schema: &Schema) -> (r: String) {
        let mut out = String::from_str("// Verified Post-condition: ");
        out.append(expression);
        out
    }

    fn safe_op(&self, left: &str, op: ArithmeticOperator, right: &str, schema: &Schema) -> (r: String) {
        match op {
            ArithmeticOperator::Add => {
                let mut out = String::from_str("@addWithOverflow(");
                out.append(left);
                out.append(", ");
                out.append(right);
                out.append(").*[0]");
                out
            },
            ArithmeticOperator::Subtract => {
                let mut out = String::from_str("@subWithOverflow(");
                out.append(left);
                out.append(", ");
                out.append(right);
                out.append(").*[0]");
                out
            },
            ArithmeticOperator::Multiply => {
                let mut out = String::from_str("@mulWithOverflow(");
                out.append(left);
                out.append(", ");
                out.append(right);
                out.append(").*[0]");
                out
            },
            ArithmeticOperator::Divide => {
                let mut out = String::from_str(left);
                out.append("/");
                out.append(right);
                out
            },
        }
    }

    fn format_field(&self, name: &str, data_type: &DataType) -> (r: String) {
        let ty = self.map_type(data_type);
        let mut out = String::from_str(name);
        out.append(": ");
        out.append(ty.as_str());
        out
    }

    fn field_separator(&self) -> (r: &'static str) {
        ", "
    }

    fn wrap_signature(&self, func_name: &str, fields: &str, empty: bool) -> (r: String) {
        let params = if empty {
            let out = String::from_str("{}");
            out
        } else {
            let mut out = String::from_str("{ ");
            out.append(fields);
            out.append(" }");
            out
        };
        let mut out = String::from_str("pub fn ");
        out.append(func_name);
        out.append("(params: ");
        out.append(params.as_str());
        out.append(")");
        out
    }

    fn fn_end(&self) -> (r: String) {
        let out = String::from_str("}");
        out
    }

    fn license_header(&self, traceability_id: &str) -> (r: String) {
        let mut out = String::from_str("// Zig Code from Crucible - Memory Safe Systems Programming (v0.1.5-alpha)\n// Compile-time verification via comptime blocks\n// Patent Application: 63/928,407\n// Traceability ID: ");
        out.append(traceability_id);
        out.append("\n// Correct by Design, Verified by Construction\n");
        out
    }

    fn compose_artifact(
        &self,
        header: &str,
        signature: &str,
        contracts: &str,
        postcondition: &str,
        assertions: &str,
        logic: &str,
        end: &str,
    ) -> (r: String) {
        let mut out = String::from_str(header);
        out.append(signature);
        out.append("\n");
        out.append(postcondition);
        out.append("\n    ");
        out.append(assertions);
        out.append("\n    return ");
        out.append(logic);
        out.append("\n");
        out.append(end);
        out
    }
}

/// Elixir-style: `params[:x]`, word connectives and guard clauses with fall-through errors.
#[derive(Debug, Clone, Copy, PartialEq, Eq)]
pub struct ElixirStrategy;

impl CodegenStrategy for ElixirStrategy {
    open spec fn op_text(&self, op: ConstraintOperator) -> Seq<char> {
        match op {
            ConstraintOperator::GreaterThanOrEqual => ">="@,
            ConstraintOperator::LessThanOrEqual => "<="@,
            ConstraintOperator::GreaterThan => ">"@,
            ConstraintOperator::LessThan => "<"@,
            ConstraintOperator::Equal => "=="@,
            ConstraintOperator::NotEqual => "!="@,
        }
    }

    open spec fn var_text(&self, name: Seq<char>) -> Seq<char> {
        "params[:"@ + name + "]"@
    }

    open spec fn and_text(&self) -> Seq<char> {
        "and"@
    }

    open spec fn or_text(&self) -> Seq<char> {
        "or"@
    }

    open spec fn not_text(&self, e: Seq<char>) -> Seq<char> {
        "not ("@ + e + ")"@
    }

    open spec fn assertion_text(&self, e: Seq<char>) -> Seq<char> {
        "assert "@ + e
    }

    open spec fn function_text(
        &self,
        func: Seq<char>,
        contracts: Seq<char>,
        body: Seq<char>,
        assertions: Seq<char>,
    ) -> Seq<char> {
        let ablock = if assertions.len() == 0 {
            Seq::<char>::empty()
        } else {
            "    # Assertion checks\n    "@ + assertions + "\n"@
        };
        let cblock = if contracts.len() == 0 {
            Seq::<char>::empty()
        } else {
            contracts
        };
        "# Elixir Code from Crucible - Fault-Tolerant Distributed Logic\n# Guard clauses for compile-time pattern matching\n\ndefmodule Validator do\n  @moduledoc \"\"\"\n  Validation module derived from a Crucible intent specification.\n  \"\"\"\n\n  @doc \"\"\"\n  Validates the given parameters against the intent constraints.\n  Returns {:ok, true} on success, {:error, reason} on failure.\n  \"\"\"\n  @spec "@ + func + "?(map()) :: {:ok, true} | {:error, atom()}\n"@ + cblock + "\n\n  def "@ + func + "?(params) when is_map(params) and is_integer(params[:amount]) and params[:amount] >= 0 do\n"@ + ablock + "    "@ + body + "\n  end\n\n  def "@ + func + "?(params) when not is_map(params), do: {:error, :invalid_type}\n  def "@ + func + "?(params) when not is_integer(params[:amount]), do: {:error, :invalid_amount_type}\n  def "@ + func + "?(params) when params[:amount] < 0, do: {:error, :negative_amount}\n  def "@ + func + "?(_), do: {:error, :validation_failed}\nend"@
    }

    open spec fn type_text(&self, dt: DataType) -> Seq<char> {
        match dt {
            DataType::Uint64 => "integer()"@,
            DataType::Uint32 => "integer()"@,
            DataType::Int64 => "integer()"@,
            DataType::Int32 => "integer()"@,
            DataType::String => "String.t()"@,
            DataType::Bool => "boolean()"@,
            DataType::Decimal => "Decimal.t()"@,
            DataType::Custom { name, .. } => name@,
        }
    }

    open spec fn postcondition_text(&self, e: Seq<char>) -> Seq<char> {
        "# Post-condition: Returns true iff ("@ + e + ")"@
    }

    open spec fn safe_op_text(&self, l: Seq<char>, op: ArithmeticOperator, r: Seq<char>) -> Seq<char> {
        match op {
            ArithmeticOperator::Add => l + "_+_plus_"@ + r,
            ArithmeticOperator::Subtract => l + "_-_minus_"@ + r,
            ArithmeticOperator::Multiply => l + "_*_times_"@ + r,
            ArithmeticOperator::Divide => l + "/"@ + r,
        }
    }

    open spec fn field_text(&self, name: Seq<char>, dt: DataType) -> Seq<char> {
        name + ": "@ + self.type_text(dt)
    }

    open spec fn field_sep(&self) -> Seq<char> {
        ", "@
    }

    open spec fn signature_text(&self, func: Seq<char>, fields: Seq<char>, empty: bool) -> Seq<char> {
        let params = if empty {
            Seq::<char>::empty()
        } else {
            fields
        };
        "@spec "@ + func + "_params() :: map()\n  def "@ + func + "_params(), do: %{"@ + params + "}"@
    }

    open spec fn end_text(&self) -> Seq<char> {
        "end"@
    }

    open spec fn header_text(&self, id: Seq<char>) -> Seq<char> {
        "# Elixir Code from Crucible - Fault-Tolerant Distributed Logic (v0.1.5-alpha)\n# Patent Application: 63/928,407\n# Traceability ID: "@ + id + "\n# Correct by Design, Verified by Construction\n\n"@
    }

    open spec fn header_lead(&self) -> Seq<char> {
        "# Elixir Code from Crucible - Fault-Tolerant Distributed Logic (v0.1.5-alpha)\n# Patent Application: 63/928,407\n# Traceability ID: "@
    }

    open spec fn artifact_text(
        &self,
        header: Seq<char>,
        signature: Seq<char>,
        contracts: Seq<char>,
        postcondition: Seq<char>,
        assertions: Seq<char>,
        logic: Seq<char>,
        end: Seq<char>,
    ) -> Seq<char> {
        header + signature + "\n\ndefmodule Validator do\n    "@ + postcondition + "\n    def validate_intent?(params) do\n        "@ + assertions + "\n        "@ + logic + "\n        "@ + end + "\n    end\nend"@
    }

    proof fn lemma_header_shape(&self, id: Seq<char>) {
        let h = self.header_text(id);
        let k = self.header_lead().len() as int;
        assert(h.subrange(k, k + id.len()) =~= id);
    }

    proof fn lemma_artifact_shape(
        &self,
        header: Seq<char>,
        signature: Seq<char>,
        contracts: Seq<char>,
        postcondition: Seq<char>,
        assertions: Seq<char>,
        logic: Seq<char>,
        end: Seq<char>,
    ) {
        let a = self.artifact_text(header, signature, contracts, postcondition, assertions, logic, end);
        assert(a.subrange(0, header.len() as int) =~= header);
    }

    fn format_operator(&self, op: &ConstraintOperator) -> (r: &'static str) {
        match op {
            ConstraintOperator::GreaterThanOrEqual => ">=",
            ConstraintOperator::LessThanOrEqual => "<=",
            ConstraintOperator::GreaterThan => ">",
            ConstraintOperator::LessThan => "<",
            ConstraintOperator::Equal => "==",
            ConstraintOperator::NotEqual => "!=",
        }
    }

    fn format_variable(&self, name: &str) -> (r: String) {
        let mut out = String::from_str("params[:");
        out.append(name);
        out.append("]");
        out
    }

    fn logical_and(&self) -> (r: &'static str) {
        "and"
    }

    fn logical_or(&self) -> (r: &'static str) {
        "or"
    }

    fn logical_not(&self, expr: &str) -> (r: String) {
        let mut out = String::from_str("not (");
        out.append(expr);
        out.append(")");
        out
    }

    fn wrap_assertion(&self, condition: &str) -> (r: String) {
        let mut out = String::from_str("assert ");
        out.append(condition);
        out
    }

    fn wrap_verified_function(
        &self,
        func_name: &str,
        contracts: &str,
        body: &str,
        assertions: &str,
    ) -> (r: String) {
        let ablock = if assertions.unicode_len() == 0 {
            let out = String::new();
            out
        } else {
            let mut out = String::from_str("    # Assertion checks\n    ");
            out.append(assertions);
            out.append("\n");
            out
        };
        let cblock = if contracts.unicode_len() == 0 {
            let out = String::new();
            out
        } else {
            let out = String::from_str(contracts);
            out
        };
        let mut out = String::from_str("# Elixir Code from Crucible - Fault-Tolerant Distributed Logic\n# Guard clauses for compile-time pattern matching\n\ndefmodule Validator do\n  @moduledoc \"\"\"\n  Validation module derived from a Crucible intent specification.\n  \"\"\"\n\n  @doc \"\"\"\n  Validates the given parameters against the intent constraints.\n  Returns {:ok, true} on success, {:error, reason} on failure.\n  \"\"\"\n  @spec ");
        out.append(func_name);
        out.append("?(map()) :: {:ok, true} | {:error, atom()}\n");
        out.append(cblock.as_str());
        out.append("\n\n  def ");
        out.append(func_name);
        out.append("?(params) when is_map(params) and is_integer(params[:amount]) and params[:amount] >= 0 do\n");
        out.append(ablock.as_str());
        out.append("    ");
        out.append(body);
        out.append("\n  end\n\n  def ");
        out.append(func_name);
        out.append("?(params) when not is_map(params), do: {:error, :invalid_type}\n  def ");
        out.append(func_name);
        out.append("?(params) when not is_integer(params[:amount]), do: {:error, :invalid_amount_type}\n  def ");
        out.append(func_name);
        out.append("?(params) when params[:amount] < 0, do: {:error, :negative_amount}\n  def ");
        out.append(func_name);
        out.append("?(_), do: {:error, :validation_failed}\nend");
        out
    }

    fn map_type(&self, data_type: &DataType) -> (r: String) {
        match data_type {
            DataType::Uint64 => String::from_str("integer()"),
            DataType::Uint32 => String::from_str("integer()"),
            DataType::Int64 => String::from_str("integer()"),
            DataType::Int32 => String::from_str("integer()"),
            DataType::String => String::from_str("String.t()"),
            DataType::Bool => String::from_str("boolean()"),
            DataType::Decimal => String::from_str("Decimal.t()"),
            DataType::Custom { name, .. } => name.clone(),
        }
    }

    fn emit_postcondition(&self, expression: &str, schema: &Schema) -> (r: String) {
        let mut out = String::from_str("# Post-condition: Returns true iff (");
        out.append(expression);
        out.append(")");
        out
    }

    fn safe_op(&self, left: &str, op: ArithmeticOperator, right: &str, schema: &Schema) -> (r: String) {
        match op {
            ArithmeticOperator::Add => {
                let mut out = String::from_str(left);
                out.append("_+_plus_");
                out.append(right);
                out
            },
            ArithmeticOperator::Subtract => {
                let mut out = String::from_str(left);
                out.append("_-_minus_");
                out.append(right);
                out
            },
            ArithmeticOperator::Multiply => {
                let mut out = String::from_str(left);
                out.append("_*_times_");
                out.append(right);
                out
            },
            ArithmeticOperator::Divide => {
                let mut out = String::from_str(left);
                out.append("/");
                out.append(right);
                out
            },
        }
    }

    fn format_field(&self, name: &str, data_type: &DataType) -> (r: String) {
        let ty = self.map_type(data_type);
        let mut out = String::from_str(name);
        out.append(": ");
        out.append(ty.as_str());
        out
    }

    fn field_separator(&self) -> (r: &'static str) {
        ", "
    }

    fn wrap_signature(&self, func_name: &str, fields: &str, empty: bool) -> (r: String) {
        let params = if empty {
            let out = String::new();
            out
        } else {
            let out = String::from_str(fields);
            out
        };
        let mut out = String::from_str("@spec ");
        out.append(func_name);
        out.append("_params() :: map()\n  def ");
        out.append(func_name);
        out.append("_params(), do: %{");
        out.append(params.as_str());
        out.append("}");
        out
    }

    fn fn_end(&self) -> (r: String) {
        let out = String::from_str("end");
        out
    }

    fn license_header(&self, traceability_id: &str) -> (r: String) {
        let mut out = String::from_str("# Elixir Code from Crucible - Fault-Tolerant Distributed Logic (v0.1.5-alpha)\n# Patent Application: 63/928,407\n# Traceability ID: ");
        out.append(traceability_id);
        out.append("\n# Correct by Design, Verified by Construction\n\n");
        out
    }

    fn compose_artifact(
        &self,
        header: &str,
        signature: &str,
        contracts: &str,
        postcondition: &str,
        assertions: &str,
        logic: &str,
        end: &str,
    ) -> (r: String) {
        let mut out = String::from_str(header);
        out.append(signature);
        out.append("\n\ndefmodule Validator do\n    ");
        out.append(postcondition);
        out.append("\n    def validate_intent?(params) do\n        ");
        out.append(assertions);
        out.append("\n        ");
        out.append(logic);
        out.append("\n        ");
        out.append(end);
        out.append("\n    end\nend");
        out
    }
}
} // verus!
