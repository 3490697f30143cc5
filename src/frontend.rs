use vstd::prelude::*;

verus! {

/// Per-operator validators on two 64-bit integers.
#[derive(Debug, Clone, Copy, PartialEq, Eq)]
pub struct ConstraintValidator {}

impl ConstraintValidator {
    /// A validator.
    pub fn new() -> (r: ConstraintValidator) {
        ConstraintValidator {  }
    }

    /// `left_var ≥ right_val`.
    pub fn validate_greater_equal(&self, left_var: i64, right_val: i64) -> (r: bool)
        ensures
            r == (left_var >= right_val),
    {
        left_var >= right_val
    }

    /// `left_var ≤ right_val`.
    pub fn validate_less_equal(&self, left_var: i64, right_val: i64) -> (r: bool)
        ensures
            r == (left_var <= right_val),
    {
        left_var <= right_val
    }

    /// `left_var > right_val`.
    pub fn validate_greater(&self, left_var: i64, right_val: i64) -> (r: bool)
        ensures
            r == (left_var > right_val),
    {
        left_var > right_val
    }

    /// `left_var < right_val`.
    pub fn validate_less(&self, left_var: i64, right_val: i64) -> (r: bool)
        ensures
            r == (left_var < right_val),
    {
        left_var < right_val
    }

    /// `left_var = right_val`.
    pub fn validate_equal(&self, left_var: i64, right_val: i64) -> (r: bool)
        ensures
            r == (left_var == right_val),
    {
        left_var == right_val
    }

    /// `left_var ≠ right_val`.
    pub fn validate_not_equal(&self, left_var: i64, right_val: i64) -> (r: bool)
        ensures
            r == (left_var != right_val),
    {
        left_var != right_val
    }
}

/// Symbol of the operator with index `op` (0 to 5), or `"unknown"`.
pub open spec fn operator_symbol(op: i32) -> Seq<char> {
    if op == 0 {
        ">="@
    } else if op == 1 {
        "<="@
    } else if op == 2 {
        ">"@
    } else if op == 3 {
        "<"@
    } else if op == 4 {
        "=="@
    } else if op == 5 {
        "!="@
    } else {
        "unknown"@
    }
}

/// The symbol of the operator with index `op`; `"unknown"` outside 0 to 5.
pub fn operator_to_string(op: i32) -> (r: String)
    ensures
        r@ == operator_symbol(op),
{
    let s = match op {
        0 => ">=",
        1 => "<=",
        2 => ">",
        3 => "<",
        4 => "==",
        5 => "!=",
        _ => "unknown",
    };
    String::from_str(s)
}

} // verus!
