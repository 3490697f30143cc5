use crucible::ast::{tree_equals, CompoundConstraint, Constraint as Leaf, ConstraintOperator as Op};
use crucible::parser::{
    parse_action_node, parse_comparison_node, parse_tree, ActionType, ConstraintOperator, CstNode,
    LogicalOperator, ParseErrorKind, ParsedConstraint,
};

fn node(kind: &str, text: &str, children: Vec<CstNode>) -> CstNode {
    CstNode {
        kind: kind.to_string(),
        text: text.to_string(),
        start_byte: 3,
        end_byte: 9,
        line: 1,
        column: 4,
        has_error: false,
        children,
    }
}

fn tok(kind: &str, text: &str) -> CstNode {
    node(kind, text, vec![])
}

fn comparison(l: &str, op: &str, r: &str, right_kind: &str) -> CstNode {
    node(
        "comparison",
        "",
        vec![
            node("left_expression", l, vec![tok("variable", l)]),
            tok("comparison_operator", op),
            node("right_expression", r, vec![tok(right_kind, r)]),
        ],
    )
}

fn action() -> CstNode {
    node(
        "action",
        "withdraw money from account",
        vec![
            tok("verb", "withdraw"),
            tok("object", "money"),
            node(
                "preposition_phrase",
                "from account",
                vec![tok("preposition", "from"), tok("noun_phrase", "account")],
            ),
        ],
    )
}

fn requirement(section: CstNode) -> CstNode {
    node(
        "requirement",
        "",
        vec![tok("subject", "User"), tok("modal_verb", "can"), action(), section],
    )
}

fn root(children: Vec<CstNode>) -> CstNode {
    node("source_file", "", children)
}

fn leaf(l: &str, op: Op, r: &str) -> CompoundConstraint {
    CompoundConstraint::Simple(Leaf { left_variable: l.to_string(), operator: op, right_value: r.to_string() })
}

#[test]
fn simple_requirement_with_condition() {
    let cond = node("condition", "", vec![comparison("balance", " >= ", "amount", "variable")]);
    let ast = parse_tree(&root(vec![requirement(cond)]), "text".to_string()).unwrap();
    assert_eq!(ast.requirements.len(), 1);
    let req = &ast.requirements[0];
    assert_eq!(req.subject, "User");
    assert_eq!(req.modal_verb, "can");
    assert_eq!(req.action.verb, ActionType::Withdraw);
    assert_eq!(req.action.object, "money");
    assert_eq!(req.action.preposition.as_deref(), Some("from"));
    assert_eq!(req.action.target.as_deref(), Some("account"));
    assert!(req.constraint.is_none());
    let cond = req.condition.as_ref().unwrap();
    match cond {
        ParsedConstraint::Atomic(c) => {
            assert_eq!(c.left_variable, "balance");
            assert_eq!(c.operator, ConstraintOperator::GreaterEqual);
            assert_eq!(c.right_value, "amount");
        }
        _ => panic!("expected a comparison"),
    }
    let intent = cond.to_intent().unwrap();
    assert!(tree_equals(&intent, &leaf("balance", Op::GreaterThanOrEqual, "amount")));
    assert_eq!(ast.source_text, "text");
}

#[test]
fn logical_and_becomes_binary_conjunction() {
    let logical = node(
        "logical_expression",
        "",
        vec![
            comparison("balance", ">=", "amount", "variable"),
            tok("and", "and"),
            comparison("amount", ">", "0", "number"),
        ],
    );
    let cons = node("constraint", "", vec![node("constraint_expression", "", vec![logical])]);
    let ast = parse_tree(&root(vec![requirement(cons)]), String::new()).unwrap();
    let parsed = ast.requirements[0].constraint.as_ref().unwrap();
    match parsed {
        ParsedConstraint::Compound { operator, right, .. } => {
            assert_eq!(*operator, LogicalOperator::And);
            assert!(right.is_some());
        }
        _ => panic!("expected a compound"),
    }
    let expected = CompoundConstraint::And(vec![
        leaf("balance", Op::GreaterThanOrEqual, "amount"),
        leaf("amount", Op::GreaterThan, "0"),
    ]);
    assert!(tree_equals(&parsed.to_intent().unwrap(), &expected));
}

#[test]
fn negation_over_nested_expression() {
    let logical = node(
        "logical_expression",
        "",
        vec![tok("not", "not"), node("expression", "", vec![comparison("is_blocked", "==", "1", "number")])],
    );
    let cons = node("condition", "", vec![logical]);
    let ast = parse_tree(&root(vec![requirement(cons)]), String::new()).unwrap();
    let intent = ast.requirements[0].condition.as_ref().unwrap().to_intent().unwrap();
    let expected = CompoundConstraint::Not(Box::new(leaf("is_blocked", Op::Equal, "1")));
    assert!(tree_equals(&intent, &expected));
    assert!(!tree_equals(&intent, &leaf("is_blocked", Op::Equal, "1")));
}

#[test]
fn arithmetic_collapses_to_equality() {
    let arith = node(
        "arithmetic_expression",
        "",
        vec![
            node("left_expression", "", vec![tok("variable", "total")]),
            node("right_expression", "", vec![tok("variable", "price")]),
        ],
    );
    let cons = node("constraint", "", vec![arith]);
    let ast = parse_tree(&root(vec![requirement(cons)]), String::new()).unwrap();
    match ast.requirements[0].constraint.as_ref().unwrap() {
        ParsedConstraint::Atomic(c) => {
            assert_eq!(c.left_variable, "total");
            assert_eq!(c.operator, ConstraintOperator::Equal);
            assert_eq!(c.right_value, "(price)");
        }
        _ => panic!("expected a comparison"),
    }
}

#[test]
fn missing_subject_is_malformed() {
    let req = node("requirement", "", vec![tok("modal_verb", "can"), action()]);
    let err = parse_tree(&root(vec![req]), String::new()).unwrap_err();
    assert_eq!(err.kind, ParseErrorKind::MalformedRequirement);
    assert_eq!((err.start_byte, err.end_byte), (3, 9));
    assert_eq!((err.line, err.column), (1, 4));
}

#[test]
fn missing_modal_verb_is_skipped_and_errors_are_rejected() {
    let req = node("requirement", "", vec![tok("subject", "User"), action()]);
    let ast = parse_tree(&root(vec![req]), String::new()).unwrap();
    assert_eq!(ast.requirements.len(), 0);
    let mut broken = root(vec![]);
    broken.has_error = true;
    assert!(parse_tree(&broken, String::new()).is_err());
}

#[test]
fn set_operators_have_no_algebra_form() {
    let c = parse_comparison_node(&comparison("tags", "contains", "x", "variable")).unwrap().unwrap();
    assert_eq!(c.operator, ConstraintOperator::Contains);
    assert!(ParsedConstraint::Atomic(c).to_intent().is_err());
    assert!(parse_comparison_node(&node("comparison", "", vec![tok("comparison_operator", ">")]))
        .unwrap()
        .is_none());
}

#[test]
fn vocabulary() {
    assert_eq!(ActionType::from_str("deposit"), ActionType::Deposit);
    assert_eq!(ActionType::from_str("fly"), ActionType::Other("fly".to_string()));
    assert_eq!(ActionType::Register.to_text(), "register");
    assert_eq!(ConstraintOperator::from_str("at_least"), Ok(ConstraintOperator::GreaterEqual));
    assert_eq!(ConstraintOperator::from_str("!="), Ok(ConstraintOperator::NotEqual));
    assert_eq!(ConstraintOperator::from_str("??"), Err(ParseErrorKind::UnknownOperatorToken));
}

#[test]
fn unknown_operator_token_is_an_error() {
    let cond = node("condition", "", vec![comparison("balance", "~~", "amount", "variable")]);
    let err = parse_tree(&root(vec![requirement(cond)]), String::new()).unwrap_err();
    assert_eq!(err.kind, ParseErrorKind::UnknownOperatorToken);
}

#[test]
fn last_parts_win() {
    let act = node(
        "action",
        "",
        vec![
            tok("verb", "send"),
            tok("verb", "store"),
            tok("object", "file"),
            tok("object", "record"),
            node("preposition_phrase", "", vec![tok("preposition", "in"), tok("noun_phrase", "vault")]),
            node("preposition_phrase", "", vec![tok("preposition", "to"), tok("noun_phrase", "archive")]),
        ],
    );
    let a = parse_action_node(&act);
    assert_eq!(a.verb, ActionType::Store);
    assert_eq!(a.object, "record");
    assert_eq!(a.preposition.as_deref(), Some("to"));
    assert_eq!(a.target.as_deref(), Some("archive"));
    let bare = parse_action_node(&node("action", "", vec![]));
    assert_eq!(bare.verb, ActionType::Other("unknown".to_string()));
    assert_eq!(bare.object, "");
    assert!(bare.preposition.is_none());
}

#[test]
fn operator_tokens_are_trimmed() {
    let c = parse_comparison_node(&comparison("a", "\t>=\u{a0} ", "b", "variable")).unwrap().unwrap();
    assert_eq!(c.operator, ConstraintOperator::GreaterEqual);
}
