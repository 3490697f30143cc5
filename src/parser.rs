use vstd::prelude::*;
use crate::text::{str_eq, views};

verus! {

/// Kinds of action a requirement asks for.
#[derive(Debug, Clone, PartialEq, Eq)]
pub enum ActionType {
    Create,
    Read,
    Update,
    Delete,
    Validate,
    Verify,
    Authenticate,
    Authorize,
    Encrypt,
    Decrypt,
    Send,
    Receive,
    Store,
    Retrieve,
    Process,
    Calculate,
    Generate,
    Export,
    Import,
    Withdraw,
    Deposit,
    Transfer,
    Login,
    Logout,
    Register,
    Other(String),
}

/// Whether `s` is the name of one of the known actions.
pub open spec fn known_action(s: Seq<char>) -> bool {
    s == "create"@
        || s == "read"@
        || s == "update"@
        || s == "delete"@
        || s == "validate"@
        || s == "verify"@
        || s == "authenticate"@
        || s == "authorize"@
        || s == "encrypt"@
        || s == "decrypt"@
        || s == "send"@
        || s == "receive"@
        || s == "store"@
        || s == "retrieve"@
        || s == "process"@
        || s == "calculate"@
        || s == "generate"@
        || s == "export"@
        || s == "import"@
        || s == "withdraw"@
        || s == "deposit"@
        || s == "transfer"@
        || s == "login"@
        || s == "logout"@
        || s == "register"@
}

impl ActionType {
    /// Lower-case name of the action (the text itself for `Other`).
    pub open spec fn name(&self) -> Seq<char> {
        match self {
            ActionType::Create => "create"@,
            ActionType::Read => "read"@,
            ActionType::Update => "update"@,
            ActionType::Delete => "delete"@,
            ActionType::Validate => "validate"@,
            ActionType::Verify => "verify"@,
            ActionType::Authenticate => "authenticate"@,
            ActionType::Authorize => "authorize"@,
            ActionType::Encrypt => "encrypt"@,
            ActionType::Decrypt => "decrypt"@,
            ActionType::Send => "send"@,
            ActionType::Receive => "receive"@,
            ActionType::Store => "store"@,
            ActionType::Retrieve => "retrieve"@,
            ActionType::Process => "process"@,
            ActionType::Calculate => "calculate"@,
            ActionType::Generate => "generate"@,
            ActionType::Export => "export"@,
            ActionType::Import => "import"@,
            ActionType::Withdraw => "withdraw"@,
            ActionType::Deposit => "deposit"@,
            ActionType::Transfer => "transfer"@,
            ActionType::Login => "login"@,
            ActionType::Logout => "logout"@,
            ActionType::Register => "register"@,
            ActionType::Other(s) => s@,
        }
    }

    /// The action a verb names.
    pub fn from_str(s: &str) -> (r: ActionType)
        ensures
            r.name() == s@,
            r is Other <==> !known_action(s@),
    {
        if str_eq(s, "create") {
            ActionType::Create
        } else if str_eq(s, "read") {
            ActionType::Read
        } else if str_eq(s, "update") {
            ActionType::Update
        } else if str_eq(s, "delete") {
            ActionType::Delete
        } else if str_eq(s, "validate") {
            ActionType::Validate
        } else if str_eq(s, "verify") {
            ActionType::Verify
        } else if str_eq(s, "authenticate") {
            ActionType::Authenticate
        } else if str_eq(s, "authorize") {
            ActionType::Authorize
        } else if str_eq(s, "encrypt") {
            ActionType::Encrypt
        } else if str_eq(s, "decrypt") {
            ActionType::Decrypt
        } else if str_eq(s, "send") {
            ActionType::Send
        } else if str_eq(s, "receive") {
            ActionType::Receive
        } else if str_eq(s, "store") {
            ActionType::Store
        } else if str_eq(s, "retrieve") {
            ActionType::Retrieve
        } else if str_eq(s, "process") {
            ActionType::Process
        } else if str_eq(s, "calculate") {
            ActionType::Calculate
        } else if str_eq(s, "generate") {
            ActionType::Generate
        } else if str_eq(s, "export") {
            ActionType::Export
        } else if str_eq(s, "import") {
            ActionType::Import
        } else if str_eq(s, "withdraw") {
            ActionType::Withdraw
        } else if str_eq(s, "deposit") {
            ActionType::Deposit
        } else if str_eq(s, "transfer") {
            ActionType::Transfer
        } else if str_eq(s, "login") {
            ActionType::Login
        } else if str_eq(s, "logout") {
            ActionType::Logout
        } else if str_eq(s, "register") {
            ActionType::Register
        } else {
            ActionType::Other(String::from_str(s))
        }
    }

    /// Lower-case name of the action.
    pub fn to_text(&self) -> (r: String)
        ensures
            r@ == self.name(),
    {
        match self {
            ActionType::Create => String::from_str("create"),
            ActionType::Read => String::from_str("read"),
            ActionType::Update => String::from_str("update"),
            ActionType::Delete => String::from_str("delete"),
            ActionType::Validate => String::from_str("validate"),
            ActionType::Verify => String::from_str("verify"),
            ActionType::Authenticate => String::from_str("authenticate"),
            ActionType::Authorize => String::from_str("authorize"),
            ActionType::Encrypt => String::from_str("encrypt"),
            ActionType::Decrypt => String::from_str("decrypt"),
            ActionType::Send => String::from_str("send"),
            ActionType::Receive => String::from_str("receive"),
            ActionType::Store => String::from_str("store"),
            ActionType::Retrieve => String::from_str("retrieve"),
            ActionType::Process => String::from_str("process"),
            ActionType::Calculate => String::from_str("calculate"),
            ActionType::Generate => String::from_str("generate"),
            ActionType::Export => String::from_str("export"),
            ActionType::Import => String::from_str("import"),
            ActionType::Withdraw => String::from_str("withdraw"),
            ActionType::Deposit => String::from_str("deposit"),
            ActionType::Transfer => String::from_str("transfer"),
            ActionType::Login => String::from_str("login"),
            ActionType::Logout => String::from_str("logout"),
            ActionType::Register => String::from_str("register"),
            ActionType::Other(s) => s.clone(),
        }
    }
}

/// Comparison operators of the requirement language.
#[derive(Debug, Clone, Copy, PartialEq, Eq, Structural)]
pub enum ConstraintOperator {
    Equal,
    NotEqual,
    GreaterThan,
    LessThan,
    GreaterEqual,
    LessEqual,
    IsSet,
    IsNotSet,
    Contains,
    DoesNotContain,
}

/// The operator a token names, if it is one of the listed tokens.
pub open spec fn operator_of(s: Seq<char>) -> Option<ConstraintOperator> {
    if s == "=="@ || s == "equals"@ {
        Some(ConstraintOperator::Equal)
    } else if s == "!="@ || s == "not_equals"@ {
        Some(ConstraintOperator::NotEqual)
    } else if s == ">"@ || s == "greater_than"@ {
        Some(ConstraintOperator::GreaterThan)
    } else if s == "<"@ || s == "less_than"@ {
        Some(ConstraintOperator::LessThan)
    } else if s == ">="@ || s == "at_least"@ {
        Some(ConstraintOperator::GreaterEqual)
    } else if s == "<="@ || s == "at_most"@ {
        Some(ConstraintOperator::LessEqual)
    } else if s == "is_set"@ {
        Some(ConstraintOperator::IsSet)
    } else if s == "is_not_set"@ {
        Some(ConstraintOperator::IsNotSet)
    } else if s == "contains"@ {
        Some(ConstraintOperator::Contains)
    } else if s == "does_not_contain"@ {
        Some(ConstraintOperator::DoesNotContain)
    } else {
        None
    }
}

impl ConstraintOperator {
    /// The operator a token names; any other token is an unknown
    /// operator token.
    pub fn from_str(s: &str) -> (r: Result<ConstraintOperator, ParseErrorKind>)
        ensures
            r is Ok <==> operator_of(s@) is Some,
            r matches Ok(op) ==> operator_of(s@) == Some(op),
            r matches Err(k) ==> k == ParseErrorKind::UnknownOperatorToken,
    {
        if str_eq(s, "==") || str_eq(s, "equals") {
            Ok(ConstraintOperator::Equal)
        } else if str_eq(s, "!=") || str_eq(s, "not_equals") {
            Ok(ConstraintOperator::NotEqual)
        } else if str_eq(s, ">") || str_eq(s, "greater_than") {
            Ok(ConstraintOperator::GreaterThan)
        } else if str_eq(s, "<") || str_eq(s, "less_than") {
            Ok(ConstraintOperator::LessThan)
        } else if str_eq(s, ">=") || str_eq(s, "at_least") {
            Ok(ConstraintOperator::GreaterEqual)
        } else if str_eq(s, "<=") || str_eq(s, "at_most") {
            Ok(ConstraintOperator::LessEqual)
        } else if str_eq(s, "is_set") {
            Ok(ConstraintOperator::IsSet)
        } else if str_eq(s, "is_not_set") {
            Ok(ConstraintOperator::IsNotSet)
        } else if str_eq(s, "contains") {
            Ok(ConstraintOperator::Contains)
        } else if str_eq(s, "does_not_contain") {
            Ok(ConstraintOperator::DoesNotContain)
        } else {
            Err(ParseErrorKind::UnknownOperatorToken)
        }
    }
}

/// Whether `c` has the Unicode `White_Space` property (what
/// `char::is_whitespace` tests).
pub open spec fn is_white_space(c: char) -> bool {
    ('\u{9}' <= c && c <= '\u{d}') || c == ' ' || c == '\u{85}' || c == '\u{a0}' || c
        == '\u{1680}' || ('\u{2000}' <= c && c <= '\u{200a}') || c == '\u{2028}' || c
        == '\u{2029}' || c == '\u{202f}' || c == '\u{205f}' || c == '\u{3000}'
}

/// Number of white-space characters at the start of `s`.
pub open spec fn leading_white_space(s: Seq<char>) -> nat
    decreases s.len(),
{
    if s.len() > 0 && is_white_space(s[0]) {
        1 + leading_white_space(s.drop_first())
    } else {
        0
    }
}

/// Number of white-space characters at the end of `s`.
pub open spec fn trailing_white_space(s: Seq<char>) -> nat
    decreases s.len(),
{
    if s.len() > 0 && is_white_space(s.last()) {
        1 + trailing_white_space(s.drop_last())
    } else {
        0
    }
}

/// `s` without its leading and trailing white space.
pub open spec fn trimmed(s: Seq<char>) -> Seq<char> {
    let t = s.subrange(leading_white_space(s) as int, s.len() as int);
    t.subrange(0, t.len() - trailing_white_space(t))
}

/// Relies on `str::trim`: the text without leading and trailing white space
/// (characters with the `White_Space` property).
#[verifier::external_body]
fn trim_text(s: &str) -> (r: String)
    ensures
        r@ == trimmed(s@),
{
    s.trim().to_string()
}

/// A node of a concrete syntax tree: its kind, its source text, where it
/// starts, and its children in order.
#[derive(Debug)]
pub struct CstNode {
    pub kind: String,
    pub text: String,
    pub start_byte: usize,
    pub end_byte: usize,
    pub line: usize,
    pub column: usize,
    pub has_error: bool,
    pub children: Vec<CstNode>,
}

/// Logical connectives of the requirement language.
#[derive(Debug, Clone, Copy, PartialEq, Eq, Structural)]
pub enum LogicalOperator {
    And,
    Or,
    Not,
}

/// A parsed comparison: `left_variable operator right_value`.
#[derive(Debug, Clone, PartialEq, Eq)]
pub struct Constraint {
    pub left_variable: String,
    pub operator: ConstraintOperator,
    pub right_value: String,
}

/// Mathematical value of a parsed comparison.
pub ghost struct ConstraintView {
    pub left: Seq<char>,
    pub op: ConstraintOperator,
    pub right: Seq<char>,
}

impl View for Constraint {
    type V = ConstraintView;

    open spec fn view(&self) -> ConstraintView {
        ConstraintView { left: self.left_variable@, op: self.operator, right: self.right_value@ }
    }
}

/// A parsed condition: one comparison, or a connective over one or two.
#[derive(Debug)]
pub enum ParsedConstraint {
    Atomic(Constraint),
    Compound {
        operator: LogicalOperator,
        left: Box<ParsedConstraint>,
        right: Option<Box<ParsedConstraint>>,
    },
}

/// Mathematical value of a parsed condition.
pub ghost enum ParsedView {
    Atomic(ConstraintView),
    Compound { operator: LogicalOperator, left: ConstraintView, right: Option<ConstraintView> },
}

impl ParsedConstraint {
    /// The value of a condition built from comparisons.
    pub open spec fn shallow(&self) -> Option<ParsedView> {
        match self {
            ParsedConstraint::Atomic(c) => Some(ParsedView::Atomic(c@)),
            ParsedConstraint::Compound { operator, left, right } => match (**left, *right) {
                (ParsedConstraint::Atomic(l), None) => Some(
                    ParsedView::Compound { operator: *operator, left: l@, right: None },
                ),
                (ParsedConstraint::Atomic(l), Some(r)) => match *r {
                    ParsedConstraint::Atomic(rc) => Some(
                        ParsedView::Compound { operator: *operator, left: l@, right: Some(rc@) },
                    ),
                    _ => None,
                },
                _ => None,
            },
        }
    }
}

/// A parsed action: verb, object, and an optional prepositional target.
#[derive(Debug, Clone, PartialEq, Eq)]
pub struct Action {
    pub verb: ActionType,
    pub object: String,
    pub preposition: Option<String>,
    pub target: Option<String>,
}

/// A parsed requirement.
#[derive(Debug)]
pub struct Requirement {
    pub subject: String,
    pub modal_verb: String,
    pub action: Action,
    pub condition: Option<ParsedConstraint>,
    pub constraint: Option<ParsedConstraint>,
}

/// The requirements of a text, with the text.
#[derive(Debug)]
pub struct IntentAst {
    pub requirements: Vec<Requirement>,
    pub source_text: String,
}

/// Kinds of parse failure.
#[derive(Debug, Clone, Copy, PartialEq, Eq, Structural)]
pub enum ParseErrorKind {
    /// The syntax tree holds a syntax error.
    Syntax,
    /// A requirement lacks its subject or its action.
    MalformedRequirement,
    /// A comparison operator token is not one of the known tokens.
    UnknownOperatorToken,
}

/// A parse failure and where it happened.
#[derive(Debug, Clone, PartialEq, Eq)]
pub struct ParseError {
    pub kind: ParseErrorKind,
    pub message: String,
    pub line: usize,
    pub column: usize,
    pub start_byte: usize,
    pub end_byte: usize,
}

/// The views of an optional string.
pub open spec fn opt_view(o: Option<String>) -> Option<Seq<char>> {
    match o {
        Some(s) => Some(s@),
        None => None,
    }
}

/// Index of the first node of `cs` whose kind is among `kinds`.
pub open spec fn first_match(cs: Seq<CstNode>, kinds: Seq<Seq<char>>) -> Option<int>
    decreases cs.len(),
{
    if cs.len() == 0 {
        None
    } else {
        match first_match(cs.drop_last(), kinds) {
            Some(i) => Some(i),
            None => if kinds.contains(cs.last().kind@) {
                Some(cs.len() - 1)
            } else {
                None
            },
        }
    }
}

proof fn lemma_first_match_extends(cs: Seq<CstNode>, kinds: Seq<Seq<char>>, j: int)
    requires
        0 <= j <= cs.len(),
        first_match(cs.subrange(0, j), kinds) is Some,
    ensures
        first_match(cs, kinds) == first_match(cs.subrange(0, j), kinds),
    decreases cs.len() - j,
{
    if j < cs.len() {
        let q = cs.subrange(0, j + 1);
        assert(q.drop_last() == cs.subrange(0, j));
        lemma_first_match_extends(cs, kinds, j + 1);
    } else {
        assert(cs.subrange(0, j) == cs);
    }
}

/// The first child of `n` whose kind is among `kinds`.
pub open spec fn child_of(n: CstNode, kinds: Seq<Seq<char>>) -> Option<CstNode> {
    match first_match(n.children@, kinds) {
        Some(i) => Some(n.children@[i]),
        None => None,
    }
}

/// The text of the first child of `n` whose kind is among `kinds`.
pub open spec fn child_text(n: CstNode, kinds: Seq<Seq<char>>) -> Option<Seq<char>> {
    match child_of(n, kinds) {
        Some(c) => Some(c.text@),
        None => None,
    }
}

/// The last node of `xs` whose kind is among `kinds`.
pub open spec fn last_node(xs: Seq<CstNode>, kinds: Seq<Seq<char>>) -> Option<CstNode>
    decreases xs.len(),
{
    if xs.len() == 0 {
        None
    } else if kinds.contains(xs.last().kind@) {
        Some(xs.last())
    } else {
        last_node(xs.drop_last(), kinds)
    }
}

proof fn lemma_last_node_concat(a: Seq<CstNode>, b: Seq<CstNode>, kinds: Seq<Seq<char>>)
    ensures
        last_node(a + b, kinds) == if last_node(b, kinds) is Some {
            last_node(b, kinds)
        } else {
            last_node(a, kinds)
        },
    decreases b.len(),
{
    if b.len() == 0 {
        assert(a + b == a);
    } else {
        assert((a + b).drop_last() == a + b.drop_last());
        assert((a + b).last() == b.last());
        lemma_last_node_concat(a, b.drop_last(), kinds);
    }
}

/// The grandchildren of `cs` under nodes of kind `outer`, in order.
pub open spec fn nested(cs: Seq<CstNode>, outer: Seq<char>) -> Seq<CstNode>
    decreases cs.len(),
{
    if cs.len() == 0 {
        Seq::empty()
    } else if cs.last().kind@ == outer {
        nested(cs.drop_last(), outer) + cs.last().children@
    } else {
        nested(cs.drop_last(), outer)
    }
}

/// The text of an optional node.
pub open spec fn text_of(o: Option<CstNode>) -> Option<Seq<char>> {
    match o {
        Some(c) => Some(c.text@),
        None => None,
    }
}

/// Text of the last child of `n` whose kind is among `kinds`.
pub open spec fn last_text(n: CstNode, kinds: Seq<Seq<char>>) -> Option<Seq<char>> {
    text_of(last_node(n.children@, kinds))
}

/// Text of the last grandchild among `kinds` under the children of kind
/// `outer`.
pub open spec fn last_nested_text(n: CstNode, outer: Seq<char>, kinds: Seq<Seq<char>>) -> Option<
    Seq<char>,
> {
    text_of(last_node(nested(n.children@, outer), kinds))
}

/// A list holding one kind.
fn kinds1(a: &str) -> (r: Vec<String>)
    ensures
        views(r@) == seq![a@],
{
    let mut v: Vec<String> = Vec::new();
    v.push(String::from_str(a));
    proof {
        assert(views(v@) =~= seq![a@]);
    }
    v
}

/// A list holding two kinds.
fn kinds2(a: &str, b: &str) -> (r: Vec<String>)
    ensures
        views(r@) == seq![a@, b@],
{
    let mut v: Vec<String> = Vec::new();
    v.push(String::from_str(a));
    v.push(String::from_str(b));
    proof {
        assert(views(v@) =~= seq![a@, b@]);
    }
    v
}

/// A list holding three kinds.
fn kinds3(a: &str, b: &str, c: &str) -> (r: Vec<String>)
    ensures
        views(r@) == seq![a@, b@, c@],
{
    let mut v: Vec<String> = Vec::new();
    v.push(String::from_str(a));
    v.push(String::from_str(b));
    v.push(String::from_str(c));
    proof {
        assert(views(v@) =~= seq![a@, b@, c@]);
    }
    v
}

/// Whether the kind of `n` is among `kinds`.
fn kind_in(n: &CstNode, kinds: &Vec<String>) -> (r: bool)
    ensures
        r == views(kinds@).contains(n.kind@),
{
    let ghost ks = views(kinds@);
    let mut j: usize = 0;
    while j < kinds.len()
        invariant
            j <= kinds.len(),
            ks == views(kinds@),
            forall|t: int| 0 <= t < j ==> ks[t] != n.kind@,
        decreases kinds.len() - j,
    {
        if str_eq(kinds[j].as_str(), n.kind.as_str()) {
            proof {
                assert(ks[j as int] == kinds@[j as int]@);
            }
            return true;
        }
        proof {
            assert(ks[j as int] == kinds@[j as int]@);
        }
        j = j + 1;
    }
    false
}

/// Index of the first child of `node` whose kind is among `kinds`.
fn find_child(node: &CstNode, kinds: &Vec<String>) -> (r: Option<usize>)
    ensures
        match r {
            Some(i) => first_match(node.children@, views(kinds@)) == Some(i as int) && i
                < node.children@.len(),
            None => first_match(node.children@, views(kinds@)) is None,
        },
{
    let cs = &node.children;
    let ghost ks = views(kinds@);
    let mut i: usize = 0;
    while i < cs.len()
        invariant
            i <= cs.len(),
            cs@ == node.children@,
            ks == views(kinds@),
            first_match(cs@.subrange(0, i as int), ks) is None,
        decreases cs.len() - i,
    {
        let found = kind_in(&cs[i], kinds);
        proof {
            let q = cs@.subrange(0, i + 1);
            assert(q.drop_last() == cs@.subrange(0, i as int));
            assert(q.last() == cs@[i as int]);
        }
        if found {
            proof {
                lemma_first_match_extends(cs@, ks, i + 1);
            }
            return Some(i);
        }
        i = i + 1;
    }
    proof {
        assert(cs@.subrange(0, cs.len() as int) == cs@);
    }
    None
}

/// Text of the first child of `node` of kind `kind`.
fn text_of_child(node: &CstNode, kind: &str) -> (r: Option<String>)
    ensures
        opt_view(r) == child_text(*node, seq![kind@]),
{
    let ks = kinds1(kind);
    match find_child(node, &ks) {
        Some(i) => Some(node.children[i].text.clone()),
        None => None,
    }
}

/// Text of the last node of `cs` whose kind is among `kinds`, or `found`
/// when there is none.
fn last_text_in(cs: &Vec<CstNode>, kinds: &Vec<String>, found: Option<String>) -> (r: Option<
    String,
>)
    ensures
        opt_view(r) == match last_node(cs@, views(kinds@)) {
            Some(c) => Some(c.text@),
            None => opt_view(found),
        },
{
    let mut found = found;
    let ghost start = opt_view(found);
    let mut i: usize = 0;
    while i < cs.len()
        invariant
            i <= cs.len(),
            opt_view(found) == match last_node(cs@.subrange(0, i as int), views(kinds@)) {
                Some(c) => Some(c.text@),
                None => start,
            },
        decreases cs.len() - i,
    {
        proof {
            let q = cs@.subrange(0, i + 1);
            assert(q.drop_last() == cs@.subrange(0, i as int));
            assert(q.last() == cs@[i as int]);
        }
        if kind_in(&cs[i], kinds) {
            found = Some(cs[i].text.clone());
        }
        i = i + 1;
    }
    proof {
        assert(cs@.subrange(0, cs.len() as int) == cs@);
    }
    found
}

/// Text of the last child of `node` whose kind is among `kinds`.
fn last_child_text(node: &CstNode, kinds: &Vec<String>) -> (r: Option<String>)
    ensures
        opt_view(r) == last_text(*node, views(kinds@)),
{
    last_text_in(&node.children, kinds, None)
}

/// Text of the last grandchild among `kinds` under the children of kind
/// `outer`.
fn last_nested_child_text(node: &CstNode, outer: &str, kinds: &Vec<String>) -> (r: Option<String>)
    ensures
        opt_view(r) == last_nested_text(*node, outer@, views(kinds@)),
{
    let cs = &node.children;
    let ghost ks = views(kinds@);
    let mut found: Option<String> = None;
    let mut i: usize = 0;
    while i < cs.len()
        invariant
            i <= cs.len(),
            cs@ == node.children@,
            ks == views(kinds@),
            opt_view(found) == text_of(last_node(nested(cs@.subrange(0, i as int), outer@), ks)),
        decreases cs.len() - i,
    {
        let ghost before = nested(cs@.subrange(0, i as int), outer@);
        proof {
            let q = cs@.subrange(0, i + 1);
            assert(q.drop_last() == cs@.subrange(0, i as int));
            assert(q.last() == cs@[i as int]);
        }
        if str_eq(cs[i].kind.as_str(), outer) {
            found = last_text_in(&cs[i].children, kinds, found);
            proof {
                lemma_last_node_concat(before, cs@[i as int].children@, ks);
            }
        }
        i = i + 1;
    }
    proof {
        assert(cs@.subrange(0, cs.len() as int) == cs@);
    }
    found
}

/// The subject of a requirement node.
pub fn extract_subject(node: &CstNode) -> (r: Option<String>)
    ensures
        opt_view(r) == child_text(*node, seq!["subject"@]),
{
    text_of_child(node, "subject")
}

/// The modal verb of a requirement node.
pub fn extract_modal_verb(node: &CstNode) -> (r: Option<String>)
    ensures
        opt_view(r) == child_text(*node, seq!["modal_verb"@]),
{
    text_of_child(node, "modal_verb")
}

/// Whether `a` is what an action node reads as: the last verb
/// (`Other("unknown")` without one), the last object (empty without one),
/// and the last preposition and noun phrase inside its prepositional
/// phrases.
pub open spec fn action_matches(a: Action, n: CstNode) -> bool {
    &&& match last_text(n, seq!["verb"@]) {
        Some(v) => a.verb.name() == v && (a.verb is Other <==> !known_action(v)),
        None => a.verb.name() == "unknown"@ && a.verb is Other,
    }
    &&& a.object@ == match last_text(n, seq!["object"@]) {
        Some(o) => o,
        None => Seq::empty(),
    }
    &&& opt_view(a.preposition) == last_nested_text(n, "preposition_phrase"@, seq!["preposition"@])
    &&& opt_view(a.target) == last_nested_text(n, "preposition_phrase"@, seq!["noun_phrase"@])
}

/// Reads an action node.
pub fn parse_action_node(node: &CstNode) -> (r: Action)
    ensures
        action_matches(r, *node),
{
    let verb = match last_child_text(node, &kinds1("verb")) {
        Some(v) => ActionType::from_str(v.as_str()),
        None => ActionType::Other(String::from_str("unknown")),
    };
    let object = match last_child_text(node, &kinds1("object")) {
        Some(o) => o,
        None => String::new(),
    };
    let preposition = last_nested_child_text(node, "preposition_phrase", &kinds1("preposition"));
    let target = last_nested_child_text(node, "preposition_phrase", &kinds1("noun_phrase"));
    Action { verb, object, preposition, target }
}

/// The action of a requirement node: its first `action` child, read.
pub fn extract_action(node: &CstNode) -> (r: Option<Action>)
    ensures
        match r {
            Some(a) => child_of(*node, seq!["action"@]) matches Some(c) && action_matches(a, c),
            None => child_of(*node, seq!["action"@]) is None,
        },
{
    let ks = kinds1("action");
    match find_child(node, &ks) {
        Some(i) => Some(parse_action_node(&node.children[i])),
        None => None,
    }
}

/// The comparison a `comparison` node holds: its last left variable,
/// operator and right variable or number. An operator token that is not
/// known is an error; a missing part gives nothing.
pub open spec fn comparison_of(n: CstNode) -> Result<Option<ConstraintView>, ParseErrorKind> {
    let left = last_nested_text(n, "left_expression"@, seq!["variable"@]);
    let right = last_nested_text(n, "right_expression"@, seq!["variable"@, "number"@]);
    match last_text(n, seq!["comparison_operator"@]) {
        Some(o) => match operator_of(trimmed(o)) {
            Some(op) => match (left, right) {
                (Some(l), Some(r)) => Ok(Some(ConstraintView { left: l, op, right: r })),
                _ => Ok(None),
            },
            None => Err(ParseErrorKind::UnknownOperatorToken),
        },
        None => Ok(None),
    }
}

/// The value of a read comparison.
pub open spec fn read_cv(r: Result<Option<Constraint>, ParseError>) -> Result<
    Option<ConstraintView>,
    ParseErrorKind,
> {
    match r {
        Ok(Some(c)) => Ok(Some(c@)),
        Ok(None) => Ok(None),
        Err(e) => Err(e.kind),
    }
}

/// Reads a `comparison` node.
pub fn parse_comparison_node(node: &CstNode) -> (r: Result<Option<Constraint>, ParseError>)
    ensures
        read_cv(r) == comparison_of(*node),
{
    let left = last_nested_child_text(node, "left_expression", &kinds1("variable"));
    let right = last_nested_child_text(node, "right_expression", &kinds2("variable", "number"));
    let op = match last_child_text(node, &kinds1("comparison_operator")) {
        Some(o) => o,
        None => return Ok(None),
    };
    let t = trim_text(op.as_str());
    let operator = match ConstraintOperator::from_str(t.as_str()) {
        Ok(operator) => operator,
        Err(kind) => return Err(
            ParseError {
                kind,
                message: String::from_str("unknown operator token"),
                line: node.line,
                column: node.column,
                start_byte: node.start_byte,
                end_byte: node.end_byte,
            },
        ),
    };
    match (left, right) {
        (Some(l), Some(r)) => Ok(
            Some(Constraint { left_variable: l, operator, right_value: r }),
        ),
        _ => Ok(None),
    }
}

/// The constraint an `arithmetic_expression` node stands for: the last left
/// variable equal to the parenthesised last right variable, or else to the
/// last right number.
pub open spec fn arithmetic_of(n: CstNode) -> Option<ConstraintView> {
    let left = last_nested_text(n, "left_expression"@, seq!["variable"@]);
    let var = last_nested_text(n, "right_expression"@, seq!["variable"@]);
    let num = last_nested_text(n, "right_expression"@, seq!["number"@]);
    match (left, var, num) {
        (Some(l), Some(v), _) => Some(
            ConstraintView { left: l, op: ConstraintOperator::Equal, right: "("@ + v + ")"@ },
        ),
        (Some(l), None, Some(k)) => Some(
            ConstraintView { left: l, op: ConstraintOperator::Equal, right: k },
        ),
        _ => None,
    }
}

/// Reads an `arithmetic_expression` node.
pub fn parse_arithmetic_node(node: &CstNode) -> (r: Option<Constraint>)
    ensures
        match r {
            Some(c) => arithmetic_of(*node) == Some(c@),
            None => arithmetic_of(*node) is None,
        },
{
    let left = last_nested_child_text(node, "left_expression", &kinds1("variable"));
    let var = last_nested_child_text(node, "right_expression", &kinds1("variable"));
    let num = last_nested_child_text(node, "right_expression", &kinds1("number"));
    match (left, var, num) {
        (Some(l), Some(v), _) => {
            let mut right = String::from_str("(");
            right.append(v.as_str());
            right.append(")");
            Some(Constraint { left_variable: l, operator: ConstraintOperator::Equal, right_value: right })
        },
        (Some(l), None, Some(k)) => Some(
            Constraint { left_variable: l, operator: ConstraintOperator::Equal, right_value: k },
        ),
        _ => None,
    }
}

/// The value of an optional comparison.
pub open spec fn opt_cv(o: Option<Constraint>) -> Option<ConstraintView> {
    match o {
        Some(c) => Some(c@),
        None => None,
    }
}

/// The `comparison` nodes of a sequence, in order.
pub open spec fn comparisons_in(cs: Seq<CstNode>) -> Seq<CstNode>
    decreases cs.len(),
{
    if cs.len() == 0 {
        Seq::empty()
    } else if cs.last().kind@ == "comparison"@ {
        comparisons_in(cs.drop_last()).push(cs.last())
    } else {
        comparisons_in(cs.drop_last())
    }
}

/// The comparisons of a logical expression's children, in order: direct
/// `comparison` children and those inside `expression` children.
pub open spec fn logical_items(cs: Seq<CstNode>) -> Seq<CstNode>
    decreases cs.len(),
{
    if cs.len() == 0 {
        Seq::empty()
    } else if cs.last().kind@ == "comparison"@ {
        logical_items(cs.drop_last()).push(cs.last())
    } else if cs.last().kind@ == "expression"@ {
        logical_items(cs.drop_last()) + comparisons_in(cs.last().children@)
    } else {
        logical_items(cs.drop_last())
    }
}

/// Operands read so far: the left and the right comparison.
pub type Operands = (Option<ConstraintView>, Option<ConstraintView>);

/// One step of reading operands: a reading fills the left operand until it
/// is set, later readings replace the right one; an error stays.
pub open spec fn operand_step(
    st: Result<Operands, ParseErrorKind>,
    v: Result<Option<ConstraintView>, ParseErrorKind>,
) -> Result<Operands, ParseErrorKind> {
    match st {
        Err(k) => Err(k),
        Ok(p) => match v {
            Err(k) => Err(k),
            Ok(v) => if p.0 is None {
                Ok((v, p.1))
            } else {
                Ok((p.0, v))
            },
        },
    }
}

/// Operands after reading `xs` from state `st`.
pub open spec fn operands_from(st: Result<Operands, ParseErrorKind>, xs: Seq<CstNode>) -> Result<
    Operands,
    ParseErrorKind,
>
    decreases xs.len(),
{
    if xs.len() == 0 {
        st
    } else {
        operand_step(operands_from(st, xs.drop_last()), comparison_of(xs.last()))
    }
}

proof fn lemma_operands_concat(st: Result<Operands, ParseErrorKind>, a: Seq<CstNode>, b: Seq<CstNode>)
    ensures
        operands_from(st, a + b) == operands_from(operands_from(st, a), b),
    decreases b.len(),
{
    if b.len() == 0 {
        assert(a + b == a);
    } else {
        lemma_operands_concat(st, a, b.drop_last());
        assert((a + b).drop_last() == a + b.drop_last());
    }
}

/// The connective of a logical expression: its last `and`, `or` or `not`
/// child.
pub open spec fn connective_of(n: CstNode) -> Option<LogicalOperator> {
    match last_node(n.children@, seq!["and"@, "or"@, "not"@]) {
        Some(c) => if c.kind@ == "and"@ {
            Some(LogicalOperator::And)
        } else if c.kind@ == "or"@ {
            Some(LogicalOperator::Or)
        } else {
            Some(LogicalOperator::Not)
        },
        None => None,
    }
}

/// The condition a `logical_expression` node stands for.
pub open spec fn logical_of(n: CstNode) -> Result<Option<ParsedView>, ParseErrorKind> {
    match operands_from(Ok((None, None)), logical_items(n.children@)) {
        Err(k) => Err(k),
        Ok(ops) => Ok(
            match connective_of(n) {
                Some(LogicalOperator::Not) => match ops.0 {
                    Some(l) => Some(
                        ParsedView::Compound { operator: LogicalOperator::Not, left: l, right: None },
                    ),
                    None => None,
                },
                Some(o) => match (ops.0, ops.1) {
                    (Some(l), Some(r)) => Some(
                        ParsedView::Compound { operator: o, left: l, right: Some(r) },
                    ),
                    (Some(l), None) => Some(ParsedView::Atomic(l)),
                    _ => None,
                },
                None => match ops.0 {
                    Some(l) => Some(ParsedView::Atomic(l)),
                    None => None,
                },
            },
        ),
    }
}

/// The state of reading operands, from the exec side.
pub open spec fn operand_state(
    err: Option<ParseError>,
    left: Option<Constraint>,
    right: Option<Constraint>,
) -> Result<Operands, ParseErrorKind> {
    match err {
        Some(e) => Err(e.kind),
        None => Ok((opt_cv(left), opt_cv(right))),
    }
}

/// Reads one comparison into the operands.
fn read_one(
    node: &CstNode,
    err: &mut Option<ParseError>,
    left: &mut Option<Constraint>,
    right: &mut Option<Constraint>,
)
    ensures
        operand_state(*final(err), *final(left), *final(right)) == operand_step(
            operand_state(*old(err), *old(left), *old(right)),
            comparison_of(*node),
        ),
{
    if err.is_some() {
        return;
    }
    match parse_comparison_node(node) {
        Err(e) => {
            *err = Some(e);
        },
        Ok(v) => {
            if left.is_none() {
                *left = v;
            } else {
                *right = v;
            }
        },
    }
}

/// Reads the comparisons among `cs` into the operands.
fn read_comparisons(
    cs: &Vec<CstNode>,
    err: &mut Option<ParseError>,
    left: &mut Option<Constraint>,
    right: &mut Option<Constraint>,
)
    ensures
        operand_state(*final(err), *final(left), *final(right)) == operands_from(
            operand_state(*old(err), *old(left), *old(right)),
            comparisons_in(cs@),
        ),
{
    let ghost st = operand_state(*err, *left, *right);
    let mut i: usize = 0;
    while i < cs.len()
        invariant
            i <= cs.len(),
            operand_state(*err, *left, *right) == operands_from(
                st,
                comparisons_in(cs@.subrange(0, i as int)),
            ),
        decreases cs.len() - i,
    {
        proof {
            let q = cs@.subrange(0, i + 1);
            assert(q.drop_last() == cs@.subrange(0, i as int));
            assert(q.last() == cs@[i as int]);
        }
        if str_eq(cs[i].kind.as_str(), "comparison") {
            read_one(&cs[i], err, left, right);
            proof {
                let p = comparisons_in(cs@.subrange(0, i as int));
                assert(p.push(cs@[i as int]).drop_last() == p);
            }
        }
        i = i + 1;
    }
    proof {
        assert(cs@.subrange(0, cs.len() as int) == cs@);
    }
}

/// The connective of a logical expression node.
fn read_connective(node: &CstNode) -> (r: Option<LogicalOperator>)
    ensures
        r == connective_of(*node),
{
    let ks = kinds3("and", "or", "not");
    let cs = &node.children;
    let mut found: Option<LogicalOperator> = None;
    let mut i: usize = 0;
    while i < cs.len()
        invariant
            i <= cs.len(),
            cs@ == node.children@,
            views(ks@) == seq!["and"@, "or"@, "not"@],
            found == match last_node(cs@.subrange(0, i as int), views(ks@)) {
                Some(c) => if c.kind@ == "and"@ {
                    Some(LogicalOperator::And)
                } else if c.kind@ == "or"@ {
                    Some(LogicalOperator::Or)
                } else {
                    Some(LogicalOperator::Not)
                },
                None => None,
            },
        decreases cs.len() - i,
    {
        proof {
            let q = cs@.subrange(0, i + 1);
            assert(q.drop_last() == cs@.subrange(0, i as int));
            assert(q.last() == cs@[i as int]);
        }
        if kind_in(&cs[i], &ks) {
            found = if str_eq(cs[i].kind.as_str(), "and") {
                Some(LogicalOperator::And)
            } else if str_eq(cs[i].kind.as_str(), "or") {
                Some(LogicalOperator::Or)
            } else {
                Some(LogicalOperator::Not)
            };
        }
        i = i + 1;
    }
    proof {
        assert(cs@.subrange(0, cs.len() as int) == cs@);
    }
    found
}

/// The value of a read condition; a result with no flat form counts as an
/// error of the syntax kind.
pub open spec fn read_pv(r: Result<Option<ParsedConstraint>, ParseError>) -> Result<
    Option<ParsedView>,
    ParseErrorKind,
> {
    match r {
        Ok(Some(p)) => match p.shallow() {
            Some(v) => Ok(Some(v)),
            None => Err(ParseErrorKind::Syntax),
        },
        Ok(None) => Ok(None),
        Err(e) => Err(e.kind),
    }
}

/// Reads a `logical_expression` node: its last connective over the first
/// and the last comparison it holds (`not` over the first).
pub fn parse_logical_expression_node(node: &CstNode) -> (r: Result<
    Option<ParsedConstraint>,
    ParseError,
>)
    ensures
        read_pv(r) == logical_of(*node),
        r matches Ok(Some(p)) ==> p.shallow() is Some,
{
    let operator = read_connective(node);
    let mut err: Option<ParseError> = None;
    let mut left: Option<Constraint> = None;
    let mut right: Option<Constraint> = None;
    let cs = &node.children;
    let mut i: usize = 0;
    while i < cs.len()
        invariant
            i <= cs.len(),
            cs@ == node.children@,
            operand_state(err, left, right) == operands_from(
                Ok((None, None)),
                logical_items(cs@.subrange(0, i as int)),
            ),
        decreases cs.len() - i,
    {
        let ghost before = logical_items(cs@.subrange(0, i as int));
        proof {
            let q = cs@.subrange(0, i + 1);
            assert(q.drop_last() == cs@.subrange(0, i as int));
            assert(q.last() == cs@[i as int]);
        }
        if str_eq(cs[i].kind.as_str(), "comparison") {
            read_one(&cs[i], &mut err, &mut left, &mut right);
            proof {
                assert(before.push(cs@[i as int]).drop_last() == before);
            }
        } else if str_eq(cs[i].kind.as_str(), "expression") {
            read_comparisons(&cs[i].children, &mut err, &mut left, &mut right);
            proof {
                lemma_operands_concat(
                    Ok((None, None)),
                    before,
                    comparisons_in(cs@[i as int].children@),
                );
            }
        }
        i = i + 1;
    }
    proof {
        assert(cs@.subrange(0, cs.len() as int) == cs@);
    }
    if let Some(e) = err {
        return Err(e);
    }
    let parsed = match operator {
        Some(LogicalOperator::Not) => match left {
            Some(l) => Some(
                ParsedConstraint::Compound {
                    operator: LogicalOperator::Not,
                    left: Box::new(ParsedConstraint::Atomic(l)),
                    right: None,
                },
            ),
            None => None,
        },
        Some(o) => match (left, right) {
            (Some(l), Some(r)) => Some(
                ParsedConstraint::Compound {
                    operator: o,
                    left: Box::new(ParsedConstraint::Atomic(l)),
                    right: Some(Box::new(ParsedConstraint::Atomic(r))),
                },
            ),
            (Some(l), None) => Some(ParsedConstraint::Atomic(l)),
            _ => None,
        },
        None => match left {
            Some(l) => Some(ParsedConstraint::Atomic(l)),
            None => None,
        },
    };
    Ok(parsed)
}

/// The condition a constraint-bearing node stands for: its first child of
/// a known expression kind decides.
pub open spec fn expression_of(n: CstNode) -> Result<Option<ParsedView>, ParseErrorKind>
    decreases n, 1nat,
{
    expression_in(n.children@)
}

/// `expression_of` for a node with children `cs`.
pub open spec fn expression_in(cs: Seq<CstNode>) -> Result<Option<ParsedView>, ParseErrorKind>
    decreases cs, 0nat,
{
    if cs.len() == 0 {
        Ok(None)
    } else {
        let c = cs[0];
        if c.kind@ == "constraint_expression"@ {
            expression_of(c)
        } else if c.kind@ == "comparison"@ {
            match comparison_of(c) {
                Ok(Some(v)) => Ok(Some(ParsedView::Atomic(v))),
                Ok(None) => Ok(None),
                Err(k) => Err(k),
            }
        } else if c.kind@ == "logical_expression"@ {
            logical_of(c)
        } else if c.kind@ == "arithmetic_expression"@ {
            match arithmetic_of(c) {
                Some(v) => Ok(Some(ParsedView::Atomic(v))),
                None => Ok(None),
            }
        } else {
            expression_in(cs.drop_first())
        }
    }
}

/// Reads a node that holds a constraint expression.
pub fn parse_constraint_expression(node: &CstNode) -> (r: Result<
    Option<ParsedConstraint>,
    ParseError,
>)
    ensures
        read_pv(r) == expression_of(*node),
        r matches Ok(Some(p)) ==> p.shallow() is Some,
    decreases *node, 1nat,
{
    parse_expression_children(&node.children)
}

fn parse_expression_children(cs: &Vec<CstNode>) -> (r: Result<Option<ParsedConstraint>, ParseError>)
    ensures
        read_pv(r) == expression_in(cs@),
        r matches Ok(Some(p)) ==> p.shallow() is Some,
    decreases *cs, 0nat,
{
    let mut i: usize = 0;
    proof {
        assert(cs@.subrange(0, cs@.len() as int) == cs@);
    }
    while i < cs.len()
        invariant
            i <= cs.len(),
            expression_in(cs@) == expression_in(cs@.subrange(i as int, cs@.len() as int)),
        decreases cs.len() - i,
    {
        proof {
            let rest = cs@.subrange(i as int, cs@.len() as int);
            assert(rest[0] == cs@[i as int]);
            assert(rest.drop_first() == cs@.subrange(i + 1, cs@.len() as int));
            vstd::std_specs::vec::axiom_vec_index_decreases(*cs, i as int);
        }
        let kind = cs[i].kind.as_str();
        if str_eq(kind, "constraint_expression") {
            return parse_constraint_expression(&cs[i]);
        } else if str_eq(kind, "comparison") {
            return match parse_comparison_node(&cs[i]) {
                Ok(Some(c)) => Ok(Some(ParsedConstraint::Atomic(c))),
                Ok(None) => Ok(None),
                Err(e) => Err(e),
            };
        } else if str_eq(kind, "logical_expression") {
            return parse_logical_expression_node(&cs[i]);
        } else if str_eq(kind, "arithmetic_expression") {
            return match parse_arithmetic_node(&cs[i]) {
                Some(c) => Ok(Some(ParsedConstraint::Atomic(c))),
                None => Ok(None),
            };
        }
        i = i + 1;
    }
    Ok(None)
}

/// The condition under the first child of kind `kind`.
pub open spec fn section_of(n: CstNode, kind: Seq<char>) -> Result<
    Option<ParsedView>,
    ParseErrorKind,
> {
    match child_of(n, seq![kind]) {
        Some(c) => expression_of(c),
        None => Ok(None),
    }
}

fn extract_section(node: &CstNode, kind: &str) -> (r: Result<Option<ParsedConstraint>, ParseError>)
    ensures
        read_pv(r) == section_of(*node, kind@),
        r matches Ok(Some(p)) ==> p.shallow() is Some,
{
    let ks = kinds1(kind);
    match find_child(node, &ks) {
        Some(i) => parse_constraint_expression(&node.children[i]),
        None => Ok(None),
    }
}

/// The condition (`if ...`) of a requirement node.
pub fn extract_condition(node: &CstNode) -> (r: Result<Option<ParsedConstraint>, ParseError>)
    ensures
        read_pv(r) == section_of(*node, "condition"@),
        r matches Ok(Some(p)) ==> p.shallow() is Some,
{
    extract_section(node, "condition")
}

/// The constraint (`where ...`) of a requirement node.
pub fn extract_constraint(node: &CstNode) -> (r: Result<Option<ParsedConstraint>, ParseError>)
    ensures
        read_pv(r) == section_of(*node, "constraint"@),
        r matches Ok(Some(p)) ==> p.shallow() is Some,
{
    extract_section(node, "constraint")
}

/// A requirement node lacks its subject or its action.
pub open spec fn malformed(n: CstNode) -> bool {
    child_text(n, seq!["subject"@]) is None || child_of(n, seq!["action"@]) is None
}

/// The error for a malformed requirement node, located at the node.
pub open spec fn malformed_at(e: ParseError, n: CstNode) -> bool {
    e.kind == ParseErrorKind::MalformedRequirement && e.line == n.line && e.column == n.column
        && e.start_byte == n.start_byte && e.end_byte == n.end_byte
}

/// The view of an optional read condition.
pub open spec fn opt_pv(o: Option<ParsedConstraint>) -> Option<ParsedView> {
    match o {
        Some(p) => p.shallow(),
        None => None,
    }
}

/// Whether `req` is what the requirement node `n` reads as.
pub open spec fn requirement_matches(req: Requirement, n: CstNode) -> bool {
    &&& child_text(n, seq!["subject"@]) == Some(req.subject@)
    &&& child_text(n, seq!["modal_verb"@]) == Some(req.modal_verb@)
    &&& child_of(n, seq!["action"@]) matches Some(a) && action_matches(req.action, a)
    &&& section_of(n, "condition"@) == Ok::<_, ParseErrorKind>(opt_pv(req.condition))
    &&& req.condition matches Some(p) ==> p.shallow() is Some
    &&& section_of(n, "constraint"@) == Ok::<_, ParseErrorKind>(opt_pv(req.constraint))
    &&& req.constraint matches Some(p) ==> p.shallow() is Some
}

/// What reading a requirement node gives: an error kind, no requirement
/// (no modal verb), or a requirement.
pub open spec fn requirement_outcome(n: CstNode) -> Result<bool, ParseErrorKind> {
    if malformed(n) {
        Err(ParseErrorKind::MalformedRequirement)
    } else if child_text(n, seq!["modal_verb"@]) is None {
        Ok(false)
    } else {
        match section_of(n, "condition"@) {
            Err(k) => Err(k),
            Ok(_) => match section_of(n, "constraint"@) {
                Err(k) => Err(k),
                Ok(_) => Ok(true),
            },
        }
    }
}

/// Reads a requirement node. A node without subject or action is
/// malformed; one without a modal verb gives no requirement.
pub fn parse_requirement_node(node: &CstNode) -> (r: Result<Option<Requirement>, ParseError>)
    ensures
        match r {
            Err(e) => requirement_outcome(*node) == Err::<bool, _>(e.kind) && (malformed(*node)
                ==> malformed_at(e, *node)),
            Ok(None) => requirement_outcome(*node) == Ok::<_, ParseErrorKind>(false),
            Ok(Some(req)) => requirement_outcome(*node) == Ok::<_, ParseErrorKind>(true)
                && requirement_matches(req, *node),
        },
{
    let subject = extract_subject(node);
    let action = extract_action(node);
    if subject.is_none() || action.is_none() {
        return Err(
            ParseError {
                kind: ParseErrorKind::MalformedRequirement,
                message: String::from_str("malformed requirement: missing subject or action"),
                line: node.line,
                column: node.column,
                start_byte: node.start_byte,
                end_byte: node.end_byte,
            },
        );
    }
    let modal_verb = match extract_modal_verb(node) {
        Some(m) => m,
        None => return Ok(None),
    };
    let condition = match extract_condition(node) {
        Ok(c) => c,
        Err(e) => return Err(e),
    };
    let constraint = match extract_constraint(node) {
        Ok(c) => c,
        Err(e) => return Err(e),
    };
    match (subject, action) {
        (Some(subject), Some(action)) => Ok(
            Some(Requirement { subject, modal_verb, action, condition, constraint }),
        ),
        _ => Ok(None),
    }
}

/// The requirement nodes among `cs` that give a requirement, in order, or
/// the kind of the first error.
pub open spec fn read_requirements(cs: Seq<CstNode>) -> Result<Seq<CstNode>, ParseErrorKind>
    decreases cs.len(),
{
    if cs.len() == 0 {
        Ok(Seq::empty())
    } else {
        match read_requirements(cs.drop_last()) {
            Err(k) => Err(k),
            Ok(ns) => if cs.last().kind@ != "requirement"@ {
                Ok(ns)
            } else {
                match requirement_outcome(cs.last()) {
                    Err(k) => Err(k),
                    Ok(true) => Ok(ns.push(cs.last())),
                    Ok(false) => Ok(ns),
                }
            },
        }
    }
}

proof fn lemma_read_error_extends(cs: Seq<CstNode>, j: int)
    requires
        0 <= j <= cs.len(),
        read_requirements(cs.subrange(0, j)) is Err,
    ensures
        read_requirements(cs) == read_requirements(cs.subrange(0, j)),
    decreases cs.len() - j,
{
    if j < cs.len() {
        let q = cs.subrange(0, j + 1);
        assert(q.drop_last() == cs.subrange(0, j));
        lemma_read_error_extends(cs, j + 1);
    } else {
        assert(cs.subrange(0, j) == cs);
    }
}

/// Whether `rs` are the requirements read from the nodes `ns`, one for one.
pub open spec fn requirements_match(rs: Seq<Requirement>, ns: Seq<CstNode>) -> bool {
    rs.len() == ns.len() && forall|i: int|
        0 <= i < rs.len() ==> requirement_matches(#[trigger] rs[i], ns[i])
}

/// Reads every `requirement` child of the root, in order; the first error
/// is reported.
pub fn extract_requirements(root: &CstNode) -> (r: Result<Vec<Requirement>, ParseError>)
    ensures
        match r {
            Err(e) => read_requirements(root.children@) == Err::<Seq<CstNode>, _>(e.kind),
            Ok(rs) => read_requirements(root.children@) matches Ok(ns) && requirements_match(
                rs@,
                ns,
            ),
        },
{
    let cs = &root.children;
    let mut requirements: Vec<Requirement> = Vec::new();
    let mut i: usize = 0;
    while i < cs.len()
        invariant
            i <= cs.len(),
            cs@ == root.children@,
            read_requirements(cs@.subrange(0, i as int)) matches Ok(ns) && requirements_match(
                requirements@,
                ns,
            ),
        decreases cs.len() - i,
    {
        proof {
            let q = cs@.subrange(0, i + 1);
            assert(q.drop_last() == cs@.subrange(0, i as int));
            assert(q.last() == cs@[i as int]);
        }
        if str_eq(cs[i].kind.as_str(), "requirement") {
            match parse_requirement_node(&cs[i]) {
                Err(e) => {
                    proof {
                        lemma_read_error_extends(cs@, i + 1);
                    }
                    return Err(e);
                },
                Ok(Some(req)) => {
                    let ghost before = requirements@;
                    requirements.push(req);
                    proof {
                        let ns = read_requirements(cs@.subrange(0, i as int))->Ok_0;
                        assert(requirements@ == before.push(req));
                        assert forall|j: int| 0 <= j < requirements@.len() implies requirement_matches(
                            #[trigger] requirements@[j],
                            ns.push(cs@[i as int])[j],
                        ) by {
                            if j < before.len() {
                                assert(requirements@[j] == before[j]);
                            }
                        }
                    }
                },
                Ok(None) => {},
            }
        }
        i = i + 1;
    }
    proof {
        assert(cs@.subrange(0, cs.len() as int) == cs@);
    }
    Ok(requirements)
}

/// Reads the requirements of a syntax tree of `source`; a tree with a
/// syntax error is rejected.
pub fn parse_tree(root: &CstNode, source: String) -> (r: Result<IntentAst, ParseError>)
    ensures
        root.has_error ==> (r matches Err(e) && e.kind == ParseErrorKind::Syntax),
        !root.has_error ==> match r {
            Err(e) => read_requirements(root.children@) == Err::<Seq<CstNode>, _>(e.kind),
            Ok(ast) => ast.source_text == source && (read_requirements(root.children@) matches Ok(
                ns,
            ) && requirements_match(ast.requirements@, ns)),
        },
{
    if root.has_error {
        return Err(
            ParseError {
                kind: ParseErrorKind::Syntax,
                message: String::from_str("Parse error in input"),
                line: root.line,
                column: root.column,
                start_byte: root.start_byte,
                end_byte: root.end_byte,
            },
        );
    }
    match extract_requirements(root) {
        Ok(requirements) => Ok(IntentAst { requirements, source_text: source }),
        Err(e) => Err(e),
    }
}

/// The operator of the constraint algebra a parsed operator stands for;
/// the set and containment operators have none.
pub open spec fn core_operator(op: ConstraintOperator) -> Option<crate::ast::ConstraintOperator> {
    match op {
        ConstraintOperator::Equal => Some(crate::ast::ConstraintOperator::Equal),
        ConstraintOperator::NotEqual => Some(crate::ast::ConstraintOperator::NotEqual),
        ConstraintOperator::GreaterThan => Some(crate::ast::ConstraintOperator::GreaterThan),
        ConstraintOperator::LessThan => Some(crate::ast::ConstraintOperator::LessThan),
        ConstraintOperator::GreaterEqual => Some(crate::ast::ConstraintOperator::GreaterThanOrEqual),
        ConstraintOperator::LessEqual => Some(crate::ast::ConstraintOperator::LessThanOrEqual),
        _ => None,
    }
}

impl ConstraintOperator {
    /// The operator of the constraint algebra, if there is one.
    pub fn to_core(&self) -> (r: Option<crate::ast::ConstraintOperator>)
        ensures
            r == core_operator(*self),
    {
        match self {
            ConstraintOperator::Equal => Some(crate::ast::ConstraintOperator::Equal),
            ConstraintOperator::NotEqual => Some(crate::ast::ConstraintOperator::NotEqual),
            ConstraintOperator::GreaterThan => Some(crate::ast::ConstraintOperator::GreaterThan),
            ConstraintOperator::LessThan => Some(crate::ast::ConstraintOperator::LessThan),
            ConstraintOperator::GreaterEqual => Some(
                crate::ast::ConstraintOperator::GreaterThanOrEqual,
            ),
            ConstraintOperator::LessEqual => Some(crate::ast::ConstraintOperator::LessThanOrEqual),
            _ => None,
        }
    }
}

/// Every comparison of the condition has an operator of the algebra.
pub open spec fn convertible(p: ParsedConstraint) -> bool
    decreases p,
{
    match p {
        ParsedConstraint::Atomic(k) => core_operator(k.operator) is Some,
        ParsedConstraint::Compound { operator, left, right } => convertible(*left) && (
        operator == LogicalOperator::Not || match right {
            Some(r) => convertible(*r),
            None => true,
        }),
    }
}

/// Whether `c` is the algebra's form of the parsed condition `p`: a
/// comparison becomes a leaf, `and`/`or` the matching node over one or two
/// children, `not` a negation.
pub open spec fn represents(p: ParsedConstraint, c: crate::ast::CompoundConstraint) -> bool
    decreases p,
{
    match p {
        ParsedConstraint::Atomic(k) => match c {
            crate::ast::CompoundConstraint::Simple(x) => core_operator(k.operator) == Some(
                x.operator,
            ) && x.left_variable@ == k.left_variable@ && x.right_value@ == k.right_value@,
            _ => false,
        },
        ParsedConstraint::Compound { operator, left, right } => match operator {
            LogicalOperator::Not => match c {
                crate::ast::CompoundConstraint::Not(inner) => represents(*left, *inner),
                _ => false,
            },
            _ => {
                let cs = match c {
                    crate::ast::CompoundConstraint::And(cs) => if operator
                        == LogicalOperator::And {
                        Some(cs@)
                    } else {
                        None
                    },
                    crate::ast::CompoundConstraint::Or(cs) => if operator == LogicalOperator::Or {
                        Some(cs@)
                    } else {
                        None
                    },
                    _ => None,
                };
                match cs {
                    Some(cs) => match right {
                        Some(r) => cs.len() == 2 && represents(*left, cs[0]) && represents(*r, cs[1]),
                        None => cs.len() == 1 && represents(*left, cs[0]),
                    },
                    None => false,
                }
            },
        },
    }
}

impl ParsedConstraint {
    /// The condition in the constraint algebra; an operator the algebra
    /// lacks is an unknown operator token.
    pub fn to_intent(&self) -> (r: Result<crate::ast::CompoundConstraint, ParseError>)
        ensures
            r is Ok <==> convertible(*self),
            r matches Ok(c) ==> represents(*self, c),
        decreases *self,
    {
        match self {
            ParsedConstraint::Atomic(k) => match k.operator.to_core() {
                Some(op) => Ok(
                    crate::ast::CompoundConstraint::Simple(
                        crate::ast::Constraint {
                            left_variable: k.left_variable.clone(),
                            operator: op,
                            right_value: k.right_value.clone(),
                        },
                    ),
                ),
                None => Err(
                    ParseError {
                        kind: ParseErrorKind::UnknownOperatorToken,
                        message: String::from_str("unknown operator token"),
                        line: 0,
                        column: 0,
                        start_byte: 0,
                        end_byte: 0,
                    },
                ),
            },
            ParsedConstraint::Compound { operator, left, right } => {
                let l = match left.to_intent() {
                    Ok(c) => c,
                    Err(e) => return Err(e),
                };
                match operator {
                    LogicalOperator::Not => Ok(crate::ast::CompoundConstraint::Not(Box::new(l))),
                    _ => {
                        let mut cs: Vec<crate::ast::CompoundConstraint> = Vec::new();
                        cs.push(l);
                        match right {
                            Some(r) => match r.to_intent() {
                                Ok(c) => cs.push(c),
                                Err(e) => return Err(e),
                            },
                            None => {},
                        }
                        if *operator == LogicalOperator::And {
                            Ok(crate::ast::CompoundConstraint::And(cs))
                        } else {
                            Ok(crate::ast::CompoundConstraint::Or(cs))
                        }
                    },
                }
            },
        }
    }
}

} // verus!
