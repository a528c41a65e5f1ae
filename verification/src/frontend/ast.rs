use vstd::prelude::*;

verus! {

/// The grammatical role of an AST node.
#[derive(Debug, Clone, Copy)]
pub enum NodeType {
    // Statements
    ProgramStatement,
    VariableDeclarationStatement,
    // Other
    Identifier,
    // Literal data types
    IntegerLiteral,
    FloatLiteral,
    CharacterLiteral,
    StringLiteral,
    // Expressions
    BinaryExpression,
    VariableAssignmentExpression,
}

/// Mathematical view of an expression: the tree shape and the texts,
/// with the node-role tags dropped.
pub enum ExprModel {
    Binary { left: Box<ExprModel>, right: Box<ExprModel>, operator: Seq<char> },
    Assignment { assignee: Box<ExprModel>, value: Box<ExprModel> },
    Identifier { symbol: Seq<char> },
    IntegerLit { text: Seq<char> },
    FloatLit { text: Seq<char> },
    CharacterLit { value: char },
    StringLit { text: Seq<char> },
}

/// View of a whole statement list, element by element.
pub open spec fn stmts_view(body: Seq<Statement>) -> Seq<StmtModel>
    decreases body,
{
    if body.len() == 0 {
        Seq::empty()
    } else {
        stmts_view(body.subrange(0, body.len() - 1)).push(body[body.len() - 1]@)
    }
}

/// Mathematical view of a statement.
pub enum StmtModel {
    Program { body: Seq<StmtModel> },
    Declaration {
        constant: bool,
        identifier: Seq<char>,
        value: Option<ExprModel>,
        annotation: Option<Seq<char>>,
    },
    Expr { expr: ExprModel },
}

// Statements

#[derive(Debug)]
pub enum Statement {
    Program(ProgramStatement),
    VariableDeclaration(VariableDeclarationStatement),
    Expression(Expression),
}

impl View for Statement {
    type V = StmtModel;

    open spec fn view(&self) -> StmtModel
        decreases self,
    {
        match self {
            Statement::Program(p) => StmtModel::Program { body: stmts_view(p.body@) },
            Statement::VariableDeclaration(d) => StmtModel::Declaration {
                constant: d.constant,
                identifier: d.identifier@,
                value: match &d.value {
                    Some(e) => Some(e@),
                    None => None,
                },
                annotation: match &d.value_type {
                    Some(t) => Some(t.symbol@),
                    None => None,
                },
            },
            Statement::Expression(e) => StmtModel::Expr { expr: e@ },
        }
    }
}

#[derive(Debug)]
pub struct ProgramStatement {
    pub kind: NodeType,
    pub body: Vec<Statement>,
}

impl ProgramStatement {
    pub fn create() -> (r: Self)
        ensures
            r.kind is ProgramStatement,
            r.body@ =~= Seq::<Statement>::empty(),
    {
        ProgramStatement { kind: NodeType::ProgramStatement, body: Vec::new() }
    }
}

#[derive(Debug)]
pub struct VariableDeclarationStatement {
    pub kind: NodeType,
    pub constant: bool,
    pub identifier: String,
    pub value: Option<Expression>,
    pub value_type: Option<IdentifierExpression>,
}

impl VariableDeclarationStatement {
    pub fn create(
        constant: bool,
        identifier: String,
        value: Option<Expression>,
        value_type: Option<IdentifierExpression>,
    ) -> (r: Self)
        ensures
            r.kind is VariableDeclarationStatement,
            r.constant == constant,
            r.identifier == identifier,
            r.value == value,
            r.value_type == value_type,
    {
        VariableDeclarationStatement { kind: NodeType::VariableDeclarationStatement, constant, identifier, value, value_type }
    }
}

// Expressions

#[derive(Debug)]
pub enum Expression {
    Binary(Box<BinaryExpression>),
    VariableAssignment(Box<VariableAssignmentExpression>),
    Identifier(IdentifierExpression),
    Integer(IntegerLiteral),
    Float(FloatLiteral),
    Character(CharacterLiteral),
    Str(StringLiteral),
}

impl View for Expression {
    type V = ExprModel;

    open spec fn view(&self) -> ExprModel
        decreases self,
    {
        match self {
            Expression::Binary(b) => ExprModel::Binary {
                left: Box::new(b.left@),
                right: Box::new(b.right@),
                operator: b.operator@,
            },
            Expression::VariableAssignment(a) => ExprModel::Assignment {
                assignee: Box::new(a.assignee@),
                value: Box::new(a.value@),
            },
            Expression::Identifier(i) => ExprModel::Identifier { symbol: i.symbol@ },
            Expression::Integer(l) => ExprModel::IntegerLit { text: l.value@ },
            Expression::Float(l) => ExprModel::FloatLit { text: l.value@ },
            Expression::Character(l) => ExprModel::CharacterLit { value: l.value },
            Expression::Str(l) => ExprModel::StringLit { text: l.value@ },
        }
    }
}

#[derive(Debug)]
pub struct BinaryExpression {
    pub kind: NodeType,
    pub left: Expression,
    pub right: Expression,
    pub operator: String,
}

impl BinaryExpression {
    pub fn create(left: Expression, right: Expression, operator: String) -> (r: Self)
        ensures
            r.kind is BinaryExpression,
            r.left == left,
            r.right == right,
            r.operator == operator,
    {
        BinaryExpression { kind: NodeType::BinaryExpression, left, right, operator }
    }
}

#[derive(Debug)]
pub struct VariableAssignmentExpression {
    pub kind: NodeType,
    pub assignee: Expression,
    pub value: Expression,
}

impl VariableAssignmentExpression {
    pub fn create(assignee: Expression, value: Expression) -> (r: Self)
        ensures
            r.kind is VariableAssignmentExpression,
            r.assignee == assignee,
            r.value == value,
    {
        VariableAssignmentExpression { kind: NodeType::VariableAssignmentExpression, assignee, value }
    }
}

#[derive(Debug, Clone)]
pub struct IdentifierExpression {
    pub kind: NodeType,
    pub symbol: String,
}

impl IdentifierExpression {
    pub fn create(symbol: String) -> (r: Self)
        ensures
            r.kind is Identifier,
            r.symbol == symbol,
    {
        IdentifierExpression { kind: NodeType::Identifier, symbol }
    }
}

#[derive(Debug, Clone)]
pub struct IntegerLiteral {
    pub kind: NodeType,
    pub value: String,
}

impl IntegerLiteral {
    pub fn create(value: String) -> (r: Self)
        ensures
            r.kind is IntegerLiteral,
            r.value == value,
    {
        IntegerLiteral { kind: NodeType::IntegerLiteral, value }
    }
}

#[derive(Debug, Clone)]
pub struct FloatLiteral {
    pub kind: NodeType,
    pub value: String,
}

impl FloatLiteral {
    pub fn create(value: String) -> (r: Self)
        ensures
            r.kind is FloatLiteral,
            r.value == value,
    {
        FloatLiteral { kind: NodeType::FloatLiteral, value }
    }
}

#[derive(Debug, Clone)]
pub struct CharacterLiteral {
    pub kind: NodeType,
    pub value: char,
}

#[derive(Debug, Clone)]
pub struct StringLiteral {
    pub kind: NodeType,
    pub value: String,
}


impl View for ProgramStatement {
    type V = StmtModel;

    open spec fn view(&self) -> StmtModel {
        StmtModel::Program { body: stmts_view(self.body@) }
    }
}

impl View for VariableDeclarationStatement {
    type V = StmtModel;

    open spec fn view(&self) -> StmtModel {
        StmtModel::Declaration {
            constant: self.constant,
            identifier: self.identifier@,
            value: match &self.value {
                Some(e) => Some(e@),
                None => None,
            },
            annotation: match &self.value_type {
                Some(t) => Some(t.symbol@),
                None => None,
            },
        }
    }
}

impl View for BinaryExpression {
    type V = ExprModel;

    open spec fn view(&self) -> ExprModel {
        ExprModel::Binary {
            left: Box::new(self.left@),
            right: Box::new(self.right@),
            operator: self.operator@,
        }
    }
}

impl View for VariableAssignmentExpression {
    type V = ExprModel;

    open spec fn view(&self) -> ExprModel {
        ExprModel::Assignment { assignee: Box::new(self.assignee@), value: Box::new(self.value@) }
    }
}

impl View for IdentifierExpression {
    type V = ExprModel;

    open spec fn view(&self) -> ExprModel {
        ExprModel::Identifier { symbol: self.symbol@ }
    }
}

/// The statement-list view is pointwise the statements' views.
pub proof fn lemma_stmts_view(s: Seq<Statement>)
    ensures
        stmts_view(s).len() == s.len(),
        forall|i: int| 0 <= i < s.len() ==> stmts_view(s)[i] == s[i]@,
    decreases s.len(),
{
    if s.len() > 0 {
        let prefix = s.subrange(0, s.len() - 1);
        assert(stmts_view(s) == stmts_view(prefix).push(s[s.len() - 1]@));
        lemma_stmts_view(prefix);
        assert forall|i: int| 0 <= i < s.len() implies stmts_view(s)[i] == s[i]@ by {
            if i < s.len() - 1 {
                assert(prefix[i] == s[i]);
                assert(stmts_view(s)[i] == stmts_view(prefix)[i]);
            } else {
                assert(stmts_view(s)[i] == s[s.len() - 1]@);
            }
        }
    }
}


/// Structural size of an expression tree.
pub open spec fn expr_size(e: ExprModel) -> nat
    decreases e,
{
    match e {
        ExprModel::Binary { left, right, .. } => 1 + expr_size(*left) + expr_size(*right),
        ExprModel::Assignment { assignee, value } => 1 + expr_size(*assignee) + expr_size(*value),
        _ => 1,
    }
}

/// Structural size of a statement.
pub open spec fn stmt_size(s: StmtModel) -> nat
    decreases s,
{
    match s {
        StmtModel::Program { body } => 1 + block_size(body),
        StmtModel::Declaration { value, .. } => 1 + (match value {
            Some(e) => expr_size(e),
            None => 0,
        }),
        StmtModel::Expr { expr } => 1 + expr_size(expr),
    }
}

/// Combined size of a statement list.
pub open spec fn block_size(body: Seq<StmtModel>) -> nat
    decreases body,
{
    if body.len() == 0 {
        0
    } else {
        stmt_size(body[0]) + block_size(body.subrange(1, body.len() as int))
    }
}

/// Each statement of a list is no larger than the whole list.
pub proof fn lemma_block_size_element(body: Seq<StmtModel>, k: int)
    requires
        0 <= k < body.len(),
    ensures
        stmt_size(body[k]) <= block_size(body),
    decreases k,
{
    if k > 0 {
        let rest = body.subrange(1, body.len() as int);
        assert(rest[k - 1] == body[k]);
        lemma_block_size_element(rest, k - 1);
    }
}

} // verus!
