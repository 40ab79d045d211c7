//! The scalar-expression abstract syntax tree that lowering consumes, its
//! mathematical model, and the size measures used to prove termination of
//! the recursive lowering functions.

use vstd::prelude::*;

use crate::values::{DfValue, DfValueV};

verus! {

/// A schema-qualified name, as written in SQL source.
#[derive(Debug, PartialEq, Eq)]
pub struct Relation {
    pub schema: Option<String>,
    pub name: String,
}

/// Mathematical model of a [`Relation`].
#[verifier::ext_equal]
pub struct RelationV {
    pub schema: Option<Seq<char>>,
    pub name: Seq<char>,
}

impl View for Relation {
    type V = RelationV;

    open spec fn view(&self) -> RelationV {
        RelationV {
            schema: match &self.schema {
                Some(s) => Some(s@),
                None => None,
            },
            name: self.name@,
        }
    }
}

/// A column reference, optionally qualified by its table.
#[derive(Debug, PartialEq, Eq)]
pub struct Column {
    pub name: String,
    pub table: Option<Relation>,
}

/// Mathematical model of a [`Column`].
#[verifier::ext_equal]
pub struct ColumnV {
    pub name: Seq<char>,
    pub table: Option<RelationV>,
}

impl View for Column {
    type V = ColumnV;

    open spec fn view(&self) -> ColumnV {
        ColumnV {
            name: self.name@,
            table: match &self.table {
                Some(t) => Some(t@),
                None => None,
            },
        }
    }
}

/// A literal as written in SQL source. Floating-point literals carry their
/// decimal text: lowering reads only their type.
#[derive(Debug, PartialEq, Eq)]
pub enum Literal {
    Null,
    Boolean(bool),
    Integer(i64),
    UnsignedInteger(u64),
    /// A single-precision literal: its decimal text and printed precision.
    Float { repr: String, precision: u8 },
    /// A double-precision literal: its decimal text and printed precision.
    Double { repr: String, precision: u8 },
    String(String),
}

/// Mathematical model of a [`Literal`].
#[verifier::ext_equal]
pub enum LiteralV {
    Null,
    Boolean(bool),
    Integer(i64),
    UnsignedInteger(u64),
    Float { repr: Seq<char>, precision: u8 },
    Double { repr: Seq<char>, precision: u8 },
    String(Seq<char>),
}

impl View for Literal {
    type V = LiteralV;

    open spec fn view(&self) -> LiteralV {
        match self {
            Literal::Null => LiteralV::Null,
            Literal::Boolean(b) => LiteralV::Boolean(*b),
            Literal::Integer(i) => LiteralV::Integer(*i),
            Literal::UnsignedInteger(u) => LiteralV::UnsignedInteger(*u),
            Literal::Float { repr, precision } => LiteralV::Float { repr: repr@, precision: *precision },
            Literal::Double { repr, precision } => LiteralV::Double { repr: repr@, precision: *precision },
            Literal::String(s) => LiteralV::String(s@),
        }
    }
}

impl LiteralV {
    /// True exactly for string literals.
    pub open spec fn is_string(self) -> bool {
        self is String
    }

    /// The runtime value this literal denotes.
    pub open spec fn to_df_value(self) -> DfValueV {
        match self {
            LiteralV::Null => DfValueV::Null,
            LiteralV::Boolean(b) => DfValueV::Bool(b),
            LiteralV::Integer(i) => DfValueV::Int(i),
            LiteralV::UnsignedInteger(u) => DfValueV::UnsignedInt(u),
            LiteralV::Float { repr, .. } => DfValueV::Float(repr),
            LiteralV::Double { repr, .. } => DfValueV::Double(repr),
            LiteralV::String(s) => DfValueV::Text(s),
        }
    }
}

impl Literal {
    /// True exactly for string literals.
    pub fn is_string(&self) -> (r: bool)
        ensures
            r == self@.is_string(),
    {
        matches!(self, Literal::String(_))
    }

    /// Converts the literal to the runtime value it denotes.
    pub fn to_df_value(self) -> (v: DfValue)
        ensures
            v@ == self@.to_df_value(),
    {
        match self {
            Literal::Null => DfValue::Null,
            Literal::Boolean(b) => DfValue::Bool(b),
            Literal::Integer(i) => DfValue::Int(i),
            Literal::UnsignedInteger(u) => DfValue::UnsignedInt(u),
            Literal::Float { repr, .. } => DfValue::Float(repr),
            Literal::Double { repr, .. } => DfValue::Double(repr),
            Literal::String(s) => DfValue::Text(s),
        }
    }
}

/// The target type named in a SQL CAST.
#[derive(Debug, PartialEq, Eq)]
pub enum SqlType {
    Bool,
    Int,
    BigInt,
    UnsignedInt,
    UnsignedBigInt,
    Float,
    Double,
    Text,
    Date,
    Time,
    Timestamp,
    Json,
    Jsonb,
    Array(Box<SqlType>),
    /// A named custom type, resolved through the lowering context.
    Other(Relation),
}

/// Mathematical model of a [`SqlType`].
#[verifier::ext_equal]
pub enum SqlTypeV {
    Bool,
    Int,
    BigInt,
    UnsignedInt,
    UnsignedBigInt,
    Float,
    Double,
    Text,
    Date,
    Time,
    Timestamp,
    Json,
    Jsonb,
    Array(Box<SqlTypeV>),
    Other(RelationV),
}

/// Maps a cast target type to its mathematical model.
pub open spec fn sql_type_view(t: SqlType) -> SqlTypeV
    decreases t,
{
    match t {
        SqlType::Bool => SqlTypeV::Bool,
        SqlType::Int => SqlTypeV::Int,
        SqlType::BigInt => SqlTypeV::BigInt,
        SqlType::UnsignedInt => SqlTypeV::UnsignedInt,
        SqlType::UnsignedBigInt => SqlTypeV::UnsignedBigInt,
        SqlType::Float => SqlTypeV::Float,
        SqlType::Double => SqlTypeV::Double,
        SqlType::Text => SqlTypeV::Text,
        SqlType::Date => SqlTypeV::Date,
        SqlType::Time => SqlTypeV::Time,
        SqlType::Timestamp => SqlTypeV::Timestamp,
        SqlType::Json => SqlTypeV::Json,
        SqlType::Jsonb => SqlTypeV::Jsonb,
        SqlType::Array(elem) => SqlTypeV::Array(Box::new(sql_type_view(*elem))),
        SqlType::Other(rel) => SqlTypeV::Other(rel@),
    }
}

impl View for SqlType {
    type V = SqlTypeV;

    open spec fn view(&self) -> SqlTypeV {
        sql_type_view(*self)
    }
}

/// A unary operator as written in SQL source.
#[derive(Clone, Copy, Debug, PartialEq, Eq, Structural)]
pub enum UnaryOperator {
    Neg,
    Not,
}

/// A binary operator as written in SQL source, before resolution to a
/// canonical operator.
#[derive(Clone, Copy, Debug, PartialEq, Eq, Structural)]
pub enum SqlBinaryOperator {
    And,
    Or,
    Add,
    Subtract,
    Multiply,
    Divide,
    Like,
    NotLike,
    ILike,
    NotILike,
    Equal,
    NotEqual,
    Greater,
    GreaterOrEqual,
    Less,
    LessOrEqual,
    Is,
    IsNot,
    /// The JSON key-exists operator `?`.
    QuestionMark,
    /// The JSON any-key-exists operator `?|`.
    QuestionMarkPipe,
    /// The JSON all-keys-exist operator `?&`.
    QuestionMarkAnd,
    /// The JSON extract operator `->`.
    Arrow1,
    /// The JSON extract-as-text operator `->>`.
    Arrow2,
}

/// A function call as written in SQL source.
#[derive(Debug, PartialEq, Eq)]
pub enum FunctionExpr {
    /// An ordinary call by name.
    Call { name: String, arguments: Vec<AstExpr> },
    /// The `SUBSTRING(string FROM pos FOR len)` sugar.
    Substring { string: Box<AstExpr>, pos: Option<Box<AstExpr>>, len: Option<Box<AstExpr>> },
    /// Aggregates must be removed before lowering; reaching one here is an
    /// internal error.
    Avg { expr: Box<AstExpr>, distinct: bool },
    Count { expr: Box<AstExpr>, distinct: bool },
    CountStar,
    Sum { expr: Box<AstExpr>, distinct: bool },
    Max(Box<AstExpr>),
    Min(Box<AstExpr>),
    GroupConcat { expr: Box<AstExpr>, separator: Option<String> },
}

/// Mathematical model of a [`FunctionExpr`].
#[verifier::ext_equal]
pub enum FunctionExprV {
    Call { name: Seq<char>, arguments: Seq<AstExprV> },
    Substring { string: Box<AstExprV>, pos: Option<Box<AstExprV>>, len: Option<Box<AstExprV>> },
    Avg { expr: Box<AstExprV>, distinct: bool },
    Count { expr: Box<AstExprV>, distinct: bool },
    CountStar,
    Sum { expr: Box<AstExprV>, distinct: bool },
    Max(Box<AstExprV>),
    Min(Box<AstExprV>),
    GroupConcat { expr: Box<AstExprV>, separator: Option<Seq<char>> },
}

/// The right-hand side of an IN expression.
#[derive(Debug, PartialEq, Eq)]
pub enum InValue {
    /// An explicit value list.
    List(Vec<AstExpr>),
    /// An IN over a subquery must be desugared before lowering; reaching
    /// one here is an internal error.
    Subquery,
}

/// Mathematical model of an [`InValue`].
#[verifier::ext_equal]
pub enum InValueV {
    List(Seq<AstExprV>),
    Subquery,
}

/// One WHEN/THEN branch of a CASE expression, as written in SQL source.
#[derive(Debug, PartialEq, Eq)]
pub struct CaseWhenBranch {
    pub condition: AstExpr,
    pub body: AstExpr,
}

/// Mathematical model of a [`CaseWhenBranch`].
#[verifier::ext_equal]
pub struct CaseWhenBranchV {
    pub condition: AstExprV,
    pub body: AstExprV,
}

/// A scalar expression as produced by the SQL parser.
#[derive(Debug, PartialEq, Eq)]
pub enum AstExpr {
    Call(FunctionExpr),
    Literal(Literal),
    Column(Column),
    BinaryOp { lhs: Box<AstExpr>, op: SqlBinaryOperator, rhs: Box<AstExpr> },
    OpAny { lhs: Box<AstExpr>, op: SqlBinaryOperator, rhs: Box<AstExpr> },
    OpSome { lhs: Box<AstExpr>, op: SqlBinaryOperator, rhs: Box<AstExpr> },
    OpAll { lhs: Box<AstExpr>, op: SqlBinaryOperator, rhs: Box<AstExpr> },
    UnaryOp { op: UnaryOperator, rhs: Box<AstExpr> },
    Cast { expr: Box<AstExpr>, ty: SqlType, postgres_style: bool },
    CaseWhen { branches: Vec<CaseWhenBranch>, else_expr: Option<Box<AstExpr>> },
    In { lhs: Box<AstExpr>, rhs: InValue, negated: bool },
    Array(Vec<AstExpr>),
    /// An EXISTS subquery; always fails as unsupported, so the subquery
    /// itself is not represented.
    Exists,
    /// A free variable reference; always fails as unsupported.
    Variable(String),
    /// BETWEEN must be desugared before lowering.
    Between { operand: Box<AstExpr>, min: Box<AstExpr>, max: Box<AstExpr>, negated: bool },
    /// A scalar subquery must be desugared before lowering.
    NestedSelect,
}

/// Mathematical model of an [`AstExpr`].
#[verifier::ext_equal]
pub enum AstExprV {
    Call(FunctionExprV),
    Literal(LiteralV),
    Column(ColumnV),
    BinaryOp { lhs: Box<AstExprV>, op: SqlBinaryOperator, rhs: Box<AstExprV> },
    OpAny { lhs: Box<AstExprV>, op: SqlBinaryOperator, rhs: Box<AstExprV> },
    OpSome { lhs: Box<AstExprV>, op: SqlBinaryOperator, rhs: Box<AstExprV> },
    OpAll { lhs: Box<AstExprV>, op: SqlBinaryOperator, rhs: Box<AstExprV> },
    UnaryOp { op: UnaryOperator, rhs: Box<AstExprV> },
    Cast { expr: Box<AstExprV>, ty: SqlTypeV, postgres_style: bool },
    CaseWhen { branches: Seq<CaseWhenBranchV>, else_expr: Option<Box<AstExprV>> },
    In { lhs: Box<AstExprV>, rhs: InValueV, negated: bool },
    Array(Seq<AstExprV>),
    Exists,
    Variable(Seq<char>),
    Between { operand: Box<AstExprV>, min: Box<AstExprV>, max: Box<AstExprV>, negated: bool },
    NestedSelect,
}

/// Maps an AST expression to its mathematical model.
pub open spec fn ast_view(e: AstExpr) -> AstExprV
    decreases e,
{
    match e {
        AstExpr::Call(f) => AstExprV::Call(fn_expr_view(f)),
        AstExpr::Literal(l) => AstExprV::Literal(l@),
        AstExpr::Column(c) => AstExprV::Column(c@),
        AstExpr::BinaryOp { lhs, op, rhs } => AstExprV::BinaryOp {
            lhs: Box::new(ast_view(*lhs)),
            op,
            rhs: Box::new(ast_view(*rhs)),
        },
        AstExpr::OpAny { lhs, op, rhs } => AstExprV::OpAny {
            lhs: Box::new(ast_view(*lhs)),
            op,
            rhs: Box::new(ast_view(*rhs)),
        },
        AstExpr::OpSome { lhs, op, rhs } => AstExprV::OpSome {
            lhs: Box::new(ast_view(*lhs)),
            op,
            rhs: Box::new(ast_view(*rhs)),
        },
        AstExpr::OpAll { lhs, op, rhs } => AstExprV::OpAll {
            lhs: Box::new(ast_view(*lhs)),
            op,
            rhs: Box::new(ast_view(*rhs)),
        },
        AstExpr::UnaryOp { op, rhs } => AstExprV::UnaryOp { op, rhs: Box::new(ast_view(*rhs)) },
        AstExpr::Cast { expr, ty, postgres_style } => AstExprV::Cast {
            expr: Box::new(ast_view(*expr)),
            ty: sql_type_view(ty),
            postgres_style,
        },
        AstExpr::CaseWhen { branches, else_expr } => AstExprV::CaseWhen {
            branches: branches_view(branches@),
            else_expr: match else_expr {
                Some(b) => Some(Box::new(ast_view(*b))),
                None => None,
            },
        },
        AstExpr::In { lhs, rhs, negated } => AstExprV::In {
            lhs: Box::new(ast_view(*lhs)),
            rhs: in_value_view(rhs),
            negated,
        },
        AstExpr::Array(elems) => AstExprV::Array(ast_seq_view(elems@)),
        AstExpr::Exists => AstExprV::Exists,
        AstExpr::Variable(name) => AstExprV::Variable(name@),
        AstExpr::Between { operand, min, max, negated } => AstExprV::Between {
            operand: Box::new(ast_view(*operand)),
            min: Box::new(ast_view(*min)),
            max: Box::new(ast_view(*max)),
            negated,
        },
        AstExpr::NestedSelect => AstExprV::NestedSelect,
    }
}

/// Maps a sequence of AST expressions to their models, in order.
pub open spec fn ast_seq_view(s: Seq<AstExpr>) -> Seq<AstExprV>
    decreases s,
{
    if s.len() == 0 {
        Seq::empty()
    } else {
        ast_seq_view(s.subrange(0, s.len() - 1)).push(ast_view(s[s.len() - 1]))
    }
}

/// Maps a sequence of CASE branches to their models, in order.
pub open spec fn branches_view(s: Seq<CaseWhenBranch>) -> Seq<CaseWhenBranchV>
    decreases s,
{
    if s.len() == 0 {
        Seq::empty()
    } else {
        branches_view(s.subrange(0, s.len() - 1)).push(
            CaseWhenBranchV {
                condition: ast_view(s[s.len() - 1].condition),
                body: ast_view(s[s.len() - 1].body),
            },
        )
    }
}

/// Maps a function call to its mathematical model.
pub open spec fn fn_expr_view(f: FunctionExpr) -> FunctionExprV
    decreases f,
{
    match f {
        FunctionExpr::Call { name, arguments } => FunctionExprV::Call {
            name: name@,
            arguments: ast_seq_view(arguments@),
        },
        FunctionExpr::Substring { string, pos, len } => FunctionExprV::Substring {
            string: Box::new(ast_view(*string)),
            pos: match pos {
                Some(b) => Some(Box::new(ast_view(*b))),
                None => None,
            },
            len: match len {
                Some(b) => Some(Box::new(ast_view(*b))),
                None => None,
            },
        },
        FunctionExpr::Avg { expr, distinct } => FunctionExprV::Avg {
            expr: Box::new(ast_view(*expr)),
            distinct,
        },
        FunctionExpr::Count { expr, distinct } => FunctionExprV::Count {
            expr: Box::new(ast_view(*expr)),
            distinct,
        },
        FunctionExpr::CountStar => FunctionExprV::CountStar,
        FunctionExpr::Sum { expr, distinct } => FunctionExprV::Sum {
            expr: Box::new(ast_view(*expr)),
            distinct,
        },
        FunctionExpr::Max(e) => FunctionExprV::Max(Box::new(ast_view(*e))),
        FunctionExpr::Min(e) => FunctionExprV::Min(Box::new(ast_view(*e))),
        FunctionExpr::GroupConcat { expr, separator } => FunctionExprV::GroupConcat {
            expr: Box::new(ast_view(*expr)),
            separator: match separator {
                Some(s) => Some(s@),
                None => None,
            },
        },
    }
}

/// Maps an IN right-hand side to its mathematical model.
pub open spec fn in_value_view(v: InValue) -> InValueV
    decreases v,
{
    match v {
        InValue::List(elems) => InValueV::List(ast_seq_view(elems@)),
        InValue::Subquery => InValueV::Subquery,
    }
}

impl View for AstExpr {
    type V = AstExprV;

    open spec fn view(&self) -> AstExprV {
        ast_view(*self)
    }
}

/// The number of nodes in a modeled AST expression; the termination
/// measure of the recursive lowering functions. Always at least one.
pub open spec fn ast_size(e: AstExprV) -> nat
    decreases e,
{
    match e {
        AstExprV::Call(f) => 1 + fn_expr_size(f),
        AstExprV::Literal(_) => 1,
        AstExprV::Column(_) => 1,
        AstExprV::BinaryOp { lhs, rhs, .. } => 1 + ast_size(*lhs) + ast_size(*rhs),
        AstExprV::OpAny { lhs, rhs, .. } => 1 + ast_size(*lhs) + ast_size(*rhs),
        AstExprV::OpSome { lhs, rhs, .. } => 1 + ast_size(*lhs) + ast_size(*rhs),
        AstExprV::OpAll { lhs, rhs, .. } => 1 + ast_size(*lhs) + ast_size(*rhs),
        AstExprV::UnaryOp { rhs, .. } => 1 + ast_size(*rhs),
        AstExprV::Cast { expr, .. } => 1 + ast_size(*expr),
        AstExprV::CaseWhen { branches, else_expr } => 1 + branch_seq_size(branches) + match else_expr {
            Some(b) => ast_size(*b),
            None => 0,
        },
        AstExprV::In { lhs, rhs, .. } => 1 + ast_size(*lhs) + match rhs {
            InValueV::List(elems) => ast_seq_size(elems),
            InValueV::Subquery => 0,
        },
        AstExprV::Array(elems) => 1 + ast_seq_size(elems),
        AstExprV::Exists => 1,
        AstExprV::Variable(_) => 1,
        AstExprV::Between { operand, min, max, .. } => 1 + ast_size(*operand) + ast_size(*min)
            + ast_size(*max),
        AstExprV::NestedSelect => 1,
    }
}

/// Total node count of a sequence of modeled expressions.
pub open spec fn ast_seq_size(s: Seq<AstExprV>) -> nat
    decreases s,
{
    if s.len() == 0 {
        0
    } else {
        ast_seq_size(s.subrange(0, s.len() - 1)) + ast_size(s[s.len() - 1])
    }
}

/// Total node count of a sequence of modeled CASE branches.
pub open spec fn branch_seq_size(s: Seq<CaseWhenBranchV>) -> nat
    decreases s,
{
    if s.len() == 0 {
        0
    } else {
        branch_seq_size(s.subrange(0, s.len() - 1)) + ast_size(s[s.len() - 1].condition)
            + ast_size(s[s.len() - 1].body)
    }
}

/// Node count of a modeled function call's children.
pub open spec fn fn_expr_size(f: FunctionExprV) -> nat
    decreases f,
{
    match f {
        FunctionExprV::Call { arguments, .. } => ast_seq_size(arguments),
        FunctionExprV::Substring { string, pos, len } => ast_size(*string) + match pos {
            Some(b) => ast_size(*b),
            None => 0,
        } + match len {
            Some(b) => ast_size(*b),
            None => 0,
        },
        FunctionExprV::Avg { expr, .. } => ast_size(*expr),
        FunctionExprV::Count { expr, .. } => ast_size(*expr),
        FunctionExprV::CountStar => 0,
        FunctionExprV::Sum { expr, .. } => ast_size(*expr),
        FunctionExprV::Max(e) => ast_size(*e),
        FunctionExprV::Min(e) => ast_size(*e),
        FunctionExprV::GroupConcat { expr, .. } => ast_size(*expr),
    }
}

/// Every element of a modeled expression sequence counts no more nodes
/// than the whole sequence.
pub proof fn lemma_ast_seq_size_element(s: Seq<AstExprV>, i: int)
    requires
        0 <= i < s.len(),
    ensures
        ast_size(s[i]) <= ast_seq_size(s),
    decreases s.len(),
{
    if i == s.len() - 1 {
        assert(ast_seq_size(s) == ast_seq_size(s.subrange(0, s.len() - 1)) + ast_size(s[s.len() - 1]));
    } else {
        let front = s.subrange(0, s.len() - 1);
        lemma_ast_seq_size_element(front, i);
        assert(front[i] == s[i]);
    }
}

/// Every branch of a modeled branch sequence counts no more nodes than the
/// whole sequence.
pub proof fn lemma_branch_seq_size_element(s: Seq<CaseWhenBranchV>, i: int)
    requires
        0 <= i < s.len(),
    ensures
        ast_size(s[i].condition) + ast_size(s[i].body) <= branch_seq_size(s),
    decreases s.len(),
{
    if i == s.len() - 1 {
    } else {
        let front = s.subrange(0, s.len() - 1);
        lemma_branch_seq_size_element(front, i);
        assert(front[i] == s[i]);
    }
}

/// The model of a sequence of AST expressions has the same length, and its
/// elements are the models of the elements.
pub proof fn lemma_ast_seq_view(s: Seq<AstExpr>)
    ensures
        ast_seq_view(s).len() == s.len(),
        forall|i: int| 0 <= i < s.len() ==> #[trigger] ast_seq_view(s)[i] == ast_view(s[i]),
    decreases s.len(),
{
    if s.len() > 0 {
        let front = s.subrange(0, s.len() - 1);
        lemma_ast_seq_view(front);
        assert forall|i: int| 0 <= i < s.len() implies #[trigger] ast_seq_view(s)[i] == ast_view(s[i]) by {
            if i < s.len() - 1 {
                assert(front[i] == s[i]);
                assert(ast_seq_view(s)[i] == ast_seq_view(front)[i]);
            }
        }
    }
}

/// The model of a branch sequence has the same length, and its elements
/// are the models of the branches.
pub proof fn lemma_branches_view(s: Seq<CaseWhenBranch>)
    ensures
        branches_view(s).len() == s.len(),
        forall|i: int| 0 <= i < s.len() ==> #[trigger] branches_view(s)[i] == (CaseWhenBranchV {
            condition: ast_view(s[i].condition),
            body: ast_view(s[i].body),
        }),
    decreases s.len(),
{
    if s.len() > 0 {
        let front = s.subrange(0, s.len() - 1);
        lemma_branches_view(front);
        assert forall|i: int| 0 <= i < s.len() implies #[trigger] branches_view(s)[i] == (CaseWhenBranchV {
            condition: ast_view(s[i].condition),
            body: ast_view(s[i].body),
        }) by {
            if i < s.len() - 1 {
                assert(front[i] == s[i]);
                assert(branches_view(s)[i] == branches_view(front)[i]);
            }
        }
    }
}

} // verus!
