//! The expression lowering driver: walks the parsed syntax tree,
//! delegates to the operator and builtin resolvers and to the lowering
//! context, and produces the fully typed intermediate representation.

use vstd::prelude::*;

use crate::ast::{
    ast_seq_size, ast_seq_view, ast_size, ast_view, branch_seq_size, branches_view,
    lemma_ast_seq_size_element, lemma_ast_seq_view, lemma_branch_seq_size_element, sql_type_view,
    AstExpr, AstExprV, CaseWhenBranchV, Column, ColumnV, FunctionExpr, FunctionExprV, InValue,
    InValueV, Literal, LiteralV, Relation, RelationV, SqlBinaryOperator, SqlType, SqlTypeV,
    UnaryOperator,
};
use crate::builtins::builtin_result_view;
use crate::dialect::{Dialect, SqlEngine};
use crate::error::{ErrorV, ReadySetError};
use crate::expr::{
    expr_seq_view, expr_view, ir_branches_view, opt_expr_view, BinaryOperator, BuiltinFunction,
    CaseWhenBranch, Expr, ExprV,
};
use crate::operators::{
    argument_type_coercions_spec, from_sql_op_spec, op_result_view, output_type_spec,
};
use crate::strutil::string_eq;
use crate::types::{opt_ty_view, DfType, DfTypeV};
use crate::unify::{ty_result_view, tys_view, unify_postgres_types, unify_postgres_types_spec};
use crate::values::{DfValue, DfValueV};

verus! {

/// Model of a column-resolution result.
pub open spec fn resolve_result_view(
    r: Result<(usize, DfType), ReadySetError>,
) -> Result<(usize, DfTypeV), ErrorV> {
    match r {
        Ok(p) => Ok((p.0, p.1@)),
        Err(e) => Err(e@),
    }
}

/// Context supplied to expression lowering to resolve references to
/// objects within the schema. Each method is specified by a mathematical
/// model of the same lookup, so lowering's own model can speak of the
/// context's answers.
pub trait LowerContext {
    /// The model of column resolution: the answer `resolve_column` gives
    /// for a column with the given model.
    spec fn resolve_column_model(&self, col: ColumnV) -> Result<(usize, DfTypeV), ErrorV>;

    /// The model of custom-type resolution: the answer `resolve_type`
    /// gives for a name with the given model.
    spec fn resolve_type_model(&self, ty: RelationV) -> Option<DfTypeV>;

    /// Looks up a column in the parent of the node containing this
    /// expression, returning its column index and type.
    fn resolve_column(&self, col: Column) -> (r: Result<(usize, DfType), ReadySetError>)
        ensures
            resolve_result_view(r) == self.resolve_column_model(col@);

    /// Looks up a named custom type in the schema.
    fn resolve_type(&self, ty: Relation) -> (r: Option<DfType>)
        ensures
            opt_ty_view(r) == self.resolve_type_model(ty@);
}

/// Resolution of a SQL cast target to a dataflow type: plain names map
/// directly (single-precision floats are MySQL-only; PostgreSQL reads
/// `float` as double precision), time-like types receive the dialect's
/// default subsecond precision, array types resolve elementwise, and a
/// named custom type is answered by the context or fails as invalid.
pub open spec fn from_sql_type_spec<C: LowerContext>(t: SqlTypeV, d: Dialect, ctx: &C) -> Result<
    DfTypeV,
    ErrorV,
>
    decreases t,
{
    match t {
        SqlTypeV::Bool => Ok(DfTypeV::Bool),
        SqlTypeV::Int => Ok(DfTypeV::Int),
        SqlTypeV::BigInt => Ok(DfTypeV::BigInt),
        SqlTypeV::UnsignedInt => Ok(DfTypeV::UnsignedInt),
        SqlTypeV::UnsignedBigInt => Ok(DfTypeV::UnsignedBigInt),
        SqlTypeV::Float => Ok(
            match d.engine {
                SqlEngine::PostgreSQL => DfTypeV::Double,
                _ => DfTypeV::Float,
            },
        ),
        SqlTypeV::Double => Ok(DfTypeV::Double),
        SqlTypeV::Text => Ok(DfTypeV::default_text()),
        SqlTypeV::Date => Ok(DfTypeV::Date),
        SqlTypeV::Time => Ok(
            DfTypeV::Time { subsecond_digits: d.spec_default_subsecond_digits() },
        ),
        SqlTypeV::Timestamp => Ok(
            DfTypeV::Timestamp { subsecond_digits: d.spec_default_subsecond_digits() },
        ),
        SqlTypeV::Json => Ok(DfTypeV::Json),
        SqlTypeV::Jsonb => Ok(DfTypeV::Jsonb),
        SqlTypeV::Array(elem) => match from_sql_type_spec(*elem, d, ctx) {
            Ok(e) => Ok(DfTypeV::Array(Box::new(e))),
            Err(e) => Err(e),
        },
        SqlTypeV::Other(rel) => match ctx.resolve_type_model(rel) {
            Some(ty) => Ok(ty),
            None => Err(ErrorV::Invalid("unknown custom type in cast target"@)),
        },
    }
}

/// Resolves a SQL cast target to a dataflow type, consulting the context
/// for named custom types.
pub fn from_sql_type<C: LowerContext>(t: &SqlType, dialect: Dialect, context: &C) -> (r: Result<
    DfType,
    ReadySetError,
>)
    ensures
        ty_result_view(r) == from_sql_type_spec(t@, dialect, context),
    decreases *t,
{
    match t {
        SqlType::Bool => Ok(DfType::Bool),
        SqlType::Int => Ok(DfType::Int),
        SqlType::BigInt => Ok(DfType::BigInt),
        SqlType::UnsignedInt => Ok(DfType::UnsignedInt),
        SqlType::UnsignedBigInt => Ok(DfType::UnsignedBigInt),
        SqlType::Float => Ok(
            match dialect.engine() {
                SqlEngine::PostgreSQL => DfType::Double,
                _ => DfType::Float,
            },
        ),
        SqlType::Double => Ok(DfType::Double),
        SqlType::Text => Ok(DfType::default_text()),
        SqlType::Date => Ok(DfType::Date),
        SqlType::Time => Ok(DfType::Time { subsecond_digits: dialect.default_subsecond_digits() }),
        SqlType::Timestamp => Ok(
            DfType::Timestamp { subsecond_digits: dialect.default_subsecond_digits() },
        ),
        SqlType::Json => Ok(DfType::Json),
        SqlType::Jsonb => Ok(DfType::Jsonb),
        SqlType::Array(elem) => match from_sql_type(elem, dialect, context) {
            Ok(e) => Ok(DfType::Array(Box::new(e))),
            Err(e) => Err(e),
        },
        SqlType::Other(rel) => {
            let rel_arg = Relation {
                schema: crate::strutil::opt_string_copy(&rel.schema),
                name: crate::strutil::string_copy(&rel.name),
            };
            proof {
                assert(rel_arg@ =~= rel@);
            }
            match context.resolve_type(rel_arg) {
                Some(ty) => Ok(ty),
                None => Err(ReadySetError::invalid("unknown custom type in cast target")),
            }
        }
    }
}

/// The node count of an optional boxed expression.
pub open spec fn opt_ast_size(o: Option<Box<AstExprV>>) -> nat {
    match o {
        Some(b) => ast_size(*b),
        None => 0,
    }
}

/// Lowering of a literal: its runtime value plus its natural type, except
/// that PostgreSQL string literals are deliberately typed unknown,
/// matching that engine's untyped-literal concept.
pub open spec fn lower_literal_spec(lit: LiteralV, d: Dialect) -> ExprV {
    let val = lit.to_df_value();
    let ty = if lit.is_string() && d.engine == SqlEngine::PostgreSQL {
        DfTypeV::Unknown
    } else {
        val.infer_dataflow_type()
    };
    ExprV::Literal { val, ty }
}

/// The per-dimension lengths of a nested array literal, read from the
/// first element at each nesting level.
pub open spec fn shape_spec(e: AstExprV) -> Seq<usize>
    decreases e,
{
    match e {
        AstExprV::Array(elems) => Seq::empty().push(elems.len() as usize) + (
            if elems.len() > 0 {
                shape_spec(elems[0])
            } else {
                Seq::empty()
            }
        ),
        _ => Seq::empty(),
    }
}

/// Wraps a type in the given number of array layers.
pub open spec fn wrap_array_layers(t: DfTypeV, n: nat) -> DfTypeV
    decreases n,
{
    if n == 0 {
        t
    } else {
        DfTypeV::Array(Box::new(wrap_array_layers(t, (n - 1) as nat)))
    }
}

/// Every expression counts at least one node.
pub proof fn lemma_ast_size_pos(e: AstExprV)
    ensures
        ast_size(e) >= 1,
{
    match e {
        AstExprV::Call(_) => {},
        AstExprV::Literal(_) => {},
        AstExprV::Column(_) => {},
        AstExprV::BinaryOp { .. } => {},
        AstExprV::OpAny { .. } => {},
        AstExprV::OpSome { .. } => {},
        AstExprV::OpAll { .. } => {},
        AstExprV::UnaryOp { .. } => {},
        AstExprV::Cast { .. } => {},
        AstExprV::CaseWhen { .. } => {},
        AstExprV::In { .. } => {},
        AstExprV::Array(_) => {},
        AstExprV::Exists => {},
        AstExprV::Variable(_) => {},
        AstExprV::Between { .. } => {},
        AstExprV::NestedSelect => {},
    }
}

/// Model of expression lowering: the typed node the driver produces for
/// the given syntax tree, dialect, and context, or the error it fails
/// with. Lowering is a pure function of these three inputs; each kind of
/// node has its own resolution model below.
pub open spec fn lower_spec<C: LowerContext>(e: AstExprV, d: Dialect, ctx: &C) -> Result<
    ExprV,
    ErrorV,
>
    decreases ast_size(e), 0nat,
    via lower_spec_decreases::<C>
{
    match e {
        AstExprV::Call(FunctionExprV::Call { name, arguments }) => call_args_spec(
            name,
            arguments,
            d,
            ctx,
        ),
        AstExprV::Call(FunctionExprV::Substring { string, pos, len }) => substring_spec(
            *string,
            pos,
            len,
            d,
            ctx,
        ),
        AstExprV::Call(_) => Err(
            ErrorV::Internal("unexpected aggregate call in scalar expression lowering"@),
        ),
        AstExprV::Literal(lit) => Ok(lower_literal_spec(lit, d)),
        AstExprV::Column(col) => match ctx.resolve_column_model(col) {
            Err(er) => Err(er),
            Ok(p) => Ok(ExprV::Column { index: p.0, ty: p.1 }),
        },
        AstExprV::BinaryOp { lhs, op, rhs } => binary_op_spec(*lhs, op, *rhs, d, ctx),
        AstExprV::OpAny { lhs, op, rhs } => lower_op_any_all_spec(*lhs, op, *rhs, d, ctx, false),
        AstExprV::OpSome { lhs, op, rhs } => lower_op_any_all_spec(*lhs, op, *rhs, d, ctx, false),
        AstExprV::OpAll { lhs, op, rhs } => lower_op_any_all_spec(*lhs, op, *rhs, d, ctx, true),
        AstExprV::UnaryOp { op: UnaryOperator::Neg, rhs } => match lower_spec(*rhs, d, ctx) {
            Err(er) => Err(er),
            Ok(left) => {
                let ty = left.ty();
                Ok(
                    ExprV::Op {
                        op: BinaryOperator::Multiply,
                        left: Box::new(left),
                        right: Box::new(
                            ExprV::Literal { val: DfValueV::Int(-1i64), ty: DfTypeV::Int },
                        ),
                        ty,
                    },
                )
            },
        },
        AstExprV::UnaryOp { op: UnaryOperator::Not, rhs } => match lower_spec(*rhs, d, ctx) {
            Err(er) => Err(er),
            Ok(inner) => Ok(ExprV::Not { expr: Box::new(inner), ty: DfTypeV::Bool }),
        },
        AstExprV::Cast { expr, ty, .. } => match from_sql_type_spec(ty, d, ctx) {
            Err(er) => Err(er),
            Ok(target) => match lower_spec(*expr, d, ctx) {
                Err(er) => Err(er),
                Ok(inner) => Ok(
                    ExprV::Cast { expr: Box::new(inner), ty: target, null_on_failure: false },
                ),
            },
        },
        AstExprV::CaseWhen { branches, else_expr } => case_when_spec(branches, else_expr, d, ctx),
        AstExprV::In { lhs, rhs: InValueV::List(elems), negated } => in_list_spec(
            *lhs,
            elems,
            negated,
            d,
            ctx,
        ),
        AstExprV::In { .. } => Err(
            ErrorV::Internal("expression should have been desugared before lowering"@),
        ),
        AstExprV::Array(elems) => array_spec(elems, d, ctx),
        AstExprV::Exists => Err(ErrorV::Unsupported("EXISTS not currently supported"@)),
        AstExprV::Variable(_) => Err(ErrorV::Unsupported("variables not currently supported"@)),
        AstExprV::Between { .. } => Err(
            ErrorV::Internal("expression should have been desugared before lowering"@),
        ),
        AstExprV::NestedSelect => Err(
            ErrorV::Internal("expression should have been desugared before lowering"@),
        ),
    }
}

#[via_fn]
proof fn lower_spec_decreases<C: LowerContext>(e: AstExprV, d: Dialect, ctx: &C) {
    match e {
        AstExprV::Call(f) => {
            assert(ast_size(e) == 1 + crate::ast::fn_expr_size(f));
            match f {
                FunctionExprV::Call { name, arguments } => {
                    assert(crate::ast::fn_expr_size(f) == ast_seq_size(arguments));
                },
                FunctionExprV::Substring { string, pos, len } => {
                    assert(crate::ast::fn_expr_size(f) == ast_size(*string) + opt_ast_size(pos)
                        + opt_ast_size(len));
                },
                _ => {},
            }
        },
        _ => {},
    }
}

/// Resolution model of an ordinary function call: the arguments are
/// lowered left to right and handed to the builtin resolver.
#[verifier::opaque]
pub open spec fn call_args_spec<C: LowerContext>(
    name: Seq<char>,
    arguments: Seq<AstExprV>,
    d: Dialect,
    ctx: &C,
) -> Result<ExprV, ErrorV>
    decreases ast_seq_size(arguments), 2nat,
{
    match lower_seq_spec(arguments, d, ctx) {
        Err(er) => Err(er),
        Ok(args) => match crate::builtins::from_name_and_args_spec(name, args, d) {
            Err(er) => Err(er),
            Ok(p) => Ok(ExprV::Call { func: Box::new(p.0), ty: p.1 }),
        },
    }
}

/// Resolution model of the SUBSTRING sugar: the subject keeps its text
/// type (default text otherwise), and the position and length are lowered
/// without the casts the ordinary call form applies.
#[verifier::opaque]
pub open spec fn substring_spec<C: LowerContext>(
    string: AstExprV,
    pos: Option<Box<AstExprV>>,
    len: Option<Box<AstExprV>>,
    d: Dialect,
    ctx: &C,
) -> Result<ExprV, ErrorV>
    decreases ast_size(string) + opt_ast_size(pos) + opt_ast_size(len), 2nat,
{
    match lower_spec(string, d, ctx) {
        Err(er) => Err(er),
        Ok(string_l) => {
            let ty = if string_l.ty().is_any_text() {
                string_l.ty()
            } else {
                DfTypeV::default_text()
            };
            match lower_opt_spec(pos, d, ctx) {
                Err(er) => Err(er),
                Ok(pos_l) => match lower_opt_spec(len, d, ctx) {
                    Err(er) => Err(er),
                    Ok(len_l) => Ok(
                        ExprV::Call {
                            func: Box::new(
                                crate::expr::BuiltinFunctionV::Substring(string_l, pos_l, len_l),
                            ),
                            ty,
                        },
                    ),
                },
            }
        },
    }
}

/// Resolution model of an ordinary binary operation: both sides are
/// lowered, the operator resolved, MySQL JSON path extraction rejected,
/// the output type computed, coercion casts inserted, and the node
/// wrapped in NOT when the operator was a negated form.
#[verifier::opaque]
pub open spec fn binary_op_spec<C: LowerContext>(
    lhs: AstExprV,
    op: SqlBinaryOperator,
    rhs: AstExprV,
    d: Dialect,
    ctx: &C,
) -> Result<ExprV, ErrorV>
    decreases ast_size(lhs) + ast_size(rhs), 1nat,
{
    match lower_spec(lhs, d, ctx) {
        Err(er) => Err(er),
        Ok(left) => match lower_spec(rhs, d, ctx) {
            Err(er) => Err(er),
            Ok(right) => match from_sql_op_spec(op, d) {
                Err(er) => Err(er),
                Ok(p) => {
                    let cop = p.0;
                    let negated = p.1;
                    if cop is JsonPathExtract || cop is JsonPathExtractUnquote {
                        Err(
                            ErrorV::Unsupported(
                                "JSON path extraction is not implemented for MySQL"@,
                            ),
                        )
                    } else {
                        match output_type_spec(cop, left.ty(), right.ty()) {
                            Err(er) => Err(er),
                            Ok(ty) => {
                                let targets = argument_type_coercions_spec(
                                    cop,
                                    left.ty(),
                                    right.ty(),
                                );
                                let left2 = match targets.0 {
                                    Some(t) => ExprV::Cast {
                                        expr: Box::new(left),
                                        ty: t,
                                        null_on_failure: false,
                                    },
                                    None => left,
                                };
                                let right2 = match targets.1 {
                                    Some(t) => ExprV::Cast {
                                        expr: Box::new(right),
                                        ty: t,
                                        null_on_failure: false,
                                    },
                                    None => right,
                                };
                                let node = ExprV::Op {
                                    op: cop,
                                    left: Box::new(left2),
                                    right: Box::new(right2),
                                    ty,
                                };
                                if negated {
                                    Ok(ExprV::Not { expr: Box::new(node), ty: DfTypeV::Bool })
                                } else {
                                    Ok(node)
                                }
                            },
                        }
                    }
                },
            },
        },
    }
}

/// Resolution model of a CASE expression: every branch is lowered left to
/// right, a CASE without branches is an internal error, the result type
/// is the first branch's body type, and a missing ELSE becomes an untyped
/// NULL literal.
#[verifier::opaque]
pub open spec fn case_when_spec<C: LowerContext>(
    branches: Seq<CaseWhenBranchV>,
    else_expr: Option<Box<AstExprV>>,
    d: Dialect,
    ctx: &C,
) -> Result<ExprV, ErrorV>
    decreases branch_seq_size(branches) + opt_ast_size(else_expr), 3nat,
{
    match lower_branches_spec(branches, d, ctx) {
        Err(er) => Err(er),
        Ok(brs) => if brs.len() == 0 {
            Err(ErrorV::Internal("CASE expression cannot have zero branches"@))
        } else {
            match lower_opt_spec(else_expr, d, ctx) {
                Err(er) => Err(er),
                Ok(else_l) => Ok(
                    ExprV::CaseWhen {
                        branches: brs,
                        else_expr: Box::new(
                            match else_l {
                                Some(x) => x,
                                None => ExprV::Literal {
                                    val: DfValueV::Null,
                                    ty: DfTypeV::Unknown,
                                },
                            },
                        ),
                        ty: brs[0].body.ty(),
                    },
                ),
            }
        },
    }
}

/// Resolution model of an IN list: an empty list becomes the documented
/// boundary literal without touching the left operand; otherwise the left
/// operand is lowered once and folded against every element.
#[verifier::opaque]
pub open spec fn in_list_spec<C: LowerContext>(
    lhs: AstExprV,
    elems: Seq<AstExprV>,
    negated: bool,
    d: Dialect,
    ctx: &C,
) -> Result<ExprV, ErrorV>
    decreases ast_size(lhs) + ast_seq_size(elems), 3nat,
{
    if elems.len() == 0 {
        if negated {
            Ok(ExprV::Literal { val: DfValueV::Int(1), ty: DfTypeV::Bool })
        } else {
            Ok(ExprV::Literal { val: DfValueV::Null, ty: DfTypeV::Bool })
        }
    } else {
        match lower_spec(lhs, d, ctx) {
            Err(er) => Err(er),
            Ok(lhs_l) => in_fold_spec(lhs_l, elems, negated, d, ctx),
        }
    }
}

/// Resolution model of an array literal: the leaves are flattened and
/// lowered in order, their types unified under PostgreSQL's rules, and
/// the unified type wrapped in one array layer per discovered dimension.
#[verifier::opaque]
pub open spec fn array_spec<C: LowerContext>(elems: Seq<AstExprV>, d: Dialect, ctx: &C) -> Result<
    ExprV,
    ErrorV,
>
    decreases ast_seq_size(elems), 3nat,
{
    match flatten_seq_spec(elems, d, ctx) {
        Err(er) => Err(er),
        Ok(flat) => match unify_postgres_types_spec(crate::builtins::tys_of(flat)) {
            Err(er) => Err(er),
            Ok(u) => Ok(
                ExprV::Array {
                    elements: flat,
                    shape: shape_spec(AstExprV::Array(elems)),
                    ty: wrap_array_layers(u, shape_spec(AstExprV::Array(elems)).len()),
                },
            ),
        },
    }
}


/// Model of lowering a list of expressions left to right, stopping at the
/// first failure.
pub open spec fn lower_seq_spec<C: LowerContext>(s: Seq<AstExprV>, d: Dialect, ctx: &C) -> Result<
    Seq<ExprV>,
    ErrorV,
>
    decreases ast_seq_size(s), 1nat,
    via lower_seq_spec_decreases::<C>
{
    if s.len() == 0 {
        Ok(Seq::empty())
    } else {
        match lower_seq_spec(s.subrange(0, s.len() - 1), d, ctx) {
            Err(er) => Err(er),
            Ok(init) => match lower_spec(s[s.len() - 1], d, ctx) {
                Err(er) => Err(er),
                Ok(x) => Ok(init.push(x)),
            },
        }
    }
}

#[via_fn]
proof fn lower_seq_spec_decreases<C: LowerContext>(s: Seq<AstExprV>, d: Dialect, ctx: &C) {
    if s.len() > 0 {
        lemma_ast_size_pos(s[s.len() - 1]);
        assert(ast_seq_size(s) == ast_seq_size(s.subrange(0, s.len() - 1)) + ast_size(
            s[s.len() - 1],
        ));
    }
}

/// Model of lowering an optional expression.
pub open spec fn lower_opt_spec<C: LowerContext>(
    o: Option<Box<AstExprV>>,
    d: Dialect,
    ctx: &C,
) -> Result<Option<ExprV>, ErrorV>
    decreases opt_ast_size(o), 1nat,
{
    match o {
        None => Ok(None),
        Some(b) => match lower_spec(*b, d, ctx) {
            Err(er) => Err(er),
            Ok(x) => Ok(Some(x)),
        },
    }
}

/// Model of lowering one CASE branch: its condition, then its body.
pub open spec fn lower_branch_one_spec<C: LowerContext>(
    b: CaseWhenBranchV,
    d: Dialect,
    ctx: &C,
) -> Result<crate::expr::CaseWhenBranchV, ErrorV>
    decreases ast_size(b.condition) + ast_size(b.body), 1nat,
{
    match lower_spec(b.condition, d, ctx) {
        Err(er) => Err(er),
        Ok(c) => match lower_spec(b.body, d, ctx) {
            Err(er) => Err(er),
            Ok(bd) => Ok(crate::expr::CaseWhenBranchV { condition: c, body: bd }),
        },
    }
}

/// Model of lowering the branches of a CASE left to right.
pub open spec fn lower_branches_spec<C: LowerContext>(
    s: Seq<CaseWhenBranchV>,
    d: Dialect,
    ctx: &C,
) -> Result<Seq<crate::expr::CaseWhenBranchV>, ErrorV>
    decreases branch_seq_size(s), 2nat,
    via lower_branches_spec_decreases::<C>
{
    if s.len() == 0 {
        Ok(Seq::empty())
    } else {
        match lower_branches_spec(s.subrange(0, s.len() - 1), d, ctx) {
            Err(er) => Err(er),
            Ok(init) => match lower_branch_one_spec(s[s.len() - 1], d, ctx) {
                Err(er) => Err(er),
                Ok(b) => Ok(init.push(b)),
            },
        }
    }
}

#[via_fn]
proof fn lower_branches_spec_decreases<C: LowerContext>(s: Seq<CaseWhenBranchV>, d: Dialect, ctx: &C) {
    if s.len() > 0 {
        lemma_ast_size_pos(s[s.len() - 1].condition);
        assert(branch_seq_size(s) == branch_seq_size(s.subrange(0, s.len() - 1)) + ast_size(
            s[s.len() - 1].condition,
        ) + ast_size(s[s.len() - 1].body));
    }
}

/// Model of one IN-list comparison: the element is lowered and compared
/// for equality against the already-lowered left operand, negated for
/// NOT IN.
pub open spec fn in_comparison_spec<C: LowerContext>(
    lhs_l: ExprV,
    el: AstExprV,
    negated: bool,
    d: Dialect,
    ctx: &C,
) -> Result<ExprV, ErrorV>
    decreases ast_size(el), 1nat,
{
    match lower_spec(el, d, ctx) {
        Err(er) => Err(er),
        Ok(r) => {
            let equal = ExprV::Op {
                op: BinaryOperator::Equal,
                left: Box::new(lhs_l),
                right: Box::new(r),
                ty: DfTypeV::Bool,
            };
            if negated {
                Ok(ExprV::Not { expr: Box::new(equal), ty: DfTypeV::Bool })
            } else {
                Ok(equal)
            }
        },
    }
}

/// Model of desugaring a non-empty IN list: a left-associated chain of
/// comparisons joined by OR (AND with negated comparisons for NOT IN).
pub open spec fn in_fold_spec<C: LowerContext>(
    lhs_l: ExprV,
    elems: Seq<AstExprV>,
    negated: bool,
    d: Dialect,
    ctx: &C,
) -> Result<ExprV, ErrorV>
    decreases ast_seq_size(elems), 2nat,
    via in_fold_spec_decreases::<C>
{
    if elems.len() == 0 {
        Ok(lhs_l)
    } else if elems.len() == 1 {
        in_comparison_spec(lhs_l, elems[0], negated, d, ctx)
    } else {
        match in_fold_spec(lhs_l, elems.subrange(0, elems.len() - 1), negated, d, ctx) {
            Err(er) => Err(er),
            Ok(acc) => match in_comparison_spec(lhs_l, elems[elems.len() - 1], negated, d, ctx) {
                Err(er) => Err(er),
                Ok(c) => Ok(
                    ExprV::Op {
                        op: if negated {
                            BinaryOperator::And
                        } else {
                            BinaryOperator::Or
                        },
                        left: Box::new(acc),
                        right: Box::new(c),
                        ty: DfTypeV::Bool,
                    },
                ),
            },
        }
    }
}

#[via_fn]
proof fn in_fold_spec_decreases<C: LowerContext>(
    lhs_l: ExprV,
    elems: Seq<AstExprV>,
    negated: bool,
    d: Dialect,
    ctx: &C,
) {
    if elems.len() > 1 {
        lemma_ast_size_pos(elems[elems.len() - 1]);
        assert(ast_seq_size(elems) == ast_seq_size(elems.subrange(0, elems.len() - 1)) + ast_size(
            elems[elems.len() - 1],
        ));
    }
}

/// Model of flattening one array-literal element: a nested array
/// contributes its own flattening, anything else contributes its lowered
/// self.
pub open spec fn flatten_one_spec<C: LowerContext>(e: AstExprV, d: Dialect, ctx: &C) -> Result<
    Seq<ExprV>,
    ErrorV,
>
    decreases ast_size(e), 1nat,
{
    match e {
        AstExprV::Array(inner) => flatten_seq_spec(inner, d, ctx),
        other => match lower_spec(other, d, ctx) {
            Err(er) => Err(er),
            Ok(x) => Ok(Seq::empty().push(x)),
        },
    }
}

/// Model of flattening the leaves of a nested array literal into one
/// ordered list, left to right.
pub open spec fn flatten_seq_spec<C: LowerContext>(s: Seq<AstExprV>, d: Dialect, ctx: &C) -> Result<
    Seq<ExprV>,
    ErrorV,
>
    decreases ast_seq_size(s), 2nat,
    via flatten_seq_spec_decreases::<C>
{
    if s.len() == 0 {
        Ok(Seq::empty())
    } else {
        match flatten_seq_spec(s.subrange(0, s.len() - 1), d, ctx) {
            Err(er) => Err(er),
            Ok(init) => match flatten_one_spec(s[s.len() - 1], d, ctx) {
                Err(er) => Err(er),
                Ok(tail) => Ok(init + tail),
            },
        }
    }
}

#[via_fn]
proof fn flatten_seq_spec_decreases<C: LowerContext>(s: Seq<AstExprV>, d: Dialect, ctx: &C) {
    if s.len() > 0 {
        lemma_ast_size_pos(s[s.len() - 1]);
        assert(ast_seq_size(s) == ast_seq_size(s.subrange(0, s.len() - 1)) + ast_size(
            s[s.len() - 1],
        ));
    }
}

/// Model of lowering a quantified comparison: the right-hand side must be
/// an array (or still untyped); the resolved operator must yield a
/// boolean over the left type and the right-hand member type; coercions
/// apply as for ordinary comparisons except that a right-hand target is
/// wrapped in one extra array layer, and a non-array right-hand side is
/// cast to an array of unknown to keep the array-shape invariant.
#[verifier::opaque]
pub open spec fn lower_op_any_all_spec<C: LowerContext>(
    lhs: AstExprV,
    op: SqlBinaryOperator,
    rhs: AstExprV,
    d: Dialect,
    ctx: &C,
    is_all: bool,
) -> Result<ExprV, ErrorV>
    decreases ast_size(lhs) + ast_size(rhs), 1nat,
{
    match lower_spec(lhs, d, ctx) {
        Err(er) => Err(er),
        Ok(left) => match lower_spec(rhs, d, ctx) {
            Err(er) => Err(er),
            Ok(right) => match from_sql_op_spec(op, d) {
                Err(er) => Err(er),
                Ok(p) => {
                    let cop = p.0;
                    let negated = p.1;
                    let is_all2 = if negated {
                        !is_all
                    } else {
                        is_all
                    };
                    if !right.ty().is_array() && !right.ty().is_unknown() {
                        Err(
                            ErrorV::Invalid(
                                "op ANY/ALL (array) requires an array on the right-hand side"@,
                            ),
                        )
                    } else {
                        let member_ty = if right.ty().is_array() {
                            right.ty().innermost_array_type()
                        } else {
                            DfTypeV::Unknown
                        };
                        match output_type_spec(cop, left.ty(), member_ty) {
                            Err(er) => Err(er),
                            Ok(ty) => if !ty.is_bool() {
                                Err(
                                    ErrorV::Invalid(
                                        "op ANY/ALL (array) requires the operator to yield a boolean"@,
                                    ),
                                )
                            } else {
                                let targets = argument_type_coercions_spec(
                                    cop,
                                    left.ty(),
                                    member_ty,
                                );
                                let left2 = match targets.0 {
                                    Some(t) => ExprV::Cast {
                                        expr: Box::new(left),
                                        ty: t,
                                        null_on_failure: false,
                                    },
                                    None => left,
                                };
                                let right2 = match targets.1 {
                                    Some(t) => ExprV::Cast {
                                        expr: Box::new(right),
                                        ty: DfTypeV::Array(Box::new(t)),
                                        null_on_failure: false,
                                    },
                                    None => if !right.ty().is_array() {
                                        ExprV::Cast {
                                            expr: Box::new(right),
                                            ty: DfTypeV::Array(Box::new(DfTypeV::Unknown)),
                                            null_on_failure: false,
                                        }
                                    } else {
                                        right
                                    },
                                };
                                let node = if is_all2 {
                                    ExprV::OpAll {
                                        op: cop,
                                        left: Box::new(left2),
                                        right: Box::new(right2),
                                        ty,
                                    }
                                } else {
                                    ExprV::OpAny {
                                        op: cop,
                                        left: Box::new(left2),
                                        right: Box::new(right2),
                                        ty,
                                    }
                                };
                                if negated {
                                    Ok(ExprV::Not { expr: Box::new(node), ty: DfTypeV::Bool })
                                } else {
                                    Ok(node)
                                }
                            },
                        }
                    }
                },
            },
        },
    }
}

/// If a prefix of the list lowers cleanly and the next element fails,
/// the whole list fails with that element's error.
pub proof fn lemma_lower_seq_first_err<C: LowerContext>(s: Seq<AstExprV>, i: int, d: Dialect, ctx: &C)
    requires
        0 <= i < s.len(),
        lower_seq_spec(s.subrange(0, i), d, ctx) is Ok,
        lower_spec(s[i], d, ctx) is Err,
    ensures
        lower_seq_spec(s, d, ctx) == Err::<Seq<ExprV>, ErrorV>(lower_spec(s[i], d, ctx)->Err_0),
    decreases s.len(),
{
    let front = s.subrange(0, s.len() - 1);
    if i == s.len() - 1 {
        assert(front =~= s.subrange(0, i));
    } else {
        assert(front.subrange(0, i) =~= s.subrange(0, i));
        assert(front[i] == s[i]);
        lemma_lower_seq_first_err(front, i, d, ctx);
    }
}

/// If a prefix of the branches lowers cleanly and the next branch fails,
/// the whole branch list fails with that branch's error.
pub proof fn lemma_branches_first_err<C: LowerContext>(
    s: Seq<CaseWhenBranchV>,
    i: int,
    d: Dialect,
    ctx: &C,
)
    requires
        0 <= i < s.len(),
        lower_branches_spec(s.subrange(0, i), d, ctx) is Ok,
        lower_branch_one_spec(s[i], d, ctx) is Err,
    ensures
        lower_branches_spec(s, d, ctx) == Err::<Seq<crate::expr::CaseWhenBranchV>, ErrorV>(
            lower_branch_one_spec(s[i], d, ctx)->Err_0,
        ),
    decreases s.len(),
{
    let front = s.subrange(0, s.len() - 1);
    if i == s.len() - 1 {
        assert(front =~= s.subrange(0, i));
    } else {
        assert(front.subrange(0, i) =~= s.subrange(0, i));
        assert(front[i] == s[i]);
        lemma_branches_first_err(front, i, d, ctx);
    }
}

/// If a prefix of the IN list folds cleanly and the next comparison
/// fails, the whole fold fails with that comparison's error.
pub proof fn lemma_in_fold_first_err<C: LowerContext>(
    lhs_l: ExprV,
    s: Seq<AstExprV>,
    i: int,
    negated: bool,
    d: Dialect,
    ctx: &C,
)
    requires
        0 <= i < s.len(),
        i > 0 ==> in_fold_spec(lhs_l, s.subrange(0, i), negated, d, ctx) is Ok,
        in_comparison_spec(lhs_l, s[i], negated, d, ctx) is Err,
    ensures
        in_fold_spec(lhs_l, s, negated, d, ctx) == Err::<ExprV, ErrorV>(
            in_comparison_spec(lhs_l, s[i], negated, d, ctx)->Err_0,
        ),
    decreases s.len(),
{
    let front = s.subrange(0, s.len() - 1);
    if i == s.len() - 1 {
        if i > 0 {
            assert(front =~= s.subrange(0, i));
        }
    } else {
        assert(front.subrange(0, i) =~= s.subrange(0, i));
        assert(front[i] == s[i]);
        lemma_in_fold_first_err(lhs_l, front, i, negated, d, ctx);
    }
}

/// If a prefix of an array's elements flattens cleanly and the next
/// element fails, the whole flattening fails with that element's error.
pub proof fn lemma_flatten_first_err<C: LowerContext>(s: Seq<AstExprV>, i: int, d: Dialect, ctx: &C)
    requires
        0 <= i < s.len(),
        flatten_seq_spec(s.subrange(0, i), d, ctx) is Ok,
        flatten_one_spec(s[i], d, ctx) is Err,
    ensures
        flatten_seq_spec(s, d, ctx) == Err::<Seq<ExprV>, ErrorV>(
            flatten_one_spec(s[i], d, ctx)->Err_0,
        ),
    decreases s.len(),
{
    let front = s.subrange(0, s.len() - 1);
    if i == s.len() - 1 {
        assert(front =~= s.subrange(0, i));
    } else {
        assert(front.subrange(0, i) =~= s.subrange(0, i));
        assert(front[i] == s[i]);
        lemma_flatten_first_err(front, i, d, ctx);
    }
}

/// Model of a lowering result.
pub open spec fn lower_result_view(r: Result<Expr, ReadySetError>) -> Result<ExprV, ErrorV> {
    match r {
        Ok(e) => Ok(expr_view(e)),
        Err(er) => Err(er@),
    }
}

/// Removes and returns the first element.
fn pop_front_ast(args: &mut Vec<AstExpr>) -> (e: AstExpr)
    requires
        old(args)@.len() > 0,
    ensures
        e == old(args)@[0],
        final(args)@ == old(args)@.subrange(1, old(args)@.len() as int),
{
    let e = args.remove(0);
    proof {
        assert(args@ =~= old(args)@.subrange(1, old(args)@.len() as int));
    }
    e
}

/// Removes and returns the first branch.
fn pop_front_branch(args: &mut Vec<crate::ast::CaseWhenBranch>) -> (b: crate::ast::CaseWhenBranch)
    requires
        old(args)@.len() > 0,
    ensures
        b == old(args)@[0],
        final(args)@ == old(args)@.subrange(1, old(args)@.len() as int),
{
    let b = args.remove(0);
    proof {
        assert(args@ =~= old(args)@.subrange(1, old(args)@.len() as int));
    }
    b
}

/// Appends the per-dimension lengths of a nested array literal, read
/// from the first element at each nesting level.
fn find_shape_into(e: &AstExpr, out: &mut Vec<usize>)
    ensures
        final(out)@ == old(out)@ + shape_spec(ast_view(*e)),
    decreases ast_size(ast_view(*e)),
{
    match e {
        AstExpr::Array(elems) => {
            out.push(elems.len());
            if elems.len() > 0 {
                proof {
                    lemma_ast_seq_view(elems@);
                    lemma_ast_seq_size_element(ast_seq_view(elems@), 0);
                    assert(ast_size(ast_view(*e)) == 1 + ast_seq_size(ast_seq_view(elems@)));
                }
                find_shape_into(&elems[0], out);
            }
            proof {
                assert(out@ =~= old(out)@ + shape_spec(ast_view(*e)));
            }
        }
        _ => {
            proof {
                assert(out@ =~= old(out)@ + shape_spec(ast_view(*e)));
            }
        }
    }
}

/// Lowers and flattens the elements of a nested array literal, appending
/// the lowered leaves to the output in order; fails exactly as the
/// flattening model says.
fn flatten_into<C: LowerContext>(
    elems: Vec<AstExpr>,
    out: &mut Vec<Expr>,
    dialect: Dialect,
    context: &C,
) -> (r: Result<(), ReadySetError>)
    ensures
        match r {
            Ok(_) => flatten_seq_spec(ast_seq_view(elems@), dialect, context) is Ok
                && expr_seq_view(final(out)@) == expr_seq_view(old(out)@) + flatten_seq_spec(
                ast_seq_view(elems@),
                dialect,
                context,
            )->Ok_0,
            Err(e) => flatten_seq_spec(ast_seq_view(elems@), dialect, context) == Err::<
                Seq<ExprV>,
                ErrorV,
            >(e@),
        },
    decreases ast_seq_size(ast_seq_view(elems@)), 2nat,
{
    let ghost full = ast_seq_view(elems@);
    let n0 = elems.len();
    proof {
        lemma_ast_seq_view(elems@);
        crate::expr::lemma_expr_seq_view(old(out)@);
        assert(full.len() == n0);
    }
    let mut rest = elems;
    let mut i: usize = 0;
    proof {
        assert(full.subrange(0, 0) =~= Seq::<AstExprV>::empty());
        assert(expr_seq_view(out@) =~= expr_seq_view(old(out)@) + Seq::<ExprV>::empty());
    }
    while rest.len() > 0
        invariant
            full == ast_seq_view(elems@),
            full.len() <= usize::MAX,
            i + rest@.len() == full.len(),
            forall|k: int| 0 <= k < rest@.len() ==> ast_view(#[trigger] rest@[k]) == full[i + k],
            flatten_seq_spec(full.subrange(0, i as int), dialect, context) is Ok,
            expr_seq_view(out@) == expr_seq_view(old(out)@) + flatten_seq_spec(
                full.subrange(0, i as int),
                dialect,
                context,
            )->Ok_0,
        decreases rest@.len(),
    {
        let ghost acc = flatten_seq_spec(full.subrange(0, i as int), dialect, context)->Ok_0;
        let el = pop_front_ast(&mut rest);
        proof {
            assert(ast_view(el) == full[i as int]);
            lemma_ast_seq_size_element(full, i as int);
        }
        match el {
            AstExpr::Array(inner) => {
                proof {
                    lemma_ast_seq_view(inner@);
                    assert(ast_view(el) == AstExprV::Array(ast_seq_view(inner@)));
                    assert(ast_size(full[i as int]) == 1 + ast_seq_size(ast_seq_view(inner@)));
                }
                let ghost out_before = out@;
                match flatten_into(inner, out, dialect, context) {
                    Ok(_) => {
                        proof {
                            let tail = flatten_seq_spec(
                                ast_seq_view(inner@),
                                dialect,
                                context,
                            )->Ok_0;
                            assert(flatten_one_spec(full[i as int], dialect, context) == Ok::<
                                Seq<ExprV>,
                                ErrorV,
                            >(tail));
                            let t1 = full.subrange(0, i + 1 as int);
                            assert(t1.subrange(0, t1.len() - 1) =~= full.subrange(0, i as int));
                            assert(t1[t1.len() - 1] == full[i as int]);
                            assert(flatten_seq_spec(t1, dialect, context) == Ok::<
                                Seq<ExprV>,
                                ErrorV,
                            >(acc + tail));
                            assert(expr_seq_view(out@) =~= expr_seq_view(old(out)@) + (acc + tail));
                        }
                    }
                    Err(e) => {
                        proof {
                            assert(flatten_one_spec(full[i as int], dialect, context) == Err::<
                                Seq<ExprV>,
                                ErrorV,
                            >(e@));
                            lemma_flatten_first_err(full, i as int, dialect, context);
                        }
                        return Err(e);
                    }
                }
            }
            other => {
                proof {
                    assert(!(ast_view(other) is Array)) by {
                        match other {
                            AstExpr::Array(_) => {},
                            _ => {},
                        }
                    }
                }
                match Expr::lower(other, dialect, context) {
                    Ok(x) => {
                        let ghost out_before = out@;
                        out.push(x);
                        proof {
                            assert(flatten_one_spec(full[i as int], dialect, context) == Ok::<
                                Seq<ExprV>,
                                ErrorV,
                            >(Seq::empty().push(expr_view(x))));
                            let t1 = full.subrange(0, i + 1 as int);
                            assert(t1.subrange(0, t1.len() - 1) =~= full.subrange(0, i as int));
                            assert(t1[t1.len() - 1] == full[i as int]);
                            assert(flatten_seq_spec(t1, dialect, context) == Ok::<
                                Seq<ExprV>,
                                ErrorV,
                            >(acc + Seq::empty().push(expr_view(x))));
                            assert(out@.subrange(0, out@.len() - 1) =~= out_before);
                            assert(out@[out@.len() - 1] == x);
                            assert(expr_seq_view(out@) =~= expr_seq_view(old(out)@) + (acc
                                + Seq::empty().push(expr_view(x))));
                        }
                    }
                    Err(e) => {
                        proof {
                            assert(flatten_one_spec(full[i as int], dialect, context) == Err::<
                                Seq<ExprV>,
                                ErrorV,
                            >(e@));
                            lemma_flatten_first_err(full, i as int, dialect, context);
                        }
                        return Err(e);
                    }
                }
            }
        }
        i = i + 1;
    }
    proof {
        assert(full.subrange(0, i as int) =~= full);
    }
    Ok(())
}


/// The model of an optional boxed child expression.
pub open spec fn opt_box_ast_view(o: Option<Box<AstExpr>>) -> Option<Box<AstExprV>> {
    match o {
        Some(b) => Some(Box::new(ast_view(*b))),
        None => None,
    }
}

impl Expr {
    /// Lowers the given parsed scalar expression to a fully typed node of
    /// the intermediate representation, under the given dialect and
    /// context. The result is exactly what the lowering model prescribes:
    /// lowering is a pure function of the expression, the dialect, and
    /// the context's answers.
    #[verifier::rlimit(100)]
    #[verifier::spinoff_prover]
    pub fn lower<C: LowerContext>(expr: AstExpr, dialect: Dialect, context: &C) -> (r: Result<
        Expr,
        ReadySetError,
    >)
        ensures
            lower_result_view(r) == lower_spec(expr@, dialect, context),
        decreases ast_size(expr@), 0nat,
    {
        match expr {
            AstExpr::Call(FunctionExpr::Call { name, arguments }) => {
                proof {
                    lemma_ast_seq_view(arguments@);
                    assert(crate::ast::fn_expr_view(FunctionExpr::Call {
                        name: name,
                        arguments: arguments,
                    }) == (FunctionExprV::Call { name: name@, arguments: ast_seq_view(arguments@) }));
                    assert(expr@ == AstExprV::Call(
                        FunctionExprV::Call { name: name@, arguments: ast_seq_view(arguments@) },
                    ));
                    assert(crate::ast::fn_expr_size(FunctionExprV::Call {
                        name: name@,
                        arguments: ast_seq_view(arguments@),
                    }) == ast_seq_size(ast_seq_view(arguments@)));
                    assert(ast_size(expr@) == 1 + ast_seq_size(ast_seq_view(arguments@)));
                }
                Self::lower_call_args(name, arguments, dialect, context)
            }
            AstExpr::Call(FunctionExpr::Substring { string, pos, len }) => {
                proof {
                    assert(crate::ast::fn_expr_view(FunctionExpr::Substring {
                        string: string,
                        pos: pos,
                        len: len,
                    }) == (FunctionExprV::Substring {
                        string: Box::new(ast_view(*string)),
                        pos: opt_box_ast_view(pos),
                        len: opt_box_ast_view(len),
                    }));
                    assert(expr@ == AstExprV::Call(FunctionExprV::Substring {
                        string: Box::new(ast_view(*string)),
                        pos: opt_box_ast_view(pos),
                        len: opt_box_ast_view(len),
                    }));
                    assert(crate::ast::fn_expr_size(FunctionExprV::Substring {
                        string: Box::new(ast_view(*string)),
                        pos: opt_box_ast_view(pos),
                        len: opt_box_ast_view(len),
                    }) == ast_size(ast_view(*string)) + opt_ast_size(opt_box_ast_view(pos))
                        + opt_ast_size(opt_box_ast_view(len)));
                    assert(ast_size(expr@) == 1 + ast_size(ast_view(*string)) + opt_ast_size(
                        opt_box_ast_view(pos),
                    ) + opt_ast_size(opt_box_ast_view(len)));
                }
                Self::lower_substring(string, pos, len, dialect, context)
            }
            AstExpr::Call(f) => {
                proof {
                    assert(expr@ == AstExprV::Call(crate::ast::fn_expr_view(f)));
                    assert(!(crate::ast::fn_expr_view(f) is Call) && !(crate::ast::fn_expr_view(
                        f,
                    ) is Substring)) by {
                        match f {
                            FunctionExpr::Call { .. } => {},
                            FunctionExpr::Substring { .. } => {},
                            FunctionExpr::Avg { .. } => {},
                            FunctionExpr::Count { .. } => {},
                            FunctionExpr::CountStar => {},
                            FunctionExpr::Sum { .. } => {},
                            FunctionExpr::Max(_) => {},
                            FunctionExpr::Min(_) => {},
                            FunctionExpr::GroupConcat { .. } => {},
                        }
                    }
                }
                Err(
                    ReadySetError::internal(
                        "unexpected aggregate call in scalar expression lowering",
                    ),
                )
            }
            AstExpr::Literal(lit) => {
                let is_string = lit.is_string();
                let val = lit.to_df_value();
                let ty = if is_string && matches!(dialect.engine(), SqlEngine::PostgreSQL) {
                    DfType::Unknown
                } else {
                    val.infer_dataflow_type()
                };
                Ok(Expr::Literal { val, ty })
            }
            AstExpr::Column(col) => match context.resolve_column(col) {
                Ok(p) => Ok(Expr::Column { index: p.0, ty: p.1 }),
                Err(e) => Err(e),
            },
            AstExpr::BinaryOp { lhs, op, rhs } => {
                proof {
                    assert(expr@ == (AstExprV::BinaryOp {
                        lhs: Box::new(ast_view(*lhs)),
                        op,
                        rhs: Box::new(ast_view(*rhs)),
                    }));
                    assert(ast_size(expr@) == 1 + ast_size(ast_view(*lhs)) + ast_size(
                        ast_view(*rhs),
                    ));
                }
                Self::lower_binary_op(lhs, op, rhs, dialect, context)
            }
            AstExpr::OpAny { lhs, op, rhs } => Self::lower_op_any_or_all(
                *lhs,
                op,
                *rhs,
                dialect,
                context,
                false,
            ),
            AstExpr::OpSome { lhs, op, rhs } => Self::lower_op_any_or_all(
                *lhs,
                op,
                *rhs,
                dialect,
                context,
                false,
            ),
            AstExpr::OpAll { lhs, op, rhs } => Self::lower_op_any_or_all(
                *lhs,
                op,
                *rhs,
                dialect,
                context,
                true,
            ),
            AstExpr::UnaryOp { op: UnaryOperator::Neg, rhs } => {
                let left = match Self::lower(*rhs, dialect, context) {
                    Ok(x) => x,
                    Err(e) => {
                        return Err(e);
                    }
                };
                let ghost left_v = expr_view(left);
                let ty = left.ty().clone();
                let minus_one = Expr::Literal { val: DfValue::Int(-1i64), ty: DfType::Int };
                proof {
                    assert(expr_view(minus_one) == ExprV::Literal {
                        val: DfValueV::Int(-1i64),
                        ty: DfTypeV::Int,
                    });
                }
                Ok(
                    Expr::Op {
                        op: BinaryOperator::Multiply,
                        left: Box::new(left),
                        right: Box::new(minus_one),
                        ty,
                    },
                )
            }
            AstExpr::UnaryOp { op: UnaryOperator::Not, rhs } => {
                let inner = match Self::lower(*rhs, dialect, context) {
                    Ok(x) => x,
                    Err(e) => {
                        return Err(e);
                    }
                };
                Ok(Expr::Not { expr: Box::new(inner), ty: DfType::Bool })
            }
            AstExpr::Cast { expr: inner, ty, .. } => {
                let target = match from_sql_type(&ty, dialect, context) {
                    Ok(t) => t,
                    Err(e) => {
                        return Err(e);
                    }
                };
                let lowered = match Self::lower(*inner, dialect, context) {
                    Ok(x) => x,
                    Err(e) => {
                        return Err(e);
                    }
                };
                Ok(Expr::Cast { expr: Box::new(lowered), ty: target, null_on_failure: false })
            }
            AstExpr::CaseWhen { branches, else_expr } => {
                proof {
                    assert(expr@ == (AstExprV::CaseWhen {
                        branches: branches_view(branches@),
                        else_expr: opt_box_ast_view(else_expr),
                    }));
                    assert(ast_size(expr@) == 1 + branch_seq_size(branches_view(branches@))
                        + opt_ast_size(opt_box_ast_view(else_expr)));
                }
                Self::lower_case_when(branches, else_expr, dialect, context)
            }
            AstExpr::In { lhs, rhs: InValue::List(elems), negated } => {
                proof {
                    assert(crate::ast::in_value_view(InValue::List(elems)) == InValueV::List(
                        ast_seq_view(elems@),
                    ));
                    assert(expr@ == (AstExprV::In {
                        lhs: Box::new(ast_view(*lhs)),
                        rhs: InValueV::List(ast_seq_view(elems@)),
                        negated,
                    }));
                    assert(ast_size(expr@) == 1 + ast_size(ast_view(*lhs)) + ast_seq_size(
                        ast_seq_view(elems@),
                    ));
                }
                Self::lower_in_list(lhs, elems, negated, dialect, context)
            }
            AstExpr::In { .. } => Err(
                ReadySetError::internal("expression should have been desugared before lowering"),
            ),
            AstExpr::Array(elems) => {
                proof {
                    assert(expr@ == AstExprV::Array(ast_seq_view(elems@)));
                    assert(ast_size(expr@) == 1 + ast_seq_size(ast_seq_view(elems@)));
                }
                Self::lower_array(elems, dialect, context)
            }
            AstExpr::Exists => Err(ReadySetError::unsupported("EXISTS not currently supported")),
            AstExpr::Variable(_) => Err(
                ReadySetError::unsupported("variables not currently supported"),
            ),
            AstExpr::Between { .. } => Err(
                ReadySetError::internal("expression should have been desugared before lowering"),
            ),
            AstExpr::NestedSelect => Err(
                ReadySetError::internal("expression should have been desugared before lowering"),
            ),
        }
    }

    /// Lowers an ordinary function call: arguments left to right, then
    /// resolution by the builtin resolver.
    #[verifier::spinoff_prover]
    fn lower_call_args<C: LowerContext>(
        name: String,
        arguments: Vec<AstExpr>,
        dialect: Dialect,
        context: &C,
    ) -> (r: Result<Expr, ReadySetError>)
        ensures
            lower_result_view(r) == call_args_spec(name@, ast_seq_view(arguments@), dialect, context),
        decreases ast_seq_size(ast_seq_view(arguments@)), 2nat,
    {
        let ghost full = ast_seq_view(arguments@);
        let n0 = arguments.len();
        proof {
            reveal(call_args_spec);
            lemma_ast_seq_view(arguments@);
            assert(full.len() == n0);
        }
        let mut rest = arguments;
        let mut lowered: Vec<Expr> = Vec::new();
        let mut i: usize = 0;
        proof {
            assert(full.subrange(0, 0) =~= Seq::<AstExprV>::empty());
            assert(expr_seq_view(lowered@) =~= Seq::<ExprV>::empty());
        }
        while rest.len() > 0
            invariant
                full == ast_seq_view(arguments@),
                full.len() <= usize::MAX,
                i + rest@.len() == full.len(),
                forall|k: int| 0 <= k < rest@.len() ==> ast_view(#[trigger] rest@[k])
                    == full[i + k],
                lower_seq_spec(full.subrange(0, i as int), dialect, context) == Ok::<
                    Seq<ExprV>,
                    ErrorV,
                >(expr_seq_view(lowered@)),
            decreases rest@.len(),
        {
            let ghost acc = expr_seq_view(lowered@);
            let el = pop_front_ast(&mut rest);
            proof {
                assert(ast_view(el) == full[i as int]);
                lemma_ast_seq_size_element(full, i as int);
            }
            match Self::lower(el, dialect, context) {
                Ok(x) => {
                    let ghost lowered_before = lowered@;
                    lowered.push(x);
                    proof {
                        let t1 = full.subrange(0, i + 1 as int);
                        assert(t1.subrange(0, t1.len() - 1) =~= full.subrange(0, i as int));
                        assert(t1[t1.len() - 1] == full[i as int]);
                        assert(lowered@.subrange(0, lowered@.len() - 1) =~= lowered_before);
                        assert(lowered@[lowered@.len() - 1] == x);
                        assert(expr_seq_view(lowered@) == acc.push(expr_view(x)));
                        assert(lower_seq_spec(t1, dialect, context) == Ok::<
                            Seq<ExprV>,
                            ErrorV,
                        >(expr_seq_view(lowered@)));
                    }
                    i = i + 1;
                }
                Err(e) => {
                    proof {
                        reveal(call_args_spec);
                        lemma_lower_seq_first_err(full, i as int, dialect, context);
                    }
                    return Err(e);
                }
            }
        }
        proof {
            assert(full.subrange(0, i as int) =~= full);
        }
        match BuiltinFunction::from_name_and_args(name.as_str(), lowered, dialect) {
            Ok(p) => Ok(Expr::Call { func: Box::new(p.0), ty: p.1 }),
            Err(e) => Err(e),
        }
    }

    /// Lowers the SUBSTRING sugar: the subject keeps its text type
    /// (default text otherwise); position and length are lowered without
    /// the casts the ordinary call form applies.
    #[verifier::spinoff_prover]
    fn lower_substring<C: LowerContext>(
        string: Box<AstExpr>,
        pos: Option<Box<AstExpr>>,
        len: Option<Box<AstExpr>>,
        dialect: Dialect,
        context: &C,
    ) -> (r: Result<Expr, ReadySetError>)
        ensures
            lower_result_view(r) == substring_spec(
                ast_view(*string),
                opt_box_ast_view(pos),
                opt_box_ast_view(len),
                dialect,
                context,
            ),
        decreases ast_size(ast_view(*string)) + opt_ast_size(opt_box_ast_view(pos))
            + opt_ast_size(opt_box_ast_view(len)), 2nat,
    {
        proof {
            reveal(substring_spec);
        }
        let ghost pos_v = opt_box_ast_view(pos);
        let ghost len_v = opt_box_ast_view(len);
        let string_l = match Self::lower(*string, dialect, context) {
            Ok(x) => x,
            Err(e) => {
                return Err(e);
            }
        };
        let ghost string_lv = expr_view(string_l);
        let ty = if string_l.ty().is_any_text() {
            string_l.ty().clone()
        } else {
            DfType::default_text()
        };
        let pos_l = match pos {
            Some(b) => match Self::lower(*b, dialect, context) {
                Ok(x) => {
                    proof {
                        assert(lower_opt_spec(pos_v, dialect, context) == Ok::<
                            Option<ExprV>,
                            ErrorV,
                        >(Some(expr_view(x))));
                        assert(opt_expr_view(Some(x)) == Some(expr_view(x)));
                    }
                    Some(x)
                }
                Err(e) => {
                    proof {
                        assert(lower_opt_spec(pos_v, dialect, context) == Err::<
                            Option<ExprV>,
                            ErrorV,
                        >(e@));
                    }
                    return Err(e);
                }
            },
            None => None,
        };
        let len_l = match len {
            Some(b) => match Self::lower(*b, dialect, context) {
                Ok(x) => {
                    proof {
                        assert(lower_opt_spec(len_v, dialect, context) == Ok::<
                            Option<ExprV>,
                            ErrorV,
                        >(Some(expr_view(x))));
                        assert(opt_expr_view(Some(x)) == Some(expr_view(x)));
                    }
                    Some(x)
                }
                Err(e) => {
                    proof {
                        assert(lower_opt_spec(len_v, dialect, context) == Err::<
                            Option<ExprV>,
                            ErrorV,
                        >(e@));
                    }
                    return Err(e);
                }
            },
            None => None,
        };
        let ghost pos_lv = opt_expr_view(pos_l);
        let ghost len_lv = opt_expr_view(len_l);
        let func_node = BuiltinFunction::Substring(string_l, pos_l, len_l);
        let ghost fv = crate::expr::builtin_view(func_node);
        proof {
            assert(fv == crate::expr::BuiltinFunctionV::Substring(string_lv, pos_lv, len_lv));
        }
        let result = Expr::Call { func: Box::new(func_node), ty };
        proof {
            assert(expr_view(result) == ExprV::Call { func: Box::new(fv), ty: ty@ });
        }
        Ok(result)
    }


    /// Lowers an ordinary binary operation: both sides, operator
    /// resolution, the MySQL JSON-path rejection, output typing, and
    /// coercion casts.
    #[verifier::spinoff_prover]
    fn lower_binary_op<C: LowerContext>(
        lhs: Box<AstExpr>,
        op: SqlBinaryOperator,
        rhs: Box<AstExpr>,
        dialect: Dialect,
        context: &C,
    ) -> (r: Result<Expr, ReadySetError>)
        ensures
            lower_result_view(r) == binary_op_spec(
                ast_view(*lhs),
                op,
                ast_view(*rhs),
                dialect,
                context,
            ),
        decreases ast_size(ast_view(*lhs)) + ast_size(ast_view(*rhs)), 1nat,
    {
        proof {
            reveal(binary_op_spec);
        }
        let left = match Self::lower(*lhs, dialect, context) {
            Ok(x) => x,
            Err(e) => {
                return Err(e);
            }
        };
        let right = match Self::lower(*rhs, dialect, context) {
            Ok(x) => x,
            Err(e) => {
                return Err(e);
            }
        };
        let ghost left_v = expr_view(left);
        let ghost right_v = expr_view(right);
        let p = match BinaryOperator::from_sql_op(op, dialect, left.ty(), right.ty()) {
            Ok(p) => p,
            Err(e) => {
                return Err(e);
            }
        };
        let cop = p.0;
        let negated = p.1;
        if matches!(
            cop,
            BinaryOperator::JsonPathExtract | BinaryOperator::JsonPathExtractUnquote
        ) {
            return Err(
                ReadySetError::unsupported("JSON path extraction is not implemented for MySQL"),
            );
        }
        let ty = match cop.output_type(left.ty(), right.ty()) {
            Ok(t) => t,
            Err(e) => {
                return Err(e);
            }
        };
        let targets = cop.argument_type_coercions(left.ty(), right.ty());
        let ghost tv = ty@;
        let left2 = match targets.0 {
            Some(t) => Expr::Cast { expr: Box::new(left), ty: t, null_on_failure: false },
            None => left,
        };
        let ghost left2_v = expr_view(left2);
        proof {
            assert(left2_v == (match argument_type_coercions_spec(cop, left_v.ty(), right_v.ty()).0 {
                Some(t) => ExprV::Cast { expr: Box::new(left_v), ty: t, null_on_failure: false },
                None => left_v,
            }));
        }
        let right2 = match targets.1 {
            Some(t) => Expr::Cast { expr: Box::new(right), ty: t, null_on_failure: false },
            None => right,
        };
        let ghost right2_v = expr_view(right2);
        proof {
            assert(right2_v == (match argument_type_coercions_spec(cop, left_v.ty(), right_v.ty()).1 {
                Some(t) => ExprV::Cast { expr: Box::new(right_v), ty: t, null_on_failure: false },
                None => right_v,
            }));
        }
        let node = Expr::Op { op: cop, left: Box::new(left2), right: Box::new(right2), ty };
        let ghost node_v = expr_view(node);
        proof {
            assert(node_v == ExprV::Op {
                op: cop,
                left: Box::new(left2_v),
                right: Box::new(right2_v),
                ty: tv,
            });
        }
        if negated {
            let wrapped = Expr::Not { expr: Box::new(node), ty: DfType::Bool };
            proof {
                assert(expr_view(wrapped) == ExprV::Not { expr: Box::new(node_v), ty: DfTypeV::Bool });
            }
            Ok(wrapped)
        } else {
            Ok(node)
        }
    }

    /// Lowers a CASE expression: every branch left to right (condition,
    /// then body), the first branch's body type as the result type, and a
    /// missing ELSE as an untyped NULL literal.
    #[verifier::spinoff_prover]
    fn lower_case_when<C: LowerContext>(
        branches: Vec<crate::ast::CaseWhenBranch>,
        else_expr: Option<Box<AstExpr>>,
        dialect: Dialect,
        context: &C,
    ) -> (r: Result<Expr, ReadySetError>)
        ensures
            lower_result_view(r) == case_when_spec(
                branches_view(branches@),
                opt_box_ast_view(else_expr),
                dialect,
                context,
            ),
        decreases branch_seq_size(branches_view(branches@)) + opt_ast_size(
            opt_box_ast_view(else_expr),
        ), 3nat,
    {
        let ghost full = branches_view(branches@);
        let ghost else_v = opt_box_ast_view(else_expr);
        let n0 = branches.len();
        proof {
            reveal(case_when_spec);
            crate::ast::lemma_branches_view(branches@);
            assert(full.len() == n0);
        }
        let mut rest = branches;
        let mut lowered: Vec<CaseWhenBranch> = Vec::new();
        let mut i: usize = 0;
        proof {
            assert(full.subrange(0, 0) =~= Seq::<CaseWhenBranchV>::empty());
            assert(ir_branches_view(lowered@) =~= Seq::<crate::expr::CaseWhenBranchV>::empty());
        }
        while rest.len() > 0
            invariant
                full == branches_view(branches@),
                else_v == opt_box_ast_view(else_expr),
                full.len() <= usize::MAX,
                i + rest@.len() == full.len(),
                forall|k: int| 0 <= k < rest@.len() ==> (CaseWhenBranchV {
                    condition: ast_view(#[trigger] rest@[k].condition),
                    body: ast_view(rest@[k].body),
                }) == full[i + k],
                lower_branches_spec(full.subrange(0, i as int), dialect, context) == Ok::<
                    Seq<crate::expr::CaseWhenBranchV>,
                    ErrorV,
                >(ir_branches_view(lowered@)),
            decreases rest@.len(),
        {
            let ghost acc = ir_branches_view(lowered@);
            let b = pop_front_branch(&mut rest);
            proof {
                assert((CaseWhenBranchV {
                    condition: ast_view(b.condition),
                    body: ast_view(b.body),
                }) == full[i as int]);
                lemma_branch_seq_size_element(full, i as int);
            }
            let cond = match Self::lower(b.condition, dialect, context) {
                Ok(x) => x,
                Err(e) => {
                    proof {
                        reveal(case_when_spec);
                        assert(lower_branch_one_spec(full[i as int], dialect, context)
                            == Err::<crate::expr::CaseWhenBranchV, ErrorV>(e@));
                        lemma_branches_first_err(full, i as int, dialect, context);
                    }
                    return Err(e);
                }
            };
            let body = match Self::lower(b.body, dialect, context) {
                Ok(x) => x,
                Err(e) => {
                    proof {
                        reveal(case_when_spec);
                        assert(lower_branch_one_spec(full[i as int], dialect, context)
                            == Err::<crate::expr::CaseWhenBranchV, ErrorV>(e@));
                        lemma_branches_first_err(full, i as int, dialect, context);
                    }
                    return Err(e);
                }
            };
            let ghost lowered_before = lowered@;
            lowered.push(CaseWhenBranch { condition: cond, body });
            proof {
                let t1 = full.subrange(0, i + 1 as int);
                assert(t1.subrange(0, t1.len() - 1) =~= full.subrange(0, i as int));
                assert(t1[t1.len() - 1] == full[i as int]);
                assert(lowered@.subrange(0, lowered@.len() - 1) =~= lowered_before);
                assert(ir_branches_view(lowered@) == acc.push(
                    crate::expr::CaseWhenBranchV {
                        condition: expr_view(cond),
                        body: expr_view(body),
                    },
                ));
                assert(lower_branches_spec(t1, dialect, context) == Ok::<
                    Seq<crate::expr::CaseWhenBranchV>,
                    ErrorV,
                >(ir_branches_view(lowered@)));
            }
            i = i + 1;
        }
        proof {
            assert(full.subrange(0, i as int) =~= full);
            crate::expr::lemma_ir_branches_view(lowered@);
        }
        if lowered.len() == 0 {
            return Err(ReadySetError::internal("CASE expression cannot have zero branches"));
        }
        let ty = lowered[0].body.ty().clone();
        let else_l = match else_expr {
            Some(b) => match Self::lower(*b, dialect, context) {
                Ok(x) => {
                    proof {
                        assert(else_v == Some(Box::new(ast_view(*b))));
                        assert(lower_opt_spec(else_v, dialect, context) == Ok::<
                            Option<ExprV>,
                            ErrorV,
                        >(Some(expr_view(x))));
                    }
                    Box::new(x)
                }
                Err(e) => {
                    proof {
                        assert(else_v == Some(Box::new(ast_view(*b))));
                        assert(lower_opt_spec(else_v, dialect, context) == Err::<
                            Option<ExprV>,
                            ErrorV,
                        >(e@));
                    }
                    return Err(e);
                }
            },
            None => {
                let lit = Expr::Literal { val: DfValue::Null, ty: DfType::Unknown };
                proof {
                    assert(expr_view(lit) == (ExprV::Literal {
                        val: DfValueV::Null,
                        ty: DfTypeV::Unknown,
                    }));
                    assert(lower_opt_spec(else_v, dialect, context) == Ok::<
                        Option<ExprV>,
                        ErrorV,
                    >(None));
                }
                Box::new(lit)
            }
        };
        Ok(Expr::CaseWhen { branches: lowered, else_expr: else_l, ty })
    }

    /// Desugars an IN list: an empty list becomes the documented boundary
    /// literal; otherwise the left operand is lowered once and reused in a
    /// left-associated chain of comparisons.
    #[verifier::spinoff_prover]
    fn lower_in_list<C: LowerContext>(
        lhs: Box<AstExpr>,
        elems: Vec<AstExpr>,
        negated: bool,
        dialect: Dialect,
        context: &C,
    ) -> (r: Result<Expr, ReadySetError>)
        ensures
            lower_result_view(r) == in_list_spec(
                ast_view(*lhs),
                ast_seq_view(elems@),
                negated,
                dialect,
                context,
            ),
        decreases ast_size(ast_view(*lhs)) + ast_seq_size(ast_seq_view(elems@)), 3nat,
    {
        let ghost full = ast_seq_view(elems@);
        let n0 = elems.len();
        proof {
            reveal(in_list_spec);
            lemma_ast_seq_view(elems@);
            assert(full.len() == n0);
        }
        if elems.len() == 0 {
            if negated {
                return Ok(Expr::Literal { val: DfValue::Int(1), ty: DfType::Bool });
            } else {
                return Ok(Expr::Literal { val: DfValue::Null, ty: DfType::Bool });
            }
        }
        let ghost lhs_v = ast_view(*lhs);
        let lhs_l = match Self::lower(*lhs, dialect, context) {
            Ok(x) => x,
            Err(e) => {
                return Err(e);
            }
        };
        let ghost lhs_lv = expr_view(lhs_l);
        let logical_op = if negated {
            BinaryOperator::And
        } else {
            BinaryOperator::Or
        };
        let mut rest = elems;
        let fst = pop_front_ast(&mut rest);
        proof {
            assert(ast_view(fst) == full[0]);
            lemma_ast_seq_size_element(full, 0);
        }
        let fst_l = match Self::lower(fst, dialect, context) {
            Ok(x) => x,
            Err(e) => {
                proof {
                    assert(in_comparison_spec(lhs_lv, full[0], negated, dialect, context)
                        == Err::<ExprV, ErrorV>(e@));
                    lemma_in_fold_first_err(lhs_lv, full, 0, negated, dialect, context);
                }
                return Err(e);
            }
        };
        let ghost fst_lv = expr_view(fst_l);
        let eq0 = Expr::Op {
            op: BinaryOperator::Equal,
            left: Box::new(lhs_l.clone()),
            right: Box::new(fst_l),
            ty: DfType::Bool,
        };
        let ghost eq0_v = expr_view(eq0);
        proof {
            assert(eq0_v == ExprV::Op {
                op: BinaryOperator::Equal,
                left: Box::new(lhs_lv),
                right: Box::new(fst_lv),
                ty: DfTypeV::Bool,
            });
        }
        let mut acc = if negated {
            Expr::Not { expr: Box::new(eq0), ty: DfType::Bool }
        } else {
            eq0
        };
        let mut i: usize = 1;
        proof {
            if negated {
                assert(expr_view(acc) == ExprV::Not { expr: Box::new(eq0_v), ty: DfTypeV::Bool });
            }
            assert(in_comparison_spec(lhs_lv, full[0], negated, dialect, context)
                == Ok::<ExprV, ErrorV>(expr_view(acc)));
            assert(full.subrange(0, 1) =~= Seq::<AstExprV>::empty().push(full[0]));
            assert(in_fold_spec(lhs_lv, full.subrange(0, 1), negated, dialect, context)
                == Ok::<ExprV, ErrorV>(expr_view(acc)));
        }
        while rest.len() > 0
            invariant
                1 <= i,
                full == ast_seq_view(elems@),
                full.len() <= usize::MAX,
                full.len() > 0,
                i + rest@.len() == full.len(),
                lhs_v == ast_view(*lhs),
                lower_spec(lhs_v, dialect, context) == Ok::<ExprV, ErrorV>(lhs_lv),
                expr_view(lhs_l) == lhs_lv,
                logical_op == (if negated {
                    BinaryOperator::And
                } else {
                    BinaryOperator::Or
                }),
                forall|k: int| 0 <= k < rest@.len() ==> ast_view(#[trigger] rest@[k])
                    == full[i + k],
                in_fold_spec(lhs_lv, full.subrange(0, i as int), negated, dialect, context)
                    == Ok::<ExprV, ErrorV>(expr_view(acc)),
            decreases rest@.len(),
        {
            let ghost acc_v = expr_view(acc);
            let el = pop_front_ast(&mut rest);
            proof {
                assert(ast_view(el) == full[i as int]);
                lemma_ast_seq_size_element(full, i as int);
            }
            let el_l = match Self::lower(el, dialect, context) {
                Ok(x) => x,
                Err(e) => {
                    proof {
                        reveal(in_list_spec);
                        assert(in_comparison_spec(
                            lhs_lv,
                            full[i as int],
                            negated,
                            dialect,
                            context,
                        ) == Err::<ExprV, ErrorV>(e@));
                        lemma_in_fold_first_err(
                            lhs_lv,
                            full,
                            i as int,
                            negated,
                            dialect,
                            context,
                        );
                    }
                    return Err(e);
                }
            };
            let ghost el_lv = expr_view(el_l);
            let eq = Expr::Op {
                op: BinaryOperator::Equal,
                left: Box::new(lhs_l.clone()),
                right: Box::new(el_l),
                ty: DfType::Bool,
            };
            let ghost eq_v = expr_view(eq);
            proof {
                assert(eq_v == ExprV::Op {
                    op: BinaryOperator::Equal,
                    left: Box::new(lhs_lv),
                    right: Box::new(el_lv),
                    ty: DfTypeV::Bool,
                });
            }
            let cmp = if negated {
                Expr::Not { expr: Box::new(eq), ty: DfType::Bool }
            } else {
                eq
            };
            let ghost cmp_v = expr_view(cmp);
            proof {
                if negated {
                    assert(cmp_v == ExprV::Not { expr: Box::new(eq_v), ty: DfTypeV::Bool });
                }
                assert(in_comparison_spec(lhs_lv, full[i as int], negated, dialect, context)
                    == Ok::<ExprV, ErrorV>(cmp_v));
            }
            acc = Expr::Op {
                op: logical_op,
                left: Box::new(acc),
                right: Box::new(cmp),
                ty: DfType::Bool,
            };
            proof {
                assert(expr_view(acc) == ExprV::Op {
                    op: logical_op,
                    left: Box::new(acc_v),
                    right: Box::new(cmp_v),
                    ty: DfTypeV::Bool,
                });
                let t1 = full.subrange(0, i + 1 as int);
                assert(t1.subrange(0, t1.len() - 1) =~= full.subrange(0, i as int));
                assert(t1[t1.len() - 1] == full[i as int]);
                assert(in_fold_spec(lhs_lv, t1, negated, dialect, context) == Ok::<
                    ExprV,
                    ErrorV,
                >(expr_view(acc)));
            }
            i = i + 1;
        }
        proof {
            assert(full.subrange(0, i as int) =~= full);
        }
        Ok(acc)
    }

    /// Lowers an array literal: the shape is read from the first element
    /// at each nesting level, the leaves are flattened and lowered in
    /// order, their types unified, and the unified type wrapped in one
    /// array layer per dimension.
    #[verifier::spinoff_prover]
    fn lower_array<C: LowerContext>(elems: Vec<AstExpr>, dialect: Dialect, context: &C) -> (r:
        Result<Expr, ReadySetError>)
        ensures
            lower_result_view(r) == array_spec(ast_seq_view(elems@), dialect, context),
        decreases ast_seq_size(ast_seq_view(elems@)), 3nat,
    {
        let ghost full = ast_seq_view(elems@);
        let ghost e0 = AstExprV::Array(full);
        proof {
            reveal(array_spec);
            lemma_ast_seq_view(elems@);
        }
        let mut shape: Vec<usize> = Vec::new();
        shape.push(elems.len());
        if elems.len() > 0 {
            proof {
                lemma_ast_seq_size_element(full, 0);
            }
            find_shape_into(&elems[0], &mut shape);
        }
        proof {
            assert(shape@ =~= shape_spec(e0));
        }
        let mut elements: Vec<Expr> = Vec::new();
        match flatten_into(elems, &mut elements, dialect, context) {
            Ok(_) => {}
            Err(e) => {
                return Err(e);
            }
        }
        proof {
            assert(expr_seq_view(elements@) =~= flatten_seq_spec(full, dialect, context)->Ok_0);
            crate::expr::lemma_expr_seq_view(elements@);
        }
        let mut elem_tys: Vec<&DfType> = Vec::new();
        let mut j: usize = 0;
        while j < elements.len()
            invariant
                0 <= j <= elements@.len(),
                expr_seq_view(elements@) == flatten_seq_spec(full, dialect, context)->Ok_0,
                flatten_seq_spec(full, dialect, context) is Ok,
                forall|k: int| 0 <= k < elements@.len() ==> expr_view(
                    #[trigger] elements@[k],
                ) == expr_seq_view(elements@)[k],
                elem_tys@.len() == j,
                forall|k: int| 0 <= k < j ==> (#[trigger] elem_tys@[k])@ == expr_seq_view(
                    elements@,
                )[k].ty(),
            decreases elements@.len() - j,
        {
            elem_tys.push(elements[j].ty());
            j = j + 1;
        }
        proof {
            assert(tys_view(elem_tys@) =~= crate::builtins::tys_of(
                expr_seq_view(elements@),
            ));
        }
        let unified = match unify_postgres_types(elem_tys) {
            Ok(t) => t,
            Err(e) => {
                return Err(e);
            }
        };
        let ghost u = unified@;
        let mut ty = unified;
        let mut w: usize = 0;
        while w < shape.len()
            invariant
                0 <= w <= shape@.len(),
                ty@ == wrap_array_layers(u, w as nat),
            decreases shape@.len() - w,
        {
            ty = DfType::Array(Box::new(ty));
            w = w + 1;
        }
        proof {
            assert(shape@.len() == shape_spec(e0).len());
        }
        Ok(Expr::Array { elements, shape, ty })
    }


    /// Lowers a quantified comparison (ANY, SOME, or ALL) exactly as its
    /// model prescribes.
    #[verifier::rlimit(50)]
    #[verifier::spinoff_prover]
    fn lower_op_any_or_all<C: LowerContext>(
        lhs: AstExpr,
        op: SqlBinaryOperator,
        rhs: AstExpr,
        dialect: Dialect,
        context: &C,
        is_all: bool,
    ) -> (r: Result<Expr, ReadySetError>)
        ensures
            lower_result_view(r) == lower_op_any_all_spec(
                lhs@,
                op,
                rhs@,
                dialect,
                context,
                is_all,
            ),
        decreases ast_size(lhs@) + ast_size(rhs@), 1nat,
    {
        proof {
            reveal(lower_op_any_all_spec);
        }
        let left = match Self::lower(lhs, dialect, context) {
            Ok(x) => x,
            Err(e) => {
                return Err(e);
            }
        };
        let right = match Self::lower(rhs, dialect, context) {
            Ok(x) => x,
            Err(e) => {
                return Err(e);
            }
        };
        let p = match BinaryOperator::from_sql_op(op, dialect, left.ty(), right.ty()) {
            Ok(p) => p,
            Err(e) => {
                return Err(e);
            }
        };
        let ghost left_v = expr_view(left);
        let ghost right_v = expr_view(right);
        let cop = p.0;
        let negated = p.1;
        let is_all2 = if negated {
            !is_all
        } else {
            is_all
        };
        if !right.ty().is_array() && !right.ty().is_unknown() {
            return Err(
                ReadySetError::invalid("op ANY/ALL (array) requires an array on the right-hand side"),
            );
        }
        let member_ty = if right.ty().is_array() {
            right.ty().innermost_array_type().clone()
        } else {
            DfType::Unknown
        };
        let ty = match cop.output_type(left.ty(), &member_ty) {
            Ok(t) => t,
            Err(e) => {
                return Err(e);
            }
        };
        if !ty.is_bool() {
            return Err(
                ReadySetError::invalid("op ANY/ALL (array) requires the operator to yield a boolean"),
            );
        }
        let ghost member_v = member_ty@;
        let ghost tv = ty@;
        let targets = cop.argument_type_coercions(left.ty(), &member_ty);
        let left2 = match targets.0 {
            Some(t) => Expr::Cast { expr: Box::new(left), ty: t, null_on_failure: false },
            None => left,
        };
        let ghost left2_v = expr_view(left2);
        proof {
            assert(left2_v == (match argument_type_coercions_spec(cop, left_v.ty(), member_v).0 {
                Some(t) => ExprV::Cast { expr: Box::new(left_v), ty: t, null_on_failure: false },
                None => left_v,
            }));
        }
        let right_is_array = right.ty().is_array();
        let right2 = match targets.1 {
            Some(t) => Expr::Cast {
                expr: Box::new(right),
                ty: DfType::Array(Box::new(t)),
                null_on_failure: false,
            },
            None => if !right_is_array {
                Expr::Cast {
                    expr: Box::new(right),
                    ty: DfType::Array(Box::new(DfType::Unknown)),
                    null_on_failure: false,
                }
            } else {
                right
            },
        };
        let ghost right2_v = expr_view(right2);
        proof {
            assert(right2_v == (match argument_type_coercions_spec(cop, left_v.ty(), member_v).1 {
                Some(t) => ExprV::Cast {
                    expr: Box::new(right_v),
                    ty: DfTypeV::Array(Box::new(t)),
                    null_on_failure: false,
                },
                None => if !right_v.ty().is_array() {
                    ExprV::Cast {
                        expr: Box::new(right_v),
                        ty: DfTypeV::Array(Box::new(DfTypeV::Unknown)),
                        null_on_failure: false,
                    }
                } else {
                    right_v
                },
            }));
        }
        let node = if is_all2 {
            Expr::OpAll { op: cop, left: Box::new(left2), right: Box::new(right2), ty }
        } else {
            Expr::OpAny { op: cop, left: Box::new(left2), right: Box::new(right2), ty }
        };
        let ghost node_v = expr_view(node);
        proof {
            if is_all2 {
                assert(node_v == ExprV::OpAll {
                    op: cop,
                    left: Box::new(left2_v),
                    right: Box::new(right2_v),
                    ty: tv,
                });
            } else {
                assert(node_v == ExprV::OpAny {
                    op: cop,
                    left: Box::new(left2_v),
                    right: Box::new(right2_v),
                    ty: tv,
                });
            }
        }
        if negated {
            let wrapped = Expr::Not { expr: Box::new(node), ty: DfType::Bool };
            proof {
                assert(expr_view(wrapped) == ExprV::Not { expr: Box::new(node_v), ty: DfTypeV::Bool });
            }
            Ok(wrapped)
        } else {
            Ok(node)
        }
    }
}

/// A lowering context backed by in-memory lists: columns resolve to the
/// first entry with an equal column reference, and named types to the
/// first entry with an equal name.
pub struct StaticContext {
    pub columns: Vec<(Column, usize, DfType)>,
    pub types: Vec<(Relation, DfType)>,
}

/// The model of a column table: each entry's model, in order.
pub open spec fn columns_model(v: Seq<(Column, usize, DfType)>) -> Seq<(ColumnV, usize, DfTypeV)> {
    Seq::new(v.len(), |i: int| (v[i].0@, v[i].1, v[i].2@))
}

/// The model of a named-type table: each entry's model, in order.
pub open spec fn types_model(v: Seq<(Relation, DfType)>) -> Seq<(RelationV, DfTypeV)> {
    Seq::new(v.len(), |i: int| (v[i].0@, v[i].1@))
}

/// The first entry of the column table matching the column, if any.
pub open spec fn find_column(
    cols: Seq<(ColumnV, usize, DfTypeV)>,
    col: ColumnV,
) -> Option<(usize, DfTypeV)>
    decreases cols.len(),
{
    if cols.len() == 0 {
        None
    } else if cols[0].0 == col {
        Some((cols[0].1, cols[0].2))
    } else {
        find_column(cols.subrange(1, cols.len() as int), col)
    }
}

/// The first entry of the type table matching the name, if any.
pub open spec fn find_type(entries: Seq<(RelationV, DfTypeV)>, rel: RelationV) -> Option<DfTypeV>
    decreases entries.len(),
{
    if entries.len() == 0 {
        None
    } else if entries[0].0 == rel {
        Some(entries[0].1)
    } else {
        find_type(entries.subrange(1, entries.len() as int), rel)
    }
}

/// Compares two schema-qualified names; true exactly when their models
/// are equal.
pub fn relation_eq(a: &Relation, b: &Relation) -> (r: bool)
    ensures
        r == (a@ == b@),
{
    let schema_eq = match (&a.schema, &b.schema) {
        (None, None) => true,
        (Some(x), Some(y)) => string_eq(x, y),
        _ => false,
    };
    let r = schema_eq && string_eq(&a.name, &b.name);
    proof {
        if r {
            assert(a@ =~= b@);
        }
    }
    r
}

/// Compares two column references; true exactly when their models are
/// equal.
pub fn column_eq(a: &Column, b: &Column) -> (r: bool)
    ensures
        r == (a@ == b@),
{
    let table_eq = match (&a.table, &b.table) {
        (None, None) => true,
        (Some(x), Some(y)) => relation_eq(x, y),
        _ => false,
    };
    let r = table_eq && string_eq(&a.name, &b.name);
    proof {
        if r {
            assert(a@ =~= b@);
        }
    }
    r
}

impl LowerContext for StaticContext {
    open spec fn resolve_column_model(&self, col: ColumnV) -> Result<(usize, DfTypeV), ErrorV> {
        match find_column(columns_model(self.columns@), col) {
            Some(p) => Ok(p),
            None => Err(ErrorV::NoSuchColumn(col.name)),
        }
    }

    open spec fn resolve_type_model(&self, ty: RelationV) -> Option<DfTypeV> {
        find_type(types_model(self.types@), ty)
    }

    fn resolve_column(&self, col: Column) -> (r: Result<(usize, DfType), ReadySetError>) {
        let ghost m = columns_model(self.columns@);
        let mut i: usize = 0;
        proof {
            assert(m.subrange(0, m.len() as int) =~= m);
        }
        while i < self.columns.len()
            invariant
                0 <= i <= self.columns@.len(),
                m == columns_model(self.columns@),
                m.len() == self.columns@.len(),
                find_column(m, col@) == find_column(m.subrange(i as int, m.len() as int), col@),
            decreases self.columns@.len() - i,
        {
            proof {
                assert(m[i as int] == (self.columns@[i as int].0@, self.columns@[i as int].1, self.columns@[i as int].2@));
                assert(m.subrange(i as int, m.len() as int)[0] == m[i as int]);
            }
            let entry = &self.columns[i];
            if column_eq(&entry.0, &col) {
                return Ok((entry.1, entry.2.clone()));
            }
            proof {
                assert(m.subrange(i as int, m.len() as int).subrange(
                    1,
                    m.subrange(i as int, m.len() as int).len() as int,
                ) =~= m.subrange(i + 1 as int, m.len() as int));
            }
            i = i + 1;
        }
        proof {
            assert(m.subrange(i as int, m.len() as int).len() == 0);
        }
        Err(ReadySetError::NoSuchColumn(col.name))
    }

    fn resolve_type(&self, ty: Relation) -> (r: Option<DfType>) {
        let ghost m = types_model(self.types@);
        let mut i: usize = 0;
        proof {
            assert(m.subrange(0, m.len() as int) =~= m);
        }
        while i < self.types.len()
            invariant
                0 <= i <= self.types@.len(),
                m == types_model(self.types@),
                m.len() == self.types@.len(),
                find_type(m, ty@) == find_type(m.subrange(i as int, m.len() as int), ty@),
            decreases self.types@.len() - i,
        {
            proof {
                assert(m[i as int] == (self.types@[i as int].0@, self.types@[i as int].1@));
                assert(m.subrange(i as int, m.len() as int)[0] == m[i as int]);
            }
            let entry = &self.types[i];
            if relation_eq(&entry.0, &ty) {
                return Some(entry.1.clone());
            }
            proof {
                assert(m.subrange(i as int, m.len() as int).subrange(
                    1,
                    m.subrange(i as int, m.len() as int).len() as int,
                ) =~= m.subrange(i + 1 as int, m.len() as int));
            }
            i = i + 1;
        }
        proof {
            assert(m.subrange(i as int, m.len() as int).len() == 0);
        }
        None
    }
}

} // verus!
