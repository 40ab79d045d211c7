//! The typed intermediate representation produced by lowering: an acyclic
//! expression tree in which every node is stamped with its result type,
//! together with its mathematical model.

use vstd::prelude::*;

use crate::types::{DfType, DfTypeV};
use crate::values::{DfValue, DfValueV};

verus! {

/// A canonical binary operator of the intermediate representation, after
/// syntactic variants have been resolved.
#[derive(Clone, Copy, Debug, PartialEq, Eq, Structural)]
pub enum BinaryOperator {
    And,
    Or,
    Like,
    ILike,
    Equal,
    Greater,
    GreaterOrEqual,
    Less,
    LessOrEqual,
    Is,
    Add,
    Subtract,
    Multiply,
    Divide,
    /// The JSON key-exists operator `?`.
    JsonExists,
    /// The JSON any-key-exists operator `?|`.
    JsonAnyExists,
    /// The JSON all-keys-exist operator `?&`.
    JsonAllExists,
    /// PostgreSQL JSON key extraction `->`.
    JsonKeyExtract,
    /// PostgreSQL JSON key extraction as text `->>`.
    JsonKeyExtractText,
    /// MySQL JSON path extraction `->`; rejected at lowering time.
    JsonPathExtract,
    /// MySQL JSON path extraction `->>`; rejected at lowering time.
    JsonPathExtractUnquote,
}

/// How a JSON set operation treats a SQL NULL replacement value.
#[derive(Debug, PartialEq, Eq)]
pub enum NullValueTreatmentArg {
    ReturnNull,
    Expr(Option<Expr>),
}

/// Mathematical model of a [`NullValueTreatmentArg`].
#[verifier::ext_equal]
pub enum NullValueTreatmentArgV {
    ReturnNull,
    Expr(Option<ExprV>),
}

/// A supported builtin function with its already-lowered (possibly cast)
/// argument expressions and function-specific data.
#[derive(Debug, PartialEq, Eq)]
pub enum BuiltinFunction {
    ConvertTZ(Expr, Expr, Expr),
    DayOfWeek(Expr),
    IfNull(Expr, Expr),
    Month(Expr),
    Timediff(Expr, Expr),
    Addtime(Expr, Expr),
    DateFormat(Expr, Expr),
    Round(Expr, Expr),
    JsonDepth(Expr),
    JsonValid(Expr),
    JsonOverlaps(Expr, Expr),
    JsonQuote(Expr),
    JsonTypeof(Expr),
    JsonObject { arg1: Expr, arg2: Option<Expr>, allow_duplicate_keys: bool },
    JsonArrayLength(Expr),
    JsonStripNulls(Expr),
    /// The key list is never empty: an empty list fails with an arity
    /// error at resolution time.
    JsonExtractPath { json: Expr, keys: Vec<Expr> },
    JsonbInsert(Expr, Expr, Expr, Option<Expr>),
    JsonbSet(Expr, Expr, Expr, Option<Expr>, NullValueTreatmentArg),
    JsonbPretty(Expr),
    Coalesce(Expr, Vec<Expr>),
    Concat(Expr, Vec<Expr>),
    Substring(Expr, Option<Expr>, Option<Expr>),
    SplitPart(Expr, Expr, Expr),
    /// The argument list is never empty.
    Greatest { args: Vec<Expr>, compare_as: DfType },
    /// The argument list is never empty.
    Least { args: Vec<Expr>, compare_as: DfType },
    ArrayToString(Expr, Expr, Option<Expr>),
}

/// Mathematical model of a [`BuiltinFunction`].
#[verifier::ext_equal]
pub enum BuiltinFunctionV {
    ConvertTZ(ExprV, ExprV, ExprV),
    DayOfWeek(ExprV),
    IfNull(ExprV, ExprV),
    Month(ExprV),
    Timediff(ExprV, ExprV),
    Addtime(ExprV, ExprV),
    DateFormat(ExprV, ExprV),
    Round(ExprV, ExprV),
    JsonDepth(ExprV),
    JsonValid(ExprV),
    JsonOverlaps(ExprV, ExprV),
    JsonQuote(ExprV),
    JsonTypeof(ExprV),
    JsonObject { arg1: ExprV, arg2: Option<ExprV>, allow_duplicate_keys: bool },
    JsonArrayLength(ExprV),
    JsonStripNulls(ExprV),
    JsonExtractPath { json: ExprV, keys: Seq<ExprV> },
    JsonbInsert(ExprV, ExprV, ExprV, Option<ExprV>),
    JsonbSet(ExprV, ExprV, ExprV, Option<ExprV>, NullValueTreatmentArgV),
    JsonbPretty(ExprV),
    Coalesce(ExprV, Seq<ExprV>),
    Concat(ExprV, Seq<ExprV>),
    Substring(ExprV, Option<ExprV>, Option<ExprV>),
    SplitPart(ExprV, ExprV, ExprV),
    Greatest { args: Seq<ExprV>, compare_as: DfTypeV },
    Least { args: Seq<ExprV>, compare_as: DfTypeV },
    ArrayToString(ExprV, ExprV, Option<ExprV>),
}

/// One WHEN/THEN branch of a lowered CASE expression.
#[derive(Debug, PartialEq, Eq)]
pub struct CaseWhenBranch {
    pub condition: Expr,
    pub body: Expr,
}

/// Mathematical model of a lowered CASE branch.
#[verifier::ext_equal]
pub struct CaseWhenBranchV {
    pub condition: ExprV,
    pub body: ExprV,
}

/// A lowered, fully typed expression node.
#[derive(Debug, PartialEq, Eq)]
pub enum Expr {
    Literal { val: DfValue, ty: DfType },
    Column { index: usize, ty: DfType },
    Op { op: BinaryOperator, left: Box<Expr>, right: Box<Expr>, ty: DfType },
    Not { expr: Box<Expr>, ty: DfType },
    Cast { expr: Box<Expr>, ty: DfType, null_on_failure: bool },
    CaseWhen { branches: Vec<CaseWhenBranch>, else_expr: Box<Expr>, ty: DfType },
    Call { func: Box<BuiltinFunction>, ty: DfType },
    Array { elements: Vec<Expr>, shape: Vec<usize>, ty: DfType },
    OpAny { op: BinaryOperator, left: Box<Expr>, right: Box<Expr>, ty: DfType },
    OpAll { op: BinaryOperator, left: Box<Expr>, right: Box<Expr>, ty: DfType },
}

/// Mathematical model of a lowered expression node.
#[verifier::ext_equal]
pub enum ExprV {
    Literal { val: DfValueV, ty: DfTypeV },
    Column { index: usize, ty: DfTypeV },
    Op { op: BinaryOperator, left: Box<ExprV>, right: Box<ExprV>, ty: DfTypeV },
    Not { expr: Box<ExprV>, ty: DfTypeV },
    Cast { expr: Box<ExprV>, ty: DfTypeV, null_on_failure: bool },
    CaseWhen { branches: Seq<CaseWhenBranchV>, else_expr: Box<ExprV>, ty: DfTypeV },
    Call { func: Box<BuiltinFunctionV>, ty: DfTypeV },
    Array { elements: Seq<ExprV>, shape: Seq<usize>, ty: DfTypeV },
    OpAny { op: BinaryOperator, left: Box<ExprV>, right: Box<ExprV>, ty: DfTypeV },
    OpAll { op: BinaryOperator, left: Box<ExprV>, right: Box<ExprV>, ty: DfTypeV },
}

/// Maps a lowered expression to its mathematical model.
pub open spec fn expr_view(e: Expr) -> ExprV
    decreases e,
{
    match e {
        Expr::Literal { val, ty } => ExprV::Literal { val: val@, ty: ty@ },
        Expr::Column { index, ty } => ExprV::Column { index, ty: ty@ },
        Expr::Op { op, left, right, ty } => ExprV::Op {
            op,
            left: Box::new(expr_view(*left)),
            right: Box::new(expr_view(*right)),
            ty: ty@,
        },
        Expr::Not { expr, ty } => ExprV::Not { expr: Box::new(expr_view(*expr)), ty: ty@ },
        Expr::Cast { expr, ty, null_on_failure } => ExprV::Cast {
            expr: Box::new(expr_view(*expr)),
            ty: ty@,
            null_on_failure,
        },
        Expr::CaseWhen { branches, else_expr, ty } => ExprV::CaseWhen {
            branches: ir_branches_view(branches@),
            else_expr: Box::new(expr_view(*else_expr)),
            ty: ty@,
        },
        Expr::Call { func, ty } => ExprV::Call { func: Box::new(builtin_view(*func)), ty: ty@ },
        Expr::Array { elements, shape, ty } => ExprV::Array {
            elements: expr_seq_view(elements@),
            shape: shape@,
            ty: ty@,
        },
        Expr::OpAny { op, left, right, ty } => ExprV::OpAny {
            op,
            left: Box::new(expr_view(*left)),
            right: Box::new(expr_view(*right)),
            ty: ty@,
        },
        Expr::OpAll { op, left, right, ty } => ExprV::OpAll {
            op,
            left: Box::new(expr_view(*left)),
            right: Box::new(expr_view(*right)),
            ty: ty@,
        },
    }
}

/// Maps a sequence of lowered expressions to their models, in order.
pub open spec fn expr_seq_view(s: Seq<Expr>) -> Seq<ExprV>
    decreases s,
{
    if s.len() == 0 {
        Seq::empty()
    } else {
        expr_seq_view(s.subrange(0, s.len() - 1)).push(expr_view(s[s.len() - 1]))
    }
}

/// Maps an optional lowered expression to its model.
pub open spec fn opt_expr_view(o: Option<Expr>) -> Option<ExprV>
    decreases o,
{
    match o {
        Some(e) => Some(expr_view(e)),
        None => None,
    }
}

/// Maps a sequence of lowered CASE branches to their models, in order.
pub open spec fn ir_branches_view(s: Seq<CaseWhenBranch>) -> Seq<CaseWhenBranchV>
    decreases s,
{
    if s.len() == 0 {
        Seq::empty()
    } else {
        ir_branches_view(s.subrange(0, s.len() - 1)).push(
            CaseWhenBranchV {
                condition: expr_view(s[s.len() - 1].condition),
                body: expr_view(s[s.len() - 1].body),
            },
        )
    }
}

/// Maps a builtin function node to its mathematical model.
pub open spec fn builtin_view(f: BuiltinFunction) -> BuiltinFunctionV
    decreases f,
{
    match f {
        BuiltinFunction::ConvertTZ(a, b, c) => BuiltinFunctionV::ConvertTZ(
            expr_view(a),
            expr_view(b),
            expr_view(c),
        ),
        BuiltinFunction::DayOfWeek(a) => BuiltinFunctionV::DayOfWeek(expr_view(a)),
        BuiltinFunction::IfNull(a, b) => BuiltinFunctionV::IfNull(expr_view(a), expr_view(b)),
        BuiltinFunction::Month(a) => BuiltinFunctionV::Month(expr_view(a)),
        BuiltinFunction::Timediff(a, b) => BuiltinFunctionV::Timediff(expr_view(a), expr_view(b)),
        BuiltinFunction::Addtime(a, b) => BuiltinFunctionV::Addtime(expr_view(a), expr_view(b)),
        BuiltinFunction::DateFormat(a, b) => BuiltinFunctionV::DateFormat(expr_view(a), expr_view(b)),
        BuiltinFunction::Round(a, b) => BuiltinFunctionV::Round(expr_view(a), expr_view(b)),
        BuiltinFunction::JsonDepth(a) => BuiltinFunctionV::JsonDepth(expr_view(a)),
        BuiltinFunction::JsonValid(a) => BuiltinFunctionV::JsonValid(expr_view(a)),
        BuiltinFunction::JsonOverlaps(a, b) => BuiltinFunctionV::JsonOverlaps(
            expr_view(a),
            expr_view(b),
        ),
        BuiltinFunction::JsonQuote(a) => BuiltinFunctionV::JsonQuote(expr_view(a)),
        BuiltinFunction::JsonTypeof(a) => BuiltinFunctionV::JsonTypeof(expr_view(a)),
        BuiltinFunction::JsonObject { arg1, arg2, allow_duplicate_keys } => BuiltinFunctionV::JsonObject {
            arg1: expr_view(arg1),
            arg2: opt_expr_view(arg2),
            allow_duplicate_keys,
        },
        BuiltinFunction::JsonArrayLength(a) => BuiltinFunctionV::JsonArrayLength(expr_view(a)),
        BuiltinFunction::JsonStripNulls(a) => BuiltinFunctionV::JsonStripNulls(expr_view(a)),
        BuiltinFunction::JsonExtractPath { json, keys } => BuiltinFunctionV::JsonExtractPath {
            json: expr_view(json),
            keys: expr_seq_view(keys@),
        },
        BuiltinFunction::JsonbInsert(a, b, c, d) => BuiltinFunctionV::JsonbInsert(
            expr_view(a),
            expr_view(b),
            expr_view(c),
            opt_expr_view(d),
        ),
        BuiltinFunction::JsonbSet(a, b, c, d, nvt) => BuiltinFunctionV::JsonbSet(
            expr_view(a),
            expr_view(b),
            expr_view(c),
            opt_expr_view(d),
            match nvt {
                NullValueTreatmentArg::ReturnNull => NullValueTreatmentArgV::ReturnNull,
                NullValueTreatmentArg::Expr(o) => NullValueTreatmentArgV::Expr(opt_expr_view(o)),
            },
        ),
        BuiltinFunction::JsonbPretty(a) => BuiltinFunctionV::JsonbPretty(expr_view(a)),
        BuiltinFunction::Coalesce(a, rest) => BuiltinFunctionV::Coalesce(
            expr_view(a),
            expr_seq_view(rest@),
        ),
        BuiltinFunction::Concat(a, rest) => BuiltinFunctionV::Concat(
            expr_view(a),
            expr_seq_view(rest@),
        ),
        BuiltinFunction::Substring(a, pos, len) => BuiltinFunctionV::Substring(
            expr_view(a),
            opt_expr_view(pos),
            opt_expr_view(len),
        ),
        BuiltinFunction::SplitPart(a, b, c) => BuiltinFunctionV::SplitPart(
            expr_view(a),
            expr_view(b),
            expr_view(c),
        ),
        BuiltinFunction::Greatest { args, compare_as } => BuiltinFunctionV::Greatest {
            args: expr_seq_view(args@),
            compare_as: compare_as@,
        },
        BuiltinFunction::Least { args, compare_as } => BuiltinFunctionV::Least {
            args: expr_seq_view(args@),
            compare_as: compare_as@,
        },
        BuiltinFunction::ArrayToString(a, b, c) => BuiltinFunctionV::ArrayToString(
            expr_view(a),
            expr_view(b),
            opt_expr_view(c),
        ),
    }
}

impl View for Expr {
    type V = ExprV;

    open spec fn view(&self) -> ExprV {
        expr_view(*self)
    }
}

impl ExprV {
    /// The result type stamped on this node.
    pub open spec fn ty(self) -> DfTypeV {
        match self {
            ExprV::Literal { ty, .. } => ty,
            ExprV::Column { ty, .. } => ty,
            ExprV::Op { ty, .. } => ty,
            ExprV::Not { ty, .. } => ty,
            ExprV::Cast { ty, .. } => ty,
            ExprV::CaseWhen { ty, .. } => ty,
            ExprV::Call { ty, .. } => ty,
            ExprV::Array { ty, .. } => ty,
            ExprV::OpAny { ty, .. } => ty,
            ExprV::OpAll { ty, .. } => ty,
        }
    }
}

impl Expr {
    /// The result type stamped on this node.
    pub fn ty(&self) -> (t: &DfType)
        ensures
            t@ == self@.ty(),
    {
        match self {
            Expr::Literal { ty, .. } => ty,
            Expr::Column { ty, .. } => ty,
            Expr::Op { ty, .. } => ty,
            Expr::Not { ty, .. } => ty,
            Expr::Cast { ty, .. } => ty,
            Expr::CaseWhen { ty, .. } => ty,
            Expr::Call { ty, .. } => ty,
            Expr::Array { ty, .. } => ty,
            Expr::OpAny { ty, .. } => ty,
            Expr::OpAll { ty, .. } => ty,
        }
    }
}

/// The model of a sequence of expressions has the same length, and its
/// elements are the models of the elements.
pub proof fn lemma_expr_seq_view(s: Seq<Expr>)
    ensures
        expr_seq_view(s).len() == s.len(),
        forall|i: int| 0 <= i < s.len() ==> #[trigger] expr_seq_view(s)[i] == expr_view(s[i]),
    decreases s.len(),
{
    if s.len() > 0 {
        let front = s.subrange(0, s.len() - 1);
        lemma_expr_seq_view(front);
        assert forall|i: int| 0 <= i < s.len() implies #[trigger] expr_seq_view(s)[i] == expr_view(s[i]) by {
            if i < s.len() - 1 {
                assert(front[i] == s[i]);
                assert(expr_seq_view(s)[i] == expr_seq_view(front)[i]);
            }
        }
    }
}

/// Copies a vector of widths, preserving its model.
fn clone_usize_vec(v: &Vec<usize>) -> (r: Vec<usize>)
    ensures
        r@ == v@,
{
    let mut out: Vec<usize> = Vec::new();
    let mut i: usize = 0;
    while i < v.len()
        invariant
            i <= v.len(),
            out@ == v@.subrange(0, i as int),
        decreases v.len() - i,
    {
        out.push(v[i]);
        proof {
            assert(out@ =~= v@.subrange(0, i + 1 as int));
        }
        i = i + 1;
    }
    proof {
        assert(out@ =~= v@);
    }
    out
}

/// Copies a vector of lowered expressions, preserving its model.
fn clone_expr_vec(v: &Vec<Expr>) -> (r: Vec<Expr>)
    ensures
        expr_seq_view(r@) == expr_seq_view(v@),
    decreases *v,
{
    let mut out: Vec<Expr> = Vec::new();
    let mut i: usize = 0;
    while i < v.len()
        invariant
            i <= v.len(),
            out@.len() == i,
            forall|k: int| 0 <= k < i ==> expr_view(#[trigger] out@[k]) == expr_view(v@[k]),
        decreases v.len() - i,
    {
        proof {
            assert(decreases_to!(*v => v@));
            assert(decreases_to!(v@ => v@[i as int]));
        }
        let e = v[i].clone();
        out.push(e);
        i = i + 1;
    }
    proof {
        lemma_expr_seq_view(out@);
        lemma_expr_seq_view(v@);
        assert(expr_seq_view(out@) =~= expr_seq_view(v@));
    }
    out
}

/// Copies an optional lowered expression, preserving its model.
fn clone_opt_expr(o: &Option<Expr>) -> (r: Option<Expr>)
    ensures
        opt_expr_view(r) == opt_expr_view(*o),
    decreases *o,
{
    match o {
        Some(e) => Some(e.clone()),
        None => None,
    }
}

/// Copies a vector of lowered CASE branches, preserving its model.
fn clone_branch_vec(v: &Vec<CaseWhenBranch>) -> (r: Vec<CaseWhenBranch>)
    ensures
        ir_branches_view(r@) == ir_branches_view(v@),
    decreases *v,
{
    let mut out: Vec<CaseWhenBranch> = Vec::new();
    let mut i: usize = 0;
    while i < v.len()
        invariant
            i <= v.len(),
            out@.len() == i,
            forall|k: int| 0 <= k < i ==> expr_view(#[trigger] out@[k].condition) == expr_view(v@[k].condition)
                && expr_view(out@[k].body) == expr_view(v@[k].body),
        decreases v.len() - i,
    {
        proof {
            assert(decreases_to!(*v => v@));
            assert(decreases_to!(v@ => v@[i as int]));
        }
        let c = v[i].condition.clone();
        let b = v[i].body.clone();
        out.push(CaseWhenBranch { condition: c, body: b });
        i = i + 1;
    }
    proof {
        lemma_ir_branches_view(out@);
        lemma_ir_branches_view(v@);
        assert(ir_branches_view(out@) =~= ir_branches_view(v@));
    }
    out
}

/// The model of a branch sequence has the same length, and its elements
/// are the models of the branches.
pub proof fn lemma_ir_branches_view(s: Seq<CaseWhenBranch>)
    ensures
        ir_branches_view(s).len() == s.len(),
        forall|i: int| 0 <= i < s.len() ==> #[trigger] ir_branches_view(s)[i] == (CaseWhenBranchV {
            condition: expr_view(s[i].condition),
            body: expr_view(s[i].body),
        }),
    decreases s.len(),
{
    if s.len() > 0 {
        let front = s.subrange(0, s.len() - 1);
        lemma_ir_branches_view(front);
        assert forall|i: int| 0 <= i < s.len() implies #[trigger] ir_branches_view(s)[i] == (CaseWhenBranchV {
            condition: expr_view(s[i].condition),
            body: expr_view(s[i].body),
        }) by {
            if i < s.len() - 1 {
                assert(front[i] == s[i]);
                assert(ir_branches_view(s)[i] == ir_branches_view(front)[i]);
            }
        }
    }
}

impl Clone for BuiltinFunction {
    /// Copies the builtin node, preserving its model.
    fn clone(&self) -> (r: Self)
        ensures
            builtin_view(r) == builtin_view(*self),
        decreases *self,
    {
        match self {
            BuiltinFunction::ConvertTZ(a, b, c) => BuiltinFunction::ConvertTZ(
                a.clone(),
                b.clone(),
                c.clone(),
            ),
            BuiltinFunction::DayOfWeek(a) => BuiltinFunction::DayOfWeek(a.clone()),
            BuiltinFunction::IfNull(a, b) => BuiltinFunction::IfNull(a.clone(), b.clone()),
            BuiltinFunction::Month(a) => BuiltinFunction::Month(a.clone()),
            BuiltinFunction::Timediff(a, b) => BuiltinFunction::Timediff(a.clone(), b.clone()),
            BuiltinFunction::Addtime(a, b) => BuiltinFunction::Addtime(a.clone(), b.clone()),
            BuiltinFunction::DateFormat(a, b) => BuiltinFunction::DateFormat(a.clone(), b.clone()),
            BuiltinFunction::Round(a, b) => BuiltinFunction::Round(a.clone(), b.clone()),
            BuiltinFunction::JsonDepth(a) => BuiltinFunction::JsonDepth(a.clone()),
            BuiltinFunction::JsonValid(a) => BuiltinFunction::JsonValid(a.clone()),
            BuiltinFunction::JsonOverlaps(a, b) => BuiltinFunction::JsonOverlaps(a.clone(), b.clone()),
            BuiltinFunction::JsonQuote(a) => BuiltinFunction::JsonQuote(a.clone()),
            BuiltinFunction::JsonTypeof(a) => BuiltinFunction::JsonTypeof(a.clone()),
            BuiltinFunction::JsonObject { arg1, arg2, allow_duplicate_keys } => BuiltinFunction::JsonObject {
                arg1: arg1.clone(),
                arg2: clone_opt_expr(arg2),
                allow_duplicate_keys: *allow_duplicate_keys,
            },
            BuiltinFunction::JsonArrayLength(a) => BuiltinFunction::JsonArrayLength(a.clone()),
            BuiltinFunction::JsonStripNulls(a) => BuiltinFunction::JsonStripNulls(a.clone()),
            BuiltinFunction::JsonExtractPath { json, keys } => BuiltinFunction::JsonExtractPath {
                json: json.clone(),
                keys: clone_expr_vec(keys),
            },
            BuiltinFunction::JsonbInsert(a, b, c, d) => BuiltinFunction::JsonbInsert(
                a.clone(),
                b.clone(),
                c.clone(),
                clone_opt_expr(d),
            ),
            BuiltinFunction::JsonbSet(a, b, c, d, nvt) => BuiltinFunction::JsonbSet(
                a.clone(),
                b.clone(),
                c.clone(),
                clone_opt_expr(d),
                match nvt {
                    NullValueTreatmentArg::ReturnNull => NullValueTreatmentArg::ReturnNull,
                    NullValueTreatmentArg::Expr(o) => NullValueTreatmentArg::Expr(clone_opt_expr(o)),
                },
            ),
            BuiltinFunction::JsonbPretty(a) => BuiltinFunction::JsonbPretty(a.clone()),
            BuiltinFunction::Coalesce(a, rest) => BuiltinFunction::Coalesce(
                a.clone(),
                clone_expr_vec(rest),
            ),
            BuiltinFunction::Concat(a, rest) => BuiltinFunction::Concat(
                a.clone(),
                clone_expr_vec(rest),
            ),
            BuiltinFunction::Substring(a, pos, len) => BuiltinFunction::Substring(
                a.clone(),
                clone_opt_expr(pos),
                clone_opt_expr(len),
            ),
            BuiltinFunction::SplitPart(a, b, c) => BuiltinFunction::SplitPart(
                a.clone(),
                b.clone(),
                c.clone(),
            ),
            BuiltinFunction::Greatest { args, compare_as } => BuiltinFunction::Greatest {
                args: clone_expr_vec(args),
                compare_as: compare_as.clone(),
            },
            BuiltinFunction::Least { args, compare_as } => BuiltinFunction::Least {
                args: clone_expr_vec(args),
                compare_as: compare_as.clone(),
            },
            BuiltinFunction::ArrayToString(a, b, c) => BuiltinFunction::ArrayToString(
                a.clone(),
                b.clone(),
                clone_opt_expr(c),
            ),
        }
    }
}

impl Clone for Expr {
    /// Copies the expression tree, preserving its model.
    fn clone(&self) -> (r: Self)
        ensures
            r@ == self@,
        decreases *self,
    {
        match self {
            Expr::Literal { val, ty } => Expr::Literal { val: val.clone(), ty: ty.clone() },
            Expr::Column { index, ty } => Expr::Column { index: *index, ty: ty.clone() },
            Expr::Op { op, left, right, ty } => Expr::Op {
                op: *op,
                left: Box::new((**left).clone()),
                right: Box::new((**right).clone()),
                ty: ty.clone(),
            },
            Expr::Not { expr, ty } => Expr::Not {
                expr: Box::new((**expr).clone()),
                ty: ty.clone(),
            },
            Expr::Cast { expr, ty, null_on_failure } => Expr::Cast {
                expr: Box::new((**expr).clone()),
                ty: ty.clone(),
                null_on_failure: *null_on_failure,
            },
            Expr::CaseWhen { branches, else_expr, ty } => Expr::CaseWhen {
                branches: clone_branch_vec(branches),
                else_expr: Box::new((**else_expr).clone()),
                ty: ty.clone(),
            },
            Expr::Call { func, ty } => Expr::Call {
                func: Box::new((**func).clone()),
                ty: ty.clone(),
            },
            Expr::Array { elements, shape, ty } => Expr::Array {
                elements: clone_expr_vec(elements),
                shape: clone_usize_vec(shape),
                ty: ty.clone(),
            },
            Expr::OpAny { op, left, right, ty } => Expr::OpAny {
                op: *op,
                left: Box::new((**left).clone()),
                right: Box::new((**right).clone()),
                ty: ty.clone(),
            },
            Expr::OpAll { op, left, right, ty } => Expr::OpAll {
                op: *op,
                left: Box::new((**left).clone()),
                right: Box::new((**right).clone()),
                ty: ty.clone(),
            },
        }
    }
}

} // verus!
