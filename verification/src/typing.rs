//! The inside-out typing invariant: every compound node of a lowered
//! expression carries a type derivable from its already-typed children,
//! the operator or builtin, and the dialect — and lowering only ever
//! produces such trees, so a parent's type never requires revisiting its
//! children.

use vstd::prelude::*;

use crate::builtins::{
    cast_spec, from_name_and_args_spec, try_cast_spec, type_for_round_spec, tys_of,
};
use crate::dialect::{Dialect, SqlEngine};
use crate::expr::{
    BinaryOperator, BuiltinFunctionV, CaseWhenBranchV, ExprV, NullValueTreatmentArgV,
};
use crate::ast::{
    ast_seq_size, ast_size, branch_seq_size, AstExprV, CaseWhenBranchV as AstCaseWhenBranchV,
    FunctionExprV, InValueV, SqlBinaryOperator, UnaryOperator,
};
use crate::lower::{
    array_spec, binary_op_spec, call_args_spec, case_when_spec, flatten_one_spec,
    flatten_seq_spec, in_comparison_spec, in_fold_spec, in_list_spec, lower_branch_one_spec,
    lower_branches_spec, lower_op_any_all_spec, lower_opt_spec, lower_seq_spec, lower_spec,
    opt_ast_size, substring_spec, wrap_array_layers, LowerContext,
};
use crate::operators::numeric_promotion;
use crate::types::DfTypeV;
use crate::unify::{first_known_index, has_known, unify_postgres_types_spec};

verus! {

/// True of a canonical operator whose result is always boolean.
pub open spec fn bool_yielding(op: BinaryOperator) -> bool {
    ||| op.is_ordering_comparison()
    ||| op is And
    ||| op is Or
    ||| op is Like
    ||| op is ILike
    ||| op is Is
    ||| op is JsonExists
    ||| op is JsonAnyExists
    ||| op is JsonAllExists
}

/// The return type of GREATEST or LEAST as determined by the node's
/// stored arguments and comparison type: PostgreSQL returns the unified
/// comparison type the node stores; MySQL returns the first known
/// argument type, or an empty fixed binary when none is known.
pub open spec fn greatest_least_ty_rule(
    args: Seq<ExprV>,
    compare_as: DfTypeV,
    d: Dialect,
) -> Option<DfTypeV> {
    match d.engine {
        SqlEngine::PostgreSQL => Some(compare_as),
        SqlEngine::MySQL => Some(
            if has_known(tys_of(args)) {
                tys_of(args)[first_known_index(tys_of(args))]
            } else {
                DfTypeV::Binary(0)
            },
        ),
        SqlEngine::MongoDB => None,
    }
}

/// The result type a builtin node's stored children determine, when they
/// determine one. The timezone conversion keeps its subject's pre-cast
/// type, and the JSON strip/extract families pick their result type by
/// the name they were called under, so those determine none.
pub open spec fn builtin_ty_rule(f: BuiltinFunctionV, d: Dialect) -> Option<DfTypeV> {
    match f {
        BuiltinFunctionV::ConvertTZ(_, _, _) => None,
        BuiltinFunctionV::DayOfWeek(_) => Some(DfTypeV::Int),
        BuiltinFunctionV::IfNull(_, b) => Some(b.ty()),
        BuiltinFunctionV::Month(_) => Some(DfTypeV::Int),
        BuiltinFunctionV::Timediff(_, _) => Some(
            DfTypeV::Time { subsecond_digits: d.spec_default_subsecond_digits() },
        ),
        BuiltinFunctionV::Addtime(a, _) => Some(a.ty()),
        BuiltinFunctionV::DateFormat(_, _) => Some(DfTypeV::default_text()),
        BuiltinFunctionV::Round(a, _) => Some(type_for_round_spec(a)),
        BuiltinFunctionV::JsonDepth(_) => Some(DfTypeV::Int),
        BuiltinFunctionV::JsonValid(_) => Some(DfTypeV::BigInt),
        BuiltinFunctionV::JsonOverlaps(_, _) => Some(DfTypeV::BigInt),
        BuiltinFunctionV::JsonQuote(_) => Some(DfTypeV::default_text()),
        BuiltinFunctionV::JsonTypeof(_) => Some(DfTypeV::default_text()),
        BuiltinFunctionV::JsonObject { allow_duplicate_keys, .. } => Some(
            if allow_duplicate_keys {
                DfTypeV::Json
            } else {
                DfTypeV::Jsonb
            },
        ),
        BuiltinFunctionV::JsonArrayLength(_) => Some(DfTypeV::Int),
        BuiltinFunctionV::JsonStripNulls(_) => None,
        BuiltinFunctionV::JsonExtractPath { .. } => None,
        BuiltinFunctionV::JsonbInsert(_, _, _, _) => Some(DfTypeV::Jsonb),
        BuiltinFunctionV::JsonbSet(_, _, _, _, _) => Some(DfTypeV::Jsonb),
        BuiltinFunctionV::JsonbPretty(_) => Some(DfTypeV::default_text()),
        BuiltinFunctionV::Coalesce(a, _) => Some(a.ty()),
        BuiltinFunctionV::Concat(a, _) => Some(a.ty()),
        BuiltinFunctionV::Substring(s, _, _) => Some(
            if s.ty().is_any_text() {
                s.ty()
            } else {
                DfTypeV::default_text()
            },
        ),
        BuiltinFunctionV::SplitPart(_, _, _) => Some(DfTypeV::default_text()),
        BuiltinFunctionV::Greatest { args, compare_as } => greatest_least_ty_rule(
            args,
            compare_as,
            d,
        ),
        BuiltinFunctionV::Least { args, compare_as } => greatest_least_ty_rule(
            args,
            compare_as,
            d,
        ),
        BuiltinFunctionV::ArrayToString(_, _, _) => Some(DfTypeV::default_text()),
    }
}

/// The inside-out typing invariant. A tree is well typed when every node
/// is: a boolean-yielding operator or a NOT or a quantified comparison is
/// typed boolean; an arithmetic node carries the numeric promotion of its
/// operands or, for the negation rewrite, its left operand's type; JSON
/// key extraction follows its left operand's JSON kind; a CASE carries
/// its first branch's body type and has at least one branch; an array
/// carries its unified element type wrapped in one layer per dimension;
/// and a call carries the type its builtin's rule determines.
pub open spec fn well_typed(e: ExprV, d: Dialect) -> bool
    decreases e,
{
    match e {
        ExprV::Literal { .. } => true,
        ExprV::Column { .. } => true,
        ExprV::Op { op, left, right, ty } => well_typed(*left, d) && well_typed(*right, d) && {
            if bool_yielding(op) {
                ty == DfTypeV::Bool
            } else if op.is_arithmetic() {
                ty == numeric_promotion(left.ty(), right.ty()) || ty == left.ty()
            } else if op is JsonKeyExtract {
                ty == (if left.ty() is Jsonb {
                    DfTypeV::Jsonb
                } else {
                    DfTypeV::Json
                })
            } else if op is JsonKeyExtractText {
                ty == DfTypeV::default_text()
            } else {
                true
            }
        },
        ExprV::Not { expr, ty } => well_typed(*expr, d) && ty == DfTypeV::Bool,
        ExprV::Cast { expr, .. } => well_typed(*expr, d),
        ExprV::CaseWhen { branches, else_expr, ty } => well_typed_branches(branches, d)
            && well_typed(*else_expr, d) && branches.len() > 0 && ty == branches[0].body.ty(),
        ExprV::Call { func, ty } => well_typed_builtin(*func, d) && (match builtin_ty_rule(
            *func,
            d,
        ) {
            Some(t) => ty == t,
            None => true,
        }),
        ExprV::Array { elements, shape, ty } => well_typed_seq(elements, d)
            && unify_postgres_types_spec(tys_of(elements)) is Ok && ty == wrap_array_layers(
            unify_postgres_types_spec(tys_of(elements))->Ok_0,
            shape.len(),
        ),
        ExprV::OpAny { left, right, ty, .. } => well_typed(*left, d) && well_typed(*right, d)
            && ty == DfTypeV::Bool,
        ExprV::OpAll { left, right, ty, .. } => well_typed(*left, d) && well_typed(*right, d)
            && ty == DfTypeV::Bool,
    }
}

/// Every expression of the sequence is well typed.
pub open spec fn well_typed_seq(s: Seq<ExprV>, d: Dialect) -> bool
    decreases s,
{
    if s.len() == 0 {
        true
    } else {
        well_typed_seq(s.subrange(0, s.len() - 1), d) && well_typed(s[s.len() - 1], d)
    }
}

/// Every branch's condition and body are well typed.
pub open spec fn well_typed_branches(s: Seq<CaseWhenBranchV>, d: Dialect) -> bool
    decreases s,
{
    if s.len() == 0 {
        true
    } else {
        well_typed_branches(s.subrange(0, s.len() - 1), d) && well_typed(
            s[s.len() - 1].condition,
            d,
        ) && well_typed(s[s.len() - 1].body, d)
    }
}

/// An optional expression is well typed when present.
pub open spec fn well_typed_opt(o: Option<ExprV>, d: Dialect) -> bool
    decreases o,
{
    match o {
        Some(e) => well_typed(e, d),
        None => true,
    }
}

/// Every child expression of the builtin node is well typed.
pub open spec fn well_typed_builtin(f: BuiltinFunctionV, d: Dialect) -> bool
    decreases f,
{
    match f {
        BuiltinFunctionV::ConvertTZ(a, b, c) => well_typed(a, d) && well_typed(b, d) && well_typed(
            c,
            d,
        ),
        BuiltinFunctionV::DayOfWeek(a) => well_typed(a, d),
        BuiltinFunctionV::IfNull(a, b) => well_typed(a, d) && well_typed(b, d),
        BuiltinFunctionV::Month(a) => well_typed(a, d),
        BuiltinFunctionV::Timediff(a, b) => well_typed(a, d) && well_typed(b, d),
        BuiltinFunctionV::Addtime(a, b) => well_typed(a, d) && well_typed(b, d),
        BuiltinFunctionV::DateFormat(a, b) => well_typed(a, d) && well_typed(b, d),
        BuiltinFunctionV::Round(a, b) => well_typed(a, d) && well_typed(b, d),
        BuiltinFunctionV::JsonDepth(a) => well_typed(a, d),
        BuiltinFunctionV::JsonValid(a) => well_typed(a, d),
        BuiltinFunctionV::JsonOverlaps(a, b) => well_typed(a, d) && well_typed(b, d),
        BuiltinFunctionV::JsonQuote(a) => well_typed(a, d),
        BuiltinFunctionV::JsonTypeof(a) => well_typed(a, d),
        BuiltinFunctionV::JsonObject { arg1, arg2, .. } => well_typed(arg1, d) && well_typed_opt(
            arg2,
            d,
        ),
        BuiltinFunctionV::JsonArrayLength(a) => well_typed(a, d),
        BuiltinFunctionV::JsonStripNulls(a) => well_typed(a, d),
        BuiltinFunctionV::JsonExtractPath { json, keys } => well_typed(json, d) && well_typed_seq(
            keys,
            d,
        ),
        BuiltinFunctionV::JsonbInsert(a, b, c, o) => well_typed(a, d) && well_typed(b, d)
            && well_typed(c, d) && well_typed_opt(o, d),
        BuiltinFunctionV::JsonbSet(a, b, c, o, nvt) => well_typed(a, d) && well_typed(b, d)
            && well_typed(c, d) && well_typed_opt(o, d) && (match nvt {
            NullValueTreatmentArgV::ReturnNull => true,
            NullValueTreatmentArgV::Expr(o2) => well_typed_opt(o2, d),
        }),
        BuiltinFunctionV::JsonbPretty(a) => well_typed(a, d),
        BuiltinFunctionV::Coalesce(a, rest) => well_typed(a, d) && well_typed_seq(rest, d),
        BuiltinFunctionV::Concat(a, rest) => well_typed(a, d) && well_typed_seq(rest, d),
        BuiltinFunctionV::Substring(a, pos, len) => well_typed(a, d) && well_typed_opt(pos, d)
            && well_typed_opt(len, d),
        BuiltinFunctionV::SplitPart(a, b, c) => well_typed(a, d) && well_typed(b, d) && well_typed(
            c,
            d,
        ),
        BuiltinFunctionV::Greatest { args, .. } => well_typed_seq(args, d),
        BuiltinFunctionV::Least { args, .. } => well_typed_seq(args, d),
        BuiltinFunctionV::ArrayToString(a, b, o) => well_typed(a, d) && well_typed(b, d)
            && well_typed_opt(o, d),
    }
}

/// A sequence is well typed exactly when each of its expressions is.
pub proof fn lemma_well_typed_seq_iff(s: Seq<ExprV>, d: Dialect)
    ensures
        well_typed_seq(s, d) <==> (forall|i: int| 0 <= i < s.len() ==> well_typed(
            #[trigger] s[i],
            d,
        )),
    decreases s.len(),
{
    if s.len() > 0 {
        let front = s.subrange(0, s.len() - 1);
        lemma_well_typed_seq_iff(front, d);
        assert forall|i: int| 0 <= i < front.len() implies front[i] == s[i] by {}
        if forall|i: int| 0 <= i < s.len() ==> well_typed(#[trigger] s[i], d) {
            assert forall|i: int| 0 <= i < front.len() implies well_typed(
                #[trigger] front[i],
                d,
            ) by {
                assert(front[i] == s[i]);
            }
        }
        if well_typed_seq(s, d) {
            assert forall|i: int| 0 <= i < s.len() implies well_typed(#[trigger] s[i], d) by {
                if i < s.len() - 1 {
                    assert(front[i] == s[i]);
                }
            }
        }
    }
}

/// Casting preserves well-typedness, and the cast result carries the
/// target type.
pub proof fn lemma_cast_spec_well_typed(e: ExprV, t: DfTypeV, d: Dialect)
    requires
        well_typed(e, d),
    ensures
        well_typed(cast_spec(e, t), d),
        cast_spec(e, t).ty() == t,
        well_typed(try_cast_spec(e, t), d),
        try_cast_spec(e, t).ty() == t,
{
}

/// Every builtin node the resolver accepts is well typed, and its result
/// type is the one its rule determines from the node.
#[verifier::rlimit(100)]
#[verifier::spinoff_prover]
pub proof fn lemma_from_name_and_args_well_typed(
    name: Seq<char>,
    args: Seq<ExprV>,
    d: Dialect,
)
    requires
        forall|i: int| 0 <= i < args.len() ==> well_typed(#[trigger] args[i], d),
    ensures
        from_name_and_args_spec(name, args, d) matches Ok(p) ==> well_typed_builtin(p.0, d) && (
        match builtin_ty_rule(p.0, d) {
            Some(t) => p.1 == t,
            None => true,
        }),
{
    reveal(from_name_and_args_spec);
    reveal_strlit("convert_tz");
    reveal_strlit("dayofweek");
    reveal_strlit("ifnull");
    reveal_strlit("month");
    reveal_strlit("timediff");
    reveal_strlit("addtime");
    reveal_strlit("date_format");
    reveal_strlit("round");
    reveal_strlit("json_depth");
    reveal_strlit("json_valid");
    reveal_strlit("json_overlaps");
    reveal_strlit("json_quote");
    reveal_strlit("json_typeof");
    reveal_strlit("jsonb_typeof");
    reveal_strlit("json_object");
    reveal_strlit("jsonb_object");
    reveal_strlit("json_array_length");
    reveal_strlit("jsonb_array_length");
    reveal_strlit("json_strip_nulls");
    reveal_strlit("jsonb_strip_nulls");
    reveal_strlit("json_extract_path");
    reveal_strlit("jsonb_extract_path");
    reveal_strlit("json_extract_path_text");
    reveal_strlit("jsonb_extract_path_text");
    reveal_strlit("jsonb_insert");
    reveal_strlit("jsonb_set");
    reveal_strlit("jsonb_set_lax");
    reveal_strlit("jsonb_pretty");
    reveal_strlit("coalesce");
    reveal_strlit("concat");
    reveal_strlit("substring");
    reveal_strlit("substr");
    reveal_strlit("split_part");
    reveal_strlit("greatest");
    reveal_strlit("least");
    reveal_strlit("array_to_string");
    assert("convert_tz"@.len() == 10);
    assert("dayofweek"@.len() == 9);
    assert("ifnull"@.len() == 6);
    assert("month"@.len() == 5);
    assert("timediff"@.len() == 8);
    assert("addtime"@.len() == 7);
    assert("date_format"@.len() == 11);
    assert("round"@.len() == 5);
    assert("json_depth"@.len() == 10);
    assert("json_valid"@.len() == 10);
    assert("json_overlaps"@.len() == 13);
    assert("json_quote"@.len() == 10);
    assert("json_typeof"@.len() == 11);
    assert("jsonb_typeof"@.len() == 12);
    assert("json_object"@.len() == 11);
    assert("jsonb_object"@.len() == 12);
    assert("json_array_length"@.len() == 17);
    assert("jsonb_array_length"@.len() == 18);
    assert("json_strip_nulls"@.len() == 16);
    assert("jsonb_strip_nulls"@.len() == 17);
    assert("json_extract_path"@.len() == 17);
    assert("jsonb_extract_path"@.len() == 18);
    assert("json_extract_path_text"@.len() == 22);
    assert("jsonb_extract_path_text"@.len() == 23);
    assert("jsonb_insert"@.len() == 12);
    assert("jsonb_set"@.len() == 9);
    assert("jsonb_set_lax"@.len() == 13);
    assert("jsonb_pretty"@.len() == 12);
    assert("coalesce"@.len() == 8);
    assert("concat"@.len() == 6);
    assert("substring"@.len() == 9);
    assert("substr"@.len() == 6);
    assert("split_part"@.len() == 10);
    assert("greatest"@.len() == 8);
    assert("least"@.len() == 5);
    assert("array_to_string"@.len() == 15);
    assert("coalesce"@[0] == 'c');
    assert("concat"@[0] == 'c');
    assert("convert_tz"@[0] == 'c');
    assert("date_format"@[0] == 'd');
    assert("dayofweek"@[0] == 'd');
    assert("greatest"@[0] == 'g');
    assert("ifnull"@[0] == 'i');
    assert("json_array_length"@[4] == '_');
    assert("json_array_length"@[5] == 'a');
    assert("json_depth"@[0] == 'j');
    assert("json_depth"@[5] == 'd');
    assert("json_extract_path"@[4] == '_');
    assert("json_extract_path"@[5] == 'e');
    assert("json_object"@[0] == 'j');
    assert("json_object"@[5] == 'o');
    assert("json_overlaps"@[4] == '_');
    assert("json_quote"@[0] == 'j');
    assert("json_quote"@[5] == 'q');
    assert("json_typeof"@[0] == 'j');
    assert("json_typeof"@[5] == 't');
    assert("json_valid"@[0] == 'j');
    assert("json_valid"@[5] == 'v');
    assert("jsonb_array_length"@[6] == 'a');
    assert("jsonb_extract_path"@[6] == 'e');
    assert("jsonb_insert"@[6] == 'i');
    assert("jsonb_object"@[6] == 'o');
    assert("jsonb_pretty"@[6] == 'p');
    assert("jsonb_set"@[0] == 'j');
    assert("jsonb_set_lax"@[4] == 'b');
    assert("jsonb_strip_nulls"@[4] == 'b');
    assert("jsonb_typeof"@[6] == 't');
    assert("least"@[0] == 'l');
    assert("month"@[0] == 'm');
    assert("round"@[0] == 'r');
    assert("split_part"@[0] == 's');
    assert("substr"@[0] == 's');
    assert("substring"@[0] == 's');
    assert("timediff"@[0] == 't');
    lemma_well_typed_seq_iff(args, d);
    if from_name_and_args_spec(name, args, d) matches Ok(p) {
        if name == "json_extract_path"@ || name == "jsonb_extract_path"@ || name
            == "json_extract_path_text"@ || name == "jsonb_extract_path_text"@ {
            let keys = args.subrange(1, args.len() as int);
            assert forall|i: int| 0 <= i < keys.len() implies well_typed(
                #[trigger] keys[i],
                d,
            ) by {
                assert(keys[i] == args[1 + i]);
            }
            lemma_well_typed_seq_iff(keys, d);
        } else if name == "coalesce"@ {
            let rest = args.subrange(1, args.len() as int);
            assert forall|i: int| 0 <= i < rest.len() implies well_typed(
                #[trigger] rest[i],
                d,
            ) by {
                assert(rest[i] == args[1 + i]);
            }
            lemma_well_typed_seq_iff(rest, d);
        } else if name == "concat"@ {
            let collation = match crate::builtins::first_text_collation(args) {
                Some(c) => c,
                None => crate::types::Collation::Utf8,
            };
            let ty = DfTypeV::Text(collation);
            let rest = Seq::new((args.len() - 1) as nat, |i: int| cast_spec(args[1 + i], ty));
            assert forall|i: int| 0 <= i < rest.len() implies well_typed(
                #[trigger] rest[i],
                d,
            ) by {
                lemma_cast_spec_well_typed(args[1 + i], ty, d);
            }
            lemma_well_typed_seq_iff(rest, d);
            lemma_cast_spec_well_typed(args[0], ty, d);
        } else if name == "convert_tz"@ {
            lemma_cast_spec_well_typed(
                args[0],
                DfTypeV::Timestamp {
                    subsecond_digits: crate::builtins::convert_tz_precision(args[0].ty(), d),
                },
                d,
            );
            lemma_cast_spec_well_typed(args[1], DfTypeV::default_text(), d);
            lemma_cast_spec_well_typed(args[2], DfTypeV::default_text(), d);
        } else if name == "dayofweek"@ || name == "month"@ {
            lemma_cast_spec_well_typed(args[0], DfTypeV::Date, d);
        } else if name == "substring"@ || name == "substr"@ {
            let sty = if args[0].ty().is_any_text() {
                args[0].ty()
            } else {
                DfTypeV::default_text()
            };
            lemma_cast_spec_well_typed(args[0], sty, d);
            if args.len() >= 2 {
                lemma_cast_spec_well_typed(args[1], DfTypeV::BigInt, d);
            }
            if args.len() >= 3 {
                lemma_cast_spec_well_typed(args[2], DfTypeV::BigInt, d);
            }
        } else if name == "split_part"@ {
            lemma_cast_spec_well_typed(args[0], DfTypeV::default_text(), d);
            lemma_cast_spec_well_typed(args[1], DfTypeV::default_text(), d);
            lemma_cast_spec_well_typed(args[2], DfTypeV::Int, d);
        } else if name == "greatest"@ || name == "least"@ {
            lemma_well_typed_seq_iff(args, d);
        } else if name == "array_to_string"@ {
            let elem_ty = match args[0].ty() {
                DfTypeV::Array(t) => *t,
                _ => DfTypeV::Unknown,
            };
            lemma_cast_spec_well_typed(args[0], DfTypeV::Array(Box::new(elem_ty)), d);
        }
    }
}


/// The comparisons an IN desugaring builds are well typed when the reused
/// left operand is.
proof fn lemma_in_comparison_well_typed<C: LowerContext>(
    lhs_l: ExprV,
    el: AstExprV,
    negated: bool,
    d: Dialect,
    ctx: &C,
)
    requires
        well_typed(lhs_l, d),
    ensures
        in_comparison_spec(lhs_l, el, negated, d, ctx) matches Ok(c) ==> well_typed(c, d),
    decreases ast_size(el), 1nat,
{
    reveal_with_fuel(well_typed, 5);
    lemma_lower_well_typed(el, d, ctx);
}

/// An IN fold over a well-typed left operand yields a well-typed chain.
proof fn lemma_in_fold_well_typed<C: LowerContext>(
    lhs_l: ExprV,
    s: Seq<AstExprV>,
    negated: bool,
    d: Dialect,
    ctx: &C,
)
    requires
        well_typed(lhs_l, d),
    ensures
        in_fold_spec(lhs_l, s, negated, d, ctx) matches Ok(r) ==> well_typed(r, d),
    decreases ast_seq_size(s), 2nat,
{
    reveal_with_fuel(well_typed, 5);
    if s.len() == 0 {
    } else if s.len() == 1 {
        lemma_in_comparison_well_typed(lhs_l, s[0], negated, d, ctx);
    } else {
        lemma_seq_front_size(s);
        lemma_in_fold_well_typed(lhs_l, s.subrange(0, s.len() - 1), negated, d, ctx);
        lemma_in_comparison_well_typed(lhs_l, s[s.len() - 1], negated, d, ctx);
    }
}

/// The node-count equation for a non-empty sequence: the whole is the
/// front plus the last element, and every element counts at least one.
proof fn lemma_seq_front_size(s: Seq<AstExprV>)
    requires
        s.len() >= 1,
    ensures
        ast_seq_size(s) == ast_seq_size(s.subrange(0, s.len() - 1)) + ast_size(s[s.len() - 1]),
        ast_size(s[s.len() - 1]) >= 1,
{
    crate::lower::lemma_ast_size_pos(s[s.len() - 1]);
}

/// Every expression a successful list lowering produces is well typed.
proof fn lemma_lower_seq_well_typed<C: LowerContext>(s: Seq<AstExprV>, d: Dialect, ctx: &C)
    ensures
        lower_seq_spec(s, d, ctx) matches Ok(v) ==> forall|i: int| 0 <= i < v.len()
            ==> well_typed(#[trigger] v[i], d),
    decreases ast_seq_size(s), 1nat,
{
    if s.len() > 0 {
        lemma_seq_front_size(s);
        lemma_lower_seq_well_typed(s.subrange(0, s.len() - 1), d, ctx);
        lemma_lower_well_typed(s[s.len() - 1], d, ctx);
    }
}

/// A successfully lowered optional expression is well typed.
proof fn lemma_lower_opt_well_typed<C: LowerContext>(
    o: Option<Box<AstExprV>>,
    d: Dialect,
    ctx: &C,
)
    ensures
        lower_opt_spec(o, d, ctx) matches Ok(v) ==> well_typed_opt(v, d),
    decreases opt_ast_size(o), 1nat,
{
    match o {
        Some(b) => {
            lemma_lower_well_typed(*b, d, ctx);
        },
        None => {},
    }
}

/// A successfully lowered CASE branch has a well-typed condition and body.
proof fn lemma_branch_one_well_typed<C: LowerContext>(
    b: AstCaseWhenBranchV,
    d: Dialect,
    ctx: &C,
)
    ensures
        lower_branch_one_spec(b, d, ctx) matches Ok(br) ==> well_typed(br.condition, d)
            && well_typed(br.body, d),
    decreases ast_size(b.condition) + ast_size(b.body), 1nat,
{
    lemma_lower_well_typed(b.condition, d, ctx);
    lemma_lower_well_typed(b.body, d, ctx);
}

/// Every branch a successful branch-list lowering produces is well typed.
proof fn lemma_branches_well_typed<C: LowerContext>(
    s: Seq<AstCaseWhenBranchV>,
    d: Dialect,
    ctx: &C,
)
    ensures
        lower_branches_spec(s, d, ctx) matches Ok(v) ==> well_typed_branches(v, d),
    decreases branch_seq_size(s), 2nat,
{
    if s.len() > 0 {
        crate::lower::lemma_ast_size_pos(s[s.len() - 1].condition);
        assert(branch_seq_size(s) == branch_seq_size(s.subrange(0, s.len() - 1)) + ast_size(
            s[s.len() - 1].condition,
        ) + ast_size(s[s.len() - 1].body));
        lemma_branches_well_typed(s.subrange(0, s.len() - 1), d, ctx);
        lemma_branch_one_well_typed(s[s.len() - 1], d, ctx);
        if lower_branches_spec(s, d, ctx) is Ok {
            let v = lower_branches_spec(s, d, ctx)->Ok_0;
            assert(v.subrange(0, v.len() - 1) =~= lower_branches_spec(
                s.subrange(0, s.len() - 1),
                d,
                ctx,
            )->Ok_0);
        }
    }
}

/// Every leaf a successful flattening of one array element produces is
/// well typed.
proof fn lemma_flatten_one_well_typed<C: LowerContext>(e: AstExprV, d: Dialect, ctx: &C)
    ensures
        flatten_one_spec(e, d, ctx) matches Ok(v) ==> forall|i: int| 0 <= i < v.len()
            ==> well_typed(#[trigger] v[i], d),
    decreases ast_size(e), 1nat,
{
    match e {
        AstExprV::Array(inner) => {
            lemma_flatten_seq_well_typed(inner, d, ctx);
        },
        _ => {
            lemma_lower_well_typed(e, d, ctx);
        },
    }
}

/// Every leaf a successful flattening produces is well typed.
proof fn lemma_flatten_seq_well_typed<C: LowerContext>(s: Seq<AstExprV>, d: Dialect, ctx: &C)
    ensures
        flatten_seq_spec(s, d, ctx) matches Ok(v) ==> forall|i: int| 0 <= i < v.len()
            ==> well_typed(#[trigger] v[i], d),
    decreases ast_seq_size(s), 2nat,
{
    if s.len() > 0 {
        lemma_seq_front_size(s);
        lemma_flatten_seq_well_typed(s.subrange(0, s.len() - 1), d, ctx);
        lemma_flatten_one_well_typed(s[s.len() - 1], d, ctx);
    }
}

/// A successfully lowered quantified comparison is well typed.
proof fn lemma_op_any_all_well_typed<C: LowerContext>(
    lhs: AstExprV,
    op: SqlBinaryOperator,
    rhs: AstExprV,
    d: Dialect,
    ctx: &C,
    is_all: bool,
)
    ensures
        lower_op_any_all_spec(lhs, op, rhs, d, ctx, is_all) matches Ok(r) ==> well_typed(r, d),
    decreases ast_size(lhs) + ast_size(rhs), 1nat,
{
    reveal(lower_op_any_all_spec);
    reveal_with_fuel(well_typed, 5);
    crate::lower::lemma_ast_size_pos(lhs);
    crate::lower::lemma_ast_size_pos(rhs);
    lemma_lower_well_typed(lhs, d, ctx);
    lemma_lower_well_typed(rhs, d, ctx);
}

/// A successfully resolved ordinary call is well typed.
proof fn lemma_call_args_well_typed<C: LowerContext>(
    name: Seq<char>,
    arguments: Seq<AstExprV>,
    d: Dialect,
    ctx: &C,
)
    ensures
        call_args_spec(name, arguments, d, ctx) matches Ok(r) ==> well_typed(r, d),
    decreases ast_seq_size(arguments), 2nat,
{
    reveal(call_args_spec);
    reveal_with_fuel(well_typed, 5);
    lemma_lower_seq_well_typed(arguments, d, ctx);
    if call_args_spec(name, arguments, d, ctx) is Ok {
        let args = lower_seq_spec(arguments, d, ctx)->Ok_0;
        lemma_from_name_and_args_well_typed(name, args, d);
    }
}

/// A successfully lowered SUBSTRING sugar call is well typed.
proof fn lemma_substring_well_typed<C: LowerContext>(
    string: AstExprV,
    pos: Option<Box<AstExprV>>,
    len: Option<Box<AstExprV>>,
    d: Dialect,
    ctx: &C,
)
    ensures
        substring_spec(string, pos, len, d, ctx) matches Ok(r) ==> well_typed(r, d),
    decreases ast_size(string) + opt_ast_size(pos) + opt_ast_size(len), 2nat,
{
    reveal(substring_spec);
    reveal_with_fuel(well_typed, 5);
    crate::lower::lemma_ast_size_pos(string);
    lemma_lower_well_typed(string, d, ctx);
    lemma_lower_opt_well_typed(pos, d, ctx);
    lemma_lower_opt_well_typed(len, d, ctx);
}

/// A successfully lowered binary operation is well typed.
proof fn lemma_binary_op_well_typed<C: LowerContext>(
    lhs: AstExprV,
    op: SqlBinaryOperator,
    rhs: AstExprV,
    d: Dialect,
    ctx: &C,
)
    ensures
        binary_op_spec(lhs, op, rhs, d, ctx) matches Ok(r) ==> well_typed(r, d),
    decreases ast_size(lhs) + ast_size(rhs), 1nat,
{
    reveal(binary_op_spec);
    reveal_with_fuel(well_typed, 5);
    crate::lower::lemma_ast_size_pos(lhs);
    crate::lower::lemma_ast_size_pos(rhs);
    lemma_lower_well_typed(lhs, d, ctx);
    lemma_lower_well_typed(rhs, d, ctx);
}

/// A successfully lowered CASE is well typed.
proof fn lemma_case_when_well_typed<C: LowerContext>(
    branches: Seq<AstCaseWhenBranchV>,
    else_expr: Option<Box<AstExprV>>,
    d: Dialect,
    ctx: &C,
)
    ensures
        case_when_spec(branches, else_expr, d, ctx) matches Ok(r) ==> well_typed(r, d),
    decreases branch_seq_size(branches) + opt_ast_size(else_expr), 3nat,
{
    reveal(case_when_spec);
    reveal_with_fuel(well_typed, 5);
    lemma_branches_well_typed(branches, d, ctx);
    lemma_lower_opt_well_typed(else_expr, d, ctx);
}

/// A successfully lowered IN list is well typed.
proof fn lemma_in_list_well_typed<C: LowerContext>(
    lhs: AstExprV,
    elems: Seq<AstExprV>,
    negated: bool,
    d: Dialect,
    ctx: &C,
)
    ensures
        in_list_spec(lhs, elems, negated, d, ctx) matches Ok(r) ==> well_typed(r, d),
    decreases ast_size(lhs) + ast_seq_size(elems), 3nat,
{
    reveal(in_list_spec);
    reveal_with_fuel(well_typed, 5);
    if elems.len() > 0 {
        crate::lower::lemma_ast_size_pos(lhs);
        lemma_lower_well_typed(lhs, d, ctx);
        if lower_spec(lhs, d, ctx) is Ok {
            lemma_in_fold_well_typed(lower_spec(lhs, d, ctx)->Ok_0, elems, negated, d, ctx);
        }
    }
}

/// A successfully lowered array literal is well typed.
proof fn lemma_array_well_typed<C: LowerContext>(s: Seq<AstExprV>, d: Dialect, ctx: &C)
    ensures
        array_spec(s, d, ctx) matches Ok(r) ==> well_typed(r, d),
    decreases ast_seq_size(s), 3nat,
{
    reveal(array_spec);
    reveal_with_fuel(well_typed, 5);
    lemma_flatten_seq_well_typed(s, d, ctx);
    if array_spec(s, d, ctx) is Ok {
        let flat = flatten_seq_spec(s, d, ctx)->Ok_0;
        assert(forall|i: int| 0 <= i < flat.len() ==> well_typed(#[trigger] flat[i], d));
        lemma_well_typed_seq_iff(flat, d);
        assert(well_typed_seq(flat, d));
        assert(unify_postgres_types_spec(tys_of(flat)) is Ok);
        let u = unify_postgres_types_spec(tys_of(flat))->Ok_0;
        let shape = crate::lower::shape_spec(AstExprV::Array(s));
        assert(array_spec(s, d, ctx)->Ok_0 == (ExprV::Array {
            elements: flat,
            shape,
            ty: wrap_array_layers(u, shape.len()),
        }));
        assert(well_typed(
            ExprV::Array { elements: flat, shape, ty: wrap_array_layers(u, shape.len()) },
            d,
        ));
    }
}

/// Whatever lowering returns successfully is well typed: every compound
/// node's type was computed inside-out from its already-typed children.
proof fn lemma_lower_well_typed<C: LowerContext>(e: AstExprV, d: Dialect, ctx: &C)
    ensures
        lower_spec(e, d, ctx) matches Ok(r) ==> well_typed(r, d),
    decreases ast_size(e), 0nat,
{
    reveal_with_fuel(well_typed, 5);
    reveal(call_args_spec);
    reveal(substring_spec);
    reveal(binary_op_spec);
    reveal(case_when_spec);
    reveal(in_list_spec);
    reveal(array_spec);
    reveal(lower_op_any_all_spec);
    match e {
        AstExprV::Call(f) => {
            assert(ast_size(e) == 1 + crate::ast::fn_expr_size(f));
            match f {
                FunctionExprV::Call { name, arguments } => {
                    assert(crate::ast::fn_expr_size(f) == ast_seq_size(arguments));
                    lemma_call_args_well_typed(name, arguments, d, ctx);
                    assert(lower_spec(e, d, ctx) == call_args_spec(name, arguments, d, ctx));
                },
                FunctionExprV::Substring { string, pos, len } => {
                    assert(crate::ast::fn_expr_size(f) == ast_size(*string) + opt_ast_size(pos)
                        + opt_ast_size(len));
                    lemma_substring_well_typed(*string, pos, len, d, ctx);
                    assert(lower_spec(e, d, ctx) == substring_spec(*string, pos, len, d, ctx));
                },
                other => {
                    assert(!(other is Call) && !(other is Substring));
                    assert(lower_spec(e, d, ctx) is Err);
                },
            }
        },
        AstExprV::Literal(_) => {},
        AstExprV::Column(_) => {},
        AstExprV::BinaryOp { lhs, op, rhs } => {
            lemma_binary_op_well_typed(*lhs, op, *rhs, d, ctx);
        },
        AstExprV::OpAny { lhs, op, rhs } => {
            lemma_op_any_all_well_typed(*lhs, op, *rhs, d, ctx, false);
        },
        AstExprV::OpSome { lhs, op, rhs } => {
            lemma_op_any_all_well_typed(*lhs, op, *rhs, d, ctx, false);
        },
        AstExprV::OpAll { lhs, op, rhs } => {
            lemma_op_any_all_well_typed(*lhs, op, *rhs, d, ctx, true);
        },
        AstExprV::UnaryOp { op: UnaryOperator::Neg, rhs } => {
            lemma_lower_well_typed(*rhs, d, ctx);
        },
        AstExprV::UnaryOp { op: UnaryOperator::Not, rhs } => {
            lemma_lower_well_typed(*rhs, d, ctx);
        },
        AstExprV::Cast { expr, .. } => {
            lemma_lower_well_typed(*expr, d, ctx);
        },
        AstExprV::CaseWhen { branches, else_expr } => {
            lemma_case_when_well_typed(branches, else_expr, d, ctx);
        },
        AstExprV::In { lhs, rhs: InValueV::List(elems), negated } => {
            lemma_in_list_well_typed(*lhs, elems, negated, d, ctx);
        },
        AstExprV::In { .. } => {},
        AstExprV::Array(elems) => {
            lemma_array_well_typed(elems, d, ctx);
        },
        AstExprV::Exists => {},
        AstExprV::Variable(_) => {},
        AstExprV::Between { .. } => {},
        AstExprV::NestedSelect => {},
    }
}

/// A parent node's type is always derivable from its already-typed
/// children: every tree lowering returns satisfies the inside-out typing
/// invariant, whatever the expression, dialect, and context.
pub proof fn lemma_lowering_inside_out<C: LowerContext>(e: AstExprV, d: Dialect, ctx: &C)
    ensures
        lower_spec(e, d, ctx) matches Ok(r) ==> well_typed(r, d),
{
    lemma_lower_well_typed(e, d, ctx);
}

} // verus!
