//! Laws of the lowering engine, stated and proved against its
//! mathematical model.

use vstd::prelude::*;

use crate::ast::{AstExprV, InValueV};
use crate::builtins::from_name_and_args_spec;
use crate::dialect::Dialect;
use crate::error::ErrorV;
use crate::expr::{BinaryOperator, BuiltinFunctionV, ExprV};
use crate::lower::{
    in_comparison_spec, in_fold_spec, in_list_spec, lower_op_any_all_spec, lower_spec, LowerContext,
};
use crate::operators::output_type_spec;
use crate::types::DfTypeV;
use crate::values::DfValueV;

verus! {

/// Lowering is deterministic: identical inputs (syntax tree, dialect, and
/// context) always yield a structurally and type-identical result. This
/// follows from the driver's contract, which pins its result to
/// `lower_spec`, a pure function of the three inputs.
pub proof fn lemma_lowering_deterministic<C: LowerContext>(
    e1: AstExprV,
    e2: AstExprV,
    d1: Dialect,
    d2: Dialect,
    ctx: &C,
)
    requires
        e1 == e2,
        d1 == d2,
    ensures
        lower_spec(e1, d1, ctx) == lower_spec(e2, d2, ctx),
{
}

/// An IN over an empty list lowers to a NULL literal typed boolean, and a
/// NOT IN over an empty list to the integer literal one typed boolean.
pub proof fn lemma_empty_in_list<C: LowerContext>(lhs: AstExprV, d: Dialect, ctx: &C)
    ensures
        lower_spec(
            AstExprV::In { lhs: Box::new(lhs), rhs: InValueV::List(Seq::empty()), negated: false },
            d,
            ctx,
        ) == Ok::<ExprV, ErrorV>(ExprV::Literal { val: DfValueV::Null, ty: DfTypeV::Bool }),
        lower_spec(
            AstExprV::In { lhs: Box::new(lhs), rhs: InValueV::List(Seq::empty()), negated: true },
            d,
            ctx,
        ) == Ok::<ExprV, ErrorV>(ExprV::Literal { val: DfValueV::Int(1), ty: DfTypeV::Bool }),
{
    reveal(in_list_spec);
    assert(lower_spec(
        AstExprV::In { lhs: Box::new(lhs), rhs: InValueV::List(Seq::empty()), negated: false },
        d,
        ctx,
    ) == in_list_spec(lhs, Seq::<AstExprV>::empty(), false, d, ctx));
    assert(lower_spec(
        AstExprV::In { lhs: Box::new(lhs), rhs: InValueV::List(Seq::empty()), negated: true },
        d,
        ctx,
    ) == in_list_spec(lhs, Seq::<AstExprV>::empty(), true, d, ctx));
}

/// EXISTS and free variables always fail as unsupported, under every
/// dialect and context.
pub proof fn lemma_exists_and_variables_unsupported<C: LowerContext>(
    name: Seq<char>,
    d: Dialect,
    ctx: &C,
)
    ensures
        lower_spec(AstExprV::Exists, d, ctx) is Err,
        lower_spec(AstExprV::Exists, d, ctx)->Err_0 is Unsupported,
        lower_spec(AstExprV::Variable(name), d, ctx) is Err,
        lower_spec(AstExprV::Variable(name), d, ctx)->Err_0 is Unsupported,
{
}

/// The single comparison the IN desugaring builds for one list element:
/// the element lowered and compared for equality against the
/// already-lowered left operand, wrapped in NOT for NOT IN.
pub open spec fn in_cmp<C: LowerContext>(
    lhs_l: ExprV,
    el: AstExprV,
    negated: bool,
    d: Dialect,
    ctx: &C,
) -> ExprV {
    let equal = ExprV::Op {
        op: BinaryOperator::Equal,
        left: Box::new(lhs_l),
        right: Box::new(lower_spec(el, d, ctx)->Ok_0),
        ty: DfTypeV::Bool,
    };
    if negated {
        ExprV::Not { expr: Box::new(equal), ty: DfTypeV::Bool }
    } else {
        equal
    }
}

/// `x IN (a, b, c)` lowers to the left-associated disjunction
/// `(x = a OR x = b) OR x = c`, with the lowered left operand reused in
/// every comparison; `x NOT IN (a, b, c)` lowers the same way with
/// negated comparisons joined by AND.
pub proof fn lemma_in_three_desugars<C: LowerContext>(
    lhs: AstExprV,
    a: AstExprV,
    b: AstExprV,
    c: AstExprV,
    negated: bool,
    d: Dialect,
    ctx: &C,
)
    requires
        lower_spec(lhs, d, ctx) is Ok,
        lower_spec(a, d, ctx) is Ok,
        lower_spec(b, d, ctx) is Ok,
        lower_spec(c, d, ctx) is Ok,
    ensures
        lower_spec(
            AstExprV::In { lhs: Box::new(lhs), rhs: InValueV::List(seq![a, b, c]), negated },
            d,
            ctx,
        ) == Ok::<ExprV, ErrorV>(
            ExprV::Op {
                op: if negated {
                    BinaryOperator::And
                } else {
                    BinaryOperator::Or
                },
                left: Box::new(
                    ExprV::Op {
                        op: if negated {
                            BinaryOperator::And
                        } else {
                            BinaryOperator::Or
                        },
                        left: Box::new(
                            in_cmp(lower_spec(lhs, d, ctx)->Ok_0, a, negated, d, ctx),
                        ),
                        right: Box::new(
                            in_cmp(lower_spec(lhs, d, ctx)->Ok_0, b, negated, d, ctx),
                        ),
                        ty: DfTypeV::Bool,
                    },
                ),
                right: Box::new(in_cmp(lower_spec(lhs, d, ctx)->Ok_0, c, negated, d, ctx)),
                ty: DfTypeV::Bool,
            },
        ),
{
    reveal(in_list_spec);
    let s = seq![a, b, c];
    let lhs_l = lower_spec(lhs, d, ctx)->Ok_0;
    assert(s.len() == 3);
    assert(s[0] == a && s[1] == b && s[2] == c);
    assert(in_comparison_spec(lhs_l, a, negated, d, ctx) == Ok::<ExprV, ErrorV>(
        in_cmp(lhs_l, a, negated, d, ctx),
    ));
    assert(in_comparison_spec(lhs_l, b, negated, d, ctx) == Ok::<ExprV, ErrorV>(
        in_cmp(lhs_l, b, negated, d, ctx),
    ));
    assert(in_comparison_spec(lhs_l, c, negated, d, ctx) == Ok::<ExprV, ErrorV>(
        in_cmp(lhs_l, c, negated, d, ctx),
    ));
    let s2 = s.subrange(0, 2);
    let s1 = s2.subrange(0, 1);
    assert(s1[0] == a && s1.len() == 1);
    assert(in_fold_spec(lhs_l, s1, negated, d, ctx) == Ok::<ExprV, ErrorV>(
        in_cmp(lhs_l, a, negated, d, ctx),
    ));
    assert(s2[1] == b && s2.len() == 2);
    assert(in_fold_spec(lhs_l, s2, negated, d, ctx) == Ok::<ExprV, ErrorV>(
        ExprV::Op {
            op: if negated {
                BinaryOperator::And
            } else {
                BinaryOperator::Or
            },
            left: Box::new(in_cmp(lhs_l, a, negated, d, ctx)),
            right: Box::new(in_cmp(lhs_l, b, negated, d, ctx)),
            ty: DfTypeV::Bool,
        },
    ));
    assert(s.subrange(0, s.len() - 1) =~= s2);
    let inner = ExprV::Op {
        op: if negated {
            BinaryOperator::And
        } else {
            BinaryOperator::Or
        },
        left: Box::new(in_cmp(lhs_l, a, negated, d, ctx)),
        right: Box::new(in_cmp(lhs_l, b, negated, d, ctx)),
        ty: DfTypeV::Bool,
    };
    let outer = ExprV::Op {
        op: if negated {
            BinaryOperator::And
        } else {
            BinaryOperator::Or
        },
        left: Box::new(inner),
        right: Box::new(in_cmp(lhs_l, c, negated, d, ctx)),
        ty: DfTypeV::Bool,
    };
    assert(in_fold_spec(lhs_l, s, negated, d, ctx) == Ok::<ExprV, ErrorV>(outer));
    assert(in_list_spec(lhs, s, negated, d, ctx) == Ok::<ExprV, ErrorV>(outer));
    assert(lower_spec(
        AstExprV::In { lhs: Box::new(lhs), rhs: InValueV::List(s), negated },
        d,
        ctx,
    ) == in_list_spec(lhs, s, negated, d, ctx));
}

/// The argument-count window of every builtin that takes a bounded
/// number of arguments and is not gated on the dialect before its count
/// is checked.
pub open spec fn arity_window(name: Seq<char>) -> Option<(int, int)> {
    if name == "convert_tz"@ || name == "split_part"@ {
        Some((3int, 3int))
    } else if name == "dayofweek"@ || name == "month"@ || name == "json_depth"@ || name
        == "json_valid"@ || name == "json_quote"@ || name == "json_typeof"@ || name
        == "jsonb_typeof"@ || name == "json_array_length"@ || name == "jsonb_array_length"@ || name
        == "json_strip_nulls"@ || name == "jsonb_strip_nulls"@ || name == "jsonb_pretty"@ {
        Some((1int, 1int))
    } else if name == "ifnull"@ || name == "timediff"@ || name == "addtime"@ || name
        == "date_format"@ || name == "json_overlaps"@ {
        Some((2int, 2int))
    } else if name == "round"@ || name == "jsonb_object"@ {
        Some((1int, 2int))
    } else if name == "substring"@ || name == "substr"@ {
        Some((1int, 3int))
    } else if name == "jsonb_insert"@ || name == "jsonb_set"@ {
        Some((3int, 4int))
    } else if name == "jsonb_set_lax"@ {
        Some((3int, 5int))
    } else if name == "array_to_string"@ {
        Some((2int, 3int))
    } else {
        None
    }
}

/// The least argument count of every builtin that accepts unboundedly
/// many arguments.
pub open spec fn min_arity(name: Seq<char>) -> Option<int> {
    if name == "coalesce"@ || name == "concat"@ || name == "greatest"@ || name == "least"@ {
        Some(1int)
    } else if name == "json_extract_path"@ || name == "jsonb_extract_path"@ || name
        == "json_extract_path_text"@ || name == "jsonb_extract_path_text"@ {
        Some(2int)
    } else {
        None
    }
}

/// A builtin called with too few arguments, or a bounded-arity builtin
/// called with too many, always fails with an arity error carrying the
/// function's name: no silent truncation or padding. (The one
/// dialect-gated builtin, `json_object`, reports its unsupported engines
/// before counting arguments, so it is not listed in the windows.)
#[verifier::rlimit(100)]
#[verifier::spinoff_prover]
pub proof fn lemma_arity_violation(name: Seq<char>, args: Seq<ExprV>, d: Dialect)
    requires
        match arity_window(name) {
            Some(w) => args.len() < w.0 || args.len() > w.1,
            None => match min_arity(name) {
                Some(m) => args.len() < m,
                None => false,
            },
        },
    ensures
        from_name_and_args_spec(name, args, d) == Err::<(BuiltinFunctionV, DfTypeV), ErrorV>(
            ErrorV::ArityError(name),
        ),
{
    reveal(from_name_and_args_spec);
    reveal_strlit("convert_tz");
    reveal_strlit("dayofweek");
    reveal_strlit("ifnull");
    reveal_strlit("month");
    reveal_strlit("timediff");
    reveal_strlit("addtime");
    reveal_strlit("date_format");
    reveal_strlit("round");
    reveal_strlit("json_depth");
    reveal_strlit("json_valid");
    reveal_strlit("json_overlaps");
    reveal_strlit("json_quote");
    reveal_strlit("json_typeof");
    reveal_strlit("jsonb_typeof");
    reveal_strlit("json_object");
    reveal_strlit("jsonb_object");
    reveal_strlit("json_array_length");
    reveal_strlit("jsonb_array_length");
    reveal_strlit("json_strip_nulls");
    reveal_strlit("jsonb_strip_nulls");
    reveal_strlit("json_extract_path");
    reveal_strlit("jsonb_extract_path");
    reveal_strlit("json_extract_path_text");
    reveal_strlit("jsonb_extract_path_text");
    reveal_strlit("jsonb_insert");
    reveal_strlit("jsonb_set");
    reveal_strlit("jsonb_set_lax");
    reveal_strlit("jsonb_pretty");
    reveal_strlit("coalesce");
    reveal_strlit("concat");
    reveal_strlit("substring");
    reveal_strlit("substr");
    reveal_strlit("split_part");
    reveal_strlit("greatest");
    reveal_strlit("least");
    reveal_strlit("array_to_string");
    assert("convert_tz"@.len() == 10);
    assert("dayofweek"@.len() == 9);
    assert("ifnull"@.len() == 6);
    assert("month"@.len() == 5);
    assert("timediff"@.len() == 8);
    assert("addtime"@.len() == 7);
    assert("date_format"@.len() == 11);
    assert("round"@.len() == 5);
    assert("json_depth"@.len() == 10);
    assert("json_valid"@.len() == 10);
    assert("json_overlaps"@.len() == 13);
    assert("json_quote"@.len() == 10);
    assert("json_typeof"@.len() == 11);
    assert("jsonb_typeof"@.len() == 12);
    assert("json_object"@.len() == 11);
    assert("jsonb_object"@.len() == 12);
    assert("json_array_length"@.len() == 17);
    assert("jsonb_array_length"@.len() == 18);
    assert("json_strip_nulls"@.len() == 16);
    assert("jsonb_strip_nulls"@.len() == 17);
    assert("json_extract_path"@.len() == 17);
    assert("jsonb_extract_path"@.len() == 18);
    assert("json_extract_path_text"@.len() == 22);
    assert("jsonb_extract_path_text"@.len() == 23);
    assert("jsonb_insert"@.len() == 12);
    assert("jsonb_set"@.len() == 9);
    assert("jsonb_set_lax"@.len() == 13);
    assert("jsonb_pretty"@.len() == 12);
    assert("coalesce"@.len() == 8);
    assert("concat"@.len() == 6);
    assert("substring"@.len() == 9);
    assert("substr"@.len() == 6);
    assert("split_part"@.len() == 10);
    assert("greatest"@.len() == 8);
    assert("least"@.len() == 5);
    assert("array_to_string"@.len() == 15);
    assert("coalesce"@[0] == 'c');
    assert("concat"@[0] == 'c');
    assert("convert_tz"@[0] == 'c');
    assert("date_format"@[0] == 'd');
    assert("dayofweek"@[0] == 'd');
    assert("greatest"@[0] == 'g');
    assert("ifnull"@[0] == 'i');
    assert("json_array_length"@[4] == '_');
    assert("json_array_length"@[5] == 'a');
    assert("json_depth"@[0] == 'j');
    assert("json_depth"@[5] == 'd');
    assert("json_extract_path"@[4] == '_');
    assert("json_extract_path"@[5] == 'e');
    assert("json_object"@[0] == 'j');
    assert("json_object"@[5] == 'o');
    assert("json_overlaps"@[4] == '_');
    assert("json_quote"@[0] == 'j');
    assert("json_quote"@[5] == 'q');
    assert("json_typeof"@[0] == 'j');
    assert("json_typeof"@[5] == 't');
    assert("json_valid"@[0] == 'j');
    assert("json_valid"@[5] == 'v');
    assert("jsonb_array_length"@[6] == 'a');
    assert("jsonb_extract_path"@[6] == 'e');
    assert("jsonb_insert"@[6] == 'i');
    assert("jsonb_object"@[6] == 'o');
    assert("jsonb_pretty"@[6] == 'p');
    assert("jsonb_set"@[0] == 'j');
    assert("jsonb_set_lax"@[4] == 'b');
    assert("jsonb_strip_nulls"@[4] == 'b');
    assert("jsonb_typeof"@[6] == 't');
    assert("least"@[0] == 'l');
    assert("month"@[0] == 'm');
    assert("round"@[0] == 'r');
    assert("split_part"@[0] == 's');
    assert("substr"@[0] == 's');
    assert("substring"@[0] == 's');
    assert("timediff"@[0] == 't');
}

/// Boolean-yielding operators have output type boolean whatever their
/// operand types: a comparison node's stored type is derivable without
/// revisiting its children.
pub proof fn lemma_comparisons_yield_bool(
    op: crate::expr::BinaryOperator,
    l: DfTypeV,
    r: DfTypeV,
)
    requires
        op.is_ordering_comparison() || op is And || op is Or || op is Like || op is ILike || op
            is Is,
    ensures
        output_type_spec(op, l, r) == Ok::<DfTypeV, ErrorV>(DfTypeV::Bool),
{
}

/// A quantified comparison (ANY, SOME, or ALL) that lowers successfully
/// is always typed boolean: the driver demands a boolean-yielding
/// operator and wraps negated forms in a boolean NOT.
pub proof fn lemma_quantified_comparison_is_boolean<C: LowerContext>(
    lhs: AstExprV,
    op: crate::ast::SqlBinaryOperator,
    rhs: AstExprV,
    d: Dialect,
    ctx: &C,
    is_all: bool,
)
    requires
        lower_op_any_all_spec(lhs, op, rhs, d, ctx, is_all) is Ok,
    ensures
        lower_op_any_all_spec(lhs, op, rhs, d, ctx, is_all)->Ok_0.ty() == DfTypeV::Bool,
{
    reveal(lower_op_any_all_spec);
}


/// The comparison chain a non-empty IN list desugars to: one comparison
/// per element against the already-lowered left operand, joined
/// left-associatively by OR (AND with negated comparisons for NOT IN),
/// every node typed boolean.
pub open spec fn in_chain<C: LowerContext>(
    lhs_l: ExprV,
    elems: Seq<AstExprV>,
    negated: bool,
    d: Dialect,
    ctx: &C,
) -> ExprV
    decreases elems.len(),
{
    if elems.len() <= 1 {
        in_cmp(lhs_l, elems[0], negated, d, ctx)
    } else {
        ExprV::Op {
            op: if negated {
                BinaryOperator::And
            } else {
                BinaryOperator::Or
            },
            left: Box::new(
                in_chain(lhs_l, elems.subrange(0, elems.len() - 1), negated, d, ctx),
            ),
            right: Box::new(in_cmp(lhs_l, elems[elems.len() - 1], negated, d, ctx)),
            ty: DfTypeV::Bool,
        }
    }
}

/// When every element lowers successfully, the IN fold produces exactly
/// the comparison chain.
proof fn lemma_in_fold_is_chain<C: LowerContext>(
    lhs_l: ExprV,
    elems: Seq<AstExprV>,
    negated: bool,
    d: Dialect,
    ctx: &C,
)
    requires
        elems.len() >= 1,
        forall|i: int| 0 <= i < elems.len() ==> lower_spec(#[trigger] elems[i], d, ctx) is Ok,
    ensures
        in_fold_spec(lhs_l, elems, negated, d, ctx) == Ok::<ExprV, ErrorV>(
            in_chain(lhs_l, elems, negated, d, ctx),
        ),
    decreases elems.len(),
{
    let last = elems[elems.len() - 1];
    assert(lower_spec(last, d, ctx) is Ok);
    assert(in_comparison_spec(lhs_l, last, negated, d, ctx) == Ok::<ExprV, ErrorV>(
        in_cmp(lhs_l, last, negated, d, ctx),
    ));
    if elems.len() > 1 {
        let front = elems.subrange(0, elems.len() - 1);
        assert forall|i: int| 0 <= i < front.len() implies lower_spec(
            #[trigger] front[i],
            d,
            ctx,
        ) is Ok by {
            assert(front[i] == elems[i]);
        }
        lemma_in_fold_is_chain(lhs_l, front, negated, d, ctx);
    }
}

/// For every list length: `x IN (e1, ..., en)` with at least one element
/// lowers to the left-associated chain of boolean equality comparisons
/// joined by OR, with the lowered left operand reused in every
/// comparison; `x NOT IN (e1, ..., en)` lowers to the AND chain of the
/// negated comparisons.
pub proof fn lemma_in_list_desugars<C: LowerContext>(
    lhs: AstExprV,
    elems: Seq<AstExprV>,
    negated: bool,
    d: Dialect,
    ctx: &C,
)
    requires
        elems.len() >= 1,
        lower_spec(lhs, d, ctx) is Ok,
        forall|i: int| 0 <= i < elems.len() ==> lower_spec(#[trigger] elems[i], d, ctx) is Ok,
    ensures
        lower_spec(
            AstExprV::In { lhs: Box::new(lhs), rhs: InValueV::List(elems), negated },
            d,
            ctx,
        ) == Ok::<ExprV, ErrorV>(
            in_chain(lower_spec(lhs, d, ctx)->Ok_0, elems, negated, d, ctx),
        ),
{
    reveal(in_list_spec);
    lemma_in_fold_is_chain(lower_spec(lhs, d, ctx)->Ok_0, elems, negated, d, ctx);
    assert(lower_spec(
        AstExprV::In { lhs: Box::new(lhs), rhs: InValueV::List(elems), negated },
        d,
        ctx,
    ) == in_list_spec(lhs, elems, negated, d, ctx));
}

} // verus!
