//! The builtin function resolver: maps a function name plus
//! already-lowered arguments to a builtin node and its result type,
//! enforcing arity and applying dialect-specific implicit casts.

use vstd::prelude::*;

use crate::dialect::{Dialect, SqlEngine};
use crate::error::{ErrorV, ReadySetError};
use crate::expr::{
    builtin_view, expr_seq_view, expr_view, opt_expr_view, BuiltinFunction, BuiltinFunctionV, Expr,
    ExprV, NullValueTreatmentArg, NullValueTreatmentArgV,
};
use crate::strutil::str_eq;
use crate::types::{df_type_eq, Collation, DfType, DfTypeV};
use crate::unify::{
    first_known_index, has_known, lemma_first_known_index, mysql_least_greatest_compare_as,
    mysql_least_greatest_compare_as_spec, tys_view, unify_postgres_types,
    unify_postgres_types_spec,
};
use crate::values::DfValue;

verus! {

/// Wraps an expression in an explicit cast to the given type, unless it
/// already has exactly that type.
pub open spec fn cast_spec(e: ExprV, ty: DfTypeV) -> ExprV {
    if e.ty() == ty {
        e
    } else {
        ExprV::Cast { expr: Box::new(e), ty, null_on_failure: false }
    }
}

/// Wraps an expression in a cast that yields SQL NULL when the value
/// cannot be converted.
pub open spec fn try_cast_spec(e: ExprV, ty: DfTypeV) -> ExprV {
    ExprV::Cast { expr: Box::new(e), ty, null_on_failure: true }
}

/// The result type of ROUND: decimals keep their type, integers widen to
/// big integers, and everything else, the untyped placeholder included,
/// becomes double precision.
pub open spec fn type_for_round_spec(e: ExprV) -> DfTypeV {
    let t = e.ty();
    if t is Numeric {
        t
    } else if t.is_any_int() {
        DfTypeV::BigInt
    } else {
        DfTypeV::Double
    }
}

/// The result types of a sequence of lowered arguments.
pub open spec fn tys_of(args: Seq<ExprV>) -> Seq<DfTypeV> {
    Seq::new(args.len(), |i: int| args[i].ty())
}

/// The first explicit text collation among the arguments, if any.
pub open spec fn first_text_collation(args: Seq<ExprV>) -> Option<Collation>
    decreases args.len(),
{
    if args.len() == 0 {
        None
    } else {
        match args[0].ty() {
            DfTypeV::Text(c) => Some(c),
            _ => first_text_collation(args.subrange(1, args.len() as int)),
        }
    }
}

/// The subsecond precision CONVERT_TZ casts its subject to: the subject's
/// own precision if it has one, else the dialect's default.
pub open spec fn convert_tz_precision(ty: DfTypeV, d: Dialect) -> u16 {
    match ty.subsecond_digits() {
        Some(n) => n,
        None => d.spec_default_subsecond_digits(),
    }
}

/// Model of a builtin-resolution result.
pub open spec fn builtin_result_view(
    r: Result<(BuiltinFunction, DfType), ReadySetError>,
) -> Result<(BuiltinFunctionV, DfTypeV), ErrorV> {
    match r {
        Ok(p) => Ok((builtin_view(p.0), p.1@)),
        Err(e) => Err(e@),
    }
}

/// Resolution of GREATEST and LEAST: both share one rule for the
/// comparison type and the return type, then differ only in the node
/// built. PostgreSQL unifies the argument types and uses the result for
/// both; MySQL takes the first known argument type as the return type
/// (empty fixed binary when none) and its own comparison rule.
pub open spec fn greatest_least_types_spec(args: Seq<ExprV>, d: Dialect) -> Result<
    (DfTypeV, DfTypeV),
    ErrorV,
> {
    let tys = tys_of(args);
    match d.engine {
        SqlEngine::PostgreSQL => match unify_postgres_types_spec(tys) {
            Ok(ty) => Ok((ty, ty)),
            Err(e) => Err(e),
        },
        SqlEngine::MySQL => {
            let return_ty = if has_known(tys) {
                tys[first_known_index(tys)]
            } else {
                DfTypeV::Binary(0)
            };
            Ok((mysql_least_greatest_compare_as_spec(tys), return_ty))
        },
        SqlEngine::MongoDB => Err(ErrorV::Unsupported("not supported"@)),
    }
}

/// Resolution of a builtin call: the node built from the name and the
/// already-lowered arguments, and the call's result type. Fails with an
/// arity error on a wrong argument count, an unknown-function error on an
/// unrecognized name, and an unsupported error on dialect-gated
/// functions.
#[verifier::opaque]
pub open spec fn from_name_and_args_spec(
    name: Seq<char>,
    args: Seq<ExprV>,
    d: Dialect,
) -> Result<(BuiltinFunctionV, DfTypeV), ErrorV> {
    let n = args.len();
    if name == "convert_tz"@ {
        if n != 3 {
            Err(ErrorV::ArityError(name))
        } else {
            let ty = args[0].ty();
            Ok(
                (
                    BuiltinFunctionV::ConvertTZ(
                        try_cast_spec(
                            args[0],
                            DfTypeV::Timestamp { subsecond_digits: convert_tz_precision(ty, d) },
                        ),
                        cast_spec(args[1], DfTypeV::default_text()),
                        cast_spec(args[2], DfTypeV::default_text()),
                    ),
                    ty,
                ),
            )
        }
    } else if name == "dayofweek"@ {
        if n != 1 {
            Err(ErrorV::ArityError(name))
        } else {
            Ok((BuiltinFunctionV::DayOfWeek(try_cast_spec(args[0], DfTypeV::Date)), DfTypeV::Int))
        }
    } else if name == "ifnull"@ {
        if n != 2 {
            Err(ErrorV::ArityError(name))
        } else {
            Ok((BuiltinFunctionV::IfNull(args[0], args[1]), args[1].ty()))
        }
    } else if name == "month"@ {
        if n != 1 {
            Err(ErrorV::ArityError(name))
        } else {
            Ok((BuiltinFunctionV::Month(try_cast_spec(args[0], DfTypeV::Date)), DfTypeV::Int))
        }
    } else if name == "timediff"@ {
        if n != 2 {
            Err(ErrorV::ArityError(name))
        } else {
            Ok(
                (
                    BuiltinFunctionV::Timediff(args[0], args[1]),
                    DfTypeV::Time { subsecond_digits: d.spec_default_subsecond_digits() },
                ),
            )
        }
    } else if name == "addtime"@ {
        if n != 2 {
            Err(ErrorV::ArityError(name))
        } else {
            Ok((BuiltinFunctionV::Addtime(args[0], args[1]), args[0].ty()))
        }
    } else if name == "date_format"@ {
        if n != 2 {
            Err(ErrorV::ArityError(name))
        } else {
            Ok((BuiltinFunctionV::DateFormat(args[0], args[1]), DfTypeV::default_text()))
        }
    } else if name == "round"@ {
        if n < 1 || n > 2 {
            Err(ErrorV::ArityError(name))
        } else {
            let prec = if n == 2 {
                args[1]
            } else {
                ExprV::Literal { val: crate::values::DfValueV::Int(0), ty: DfTypeV::Int }
            };
            Ok((BuiltinFunctionV::Round(args[0], prec), type_for_round_spec(args[0])))
        }
    } else if name == "json_depth"@ {
        if n != 1 {
            Err(ErrorV::ArityError(name))
        } else {
            Ok((BuiltinFunctionV::JsonDepth(args[0]), DfTypeV::Int))
        }
    } else if name == "json_valid"@ {
        if n != 1 {
            Err(ErrorV::ArityError(name))
        } else {
            Ok((BuiltinFunctionV::JsonValid(args[0]), DfTypeV::BigInt))
        }
    } else if name == "json_overlaps"@ {
        if n != 2 {
            Err(ErrorV::ArityError(name))
        } else {
            Ok((BuiltinFunctionV::JsonOverlaps(args[0], args[1]), DfTypeV::BigInt))
        }
    } else if name == "json_quote"@ {
        if n != 1 {
            Err(ErrorV::ArityError(name))
        } else {
            Ok((BuiltinFunctionV::JsonQuote(args[0]), DfTypeV::default_text()))
        }
    } else if name == "json_typeof"@ || name == "jsonb_typeof"@ {
        if n != 1 {
            Err(ErrorV::ArityError(name))
        } else {
            Ok((BuiltinFunctionV::JsonTypeof(args[0]), DfTypeV::default_text()))
        }
    } else if name == "json_object"@ {
        match d.engine {
            SqlEngine::MySQL => Err(ErrorV::Unsupported("MySQL 'json_object' not yet supported"@)),
            SqlEngine::PostgreSQL => if n < 1 || n > 2 {
                Err(ErrorV::ArityError(name))
            } else {
                Ok(
                    (
                        BuiltinFunctionV::JsonObject {
                            arg1: args[0],
                            arg2: if n == 2 {
                                Some(args[1])
                            } else {
                                None
                            },
                            allow_duplicate_keys: true,
                        },
                        DfTypeV::Json,
                    ),
                )
            },
            SqlEngine::MongoDB => Err(ErrorV::Unsupported("not yet supported"@)),
        }
    } else if name == "jsonb_object"@ {
        if n < 1 || n > 2 {
            Err(ErrorV::ArityError(name))
        } else {
            Ok(
                (
                    BuiltinFunctionV::JsonObject {
                        arg1: args[0],
                        arg2: if n == 2 {
                            Some(args[1])
                        } else {
                            None
                        },
                        allow_duplicate_keys: false,
                    },
                    DfTypeV::Jsonb,
                ),
            )
        }
    } else if name == "json_array_length"@ || name == "jsonb_array_length"@ {
        if n != 1 {
            Err(ErrorV::ArityError(name))
        } else {
            Ok((BuiltinFunctionV::JsonArrayLength(args[0]), DfTypeV::Int))
        }
    } else if name == "json_strip_nulls"@ {
        if n != 1 {
            Err(ErrorV::ArityError(name))
        } else {
            Ok((BuiltinFunctionV::JsonStripNulls(args[0]), DfTypeV::Json))
        }
    } else if name == "jsonb_strip_nulls"@ {
        if n != 1 {
            Err(ErrorV::ArityError(name))
        } else {
            Ok((BuiltinFunctionV::JsonStripNulls(args[0]), DfTypeV::Jsonb))
        }
    } else if name == "json_extract_path"@ {
        if n < 2 {
            Err(ErrorV::ArityError(name))
        } else {
            Ok(
                (
                    BuiltinFunctionV::JsonExtractPath {
                        json: args[0],
                        keys: args.subrange(1, n as int),
                    },
                    DfTypeV::Json,
                ),
            )
        }
    } else if name == "jsonb_extract_path"@ {
        if n < 2 {
            Err(ErrorV::ArityError(name))
        } else {
            Ok(
                (
                    BuiltinFunctionV::JsonExtractPath {
                        json: args[0],
                        keys: args.subrange(1, n as int),
                    },
                    DfTypeV::Jsonb,
                ),
            )
        }
    } else if name == "json_extract_path_text"@ || name == "jsonb_extract_path_text"@ {
        if n < 2 {
            Err(ErrorV::ArityError(name))
        } else {
            Ok(
                (
                    BuiltinFunctionV::JsonExtractPath {
                        json: args[0],
                        keys: args.subrange(1, n as int),
                    },
                    DfTypeV::default_text(),
                ),
            )
        }
    } else if name == "jsonb_insert"@ {
        if n < 3 || n > 4 {
            Err(ErrorV::ArityError(name))
        } else {
            Ok(
                (
                    BuiltinFunctionV::JsonbInsert(
                        args[0],
                        args[1],
                        args[2],
                        if n == 4 {
                            Some(args[3])
                        } else {
                            None
                        },
                    ),
                    DfTypeV::Jsonb,
                ),
            )
        }
    } else if name == "jsonb_set"@ {
        if n < 3 || n > 4 {
            Err(ErrorV::ArityError(name))
        } else {
            Ok(
                (
                    BuiltinFunctionV::JsonbSet(
                        args[0],
                        args[1],
                        args[2],
                        if n == 4 {
                            Some(args[3])
                        } else {
                            None
                        },
                        NullValueTreatmentArgV::ReturnNull,
                    ),
                    DfTypeV::Jsonb,
                ),
            )
        }
    } else if name == "jsonb_set_lax"@ {
        if n < 3 || n > 5 {
            Err(ErrorV::ArityError(name))
        } else {
            Ok(
                (
                    BuiltinFunctionV::JsonbSet(
                        args[0],
                        args[1],
                        args[2],
                        if n >= 4 {
                            Some(args[3])
                        } else {
                            None
                        },
                        NullValueTreatmentArgV::Expr(
                            if n >= 5 {
                                Some(args[4])
                            } else {
                                None
                            },
                        ),
                    ),
                    DfTypeV::Jsonb,
                ),
            )
        }
    } else if name == "jsonb_pretty"@ {
        if n != 1 {
            Err(ErrorV::ArityError(name))
        } else {
            Ok((BuiltinFunctionV::JsonbPretty(args[0]), DfTypeV::default_text()))
        }
    } else if name == "coalesce"@ {
        if n < 1 {
            Err(ErrorV::ArityError(name))
        } else {
            Ok(
                (
                    BuiltinFunctionV::Coalesce(args[0], args.subrange(1, n as int)),
                    args[0].ty(),
                ),
            )
        }
    } else if name == "concat"@ {
        if n < 1 {
            Err(ErrorV::ArityError(name))
        } else {
            let collation = match first_text_collation(args) {
                Some(c) => c,
                None => Collation::Utf8,
            };
            let ty = DfTypeV::Text(collation);
            Ok(
                (
                    BuiltinFunctionV::Concat(
                        cast_spec(args[0], ty),
                        Seq::new((n - 1) as nat, |i: int| cast_spec(args[1 + i], ty)),
                    ),
                    ty,
                ),
            )
        }
    } else if name == "substring"@ || name == "substr"@ {
        if n < 1 || n > 3 {
            Err(ErrorV::ArityError(name))
        } else {
            let ty = if args[0].ty().is_any_text() {
                args[0].ty()
            } else {
                DfTypeV::default_text()
            };
            Ok(
                (
                    BuiltinFunctionV::Substring(
                        cast_spec(args[0], ty),
                        if n >= 2 {
                            Some(cast_spec(args[1], DfTypeV::BigInt))
                        } else {
                            None
                        },
                        if n >= 3 {
                            Some(cast_spec(args[2], DfTypeV::BigInt))
                        } else {
                            None
                        },
                    ),
                    ty,
                ),
            )
        }
    } else if name == "split_part"@ {
        if n != 3 {
            Err(ErrorV::ArityError(name))
        } else {
            Ok(
                (
                    BuiltinFunctionV::SplitPart(
                        cast_spec(args[0], DfTypeV::default_text()),
                        cast_spec(args[1], DfTypeV::default_text()),
                        cast_spec(args[2], DfTypeV::Int),
                    ),
                    DfTypeV::default_text(),
                ),
            )
        }
    } else if name == "greatest"@ || name == "least"@ {
        if n < 1 {
            Err(ErrorV::ArityError(name))
        } else {
            match greatest_least_types_spec(args, d) {
                Err(e) => Err(e),
                Ok(p) => Ok(
                    (
                        if name == "greatest"@ {
                            BuiltinFunctionV::Greatest { args, compare_as: p.0 }
                        } else {
                            BuiltinFunctionV::Least { args, compare_as: p.0 }
                        },
                        p.1,
                    ),
                ),
            }
        }
    } else if name == "array_to_string"@ {
        if n < 2 || n > 3 {
            Err(ErrorV::ArityError(name))
        } else {
            let elem_ty = match args[0].ty() {
                DfTypeV::Array(t) => *t,
                _ => DfTypeV::Unknown,
            };
            Ok(
                (
                    BuiltinFunctionV::ArrayToString(
                        cast_spec(args[0], DfTypeV::Array(Box::new(elem_ty))),
                        args[1],
                        if n == 3 {
                            Some(args[2])
                        } else {
                            None
                        },
                    ),
                    DfTypeV::default_text(),
                ),
            )
        }
    } else {
        Err(ErrorV::NoSuchFunction(name))
    }
}

/// Wraps an expression in an explicit cast to the given type, unless it
/// already has exactly that type.
fn cast(expr: Expr, ty: DfType) -> (r: Expr)
    ensures
        expr_view(r) == cast_spec(expr_view(expr), ty@),
{
    if df_type_eq(expr.ty(), &ty) {
        expr
    } else {
        Expr::Cast { expr: Box::new(expr), ty, null_on_failure: false }
    }
}

/// Wraps an expression in a cast that yields SQL NULL when the value
/// cannot be converted.
fn try_cast(expr: Expr, ty: DfType) -> (r: Expr)
    ensures
        expr_view(r) == try_cast_spec(expr_view(expr), ty@),
{
    Expr::Cast { expr: Box::new(expr), ty, null_on_failure: true }
}

/// The result type of ROUND for the given first argument.
fn type_for_round(expr: &Expr) -> (r: DfType)
    ensures
        r@ == type_for_round_spec(expr_view(*expr)),
{
    match expr.ty() {
        DfType::Numeric { prec, scale } => DfType::Numeric { prec: *prec, scale: *scale },
        t => {
            if t.is_any_int() {
                DfType::BigInt
            } else {
                DfType::Double
            }
        }
    }
}

/// Removes and returns the first argument.
fn pop_front(args: &mut Vec<Expr>) -> (e: Expr)
    requires
        old(args)@.len() > 0,
    ensures
        e == old(args)@[0],
        final(args)@ == old(args)@.subrange(1, old(args)@.len() as int),
{
    let e = args.remove(0);
    proof {
        assert(args@ =~= old(args)@.subrange(1, old(args)@.len() as int));
    }
    e
}

impl BuiltinFunction {
    /// Resolves a builtin call from its name, its already-lowered
    /// arguments, and the dialect, producing the builtin node and the
    /// call's result type; fails exactly as the resolution model says.
    #[verifier::spinoff_prover]
    pub fn from_name_and_args(name: &str, args: Vec<Expr>, dialect: Dialect) -> (r: Result<
        (BuiltinFunction, DfType),
        ReadySetError,
    >)
        ensures
            builtin_result_view(r) == from_name_and_args_spec(
                name@,
                expr_seq_view(args@),
                dialect,
            ),
    {
        let ghost s = expr_seq_view(args@);
        proof {
            reveal(from_name_and_args_spec);
            crate::expr::lemma_expr_seq_view(args@);
        }
        let n = args.len();
        let mut args = args;
        if str_eq(name, "convert_tz") {
            if n != 3 {
                return Err(ReadySetError::arity_error(name));
            }
            let input = pop_front(&mut args);
            let a1 = pop_front(&mut args);
            let a2 = pop_front(&mut args);
            let ty = input.ty().clone();
            let digits = match input.ty().subsecond_digits() {
                Some(d) => d,
                None => dialect.default_subsecond_digits(),
            };
            Ok(
                (
                    BuiltinFunction::ConvertTZ(
                        try_cast(input, DfType::Timestamp { subsecond_digits: digits }),
                        cast(a1, DfType::default_text()),
                        cast(a2, DfType::default_text()),
                    ),
                    ty,
                ),
            )
        } else if str_eq(name, "dayofweek") {
            if n != 1 {
                return Err(ReadySetError::arity_error(name));
            }
            let a0 = pop_front(&mut args);
            Ok((BuiltinFunction::DayOfWeek(try_cast(a0, DfType::Date)), DfType::Int))
        } else if str_eq(name, "ifnull") {
            if n != 2 {
                return Err(ReadySetError::arity_error(name));
            }
            let expr = pop_front(&mut args);
            let val = pop_front(&mut args);
            let ty = val.ty().clone();
            Ok((BuiltinFunction::IfNull(expr, val), ty))
        } else if str_eq(name, "month") {
            if n != 1 {
                return Err(ReadySetError::arity_error(name));
            }
            let a0 = pop_front(&mut args);
            Ok((BuiltinFunction::Month(try_cast(a0, DfType::Date)), DfType::Int))
        } else if str_eq(name, "timediff") {
            if n != 2 {
                return Err(ReadySetError::arity_error(name));
            }
            let a0 = pop_front(&mut args);
            let a1 = pop_front(&mut args);
            Ok(
                (
                    BuiltinFunction::Timediff(a0, a1),
                    DfType::Time { subsecond_digits: dialect.default_subsecond_digits() },
                ),
            )
        } else if str_eq(name, "addtime") {
            if n != 2 {
                return Err(ReadySetError::arity_error(name));
            }
            let a0 = pop_front(&mut args);
            let a1 = pop_front(&mut args);
            let ty = a0.ty().clone();
            Ok((BuiltinFunction::Addtime(a0, a1), ty))
        } else if str_eq(name, "date_format") {
            if n != 2 {
                return Err(ReadySetError::arity_error(name));
            }
            let a0 = pop_front(&mut args);
            let a1 = pop_front(&mut args);
            Ok((BuiltinFunction::DateFormat(a0, a1), DfType::default_text()))
        } else if str_eq(name, "round") {
            if n < 1 || n > 2 {
                return Err(ReadySetError::arity_error(name));
            }
            let a0 = pop_front(&mut args);
            let prec = if n == 2 {
                pop_front(&mut args)
            } else {
                Expr::Literal { val: DfValue::Int(0), ty: DfType::Int }
            };
            let ty = type_for_round(&a0);
            Ok((BuiltinFunction::Round(a0, prec), ty))
        } else if str_eq(name, "json_depth") {
            if n != 1 {
                return Err(ReadySetError::arity_error(name));
            }
            let a0 = pop_front(&mut args);
            Ok((BuiltinFunction::JsonDepth(a0), DfType::Int))
        } else if str_eq(name, "json_valid") {
            if n != 1 {
                return Err(ReadySetError::arity_error(name));
            }
            let a0 = pop_front(&mut args);
            Ok((BuiltinFunction::JsonValid(a0), DfType::BigInt))
        } else if str_eq(name, "json_overlaps") {
            if n != 2 {
                return Err(ReadySetError::arity_error(name));
            }
            let a0 = pop_front(&mut args);
            let a1 = pop_front(&mut args);
            Ok((BuiltinFunction::JsonOverlaps(a0, a1), DfType::BigInt))
        } else if str_eq(name, "json_quote") {
            if n != 1 {
                return Err(ReadySetError::arity_error(name));
            }
            let a0 = pop_front(&mut args);
            Ok((BuiltinFunction::JsonQuote(a0), DfType::default_text()))
        } else if str_eq(name, "json_typeof") || str_eq(name, "jsonb_typeof") {
            if n != 1 {
                return Err(ReadySetError::arity_error(name));
            }
            let a0 = pop_front(&mut args);
            Ok((BuiltinFunction::JsonTypeof(a0), DfType::default_text()))
        } else if str_eq(name, "json_object") {
            match dialect.engine() {
                SqlEngine::MySQL => Err(ReadySetError::unsupported("MySQL 'json_object' not yet supported")),
                SqlEngine::PostgreSQL => {
                    if n < 1 || n > 2 {
                        return Err(ReadySetError::arity_error(name));
                    }
                    let arg1 = pop_front(&mut args);
                    let arg2 = if n == 2 {
                        Some(pop_front(&mut args))
                    } else {
                        None
                    };
                    Ok(
                        (
                            BuiltinFunction::JsonObject { arg1, arg2, allow_duplicate_keys: true },
                            DfType::Json,
                        ),
                    )
                }
                SqlEngine::MongoDB => Err(ReadySetError::unsupported("not yet supported")),
            }
        } else if str_eq(name, "jsonb_object") {
            if n < 1 || n > 2 {
                return Err(ReadySetError::arity_error(name));
            }
            let arg1 = pop_front(&mut args);
            let arg2 = if n == 2 {
                Some(pop_front(&mut args))
            } else {
                None
            };
            Ok(
                (
                    BuiltinFunction::JsonObject { arg1, arg2, allow_duplicate_keys: false },
                    DfType::Jsonb,
                ),
            )
        } else if str_eq(name, "json_array_length") || str_eq(name, "jsonb_array_length") {
            if n != 1 {
                return Err(ReadySetError::arity_error(name));
            }
            let a0 = pop_front(&mut args);
            Ok((BuiltinFunction::JsonArrayLength(a0), DfType::Int))
        } else if str_eq(name, "json_strip_nulls") {
            if n != 1 {
                return Err(ReadySetError::arity_error(name));
            }
            let a0 = pop_front(&mut args);
            Ok((BuiltinFunction::JsonStripNulls(a0), DfType::Json))
        } else if str_eq(name, "jsonb_strip_nulls") {
            if n != 1 {
                return Err(ReadySetError::arity_error(name));
            }
            let a0 = pop_front(&mut args);
            Ok((BuiltinFunction::JsonStripNulls(a0), DfType::Jsonb))
        } else if str_eq(name, "json_extract_path") {
            if n < 2 {
                return Err(ReadySetError::arity_error(name));
            }
            let json = pop_front(&mut args);
            proof {
                assert(expr_seq_view(args@) =~= s.subrange(1, n as int)) by {
                    crate::expr::lemma_expr_seq_view(args@);
                }
            }
            Ok((BuiltinFunction::JsonExtractPath { json, keys: args }, DfType::Json))
        } else if str_eq(name, "jsonb_extract_path") {
            if n < 2 {
                return Err(ReadySetError::arity_error(name));
            }
            let json = pop_front(&mut args);
            proof {
                assert(expr_seq_view(args@) =~= s.subrange(1, n as int)) by {
                    crate::expr::lemma_expr_seq_view(args@);
                }
            }
            Ok((BuiltinFunction::JsonExtractPath { json, keys: args }, DfType::Jsonb))
        } else if str_eq(name, "json_extract_path_text") || str_eq(name, "jsonb_extract_path_text") {
            if n < 2 {
                return Err(ReadySetError::arity_error(name));
            }
            let json = pop_front(&mut args);
            proof {
                assert(expr_seq_view(args@) =~= s.subrange(1, n as int)) by {
                    crate::expr::lemma_expr_seq_view(args@);
                }
            }
            Ok((BuiltinFunction::JsonExtractPath { json, keys: args }, DfType::default_text()))
        } else if str_eq(name, "jsonb_insert") {
            if n < 3 || n > 4 {
                return Err(ReadySetError::arity_error(name));
            }
            let a0 = pop_front(&mut args);
            let a1 = pop_front(&mut args);
            let a2 = pop_front(&mut args);
            let a3 = if n == 4 {
                Some(pop_front(&mut args))
            } else {
                None
            };
            Ok((BuiltinFunction::JsonbInsert(a0, a1, a2, a3), DfType::Jsonb))
        } else if str_eq(name, "jsonb_set") {
            if n < 3 || n > 4 {
                return Err(ReadySetError::arity_error(name));
            }
            let a0 = pop_front(&mut args);
            let a1 = pop_front(&mut args);
            let a2 = pop_front(&mut args);
            let a3 = if n == 4 {
                Some(pop_front(&mut args))
            } else {
                None
            };
            Ok(
                (
                    BuiltinFunction::JsonbSet(a0, a1, a2, a3, NullValueTreatmentArg::ReturnNull),
                    DfType::Jsonb,
                ),
            )
        } else if str_eq(name, "jsonb_set_lax") {
            if n < 3 || n > 5 {
                return Err(ReadySetError::arity_error(name));
            }
            let a0 = pop_front(&mut args);
            let a1 = pop_front(&mut args);
            let a2 = pop_front(&mut args);
            let a3 = if n >= 4 {
                Some(pop_front(&mut args))
            } else {
                None
            };
            let a4 = if n >= 5 {
                Some(pop_front(&mut args))
            } else {
                None
            };
            Ok(
                (
                    BuiltinFunction::JsonbSet(a0, a1, a2, a3, NullValueTreatmentArg::Expr(a4)),
                    DfType::Jsonb,
                ),
            )
        } else if str_eq(name, "jsonb_pretty") {
            if n != 1 {
                return Err(ReadySetError::arity_error(name));
            }
            let a0 = pop_front(&mut args);
            Ok((BuiltinFunction::JsonbPretty(a0), DfType::default_text()))
        } else if str_eq(name, "coalesce") {
            if n < 1 {
                return Err(ReadySetError::arity_error(name));
            }
            let arg1 = pop_front(&mut args);
            let ty = arg1.ty().clone();
            proof {
                assert(expr_seq_view(args@) =~= s.subrange(1, n as int)) by {
                    crate::expr::lemma_expr_seq_view(args@);
                }
            }
            Ok((BuiltinFunction::Coalesce(arg1, args), ty))
        } else if str_eq(name, "concat") {
            if n < 1 {
                return Err(ReadySetError::arity_error(name));
            }
            let collation = first_text_collation_exec(&args);
            let ty = DfType::Text(collation);
            let ghost tyv = ty@;
            let arg1 = pop_front(&mut args);
            let first = cast(arg1, ty.clone());
            let mut rest: Vec<Expr> = Vec::new();
            let mut i: usize = 0;
            proof {
                assert(args@.len() == n - 1);
            }
            while i < args.len()
                invariant
                    0 <= i <= args@.len(),
                    args@.len() == n - 1,
                    s.len() == n,
                    tyv == DfTypeV::Text(collation),
                    ty@ == tyv,
                    forall|k: int| 0 <= k < args@.len() ==> expr_view(#[trigger] args@[k]) == s[1 + k],
                    rest@.len() == i,
                    forall|k: int| 0 <= k < i ==> expr_view(#[trigger] rest@[k]) == cast_spec(s[1 + k], tyv),
                decreases args@.len() - i,
            {
                let c = cast_clone(&args, i, &ty);
                rest.push(c);
                i = i + 1;
            }
            proof {
                crate::expr::lemma_expr_seq_view(rest@);
                assert(expr_seq_view(rest@) =~= Seq::new((n - 1) as nat, |k: int| cast_spec(s[1 + k], tyv)));
            }
            Ok((BuiltinFunction::Concat(first, rest), ty))
        } else if str_eq(name, "substring") || str_eq(name, "substr") {
            if n < 1 || n > 3 {
                return Err(ReadySetError::arity_error(name));
            }
            let string = pop_front(&mut args);
            let ty = if string.ty().is_any_text() {
                string.ty().clone()
            } else {
                DfType::default_text()
            };
            let pos = if n >= 2 {
                Some(cast(pop_front(&mut args), DfType::BigInt))
            } else {
                None
            };
            let len_arg = if n >= 3 {
                Some(cast(pop_front(&mut args), DfType::BigInt))
            } else {
                None
            };
            Ok((BuiltinFunction::Substring(cast(string, ty.clone()), pos, len_arg), ty))
        } else if str_eq(name, "split_part") {
            if n != 3 {
                return Err(ReadySetError::arity_error(name));
            }
            let a0 = pop_front(&mut args);
            let a1 = pop_front(&mut args);
            let a2 = pop_front(&mut args);
            Ok(
                (
                    BuiltinFunction::SplitPart(
                        cast(a0, DfType::default_text()),
                        cast(a1, DfType::default_text()),
                        cast(a2, DfType::Int),
                    ),
                    DfType::default_text(),
                ),
            )
        } else if str_eq(name, "greatest") || str_eq(name, "least") {
            if n < 1 {
                return Err(ReadySetError::arity_error(name));
            }
            let is_greatest = str_eq(name, "greatest");
            let mut arg_tys: Vec<&DfType> = Vec::new();
            let mut i: usize = 0;
            while i < args.len()
                invariant
                    0 <= i <= args@.len(),
                    args@.len() == n,
                    s.len() == n,
                    forall|k: int| 0 <= k < args@.len() ==> expr_view(#[trigger] args@[k]) == s[k],
                    arg_tys@.len() == i,
                    forall|k: int| 0 <= k < i ==> (#[trigger] arg_tys@[k])@ == s[k].ty(),
                decreases args@.len() - i,
            {
                arg_tys.push(args[i].ty());
                i = i + 1;
            }
            proof {
                assert(tys_view(arg_tys@) =~= tys_of(s));
            }
            let pair: (DfType, DfType) = match dialect.engine() {
                SqlEngine::PostgreSQL => {
                    match unify_postgres_types(arg_tys) {
                        Ok(ty) => {
                            let ty2 = ty.clone();
                            (ty, ty2)
                        }
                        Err(e) => {
                            return Err(e);
                        }
                    }
                }
                SqlEngine::MySQL => {
                    let mut found: bool = false;
                    let mut first_known: usize = 0;
                    let mut j: usize = 0;
                    while j < args.len()
                        invariant
                            0 <= j <= args@.len(),
                            args@.len() == n,
                            s.len() == n,
                            forall|k: int| 0 <= k < args@.len() ==> expr_view(#[trigger] args@[k]) == s[k],
                            !found ==> forall|k: int| 0 <= k < j ==> !(#[trigger] tys_of(s)[k]).is_known(),
                            found ==> 0 <= first_known < j && tys_of(s)[first_known as int].is_known()
                                && (forall|k: int| 0 <= k < first_known ==> !(#[trigger] tys_of(s)[k]).is_known()),
                        decreases args@.len() - j,
                    {
                        proof {
                            assert(tys_of(s)[j as int] == s[j as int].ty());
                        }
                        if !found && args[j].ty().is_known() {
                            first_known = j;
                            found = true;
                        }
                        j = j + 1;
                    }
                    let return_ty = if found {
                        proof {
                            lemma_first_known_index(tys_of(s));
                            assert(first_known as int == first_known_index(tys_of(s))) by {
                                if (first_known as int) < first_known_index(tys_of(s)) {
                                    assert(!tys_of(s)[first_known as int].is_known());
                                }
                                if first_known_index(tys_of(s)) < first_known as int {
                                    assert(!tys_of(s)[first_known_index(tys_of(s))].is_known());
                                }
                            }
                        }
                        args[first_known].ty().clone()
                    } else {
                        proof {
                            assert(!has_known(tys_of(s)));
                        }
                        DfType::Binary(0)
                    };
                    let mut arg_tys2: Vec<&DfType> = Vec::new();
                    let mut m: usize = 0;
                    while m < args.len()
                        invariant
                            0 <= m <= args@.len(),
                            args@.len() == n,
                            s.len() == n,
                            forall|k: int| 0 <= k < args@.len() ==> expr_view(#[trigger] args@[k]) == s[k],
                            arg_tys2@.len() == m,
                            forall|k: int| 0 <= k < m ==> (#[trigger] arg_tys2@[k])@ == s[k].ty(),
                        decreases args@.len() - m,
                    {
                        arg_tys2.push(args[m].ty());
                        m = m + 1;
                    }
                    proof {
                        assert(tys_view(arg_tys2@) =~= tys_of(s));
                    }
                    let compare_as = mysql_least_greatest_compare_as(arg_tys2);
                    (compare_as, return_ty)
                }
                SqlEngine::MongoDB => {
                    return Err(ReadySetError::unsupported("not supported"));
                }
            };
            let (compare_as, ty) = pair;
            Ok(
                (
                    if is_greatest {
                        BuiltinFunction::Greatest { args, compare_as }
                    } else {
                        BuiltinFunction::Least { args, compare_as }
                    },
                    ty,
                ),
            )
        } else if str_eq(name, "array_to_string") {
            if n < 2 || n > 3 {
                return Err(ReadySetError::arity_error(name));
            }
            let array_arg = pop_front(&mut args);
            let elem_ty = match array_arg.ty() {
                DfType::Array(t) => (**t).clone(),
                _ => DfType::Unknown,
            };
            let a1 = pop_front(&mut args);
            let a2 = if n == 3 {
                Some(pop_front(&mut args))
            } else {
                None
            };
            Ok(
                (
                    BuiltinFunction::ArrayToString(
                        cast(array_arg, DfType::Array(Box::new(elem_ty))),
                        a1,
                        a2,
                    ),
                    DfType::default_text(),
                ),
            )
        } else {
            Err(ReadySetError::no_such_function(name))
        }
    }
}

/// The first explicit text collation among the arguments, or the default
/// collation when none carries one.
fn first_text_collation_exec(args: &Vec<Expr>) -> (r: Collation)
    ensures
        r == (match first_text_collation(expr_seq_view(args@)) {
            Some(c) => c,
            None => Collation::Utf8,
        }),
{
    let ghost s = expr_seq_view(args@);
    proof {
        crate::expr::lemma_expr_seq_view(args@);
    }
    let mut i: usize = 0;
    proof {
        assert(s.subrange(0, s.len() as int) =~= s);
    }
    while i < args.len()
        invariant
            0 <= i <= args@.len(),
            s == expr_seq_view(args@),
            s.len() == args@.len(),
            forall|k: int| 0 <= k < args@.len() ==> expr_view(#[trigger] args@[k]) == s[k],
            first_text_collation(s) == first_text_collation(s.subrange(i as int, s.len() as int)),
        decreases args@.len() - i,
    {
        proof {
            assert(s.subrange(i as int, s.len() as int)[0] == s[i as int]);
        }
        match args[i].ty() {
            DfType::Text(c) => {
                proof {
                    assert(s[i as int].ty() == DfTypeV::Text(*c));
                    assert(first_text_collation(s.subrange(i as int, s.len() as int)) == Some(*c));
                    assert(first_text_collation(s) == Some(*c));
                }
                return *c;
            }
            _ => {}
        }
        proof {
            assert(s.subrange(i as int, s.len() as int).subrange(
                1,
                s.subrange(i as int, s.len() as int).len() as int,
            ) =~= s.subrange(i + 1 as int, s.len() as int));
        }
        i = i + 1;
    }
    proof {
        assert(s.subrange(i as int, s.len() as int).len() == 0);
    }
    Collation::Utf8
}

/// Casts a copy of the argument at the given position to the given type.
fn cast_clone(args: &Vec<Expr>, i: usize, ty: &DfType) -> (r: Expr)
    requires
        i < args@.len(),
    ensures
        expr_view(r) == cast_spec(expr_view(args@[i as int]), ty@),
{
    let e = args[i].clone();
    cast(e, ty.clone())
}

} // verus!
