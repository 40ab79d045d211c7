//! The operator resolver: maps a parsed binary operator to a canonical
//! operator plus a negation flag, computes the operator's output type, and
//! decides which operands must be wrapped in explicit casts.

use vstd::prelude::*;

use crate::ast::SqlBinaryOperator;
use crate::dialect::{Dialect, SqlEngine};
use crate::error::{ErrorV, ReadySetError};
use crate::expr::BinaryOperator;
use crate::types::{opt_ty_view, DfType, DfTypeV};
use crate::unify::ty_result_view;

verus! {

/// The model of an operator-resolution result.
pub open spec fn op_result_view(
    r: Result<(BinaryOperator, bool), ReadySetError>,
) -> Result<(BinaryOperator, bool), ErrorV> {
    match r {
        Ok(p) => Ok(p),
        Err(e) => Err(e@),
    }
}

/// Resolution of a syntactic operator to a canonical operator plus a flag
/// saying whether the result must be wrapped in NOT. The negated
/// comparison forms resolve to their positive operator with the flag set;
/// the JSON extraction arrows resolve per engine, and MySQL's path
/// extraction is rejected later, at lowering time.
pub open spec fn from_sql_op_spec(
    op: SqlBinaryOperator,
    d: Dialect,
) -> Result<(BinaryOperator, bool), ErrorV> {
    match op {
        SqlBinaryOperator::And => Ok((BinaryOperator::And, false)),
        SqlBinaryOperator::Or => Ok((BinaryOperator::Or, false)),
        SqlBinaryOperator::Add => Ok((BinaryOperator::Add, false)),
        SqlBinaryOperator::Subtract => Ok((BinaryOperator::Subtract, false)),
        SqlBinaryOperator::Multiply => Ok((BinaryOperator::Multiply, false)),
        SqlBinaryOperator::Divide => Ok((BinaryOperator::Divide, false)),
        SqlBinaryOperator::Like => Ok((BinaryOperator::Like, false)),
        SqlBinaryOperator::NotLike => Ok((BinaryOperator::Like, true)),
        SqlBinaryOperator::ILike => Ok((BinaryOperator::ILike, false)),
        SqlBinaryOperator::NotILike => Ok((BinaryOperator::ILike, true)),
        SqlBinaryOperator::Equal => Ok((BinaryOperator::Equal, false)),
        SqlBinaryOperator::NotEqual => Ok((BinaryOperator::Equal, true)),
        SqlBinaryOperator::Greater => Ok((BinaryOperator::Greater, false)),
        SqlBinaryOperator::GreaterOrEqual => Ok((BinaryOperator::GreaterOrEqual, false)),
        SqlBinaryOperator::Less => Ok((BinaryOperator::Less, false)),
        SqlBinaryOperator::LessOrEqual => Ok((BinaryOperator::LessOrEqual, false)),
        SqlBinaryOperator::Is => Ok((BinaryOperator::Is, false)),
        SqlBinaryOperator::IsNot => Ok((BinaryOperator::Is, true)),
        SqlBinaryOperator::QuestionMark => Ok((BinaryOperator::JsonExists, false)),
        SqlBinaryOperator::QuestionMarkPipe => Ok((BinaryOperator::JsonAnyExists, false)),
        SqlBinaryOperator::QuestionMarkAnd => Ok((BinaryOperator::JsonAllExists, false)),
        SqlBinaryOperator::Arrow1 => match d.engine {
            SqlEngine::MySQL => Ok((BinaryOperator::JsonPathExtract, false)),
            SqlEngine::PostgreSQL => Ok((BinaryOperator::JsonKeyExtract, false)),
            SqlEngine::MongoDB => Err(ErrorV::Unsupported("JSON operators are not supported"@)),
        },
        SqlBinaryOperator::Arrow2 => match d.engine {
            SqlEngine::MySQL => Ok((BinaryOperator::JsonPathExtractUnquote, false)),
            SqlEngine::PostgreSQL => Ok((BinaryOperator::JsonKeyExtractText, false)),
            SqlEngine::MongoDB => Err(ErrorV::Unsupported("JSON operators are not supported"@)),
        },
    }
}

impl BinaryOperator {
    /// True for operators whose result is a comparison of two scalars.
    pub open spec fn is_ordering_comparison(self) -> bool {
        ||| self is Equal
        ||| self is Greater
        ||| self is GreaterOrEqual
        ||| self is Less
        ||| self is LessOrEqual
    }

    /// True for the arithmetic operators.
    pub open spec fn is_arithmetic(self) -> bool {
        self is Add || self is Subtract || self is Multiply || self is Divide
    }
}

/// Numeric promotion for arithmetic: a decimal operand wins (left first),
/// then double, then float; two integers join to a big integer that is
/// unsigned only when both are; an unknown operand leaves the result
/// unknown; any other operand is treated as a big integer.
pub open spec fn numeric_promotion(l: DfTypeV, r: DfTypeV) -> DfTypeV {
    if l is Numeric {
        l
    } else if r is Numeric {
        r
    } else if l is Double || r is Double {
        DfTypeV::Double
    } else if l is Float || r is Float {
        DfTypeV::Float
    } else if l.is_any_int() && r.is_any_int() {
        if l.is_unsigned_int() && r.is_unsigned_int() {
            DfTypeV::UnsignedBigInt
        } else {
            DfTypeV::BigInt
        }
    } else if l is Unknown || r is Unknown {
        DfTypeV::Unknown
    } else {
        DfTypeV::BigInt
    }
}

/// The output type of a resolved operator: comparisons and the JSON
/// predicates yield booleans, arithmetic follows numeric promotion, JSON
/// key extraction yields the JSON kind of its left operand (text for the
/// text-extracting form), and MySQL JSON path extraction is unsupported.
pub open spec fn output_type_spec(op: BinaryOperator, l: DfTypeV, r: DfTypeV) -> Result<
    DfTypeV,
    ErrorV,
> {
    match op {
        BinaryOperator::And => Ok(DfTypeV::Bool),
        BinaryOperator::Or => Ok(DfTypeV::Bool),
        BinaryOperator::Like => Ok(DfTypeV::Bool),
        BinaryOperator::ILike => Ok(DfTypeV::Bool),
        BinaryOperator::Equal => Ok(DfTypeV::Bool),
        BinaryOperator::Greater => Ok(DfTypeV::Bool),
        BinaryOperator::GreaterOrEqual => Ok(DfTypeV::Bool),
        BinaryOperator::Less => Ok(DfTypeV::Bool),
        BinaryOperator::LessOrEqual => Ok(DfTypeV::Bool),
        BinaryOperator::Is => Ok(DfTypeV::Bool),
        BinaryOperator::JsonExists => Ok(DfTypeV::Bool),
        BinaryOperator::JsonAnyExists => Ok(DfTypeV::Bool),
        BinaryOperator::JsonAllExists => Ok(DfTypeV::Bool),
        BinaryOperator::Add => Ok(numeric_promotion(l, r)),
        BinaryOperator::Subtract => Ok(numeric_promotion(l, r)),
        BinaryOperator::Multiply => Ok(numeric_promotion(l, r)),
        BinaryOperator::Divide => Ok(numeric_promotion(l, r)),
        BinaryOperator::JsonKeyExtract => Ok(
            if l is Jsonb {
                DfTypeV::Jsonb
            } else {
                DfTypeV::Json
            },
        ),
        BinaryOperator::JsonKeyExtractText => Ok(DfTypeV::default_text()),
        BinaryOperator::JsonPathExtract => Err(
            ErrorV::Unsupported("JSON path extraction is not supported"@),
        ),
        BinaryOperator::JsonPathExtractUnquote => Err(
            ErrorV::Unsupported("JSON path extraction is not supported"@),
        ),
    }
}

/// The cast targets an operator imposes on its operands. For ordering
/// comparisons an unknown operand is cast to the other operand's known
/// type. Pattern matches cast both operands to default text when not
/// already textual. The JSON predicates cast their left operand to jsonb
/// and their right operand to text (an array of text for the multi-key
/// forms). JSON key extraction casts a non-JSON left operand to json.
pub open spec fn argument_type_coercions_spec(op: BinaryOperator, l: DfTypeV, r: DfTypeV) -> (
    Option<DfTypeV>,
    Option<DfTypeV>,
) {
    if op.is_ordering_comparison() {
        if l.is_unknown() && r.is_known() {
            (Some(r), None)
        } else if r.is_unknown() && l.is_known() {
            (None, Some(l))
        } else {
            (None, None)
        }
    } else if op is Like || op is ILike {
        (
            if l.is_any_text() {
                None
            } else {
                Some(DfTypeV::default_text())
            },
            if r.is_any_text() {
                None
            } else {
                Some(DfTypeV::default_text())
            },
        )
    } else if op is JsonExists {
        (
            if l.is_any_json() {
                None
            } else {
                Some(DfTypeV::Jsonb)
            },
            if r.is_any_text() {
                None
            } else {
                Some(DfTypeV::default_text())
            },
        )
    } else if op is JsonAnyExists || op is JsonAllExists {
        (
            if l.is_any_json() {
                None
            } else {
                Some(DfTypeV::Jsonb)
            },
            if r.is_array() {
                None
            } else {
                Some(DfTypeV::Array(Box::new(DfTypeV::default_text())))
            },
        )
    } else if op is JsonKeyExtract || op is JsonKeyExtractText {
        (
            if l.is_any_json() {
                None
            } else {
                Some(DfTypeV::Json)
            },
            None,
        )
    } else {
        (None, None)
    }
}

impl BinaryOperator {
    /// Resolves a syntactic operator under the given dialect to a
    /// canonical operator and a flag saying whether the whole result must
    /// be wrapped in NOT.
    pub fn from_sql_op(
        op: SqlBinaryOperator,
        dialect: Dialect,
        _left_type: &DfType,
        _right_type: &DfType,
    ) -> (r: Result<(BinaryOperator, bool), ReadySetError>)
        ensures
            op_result_view(r) == from_sql_op_spec(op, dialect),
    {
        match op {
            SqlBinaryOperator::And => Ok((BinaryOperator::And, false)),
            SqlBinaryOperator::Or => Ok((BinaryOperator::Or, false)),
            SqlBinaryOperator::Add => Ok((BinaryOperator::Add, false)),
            SqlBinaryOperator::Subtract => Ok((BinaryOperator::Subtract, false)),
            SqlBinaryOperator::Multiply => Ok((BinaryOperator::Multiply, false)),
            SqlBinaryOperator::Divide => Ok((BinaryOperator::Divide, false)),
            SqlBinaryOperator::Like => Ok((BinaryOperator::Like, false)),
            SqlBinaryOperator::NotLike => Ok((BinaryOperator::Like, true)),
            SqlBinaryOperator::ILike => Ok((BinaryOperator::ILike, false)),
            SqlBinaryOperator::NotILike => Ok((BinaryOperator::ILike, true)),
            SqlBinaryOperator::Equal => Ok((BinaryOperator::Equal, false)),
            SqlBinaryOperator::NotEqual => Ok((BinaryOperator::Equal, true)),
            SqlBinaryOperator::Greater => Ok((BinaryOperator::Greater, false)),
            SqlBinaryOperator::GreaterOrEqual => Ok((BinaryOperator::GreaterOrEqual, false)),
            SqlBinaryOperator::Less => Ok((BinaryOperator::Less, false)),
            SqlBinaryOperator::LessOrEqual => Ok((BinaryOperator::LessOrEqual, false)),
            SqlBinaryOperator::Is => Ok((BinaryOperator::Is, false)),
            SqlBinaryOperator::IsNot => Ok((BinaryOperator::Is, true)),
            SqlBinaryOperator::QuestionMark => Ok((BinaryOperator::JsonExists, false)),
            SqlBinaryOperator::QuestionMarkPipe => Ok((BinaryOperator::JsonAnyExists, false)),
            SqlBinaryOperator::QuestionMarkAnd => Ok((BinaryOperator::JsonAllExists, false)),
            SqlBinaryOperator::Arrow1 => match dialect.engine() {
                SqlEngine::MySQL => Ok((BinaryOperator::JsonPathExtract, false)),
                SqlEngine::PostgreSQL => Ok((BinaryOperator::JsonKeyExtract, false)),
                SqlEngine::MongoDB => Err(ReadySetError::unsupported("JSON operators are not supported")),
            },
            SqlBinaryOperator::Arrow2 => match dialect.engine() {
                SqlEngine::MySQL => Ok((BinaryOperator::JsonPathExtractUnquote, false)),
                SqlEngine::PostgreSQL => Ok((BinaryOperator::JsonKeyExtractText, false)),
                SqlEngine::MongoDB => Err(ReadySetError::unsupported("JSON operators are not supported")),
            },
        }
    }

    /// The output type of this operator applied to operands of the given
    /// types.
    pub fn output_type(&self, left: &DfType, right: &DfType) -> (r: Result<DfType, ReadySetError>)
        ensures
            ty_result_view(r) == output_type_spec(*self, left@, right@),
    {
        match self {
            BinaryOperator::Add | BinaryOperator::Subtract | BinaryOperator::Multiply
                | BinaryOperator::Divide => {
                if matches!(left, DfType::Numeric { .. }) {
                    Ok(left.clone())
                } else if matches!(right, DfType::Numeric { .. }) {
                    Ok(right.clone())
                } else if matches!(left, DfType::Double) || matches!(right, DfType::Double) {
                    Ok(DfType::Double)
                } else if matches!(left, DfType::Float) || matches!(right, DfType::Float) {
                    Ok(DfType::Float)
                } else if left.is_any_int() && right.is_any_int() {
                    if left.is_unsigned_int() && right.is_unsigned_int() {
                        Ok(DfType::UnsignedBigInt)
                    } else {
                        Ok(DfType::BigInt)
                    }
                } else if matches!(left, DfType::Unknown) || matches!(right, DfType::Unknown) {
                    Ok(DfType::Unknown)
                } else {
                    Ok(DfType::BigInt)
                }
            }
            BinaryOperator::JsonKeyExtract => {
                if matches!(left, DfType::Jsonb) {
                    Ok(DfType::Jsonb)
                } else {
                    Ok(DfType::Json)
                }
            }
            BinaryOperator::JsonKeyExtractText => Ok(DfType::default_text()),
            BinaryOperator::JsonPathExtract | BinaryOperator::JsonPathExtractUnquote => {
                Err(ReadySetError::unsupported("JSON path extraction is not supported"))
            }
            _ => Ok(DfType::Bool),
        }
    }

    /// The cast targets this operator imposes on its operands; the caller
    /// wraps the corresponding child in a cast node for each returned
    /// type.
    pub fn argument_type_coercions(&self, left: &DfType, right: &DfType) -> (r: (
        Option<DfType>,
        Option<DfType>,
    ))
        ensures
            (opt_ty_view(r.0), opt_ty_view(r.1)) == argument_type_coercions_spec(
                *self,
                left@,
                right@,
            ),
    {
        match self {
            BinaryOperator::Equal | BinaryOperator::Greater | BinaryOperator::GreaterOrEqual
                | BinaryOperator::Less | BinaryOperator::LessOrEqual => {
                if left.is_unknown() && right.is_known() {
                    (Some(right.clone()), None)
                } else if right.is_unknown() && left.is_known() {
                    (None, Some(left.clone()))
                } else {
                    (None, None)
                }
            }
            BinaryOperator::Like | BinaryOperator::ILike => (
                if left.is_any_text() {
                    None
                } else {
                    Some(DfType::default_text())
                },
                if right.is_any_text() {
                    None
                } else {
                    Some(DfType::default_text())
                },
            ),
            BinaryOperator::JsonExists => (
                if left.is_any_json() {
                    None
                } else {
                    Some(DfType::Jsonb)
                },
                if right.is_any_text() {
                    None
                } else {
                    Some(DfType::default_text())
                },
            ),
            BinaryOperator::JsonAnyExists | BinaryOperator::JsonAllExists => (
                if left.is_any_json() {
                    None
                } else {
                    Some(DfType::Jsonb)
                },
                if right.is_array() {
                    None
                } else {
                    Some(DfType::Array(Box::new(DfType::default_text())))
                },
            ),
            BinaryOperator::JsonKeyExtract | BinaryOperator::JsonKeyExtractText => (
                if left.is_any_json() {
                    None
                } else {
                    Some(DfType::Json)
                },
                None,
            ),
            _ => (None, None),
        }
    }
}

} // verus!
