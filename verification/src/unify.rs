//! The type unifier: combines several input types into one result type,
//! under PostgreSQL's unification rules or MySQL's GREATEST/LEAST
//! comparison rules.

use vstd::prelude::*;

use crate::error::{ErrorV, ReadySetError};
use crate::types::{df_type_eq, DfType, DfTypeV};

verus! {

/// The model of a sequence of borrowed type descriptors.
pub open spec fn tys_view(s: Seq<&DfType>) -> Seq<DfTypeV> {
    Seq::new(s.len(), |i: int| s[i]@)
}

/// The model of a unification result.
pub open spec fn ty_result_view(r: Result<DfType, ReadySetError>) -> Result<DfTypeV, ErrorV> {
    match r {
        Ok(t) => Ok(t@),
        Err(e) => Err(e@),
    }
}

/// True when every type from the second position on equals the first.
pub open spec fn all_equal_first(types: Seq<DfTypeV>) -> bool {
    forall|i: int| 1 <= i < types.len() ==> #[trigger] types[i] == types[0]
}

/// True when some type in the sequence is known.
pub open spec fn has_known(types: Seq<DfTypeV>) -> bool {
    exists|i: int| 0 <= i < types.len() && (#[trigger] types[i]).is_known()
}

/// The position of the first known type in the sequence.
pub open spec fn first_known_index(types: Seq<DfTypeV>) -> int
    decreases types.len(),
{
    if types.len() == 0 {
        0
    } else if types[0].is_known() {
        0
    } else {
        1 + first_known_index(types.subrange(1, types.len() as int))
    }
}

/// True when some known type from the second position on disagrees in
/// category with the first known type.
pub open spec fn has_category_mismatch(types: Seq<DfTypeV>) -> bool {
    exists|i: int|
        1 <= i < types.len() && (#[trigger] types[i]).is_known() && types[i].pg_category()
            != types[first_known_index(types)].pg_category()
}

/// PostgreSQL's unification of a list of types: all equal and known gives
/// that type; all unknown gives default text; a category disagreement
/// among the known types fails; otherwise the first known type wins (a
/// documented simplification of preferred-type promotion).
pub open spec fn unify_postgres_types_spec(types: Seq<DfTypeV>) -> Result<DfTypeV, ErrorV> {
    if types.len() == 0 {
        Ok(DfTypeV::default_text())
    } else if all_equal_first(types) && types[0].is_known() {
        Ok(types[0])
    } else if !has_known(types) {
        Ok(DfTypeV::default_text())
    } else if has_category_mismatch(types) {
        Err(ErrorV::Invalid("cannot coerce between types of different categories"@))
    } else {
        Ok(types[first_known_index(types)])
    }
}

/// In a sequence with a known type, the first known index is in bounds,
/// names a known type, and every earlier type is unknown.
pub proof fn lemma_first_known_index(types: Seq<DfTypeV>)
    requires
        has_known(types),
    ensures
        0 <= first_known_index(types) < types.len(),
        types[first_known_index(types)].is_known(),
        forall|i: int| 0 <= i < first_known_index(types) ==> !(#[trigger] types[i]).is_known(),
    decreases types.len(),
{
    if types.len() == 0 {
    } else if types[0].is_known() {
    } else {
        let rest = types.subrange(1, types.len() as int);
        assert(has_known(rest)) by {
            let w = choose|i: int| 0 <= i < types.len() && (#[trigger] types[i]).is_known();
            assert(rest[w - 1] == types[w]);
        }
        lemma_first_known_index(rest);
        assert forall|i: int| 0 <= i < first_known_index(types) implies !(#[trigger] types[i]).is_known() by {
            if i >= 1 {
                assert(rest[i - 1] == types[i]);
            }
        }
    }
}

/// Unify the given list of types according to PostgreSQL's rules for
/// CASE and array expressions.
pub fn unify_postgres_types(types: Vec<&DfType>) -> (r: Result<DfType, ReadySetError>)
    ensures
        ty_result_view(r) == unify_postgres_types_spec(tys_view(types@)),
{
    let ghost tv = tys_view(types@);
    if types.len() == 0 {
        return Ok(DfType::default_text());
    }
    let first_ty: &DfType = types[0];

    // Step one: if all inputs are of the same known type, resolve as that
    // type.
    let mut all_eq: bool = true;
    let mut i: usize = 1;
    while i < types.len()
        invariant
            1 <= i <= types.len(),
            tv.len() == types@.len(),
            forall|k: int| 0 <= k < types@.len() ==> tv[k] == types@[k]@,
            first_ty@ == tv[0],
            all_eq == (forall|k: int| 1 <= k < i ==> #[trigger] tv[k] == tv[0]),
        decreases types.len() - i,
    {
        proof {
            assert(tv[i as int] == types@[i as int]@);
            assert(tv[0] == types@[0]@);
        }
        let eq_i = df_type_eq(types[i], first_ty);
        proof {
            assert(eq_i == (tv[i as int] == tv[0]));
        }
        if !eq_i {
            all_eq = false;
        }
        i = i + 1;
    }
    if all_eq && first_ty.is_known() {
        return Ok(first_ty.clone());
    }

    // Step two: domain types are not modeled, so nothing to do.

    // Step three: if all inputs are unknown, resolve as default text;
    // otherwise unknown inputs are ignored by the remaining steps.
    let mut first_known: usize = 0;
    let mut found: bool = false;
    let mut j: usize = 0;
    while j < types.len()
        invariant
            0 <= j <= types.len(),
            tv.len() == types@.len(),
            forall|k: int| 0 <= k < types@.len() ==> tv[k] == types@[k]@,
            !found ==> forall|k: int| 0 <= k < j ==> !(#[trigger] tv[k]).is_known(),
            found ==> 0 <= first_known < j && tv[first_known as int].is_known()
                && (forall|k: int| 0 <= k < first_known ==> !(#[trigger] tv[k]).is_known()),
        decreases types.len() - j,
    {
        if !found && types[j].is_known() {
            first_known = j;
            found = true;
        }
        j = j + 1;
    }
    if !found {
        proof {
            assert(!has_known(tv));
        }
        return Ok(DfType::default_text());
    }
    proof {
        assert(has_known(tv));
        lemma_first_known_index(tv);
        assert(first_known as int == first_known_index(tv)) by {
            assert(tv[first_known as int].is_known());
            if (first_known as int) < first_known_index(tv) {
                assert(!tv[first_known as int].is_known());
            }
            if first_known_index(tv) < first_known as int {
                assert(!tv[first_known_index(tv)].is_known());
            }
        }
    }
    let first_known_ty: &DfType = types[first_known];

    // Step four: if the known inputs do not all share one category, fail.
    let fk_cat = first_known_ty.pg_category();
    let mut mismatch: bool = false;
    let mut k: usize = 1;
    while k < types.len()
        invariant
            1 <= k <= types.len(),
            tv.len() == types@.len(),
            forall|m: int| 0 <= m < types@.len() ==> tv[m] == types@[m]@,
            0 <= first_known < types@.len(),
            first_known as int == first_known_index(tv),
            fk_cat == tv[first_known as int].pg_category(),
            mismatch == (exists|m: int|
                1 <= m < k && (#[trigger] tv[m]).is_known() && tv[m].pg_category() != fk_cat),
        decreases types.len() - k,
    {
        proof {
            assert(tv[k as int] == types@[k as int]@);
        }
        if types[k].is_known() && types[k].pg_category() != fk_cat {
            mismatch = true;
        }
        k = k + 1;
    }
    if mismatch {
        proof {
            assert(has_category_mismatch(tv));
        }
        return Err(ReadySetError::invalid("cannot coerce between types of different categories"));
    }
    proof {
        assert(!has_category_mismatch(tv));
    }

    // Step five: take the first known type; the real preferred-type
    // promotion is a documented simplification left as-is.
    Ok(first_known_ty.clone())
}

/// The width of the fixed binary comparison type MySQL falls back to.
pub open spec fn mysql_binary_fallback_width() -> u16 {
    65535
}

/// MySQL's choice of the type GREATEST and LEAST compare their arguments
/// as: unknown if any argument is unknown (or there are none); integers
/// compare as big integers; any float forces double; any character-string
/// argument, alone or mixed with numbers, compares as default text;
/// everything else compares as fixed binary strings of the largest width.
pub open spec fn mysql_least_greatest_compare_as_spec(types: Seq<DfTypeV>) -> DfTypeV {
    if types.len() == 0 || exists|i: int| 0 <= i < types.len() && (#[trigger] types[i]).is_unknown() {
        DfTypeV::Unknown
    } else if forall|i: int| 0 <= i < types.len() ==> (#[trigger] types[i]).is_any_int() {
        DfTypeV::BigInt
    } else if exists|i: int| 0 <= i < types.len() && (#[trigger] types[i]).is_any_float() {
        DfTypeV::Double
    } else if exists|i: int| 0 <= i < types.len() && (#[trigger] types[i]).is_any_text() {
        DfTypeV::default_text()
    } else {
        DfTypeV::Binary(mysql_binary_fallback_width())
    }
}

/// The type MySQL compares GREATEST or LEAST arguments as.
pub fn mysql_least_greatest_compare_as(arg_types: Vec<&DfType>) -> (r: DfType)
    ensures
        r@ == mysql_least_greatest_compare_as_spec(tys_view(arg_types@)),
{
    let ghost tv = tys_view(arg_types@);
    let mut any_unknown: bool = false;
    let mut all_int: bool = true;
    let mut any_float: bool = false;
    let mut any_text: bool = false;
    let mut i: usize = 0;
    while i < arg_types.len()
        invariant
            0 <= i <= arg_types.len(),
            tv.len() == arg_types@.len(),
            forall|k: int| 0 <= k < arg_types@.len() ==> tv[k] == arg_types@[k]@,
            any_unknown == (exists|k: int| 0 <= k < i && (#[trigger] tv[k]).is_unknown()),
            all_int == (forall|k: int| 0 <= k < i ==> (#[trigger] tv[k]).is_any_int()),
            any_float == (exists|k: int| 0 <= k < i && (#[trigger] tv[k]).is_any_float()),
            any_text == (exists|k: int| 0 <= k < i && (#[trigger] tv[k]).is_any_text()),
        decreases arg_types.len() - i,
    {
        let t: &DfType = arg_types[i];
        proof {
            assert(tv[i as int] == arg_types@[i as int]@);
        }
        if t.is_unknown() {
            any_unknown = true;
        }
        if !t.is_any_int() {
            all_int = false;
        }
        if t.is_any_float() {
            any_float = true;
        }
        if t.is_any_text() {
            any_text = true;
        }
        i = i + 1;
    }
    if arg_types.len() == 0 || any_unknown {
        DfType::Unknown
    } else if all_int {
        DfType::BigInt
    } else if any_float {
        DfType::Double
    } else if any_text {
        DfType::default_text()
    } else {
        DfType::Binary(65535)
    }
}

} // verus!
