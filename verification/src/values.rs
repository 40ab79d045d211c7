//! Runtime values carried by literal nodes of the intermediate
//! representation, and the natural dataflow type of each.

use vstd::prelude::*;

use crate::types::{DfType, DfTypeV};

verus! {

/// A runtime value held by a literal node. Floating-point literals carry
/// their decimal text: lowering never computes with the number itself, only
/// with its type.
#[derive(Debug, PartialEq, Eq)]
pub enum DfValue {
    /// SQL NULL.
    Null,
    Int(i64),
    UnsignedInt(u64),
    Bool(bool),
    /// A single-precision literal, kept as its decimal text.
    Float(String),
    /// A double-precision literal, kept as its decimal text.
    Double(String),
    Text(String),
}

/// Mathematical model of a [`DfValue`].
#[verifier::ext_equal]
pub enum DfValueV {
    Null,
    Int(i64),
    UnsignedInt(u64),
    Bool(bool),
    Float(Seq<char>),
    Double(Seq<char>),
    Text(Seq<char>),
}

impl View for DfValue {
    type V = DfValueV;

    open spec fn view(&self) -> DfValueV {
        match self {
            DfValue::Null => DfValueV::Null,
            DfValue::Int(i) => DfValueV::Int(*i),
            DfValue::UnsignedInt(u) => DfValueV::UnsignedInt(*u),
            DfValue::Bool(b) => DfValueV::Bool(*b),
            DfValue::Float(s) => DfValueV::Float(s@),
            DfValue::Double(s) => DfValueV::Double(s@),
            DfValue::Text(s) => DfValueV::Text(s@),
        }
    }
}

impl DfValueV {
    /// The natural dataflow type of a value: the type a literal of this
    /// value receives when the dialect assigns no other.
    pub open spec fn infer_dataflow_type(self) -> DfTypeV {
        match self {
            DfValueV::Null => DfTypeV::Unknown,
            DfValueV::Int(_) => DfTypeV::BigInt,
            DfValueV::UnsignedInt(_) => DfTypeV::UnsignedBigInt,
            DfValueV::Bool(_) => DfTypeV::Bool,
            DfValueV::Float(_) => DfTypeV::Float,
            DfValueV::Double(_) => DfTypeV::Double,
            DfValueV::Text(_) => DfTypeV::default_text(),
        }
    }
}

impl DfValue {
    /// The natural dataflow type of this value.
    pub fn infer_dataflow_type(&self) -> (t: DfType)
        ensures
            t@ == self@.infer_dataflow_type(),
    {
        match self {
            DfValue::Null => DfType::Unknown,
            DfValue::Int(_) => DfType::BigInt,
            DfValue::UnsignedInt(_) => DfType::UnsignedBigInt,
            DfValue::Bool(_) => DfType::Bool,
            DfValue::Float(_) => DfType::Float,
            DfValue::Double(_) => DfType::Double,
            DfValue::Text(_) => DfType::default_text(),
        }
    }
}

impl Clone for DfValue {
    /// Copies the value, preserving its model.
    fn clone(&self) -> (r: Self)
        ensures
            r@ == self@,
    {
        match self {
            DfValue::Null => DfValue::Null,
            DfValue::Int(i) => DfValue::Int(*i),
            DfValue::UnsignedInt(u) => DfValue::UnsignedInt(*u),
            DfValue::Bool(b) => DfValue::Bool(*b),
            DfValue::Float(s) => DfValue::Float(s.clone()),
            DfValue::Double(s) => DfValue::Double(s.clone()),
            DfValue::Text(s) => DfValue::Text(s.clone()),
        }
    }
}

} // verus!
