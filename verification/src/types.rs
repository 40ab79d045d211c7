//! The semantic type descriptor assigned to every lowered expression node,
//! together with its mathematical model and the basic operations lowering
//! needs: classification predicates, equality, and copying.

use vstd::prelude::*;

use crate::strutil::string_eq;

verus! {

/// Collation of a text type.
#[derive(Clone, Copy, Debug, PartialEq, Eq, Structural)]
pub enum Collation {
    /// The default case-sensitive collation.
    Utf8,
    /// Case-insensitive text.
    Citext,
}

/// PostgreSQL metadata attached to a named enum type.
#[derive(Debug, PartialEq, Eq)]
pub struct PgEnumMetadata {
    /// The enum type's name.
    pub name: String,
    /// The schema the enum type belongs to.
    pub schema: String,
    /// The type's object identifier in the catalog.
    pub oid: u32,
    /// The object identifier of the type's array type.
    pub array_oid: u32,
}

/// Mathematical model of [`PgEnumMetadata`].
#[verifier::ext_equal]
pub struct PgEnumMetadataV {
    pub name: Seq<char>,
    pub schema: Seq<char>,
    pub oid: u32,
    pub array_oid: u32,
}

impl View for PgEnumMetadata {
    type V = PgEnumMetadataV;

    open spec fn view(&self) -> PgEnumMetadataV {
        PgEnumMetadataV { name: self.name@, schema: self.schema@, oid: self.oid, array_oid: self.array_oid }
    }
}

/// Semantic type descriptor for a lowered expression node.
#[derive(Debug, PartialEq, Eq)]
pub enum DfType {
    /// Placeholder for values whose type is not yet known, such as untyped
    /// literals; resolved later by usage context.
    Unknown,
    Bool,
    TinyInt,
    UnsignedTinyInt,
    SmallInt,
    UnsignedSmallInt,
    Int,
    UnsignedInt,
    BigInt,
    UnsignedBigInt,
    Float,
    Double,
    Numeric { prec: u16, scale: u8 },
    Text(Collation),
    Date,
    Time { subsecond_digits: u16 },
    Timestamp { subsecond_digits: u16 },
    Json,
    Jsonb,
    /// Fixed-length binary of the given width.
    Binary(u16),
    /// Variable-length binary up to the given width.
    VarBinary(u16),
    /// Array with the given element type.
    Array(Box<DfType>),
    /// A named custom enum type.
    Enum { variants: Vec<String>, metadata: Option<PgEnumMetadata> },
}

/// Mathematical model of [`DfType`].
#[verifier::ext_equal]
pub enum DfTypeV {
    Unknown,
    Bool,
    TinyInt,
    UnsignedTinyInt,
    SmallInt,
    UnsignedSmallInt,
    Int,
    UnsignedInt,
    BigInt,
    UnsignedBigInt,
    Float,
    Double,
    Numeric { prec: u16, scale: u8 },
    Text(Collation),
    Date,
    Time { subsecond_digits: u16 },
    Timestamp { subsecond_digits: u16 },
    Json,
    Jsonb,
    Binary(u16),
    VarBinary(u16),
    Array(Box<DfTypeV>),
    Enum { variants: Seq<Seq<char>>, metadata: Option<PgEnumMetadataV> },
}

/// The model of a sequence of owned strings: each element's characters.
pub open spec fn strings_view(s: Seq<String>) -> Seq<Seq<char>> {
    Seq::new(s.len(), |i: int| s[i]@)
}

/// The model of an optional type descriptor.
pub open spec fn opt_ty_view(o: Option<DfType>) -> Option<DfTypeV> {
    match o {
        Some(t) => Some(t@),
        None => None,
    }
}

/// The model of an optional enum metadata value.
pub open spec fn opt_meta_view(m: Option<PgEnumMetadata>) -> Option<PgEnumMetadataV> {
    match m {
        Some(x) => Some(x@),
        None => None,
    }
}

/// Maps a type descriptor to its mathematical model.
pub open spec fn df_type_view(t: DfType) -> DfTypeV
    decreases t,
{
    match t {
        DfType::Unknown => DfTypeV::Unknown,
        DfType::Bool => DfTypeV::Bool,
        DfType::TinyInt => DfTypeV::TinyInt,
        DfType::UnsignedTinyInt => DfTypeV::UnsignedTinyInt,
        DfType::SmallInt => DfTypeV::SmallInt,
        DfType::UnsignedSmallInt => DfTypeV::UnsignedSmallInt,
        DfType::Int => DfTypeV::Int,
        DfType::UnsignedInt => DfTypeV::UnsignedInt,
        DfType::BigInt => DfTypeV::BigInt,
        DfType::UnsignedBigInt => DfTypeV::UnsignedBigInt,
        DfType::Float => DfTypeV::Float,
        DfType::Double => DfTypeV::Double,
        DfType::Numeric { prec, scale } => DfTypeV::Numeric { prec, scale },
        DfType::Text(c) => DfTypeV::Text(c),
        DfType::Date => DfTypeV::Date,
        DfType::Time { subsecond_digits } => DfTypeV::Time { subsecond_digits },
        DfType::Timestamp { subsecond_digits } => DfTypeV::Timestamp { subsecond_digits },
        DfType::Json => DfTypeV::Json,
        DfType::Jsonb => DfTypeV::Jsonb,
        DfType::Binary(n) => DfTypeV::Binary(n),
        DfType::VarBinary(n) => DfTypeV::VarBinary(n),
        DfType::Array(elem) => DfTypeV::Array(Box::new(df_type_view(*elem))),
        DfType::Enum { variants, metadata } => DfTypeV::Enum {
            variants: strings_view(variants@),
            metadata: opt_meta_view(metadata),
        },
    }
}

impl View for DfType {
    type V = DfTypeV;

    open spec fn view(&self) -> DfTypeV {
        df_type_view(*self)
    }
}

/// The category a type belongs to for PostgreSQL type-unification purposes.
#[derive(Clone, Copy, Debug, PartialEq, Eq, Structural)]
pub enum TypeCategory {
    Unknown,
    Boolean,
    Numeric,
    Text,
    DateTime,
    Json,
    Binary,
    Array,
    Enum,
}

impl DfTypeV {
    /// The default text type: text with the default collation.
    pub open spec fn default_text() -> DfTypeV {
        DfTypeV::Text(Collation::Utf8)
    }

    /// True unless the type is the unknown placeholder.
    pub open spec fn is_known(self) -> bool {
        !(self is Unknown)
    }

    /// True exactly for the unknown placeholder.
    pub open spec fn is_unknown(self) -> bool {
        self is Unknown
    }

    /// True for every integer kind, signed or unsigned.
    pub open spec fn is_any_int(self) -> bool {
        ||| self is TinyInt
        ||| self is UnsignedTinyInt
        ||| self is SmallInt
        ||| self is UnsignedSmallInt
        ||| self is Int
        ||| self is UnsignedInt
        ||| self is BigInt
        ||| self is UnsignedBigInt
    }

    /// True for every unsigned integer kind.
    pub open spec fn is_unsigned_int(self) -> bool {
        ||| self is UnsignedTinyInt
        ||| self is UnsignedSmallInt
        ||| self is UnsignedInt
        ||| self is UnsignedBigInt
    }

    /// True for the floating-point kinds.
    pub open spec fn is_any_float(self) -> bool {
        self is Float || self is Double
    }

    /// True for textual types.
    pub open spec fn is_any_text(self) -> bool {
        self is Text
    }

    /// True for the boolean type.
    pub open spec fn is_bool(self) -> bool {
        self is Bool
    }

    /// True for array types.
    pub open spec fn is_array(self) -> bool {
        self is Array
    }

    /// True for the JSON document types.
    pub open spec fn is_any_json(self) -> bool {
        self is Json || self is Jsonb
    }

    /// The declared subsecond precision of a time or timestamp type.
    pub open spec fn subsecond_digits(self) -> Option<u16> {
        match self {
            DfTypeV::Time { subsecond_digits } => Some(subsecond_digits),
            DfTypeV::Timestamp { subsecond_digits } => Some(subsecond_digits),
            _ => None,
        }
    }

    /// The element type reached by stripping every array layer.
    pub open spec fn innermost_array_type(self) -> DfTypeV
        decreases self,
    {
        match self {
            DfTypeV::Array(elem) => elem.innermost_array_type(),
            other => other,
        }
    }

    /// The category the type belongs to for unification purposes.
    pub open spec fn pg_category(self) -> TypeCategory {
        match self {
            DfTypeV::Unknown => TypeCategory::Unknown,
            DfTypeV::Bool => TypeCategory::Boolean,
            DfTypeV::TinyInt => TypeCategory::Numeric,
            DfTypeV::UnsignedTinyInt => TypeCategory::Numeric,
            DfTypeV::SmallInt => TypeCategory::Numeric,
            DfTypeV::UnsignedSmallInt => TypeCategory::Numeric,
            DfTypeV::Int => TypeCategory::Numeric,
            DfTypeV::UnsignedInt => TypeCategory::Numeric,
            DfTypeV::BigInt => TypeCategory::Numeric,
            DfTypeV::UnsignedBigInt => TypeCategory::Numeric,
            DfTypeV::Float => TypeCategory::Numeric,
            DfTypeV::Double => TypeCategory::Numeric,
            DfTypeV::Numeric { .. } => TypeCategory::Numeric,
            DfTypeV::Text(_) => TypeCategory::Text,
            DfTypeV::Date => TypeCategory::DateTime,
            DfTypeV::Time { .. } => TypeCategory::DateTime,
            DfTypeV::Timestamp { .. } => TypeCategory::DateTime,
            DfTypeV::Json => TypeCategory::Json,
            DfTypeV::Jsonb => TypeCategory::Json,
            DfTypeV::Binary(_) => TypeCategory::Binary,
            DfTypeV::VarBinary(_) => TypeCategory::Binary,
            DfTypeV::Array(_) => TypeCategory::Array,
            DfTypeV::Enum { .. } => TypeCategory::Enum,
        }
    }
}

impl DfType {
    /// The default text type: text with the default collation.
    pub fn default_text() -> (t: DfType)
        ensures
            t@ == DfTypeV::default_text(),
    {
        DfType::Text(Collation::Utf8)
    }

    /// Builds a named enum type from its variant names and metadata.
    pub fn from_enum_variants(variants: Vec<String>, metadata: Option<PgEnumMetadata>) -> (t: DfType)
        ensures
            t@ == (DfTypeV::Enum { variants: strings_view(variants@), metadata: opt_meta_view(metadata) }),
    {
        DfType::Enum { variants, metadata }
    }

    /// True unless the type is the unknown placeholder.
    pub fn is_known(&self) -> (r: bool)
        ensures
            r == self@.is_known(),
    {
        !matches!(self, DfType::Unknown)
    }

    /// True exactly for the unknown placeholder.
    pub fn is_unknown(&self) -> (r: bool)
        ensures
            r == self@.is_unknown(),
    {
        matches!(self, DfType::Unknown)
    }

    /// True for every integer kind, signed or unsigned.
    pub fn is_any_int(&self) -> (r: bool)
        ensures
            r == self@.is_any_int(),
    {
        matches!(
            self,
            DfType::TinyInt
                | DfType::UnsignedTinyInt
                | DfType::SmallInt
                | DfType::UnsignedSmallInt
                | DfType::Int
                | DfType::UnsignedInt
                | DfType::BigInt
                | DfType::UnsignedBigInt
        )
    }

    /// True for every unsigned integer kind.
    pub fn is_unsigned_int(&self) -> (r: bool)
        ensures
            r == self@.is_unsigned_int(),
    {
        matches!(
            self,
            DfType::UnsignedTinyInt | DfType::UnsignedSmallInt | DfType::UnsignedInt | DfType::UnsignedBigInt
        )
    }

    /// True for the floating-point kinds.
    pub fn is_any_float(&self) -> (r: bool)
        ensures
            r == self@.is_any_float(),
    {
        matches!(self, DfType::Float | DfType::Double)
    }

    /// True for textual types.
    pub fn is_any_text(&self) -> (r: bool)
        ensures
            r == self@.is_any_text(),
    {
        matches!(self, DfType::Text(_))
    }

    /// True for the boolean type.
    pub fn is_bool(&self) -> (r: bool)
        ensures
            r == self@.is_bool(),
    {
        matches!(self, DfType::Bool)
    }

    /// True for array types.
    pub fn is_array(&self) -> (r: bool)
        ensures
            r == self@.is_array(),
    {
        matches!(self, DfType::Array(_))
    }

    /// True for the JSON document types.
    pub fn is_any_json(&self) -> (r: bool)
        ensures
            r == self@.is_any_json(),
    {
        matches!(self, DfType::Json | DfType::Jsonb)
    }

    /// The declared subsecond precision of a time or timestamp type.
    pub fn subsecond_digits(&self) -> (r: Option<u16>)
        ensures
            r == self@.subsecond_digits(),
    {
        match self {
            DfType::Time { subsecond_digits } => Some(*subsecond_digits),
            DfType::Timestamp { subsecond_digits } => Some(*subsecond_digits),
            _ => None,
        }
    }

    /// The element type reached by stripping every array layer.
    pub fn innermost_array_type(&self) -> (r: &DfType)
        ensures
            r@ == self@.innermost_array_type(),
        decreases *self,
    {
        match self {
            DfType::Array(elem) => elem.innermost_array_type(),
            other => other,
        }
    }

    /// The category the type belongs to for unification purposes.
    pub fn pg_category(&self) -> (r: TypeCategory)
        ensures
            r == self@.pg_category(),
    {
        match self {
            DfType::Unknown => TypeCategory::Unknown,
            DfType::Bool => TypeCategory::Boolean,
            DfType::TinyInt => TypeCategory::Numeric,
            DfType::UnsignedTinyInt => TypeCategory::Numeric,
            DfType::SmallInt => TypeCategory::Numeric,
            DfType::UnsignedSmallInt => TypeCategory::Numeric,
            DfType::Int => TypeCategory::Numeric,
            DfType::UnsignedInt => TypeCategory::Numeric,
            DfType::BigInt => TypeCategory::Numeric,
            DfType::UnsignedBigInt => TypeCategory::Numeric,
            DfType::Float => TypeCategory::Numeric,
            DfType::Double => TypeCategory::Numeric,
            DfType::Numeric { .. } => TypeCategory::Numeric,
            DfType::Text(_) => TypeCategory::Text,
            DfType::Date => TypeCategory::DateTime,
            DfType::Time { .. } => TypeCategory::DateTime,
            DfType::Timestamp { .. } => TypeCategory::DateTime,
            DfType::Json => TypeCategory::Json,
            DfType::Jsonb => TypeCategory::Json,
            DfType::Binary(_) => TypeCategory::Binary,
            DfType::VarBinary(_) => TypeCategory::Binary,
            DfType::Array(_) => TypeCategory::Array,
            DfType::Enum { .. } => TypeCategory::Enum,
        }
    }
}

impl Clone for PgEnumMetadata {
    /// Copies the metadata, preserving its model.
    fn clone(&self) -> (r: Self)
        ensures
            r@ == self@,
    {
        PgEnumMetadata {
            name: self.name.clone(),
            schema: self.schema.clone(),
            oid: self.oid,
            array_oid: self.array_oid,
        }
    }
}

/// Copies a vector of strings, preserving its model.
fn clone_strings(v: &Vec<String>) -> (r: Vec<String>)
    ensures
        strings_view(r@) == strings_view(v@),
{
    let mut out: Vec<String> = Vec::new();
    let mut i: usize = 0;
    while i < v.len()
        invariant
            i <= v.len(),
            out@.len() == i,
            forall|k: int| 0 <= k < i ==> out@[k]@ == v@[k]@,
        decreases v.len() - i,
    {
        out.push(v[i].clone());
        i = i + 1;
    }
    proof {
        assert(strings_view(out@) =~= strings_view(v@));
    }
    out
}

impl Clone for DfType {
    /// Copies the type descriptor, preserving its model.
    fn clone(&self) -> (r: Self)
        ensures
            r@ == self@,
        decreases *self,
    {
        match self {
            DfType::Unknown => DfType::Unknown,
            DfType::Bool => DfType::Bool,
            DfType::TinyInt => DfType::TinyInt,
            DfType::UnsignedTinyInt => DfType::UnsignedTinyInt,
            DfType::SmallInt => DfType::SmallInt,
            DfType::UnsignedSmallInt => DfType::UnsignedSmallInt,
            DfType::Int => DfType::Int,
            DfType::UnsignedInt => DfType::UnsignedInt,
            DfType::BigInt => DfType::BigInt,
            DfType::UnsignedBigInt => DfType::UnsignedBigInt,
            DfType::Float => DfType::Float,
            DfType::Double => DfType::Double,
            DfType::Numeric { prec, scale } => DfType::Numeric { prec: *prec, scale: *scale },
            DfType::Text(c) => DfType::Text(*c),
            DfType::Date => DfType::Date,
            DfType::Time { subsecond_digits } => DfType::Time { subsecond_digits: *subsecond_digits },
            DfType::Timestamp { subsecond_digits } => DfType::Timestamp { subsecond_digits: *subsecond_digits },
            DfType::Json => DfType::Json,
            DfType::Jsonb => DfType::Jsonb,
            DfType::Binary(n) => DfType::Binary(*n),
            DfType::VarBinary(n) => DfType::VarBinary(*n),
            DfType::Array(elem) => DfType::Array(Box::new((**elem).clone())),
            DfType::Enum { variants, metadata } => DfType::Enum {
                variants: clone_strings(variants),
                metadata: match metadata {
                    Some(m) => Some(m.clone()),
                    None => None,
                },
            },
        }
    }
}

/// Compares two type descriptors; true exactly when their models are equal.
pub fn df_type_eq(a: &DfType, b: &DfType) -> (r: bool)
    ensures
        r == (a@ == b@),
    decreases *a,
{
    match (a, b) {
        (DfType::Unknown, DfType::Unknown) => true,
        (DfType::Bool, DfType::Bool) => true,
        (DfType::TinyInt, DfType::TinyInt) => true,
        (DfType::UnsignedTinyInt, DfType::UnsignedTinyInt) => true,
        (DfType::SmallInt, DfType::SmallInt) => true,
        (DfType::UnsignedSmallInt, DfType::UnsignedSmallInt) => true,
        (DfType::Int, DfType::Int) => true,
        (DfType::UnsignedInt, DfType::UnsignedInt) => true,
        (DfType::BigInt, DfType::BigInt) => true,
        (DfType::UnsignedBigInt, DfType::UnsignedBigInt) => true,
        (DfType::Float, DfType::Float) => true,
        (DfType::Double, DfType::Double) => true,
        (DfType::Numeric { prec: pa, scale: sa }, DfType::Numeric { prec: pb, scale: sb }) => {
            *pa == *pb && *sa == *sb
        }
        (DfType::Text(ca), DfType::Text(cb)) => *ca == *cb,
        (DfType::Date, DfType::Date) => true,
        (DfType::Time { subsecond_digits: da }, DfType::Time { subsecond_digits: db }) => *da == *db,
        (DfType::Timestamp { subsecond_digits: da }, DfType::Timestamp { subsecond_digits: db }) => {
            *da == *db
        }
        (DfType::Json, DfType::Json) => true,
        (DfType::Jsonb, DfType::Jsonb) => true,
        (DfType::Binary(na), DfType::Binary(nb)) => *na == *nb,
        (DfType::VarBinary(na), DfType::VarBinary(nb)) => *na == *nb,
        (DfType::Array(ea), DfType::Array(eb)) => df_type_eq(ea, eb),
        (
            DfType::Enum { variants: va, metadata: ma },
            DfType::Enum { variants: vb, metadata: mb },
        ) => {
            let vars_eq = string_vecs_eq(va, vb);
            let meta_eq = match (ma, mb) {
                (None, None) => true,
                (Some(xa), Some(xb)) => {
                    string_eq(&xa.name, &xb.name) && string_eq(&xa.schema, &xb.schema)
                        && xa.oid == xb.oid && xa.array_oid == xb.array_oid
                }
                _ => false,
            };
            proof {
                if vars_eq && meta_eq {
                    assert(a@ =~~= b@);
                }
            }
            vars_eq && meta_eq
        }
        _ => false,
    }
}

/// Compares two vectors of strings; true exactly when their models are
/// equal.
fn string_vecs_eq(a: &Vec<String>, b: &Vec<String>) -> (r: bool)
    ensures
        r == (strings_view(a@) == strings_view(b@)),
{
    if a.len() != b.len() {
        proof {
            assert(strings_view(a@).len() != strings_view(b@).len());
        }
        return false;
    }
    let mut i: usize = 0;
    while i < a.len()
        invariant
            i <= a.len(),
            a@.len() == b@.len(),
            forall|k: int| 0 <= k < i ==> a@[k]@ == b@[k]@,
        decreases a.len() - i,
    {
        if !string_eq(&a[i], &b[i]) {
            proof {
                assert(strings_view(a@)[i as int] != strings_view(b@)[i as int]);
            }
            return false;
        }
        i = i + 1;
    }
    proof {
        assert(strings_view(a@) =~= strings_view(b@));
    }
    true
}

} // verus!
