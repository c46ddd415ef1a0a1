use vstd::prelude::*;

verus! {

/// What kind of values a field of a schema holds.
#[derive(Clone, Copy, Debug, PartialEq, Eq, Structural)]
pub enum FieldKind {
    Str,
    U64,
    I64,
    F64,
    Date,
    Facet,
    Bytes,
    JsonObject,
}

/// How the per-document value of a numeric field is read.
#[derive(Clone, Copy, Debug, PartialEq, Eq, Structural)]
pub enum NumberKind {
    Unsigned,
    Signed,
    Float,
}

/// How a variable of a ranking expression reads its field: as a number,
/// where the field holds numbers; not at all, where it holds anything else.
pub open spec fn spec_number_kind(kind: FieldKind) -> Option<NumberKind> {
    match kind {
        FieldKind::U64 => Some(NumberKind::Unsigned),
        FieldKind::I64 => Some(NumberKind::Signed),
        FieldKind::F64 => Some(NumberKind::Float),
        _ => None,
    }
}

/// How a variable of a ranking expression reads a field of this kind, or
/// nothing where the field holds no numbers.
pub fn number_kind(kind: FieldKind) -> (number: Option<NumberKind>)
    ensures
        number == spec_number_kind(kind),
{
    match kind {
        FieldKind::U64 => Some(NumberKind::Unsigned),
        FieldKind::I64 => Some(NumberKind::Signed),
        FieldKind::F64 => Some(NumberKind::Float),
        _ => None,
    }
}

} // verus!
