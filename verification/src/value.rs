//! The two value unions that the pipeline converts between: the JSON
//! scalar model of the wire and the column value union of the store.

use vstd::prelude::*;

verus! {

/// A JSON scalar as it appears in a request's argument list or in a
/// response row. Arrays and objects are not scalars; the request model
/// (`request::ArgEntry`) carries them separately, since they are legal
/// only as a batch argument group and never as a bind parameter.
///
/// A JSON number is either an integer or a double; a double is carried
/// as its IEEE 754 bit pattern, so that the library can state and check
/// finiteness without computing on floats.
#[derive(Clone, Debug, PartialEq)]
pub enum JsonScalar {
    Null,
    Bool(bool),
    Int(i64),
    /// IEEE 754 bit pattern of a 64-bit float.
    Float(u64),
    Str(String),
}

/// The store's column value union, produced for one result cell and
/// consumed by the marshaller. A real column is carried as the IEEE 754
/// bit pattern of its 64-bit float.
#[derive(Clone, Debug, PartialEq)]
pub enum InteropValue {
    Null,
    Integer(i64),
    Real(u64),
    Text(String),
    Blob(Vec<u8>),
}

/// Mathematical model of a `JsonScalar`: strings as character sequences.
pub ghost enum ScalarModel {
    Null,
    Bool(bool),
    Int(i64),
    Float(u64),
    Str(Seq<char>),
}

/// Mathematical model of an `InteropValue`: text as a character
/// sequence, blobs as a byte sequence.
pub ghost enum ColumnModel {
    Null,
    Integer(i64),
    Real(u64),
    Text(Seq<char>),
    Blob(Seq<u8>),
}

impl View for JsonScalar {
    type V = ScalarModel;

    open spec fn view(&self) -> ScalarModel {
        match self {
            JsonScalar::Null => ScalarModel::Null,
            JsonScalar::Bool(b) => ScalarModel::Bool(*b),
            JsonScalar::Int(i) => ScalarModel::Int(*i),
            JsonScalar::Float(bits) => ScalarModel::Float(*bits),
            JsonScalar::Str(s) => ScalarModel::Str(s@),
        }
    }
}

impl DeepView for JsonScalar {
    type V = ScalarModel;

    open spec fn deep_view(&self) -> ScalarModel {
        self.view()
    }
}

impl View for InteropValue {
    type V = ColumnModel;

    open spec fn view(&self) -> ColumnModel {
        match self {
            InteropValue::Null => ColumnModel::Null,
            InteropValue::Integer(i) => ColumnModel::Integer(*i),
            InteropValue::Real(bits) => ColumnModel::Real(*bits),
            InteropValue::Text(s) => ColumnModel::Text(s@),
            InteropValue::Blob(b) => ColumnModel::Blob(b@),
        }
    }
}

impl DeepView for InteropValue {
    type V = ColumnModel;

    open spec fn deep_view(&self) -> ColumnModel {
        self.view()
    }
}

/// An IEEE 754 double is finite exactly when its exponent field is not
/// all ones (all ones encodes an infinity or a NaN).
pub open spec fn f64_bits_finite(bits: u64) -> bool {
    (bits >> 52) & 0x7ff != 0x7ff
}

/// Runtime check matching `f64_bits_finite`.
pub fn is_finite_bits(bits: u64) -> (r: bool)
    ensures
        r == f64_bits_finite(bits),
{
    (bits >> 52) & 0x7ff != 0x7ff
}

} // verus!
