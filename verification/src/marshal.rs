//! The value marshaller: conversion between the store's column value
//! union and the JSON scalar model, in both directions.
//!
//! Toward JSON, a blob renders as a bracketed, comma-separated list of
//! lowercase hex bytes (`[de, ad, be, ef]`): a deliberately lossy,
//! human-readable encoding, not a round-trip format. A non-finite real
//! has no JSON rendering and the conversion fails; the caller drops
//! that column from its row. Toward the store, every JSON scalar binds:
//! null, numbers and strings to the native column kinds, booleans to
//! the text `true` or `false`.

use vstd::prelude::*;
use vstd::string::StringExecFns;
use crate::value::{ColumnModel, InteropValue, JsonScalar, ScalarModel, f64_bits_finite, is_finite_bits};

verus! {

/// The lowercase hex character of a value below 16.
pub open spec fn hex_digit(d: u8) -> char {
    if d == 0 { '0' }
    else if d == 1 { '1' }
    else if d == 2 { '2' }
    else if d == 3 { '3' }
    else if d == 4 { '4' }
    else if d == 5 { '5' }
    else if d == 6 { '6' }
    else if d == 7 { '7' }
    else if d == 8 { '8' }
    else if d == 9 { '9' }
    else if d == 10 { 'a' }
    else if d == 11 { 'b' }
    else if d == 12 { 'c' }
    else if d == 13 { 'd' }
    else if d == 14 { 'e' }
    else { 'f' }
}

/// One byte in lowercase hex without a leading zero: one character
/// below 16, two characters from 16 up.
pub open spec fn byte_hex(b: u8) -> Seq<char> {
    if b < 16 {
        seq![hex_digit(b)]
    } else {
        seq![hex_digit(b / 16), hex_digit(b % 16)]
    }
}

/// The comma-separated hex bytes of a blob, without the brackets.
pub open spec fn hex_body(bs: Seq<u8>) -> Seq<char>
    decreases bs.len(),
{
    if bs.len() == 0 {
        Seq::empty()
    } else if bs.len() == 1 {
        byte_hex(bs[0])
    } else {
        hex_body(bs.drop_last()) + seq![',', ' '] + byte_hex(bs.last())
    }
}

/// The full rendering of a blob: hex bytes between square brackets.
pub open spec fn blob_debug_render(bs: Seq<u8>) -> Seq<char> {
    seq!['['] + hex_body(bs) + seq![']']
}

fn hex_digit_str(d: u8) -> (r: &'static str)
    requires
        d < 16,
    ensures
        r@ =~= seq![hex_digit(d)],
{
    proof {
        reveal_strlit("0");
        reveal_strlit("1");
        reveal_strlit("2");
        reveal_strlit("3");
        reveal_strlit("4");
        reveal_strlit("5");
        reveal_strlit("6");
        reveal_strlit("7");
        reveal_strlit("8");
        reveal_strlit("9");
        reveal_strlit("a");
        reveal_strlit("b");
        reveal_strlit("c");
        reveal_strlit("d");
        reveal_strlit("e");
        reveal_strlit("f");
    }
    if d == 0 { "0" }
    else if d == 1 { "1" }
    else if d == 2 { "2" }
    else if d == 3 { "3" }
    else if d == 4 { "4" }
    else if d == 5 { "5" }
    else if d == 6 { "6" }
    else if d == 7 { "7" }
    else if d == 8 { "8" }
    else if d == 9 { "9" }
    else if d == 10 { "a" }
    else if d == 11 { "b" }
    else if d == 12 { "c" }
    else if d == 13 { "d" }
    else if d == 14 { "e" }
    else { "f" }
}

fn push_byte_hex(s: &mut String, b: u8)
    ensures
        final(s)@ == old(s)@ + byte_hex(b),
{
    if b >= 16 {
        let hi = hex_digit_str(b / 16);
        s.append(hi);
    }
    let lo = hex_digit_str(b % 16);
    s.append(lo);
    proof {
        if b < 16 {
            assert(s@ =~= old(s)@ + byte_hex(b));
        } else {
            assert(s@ =~= old(s)@ + byte_hex(b));
        }
    }
}

/// The hex-bracket rendering of a byte sequence, matching
/// `blob_debug_render` exactly.
pub fn blob_debug_hex(bytes: &Vec<u8>) -> (s: String)
    ensures
        s@ == blob_debug_render(bytes@),
{
    let mut s = String::new();
    proof {
        reveal_strlit("[");
        reveal_strlit("]");
        reveal_strlit(", ");
    }
    s.append("[");
    let mut i: usize = 0;
    while i < bytes.len()
        invariant
            i <= bytes.len(),
            s@ =~= seq!['['] + hex_body(bytes@.take(i as int)),
        decreases bytes.len() - i,
    {
        proof {
            reveal_strlit(", ");
        }
        if i > 0 {
            s.append(", ");
        }
        push_byte_hex(&mut s, bytes[i]);
        proof {
            let full = bytes@.take(i as int + 1);
            assert(full.drop_last() =~= bytes@.take(i as int));
            assert(full.last() == bytes@[i as int]);
            assert(s@ =~= seq!['['] + hex_body(full));
        }
        i += 1;
    }
    s.append("]");
    proof {
        assert(bytes@.take(bytes@.len() as int) =~= bytes@);
        assert(s@ =~= blob_debug_render(bytes@));
    }
    s
}

/// The JSON rendering of one column value, when it has one: a
/// non-finite real is the one failing case.
pub open spec fn marshal_column(v: ColumnModel) -> Option<ScalarModel> {
    match v {
        ColumnModel::Null => Some(ScalarModel::Null),
        ColumnModel::Integer(i) => Some(ScalarModel::Int(i)),
        ColumnModel::Real(bits) => if f64_bits_finite(bits) {
            Some(ScalarModel::Float(bits))
        } else {
            None
        },
        ColumnModel::Text(s) => Some(ScalarModel::Str(s)),
        ColumnModel::Blob(bs) => Some(ScalarModel::Str(blob_debug_render(bs))),
    }
}

/// Convert one column value of a result row to a JSON scalar.
/// `None` marks a conversion failure; the caller drops the column.
pub fn to_json(v: &InteropValue) -> (r: Option<JsonScalar>)
    ensures
        r.deep_view() == marshal_column(v@),
{
    match v {
        InteropValue::Null => Some(JsonScalar::Null),
        InteropValue::Integer(i) => Some(JsonScalar::Int(*i)),
        InteropValue::Real(bits) => {
            if is_finite_bits(*bits) {
                Some(JsonScalar::Float(*bits))
            } else {
                None
            }
        }
        InteropValue::Text(s) => Some(JsonScalar::Str(s.clone())),
        InteropValue::Blob(b) => Some(JsonScalar::Str(blob_debug_hex(b))),
    }
}

/// The column value a JSON scalar binds to as a statement parameter.
/// Every scalar binds; a boolean binds as the text `true` or `false`.
pub open spec fn parameter_of(s: ScalarModel) -> ColumnModel {
    match s {
        ScalarModel::Null => ColumnModel::Null,
        ScalarModel::Bool(b) => ColumnModel::Text(if b { "true"@ } else { "false"@ }),
        ScalarModel::Int(i) => ColumnModel::Integer(i),
        ScalarModel::Float(bits) => ColumnModel::Real(bits),
        ScalarModel::Str(s) => ColumnModel::Text(s),
    }
}

/// Bind one JSON scalar as a statement parameter.
pub fn to_parameter(s: &JsonScalar) -> (r: InteropValue)
    ensures
        r@ == parameter_of(s@),
{
    match s {
        JsonScalar::Null => InteropValue::Null,
        JsonScalar::Bool(b) => {
            if *b {
                InteropValue::Text("true".to_owned())
            } else {
                InteropValue::Text("false".to_owned())
            }
        }
        JsonScalar::Int(i) => InteropValue::Integer(*i),
        JsonScalar::Float(bits) => InteropValue::Real(*bits),
        JsonScalar::Str(s) => InteropValue::Text(s.clone()),
    }
}

/// A JSON null, integer, finite float, or string bound as a parameter
/// and read back as a column marshals to the same scalar. Booleans
/// bind as text and blobs render as hex, so neither round-trips.
pub proof fn lemma_scalar_round_trip(s: ScalarModel)
    requires
        !(s is Bool),
        s matches ScalarModel::Float(bits) ==> f64_bits_finite(bits),
    ensures
        marshal_column(parameter_of(s)) == Some(s),
{
}

/// One result row after per-column conversion: columns in order, each
/// rendered by `marshal_column`, the failing ones dropped.
pub open spec fn marshal_row(row: Seq<ColumnModel>) -> Seq<ScalarModel>
    decreases row.len(),
{
    if row.len() == 0 {
        Seq::empty()
    } else {
        match marshal_column(row.last()) {
            Some(s) => marshal_row(row.drop_last()).push(s),
            None => marshal_row(row.drop_last()),
        }
    }
}

/// All result rows after per-column conversion; every row is kept, in
/// cursor order.
pub open spec fn marshal_rows(rows: Seq<Seq<ColumnModel>>) -> Seq<Seq<ScalarModel>> {
    rows.map_values(|row: Seq<ColumnModel>| marshal_row(row))
}

/// Convert one result row, dropping the columns that fail.
pub fn convert_row(row: &Vec<InteropValue>) -> (r: Vec<JsonScalar>)
    ensures
        r.deep_view() == marshal_row(row.deep_view()),
{
    let mut out: Vec<JsonScalar> = Vec::new();
    let mut i: usize = 0;
    while i < row.len()
        invariant
            i <= row.len(),
            out.deep_view() =~= marshal_row(row.deep_view().take(i as int)),
        decreases row.len() - i,
    {
        let converted = to_json(&row[i]);
        match converted {
            Some(j) => out.push(j),
            None => {}
        }
        proof {
            let full = row.deep_view().take(i as int + 1);
            assert(full.drop_last() =~= row.deep_view().take(i as int));
            assert(full.last() == row.deep_view()[i as int]);
            assert(out.deep_view() =~= marshal_row(full));
        }
        i += 1;
    }
    proof {
        assert(row.deep_view().take(row.deep_view().len() as int) =~= row.deep_view());
    }
    out
}

/// Convert every result row in order.
pub fn convert_rows(rows: &Vec<Vec<InteropValue>>) -> (r: Vec<Vec<JsonScalar>>)
    ensures
        r.deep_view() == marshal_rows(rows.deep_view()),
{
    let mut out: Vec<Vec<JsonScalar>> = Vec::new();
    let mut i: usize = 0;
    while i < rows.len()
        invariant
            i <= rows.len(),
            out.deep_view() =~~= rows.deep_view().take(i as int).map_values(
                |row: Seq<ColumnModel>| marshal_row(row),
            ),
        decreases rows.len() - i,
    {
        let converted = convert_row(&rows[i]);
        let ghost prev = out.deep_view();
        let ghost piece = converted.deep_view();
        out.push(converted);
        proof {
            let full = rows.deep_view().take(i as int + 1);
            assert(full.drop_last() =~= rows.deep_view().take(i as int));
            assert(full.last() == rows.deep_view()[i as int]);
            assert(piece == marshal_row(rows.deep_view()[i as int]));
            assert(out.deep_view() =~~= prev.push(piece));
            assert(out.deep_view() =~~= full.map_values(
                |row: Seq<ColumnModel>| marshal_row(row),
            ));
        }
        i += 1;
    }
    proof {
        assert(rows.deep_view().take(rows.deep_view().len() as int) =~= rows.deep_view());
        assert(out.deep_view() =~~= marshal_rows(rows.deep_view()));
    }
    out
}

} // verus!
