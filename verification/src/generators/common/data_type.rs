//! Literals for column values, chosen by the declared type of the column.

use crate::rng::{lcg_output, lcg_step, lemma_state_after_step, state_after, LcgRng};
use crate::text::{
    all_digits, decimal, digit_char, digit_text, hex_string, is_hex_digit,
    lemma_decimal_digits, lemma_hex_string_digits, push_decimal, push_hex, str_eq, to_uppercase,
    uppercase_of,
};
use vstd::prelude::*;
use vstd::string::*;

verus! {

/// What a declared column type asks of a literal.
#[derive(Clone, Copy, Debug, PartialEq, Eq)]
pub enum ColumnType {
    /// `INTEGER`: a whole number.
    Integer,
    /// `REAL`: a number with a fraction.
    Real,
    /// `TEXT`: a quoted string.
    Text,
    /// `BLOB`: a byte string.
    Blob,
    /// Any other declared type.
    Other,
}

/// The class of a declared type, given its upper-case form.
pub open spec fn column_type_of(upper: Seq<char>) -> ColumnType {
    if upper == "INTEGER"@ {
        ColumnType::Integer
    } else if upper == "REAL"@ {
        ColumnType::Real
    } else if upper == "TEXT"@ {
        ColumnType::Text
    } else if upper == "BLOB"@ {
        ColumnType::Blob
    } else {
        ColumnType::Other
    }
}

/// The class of a declared type as written in a schema, whatever its case.
pub open spec fn declared_type(ty: Seq<char>) -> ColumnType {
    column_type_of(uppercase_of(ty))
}

/// The numeral of `n / 100` with at most two fraction digits and no
/// trailing zero: `16838` reads `168.38`, `150` reads `1.5`, `200` reads `2`.
pub open spec fn hundredths(n: nat) -> Seq<char> {
    if n % 100 == 0 {
        decimal(n / 100)
    } else if n % 10 == 0 {
        decimal(n / 100) + seq!['.', digit_char((n % 100) as int / 10)]
    } else {
        decimal(n / 100) + seq!['.', digit_char((n % 100) as int / 10), digit_char(n as int % 10)]
    }
}

/// The `len` bytes that the draws after `state` give, each reduced below 256.
pub open spec fn blob_bytes(len: nat, state: u32) -> Seq<u8> {
    Seq::new(len, |k: int| (lcg_output(state_after(state, (k + 1) as nat)) as int % 256) as u8)
}

/// The number of bytes of a blob whose length the draw into `state` decided.
pub open spec fn blob_len(state: u32) -> nat {
    (lcg_output(state) as int % 16 + 1) as nat
}

/// The literal for a column of class `ty`, and the state after its draws.
///
/// An integer is a draw reduced below 1000; a real is a draw read as
/// hundredths; a text is `'val'` with such an integer inside; a blob is 1 to
/// 16 drawn bytes in hexadecimal, written `X'..'`; any other type gives `NULL`
/// and draws nothing.
pub open spec fn literal(ty: ColumnType, state: u32) -> (Seq<char>, u32) {
    let first = lcg_step(state);
    match ty {
        ColumnType::Integer => (decimal((lcg_output(first) as int % 1000) as nat), first),
        ColumnType::Real => (hundredths(lcg_output(first) as nat), first),
        ColumnType::Text => (
            "'val"@ + decimal((lcg_output(first) as int % 1000) as nat) + "'"@,
            first,
        ),
        ColumnType::Blob => (
            "X'"@ + hex_string(blob_bytes(blob_len(first), first)) + "'"@,
            state_after(first, blob_len(first)),
        ),
        ColumnType::Other => ("NULL"@, state),
    }
}

/// Whether `text` reads as a number with a fraction: one or more digits,
/// and after them at most a point with one or two digits.
pub open spec fn is_real_literal(text: Seq<char>) -> bool {
    exists|p: int|
        0 < p <= text.len() && #[trigger] all_digits(text.take(p)) && (p == text.len() || (text[p]
            == '.' && p + 1 < text.len() <= p + 3 && all_digits(text.skip(p + 1))))
}

/// Whether `text` reads as a string in single quotes with no quote inside.
pub open spec fn is_quoted(text: Seq<char>) -> bool {
    &&& text.len() >= 2
    &&& text[0] == '\''
    &&& text.last() == '\''
    &&& forall|i: int| 0 < i < text.len() - 1 ==> #[trigger] text[i] != '\''
}

/// Whether `text` reads as a blob of 1 to 16 bytes: `X`, then two
/// hexadecimal digits for each byte in single quotes.
pub open spec fn is_blob_literal(text: Seq<char>) -> bool {
    &&& 5 <= text.len() <= 35
    &&& (text.len() - 3) % 2 == 0
    &&& text[0] == 'X'
    &&& text[1] == '\''
    &&& text.last() == '\''
    &&& forall|i: int| 2 <= i < text.len() - 1 ==> is_hex_digit(#[trigger] text[i])
}

/// Whether `text` has the syntax of a literal for a column of class `ty`.
pub open spec fn literal_fits(ty: ColumnType, text: Seq<char>) -> bool {
    match ty {
        ColumnType::Integer => text.len() > 0 && all_digits(text),
        ColumnType::Real => is_real_literal(text),
        ColumnType::Text => is_quoted(text),
        ColumnType::Blob => is_blob_literal(text),
        ColumnType::Other => text == seq!['N', 'U', 'L', 'L'],
    }
}

/// A number read as hundredths is written as a number with a fraction.
pub proof fn lemma_hundredths_is_real(n: nat)
    ensures
        is_real_literal(hundredths(n)),
{
    let whole = decimal(n / 100);
    let text = hundredths(n);
    let p = whole.len() as int;
    lemma_decimal_digits(n / 100);
    assert(text.take(p) =~= whole);
}

/// Every literal has the syntax that the class of its column asks for.
pub proof fn lemma_literal_fits(ty: ColumnType, state: u32)
    ensures
        literal_fits(ty, literal(ty, state).0),
{
    let first = lcg_step(state);
    let text = literal(ty, state).0;
    match ty {
        ColumnType::Integer => {
            lemma_decimal_digits((lcg_output(first) as int % 1000) as nat);
        },
        ColumnType::Real => {
            lemma_hundredths_is_real(lcg_output(first) as nat);
        },
        ColumnType::Text => {
            reveal_strlit("'val");
            reveal_strlit("'");
            lemma_decimal_digits((lcg_output(first) as int % 1000) as nat);
        },
        ColumnType::Blob => {
            reveal_strlit("X'");
            reveal_strlit("'");
            let bytes = blob_bytes(blob_len(first), first);
            lemma_hex_string_digits(bytes);
        },
        ColumnType::Other => {
            reveal_strlit("NULL");
            assert(text =~= seq!['N', 'U', 'L', 'L']);
        },
    }
}

/// The class of a declared type, given its upper-case form.
pub fn classify_type(upper: &str) -> (class: ColumnType)
    ensures
        class == column_type_of(upper@),
{
    if str_eq(upper, "INTEGER") {
        ColumnType::Integer
    } else if str_eq(upper, "REAL") {
        ColumnType::Real
    } else if str_eq(upper, "TEXT") {
        ColumnType::Text
    } else if str_eq(upper, "BLOB") {
        ColumnType::Blob
    } else {
        ColumnType::Other
    }
}

/// Appends the numeral of `n / 100` to `out`, with at most two fraction
/// digits and no trailing zero.
pub fn push_hundredths(out: &mut String, n: u64)
    ensures
        final(out)@ == old(out)@ + hundredths(n as nat),
{
    push_decimal(out, n / 100);
    let fraction: u8 = (n % 100) as u8;
    if fraction != 0 {
        proof {
            reveal_strlit(".");
        }
        out.append(".");
        out.append(digit_text(fraction / 10));
        if fraction % 10 != 0 {
            out.append(digit_text(fraction % 10));
        }
    }
}

/// Draws the bytes of a blob: `len` draws, each reduced below 256.
pub fn draw_blob(rng: &mut LcgRng, len: usize) -> (bytes: Vec<u8>)
    ensures
        bytes@ == blob_bytes(len as nat, old(rng)@),
        final(rng)@ == state_after(old(rng)@, len as nat),
{
    let mut bytes: Vec<u8> = Vec::new();
    let mut k: usize = 0;
    while k < len
        invariant
            k <= len,
            bytes@ == blob_bytes(k as nat, old(rng)@),
            rng@ == state_after(old(rng)@, k as nat),
        decreases len - k,
    {
        let value: i32 = rng.rand();
        bytes.push((value % 256) as u8);
        proof {
            lemma_state_after_step(old(rng)@, k as nat);
        }
        k += 1;
    }
    bytes
}

/// The literal for a column of class `class`.
pub fn generate_value(class: ColumnType, rng: &mut LcgRng) -> (value: String)
    ensures
        (value@, final(rng)@) == literal(class, old(rng)@),
{
    let mut value = String::new();
    match class {
        ColumnType::Integer => {
            let drawn: i32 = rng.rand();
            push_decimal(&mut value, (drawn % 1000) as u64);
        },
        ColumnType::Real => {
            let drawn: i32 = rng.rand();
            push_hundredths(&mut value, drawn as u64);
        },
        ColumnType::Text => {
            let drawn: i32 = rng.rand();
            value.append("'val");
            push_decimal(&mut value, (drawn % 1000) as u64);
            value.append("'");
        },
        ColumnType::Blob => {
            let drawn: i32 = rng.rand();
            let len: usize = (drawn % 16) as usize + 1;
            let bytes = draw_blob(rng, len);
            value.append("X'");
            push_hex(&mut value, &bytes);
            value.append("'");
        },
        ColumnType::Other => {
            value.append("NULL");
        },
    }
    value
}

/// The literal for a column whose declared type reads `ty`; the case of the
/// letters does not matter.
pub fn generate_value_by_type(ty: &str, rng: &mut LcgRng) -> (value: String)
    ensures
        (value@, final(rng)@) == literal(declared_type(ty@), old(rng)@),
{
    let upper = to_uppercase(ty);
    let class = classify_type(upper.as_str());
    generate_value(class, rng)
}

} // verus!
