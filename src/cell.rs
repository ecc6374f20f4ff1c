//! Cell values of a fetched row and their two canonical projections:
//! a JSON scalar for the record and a plain string for hashing.
use vstd::prelude::*;
use vstd::string::StringExecFns;
use crate::decimal::{dec_int, dec_nat, push_decimal, u64_text, i64_text};

verus! {

/// A floating-point cell, carried as the two texts the pipeline needs:
/// its decimal representation and its JSON number text.
pub struct FloatText {
    pub text: String,
    pub json: String,
}

/// One column value of one row, tagged by its database type.
pub enum CellValue {
    Bytes(Vec<u8>),
    Double(FloatText),
    Float(FloatText),
    Int(i64),
    UInt(u64),
    Null,
    /// year, month, day, hour, minute, second, sub-second
    Date(u16, u8, u8, u8, u8, u8, u32),
    /// negative, days, hours, minutes, seconds, sub-second
    Time(bool, u32, u8, u8, u8, u32),
}

/// The JSON-compatible projection of a cell.
pub enum JsonScalar {
    Null,
    /// A JSON number, held as its JSON text.
    Number(String),
    Text(String),
}

/// Mathematical view of a [`JsonScalar`].
pub enum JsonScalarView {
    Null,
    Number(Seq<char>),
    Text(Seq<char>),
}

impl View for JsonScalar {
    type V = JsonScalarView;

    open spec fn view(&self) -> JsonScalarView {
        match self {
            JsonScalar::Null => JsonScalarView::Null,
            JsonScalar::Number(t) => JsonScalarView::Number(t@),
            JsonScalar::Text(s) => JsonScalarView::Text(s@),
        }
    }
}

/// What `String::from_utf8_lossy` makes of a byte string.
pub uninterp spec fn utf8_lossy(b: Seq<u8>) -> Seq<char>;

/// Relies on `String::from_utf8_lossy`: decodes UTF-8, putting U+FFFD for each
/// invalid sequence; the result depends on the bytes alone and never fails.
#[verifier::external_body]
fn decode_lossy(b: &Vec<u8>) -> (r: String)
    ensures
        r@ == utf8_lossy(b@),
        b@.len() == 0 ==> r@.len() == 0,
{
    String::from_utf8_lossy(b.as_slice()).into_owned()
}

pub open spec fn null_text() -> Seq<char> {
    seq!['n', 'u', 'l', 'l']
}

/// `YEAR.MONTH.DAY-HOUR:MINUTE:SECOND::SUBSECOND`, each part in plain decimal.
pub open spec fn date_text(y: nat, mo: nat, d: nat, h: nat, mi: nat, s: nat, us: nat) -> Seq<char> {
    dec_nat(y) + seq!['.'] + dec_nat(mo) + seq!['.'] + dec_nat(d) + seq!['-'] + dec_nat(h)
        + seq![':'] + dec_nat(mi) + seq![':'] + dec_nat(s) + seq![':', ':'] + dec_nat(us)
}

/// `DAYS SIGNHOUR:MINUTE:SECOND::SUBSECOND`, SIGN being `-` for a negative value.
pub open spec fn time_text(neg: bool, d: nat, h: nat, mi: nat, s: nat, us: nat) -> Seq<char> {
    dec_nat(d) + seq![' '] + (if neg { seq!['-'] } else { Seq::<char>::empty() }) + dec_nat(h)
        + seq![':'] + dec_nat(mi) + seq![':'] + dec_nat(s) + seq![':', ':'] + dec_nat(us)
}

/// The string projection of a cell, the text that is hashed.
pub open spec fn cell_text(v: CellValue) -> Seq<char> {
    match v {
        CellValue::Bytes(b) => utf8_lossy(b@),
        CellValue::Double(f) => f.text@,
        CellValue::Float(f) => f.text@,
        CellValue::Int(i) => dec_int(i as int),
        CellValue::UInt(u) => dec_nat(u as nat),
        CellValue::Null => null_text(),
        CellValue::Date(y, mo, d, h, mi, s, us) => date_text(
            y as nat,
            mo as nat,
            d as nat,
            h as nat,
            mi as nat,
            s as nat,
            us as nat,
        ),
        CellValue::Time(neg, d, h, mi, s, us) => time_text(
            neg,
            d as nat,
            h as nat,
            mi as nat,
            s as nat,
            us as nat,
        ),
    }
}

/// The JSON projection of a cell.
pub open spec fn cell_json(v: CellValue) -> JsonScalarView {
    match v {
        CellValue::Bytes(b) => JsonScalarView::Text(utf8_lossy(b@)),
        CellValue::Double(f) => JsonScalarView::Number(f.json@),
        CellValue::Float(f) => JsonScalarView::Number(f.json@),
        CellValue::Int(i) => JsonScalarView::Number(dec_int(i as int)),
        CellValue::UInt(u) => JsonScalarView::Number(dec_nat(u as nat)),
        CellValue::Null => JsonScalarView::Null,
        CellValue::Date(..) => JsonScalarView::Text(cell_text(v)),
        CellValue::Time(..) => JsonScalarView::Text(cell_text(v)),
    }
}

fn push_sep(out: &mut String, sep: &str)
    ensures
        final(out)@ == old(out)@ + sep@,
{
    out.append(sep);
}

fn date_string(y: u16, mo: u8, d: u8, h: u8, mi: u8, s: u8, us: u32) -> (r: String)
    ensures
        r@ == date_text(y as nat, mo as nat, d as nat, h as nat, mi as nat, s as nat, us as nat),
{
    proof {
        reveal_strlit(".");
        reveal_strlit("-");
        reveal_strlit(":");
        reveal_strlit("::");
    }
    let mut out = String::new();
    push_decimal(&mut out, y as u64);
    push_sep(&mut out, ".");
    push_decimal(&mut out, mo as u64);
    push_sep(&mut out, ".");
    push_decimal(&mut out, d as u64);
    push_sep(&mut out, "-");
    push_decimal(&mut out, h as u64);
    push_sep(&mut out, ":");
    push_decimal(&mut out, mi as u64);
    push_sep(&mut out, ":");
    push_decimal(&mut out, s as u64);
    push_sep(&mut out, "::");
    push_decimal(&mut out, us as u64);
    assert(out@ =~= date_text(y as nat, mo as nat, d as nat, h as nat, mi as nat, s as nat, us as nat));
    out
}

fn time_string(neg: bool, d: u32, h: u8, mi: u8, s: u8, us: u32) -> (r: String)
    ensures
        r@ == time_text(neg, d as nat, h as nat, mi as nat, s as nat, us as nat),
{
    proof {
        reveal_strlit(" ");
        reveal_strlit(" -");
        reveal_strlit(":");
        reveal_strlit("::");
    }
    let mut out = String::new();
    push_decimal(&mut out, d as u64);
    if neg {
        push_sep(&mut out, " -");
    } else {
        push_sep(&mut out, " ");
    }
    push_decimal(&mut out, h as u64);
    push_sep(&mut out, ":");
    push_decimal(&mut out, mi as u64);
    push_sep(&mut out, ":");
    push_decimal(&mut out, s as u64);
    push_sep(&mut out, "::");
    push_decimal(&mut out, us as u64);
    assert(out@ =~= time_text(neg, d as nat, h as nat, mi as nat, s as nat, us as nat));
    out
}

/// The string projection of a cell; total over every variant.
pub fn into_string(item: &CellValue) -> (r: String)
    ensures
        r@ == cell_text(*item),
{
    match item {
        CellValue::Bytes(b) => decode_lossy(b),
        CellValue::Double(f) => f.text.clone(),
        CellValue::Float(f) => f.text.clone(),
        CellValue::Int(i) => i64_text(*i),
        CellValue::UInt(u) => u64_text(*u),
        CellValue::Null => {
            proof {
                reveal_strlit("null");
            }
            String::from_str("null")
        },
        CellValue::Date(y, mo, d, h, mi, s, us) => date_string(*y, *mo, *d, *h, *mi, *s, *us),
        CellValue::Time(neg, d, h, mi, s, us) => time_string(*neg, *d, *h, *mi, *s, *us),
    }
}

/// The JSON projection of a cell; total over every variant.
pub fn into_json_value(item: &CellValue) -> (r: JsonScalar)
    ensures
        r@ == cell_json(*item),
{
    match item {
        CellValue::Bytes(b) => JsonScalar::Text(decode_lossy(b)),
        CellValue::Double(f) => JsonScalar::Number(f.json.clone()),
        CellValue::Float(f) => JsonScalar::Number(f.json.clone()),
        CellValue::Int(i) => JsonScalar::Number(i64_text(*i)),
        CellValue::UInt(u) => JsonScalar::Number(u64_text(*u)),
        CellValue::Null => JsonScalar::Null,
        CellValue::Date(..) => JsonScalar::Text(into_string(item)),
        CellValue::Time(..) => JsonScalar::Text(into_string(item)),
    }
}

} // verus!
