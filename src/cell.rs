use vstd::prelude::*;
use vstd::string::StringExecFns;

verus! {

/// One typed value at a position of a sheet.
///
/// Values whose text can only be produced from a floating-point number or a
/// calendar computation carry that text already: `Float` holds the shortest
/// decimal form that reads back as the same value, and `DateTime` holds the
/// raw serial value as text together with the resolved timestamp, when the
/// serial value could be resolved.
#[derive(Clone, Debug, PartialEq)]
pub enum Cell {
    Int(i64),
    Float(String),
    Text(String),
    Bool(bool),
    DateTime { raw: String, resolved: Option<String> },
    Error(String),
    Empty,
}

/// The character of a decimal digit `d`, for `0 <= d < 10`.
pub open spec fn digit_char(d: nat) -> char {
    if d == 0 { '0' }
    else if d == 1 { '1' }
    else if d == 2 { '2' }
    else if d == 3 { '3' }
    else if d == 4 { '4' }
    else if d == 5 { '5' }
    else if d == 6 { '6' }
    else if d == 7 { '7' }
    else if d == 8 { '8' }
    else { '9' }
}

/// Decimal digits of `n`, most significant first, without leading zeros.
pub open spec fn digits_text(n: nat) -> Seq<char>
    decreases n,
{
    if n < 10 {
        seq![digit_char(n)]
    } else {
        digits_text(n / 10).push(digit_char(n % 10))
    }
}

/// Decimal text of an integer: a minus sign for negative values, then digits.
pub open spec fn decimal_text(i: int) -> Seq<char> {
    if i < 0 {
        seq!['-'] + digits_text((-i) as nat)
    } else {
        digits_text(i as nat)
    }
}

/// The canonical text of a cell.
pub open spec fn cell_text(c: Cell) -> Seq<char> {
    match c {
        Cell::Int(i) => decimal_text(i as int),
        Cell::Float(s) => s@,
        Cell::Text(s) => s@,
        Cell::Bool(b) => if b { "true"@ } else { "false"@ },
        Cell::DateTime { raw, resolved } => match resolved {
            Some(t) => t@,
            None => raw@,
        },
        Cell::Error(s) => s@,
        Cell::Empty => Seq::empty(),
    }
}

fn digit_str(d: u64) -> (r: &'static str)
    requires
        d < 10,
    ensures
        r@ == seq![digit_char(d as nat)],
{
    proof {
        reveal_strlit("0");
        reveal_strlit("1");
        reveal_strlit("2");
        reveal_strlit("3");
        reveal_strlit("4");
        reveal_strlit("5");
        reveal_strlit("6");
        reveal_strlit("7");
        reveal_strlit("8");
        reveal_strlit("9");
    }
    if d == 0 { "0" }
    else if d == 1 { "1" }
    else if d == 2 { "2" }
    else if d == 3 { "3" }
    else if d == 4 { "4" }
    else if d == 5 { "5" }
    else if d == 6 { "6" }
    else if d == 7 { "7" }
    else if d == 8 { "8" }
    else { "9" }
}

fn render_digits(n: u64) -> (r: String)
    ensures
        r@ == digits_text(n as nat),
    decreases n,
{
    if n < 10 {
        String::from_str(digit_str(n))
    } else {
        let mut r = render_digits(n / 10);
        r.append(digit_str(n % 10));
        r
    }
}

/// Decimal text of `i`: no grouping, a leading `-` only when negative.
pub fn render_int(i: i64) -> (r: String)
    ensures
        r@ == decimal_text(i as int),
{
    if i < 0 {
        let magnitude: u64 = (-(i as i128)) as u64;
        let mut r = String::from_str("-");
        proof {
            reveal_strlit("-");
        }
        r.append(render_digits(magnitude).as_str());
        r
    } else {
        render_digits(i as u64)
    }
}

/// The canonical text of a cell; never fails, whatever the variant.
pub fn render_cell(c: &Cell) -> (r: String)
    ensures
        r@ == cell_text(*c),
{
    match c {
        Cell::Int(i) => render_int(*i),
        Cell::Float(s) => s.clone(),
        Cell::Text(s) => s.clone(),
        Cell::Bool(b) => {
            proof {
                reveal_strlit("true");
                reveal_strlit("false");
            }
            if *b {
                String::from_str("true")
            } else {
                String::from_str("false")
            }
        },
        Cell::DateTime { raw, resolved } => match resolved {
            Some(t) => t.clone(),
            None => raw.clone(),
        },
        Cell::Error(s) => s.clone(),
        Cell::Empty => String::new(),
    }
}

} // verus!
