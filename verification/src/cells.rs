use vstd::prelude::*;
use vstd::string::StringExecFns;

verus! {

/// The closed set of scalar column types the result grid can hold.  Values
/// of any other engine type are carried as `Unsupported` and make rendering
/// fail with a `RenderError` instead of silently substituting output.
#[derive(Clone, Copy, Debug, PartialEq, Eq, Structural)]
pub enum ColumnType {
    Integer,
    Text,
    Boolean,
    Unsupported,
}

/// One typed cell of a result row.  `Null` is rendered as an explicit
/// marker; `Unsupported` stands for a value outside the supported scalar
/// types and cannot be formatted.
#[derive(Clone, Debug)]
pub enum CellValue {
    Integer(i64),
    Text(String),
    Boolean(bool),
    Null,
    Unsupported,
}

/// The error returned when a cell value cannot be formatted.
#[derive(Clone, Copy, Debug, PartialEq, Eq, Structural)]
pub struct RenderError {}

/// Relies on `String::push`: appends the given character to the end of the
/// string.
pub assume_specification[ String::push ](s: &mut String, ch: char)
    ensures
        final(s)@ == old(s)@.push(ch),
;

/// The character for one decimal digit.
pub open spec fn digit_char(d: int) -> char {
    if d == 0 {
        '0'
    } else if d == 1 {
        '1'
    } else if d == 2 {
        '2'
    } else if d == 3 {
        '3'
    } else if d == 4 {
        '4'
    } else if d == 5 {
        '5'
    } else if d == 6 {
        '6'
    } else if d == 7 {
        '7'
    } else if d == 8 {
        '8'
    } else {
        '9'
    }
}

/// The canonical decimal digits of a natural number, most significant first,
/// with no leading zeros (a single `'0'` for zero).
pub open spec fn dec_digits(n: nat) -> Seq<char>
    decreases n,
{
    if n < 10 {
        seq![digit_char(n as int)]
    } else {
        dec_digits(n / 10).push(digit_char((n % 10) as int))
    }
}

/// The canonical decimal text of an integer: a `'-'` sign for negative
/// values, then the digits of its magnitude.
pub open spec fn int_text(n: int) -> Seq<char> {
    if n < 0 {
        seq!['-'] + dec_digits((-n) as nat)
    } else {
        dec_digits(n as nat)
    }
}

/// The text of a boolean cell.
pub open spec fn bool_text(b: bool) -> Seq<char> {
    if b {
        "true"@
    } else {
        "false"@
    }
}

/// The display text of a supported cell value: integers in canonical
/// decimal, strings verbatim, booleans as `true`/`false`, and null as an
/// explicit `NULL` marker.
pub open spec fn cell_text(c: CellValue) -> Seq<char> {
    match c {
        CellValue::Integer(i) => int_text(i as int),
        CellValue::Text(s) => s@,
        CellValue::Boolean(b) => bool_text(b),
        CellValue::Null => "NULL"@,
        CellValue::Unsupported => Seq::<char>::empty(),
    }
}

/// Whether a cell value has a display text at all.
pub open spec fn cell_supported(c: CellValue) -> bool {
    !(c is Unsupported)
}

/// Whether a cell value belongs to a column of the given type; a null cell
/// belongs to every column.
pub open spec fn cell_matches_type(c: CellValue, t: ColumnType) -> bool {
    match c {
        CellValue::Null => true,
        CellValue::Integer(_) => t is Integer,
        CellValue::Text(_) => t is Text,
        CellValue::Boolean(_) => t is Boolean,
        CellValue::Unsupported => t is Unsupported,
    }
}

fn digit_to_char(d: u64) -> (c: char)
    requires
        d < 10,
    ensures
        c == digit_char(d as int),
{
    if d == 0 {
        '0'
    } else if d == 1 {
        '1'
    } else if d == 2 {
        '2'
    } else if d == 3 {
        '3'
    } else if d == 4 {
        '4'
    } else if d == 5 {
        '5'
    } else if d == 6 {
        '6'
    } else if d == 7 {
        '7'
    } else if d == 8 {
        '8'
    } else {
        '9'
    }
}

fn push_decimal(s: &mut String, x: u64)
    ensures
        final(s)@ == old(s)@ + dec_digits(x as nat),
    decreases x,
{
    if x < 10 {
        let c = digit_to_char(x);
        s.push(c);
        proof {
            assert(old(s)@.push(digit_char(x as int)) =~= old(s)@ + dec_digits(x as nat));
        }
    } else {
        push_decimal(s, x / 10);
        let c = digit_to_char(x % 10);
        s.push(c);
        proof {
            assert((old(s)@ + dec_digits((x / 10) as nat)).push(digit_char((x % 10) as int))
                =~= old(s)@ + dec_digits(x as nat));
        }
    }
}

/// Formats an integer in canonical decimal form.
pub fn format_integer(n: i64) -> (s: String)
    ensures
        s@ == int_text(n as int),
{
    let mut s = String::new();
    if n >= 0 {
        push_decimal(&mut s, n as u64);
        proof {
            assert(Seq::<char>::empty() + dec_digits(n as nat) =~= int_text(n as int));
        }
    } else {
        s.push('-');
        let m: u64 = ((-(n + 1)) as u64) + 1;
        assert(m == -(n as int)) by {
            assert(-(n as int + 1) >= 0);
        };
        push_decimal(&mut s, m);
        proof {
            assert(Seq::<char>::empty().push('-') + dec_digits(m as nat) =~= int_text(n as int));
        }
    }
    s
}

/// Formats a boolean cell.
pub fn format_bool(b: bool) -> (s: String)
    ensures
        s@ == bool_text(b),
{
    if b {
        String::from_str("true")
    } else {
        String::from_str("false")
    }
}

/// Formats one cell: every supported value gets its display text; an
/// unsupported value is surfaced as a `RenderError` rather than replaced by
/// substitute output.
pub fn format_cell(c: &CellValue) -> (r: Result<String, RenderError>)
    ensures
        r is Ok <==> cell_supported(*c),
        r is Ok ==> r->Ok_0@ == cell_text(*c),
{
    match c {
        CellValue::Integer(i) => Ok(format_integer(*i)),
        CellValue::Text(s) => Ok(s.clone()),
        CellValue::Boolean(b) => Ok(format_bool(*b)),
        CellValue::Null => Ok(String::from_str("NULL")),
        CellValue::Unsupported => Err(RenderError {}),
    }
}

/// Copies a text buffer held as scalar values.
pub fn copy_chars(v: &Vec<char>) -> (r: Vec<char>)
    ensures
        r@ == v@,
{
    let mut r: Vec<char> = Vec::new();
    let mut i: usize = 0;
    while i < v.len()
        invariant
            i <= v@.len(),
            r@ == v@.take(i as int),
        decreases v@.len() - i,
    {
        r.push(v[i]);
        proof {
            assert(v@.take(i as int).push(v@[i as int]) =~= v@.take(i + 1 as int));
        }
        i = i + 1;
    }
    proof {
        assert(v@.take(v@.len() as int) =~= v@);
    }
    r
}

/// Rebuilds a string from its sequence of scalar values.
pub fn chars_to_string(v: &Vec<char>) -> (s: String)
    ensures
        s@ == v@,
{
    let mut s = String::new();
    let mut i: usize = 0;
    while i < v.len()
        invariant
            i <= v@.len(),
            s@ == v@.take(i as int),
        decreases v@.len() - i,
    {
        s.push(v[i]);
        proof {
            assert(v@.take(i as int).push(v@[i as int]) =~= v@.take(i + 1 as int));
        }
        i = i + 1;
    }
    proof {
        assert(v@.take(v@.len() as int) =~= v@);
    }
    s
}

} // verus!
