//! Rendering of timestamp templates.
//!
//! Destination subdirectories and filename prefixes are derived from a
//! timestamp through a strftime-style template language: literal
//! characters are kept, and the directives `%Y` `%y` `%m` `%b` `%B` `%d`
//! `%e` `%H` `%M` `%S` `%F` `%T` `%D` expand to calendar fields (`%%` to
//! a literal percent sign). `render_spec` states the expansion exactly;
//! the actual expansion is done by the calendar library, whose output is
//! trusted to match.

use vstd::prelude::*;
use crate::timestamp::Timestamp;

verus! {

/// The decimal digit character for `d` in 0..=9.
pub open spec fn digit_char(d: int) -> char {
    if d == 0 {
        '0'
    } else if d == 1 {
        '1'
    } else if d == 2 {
        '2'
    } else if d == 3 {
        '3'
    } else if d == 4 {
        '4'
    } else if d == 5 {
        '5'
    } else if d == 6 {
        '6'
    } else if d == 7 {
        '7'
    } else if d == 8 {
        '8'
    } else {
        '9'
    }
}

/// `n` written as exactly four decimal digits, zero-padded.
pub open spec fn pad4(n: int) -> Seq<char> {
    seq![
        digit_char(n / 1000 % 10),
        digit_char(n / 100 % 10),
        digit_char(n / 10 % 10),
        digit_char(n % 10),
    ]
}

/// `n` written as exactly two decimal digits, zero-padded.
pub open spec fn pad2(n: int) -> Seq<char> {
    seq![digit_char(n / 10 % 10), digit_char(n % 10)]
}

/// The three-letter English abbreviation of month `m` in 1..=12.
pub open spec fn month_abbrev(m: int) -> Seq<char> {
    if m == 1 {
        seq!['J', 'a', 'n']
    } else if m == 2 {
        seq!['F', 'e', 'b']
    } else if m == 3 {
        seq!['M', 'a', 'r']
    } else if m == 4 {
        seq!['A', 'p', 'r']
    } else if m == 5 {
        seq!['M', 'a', 'y']
    } else if m == 6 {
        seq!['J', 'u', 'n']
    } else if m == 7 {
        seq!['J', 'u', 'l']
    } else if m == 8 {
        seq!['A', 'u', 'g']
    } else if m == 9 {
        seq!['S', 'e', 'p']
    } else if m == 10 {
        seq!['O', 'c', 't']
    } else if m == 11 {
        seq!['N', 'o', 'v']
    } else {
        seq!['D', 'e', 'c']
    }
}

/// The full English name of month `m` in 1..=12.
pub open spec fn month_name(m: int) -> Seq<char> {
    if m == 1 {
        month_abbrev(1) + seq!['u', 'a', 'r', 'y']
    } else if m == 2 {
        month_abbrev(2) + seq!['r', 'u', 'a', 'r', 'y']
    } else if m == 3 {
        month_abbrev(3) + seq!['c', 'h']
    } else if m == 4 {
        month_abbrev(4) + seq!['i', 'l']
    } else if m == 5 {
        month_abbrev(5)
    } else if m == 6 {
        month_abbrev(6) + seq!['e']
    } else if m == 7 {
        month_abbrev(7) + seq!['y']
    } else if m == 8 {
        month_abbrev(8) + seq!['u', 's', 't']
    } else if m == 9 {
        month_abbrev(9) + seq!['t', 'e', 'm', 'b', 'e', 'r']
    } else if m == 10 {
        month_abbrev(10) + seq!['o', 'b', 'e', 'r']
    } else if m == 11 {
        month_abbrev(11) + seq!['e', 'm', 'b', 'e', 'r']
    } else {
        month_abbrev(12) + seq!['e', 'm', 'b', 'e', 'r']
    }
}

/// The directive characters the template language accepts after `%`.
pub open spec fn is_directive_char(c: char) -> bool {
    ||| c == 'Y'
    ||| c == 'y'
    ||| c == 'm'
    ||| c == 'b'
    ||| c == 'B'
    ||| c == 'd'
    ||| c == 'e'
    ||| c == 'H'
    ||| c == 'M'
    ||| c == 'S'
    ||| c == 'F'
    ||| c == 'T'
    ||| c == 'D'
    ||| c == '%'
}

/// What one directive expands to.
pub open spec fn render_directive(ts: Timestamp, c: char) -> Seq<char> {
    if c == 'Y' {
        pad4(ts.year as int)
    } else if c == 'y' {
        pad2(ts.year as int % 100)
    } else if c == 'm' {
        pad2(ts.month as int)
    } else if c == 'b' {
        month_abbrev(ts.month as int)
    } else if c == 'B' {
        month_name(ts.month as int)
    } else if c == 'd' {
        pad2(ts.day as int)
    } else if c == 'e' {
        if ts.day < 10 {
            seq![' ', digit_char(ts.day as int)]
        } else {
            pad2(ts.day as int)
        }
    } else if c == 'H' {
        pad2(ts.hour as int)
    } else if c == 'M' {
        pad2(ts.minute as int)
    } else if c == 'S' {
        pad2(ts.second as int)
    } else if c == 'F' {
        pad4(ts.year as int) + seq!['-'] + pad2(ts.month as int) + seq!['-'] + pad2(ts.day as int)
    } else if c == 'T' {
        pad2(ts.hour as int) + seq![':'] + pad2(ts.minute as int) + seq![':'] + pad2(
            ts.second as int,
        )
    } else if c == 'D' {
        pad2(ts.month as int) + seq!['/'] + pad2(ts.day as int) + seq!['/'] + pad2(
            ts.year as int % 100,
        )
    } else if c == '%' {
        seq!['%']
    } else {
        Seq::empty()
    }
}

/// A template is valid when every `%` is followed by an accepted
/// directive character.
pub open spec fn valid_format(fmt: Seq<char>) -> bool
    decreases fmt.len(),
{
    if fmt.len() == 0 {
        true
    } else if fmt[0] == '%' {
        &&& fmt.len() >= 2
        &&& is_directive_char(fmt[1])
        &&& valid_format(fmt.subrange(2, fmt.len() as int))
    } else {
        valid_format(fmt.subrange(1, fmt.len() as int))
    }
}

/// The rendering of a valid template against a timestamp: literals kept,
/// directives expanded to zero-padded fields.
pub open spec fn render_spec(ts: Timestamp, fmt: Seq<char>) -> Seq<char>
    decreases fmt.len(),
{
    if fmt.len() == 0 {
        Seq::empty()
    } else if fmt[0] == '%' {
        if fmt.len() >= 2 {
            render_directive(ts, fmt[1]) + render_spec(ts, fmt.subrange(2, fmt.len() as int))
        } else {
            Seq::empty()
        }
    } else {
        seq![fmt[0]] + render_spec(ts, fmt.subrange(1, fmt.len() as int))
    }
}

/// Directive-character test matching `is_directive_char`.
fn is_directive(c: char) -> (b: bool)
    ensures
        b == is_directive_char(c),
{
    c == 'Y' || c == 'y' || c == 'm' || c == 'b' || c == 'B' || c == 'd' || c == 'e' || c == 'H'
        || c == 'M' || c == 'S' || c == 'F' || c == 'T' || c == 'D' || c == '%'
}

/// Checks that every `%` in the template is followed by an accepted
/// directive character.
pub fn is_valid_format(fmt: &str) -> (b: bool)
    ensures
        b == valid_format(fmt@),
{
    let len = fmt.unicode_len();
    proof {
        assert(fmt@.subrange(0, len as int) =~= fmt@);
    }
    let mut i: usize = 0;
    while i < len
        invariant
            i <= len,
            len == fmt@.len(),
            valid_format(fmt@) == valid_format(fmt@.subrange(i as int, len as int)),
        decreases len - i,
    {
        let ghost whole = fmt@;
        let ghost sub = fmt@.subrange(i as int, len as int);
        let c = fmt.get_char(i);
        if c == '%' {
            if i + 1 >= len {
                proof {
                    assert(sub.len() == 1);
                    assert(!valid_format(sub));
                }
                return false;
            }
            let d = fmt.get_char(i + 1);
            if !is_directive(d) {
                proof {
                    assert(sub[1] == d);
                    assert(!valid_format(sub));
                }
                return false;
            }
            proof {
                assert(sub.subrange(2, sub.len() as int) =~= whole.subrange(
                    i + 2,
                    len as int,
                ));
                assert(valid_format(sub) == valid_format(whole.subrange(i + 2, len as int)));
            }
            i = i + 2;
        } else {
            proof {
                assert(sub.subrange(1, sub.len() as int) =~= whole.subrange(
                    i + 1,
                    len as int,
                ));
                assert(valid_format(sub) == valid_format(whole.subrange(i + 1, len as int)));
            }
            i = i + 1;
        }
    }
    proof {
        assert(fmt@.subrange(i as int, len as int) =~= Seq::<char>::empty());
    }
    true
}

/// Relies on chrono's `NaiveDate::and_hms_opt` / `NaiveDateTime::format`:
/// chrono documents `%Y` as the year zero-padded to four digits (no sign
/// within 1..=9999), `%y` the year modulo 100 and `%m` `%d` `%H` `%M`
/// `%S` the field, each zero-padded to two digits, `%e` the day
/// space-padded, `%b` / `%B` the English month name abbreviated / full,
/// `%F` as `%Y-%m-%d`, `%T` as `%H:%M:%S`, `%D` as `%m/%d/%y`, `%%` a
/// literal percent sign, and other characters copied through; with a
/// valid timestamp in years 1..=9999 and a valid template, formatting
/// cannot fail.
#[verifier::external_body]
fn chrono_format(ts: &Timestamp, fmt: &str) -> (r: String)
    requires
        ts.valid(),
        valid_format(fmt@),
    ensures
        r@ == render_spec(*ts, fmt@),
{
    let date = chrono::NaiveDate::from_ymd_opt(ts.year, ts.month, ts.day).unwrap();
    let datetime = date.and_hms_opt(ts.hour, ts.minute, ts.second).unwrap();
    datetime.format(fmt).to_string()
}

/// Renders a template against a timestamp: `Some` with the exact expansion
/// for a valid template, `None` for an invalid one.
pub fn render_template(ts: &Timestamp, fmt: &str) -> (r: Option<String>)
    requires
        ts.valid(),
    ensures
        match r {
            Some(s) => valid_format(fmt@) && s@ == render_spec(*ts, fmt@),
            None => !valid_format(fmt@),
        },
{
    if is_valid_format(fmt) {
        Some(chrono_format(ts, fmt))
    } else {
        None
    }
}

} // verus!
