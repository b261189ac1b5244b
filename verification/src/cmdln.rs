//! Text helpers for command-line presentation: number grouping, shortened
//! identifiers, and the progress bars.  Everything here is presentation
//! over values the engine computed; nothing feeds back into progression.

use vstd::prelude::*;

pub mod bar;
pub mod ratio_bar;

verus! {

use vstd::utf8::is_ascii_chars;
use crate::ident::id_text;

/// The default shape of the progress bars.
pub const BAR_WIDTH: usize = 55;

pub const BAR_BRACKET_LEFT: &'static str = "[";

pub const BAR_BRACKET_RIGHT: &'static str = "]";

pub const BAR_FILL: char = '#';

pub const BAR_BLANK: char = ' ';

pub const RATIO_BAR_SEPARATOR: char = '|';

/// The smaller of two counts.
pub open spec fn min_nat(a: nat, b: nat) -> nat {
    if a <= b {
        a
    } else {
        b
    }
}

/// The larger of two counts.
pub open spec fn max_nat(a: nat, b: nat) -> nat {
    if a <= b {
        b
    } else {
        a
    }
}

/// A character repeated.
pub open spec fn repeat_char(c: char, n: nat) -> Seq<char> {
    Seq::new(n, |i: int| c)
}

/// The smaller of two widths.
pub(crate) fn min_usize(a: usize, b: usize) -> (r: usize)
    ensures
        r == min_nat(a as nat, b as nat),
{
    if a <= b {
        a
    } else {
        b
    }
}

/// The larger of two widths.
pub(crate) fn max_usize(a: usize, b: usize) -> (r: usize)
    ensures
        r == max_nat(a as nat, b as nat),
{
    if a <= b {
        b
    } else {
        a
    }
}

/// The one-character string of a character.  Relies on `String::from` for
/// a `char`: the result holds that character alone.
#[verifier::external_body]
pub(crate) fn char_to_string(c: char) -> (r: String)
    ensures
        r@ =~= seq![c],
{
    String::from(c)
}

/// The character count of an ASCII string, which its byte count equals.
pub(crate) fn ascii_len(s: &str) -> (r: usize)
    requires
        is_ascii_chars(s@),
        s@.len() <= usize::MAX,
    ensures
        r == s@.len(),
{
    proof {
        vstd::string::is_ascii_spec_bytes(s);
    }
    s.len()
}

/// A run of spaces.
pub(crate) fn spaces(n: usize) -> (r: String)
    ensures
        r@ == repeat_char(' ', n as nat),
{
    let mut r = String::new();
    let mut i: usize = 0;
    while i < n
        invariant
            i <= n,
            r@ =~= repeat_char(' ', i as nat),
        decreases n - i,
    {
        proof {
            reveal_strlit(" ");
        }
        r.append(" ");
        proof {
            assert(r@ =~= repeat_char(' ', (i + 1) as nat));
        }
        i += 1;
    }
    r
}

/// A one-character string repeated.
pub(crate) fn repeat_one(s: &String, n: usize) -> (r: String)
    requires
        s@.len() == 1,
    ensures
        r@ == repeat_char(s@[0], n as nat),
{
    let mut r = String::new();
    let mut i: usize = 0;
    while i < n
        invariant
            i <= n,
            s@.len() == 1,
            r@ =~= repeat_char(s@[0], i as nat),
        decreases n - i,
    {
        r.append(s.as_str());
        proof {
            assert(r@ =~= repeat_char(s@[0], (i + 1) as nat));
        }
        i += 1;
    }
    r
}

/// The decimal digit character of a value below ten.
pub open spec fn digit_char(d: nat) -> char {
    if d == 0 {
        '0'
    } else if d == 1 {
        '1'
    } else if d == 2 {
        '2'
    } else if d == 3 {
        '3'
    } else if d == 4 {
        '4'
    } else if d == 5 {
        '5'
    } else if d == 6 {
        '6'
    } else if d == 7 {
        '7'
    } else if d == 8 {
        '8'
    } else {
        '9'
    }
}

/// The decimal digits of a number, most significant first.
pub open spec fn dec_digits(n: nat) -> Seq<char>
    decreases n,
{
    if n < 10 {
        seq![digit_char(n)]
    } else {
        dec_digits(n / 10).push(digit_char(n % 10))
    }
}

/// Digit groups of three, counted from the right, separated by commas.
pub open spec fn with_separators(s: Seq<char>) -> Seq<char>
    decreases s.len(),
{
    if s.len() <= 3 {
        s
    } else {
        with_separators(s.take(s.len() - 3)) + seq![','] + s.skip(s.len() - 3)
    }
}

/// The decimal text of a number with thousands separators.
pub open spec fn thousands_spec(n: nat) -> Seq<char> {
    with_separators(dec_digits(n))
}

/// The decimal digit character of a value below ten.
fn digit_char_exec(d: u64) -> (c: char)
    requires
        d < 10,
    ensures
        c == digit_char(d as nat),
{
    if d == 0 {
        '0'
    } else if d == 1 {
        '1'
    } else if d == 2 {
        '2'
    } else if d == 3 {
        '3'
    } else if d == 4 {
        '4'
    } else if d == 5 {
        '5'
    } else if d == 6 {
        '6'
    } else if d == 7 {
        '7'
    } else if d == 8 {
        '8'
    } else {
        '9'
    }
}

/// The decimal digits of a number, appended most significant first.
fn push_dec_chars(n: u64, out: &mut Vec<char>)
    ensures
        final(out)@ == old(out)@ + dec_digits(n as nat),
    decreases n,
{
    if n < 10 {
        out.push(digit_char_exec(n));
        proof {
            assert(out@ =~= old(out)@ + dec_digits(n as nat));
        }
    } else {
        push_dec_chars(n / 10, out);
        out.push(digit_char_exec(n % 10));
        proof {
            assert(out@ =~= old(out)@ + dec_digits(n as nat));
        }
    }
}

/// Digit groups of three, counted from the right, separated by commas.
fn with_separators_exec(digits: &Vec<char>) -> (r: Vec<char>)
    ensures
        r@ == with_separators(digits@),
    decreases digits@.len(),
{
    let n = digits.len();
    if n <= 3 {
        let mut r: Vec<char> = Vec::new();
        let mut i: usize = 0;
        while i < n
            invariant
                i <= n,
                n == digits@.len(),
                r@ == digits@.subrange(0, i as int),
            decreases n - i,
        {
            r.push(digits[i]);
            proof {
                assert(digits@.subrange(0, i + 1) =~= digits@.subrange(0, i as int).push(
                    digits@[i as int],
                ));
            }
            i += 1;
        }
        proof {
            assert(digits@.subrange(0, n as int) =~= digits@);
        }
        r
    } else {
        let mut head: Vec<char> = Vec::new();
        let mut i: usize = 0;
        while i < n - 3
            invariant
                i <= n - 3,
                3 < n == digits@.len(),
                head@ == digits@.subrange(0, i as int),
            decreases n - 3 - i,
        {
            head.push(digits[i]);
            proof {
                assert(digits@.subrange(0, i + 1) =~= digits@.subrange(0, i as int).push(
                    digits@[i as int],
                ));
            }
            i += 1;
        }
        proof {
            assert(head@ =~= digits@.take(digits@.len() - 3));
        }
        let mut r = with_separators_exec(&head);
        r.push(',');
        let mut j: usize = n - 3;
        while j < n
            invariant
                3 < n,
                n - 3 <= j <= n,
                n == digits@.len(),
                r@ == with_separators(digits@.take(digits@.len() - 3)) + seq![',']
                    + digits@.subrange(n - 3, j as int),
            decreases n - j,
        {
            r.push(digits[j]);
            proof {
                assert(digits@.subrange(n - 3, j + 1) =~= digits@.subrange(n - 3, j as int).push(
                    digits@[j as int],
                ));
                assert(r@ =~= with_separators(digits@.take(digits@.len() - 3)) + seq![',']
                    + digits@.subrange(n - 3, j + 1));
            }
            j += 1;
        }
        proof {
            assert(digits@.subrange(n - 3, n as int) =~= digits@.skip(digits@.len() - 3));
            assert(r@ =~= with_separators(digits@));
        }
        r
    }
}

/// A vector of characters as a string.
pub(crate) fn string_from_chars(v: &Vec<char>) -> (r: String)
    ensures
        r@ == v@,
{
    let mut r = String::new();
    let mut i: usize = 0;
    while i < v.len()
        invariant
            i <= v@.len(),
            r@ == v@.subrange(0, i as int),
        decreases v@.len() - i,
    {
        let c = char_to_string(v[i]);
        r.append(c.as_str());
        proof {
            assert(v@.subrange(0, i + 1) =~= v@.subrange(0, i as int).push(v@[i as int]));
            assert(r@ =~= v@.subrange(0, i + 1));
        }
        i += 1;
    }
    proof {
        assert(v@.subrange(0, v@.len() as int) =~= v@);
    }
    r
}

/// The decimal text of a number, grouped in thousands: `1234567` renders
/// as `1,234,567`.
pub fn thousands_separator(num: u64) -> (r: String)
    ensures
        r@ == thousands_spec(num as nat),
{
    let mut digits: Vec<char> = Vec::new();
    push_dec_chars(num, &mut digits);
    proof {
        assert(digits@ =~= dec_digits(num as nat));
    }
    let grouped = with_separators_exec(&digits);
    string_from_chars(&grouped)
}

/// The shortened display form of a 36-character identifier text: its
/// first six and last six characters around an ellipsis, in brackets.
pub open spec fn shortened(s: Seq<char>) -> Seq<char> {
    seq!['['] + s.subrange(0, 6) + seq!['.', '.', '.'] + s.subrange(30, 36) + seq![']']
}

/// The shortened display form of an identifier's canonical text.
pub fn shorten_id_text(s: &str) -> (r: String)
    requires
        s@.len() == 36,
    ensures
        r@ == shortened(s@),
{
    proof {
        reveal_strlit("[");
        reveal_strlit("...");
        reveal_strlit("]");
    }
    let head = s.substring_char(0, 6);
    let tail = s.substring_char(30, 36);
    let mut r = String::new();
    r.append("[");
    r.append(head);
    r.append("...");
    r.append(tail);
    r.append("]");
    proof {
        assert(r@ =~= shortened(s@));
    }
    r
}

/// An identifier shortened for display: brackets around the first six and
/// last six characters of its 36-character canonical text.
pub fn shorten_uuid(id: uuid::Uuid) -> (r: String)
    ensures
        r@.len() == 17,
        r@[0] == '[',
        r@[7] == '.' && r@[8] == '.' && r@[9] == '.',
        r@[16] == ']',
{
    let text = id_text(&id);
    let r = shorten_id_text(text.as_str());
    proof {
        assert(r@ == shortened(text@));
        assert(r@[7] == '.' && r@[8] == '.' && r@[9] == '.');
    }
    r
}

} // verus!
