//! Texts that the library renders: decimal numbers and dotted field paths.
//!
//! Every text is defined here as a sequence of characters; the executable
//! functions are proved to build exactly those sequences.

use vstd::prelude::*;
use vstd::string::*;

verus! {

/// The character for one decimal digit.
pub open spec fn digit_char(d: int) -> char {
    if d == 0 {
        '0'
    } else if d == 1 {
        '1'
    } else if d == 2 {
        '2'
    } else if d == 3 {
        '3'
    } else if d == 4 {
        '4'
    } else if d == 5 {
        '5'
    } else if d == 6 {
        '6'
    } else if d == 7 {
        '7'
    } else if d == 8 {
        '8'
    } else {
        '9'
    }
}

/// Whether `c` is one of the ten decimal digits.
pub open spec fn is_digit(c: char) -> bool {
    exists|d: int| 0 <= d < 10 && c == #[trigger] digit_char(d)
}

/// The decimal digits of a natural number, most significant first, without
/// leading zeros (zero itself is the single digit `0`).
pub open spec fn decimal_digits(n: nat) -> Seq<char>
    decreases n,
{
    if n < 10 {
        seq![digit_char(n as int)]
    } else {
        decimal_digits(n / 10).push(digit_char((n % 10) as int))
    }
}

/// The plain decimal text of an integer: a minus sign for a negative number,
/// then the digits of its magnitude.
pub open spec fn decimal_text(v: int) -> Seq<char> {
    if v < 0 {
        seq!['-'] + decimal_digits((-v) as nat)
    } else {
        decimal_digits(v as nat)
    }
}

/// The digit `d` as a one-character string.
fn digit_str(d: u8) -> (s: &'static str)
    requires
        d < 10,
    ensures
        s@ == seq![digit_char(d as int)],
{
    proof {
        reveal_strlit("0");
        reveal_strlit("1");
        reveal_strlit("2");
        reveal_strlit("3");
        reveal_strlit("4");
        reveal_strlit("5");
        reveal_strlit("6");
        reveal_strlit("7");
        reveal_strlit("8");
        reveal_strlit("9");
    }
    let s = if d == 0 {
        "0"
    } else if d == 1 {
        "1"
    } else if d == 2 {
        "2"
    } else if d == 3 {
        "3"
    } else if d == 4 {
        "4"
    } else if d == 5 {
        "5"
    } else if d == 6 {
        "6"
    } else if d == 7 {
        "7"
    } else if d == 8 {
        "8"
    } else {
        "9"
    };
    s
}

/// Renders a magnitude in decimal.
pub fn magnitude_text(n: u128) -> (s: String)
    ensures
        s@ == decimal_digits(n as nat),
    decreases n,
{
    if n < 10 {
        String::from_str(digit_str(n as u8))
    } else {
        let mut s = magnitude_text(n / 10);
        s.append(digit_str((n % 10) as u8));
        s
    }
}

/// Renders a number given as sign and magnitude.
pub(crate) fn signed_text(negative: bool, magnitude: u128) -> (s: String)
    requires
        negative ==> magnitude > 0,
    ensures
        s@ == decimal_text(if negative { -(magnitude as int) } else { magnitude as int }),
{
    let digits = magnitude_text(magnitude);
    if negative {
        proof {
            reveal_strlit("-");
        }
        String::from_str("-").concat(digits.as_str())
    } else {
        digits
    }
}

/// The decimal digits of a number are at least one, and each of them is a
/// digit.
pub proof fn lemma_decimal_digits_are_digits(n: nat)
    ensures
        decimal_digits(n).len() >= 1,
        forall|i: int| 0 <= i < decimal_digits(n).len() ==> is_digit(#[trigger] decimal_digits(n)[i]),
    decreases n,
{
    if n >= 10 {
        lemma_decimal_digits_are_digits(n / 10);
    }
}

/// The digit that a character stands for, the inverse of [`digit_char`].
pub open spec fn digit_value(c: char) -> int {
    if c == '0' {
        0
    } else if c == '1' {
        1
    } else if c == '2' {
        2
    } else if c == '3' {
        3
    } else if c == '4' {
        4
    } else if c == '5' {
        5
    } else if c == '6' {
        6
    } else if c == '7' {
        7
    } else if c == '8' {
        8
    } else {
        9
    }
}

/// The number that a sequence of digits denotes.
pub open spec fn digits_value(digits: Seq<char>) -> nat
    decreases digits.len(),
{
    if digits.len() == 0 {
        0
    } else {
        (digits_value(digits.drop_last()) * 10 + digit_value(digits.last())) as nat
    }
}

/// Reading the decimal digits of a number gives the number back.
pub proof fn lemma_digits_value_of_decimal_digits(n: nat)
    ensures
        digits_value(decimal_digits(n)) == n,
    decreases n,
{
    let digits = decimal_digits(n);
    if n < 10 {
        assert(digits_value(digits.drop_last()) == 0);
    } else {
        lemma_digits_value_of_decimal_digits(n / 10);
        assert(digits.drop_last() =~= decimal_digits(n / 10));
    }
}

/// The decimal text tells the number: two integers with the same text are
/// the same integer.
pub proof fn law_decimal_text_is_faithful(a: int, b: int)
    requires
        decimal_text(a) == decimal_text(b),
    ensures
        a == b,
{
    let ma = (if a < 0 { -a } else { a }) as nat;
    let mb = (if b < 0 { -b } else { b }) as nat;
    lemma_decimal_digits_are_digits(ma);
    lemma_decimal_digits_are_digits(mb);
    lemma_digits_value_of_decimal_digits(ma);
    lemma_digits_value_of_decimal_digits(mb);
    if a < 0 && b < 0 {
        // Both texts start with the sign: what follows it is the same.
        let ta = seq!['-'] + decimal_digits(ma);
        let tb = seq!['-'] + decimal_digits(mb);
        assert(ta.subrange(1, ta.len() as int) =~= decimal_digits(ma));
        assert(tb.subrange(1, tb.len() as int) =~= decimal_digits(mb));
    } else {
        // A text that starts with a digit does not start with the sign.
        assert(is_digit(decimal_digits(ma)[0]) && is_digit(decimal_digits(mb)[0]));
    }
}

/// The path of a field called `name` under the path `prefix`: the two joined
/// by a dot, or the name alone for a field of the root.
pub open spec fn dotted(prefix: Option<Seq<char>>, name: Seq<char>) -> Seq<char> {
    match prefix {
        Some(p) => p + seq!['.'] + name,
        None => name,
    }
}

/// The names joined by dots, in their order.
pub open spec fn join_dots(names: Seq<Seq<char>>) -> Seq<char>
    decreases names.len(),
{
    if names.len() == 0 {
        Seq::empty()
    } else if names.len() == 1 {
        names[0]
    } else {
        join_dots(names.drop_last()) + seq!['.'] + names.last()
    }
}

/// What a prefix given as a string slice stands for.
pub open spec fn prefix_view(prefix: Option<&str>) -> Option<Seq<char>> {
    match prefix {
        Some(p) => Some(p@),
        None => None,
    }
}

/// Builds the dotted path of the field `name` under `prefix`.
pub fn join_path(prefix: Option<&str>, name: &str) -> (path: String)
    ensures
        path@ == dotted(prefix_view(prefix), name@),
{
    match prefix {
        Some(p) => {
            proof {
                reveal_strlit(".");
            }
            let mut path = String::from_str(p);
            path.append(".");
            path.append(name);
            path
        },
        None => String::from_str(name),
    }
}

/// Extending a path field by field gives the names on the way joined by dots:
/// the path of a field is the names of the fields from the root down to it,
/// with a dot between each two.
pub proof fn law_path_joins_names(names: Seq<Seq<char>>, name: Seq<char>)
    ensures
        dotted(if names.len() == 0 { None } else { Some(join_dots(names)) }, name) == join_dots(
            names.push(name),
        ),
{
    if names.len() > 0 {
        assert(names.push(name).drop_last() =~= names);
    }
}

} // verus!
