//! Decimal numbers of the protocol, held as JSON number literals.
//!
//! Scale factors and coordinates are passed through to the browser without
//! any arithmetic on them, so they are kept as the text that goes on the
//! wire. A [`Decimal`] always holds a well-formed literal.

use vstd::prelude::*;
use vstd::string::*;
use crate::text::{chars_of, decimal, decimal_text, is_decimal_digit, lemma_decimal_shape};

verus! {

/// The end of the longest run of digits of `s` that starts at `from`.
pub open spec fn digits_end(s: Seq<char>, from: int) -> int
    decreases s.len() - from,
{
    if 0 <= from < s.len() && is_decimal_digit(s[from]) {
        digits_end(s, from + 1)
    } else {
        from
    }
}

/// Where the integer part of the literal ends, if `s` starts with an
/// optional minus sign and an integer without a superfluous leading zero.
pub open spec fn integer_end(s: Seq<char>) -> Option<int> {
    let start: int = if s.len() > 0 && s[0] == '-' {
        1
    } else {
        0
    };
    let end = digits_end(s, start);
    if end > start && (s[start] == '0' ==> end == start + 1) {
        Some(end)
    } else {
        None
    }
}

/// Where the fraction that may start at `from` ends: a point and at least
/// one digit, or nothing.
pub open spec fn fraction_end(s: Seq<char>, from: int) -> Option<int> {
    if 0 <= from < s.len() && s[from] == '.' {
        let end = digits_end(s, from + 1);
        if end > from + 1 {
            Some(end)
        } else {
            None
        }
    } else {
        Some(from)
    }
}

/// Where the exponent that may start at `from` ends: `e` or `E`, an
/// optional sign and at least one digit, or nothing.
pub open spec fn exponent_end(s: Seq<char>, from: int) -> Option<int> {
    if 0 <= from < s.len() && (s[from] == 'e' || s[from] == 'E') {
        let start: int = if from + 1 < s.len() && (s[from + 1] == '+' || s[from + 1] == '-') {
            from + 2
        } else {
            from + 1
        };
        let end = digits_end(s, start);
        if end > start {
            Some(end)
        } else {
            None
        }
    } else {
        Some(from)
    }
}

/// Whether `s` is a JSON number literal: an integer part, then an optional
/// fraction, then an optional exponent, and nothing after.
pub open spec fn is_number_literal(s: Seq<char>) -> bool {
    match integer_end(s) {
        Some(a) => match fraction_end(s, a) {
            Some(b) => exponent_end(s, b) == Some(s.len() as int),
            None => false,
        },
        None => false,
    }
}

fn skip_digits(s: &Vec<char>, from: usize) -> (end: usize)
    requires
        from <= s@.len(),
    ensures
        end == digits_end(s@, from as int),
        from <= end <= s@.len(),
{
    let mut at: usize = from;
    while at < s.len() && '0' <= s[at] && s[at] <= '9'
        invariant
            from <= at <= s@.len(),
            digits_end(s@, from as int) == digits_end(s@, at as int),
        decreases s@.len() - at,
    {
        at = at + 1;
    }
    at
}

/// Tells whether `text` is a JSON number literal.
pub fn check_number_literal(text: &str) -> (ok: bool)
    ensures
        ok == is_number_literal(text@),
{
    let s = chars_of(text);
    let n: usize = s.len();
    let start: usize = if n > 0 && s[0] == '-' {
        1
    } else {
        0
    };
    let a: usize = skip_digits(&s, start);
    if a == start || (s[start] == '0' && a != start + 1) {
        return false;
    }
    let b: usize = if a < n && s[a] == '.' {
        let end: usize = skip_digits(&s, a + 1);
        if end == a + 1 {
            return false;
        }
        end
    } else {
        a
    };
    let c: usize = if b < n && (s[b] == 'e' || s[b] == 'E') {
        let from: usize = if b + 1 < n && (s[b + 1] == '+' || s[b + 1] == '-') {
            b + 2
        } else {
            b + 1
        };
        let end: usize = skip_digits(&s, from);
        if end == from {
            return false;
        }
        end
    } else {
        b
    };
    c == n
}

/// A run of digits that ends at `to` is the longest run from any of its
/// positions.
proof fn lemma_digit_run(s: Seq<char>, from: int, to: int)
    requires
        0 <= from <= to <= s.len(),
        forall|i: int| from <= i < to ==> is_decimal_digit(#[trigger] s[i]),
        to < s.len() ==> !is_decimal_digit(s[to]),
    ensures
        digits_end(s, from) == to,
    decreases to - from,
{
    if from < to {
        lemma_digit_run(s, from + 1, to);
    }
}

/// A whole number written with one zero after the point is a number
/// literal.
proof fn lemma_whole_is_literal(n: nat)
    ensures
        is_number_literal(decimal(n) + ".0"@),
{
    reveal_strlit(".0");
    lemma_decimal_shape(n);
    let head = decimal(n);
    let s = head + ".0"@;
    let a = head.len() as int;
    assert(s[a] == '.');
    assert(s[a + 1] == '0');
    assert forall|i: int| 0 <= i < a implies is_decimal_digit(#[trigger] s[i]) by {
        assert(s[i] == head[i]);
    }
    assert(s[0] == head[0]);
    lemma_digit_run(s, 0, a);
    lemma_digit_run(s, a + 1, a + 2);
    assert(integer_end(s) == Some(a));
    assert(fraction_end(s, a) == Some(a + 2));
    assert(exponent_end(s, a + 2) == Some(a + 2));
}

/// A decimal numeral is a number literal.
proof fn lemma_integer_is_literal(n: nat)
    ensures
        is_number_literal(decimal(n)),
{
    lemma_decimal_shape(n);
    let s = decimal(n);
    lemma_digit_run(s, 0, s.len() as int);
    assert(integer_end(s) == Some(s.len() as int));
}

/// A real number, held as its JSON literal.
#[derive(Debug, PartialEq, Eq)]
pub struct Decimal {
    literal: String,
}

impl View for Decimal {
    type V = Seq<char>;

    /// The literal.
    closed spec fn view(&self) -> Seq<char> {
        self.literal@
    }
}

impl Decimal {
    #[verifier::type_invariant]
    spec fn well_formed(self) -> bool {
        is_number_literal(self.literal@)
    }

    /// The number written as `text`: `None` unless `text` is a JSON number
    /// literal.
    pub fn parse(text: &str) -> (number: Option<Decimal>)
        ensures
            number is Some == is_number_literal(text@),
            number matches Some(r) ==> r@ == text@,
    {
        if check_number_literal(text) {
            Some(Decimal { literal: String::from_str(text) })
        } else {
            None
        }
    }

    /// The whole number `n`, written with one zero after the point.
    pub fn whole(n: u64) -> (number: Decimal)
        ensures
            number@ == decimal(n as nat) + ".0"@,
    {
        let mut literal = decimal_text(n);
        literal.append(".0");
        proof {
            lemma_whole_is_literal(n as nat);
        }
        Decimal { literal }
    }

    /// The whole number `n`, written as an integer.
    pub fn integer(n: u64) -> (number: Decimal)
        ensures
            number@ == decimal(n as nat),
    {
        let literal = decimal_text(n);
        proof {
            lemma_integer_is_literal(n as nat);
        }
        Decimal { literal }
    }

    /// The literal of the number.
    pub fn literal(&self) -> (text: &str)
        ensures
            text@ == self@,
            is_number_literal(self@),
    {
        proof {
            use_type_invariant(self);
        }
        self.literal.as_str()
    }

}

impl Clone for Decimal {
    fn clone(&self) -> (copy: Decimal)
        ensures
            copy@ == self@,
    {
        proof {
            use_type_invariant(self);
        }
        Decimal { literal: self.literal.clone() }
    }
}

} // verus!
