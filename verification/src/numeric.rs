//! Decimal number text: the strings that the standard library's `f64` parser accepts.
//!
//! The parser accepts exactly the strings that, once lower-cased, match
//! ```text
//! Float  ::= Sign? ( 'inf' | 'infinity' | 'nan' | Number )
//! Number ::= ( Digit+ | Digit+ '.' Digit* | Digit* '.' Digit+ ) Exp?
//! Exp    ::= 'e' Sign? Digit+
//! Sign   ::= [+-]
//! Digit  ::= [0-9]
//! ```
//! A [`NumericText`] holds such a string; the library keeps numbers in this form and
//! leaves their conversion to binary floating point to the caller.
use vstd::prelude::*;

use crate::text::{chars_of, copy_range, lower, lower_char, string_of};

verus! {

broadcast use vstd::string::group_string_axioms;

pub open spec fn is_digit(c: char) -> bool {
    '0' <= c <= '9'
}

pub open spec fn is_sign(c: char) -> bool {
    c == '+' || c == '-'
}

pub open spec fn all_digits(s: Seq<char>) -> bool {
    forall|i: int| 0 <= i < s.len() ==> is_digit(#[trigger] s[i])
}

/// `Digit+ | Digit+ '.' Digit* | Digit* '.' Digit+`: digits with at most one
/// decimal point, and at least one digit.
pub open spec fn is_mantissa(m: Seq<char>) -> bool {
    &&& m.len() >= 1
    &&& forall|i: int| 0 <= i < m.len() ==> is_digit(#[trigger] m[i]) || m[i] == '.'
    &&& forall|i: int, j: int| 0 <= i < j < m.len() ==> !(#[trigger] m[i] == '.' && #[trigger] m[j] == '.')
    &&& !(m.len() == 1 && m[0] == '.')
}

/// `Sign? Digit+`
pub open spec fn is_exponent_digits(x: Seq<char>) -> bool {
    ||| (x.len() >= 1 && all_digits(x))
    ||| (x.len() >= 2 && is_sign(x[0]) && all_digits(x.skip(1)))
}

/// `Number`, with the exponent marker in either case.
pub open spec fn is_number(s: Seq<char>) -> bool {
    ||| is_mantissa(s)
    ||| exists|k: int|
        0 <= k < s.len() && #[trigger] lower_char(s[k]) == 'e' && is_mantissa(s.take(k))
            && is_exponent_digits(s.skip(k + 1))
}

pub open spec fn lower_seq(s: Seq<char>) -> Seq<char> {
    s.map_values(|c: char| lower_char(c))
}

/// `'inf' | 'infinity' | 'nan'`, in any case.
pub open spec fn is_special(s: Seq<char>) -> bool {
    ||| lower_seq(s) == seq!['i', 'n', 'f']
    ||| lower_seq(s) == seq!['i', 'n', 'f', 'i', 'n', 'i', 't', 'y']
    ||| lower_seq(s) == seq!['n', 'a', 'n']
}

pub open spec fn is_unsigned_float(s: Seq<char>) -> bool {
    is_special(s) || is_number(s)
}

/// Whether `s` is accepted by the standard library's `f64` parser.
pub open spec fn is_float_literal(s: Seq<char>) -> bool {
    ||| is_unsigned_float(s)
    ||| (s.len() >= 1 && is_sign(s[0]) && is_unsigned_float(s.skip(1)))
}

fn is_digit_char(c: char) -> (b: bool)
    ensures
        b == is_digit(c),
{
    '0' <= c && c <= '9'
}

fn mantissa(m: &[char]) -> (b: bool)
    ensures
        b == is_mantissa(m@),
{
    let n = m.len();
    if n == 0 {
        return false;
    }
    if n == 1 && m[0] == '.' {
        return false;
    }
    let mut dot: Option<usize> = None;
    let mut i: usize = 0;
    while i < n
        invariant
            n == m@.len(),
            i <= n,
            forall|k: int| 0 <= k < i ==> is_digit(#[trigger] m@[k]) || m@[k] == '.',
            match dot {
                None => forall|k: int| 0 <= k < i ==> #[trigger] m@[k] != '.',
                Some(d) => d < i && m@[d as int] == '.' && forall|k: int|
                    0 <= k < i && k != d ==> #[trigger] m@[k] != '.',
            },
        decreases n - i,
    {
        let c = m[i];
        if c == '.' {
            match dot {
                Some(d) => {
                    assert(m@[d as int] == '.' && m@[i as int] == '.');
                    return false;
                },
                None => {
                    dot = Some(i);
                },
            }
        } else if !is_digit_char(c) {
            return false;
        }
        i = i + 1;
    }
    assert forall|a: int, b: int| 0 <= a < b < m@.len() implies !(#[trigger] m@[a] == '.'
        && #[trigger] m@[b] == '.') by {
        match dot {
            None => {},
            Some(d) => {},
        }
    }
    true
}

fn exponent_digits(x: &[char]) -> (b: bool)
    ensures
        b == is_exponent_digits(x@),
{
    let n = x.len();
    if n == 0 {
        return false;
    }
    let start: usize = if x[0] == '+' || x[0] == '-' {
        1
    } else {
        0
    };
    if start == n {
        assert(!is_digit(x@[0]));
        return false;
    }
    let mut i = start;
    while i < n
        invariant
            n == x@.len(),
            start <= i <= n,
            n > 0,
            start == 0 || start == 1,
            (start == 1) == is_sign(x@[0]),
            forall|k: int| start <= k < i ==> is_digit(#[trigger] x@[k]),
        decreases n - i,
    {
        if !is_digit_char(x[i]) {
            proof {
                assert(!is_digit(x@[i as int]));
                if start == 1 {
                    assert(!is_digit(x@[0]));
                    assert(x@.skip(1)[i - 1] == x@[i as int]);
                }
            }
            return false;
        }
        i = i + 1;
    }
    proof {
        if start == 1 {
            assert forall|k: int| 0 <= k < x@.skip(1).len() implies is_digit(
                #[trigger] x@.skip(1)[k],
            ) by {
                assert(x@.skip(1)[k] == x@[k + 1]);
            }
        }
    }
    true
}

proof fn lemma_mantissa_has_no_e(m: Seq<char>, k: int)
    requires
        is_mantissa(m),
        0 <= k < m.len(),
    ensures
        lower_char(m[k]) != 'e',
{
    assert(is_digit(m[k]) || m[k] == '.');
}

fn number(s: &[char]) -> (b: bool)
    ensures
        b == is_number(s@),
{
    let n = s.len();
    let mut k: usize = 0;
    while k < n && lower(s[k]) != 'e'
        invariant
            n == s@.len(),
            k <= n,
            forall|j: int| 0 <= j < k ==> #[trigger] lower_char(s@[j]) != 'e',
        decreases n - k,
    {
        k = k + 1;
    }
    if k == n {
        return mantissa(s);
    }
    let head = copy_range(s, 0, k);
    let tail = copy_range(s, k + 1, n);
    assert(head@ =~= s@.take(k as int));
    assert(tail@ =~= s@.skip(k + 1));
    let whole = mantissa(s);
    let m = mantissa(head.as_slice());
    let e = exponent_digits(tail.as_slice());
    proof {
        if whole {
            lemma_mantissa_has_no_e(s@, k as int);
        }
        if exists|j: int|
            0 <= j < s@.len() && #[trigger] lower_char(s@[j]) == 'e' && is_mantissa(s@.take(j))
                && is_exponent_digits(s@.skip(j + 1)) {
            let j = choose|j: int|
                0 <= j < s@.len() && #[trigger] lower_char(s@[j]) == 'e' && is_mantissa(
                    s@.take(j),
                ) && is_exponent_digits(s@.skip(j + 1));
            if j > k {
                assert(s@.take(j)[k as int] == s@[k as int]);
                lemma_mantissa_has_no_e(s@.take(j), k as int);
            }
            assert(j == k);
        }
    }
    m && e
}

fn special(s: &[char]) -> (b: bool)
    ensures
        b == is_special(s@),
{
    let n = s.len();
    let mut low: Vec<char> = Vec::new();
    let mut i: usize = 0;
    while i < n
        invariant
            n == s@.len(),
            i <= n,
            low@ == lower_seq(s@.take(i as int)),
        decreases n - i,
    {
        low.push(lower(s[i]));
        i = i + 1;
        assert(lower_seq(s@.take(i as int)) =~= lower_seq(s@.take(i - 1 as int)).push(
            lower_char(s@[i - 1]),
        ));
    }
    assert(s@.take(n as int) =~= s@);
    if n == 3 && low[0] == 'i' && low[1] == 'n' && low[2] == 'f' {
        assert(low@ =~= seq!['i', 'n', 'f']);
        return true;
    }
    if n == 3 && low[0] == 'n' && low[1] == 'a' && low[2] == 'n' {
        assert(low@ =~= seq!['n', 'a', 'n']);
        return true;
    }
    if n == 8 && low[0] == 'i' && low[1] == 'n' && low[2] == 'f' && low[3] == 'i' && low[4]
        == 'n' && low[5] == 'i' && low[6] == 't' && low[7] == 'y' {
        assert(low@ =~= seq!['i', 'n', 'f', 'i', 'n', 'i', 't', 'y']);
        return true;
    }
    proof {
        if low@ == seq!['i', 'n', 'f'] {
            assert(low@[0] == 'i' && low@[1] == 'n' && low@[2] == 'f');
        }
        if low@ == seq!['n', 'a', 'n'] {
            assert(low@[0] == 'n' && low@[1] == 'a' && low@[2] == 'n');
        }
        if low@ == seq!['i', 'n', 'f', 'i', 'n', 'i', 't', 'y'] {
            assert(low@[0] == 'i' && low@[1] == 'n' && low@[2] == 'f' && low@[3] == 'i');
            assert(low@[4] == 'n' && low@[5] == 'i' && low@[6] == 't' && low@[7] == 'y');
        }
    }
    false
}

fn unsigned_float(s: &[char]) -> (b: bool)
    ensures
        b == is_unsigned_float(s@),
{
    special(s) || number(s)
}

/// Whether the characters `s` form a number that the `f64` parser accepts.
pub fn float_literal(s: &[char]) -> (b: bool)
    ensures
        b == is_float_literal(s@),
{
    if unsigned_float(s) {
        return true;
    }
    if s.len() >= 1 && (s[0] == '+' || s[0] == '-') {
        let rest = copy_range(s, 1, s.len());
        assert(rest@ =~= s@.skip(1));
        unsigned_float(rest.as_slice())
    } else {
        false
    }
}

/// Text of a number in the syntax of the `f64` parser.
#[derive(Debug, PartialEq)]
pub struct NumericText {
    text: String,
}

impl Clone for NumericText {
    fn clone(&self) -> (r: Self)
        ensures
            r@ == self@,
    {
        self.copy()
    }
}

impl View for NumericText {
    type V = Seq<char>;

    closed spec fn view(&self) -> Seq<char> {
        self.text@
    }
}

impl NumericText {
    #[verifier::type_invariant]
    spec fn well_formed(self) -> bool {
        is_float_literal(self.text@)
    }

    /// The number text holding `s`, if `s` is a number in the syntax of the `f64` parser.
    pub fn parse(s: &str) -> (r: Option<NumericText>)
        ensures
            r is Some <==> is_float_literal(s@),
            r matches Some(t) ==> t@ == s@,
    {
        let v = chars_of(s);
        Self::from_chars(v.as_slice())
    }

    /// The number text holding the characters `v`, if they form a number.
    pub fn from_chars(v: &[char]) -> (r: Option<NumericText>)
        ensures
            r is Some <==> is_float_literal(v@),
            r matches Some(t) ==> t@ == v@,
    {
        if float_literal(v) {
            Some(NumericText { text: string_of(v) })
        } else {
            None
        }
    }

    /// The number zero, written `0`.
    pub fn zero() -> (r: NumericText)
        ensures
            r@ == seq!['0'],
    {
        let v: Vec<char> = vec!['0'];
        assert(is_mantissa(v@));
        NumericText { text: string_of(v.as_slice()) }
    }

    /// The text of the number.
    pub fn as_str(&self) -> (r: &str)
        ensures
            r@ == self@,
    {
        self.text.as_str()
    }

    /// A copy of this number text.
    pub fn copy(&self) -> (r: NumericText)
        ensures
            r@ == self@,
    {
        proof {
            use_type_invariant(self);
        }
        NumericText { text: self.text.clone() }
    }
}

} // verus!
