//! Number display: decimal digits of counts and thousands separators.
use vstd::prelude::*;

use crate::text::{chars_of, push_chars, string_of};

verus! {

broadcast use vstd::string::group_string_axioms;

/// The character of a decimal digit.
pub open spec fn digit_char(d: int) -> char {
    ('0' as u32 + d) as char
}

/// The decimal digits of `n`, without leading zeros (`0` for zero).
pub open spec fn decimal(n: nat) -> Seq<char>
    decreases n,
{
    if n < 10 {
        seq![digit_char(n as int)]
    } else {
        decimal(n / 10).push(digit_char((n % 10) as int))
    }
}

/// `digits` with a comma between each group of three, counted from the right.
pub open spec fn grouped(digits: Seq<char>) -> Seq<char>
    decreases digits.len(),
{
    if digits.len() <= 3 {
        digits
    } else {
        grouped(digits.take(digits.len() - 3)) + seq![','] + digits.skip(digits.len() - 3)
    }
}

fn digit(d: usize) -> (c: char)
    requires
        d < 10,
    ensures
        c == digit_char(d as int),
{
    let b: u8 = (48 + d) as u8;
    b as char
}

/// The decimal digits of `n`.
pub fn decimal_string(n: usize) -> (s: String)
    ensures
        s@ == decimal(n as nat),
{
    // Digits from the last one to the first one.
    let mut rev: Vec<char> = Vec::new();
    let mut m = n;
    assert(rev@.reverse() =~= Seq::<char>::empty());
    assert(decimal(n as nat) =~= decimal(n as nat) + rev@.reverse());
    while m >= 10
        invariant
            m <= n,
            decimal(n as nat) == decimal(m as nat) + rev@.reverse(),
        decreases m,
    {
        let d = m % 10;
        proof {
            assert(decimal(m as nat) == decimal((m / 10) as nat).push(digit_char(d as int)));
            assert(rev@.push(digit_char(d as int)).reverse() =~= seq![digit_char(d as int)]
                + rev@.reverse());
        }
        rev.push(digit(d));
        m = m / 10;
    }
    let mut out: Vec<char> = Vec::new();
    out.push(digit(m));
    let mut i = rev.len();
    assert(rev@.take(i as int) =~= rev@);
    while i > 0
        invariant
            i <= rev@.len(),
            decimal(n as nat) == out@ + rev@.take(i as int).reverse(),
        decreases i,
    {
        i = i - 1;
        proof {
            assert(rev@.take(i + 1).reverse() =~= seq![rev@[i as int]] + rev@.take(i as int).reverse());
        }
        out.push(rev[i]);
        proof {
            assert(out@ + rev@.take(i as int).reverse() =~= out@.drop_last() + (seq![rev@[i as int]] + rev@.take(i as int).reverse()));
        }
    }
    assert(rev@.take(0).reverse() =~= Seq::<char>::empty());
    assert(out@ =~= out@ + Seq::<char>::empty());
    string_of(out.as_slice())
}

/// `digits` with a comma before position `i` exactly when `i > 0` and a
/// multiple of three positions follow, up to position `k`.
spec fn grouped_upto(digits: Seq<char>, k: int) -> Seq<char>
    decreases k,
{
    if k <= 0 {
        seq![]
    } else {
        let before = grouped_upto(digits, k - 1);
        let sep: Seq<char> = if k - 1 > 0 && (digits.len() - (k - 1)) % 3 == 0 {
            seq![',']
        } else {
            seq![]
        };
        before + sep + seq![digits[k - 1]]
    }
}

proof fn lemma_grouped_upto_prefix(digits: Seq<char>, k: int)
    requires
        digits.len() > 3,
        0 <= k <= digits.len() - 3,
    ensures
        grouped_upto(digits, k) == grouped_upto(digits.take(digits.len() - 3), k),
    decreases k,
{
    if k > 0 {
        lemma_grouped_upto_prefix(digits, k - 1);
    }
}

proof fn lemma_grouped_upto_small(digits: Seq<char>, k: int)
    requires
        digits.len() <= 3,
        0 <= k <= digits.len(),
    ensures
        grouped_upto(digits, k) == digits.take(k),
    decreases k,
{
    if k > 0 {
        lemma_grouped_upto_small(digits, k - 1);
        assert(digits.take(k - 1) + seq![digits[k - 1]] =~= digits.take(k));
    } else {
        assert(digits.take(0) =~= Seq::<char>::empty());
    }
}

proof fn lemma_grouped_upto(digits: Seq<char>)
    ensures
        grouped_upto(digits, digits.len() as int) == grouped(digits),
    decreases digits.len(),
{
    let n = digits.len() as int;
    if n <= 3 {
        lemma_grouped_upto_small(digits, n);
        assert(digits.take(n) =~= digits);
    } else {
        let head = digits.take(n - 3);
        lemma_grouped_upto(head);
        lemma_grouped_upto_prefix(digits, n - 3);
        let g = grouped_upto(digits, n - 3);
        assert(grouped_upto(digits, n - 2) == g + seq![','] + seq![digits[n - 3]]);
        assert(grouped_upto(digits, n - 1) == g + seq![','] + seq![digits[n - 3]] + seq![
            digits[n - 2],
        ]);
        assert(grouped_upto(digits, n) =~= g + seq![','] + digits.skip(n - 3));
    }
}

/// `digits` with a comma between each group of three, counted from the right.
pub fn group_thousands(digits: &[char]) -> (r: Vec<char>)
    ensures
        r@ == grouped(digits@),
{
    let n = digits.len();
    let mut out: Vec<char> = Vec::new();
    let mut i: usize = 0;
    while i < n
        invariant
            n == digits@.len(),
            i <= n,
            out@ == grouped_upto(digits@, i as int),
        decreases n - i,
    {
        if i > 0 && (n - i) % 3 == 0 {
            out.push(',');
        }
        out.push(digits[i]);
        i = i + 1;
        proof {
            let k = i as int;
            if k - 1 > 0 && (n - (k - 1)) % 3 == 0 {
                assert(out@ =~= grouped_upto(digits@, k - 1) + seq![','] + seq![digits@[k - 1]]);
            } else {
                assert(out@ =~= grouped_upto(digits@, k - 1) + Seq::<char>::empty() + seq![digits@[k - 1]]);
            }
        }
    }
    proof {
        lemma_grouped_upto(digits@);
    }
    out
}

/// The position of the first `.` in `s`, if any.
pub open spec fn first_dot(s: Seq<char>) -> Option<int> {
    if exists|i: int| 0 <= i < s.len() && s[i] == '.' {
        Some(choose|i: int| 0 <= i < s.len() && s[i] == '.' && forall|j: int| 0 <= j < i ==> s[j] != '.')
    } else {
        None
    }
}

/// A signed amount for display, from the rounded text of its magnitude: the whole
/// part grouped in thousands, then `.` and the fraction (`00` when the text has
/// none), with `-` in front of negative amounts.
pub open spec fn amount_text(negative: bool, rounded: Seq<char>) -> Seq<char> {
    let (whole, fraction) = match first_dot(rounded) {
        Some(i) => (rounded.take(i), rounded.skip(i + 1)),
        None => (rounded, seq!['0', '0']),
    };
    let body = grouped(whole) + seq!['.'] + fraction;
    if negative {
        seq!['-'] + body
    } else {
        body
    }
}

/// A signed whole amount for display, from the rounded text of its magnitude:
/// grouped in thousands, with `-` in front of negative amounts.
pub open spec fn whole_amount_text(negative: bool, rounded: Seq<char>) -> Seq<char> {
    if negative {
        seq!['-'] + grouped(rounded)
    } else {
        grouped(rounded)
    }
}

/// Formats an amount from the rounded text of its magnitude (such as `1234.50`).
pub fn format_amount(negative: bool, rounded: &str) -> (r: String)
    ensures
        r@ == amount_text(negative, rounded@),
{
    let chars = chars_of(rounded);
    let n = chars.len();
    let mut i: usize = 0;
    while i < n && chars[i] != '.'
        invariant
            n == chars@.len(),
            i <= n,
            forall|j: int| 0 <= j < i ==> chars@[j] != '.',
        decreases n - i,
    {
        i = i + 1;
    }
    let (whole, fraction): (Vec<char>, Vec<char>) = if i < n {
        assert(first_dot(chars@) == Some(i as int)) by {
            let k = choose|k: int| 0 <= k < chars@.len() && chars@[k] == '.' && forall|j: int| 0 <= j < k ==> chars@[j] != '.';
            assert(k == i);
        }
        (crate::text::copy_range(chars.as_slice(), 0, i), crate::text::copy_range(chars.as_slice(), i + 1, n))
    } else {
        assert(first_dot(chars@) is None);
        assert(chars@.take(n as int) =~= chars@);
        (crate::text::copy_range(chars.as_slice(), 0, n), vec!['0', '0'])
    };
    assert(whole@ =~= match first_dot(chars@) { Some(k) => chars@.take(k), None => chars@ });
    let grouped_whole = group_thousands(whole.as_slice());
    let mut out = String::new();
    if negative {
        crate::text::push_char(&mut out, '-');
    }
    push_chars(&mut out, grouped_whole.as_slice());
    crate::text::push_char(&mut out, '.');
    push_chars(&mut out, fraction.as_slice());
    proof {
        let body = grouped(whole@) + seq!['.'] + fraction@;
        if negative {
            assert(out@ =~= seq!['-'] + body);
        } else {
            assert(out@ =~= body);
        }
        match first_dot(chars@) {
            Some(k) => {
                assert(fraction@ =~= chars@.skip(k + 1));
            },
            None => {
                assert(fraction@ =~= seq!['0', '0']);
            },
        }
    }
    out
}

/// Formats a whole amount from the rounded text of its magnitude (such as `1234`).
pub fn format_whole_amount(negative: bool, rounded: &str) -> (r: String)
    ensures
        r@ == whole_amount_text(negative, rounded@),
{
    let chars = chars_of(rounded);
    let g = group_thousands(chars.as_slice());
    let mut out = String::new();
    if negative {
        crate::text::push_char(&mut out, '-');
    }
    push_chars(&mut out, g.as_slice());
    proof {
        if negative {
            assert(out@ =~= seq!['-'] + grouped(rounded@));
        } else {
            assert(out@ =~= grouped(rounded@));
        }
    }
    out
}

/// `s` without its commas.
pub open spec fn without_commas(s: Seq<char>) -> Seq<char>
    decreases s.len(),
{
    if s.len() == 0 {
        s
    } else if s.last() == ',' {
        without_commas(s.drop_last())
    } else {
        without_commas(s.drop_last()).push(s.last())
    }
}

proof fn lemma_without_commas_concat(a: Seq<char>, b: Seq<char>)
    ensures
        without_commas(a + b) == without_commas(a) + without_commas(b),
    decreases b.len(),
{
    if b.len() == 0 {
        assert(a + b =~= a);
        assert(without_commas(a) + without_commas(b) =~= without_commas(a));
    } else {
        lemma_without_commas_concat(a, b.drop_last());
        assert((a + b).drop_last() =~= a + b.drop_last());
        assert((a + b).last() == b.last());
        if b.last() != ',' {
            assert(without_commas(a) + without_commas(b.drop_last()).push(b.last()) =~= (
            without_commas(a) + without_commas(b.drop_last())).push(b.last()));
        }
    }
}

proof fn lemma_without_commas_plain(s: Seq<char>)
    requires
        forall|i: int| 0 <= i < s.len() ==> s[i] != ',',
    ensures
        without_commas(s) == s,
    decreases s.len(),
{
    if s.len() > 0 {
        lemma_without_commas_plain(s.drop_last());
        assert(s.drop_last().push(s.last()) =~= s);
    }
}

/// Thousands separators only separate: removing the commas from grouped digits
/// gives the digits back.
pub proof fn law_grouping_keeps_digits(digits: Seq<char>)
    requires
        forall|i: int| 0 <= i < digits.len() ==> digits[i] != ',',
    ensures
        without_commas(grouped(digits)) == digits,
    decreases digits.len(),
{
    if digits.len() <= 3 {
        lemma_without_commas_plain(digits);
    } else {
        let n = digits.len() as int;
        let head = digits.take(n - 3);
        let tail = digits.skip(n - 3);
        law_grouping_keeps_digits(head);
        lemma_without_commas_concat(grouped(head) + seq![','], tail);
        lemma_without_commas_concat(grouped(head), seq![',']);
        assert(without_commas(seq![',']) =~= Seq::<char>::empty()) by {
            let c: Seq<char> = seq![','];
            assert(c.last() == ',');
            assert(c.drop_last() =~= Seq::<char>::empty());
            assert(without_commas(c.drop_last()) =~= Seq::<char>::empty());
        }
        lemma_without_commas_plain(tail);
        assert(head + tail =~= digits);
        assert(without_commas(grouped(head)) + Seq::<char>::empty() =~= without_commas(grouped(head)));
    }
}

} // verus!
