//! Numbers as text, for the state that devices show to a debugger.

use vstd::prelude::*;

verus! {

/// The digit that stands for a value below ten.
pub open spec fn digit_char(d: int) -> char {
    if d == 0 {
        '0'
    } else if d == 1 {
        '1'
    } else if d == 2 {
        '2'
    } else if d == 3 {
        '3'
    } else if d == 4 {
        '4'
    } else if d == 5 {
        '5'
    } else if d == 6 {
        '6'
    } else if d == 7 {
        '7'
    } else if d == 8 {
        '8'
    } else {
        '9'
    }
}

/// The lowest `n` binary digits of `v`, highest first.
pub open spec fn binary_digits(v: nat, n: nat) -> Seq<char>
    decreases n,
{
    if n == 0 {
        Seq::empty()
    } else {
        binary_digits(v / 2, (n - 1) as nat).push(digit_char((v % 2) as int))
    }
}

/// The number of binary digits that `v` needs; zero needs none.
pub open spec fn binary_length(v: nat) -> nat
    decreases v,
{
    if v == 0 {
        0
    } else {
        1 + binary_length(v / 2)
    }
}

/// `v` in binary, padded with zeros to at least `width` digits.
pub open spec fn binary_text(v: nat, width: nat) -> Seq<char> {
    binary_digits(v, if binary_length(v) > width { binary_length(v) } else { width })
}

/// `v` in decimal, without leading zeros.
pub open spec fn decimal_text(v: nat) -> Seq<char>
    decreases v,
{
    if v < 10 {
        seq![digit_char(v as int)]
    } else {
        decimal_text(v / 10).push(digit_char((v % 10) as int))
    }
}

/// Calls `String::push`, which appends one character.
#[verifier::external_body]
pub(crate) fn push_char(text: &mut String, c: char)
    ensures
        final(text)@ == old(text)@.push(c),
{
    text.push(c);
}

fn digit(d: u8) -> (c: char)
    requires
        d < 10,
    ensures
        c == digit_char(d as int),
{
    if d == 0 {
        '0'
    } else if d == 1 {
        '1'
    } else if d == 2 {
        '2'
    } else if d == 3 {
        '3'
    } else if d == 4 {
        '4'
    } else if d == 5 {
        '5'
    } else if d == 6 {
        '6'
    } else if d == 7 {
        '7'
    } else if d == 8 {
        '8'
    } else {
        '9'
    }
}

fn push_binary_digits(text: &mut String, v: u8, n: u8)
    ensures
        final(text)@ == old(text)@ + binary_digits(v as nat, n as nat),
    decreases n,
{
    if n > 0 {
        push_binary_digits(text, v / 2, n - 1);
        push_char(text, digit(v % 2));
        assert(text@ =~= old(text)@ + binary_digits(v as nat, n as nat));
    } else {
        assert(text@ =~= old(text)@ + binary_digits(v as nat, n as nat));
    }
}

fn length_in_binary(v: u8) -> (n: u8)
    ensures
        n == binary_length(v as nat),
        n <= 8,
    decreases v,
{
    if v == 0 {
        0
    } else {
        let rest = length_in_binary(v / 2);
        assert(rest <= 7) by {
            vstd::arithmetic::power2::lemma2_to64();
            lemma_binary_length_bound((v / 2) as nat, 7);
        }
        1 + rest
    }
}

/// A number below two to the `k` needs at most `k` binary digits.
proof fn lemma_binary_length_bound(v: nat, k: nat)
    requires
        v < vstd::arithmetic::power2::pow2(k),
    ensures
        binary_length(v) <= k,
    decreases k,
{
    vstd::arithmetic::power2::lemma2_to64();
    if v > 0 {
        if k == 0 {
            assert(vstd::arithmetic::power2::pow2(0) == 1);
        } else {
            vstd::arithmetic::power2::lemma_pow2_unfold(k);
            lemma_binary_length_bound(v / 2, (k - 1) as nat);
        }
    }
}

/// Writes a byte in binary, padded with zeros to at least `width` digits.
pub fn binary_string(v: u8, width: u8) -> (text: String)
    ensures
        text@ == binary_text(v as nat, width as nat),
{
    let needed = length_in_binary(v);
    let n = if needed > width { needed } else { width };
    let mut text = String::new();
    push_binary_digits(&mut text, v, n);
    assert(text@ =~= binary_text(v as nat, width as nat));
    text
}

fn push_decimal(text: &mut String, v: u8)
    ensures
        final(text)@ == old(text)@ + decimal_text(v as nat),
    decreases v,
{
    if v >= 10 {
        push_decimal(text, v / 10);
        push_char(text, digit(v % 10));
        assert(text@ =~= old(text)@ + decimal_text(v as nat));
    } else {
        push_char(text, digit(v));
        assert(text@ =~= old(text)@ + decimal_text(v as nat));
    }
}

/// Writes a byte in decimal.
pub fn decimal_string(v: u8) -> (text: String)
    ensures
        text@ == decimal_text(v as nat),
{
    let mut text = String::new();
    push_decimal(&mut text, v);
    assert(text@ =~= decimal_text(v as nat));
    text
}

} // verus!
