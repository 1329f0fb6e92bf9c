//! Text made of numbers and names.
use vstd::prelude::*;

verus! {

/// `String::push` appends one character.
pub assume_specification[ String::push ](text: &mut String, ch: char)
    ensures
        final(text)@ == old(text)@.push(ch),
;

/// The character of a decimal digit.
pub open spec fn digit(d: nat) -> char {
    (48 + d) as char
}

/// A number in decimal, without leading zeros.
pub open spec fn decimal(n: nat) -> Seq<char>
    decreases n,
{
    if n < 10 {
        seq![digit(n)]
    } else {
        decimal(n / 10).push(digit(n % 10))
    }
}

/// Writes a number in decimal, without leading zeros.
pub fn to_decimal(n: usize) -> (text: String)
    ensures
        text@ == decimal(n as nat),
    decreases n,
{
    let d: u8 = 48 + (n % 10) as u8;
    let mut text = if n < 10 {
        String::new()
    } else {
        to_decimal(n / 10)
    };
    text.push(d as char);
    text
}

/// `text` with each `from` replaced by `to`.
pub open spec fn replaced(text: Seq<char>, from: char, to: char) -> Seq<char> {
    text.map_values(
        |c: char|
            if c == from {
                to
            } else {
                c
            },
    )
}

/// `text` from its second character on, with each `from` replaced by `to`.
pub fn replace_after_first(text: &str, from: char, to: char) -> (res: String)
    requires
        text@.len() > 0,
    ensures
        res@ == replaced(text@.skip(1), from, to),
{
    let mut res = String::new();
    let mut first = true;
    for c in iter: text.chars()
        invariant
            iter.seq() == text@,
            first == (iter.index() == 0),
            res@ == replaced(
                text@.skip(1),
                from,
                to,
            ).take(if first { 0 } else { iter.index() - 1 }),
    {
        if first {
            first = false;
        } else {
            res.push(
                if c == from {
                    to
                } else {
                    c
                },
            );
        }
    }
    res
}

/// A number in decimal ends in its last digit, and has a second one from ten on.
proof fn lemma_decimal_last(n: nat)
    ensures
        decimal(n).len() > 0,
        decimal(n).last() as int == 48 + n % 10,
        decimal(n).len() > 1 <==> n >= 10,
{
    if n >= 10 {
        assert(decimal(n) == decimal(n / 10).push(digit(n % 10)));
        assert(decimal(n / 10).len() > 0);
    }
}

/// Different numbers are written differently.
pub proof fn decimal_is_injective(a: nat, b: nat)
    requires
        decimal(a) == decimal(b),
    ensures
        a == b,
    decreases a,
{
    lemma_decimal_last(a);
    lemma_decimal_last(b);
    if a >= 10 {
        assert(decimal(a).drop_last() =~= decimal(a / 10));
        assert(decimal(b).drop_last() =~= decimal(b / 10));
        decimal_is_injective(a / 10, b / 10);
    }
}

} // verus!
