//! Decimal notation of unsigned integers.

use vstd::prelude::*;

verus! {

/// The ten decimal digits, in order of their value.
pub open spec fn digits() -> Seq<char> {
    seq!['0', '1', '2', '3', '4', '5', '6', '7', '8', '9']
}

/// The decimal notation of `n`: no sign, no leading zero, `"0"` for zero.
pub open spec fn decimal(n: nat) -> Seq<char>
    decreases n,
{
    if n < 10 {
        seq![digits()[n as int]]
    } else {
        decimal(n / 10).push(digits()[(n % 10) as int])
    }
}

/// The value of the digit `c`.
pub open spec fn digit_value(c: char) -> nat
    recommends
        digits().contains(c),
{
    digits().index_of(c) as nat
}

/// The number that `text`, a sequence of digits, is the decimal notation of.
pub open spec fn number(text: Seq<char>) -> nat
    decreases text.len(),
{
    if text.len() == 0 {
        0
    } else {
        10 * number(text.drop_last()) + digit_value(text.last())
    }
}

/// The digit of value `d` as a string of one character.
fn digit_str(d: u64) -> (s: &'static str)
    requires
        d < 10,
    ensures
        s@ == seq![digits()[d as int]],
{
    proof {
        reveal_strlit("0");
        reveal_strlit("1");
        reveal_strlit("2");
        reveal_strlit("3");
        reveal_strlit("4");
        reveal_strlit("5");
        reveal_strlit("6");
        reveal_strlit("7");
        reveal_strlit("8");
        reveal_strlit("9");
    }
    let s = if d == 0 {
        "0"
    } else if d == 1 {
        "1"
    } else if d == 2 {
        "2"
    } else if d == 3 {
        "3"
    } else if d == 4 {
        "4"
    } else if d == 5 {
        "5"
    } else if d == 6 {
        "6"
    } else if d == 7 {
        "7"
    } else if d == 8 {
        "8"
    } else {
        "9"
    };
    assert(s@ =~= seq![digits()[d as int]]);
    s
}

/// Writes `n` in decimal notation.
pub fn decimal_string(n: u64) -> (text: String)
    ensures
        text@ == decimal(n as nat),
    decreases n,
{
    if n < 10 {
        String::from_str(digit_str(n))
    } else {
        let mut text = decimal_string(n / 10);
        text.append(digit_str(n % 10));
        assert(text@ =~= decimal((n / 10) as nat).push(digits()[(n % 10) as int]));
        text
    }
}

/// The digit at place `d` has the value `d`.
proof fn lemma_digit_value(d: nat)
    requires
        d < 10,
    ensures
        digit_value(digits()[d as int]) == d,
{
    let c = digits()[d as int];
    assert(digits().contains(c));
    let i = digits().index_of(c);
    assert(0 <= i < 10 && digits()[i] == c);
}

/// Decimal notation loses nothing: it is made of digits, it starts with `0`
/// for zero alone, and read as a number it gives `n` back.
pub proof fn lemma_decimal_number(n: nat)
    ensures
        decimal(n).len() >= 1,
        forall|i: int| 0 <= i < decimal(n).len() ==> digits().contains(#[trigger] decimal(n)[i]),
        decimal(n)[0] == '0' <==> n == 0,
        number(decimal(n)) == n,
    decreases n,
{
    let last = digits()[(n % 10) as int];
    lemma_digit_value(n % 10);
    assert(digits().contains(last));
    if n < 10 {
        assert(seq![last].drop_last() =~= Seq::<char>::empty());
        assert(number(seq![last].drop_last()) == 0);
    } else {
        let head = decimal(n / 10);
        lemma_decimal_number(n / 10);
        assert(head.push(last).drop_last() =~= head);
    }
}

} // verus!
