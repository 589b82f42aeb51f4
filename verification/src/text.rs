//! Decimal text of port numbers, as a pipeline description spells them.

use vstd::prelude::*;

verus! {

/// The ten decimal digits in order.
pub open spec fn digits() -> Seq<char> {
    "0123456789"@
}

/// The decimal text of `value`, most significant digit first and without leading zeros.
pub open spec fn decimal_text(value: nat) -> Seq<char>
    decreases value,
{
    if value < 10 {
        seq![digits()[value as int]]
    } else {
        decimal_text(value / 10).push(digits()[(value % 10) as int])
    }
}

/// Appends the decimal text of `value` to `out`.
pub fn append_decimal(out: &mut String, value: u16)
    ensures
        final(out)@ == old(out)@ + decimal_text(value as nat),
    decreases value,
{
    if value >= 10 {
        append_decimal(out, value / 10);
    }
    let digit: usize = (value % 10) as usize;
    proof {
        reveal_strlit("0123456789");
    }
    let all = "0123456789";
    let one = all.substring_ascii(digit, digit + 1);
    out.append(one);
}

/// Returns the decimal text of `value`.
pub fn decimal_string(value: u16) -> (text: String)
    ensures
        text@ == decimal_text(value as nat),
{
    let mut text = String::new();
    append_decimal(&mut text, value);
    text
}

/// The decimal text of a 16-bit value has between one and five characters, all of them digits.
pub proof fn lemma_decimal_text_shape(value: nat)
    requires
        value <= u16::MAX,
    ensures
        1 <= decimal_text(value).len() <= 5,
        forall|i: int|
            0 <= i < decimal_text(value).len() ==> '0' <= #[trigger] decimal_text(value)[i] <= '9',
{
    reveal_strlit("0123456789");
    reveal_with_fuel(decimal_text, 6);
}

/// The last character of a decimal text is the digit of the ones.
pub proof fn lemma_decimal_text_last(value: nat)
    ensures
        decimal_text(value).len() >= 1,
        decimal_text(value).last() == digits()[(value % 10) as int],
{
}

/// Different values have different decimal texts.
pub proof fn lemma_decimal_text_injective(first: nat, second: nat)
    requires
        decimal_text(first) == decimal_text(second),
    ensures
        first == second,
    decreases first,
{
    reveal_strlit("0123456789");
    lemma_decimal_text_last(first);
    lemma_decimal_text_last(second);
    if first < 10 {
        if second >= 10 {
            lemma_decimal_text_last(second / 10);
        }
    } else {
        if second < 10 {
            lemma_decimal_text_last(first / 10);
        } else {
            assert(decimal_text(first).drop_last() =~= decimal_text(first / 10));
            assert(decimal_text(second).drop_last() =~= decimal_text(second / 10));
            lemma_decimal_text_injective(first / 10, second / 10);
        }
    }
}

} // verus!
