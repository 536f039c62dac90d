//! How numbers are written.

use crate::text::{append_decimal, append_hex, decimal, digit_char, hex_digits};
use vstd::arithmetic::div_mod::lemma_div_denominator;
use vstd::arithmetic::power::{lemma_pow0, lemma_pow1, lemma_pow_adds, lemma_pow_positive, pow};
use vstd::prelude::*;

verus! {

/// The digits of a number, lowest first, are what is left of it on division by
/// the powers of the base.
proof fn lemma_next_digit(value: nat, base: nat, place: nat)
    requires
        base > 1,
    ensures
        pow(base as int, place) > 0,
        pow(base as int, place + 1) == base * pow(base as int, place),
        ((value / base) as int) / pow(base as int, place) == (value as int) / pow(
            base as int,
            place + 1,
        ),
{
    lemma_pow_positive(base as int, place);
    lemma_pow1(base as int);
    lemma_pow_adds(base as int, 1, place);
    lemma_div_denominator(value as int, base as int, pow(base as int, place));
}

proof fn lemma_hex_digits(value: nat, count: nat, place: nat)
    requires
        place < count,
    ensures
        hex_digits(value, count).len() == count,
        hex_digits(value, count)[count - 1 - place] == digit_char(
            ((value as int) / pow(16, place)) % 16,
        ),
    decreases count,
{
    crate::text::law_hex_width(value, count);
    lemma_pow0(16);
    if place > 0 {
        lemma_hex_digits(value / 16, (count - 1) as nat, (place - 1) as nat);
        lemma_next_digit(value, 16, (place - 1) as nat);
        crate::text::law_hex_width(value / 16, (count - 1) as nat);
    } else {
        crate::text::law_hex_width(value / 16, (count - 1) as nat);
    }
}

proof fn lemma_decimal_width(value: nat)
    ensures
        decimal(value).len() > 0,
        (value as int) < pow(10, decimal(value).len()),
        decimal(value).len() > 1 ==> (value as int) >= pow(10, (decimal(value).len() - 1) as nat),
    decreases value,
{
    lemma_pow0(10);
    lemma_pow1(10);
    if value >= 10 {
        lemma_decimal_width(value / 10);
        let width = decimal(value / 10).len();
        lemma_next_digit(value, 10, width);
        lemma_next_digit(value, 10, (width - 1) as nat);
    }
}

proof fn lemma_decimal_digits(value: nat, place: nat)
    requires
        place < decimal(value).len(),
    ensures
        decimal(value)[decimal(value).len() - 1 - place] == digit_char(
            ((value as int) / pow(10, place)) % 10,
        ),
    decreases value,
{
    lemma_pow0(10);
    if place > 0 {
        lemma_decimal_digits(value / 10, (place - 1) as nat);
        lemma_next_digit(value, 10, (place - 1) as nat);
    }
}

/// A digit in base sixteen or below is written as usual: the ten figures in
/// turn, then the letters from `a` on.
pub proof fn law_digits_are_figures_then_letters(digit: int)
    requires
        0 <= digit < 16,
    ensures
        digit < 10 ==> digit_char(digit) as int == '0' as int + digit,
        digit >= 10 ==> digit_char(digit) as int == 'a' as int + (digit - 10),
{
}

/// A number is appended in base sixteen with exactly the width that was asked
/// for, each digit at its place, and the text before it stays.
pub proof fn law_hex_is_positional(text: &mut String, value: u64, count: usize, place: nat)
    requires
        call_ensures(append_hex, (text, value, count), ()),
    ensures
        final(text)@.len() == old(text)@.len() + count,
        final(text)@.take(old(text)@.len() as int) == old(text)@,
        place < count ==> ({
            let digit = ((value as int) / pow(16, place)) % 16;
            let written = final(text)@[final(text)@.len() - 1 - place];
            &&& digit < 10 ==> written as int == '0' as int + digit
            &&& digit >= 10 ==> written as int == 'a' as int + (digit - 10)
        }),
{
    crate::text::law_hex_width(value as nat, count as nat);
    assert(final(text)@.take(old(text)@.len() as int) =~= old(text)@);
    if place < count {
        lemma_hex_digits(value as nat, count as nat, place);
        law_digits_are_figures_then_letters(((value as int) / pow(16, place)) % 16);
    }
}

/// A number is appended in base ten with as many digits as it has, each at its
/// place, and the text before it stays.
pub proof fn law_decimal_is_positional(text: &mut String, value: u64, place: nat)
    requires
        call_ensures(append_decimal, (text, value), ()),
    ensures
        final(text)@.len() > old(text)@.len(),
        final(text)@.take(old(text)@.len() as int) == old(text)@,
        ({
            let width = (final(text)@.len() - old(text)@.len()) as nat;
            &&& (value as int) < pow(10, width)
            &&& width > 1 ==> (value as int) >= pow(10, (width - 1) as nat)
            &&& place < width ==> final(text)@[final(text)@.len() - 1 - place] as int == '0' as int
                + ((value as int) / pow(10, place)) % 10
        }),
{
    lemma_decimal_width(value as nat);
    assert(final(text)@.take(old(text)@.len() as int) =~= old(text)@);
    if place < decimal(value as nat).len() {
        lemma_decimal_digits(value as nat, place);
        law_digits_are_figures_then_letters(((value as int) / pow(10, place)) % 10);
    }
}

/// `text` is `value` in base sixteen, with sixteen digits: each is the remainder
/// at its place, as a figure or as a letter from `a` on.
pub open spec fn is_hex(text: Seq<char>, value: u64) -> bool {
    &&& text.len() == 16
    &&& forall|place: nat|
        place < 16 ==> {
            let digit = ((value as int) / #[trigger] pow(16, place)) % 16;
            let written = text[15 - place] as int;
            &&& digit < 10 ==> written == '0' as int + digit
            &&& digit >= 10 ==> written == 'a' as int + (digit - 10)
        }
}

/// `text` is `value` in base ten, without leading zeros: each digit is the
/// remainder at its place.
pub open spec fn is_decimal(text: Seq<char>, value: nat) -> bool {
    &&& text.len() > 0
    &&& (value as int) < pow(10, text.len())
    &&& text.len() > 1 ==> (value as int) >= pow(10, (text.len() - 1) as nat)
    &&& forall|place: nat|
        place < text.len() ==> text[text.len() - 1 - place] as int == '0' as int + (
        (value as int) / #[trigger] pow(10, place)) % 10
}

pub(crate) proof fn lemma_is_hex(value: u64)
    ensures
        is_hex(crate::text::hex16(value), value),
{
    crate::text::law_hex_width(value as nat, 16);
    assert forall|place: nat| place < 16 implies {
        let digit = ((value as int) / #[trigger] pow(16, place)) % 16;
        let written = crate::text::hex16(value)[15 - place] as int;
        &&& digit < 10 ==> written == '0' as int + digit
        &&& digit >= 10 ==> written == 'a' as int + (digit - 10)
    } by {
        lemma_hex_digits(value as nat, 16, place);
        law_digits_are_figures_then_letters(((value as int) / pow(16, place)) % 16);
    }
}

pub(crate) proof fn lemma_is_decimal(value: nat)
    ensures
        is_decimal(decimal(value), value),
{
    lemma_decimal_width(value);
    assert forall|place: nat| place < decimal(value).len() implies decimal(value)[decimal(
        value,
    ).len() - 1 - place] as int == '0' as int + ((value as int) / #[trigger] pow(10, place)) % 10 by {
        lemma_decimal_digits(value, place);
        law_digits_are_figures_then_letters(((value as int) / pow(10, place)) % 10);
    }
}

} // verus!
