//! Decimal numbers, read from the text the source renders them to.

use crate::error::FailureKind;
use vstd::prelude::*;

verus! {

/// Largest number of digits a decimal can have.
pub const MAX_PRECISION: u8 = 38;

/// Whether `byte` is one of the ASCII digits.
pub open spec fn is_digit(byte: u8) -> bool {
    48 <= byte <= 57
}

/// Whether `byte` is the decimal point.
pub open spec fn is_point(byte: u8) -> bool {
    byte == 46
}

/// The number the digits of `text` spell, whatever else stands between them.
pub open spec fn digits_value(text: Seq<u8>) -> nat
    decreases text.len(),
{
    if text.len() == 0 {
        0
    } else if is_digit(text.last()) {
        (digits_value(text.drop_last()) * 10 + (text.last() - 48)) as nat
    } else {
        digits_value(text.drop_last())
    }
}

/// How many digits `text` holds.
pub open spec fn count_digits(text: Seq<u8>) -> nat
    decreases text.len(),
{
    if text.len() == 0 {
        0
    } else if is_digit(text.last()) {
        count_digits(text.drop_last()) + 1
    } else {
        count_digits(text.drop_last())
    }
}

/// How many decimal points `text` holds.
pub open spec fn count_points(text: Seq<u8>) -> nat
    decreases text.len(),
{
    if text.len() == 0 {
        0
    } else if is_point(text.last()) {
        count_points(text.drop_last()) + 1
    } else {
        count_points(text.drop_last())
    }
}

/// How many digits follow the last decimal point of `text`; zero if it has none.
pub open spec fn fraction_digits(text: Seq<u8>) -> nat
    decreases text.len(),
{
    if text.len() == 0 || is_point(text.last()) || count_points(text.drop_last()) == 0 {
        0
    } else if is_digit(text.last()) {
        fraction_digits(text.drop_last()) + 1
    } else {
        fraction_digits(text.drop_last())
    }
}

/// Whether `text` starts with a sign.
pub open spec fn has_sign(text: Seq<u8>) -> bool {
    text.len() > 0 && (text[0] == 45 || text[0] == 43)
}

/// Whether `text` starts with a minus sign.
pub open spec fn is_negative(text: Seq<u8>) -> bool {
    text.len() > 0 && text[0] == 45
}

/// `text` without its sign.
pub open spec fn unsigned_part(text: Seq<u8>) -> Seq<u8> {
    if has_sign(text) {
        text.skip(1)
    } else {
        text
    }
}

/// Whether `body` is an unsigned decimal number: digits, at least one of them, with at most
/// one decimal point anywhere among them.
pub open spec fn is_unsigned_decimal(body: Seq<u8>) -> bool {
    &&& forall|i: int| 0 <= i < body.len() ==> is_digit(#[trigger] body[i]) || is_point(body[i])
    &&& count_digits(body) >= 1
    &&& count_points(body) <= 1
}

/// Ten to the power of `exponent`.
pub open spec fn pow10(exponent: nat) -> nat
    decreases exponent,
{
    if exponent == 0 {
        1
    } else {
        10 * pow10((exponent - 1) as nat)
    }
}

/// The integer that stands for the decimal number `text` in a column of the given precision
/// and scale: the number times ten to the power of `scale`. Text that is no decimal number,
/// or has more digits behind the point than `scale`, is an invalid value. A number of more
/// than `precision` digits overflows.
pub open spec fn scaled_decimal(text: Seq<u8>, precision: nat, scale: nat) -> Result<
    int,
    FailureKind,
> {
    let body = unsigned_part(text);
    if !is_unsigned_decimal(body) || fraction_digits(body) > scale {
        Err(FailureKind::InvalidValue)
    } else {
        let magnitude = digits_value(body) * pow10((scale - fraction_digits(body)) as nat);
        if magnitude >= pow10(precision) {
            Err(FailureKind::Overflow)
        } else if is_negative(text) {
            Ok(-magnitude)
        } else {
            Ok(magnitude as int)
        }
    }
}

proof fn lemma_pow10_increases(low: nat, high: nat)
    requires
        low <= high,
    ensures
        1 <= pow10(low) <= pow10(high),
    decreases high,
{
    if low < high {
        lemma_pow10_increases(low, (high - 1) as nat);
    } else if low > 0 {
        lemma_pow10_increases((low - 1) as nat, (high - 1) as nat);
    }
}

proof fn lemma_pow10_of_38()
    ensures
        pow10(37) == 10_000_000_000_000_000_000_000_000_000_000_000_000,
        pow10(38) == 100_000_000_000_000_000_000_000_000_000_000_000_000,
{
    reveal_with_fuel(pow10, 20);
    assert(pow10(19) == 10_000_000_000_000_000_000);
    assert(pow10(37) == 10_000_000_000_000_000_000_000_000_000_000_000_000);
}

/// The powers of ten that bound the integers of 32 and of 64 bits.
pub proof fn lemma_pow10_of_9_and_18()
    ensures
        pow10(9) == 1_000_000_000,
        pow10(18) == 1_000_000_000_000_000_000,
        pow10(19) == 10_000_000_000_000_000_000,
{
    reveal_with_fuel(pow10, 20);
}

/// A scaled decimal has no more digits than the precision allows.
pub proof fn lemma_scaled_decimal_is_bounded(text: Seq<u8>, precision: nat, scale: nat)
    ensures
        scaled_decimal(text, precision, scale) matches Ok(number) ==> -pow10(precision) < number
            < pow10(precision),
{
}

/// A precision that is no larger gives a bound that is no larger.
pub proof fn lemma_pow10_is_monotonic(low: nat, high: nat)
    requires
        low <= high,
    ensures
        1 <= pow10(low) <= pow10(high),
{
    lemma_pow10_increases(low, high);
}

proof fn lemma_prefix_step(text: Seq<u8>, end: int)
    requires
        0 <= end < text.len(),
    ensures
        text.take(end + 1).drop_last() == text.take(end),
        text.take(end + 1).last() == text[end],
        text.take(text.len() as int) == text,
{
}

proof fn lemma_points_of_prefix(text: Seq<u8>, end: int)
    requires
        0 <= end <= text.len(),
    ensures
        count_points(text.take(end)) <= count_points(text),
    decreases text.len() - end,
{
    if end < text.len() {
        lemma_prefix_step(text, end);
        lemma_points_of_prefix(text, end + 1);
    } else {
        assert(text.take(end) == text);
    }
}

/// Ten to the power of `exponent`.
pub fn ten_to(exponent: u8) -> (power: u128)
    requires
        exponent <= MAX_PRECISION,
    ensures
        power == pow10(exponent as nat),
{
    let mut power: u128 = 1;
    let mut done: u8 = 0;
    while done < exponent
        invariant
            done <= exponent <= MAX_PRECISION,
            power == pow10(done as nat),
        decreases exponent - done,
    {
        proof {
            lemma_pow10_increases(done as nat, 37);
            lemma_pow10_of_38();
        }
        power = power * 10;
        done = done + 1;
    }
    power
}

/// Reads a decimal number from `text` and scales it to an integer.
pub fn parse_decimal(text: &Vec<u8>, precision: u8, scale: u8) -> (value: Result<
    i128,
    FailureKind,
>)
    requires
        1 <= precision <= MAX_PRECISION,
        scale <= precision,
    ensures
        match value {
            Ok(number) => scaled_decimal(text@, precision as nat, scale as nat) == Ok::<
                int,
                FailureKind,
            >(number as int),
            Err(kind) => scaled_decimal(text@, precision as nat, scale as nat) == Err::<
                int,
                FailureKind,
            >(kind),
        },
{
    let len = text.len();
    let start: usize = if len > 0 && (text[0] == 45 || text[0] == 43) {
        1
    } else {
        0
    };
    let negative = len > 0 && text[0] == 45;
    let ghost body = unsigned_part(text@);
    assert(body == text@.skip(start as int));
    let ceiling = ten_to(37);
    let mut value: u128 = 0;
    let mut too_large = false;
    let mut digits: usize = 0;
    let mut points: usize = 0;
    let mut fraction: usize = 0;
    let mut at: usize = start;
    proof {
        lemma_pow10_of_38();
    }
    while at < len
        invariant
            start <= at <= len,
            len == text.len(),
            body == text@.skip(start as int),
            body == unsigned_part(text@),
            ceiling == pow10(37),
            pow10(37) == 10_000_000_000_000_000_000_000_000_000_000_000_000,
            forall|i: int|
                0 <= i < at - start ==> is_digit(#[trigger] body[i]) || is_point(body[i]),
            digits == count_digits(body.take(at - start)),
            points == count_points(body.take(at - start)),
            fraction == fraction_digits(body.take(at - start)),
            digits <= at,
            fraction <= at,
            points <= 1,
            !too_large ==> value == digits_value(body.take(at - start)) && value < 10 * pow10(37),
            too_large ==> digits_value(body.take(at - start)) >= 10 * pow10(37),
        decreases len - at,
    {
        let byte = text[at];
        proof {
            lemma_prefix_step(body, at - start);
            assert(body[at - start] == byte);
        }
        if 48 <= byte && byte <= 57 {
            if !too_large {
                if value >= ceiling {
                    too_large = true;
                } else {
                    value = value * 10 + (byte - 48) as u128;
                }
            }
            digits = digits + 1;
            if points > 0 {
                fraction = fraction + 1;
            }
        } else if byte == 46 {
            if points >= 1 {
                proof {
                    lemma_points_of_prefix(body, at - start + 1);
                    assert(count_points(body.take(at - start + 1)) == points + 1);
                    assert(!is_unsigned_decimal(body));
                }
                return Err(FailureKind::InvalidValue);
            }
            points = points + 1;
            fraction = 0;
        } else {
            proof {
                assert(!is_digit(body[at - start]) && !is_point(body[at - start]));
                assert(!is_unsigned_decimal(body));
            }
            return Err(FailureKind::InvalidValue);
        }
        at = at + 1;
    }
    proof {
        assert(body.take(at - start) == body);
    }
    if digits == 0 || fraction > scale as usize {
        return Err(FailureKind::InvalidValue);
    }
    let ghost shift = (scale - fraction) as nat;
    proof {
        lemma_pow10_increases(shift, 38);
        lemma_pow10_increases(0, shift);
        lemma_pow10_increases(precision as nat, 38);
    }
    if too_large {
        proof {
            assert(digits_value(body) * pow10(shift) >= 10 * pow10(37)) by (nonlinear_arith)
                requires
                    digits_value(body) >= 10 * pow10(37),
                    pow10(shift) >= 1,
            ;
        }
        return Err(FailureKind::Overflow);
    }
    let factor = ten_to(scale - fraction as u8);
    let limit = ten_to(precision);
    match value.checked_mul(factor) {
        None => Err(FailureKind::Overflow),
        Some(magnitude) => {
            if magnitude >= limit {
                Err(FailureKind::Overflow)
            } else if negative {
                Ok(-(magnitude as i128))
            } else {
                Ok(magnitude as i128)
            }
        },
    }
}

/// Two to the power of 128.
pub open spec fn two_to_128() -> nat {
    0x1_0000_0000_0000_0000_0000_0000_0000_0000nat
}

/// 256 to the power of `exponent`.
pub open spec fn pow256(exponent: nat) -> nat
    decreases exponent,
{
    if exponent == 0 {
        1
    } else {
        256 * pow256((exponent - 1) as nat)
    }
}

/// The 16 bytes of `value` in two's complement, most significant byte first.
pub open spec fn be_bytes(value: int) -> Seq<u8> {
    let unsigned = if value < 0 {
        value + two_to_128()
    } else {
        value
    };
    Seq::new(16, |k: int| ((unsigned / pow256((15 - k) as nat) as int) % 256) as u8)
}

proof fn lemma_pow256_positive(exponent: nat)
    ensures
        pow256(exponent) >= 1,
    decreases exponent,
{
    if exponent > 0 {
        lemma_pow256_positive((exponent - 1) as nat);
    }
}

/// A decimal as the 16 bytes of its scaled integer, most significant byte first.
pub fn decimal_bytes(value: i128) -> (bytes: Vec<u8>)
    ensures
        bytes@ == be_bytes(value as int),
{
    let unsigned: u128 = if value < 0 {
        ((value + i128::MAX) + 1) as u128 + 0x8000_0000_0000_0000_0000_0000_0000_0000
    } else {
        value as u128
    };
    let mut bytes: Vec<u8> = vec![0u8; 16];
    let mut rest: u128 = unsigned;
    let mut k: usize = 0;
    assert(pow256(0) == 1);
    while k < 16
        invariant
            k <= 16,
            bytes.len() == 16,
            rest == unsigned as int / pow256(k as nat) as int,
            unsigned == (if value < 0 {
                value + two_to_128()
            } else {
                value as int
            }),
            forall|j: int|
                16 - k <= j < 16 ==> bytes[j] == ((unsigned as int / pow256((15 - j) as nat) as int)
                    % 256) as u8,
        decreases 16 - k,
    {
        proof {
            lemma_pow256_positive(k as nat);
            vstd::arithmetic::div_mod::lemma_div_denominator(
                unsigned as int,
                pow256(k as nat) as int,
                256,
            );
            assert(pow256((k + 1) as nat) == 256 * pow256(k as nat));
            assert(pow256(k as nat) as int * 256 == 256 * pow256(k as nat)) by (nonlinear_arith);
        }
        bytes.set(15 - k, (rest % 256) as u8);
        rest = rest / 256;
        k = k + 1;
    }
    assert(bytes@ =~= be_bytes(value as int));
    bytes
}

} // verus!
