//! Time spans as the transcoder writes them: `H:MM:SS.F`.

use vstd::prelude::*;
use vstd::slice::slice_subrange;

use crate::progress::Percentage;
use crate::text::{
    all_digits, chars_of, decimal_value, find_char, is_digit, lemma_decimal_value_bound,
    lemma_first_occurrence, parse_decimal, pow10,
};

verus! {

/// A time span read from the transcoder's output.
///
/// `seconds` is the whole-second part, `hours * 3600 + minutes * 60 +
/// seconds` of the text. `fraction` holds the digits after the decimal point
/// read as one integer. The span adds the *reciprocal* of that integer to the
/// whole seconds, and nothing where the integer is zero: `00:00:01.500000`
/// stands for one second and one 500000th.
#[derive(Debug, Clone, Copy, PartialEq, Eq, Structural)]
pub struct FFMpegDuration {
    pub seconds: u64,
    pub fraction: u32,
}

/// The text is no time span of the form `H:MM:SS.F`.
#[derive(Debug, Clone, Copy, PartialEq, Eq, Structural)]
pub struct FFMpegDurationParseError;

/// The digits of the hours field of `s`, whose first colon is at `h`.
pub open spec fn hours_text(s: Seq<char>, h: int) -> Seq<char> {
    s.subrange(0, h)
}

/// The digits of the minutes field of `s`, whose first colon is at `h`.
pub open spec fn minutes_text(s: Seq<char>, h: int) -> Seq<char> {
    s.subrange(h + 1, h + 3)
}

/// The digits of the seconds field of `s`, whose first colon is at `h`.
pub open spec fn seconds_text(s: Seq<char>, h: int) -> Seq<char> {
    s.subrange(h + 4, h + 6)
}

/// The digits of the fraction field of `s`, whose first colon is at `h`.
pub open spec fn fraction_text(s: Seq<char>, h: int) -> Seq<char> {
    s.subrange(h + 7, s.len() as int)
}

/// Whether `s`, whose first colon is at `h`, is laid out as `H:MM:SS.F`: at
/// least one digit of hours, two of minutes, two of seconds and two to six of
/// fraction, with a colon, a colon and a point between them.
pub open spec fn has_duration_layout(s: Seq<char>, h: int) -> bool {
    &&& 1 <= h
    &&& h + 9 <= s.len() <= h + 13
    &&& s[h + 3] == ':'
    &&& s[h + 6] == '.'
    &&& all_digits(hours_text(s, h))
    &&& all_digits(minutes_text(s, h))
    &&& all_digits(seconds_text(s, h))
    &&& all_digits(fraction_text(s, h))
}

/// The whole seconds that `s`, whose first colon is at `h`, stands for.
pub open spec fn whole_seconds_of(s: Seq<char>, h: int) -> nat {
    decimal_value(hours_text(s, h)) * 3600 + decimal_value(minutes_text(s, h)) * 60
        + decimal_value(seconds_text(s, h))
}

/// The time span that the text `s` stands for, and `None` where `s` is not of
/// the form `H:MM:SS.F` or its whole seconds do not fit 64 bits.
pub open spec fn duration_of_text(s: Seq<char>) -> Option<FFMpegDuration> {
    match s.index_of_first(':') {
        Some(h) => if has_duration_layout(s, h) && whole_seconds_of(s, h) <= u64::MAX {
            Some(
                FFMpegDuration {
                    seconds: whole_seconds_of(s, h) as u64,
                    fraction: decimal_value(fraction_text(s, h)) as u32,
                },
            )
        } else {
            None
        },
        None => None,
    }
}

/// The text made of the four fields and their separators.
pub open spec fn duration_text(
    hours: Seq<char>,
    minutes: Seq<char>,
    seconds: Seq<char>,
    fraction: Seq<char>,
) -> Seq<char> {
    hours + seq![':'] + minutes + seq![':'] + seconds + seq!['.'] + fraction
}

/// Whether the four fields have the widths of `H:MM:SS.F` and hold only
/// digits.
pub open spec fn duration_fields_valid(
    hours: Seq<char>,
    minutes: Seq<char>,
    seconds: Seq<char>,
    fraction: Seq<char>,
) -> bool {
    &&& hours.len() >= 1
    &&& minutes.len() == 2
    &&& seconds.len() == 2
    &&& 2 <= fraction.len() <= 6
    &&& all_digits(hours)
    &&& all_digits(minutes)
    &&& all_digits(seconds)
    &&& all_digits(fraction)
}

/// Every text of the form `H:MM:SS.F` whose whole seconds fit 64 bits stands
/// for a time span: its whole seconds are `hours * 3600 + minutes * 60 +
/// seconds`, its fraction is the fraction digits read as one integer. The
/// same text always stands for the same span.
pub proof fn lemma_valid_text_parses(
    hours: Seq<char>,
    minutes: Seq<char>,
    seconds: Seq<char>,
    fraction: Seq<char>,
)
    requires
        duration_fields_valid(hours, minutes, seconds, fraction),
        decimal_value(hours) * 3600 + decimal_value(minutes) * 60 + decimal_value(seconds)
            <= u64::MAX,
    ensures
        duration_of_text(duration_text(hours, minutes, seconds, fraction)) == Some(
            FFMpegDuration {
                seconds: (decimal_value(hours) * 3600 + decimal_value(minutes) * 60
                    + decimal_value(seconds)) as u64,
                fraction: decimal_value(fraction) as u32,
            },
        ),
{
    let s = duration_text(hours, minutes, seconds, fraction);
    let h = hours.len() as int;
    assert(s[h] == ':');
    assert forall|j: int| 0 <= j < h implies s[j] != ':' by {
        assert(s[j] == hours[j]);
        assert(is_digit(hours[j]));
    }
    lemma_first_occurrence(s, ':', h);
    assert(hours_text(s, h) == hours);
    assert(minutes_text(s, h) == minutes);
    assert(seconds_text(s, h) == seconds);
    assert(fraction_text(s, h) == fraction);
}

/// A text without a decimal point, a text without a colon and a text that
/// holds anything but digits, colons and points stand for no time span.
pub proof fn lemma_malformed_text_is_rejected(s: Seq<char>)
    requires
        !s.contains('.') || !s.contains(':') || exists|i: int|
            0 <= i < s.len() && !is_digit(#[trigger] s[i]) && s[i] != ':' && s[i] != '.',
    ensures
        duration_of_text(s) is None,
{
    s.index_of_first_ensures(':');
    if let Some(h) = s.index_of_first(':') {
        if has_duration_layout(s, h) {
            assert(s[h + 6] == '.');
            assert(s.contains('.'));
            let i = choose|i: int|
                0 <= i < s.len() && !is_digit(#[trigger] s[i]) && s[i] != ':' && s[i] != '.';
            if i < h {
                assert(hours_text(s, h)[i] == s[i]);
            } else if h < i < h + 3 {
                assert(minutes_text(s, h)[i - h - 1] == s[i]);
            } else if h + 3 < i < h + 6 {
                assert(seconds_text(s, h)[i - h - 4] == s[i]);
            } else if h + 6 < i {
                assert(fraction_text(s, h)[i - h - 7] == s[i]);
            }
        }
    }
}

impl FFMpegDuration {
    /// The number of equal parts into which the span divides a second: the
    /// fraction digits read as one integer, and one where that integer is
    /// zero.
    pub open spec fn scale(&self) -> nat {
        if self.fraction == 0 {
            1
        } else {
            self.fraction as nat
        }
    }

    /// The length of the span counted in parts of a second, `scale()` of
    /// which make a second: the whole seconds, and one part more where the
    /// fraction digits are not zero.
    pub open spec fn ticks(&self) -> nat {
        if self.fraction == 0 {
            self.seconds as nat
        } else {
            (self.seconds * self.fraction + 1) as nat
        }
    }

    /// The share of `total` that this span covers, as an exact fraction.
    ///
    /// The share is unknown where `total` is zero, and is one where the span
    /// is at least as long as `total`.
    pub open spec fn spec_share_of(&self, total: FFMpegDuration) -> Percentage {
        let numerator = self.ticks() * total.scale();
        let denominator = self.scale() * total.ticks();
        if total.ticks() == 0 {
            Percentage::Unknown
        } else if numerator >= denominator {
            Percentage::Known { numerator: 1, denominator: 1 }
        } else {
            Percentage::Known { numerator: numerator as u128, denominator: denominator as u128 }
        }
    }

    /// Computes the share of `total` that this span covers.
    pub fn share_of(&self, total: &FFMpegDuration) -> (share: Percentage)
        ensures
            share == self.spec_share_of(*total),
            share.wf(),
    {
        let own_scale: u128 = if self.fraction == 0 {
            1
        } else {
            self.fraction as u128
        };
        let total_scale: u128 = if total.fraction == 0 {
            1
        } else {
            total.fraction as u128
        };
        proof {
            lemma_product_bound(self.seconds as nat, own_scale as nat, 0x1_0000_0000_0000_0000, 0x1_0000_0000);
            lemma_product_bound(total.seconds as nat, total_scale as nat, 0x1_0000_0000_0000_0000, 0x1_0000_0000);
        }
        let own_ticks: u128 = self.seconds as u128 * own_scale + if self.fraction == 0 {
            0
        } else {
            1
        };
        let total_ticks: u128 = total.seconds as u128 * total_scale + if total.fraction == 0 {
            0
        } else {
            1
        };
        proof {
            lemma_product_bound(own_ticks as nat, total_scale as nat, 0x1_0000_0000_0000_0000_0000_0000, 0x1_0000_0000);
            lemma_product_bound(total_ticks as nat, own_scale as nat, 0x1_0000_0000_0000_0000_0000_0000, 0x1_0000_0000);
            assert(own_scale * total_ticks == total_ticks * own_scale) by (nonlinear_arith);
        }
        let numerator: u128 = own_ticks * total_scale;
        let denominator: u128 = own_scale * total_ticks;
        if total_ticks == 0 {
            Percentage::Unknown
        } else if numerator >= denominator {
            Percentage::Known { numerator: 1, denominator: 1 }
        } else {
            Percentage::Known { numerator, denominator }
        }
    }

    /// Reads a time span of the form `H:MM:SS.F`.
    ///
    /// Any other text, and a span whose whole seconds do not fit 64 bits, is
    /// an error.
    pub fn from_str(s: &str) -> (parsed: Result<FFMpegDuration, FFMpegDurationParseError>)
        ensures
            parsed == match duration_of_text(s@) {
                Some(duration) => Ok::<FFMpegDuration, FFMpegDurationParseError>(duration),
                None => Err(FFMpegDurationParseError),
            },
    {
        let chars = chars_of(s);
        let len = chars.len();
        let h = match find_char(chars.as_slice(), ':') {
            Some(h) => h,
            None => {
                return Err(FFMpegDurationParseError);
            },
        };
        if h == 0 || len - h < 9 || len - h > 13 {
            return Err(FFMpegDurationParseError);
        }
        if chars[h + 3] != ':' || chars[h + 6] != '.' {
            return Err(FFMpegDurationParseError);
        }
        let ghost text = chars@;
        let hours = parse_decimal(slice_subrange(chars.as_slice(), 0, h));
        let minutes = parse_decimal(slice_subrange(chars.as_slice(), h + 1, h + 3));
        let seconds = parse_decimal(slice_subrange(chars.as_slice(), h + 4, h + 6));
        let fraction = parse_decimal(slice_subrange(chars.as_slice(), h + 7, len));
        proof {
            if all_digits(minutes_text(text, h as int)) {
                lemma_decimal_value_bound(minutes_text(text, h as int));
            }
            if all_digits(seconds_text(text, h as int)) {
                lemma_decimal_value_bound(seconds_text(text, h as int));
            }
            if all_digits(fraction_text(text, h as int)) {
                lemma_decimal_value_bound(fraction_text(text, h as int));
            }
            assert(pow10(2) == 100 && pow10(6) == 1_000_000) by {
                reveal_with_fuel(pow10, 7);
            }
            lemma_pow10_grows(fraction_text(text, h as int).len(), 6);
        }
        match (hours, minutes, seconds, fraction) {
            (Some(hours), Some(minutes), Some(seconds), Some(fraction)) => {
                let whole = match hours.checked_mul(3600) {
                    Some(in_hours) => in_hours.checked_add(minutes * 60 + seconds),
                    None => None,
                };
                match whole {
                    Some(whole) => Ok(
                        FFMpegDuration { seconds: whole, fraction: fraction as u32 },
                    ),
                    None => Err(FFMpegDurationParseError),
                }
            },
            _ => Err(FFMpegDurationParseError),
        }
    }
}

/// The share that one span covers of another is unknown or lies between zero
/// and one.
pub proof fn lemma_share_is_sound(elapsed: FFMpegDuration, total: FFMpegDuration)
    ensures
        elapsed.spec_share_of(total).wf(),
{
    lemma_product_bound(elapsed.seconds as nat, elapsed.scale(), 0x1_0000_0000_0000_0000, 0x1_0000_0000);
    lemma_product_bound(total.seconds as nat, total.scale(), 0x1_0000_0000_0000_0000, 0x1_0000_0000);
    lemma_product_bound(elapsed.ticks(), total.scale(), 0x1_0000_0000_0000_0000_0000_0000, 0x1_0000_0000);
    lemma_product_bound(elapsed.scale(), total.ticks(), 0x1_0000_0000, 0x1_0000_0000_0000_0000_0000_0000);
}

/// Two numbers below their bounds have a product below the bounds' product.
proof fn lemma_product_bound(a: nat, b: nat, a_bound: nat, b_bound: nat)
    by (nonlinear_arith)
    requires
        a < a_bound,
        b < b_bound,
    ensures
        a * b <= (a_bound - 1) * (b_bound - 1),
{
}

/// Powers of ten grow with the exponent.
proof fn lemma_pow10_grows(a: nat, b: nat)
    requires
        a <= b,
    ensures
        pow10(a) <= pow10(b),
    decreases b,
{
    if a < b {
        lemma_pow10_grows(a, (b - 1) as nat);
    }
}

} // verus!
