use vpaas::duration::{FFMpegDuration, FFMpegDurationParseError};
use vpaas::progress::Percentage;

fn parse(text: &str) -> Result<FFMpegDuration, FFMpegDurationParseError> {
    FFMpegDuration::from_str(text)
}

fn span(seconds: u64, fraction: u32) -> FFMpegDuration {
    FFMpegDuration { seconds, fraction }
}

#[test]
fn example_has_3723_whole_seconds() {
    let parsed = parse("01:02:03.500000").unwrap();
    assert_eq!(parsed.seconds, 3723);
}

#[test]
fn example_keeps_fraction_digits_as_one_integer() {
    let parsed = parse("01:02:03.500000").unwrap();
    assert_eq!(parsed.fraction, 500000);
    assert_eq!(parsed, span(3723, 500000));
}

#[test]
fn parsing_twice_gives_the_same_span() {
    assert_eq!(parse("12:34:56.789"), parse("12:34:56.789"));
    assert_eq!(parse("12:34:56.789"), Ok(span(12 * 3600 + 34 * 60 + 56, 789)));
}

#[test]
fn zero_fraction_adds_nothing() {
    assert_eq!(parse("00:01:00.00"), Ok(span(60, 0)));
}

#[test]
fn leading_zeros_of_the_fraction_do_not_count() {
    assert_eq!(parse("00:00:01.05"), Ok(span(1, 5)));
    assert_eq!(parse("00:00:01.000005"), Ok(span(1, 5)));
}

#[test]
fn hours_may_be_one_digit_or_many() {
    assert_eq!(parse("1:00:00.00"), Ok(span(3600, 0)));
    assert_eq!(parse("100:00:00.00"), Ok(span(360_000, 0)));
    assert_eq!(parse("0000000000000000000000001:00:00.00"), Ok(span(3600, 0)));
}

#[test]
fn minutes_and_seconds_above_59_are_taken_as_written() {
    assert_eq!(parse("00:99:99.00"), Ok(span(99 * 60 + 99, 0)));
}

#[test]
fn fraction_of_two_to_six_digits_is_accepted() {
    assert_eq!(parse("00:00:00.12"), Ok(span(0, 12)));
    assert_eq!(parse("00:00:00.123"), Ok(span(0, 123)));
    assert_eq!(parse("00:00:00.1234"), Ok(span(0, 1234)));
    assert_eq!(parse("00:00:00.12345"), Ok(span(0, 12345)));
    assert_eq!(parse("00:00:00.999999"), Ok(span(0, 999999)));
}

#[test]
fn fraction_of_one_or_seven_digits_is_rejected() {
    assert_eq!(parse("00:00:00.1"), Err(FFMpegDurationParseError));
    assert_eq!(parse("00:00:00.1234567"), Err(FFMpegDurationParseError));
}

#[test]
fn missing_fraction_is_rejected() {
    assert_eq!(parse("01:02:03"), Err(FFMpegDurationParseError));
    assert_eq!(parse("01:02:03."), Err(FFMpegDurationParseError));
}

#[test]
fn missing_colon_is_rejected() {
    assert_eq!(parse("0102:03.50"), Err(FFMpegDurationParseError));
    assert_eq!(parse("01:0203.50"), Err(FFMpegDurationParseError));
    assert_eq!(parse("010203.50"), Err(FFMpegDurationParseError));
}

#[test]
fn wrong_separator_is_rejected() {
    assert_eq!(parse("01:02:03,50"), Err(FFMpegDurationParseError));
    assert_eq!(parse("01-02-03.50"), Err(FFMpegDurationParseError));
    assert_eq!(parse("01:02.03:50"), Err(FFMpegDurationParseError));
}

#[test]
fn non_digit_component_is_rejected() {
    assert_eq!(parse("aa:02:03.50"), Err(FFMpegDurationParseError));
    assert_eq!(parse("01:b2:03.50"), Err(FFMpegDurationParseError));
    assert_eq!(parse("01:02:0c.50"), Err(FFMpegDurationParseError));
    assert_eq!(parse("01:02:03.5d"), Err(FFMpegDurationParseError));
    assert_eq!(parse("+1:02:03.50"), Err(FFMpegDurationParseError));
    assert_eq!(parse("-01:02:03.50"), Err(FFMpegDurationParseError));
    assert_eq!(parse("01:02:03.50 "), Err(FFMpegDurationParseError));
    assert_eq!(parse(" 01:02:03.50"), Err(FFMpegDurationParseError));
    assert_eq!(parse("०१:02:03.50"), Err(FFMpegDurationParseError));
}

#[test]
fn wrong_field_widths_are_rejected() {
    assert_eq!(parse(":02:03.50"), Err(FFMpegDurationParseError));
    assert_eq!(parse("01:2:03.50"), Err(FFMpegDurationParseError));
    assert_eq!(parse("01:002:03.50"), Err(FFMpegDurationParseError));
    assert_eq!(parse("01:02:3.50"), Err(FFMpegDurationParseError));
    assert_eq!(parse("01:02:003.50"), Err(FFMpegDurationParseError));
}

#[test]
fn empty_and_unrelated_text_is_rejected() {
    assert_eq!(parse(""), Err(FFMpegDurationParseError));
    assert_eq!(parse("N/A"), Err(FFMpegDurationParseError));
    assert_eq!(parse("continue"), Err(FFMpegDurationParseError));
}

#[test]
fn largest_span_that_fits_is_accepted() {
    // 5124095576030431 * 3600 + 15 = u64::MAX
    assert_eq!(parse("5124095576030431:00:15.00"), Ok(span(u64::MAX, 0)));
}

#[test]
fn span_that_does_not_fit_is_rejected() {
    assert_eq!(parse("5124095576030431:00:16.00"), Err(FFMpegDurationParseError));
    assert_eq!(parse("5124095576030432:00:00.00"), Err(FFMpegDurationParseError));
    assert_eq!(parse("99999999999999999999999:00:00.00"), Err(FFMpegDurationParseError));
}

#[test]
fn half_of_the_total_is_one_half() {
    let share = span(30, 0).share_of(&span(60, 0));
    assert_eq!(share, Percentage::Known { numerator: 30, denominator: 60 });
}

#[test]
fn share_counts_the_reciprocal_of_the_fraction() {
    // elapsed = 1 + 1/4 s = 5/4 s, total = 2 + 1/2 s = 5/2 s: one half.
    let share = span(1, 4).share_of(&span(2, 2));
    assert_eq!(share, Percentage::Known { numerator: 10, denominator: 20 });
}

#[test]
fn share_of_mixed_fractions() {
    // elapsed = 1 s, total = 3 + 1/500000 s = 1500001/500000 s.
    let share = span(1, 0).share_of(&span(3, 500000));
    assert_eq!(share, Percentage::Known { numerator: 500000, denominator: 1500001 });
}

#[test]
fn share_is_one_at_the_total_and_beyond() {
    let one = Percentage::Known { numerator: 1, denominator: 1 };
    assert_eq!(span(60, 0).share_of(&span(60, 0)), one);
    assert_eq!(span(61, 0).share_of(&span(60, 0)), one);
    assert_eq!(span(60, 2).share_of(&span(60, 3)), one);
}

#[test]
fn share_of_nothing_elapsed_is_zero() {
    let share = span(0, 0).share_of(&span(60, 0));
    assert_eq!(share, Percentage::Known { numerator: 0, denominator: 60 });
}

#[test]
fn share_of_a_zero_total_is_unknown() {
    assert_eq!(span(0, 0).share_of(&span(0, 0)), Percentage::Unknown);
    assert_eq!(span(5, 0).share_of(&span(0, 0)), Percentage::Unknown);
}

#[test]
fn share_of_the_largest_spans_does_not_overflow() {
    let largest = span(u64::MAX, u32::MAX);
    let one = Percentage::Known { numerator: 1, denominator: 1 };
    assert_eq!(largest.share_of(&largest), one);
    let share = span(0, u32::MAX).share_of(&largest);
    match share {
        Percentage::Known { numerator, denominator } => {
            // elapsed = 1/(2^32 - 1) s; both sides are scaled by (2^32 - 1)^2.
            let scale = u32::MAX as u128;
            assert_eq!(numerator, scale);
            assert_eq!(denominator, scale * (u64::MAX as u128 * scale + 1));
        }
        Percentage::Unknown => panic!("the share of a positive total is known"),
    }
}

#[test]
fn complete_is_one_over_one() {
    assert_eq!(Percentage::complete(), Percentage::Known { numerator: 1, denominator: 1 });
}
