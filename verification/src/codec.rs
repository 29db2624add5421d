//! Time codec: seconds to hours, minutes and seconds, and to display text.

use crate::line::{push_ascii, LineBuffer, LINE_CAPACITY};
use vstd::prelude::*;

verus! {

/// Blank columns in front of the clock.
pub const LEFT_MARGIN: usize = 4;

/// Width of the clock face `HH:MM:SS`.
pub const CLOCK_WIDTH: usize = 8;

/// Width of a rendered line; trailing blanks overwrite whatever an earlier,
/// longer render left on the display.
pub const LINE_WIDTH: usize = 64;

/// Largest count whose hours still fit two digits (99:59:59).
pub const MAX_TWO_DIGIT_COUNT: u32 = 359_999;

/// Hours, minutes and seconds of a count of seconds. Hours are not reduced
/// modulo 24.
pub open spec fn decode(count: nat) -> (nat, nat, nat) {
    (count / 3600, (count / 60) % 60, count % 60)
}

/// Splits a count of seconds into hours, minutes and seconds. A sixteen-bit
/// count stays below nineteen hours.
pub fn time_digits(time: u16) -> (fields: (u8, u8, u8))
    ensures
        (fields.0 as nat, fields.1 as nat, fields.2 as nat) == decode(time as nat),
        fields.0 <= 18,
        fields.1 < 60,
        fields.2 < 60,
{
    let hours: u16 = time / 3600;
    let minutes: u16 = (time / 60) % 60;
    let seconds: u16 = time % 60;
    (hours as u8, minutes as u8, seconds as u8)
}

/// ASCII code of a decimal digit.
pub open spec fn digit(d: nat) -> u8
    recommends
        d < 10,
{
    (48 + d) as u8
}

/// A number below one hundred as two decimal digits, zero-padded.
pub open spec fn two_digits(n: nat) -> Seq<u8>
    recommends
        n < 100,
{
    seq![digit(n / 10), digit(n % 10)]
}

/// `n` blanks.
pub open spec fn blanks(n: nat) -> Seq<u8> {
    Seq::new(n, |i: int| 32u8)
}

/// The clock face `HH:MM:SS` of a count.
pub open spec fn clock_text(count: nat) -> Seq<u8> {
    let (hours, minutes, seconds) = decode(count);
    two_digits(hours) + seq![58u8] + two_digits(minutes) + seq![58u8] + two_digits(seconds)
}

/// The full display line of a count: margin, clock face, trailing blanks up to
/// `LINE_WIDTH`.
pub open spec fn line_text(count: nat) -> Seq<u8> {
    blanks(LEFT_MARGIN as nat) + clock_text(count) + blanks(
        (LINE_WIDTH - LEFT_MARGIN - CLOCK_WIDTH) as nat,
    )
}

/// Appends `n` blanks.
fn push_blanks(buf: &mut LineBuffer, n: usize)
    requires
        old(buf)@.len() + n <= LINE_CAPACITY,
    ensures
        final(buf)@ == old(buf)@ + blanks(n as nat),
{
    let mut done: usize = 0;
    while done < n
        invariant
            done <= n,
            old(buf)@.len() + n <= LINE_CAPACITY,
            buf@ == old(buf)@ + blanks(done as nat),
        decreases n - done,
    {
        push_ascii(buf, 32u8);
        done = done + 1;
    }
}

/// Appends a number below one hundred as two digits.
fn push_two_digits(buf: &mut LineBuffer, n: u8)
    requires
        n < 100,
        old(buf)@.len() + 2 <= LINE_CAPACITY,
    ensures
        final(buf)@ == old(buf)@ + two_digits(n as nat),
{
    push_ascii(buf, 48u8 + n / 10);
    push_ascii(buf, 48u8 + n % 10);
}

/// Appends the display line of `elapsed` to `buf`, which must have room for
/// the `LINE_WIDTH` bytes of it.
pub fn format_time(buf: &mut LineBuffer, elapsed: u16)
    requires
        old(buf)@.len() + LINE_WIDTH <= LINE_CAPACITY,
    ensures
        final(buf)@ == old(buf)@ + line_text(elapsed as nat),
{
    let (hours, minutes, seconds) = time_digits(elapsed);
    push_blanks(buf, LEFT_MARGIN);
    push_two_digits(buf, hours);
    push_ascii(buf, 58u8);
    push_two_digits(buf, minutes);
    push_ascii(buf, 58u8);
    push_two_digits(buf, seconds);
    push_blanks(buf, LINE_WIDTH - LEFT_MARGIN - CLOCK_WIDTH);
}

/// The display line of `elapsed` in a fresh buffer.
pub fn display_line(elapsed: u16) -> (line: LineBuffer)
    ensures
        line@ == line_text(elapsed as nat),
{
    let mut line = LineBuffer::new();
    format_time(&mut line, elapsed);
    line
}

/// Decoding law: up to 99:59:59 the hours fit two digits, minutes and seconds
/// stay below sixty, and the three fields add up to the count again.
pub proof fn decode_fields_in_range(count: nat)
    requires
        count <= MAX_TWO_DIGIT_COUNT,
    ensures
        decode(count) == (count / 3600, (count / 60) % 60, count % 60),
        decode(count).0 <= 99,
        decode(count).1 < 60,
        decode(count).2 < 60,
        decode(count).0 * 3600 + decode(count).1 * 60 + decode(count).2 == count,
{
}

/// Every line is `LINE_WIDTH` bytes wide. Up to 99:59:59 it is made of
/// blanks, decimal digits and the two colons, which stand in columns 6 and 9.
pub proof fn line_text_shape(count: nat)
    ensures
        line_text(count).len() == LINE_WIDTH,
        forall|column: int|
            count <= MAX_TWO_DIGIT_COUNT && 0 <= column < LINE_WIDTH ==> {
                let byte = #[trigger] line_text(count)[column];
                if column == 6 || column == 9 {
                    byte == 58
                } else if 4 <= column < 12 {
                    48 <= byte <= 57
                } else {
                    byte == 32
                }
            },
{
    if count <= MAX_TWO_DIGIT_COUNT {
        decode_fields_in_range(count);
    }
}

/// The digits of the three fields, by column.
proof fn lemma_field_columns(count: nat)
    ensures
        line_text(count)[4] == digit(decode(count).0 / 10),
        line_text(count)[5] == digit(decode(count).0 % 10),
        line_text(count)[7] == digit(decode(count).1 / 10),
        line_text(count)[8] == digit(decode(count).1 % 10),
        line_text(count)[10] == digit(decode(count).2 / 10),
        line_text(count)[11] == digit(decode(count).2 % 10),
{
}

/// Two numbers below one hundred with the same two digits are equal.
proof fn lemma_digits_tell_number(first: nat, second: nat)
    requires
        first < 100,
        second < 100,
        digit(first / 10) == digit(second / 10),
        digit(first % 10) == digit(second % 10),
    ensures
        first == second,
{
}

/// Up to 99:59:59 the line tells the count: two counts that render alike are
/// the same count.
pub proof fn line_text_tells_count(first: nat, second: nat)
    requires
        first <= MAX_TWO_DIGIT_COUNT,
        second <= MAX_TWO_DIGIT_COUNT,
        line_text(first) == line_text(second),
    ensures
        first == second,
{
    decode_fields_in_range(first);
    decode_fields_in_range(second);
    lemma_field_columns(first);
    lemma_field_columns(second);
    lemma_digits_tell_number(decode(first).0, decode(second).0);
    lemma_digits_tell_number(decode(first).1, decode(second).1);
    lemma_digits_tell_number(decode(first).2, decode(second).2);
}

/// Formatting is repeatable: two lines that each hold a render of the same
/// count hold the same bytes.
pub proof fn format_is_repeatable(first: LineBuffer, second: LineBuffer, count: u16)
    requires
        first@ == line_text(count as nat),
        second@ == line_text(count as nat),
    ensures
        first@ == second@,
{
}

} // verus!
