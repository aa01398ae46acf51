//! The payload of the error packets.
//!
//! An error packet tells how many lines a log of warnings has and what its
//! last line says. A line of the log reads
//! `<time> <host> <source>: ... > <message>`: what stands before the first
//! `>` is cut at spaces into the time, the host and the source, and what
//! follows it, up to the next `>`, is the message. The payload holds, in
//! this order: the count in two bytes, the low two bytes of the time in
//! seconds, at most [`SOURCE_WIDTH`] bytes of the source, and at most
//! [`TEXT_WIDTH`] bytes of the message.

use crate::decimal::{collect_digits, digits_in, number_of, parse_unsigned};
use crate::scan::{find_piece, piece};
use crate::wire::{le16, put_u16};
use vstd::prelude::*;

verus! {

/// The ASCII code of the sign that separates the head of a line from its
/// message.
pub const GT: u8 = 0x3e;

/// The ASCII code of the space.
pub const SPACE: u8 = 0x20;

/// The count where the log's length could not be told.
pub const NO_COUNT: u16 = 0xFFFF;

/// The bytes of the source that the payload has room for.
pub const SOURCE_WIDTH: usize = 8;

/// The bytes of the message that the payload has room for.
pub const TEXT_WIDTH: usize = 22;

/// The seconds since the epoch that `chrono` reads from a text as a time in
/// UTC (`DateTime::<Utc>::from_str`, then `DateTime::timestamp`), or `None`
/// where it reads none from it or the text is not UTF-8.
pub uninterp spec fn utc_seconds(text: Seq<u8>) -> Option<i64>;

/// `DateTime::<Utc>::from_str` of `chrono` on a text, and the seconds since
/// the epoch of the time it gives. Trusted to return [`utc_seconds`] of the
/// text.
#[verifier::external_body]
fn parse_utc_seconds(text: &[u8]) -> (secs: Option<i64>)
    ensures
        secs == utc_seconds(text@),
{
    let text = std::str::from_utf8(text).ok()?;
    text.parse::<chrono::DateTime<chrono::Utc>>().ok().map(|at| at.timestamp())
}

/// The count of errors that the output of `wc -l` tells: the number that all
/// its digits together write, and [`NO_COUNT`] where they write none of two
/// bytes.
pub open spec fn count_of(output: Seq<u8>) -> u16 {
    match number_of(digits_in(output), u16::MAX as int) {
        Some(n) => n as u16,
        None => NO_COUNT,
    }
}

/// The time field for the seconds since the epoch: their low two bytes, and
/// zero where there are none.
pub open spec fn stamp_of(secs: Option<i64>) -> u16 {
    match secs {
        Some(n) => (n % 0x1_0000) as u16,
        None => 0,
    }
}

/// The head of a line: what stands before its first `>`.
pub open spec fn head_end(line: Seq<u8>) -> int {
    crate::scan::first_within(line, GT, 0, line.len() as int)
}

/// The time in the head of a line, as it is written.
pub open spec fn time_of_line(line: Seq<u8>) -> Seq<u8> {
    piece(line, SPACE, 0, head_end(line), 0)
}

/// The source in the head of a line.
pub open spec fn source_of_line(line: Seq<u8>) -> Seq<u8> {
    piece(line, SPACE, 0, head_end(line), 2)
}

/// The message of a line.
pub open spec fn text_of_line(line: Seq<u8>) -> Seq<u8> {
    piece(line, GT, 0, line.len() as int, 1)
}

/// The source as it goes into the payload: its first [`SOURCE_WIDTH`] bytes.
pub open spec fn source_field(source: Seq<u8>) -> Seq<u8> {
    if source.len() > SOURCE_WIDTH {
        source.take(SOURCE_WIDTH as int)
    } else {
        source
    }
}

/// The message as it goes into the payload: a message of more than
/// [`TEXT_WIDTH`] bytes loses its first byte, which is a space, and is cut
/// to that width; a shorter one goes in as it is.
pub open spec fn text_field(text: Seq<u8>) -> Seq<u8> {
    if text.len() > TEXT_WIDTH {
        text.subrange(1, TEXT_WIDTH + 1)
    } else {
        text
    }
}

/// The payload for a count, a time field, a source and a message.
pub open spec fn message_of(count: u16, stamp: u16, source: Seq<u8>, text: Seq<u8>) -> Seq<u8> {
    le16(count) + le16(stamp) + source_field(source) + text_field(text)
}

/// The payload for the output of `wc -l` on a log and the log's last line.
pub open spec fn errors_message_of(count_output: Seq<u8>, line: Seq<u8>) -> Seq<u8> {
    message_of(
        count_of(count_output),
        stamp_of(utc_seconds(time_of_line(line))),
        source_of_line(line),
        text_of_line(line),
    )
}

/// The payload has at most 34 bytes, so that it fits a packet.
pub proof fn law_message_fits(count: u16, stamp: u16, source: Seq<u8>, text: Seq<u8>)
    ensures
        4 <= message_of(count, stamp, source, text).len() <= 4 + SOURCE_WIDTH + TEXT_WIDTH,
        message_of(count, stamp, source, text).len() <= crate::frame::MAX_PAYLOAD,
{
}

/// Reads the count of errors out of the output of `wc -l`.
pub fn errors_count(output: &[u8]) -> (count: u16)
    ensures
        count == count_of(output@),
{
    assert(output@.subrange(0, output@.len() as int) == output@);
    let digits = collect_digits(output, 0, output.len());
    match parse_unsigned(digits.as_slice(), 0xFFFF) {
        Some(n) => n as u16,
        None => NO_COUNT,
    }
}

/// The time field for the seconds since the epoch.
pub fn stamp_field(secs: Option<i64>) -> (stamp: u16)
    ensures
        stamp == stamp_of(secs),
{
    match secs {
        Some(n) => {
            let low = n % 0x1_0000;
            if low < 0 {
                (low + 0x1_0000) as u16
            } else {
                low as u16
            }
        },
        None => 0,
    }
}

fn push_range(out: &mut Vec<u8>, text: &[u8], from: usize, to: usize)
    requires
        from <= to <= text@.len(),
    ensures
        final(out)@ == old(out)@ + text@.subrange(from as int, to as int),
{
    let mut i = from;
    assert(text@.subrange(from as int, from as int) == Seq::<u8>::empty());
    while i < to
        invariant
            from <= i <= to <= text@.len(),
            out@ == old(out)@ + text@.subrange(from as int, i as int),
        decreases to - i,
    {
        out.push(text[i]);
        i += 1;
        assert(text@.subrange(from as int, i as int) == text@.subrange(from as int, i - 1).push(
            text@[i - 1],
        ));
    }
}

/// Builds the payload from its parts: the count, the seconds since the epoch
/// of the last error, where they are known, and the source and the message
/// of the last error, which lie in `line` from `source.0` up to `source.1`
/// and from `text.0` up to `text.1`.
pub fn build_errors_message(
    count: u16,
    secs: Option<i64>,
    line: &[u8],
    source: (usize, usize),
    text: (usize, usize),
) -> (message: Vec<u8>)
    requires
        source.0 <= source.1 <= line@.len(),
        text.0 <= text.1 <= line@.len(),
    ensures
        message@ == message_of(
            count,
            stamp_of(secs),
            line@.subrange(source.0 as int, source.1 as int),
            line@.subrange(text.0 as int, text.1 as int),
        ),
{
    let ghost src = line@.subrange(source.0 as int, source.1 as int);
    let ghost txt = line@.subrange(text.0 as int, text.1 as int);
    let mut message: Vec<u8> = Vec::new();
    put_u16(&mut message, count);
    put_u16(&mut message, stamp_field(secs));
    if source.1 - source.0 > SOURCE_WIDTH {
        push_range(&mut message, line, source.0, source.0 + SOURCE_WIDTH);
        assert(line@.subrange(source.0 as int, source.0 + SOURCE_WIDTH) == src.take(
            SOURCE_WIDTH as int,
        ));
    } else {
        push_range(&mut message, line, source.0, source.1);
    }
    if text.1 - text.0 > TEXT_WIDTH {
        push_range(&mut message, line, text.0 + 1, text.0 + 1 + TEXT_WIDTH);
        assert(line@.subrange(text.0 + 1, text.0 + 1 + TEXT_WIDTH) == txt.subrange(
            1,
            TEXT_WIDTH + 1,
        ));
    } else {
        push_range(&mut message, line, text.0, text.1);
    }
    assert(message@ =~= message_of(count, stamp_of(secs), src, txt));
    message
}

/// Builds the payload of an error packet from the output of `wc -l` on a log
/// and the log's last line.
pub fn create_errors_message(count_output: &[u8], line: &[u8]) -> (message: Vec<u8>)
    ensures
        message@ == errors_message_of(count_output@, line@),
{
    let count = errors_count(count_output);
    let head = crate::scan::find_within(line, GT, 0, line.len());
    let stamp = match find_piece(line, SPACE, 0, head, 0) {
        Some(range) => range,
        None => (0, 0),
    };
    let source = match find_piece(line, SPACE, 0, head, 2) {
        Some(range) => range,
        None => (0, 0),
    };
    let text = match find_piece(line, GT, 0, line.len(), 1) {
        Some(range) => range,
        None => (0, 0),
    };
    assert(line@.subrange(0, 0) == Seq::<u8>::empty());
    let mut time: Vec<u8> = Vec::new();
    push_range(&mut time, line, stamp.0, stamp.1);
    assert(time@ == time_of_line(line@));
    let secs = parse_utc_seconds(time.as_slice());
    build_errors_message(count, secs, line, source, text)
}

} // verus!
