//! Message framing: a header block of `Key: Value` lines, a blank line, and a
//! body of exactly `Content-Length` bytes.

use vstd::prelude::*;
use crate::text::{
    bytes_as_chars, decimal_text, decimal_value, format_decimal, is_decimal, is_digit,
    lemma_decimal_text_value, parse_decimal, spec_parse_decimal, Decimal,
};

verus! {

/// Maximum allowed message size (100 MiB). A frame that declares more is
/// refused before any of its body is read.
pub const MAX_MESSAGE_SIZE: usize = 100 * 1024 * 1024;

/// The ceiling is no lower than 64 MiB and no higher than 1 GiB.
pub proof fn lemma_ceiling_in_range()
    ensures
        64 * 1024 * 1024 <= MAX_MESSAGE_SIZE <= 1024 * 1024 * 1024,
{
}

/// The first index in `[from, to)` at which `s` holds `b`, or `to` where it
/// holds none.
pub open spec fn find(s: Seq<u8>, b: u8, from: int, to: int) -> int
    decreases to - from,
{
    if from < to && s[from] != b {
        find(s, b, from + 1, to)
    } else {
        from
    }
}

/// Space or tab.
pub open spec fn is_space(b: u8) -> bool {
    b == 32 || b == 9
}

/// The first index in `[from, to)` that holds no space, or `to`.
pub open spec fn trim_start(s: Seq<u8>, from: int, to: int) -> int
    decreases to - from,
{
    if from < to && is_space(s[from]) {
        trim_start(s, from + 1, to)
    } else {
        from
    }
}

/// The end of `[from, to)` once the spaces at its end are left out.
pub open spec fn trim_end(s: Seq<u8>, from: int, to: int) -> int
    decreases to - from,
{
    if from < to && is_space(s[to - 1]) {
        trim_end(s, from, to - 1)
    } else {
        to
    }
}

/// An ASCII digit.
pub open spec fn is_digit_byte(b: u8) -> bool {
    48 <= b <= 57
}

/// An ASCII letter in lower case; any other byte as it is.
pub open spec fn lower(b: u8) -> u8 {
    if 65 <= b <= 90 {
        (b + 32) as u8
    } else {
        b
    }
}

/// `content-length`, in ASCII.
pub open spec fn length_key() -> Seq<u8> {
    seq![99u8, 111u8, 110u8, 116u8, 101u8, 110u8, 116u8, 45u8, 108u8, 101u8, 110u8, 103u8, 116u8, 104u8]
}

/// Whether a header key is `Content-Length`, in any mix of cases.
pub open spec fn is_length_key(key: Seq<u8>) -> bool {
    key.len() == 14 && forall|i: int| 0 <= i < 14 ==> lower(#[trigger] key[i]) == length_key()[i]
}

/// What a header line says.
#[derive(Clone, Copy, Debug, PartialEq, Eq, Structural)]
pub enum Header {
    /// `Content-Length` with a value within the ceiling.
    ContentLength(u64),
    /// `Content-Length` with a value above the ceiling.
    TooLarge,
    /// No colon, or a `Content-Length` whose value is no number.
    Malformed,
    /// Some other header.
    Other,
}

/// Reads the header line `s[from..to)`: a key and a value around the first
/// colon, each with the spaces and tabs around it left out. The value of
/// `Content-Length` is a decimal numeral, which may have `+` in front.
pub open spec fn spec_parse_header(s: Seq<u8>, from: int, to: int, max: nat) -> Header {
    let colon = find(s, 58, from, to);
    if colon >= to {
        Header::Malformed
    } else {
        let key_start = trim_start(s, from, colon);
        let key_end = trim_end(s, key_start, colon);
        let value_start = trim_start(s, colon + 1, to);
        let value_end = trim_end(s, value_start, to);
        if is_length_key(s.subrange(key_start, key_end)) {
            let digits_start = if value_start < value_end && s[value_start] == 43 {
                value_start + 1
            } else {
                value_start
            };
            match spec_parse_decimal(bytes_as_chars(s.subrange(digits_start, value_end)), max) {
                Decimal::Value(n) => Header::ContentLength(n),
                Decimal::TooLarge => Header::TooLarge,
                Decimal::Invalid => Header::Malformed,
            }
        } else {
            Header::Other
        }
    }
}

/// Why a frame is refused.
#[derive(Clone, Copy, Debug, PartialEq, Eq, Structural)]
pub enum FrameError {
    /// The declared length is above the ceiling.
    TooLarge,
    /// The header block has lines, and none gives the length.
    MissingContentLength,
    /// A header line has no colon, or gives a length that is no number.
    MalformedHeader,
    /// The input ended in the middle of a frame.
    UnexpectedEof,
}

/// What the start of a buffer holds.
#[derive(Clone, Copy, Debug, PartialEq, Eq, Structural)]
pub enum Decoded {
    /// A whole frame, whose body is `buf[start..end)`; the frame ends at `end`.
    Frame { start: usize, end: usize },
    /// A frame without a body, which ends at `consumed`.
    Skip { consumed: usize },
    /// The start of a frame; more bytes are needed.
    Incomplete,
    /// Something that is no frame.
    Error(FrameError),
}

/// What the buffer holds once its header block has ended at `body_start`.
pub open spec fn finish(buf: Seq<u8>, body_start: int, length: Option<u64>, seen: bool) -> Decoded {
    match length {
        None => if seen {
            Decoded::Error(FrameError::MissingContentLength)
        } else {
            Decoded::Skip { consumed: body_start as usize }
        },
        Some(n) => if n == 0 {
            Decoded::Skip { consumed: body_start as usize }
        } else if buf.len() - body_start >= n {
            Decoded::Frame { start: body_start as usize, end: (body_start + n) as usize }
        } else {
            Decoded::Incomplete
        },
    }
}

/// Reads header lines from `pos` on, with the last `Content-Length` read so
/// far in `length` and `seen` telling whether any line came before.
pub open spec fn decode_from(buf: Seq<u8>, pos: int, length: Option<u64>, seen: bool, max: nat) -> Decoded
    decreases buf.len() - pos,
{
    let newline = find(buf, 10, pos, buf.len() as int);
    if newline >= buf.len() || newline < pos {
        Decoded::Incomplete
    } else {
        let end = if newline > pos && buf[newline - 1] == 13 {
            newline - 1
        } else {
            newline
        };
        if end == pos {
            finish(buf, newline + 1, length, seen)
        } else {
            match spec_parse_header(buf, pos, end, max) {
                Header::Malformed => Decoded::Error(FrameError::MalformedHeader),
                Header::TooLarge => Decoded::Error(FrameError::TooLarge),
                Header::ContentLength(n) => decode_from(buf, newline + 1, Some(n), true, max),
                Header::Other => decode_from(buf, newline + 1, length, true, max),
            }
        }
    }
}

/// What the start of `buf` holds, for a ceiling of `max` bytes on a body.
pub open spec fn spec_decode(buf: Seq<u8>, max: nat) -> Decoded {
    decode_from(buf, 0, None, false, max)
}

/// `Content-Length: `, in ASCII.
pub open spec fn length_prefix() -> Seq<u8> {
    seq![67u8, 111u8, 110u8, 116u8, 101u8, 110u8, 116u8, 45u8, 76u8, 101u8, 110u8, 103u8, 116u8, 104u8, 58u8, 32u8]
}

/// The decimal numeral of `n`, in ASCII.
pub open spec fn decimal_bytes(n: nat) -> Seq<u8> {
    Seq::new(decimal_text(n).len(), |i: int| decimal_text(n)[i] as u8)
}

/// The header block that announces a body of `n` bytes.
pub open spec fn header(n: nat) -> Seq<u8> {
    length_prefix() + decimal_bytes(n) + seq![13u8, 10u8, 13u8, 10u8]
}

/// The frame of a body: its header block, then the body.
pub open spec fn frame(body: Seq<u8>) -> Seq<u8> {
    header(body.len()) + body
}

/// `find` stops at the first index that holds the byte.
pub proof fn lemma_find_at(s: Seq<u8>, b: u8, from: int, at: int, to: int)
    requires
        0 <= from <= at <= to <= s.len(),
        forall|j: int| from <= j < at ==> s[j] != b,
        at < to ==> s[at] == b,
    ensures
        find(s, b, from, to) == at,
    decreases at - from,
{
    if from < at {
        lemma_find_at(s, b, from + 1, at, to);
    }
}

/// `trim_start` stops at the first index that holds no space.
pub proof fn lemma_trim_start_at(s: Seq<u8>, from: int, at: int, to: int)
    requires
        0 <= from <= at <= to <= s.len(),
        forall|j: int| from <= j < at ==> is_space(s[j]),
        at < to ==> !is_space(s[at]),
    ensures
        trim_start(s, from, to) == at,
    decreases at - from,
{
    if from < at {
        lemma_trim_start_at(s, from + 1, at, to);
    }
}

/// `trim_end` stops behind the last index that holds no space.
pub proof fn lemma_trim_end_at(s: Seq<u8>, from: int, at: int, to: int)
    requires
        0 <= from <= at <= to <= s.len(),
        forall|j: int| at <= j < to ==> is_space(s[j]),
        from < at ==> !is_space(s[at - 1]),
    ensures
        trim_end(s, from, to) == at,
    decreases to - at,
{
    if at < to {
        lemma_trim_end_at(s, from, at, to - 1);
    }
}

/// What a numeral says as the value of `Content-Length`.
pub open spec fn length_of(text: Seq<char>, max: nat) -> Header {
    match spec_parse_decimal(text, max) {
        Decimal::Value(n) => Header::ContentLength(n),
        Decimal::TooLarge => Header::TooLarge,
        Decimal::Invalid => Header::Malformed,
    }
}

/// A line that holds, between `from` and `to`: spaces, a key that is
/// `Content-Length` in some mix of cases, spaces, a colon, spaces, digits,
/// spaces. It says what its digits say.
pub proof fn lemma_length_line(
    s: Seq<u8>,
    from: int,
    key_start: int,
    key_end: int,
    colon: int,
    digits_start: int,
    digits_end: int,
    to: int,
    max: nat,
)
    requires
        0 <= from <= key_start <= key_end <= colon < digits_start < digits_end <= to <= s.len(),
        forall|j: int| from <= j < key_start ==> is_space(s[j]),
        is_length_key(s.subrange(key_start, key_end)),
        forall|j: int| key_end <= j < colon ==> is_space(s[j]),
        s[colon] == 58,
        forall|j: int| colon < j < digits_start ==> is_space(s[j]),
        forall|j: int| digits_start <= j < digits_end ==> is_digit_byte(s[j]),
        forall|j: int| digits_end <= j < to ==> is_space(s[j]),
    ensures
        spec_parse_header(s, from, to, max) == length_of(
            bytes_as_chars(s.subrange(digits_start, digits_end)),
            max,
        ),
{
    let key = s.subrange(key_start, key_end);
    assert(key.len() == 14);
    assert forall|j: int| key_start <= j < key_end implies s[j] != 58 && !is_space(s[j]) by {
        assert(key[j - key_start] == s[j]);
        assert(lower(key[j - key_start]) == length_key()[j - key_start]);
    }
    lemma_find_at(s, 58, from, colon, to);
    lemma_trim_start_at(s, from, key_start, colon);
    lemma_trim_end_at(s, key_start, key_end, colon);
    lemma_trim_start_at(s, colon + 1, digits_start, to);
    lemma_trim_end_at(s, digits_start, digits_end, to);
}

/// Spaces and tabs only.
pub open spec fn all_spaces(s: Seq<u8>) -> bool {
    forall|i: int| 0 <= i < s.len() ==> is_space(#[trigger] s[i])
}

/// The bytes of an ASCII text.
pub open spec fn ascii_bytes(text: Seq<char>) -> Seq<u8> {
    Seq::new(text.len(), |i: int| text[i] as u8)
}

/// Header matching is indifferent to the case of the key and to spaces and
/// tabs around the key and the value: a line made of spaces, `Content-Length`
/// in any mix of cases, spaces, a colon, spaces, a decimal numeral and spaces
/// says what the numeral says.
pub proof fn lemma_header_tolerant(
    lead: Seq<u8>,
    key: Seq<u8>,
    before_colon: Seq<u8>,
    after_colon: Seq<u8>,
    numeral: Seq<char>,
    trail: Seq<u8>,
    max: nat,
)
    requires
        all_spaces(lead),
        is_length_key(key),
        all_spaces(before_colon),
        all_spaces(after_colon),
        is_decimal(numeral),
        all_spaces(trail),
    ensures
        ({
            let line = lead + key + before_colon + seq![58u8] + after_colon + ascii_bytes(numeral)
                + trail;
            spec_parse_header(line, 0, line.len() as int, max) == length_of(numeral, max)
        }),
{
    let line = lead + key + before_colon + seq![58u8] + after_colon + ascii_bytes(numeral) + trail;
    let key_start = lead.len() as int;
    let key_end = key_start + key.len();
    let colon = key_end + before_colon.len();
    let digits_start = colon + 1 + after_colon.len();
    let digits_end = digits_start + numeral.len();
    assert forall|j: int| 0 <= j < key_start implies is_space(line[j]) by {
        assert(line[j] == lead[j]);
    }
    assert(line.subrange(key_start, key_end) =~= key);
    assert forall|j: int| key_end <= j < colon implies is_space(line[j]) by {
        assert(line[j] == before_colon[j - key_end]);
    }
    assert(line[colon] == 58);
    assert forall|j: int| colon < j < digits_start implies is_space(line[j]) by {
        assert(line[j] == after_colon[j - colon - 1]);
    }
    assert forall|j: int| digits_start <= j < digits_end implies is_digit_byte(line[j]) by {
        assert(line[j] == numeral[j - digits_start] as u8);
        assert(is_digit(numeral[j - digits_start]));
    }
    assert forall|j: int| digits_end <= j < line.len() implies is_space(line[j]) by {
        assert(line[j] == trail[j - digits_end]);
    }
    assert(bytes_as_chars(line.subrange(digits_start, digits_end)) =~= numeral) by {
        assert forall|j: int| 0 <= j < numeral.len() implies bytes_as_chars(
            line.subrange(digits_start, digits_end),
        )[j] == numeral[j] by {
            assert(line[digits_start + j] == numeral[j] as u8);
            assert(is_digit(numeral[j]));
        }
    }
    lemma_length_line(line, 0, key_start, key_end, colon, digits_start, digits_end, line.len() as int, max);
}

/// The first header line of a buffer decides before anything else is
/// looked at: where a buffer starts with a `Content-Length` line whose value
/// is above the ceiling, it is refused, whatever follows the line and
/// however little of the frame is there. Where the value is within the
/// ceiling, reading goes on behind the line.
pub proof fn lemma_length_line_first(n: nat, rest: Seq<u8>, max: nat)
    requires
        max <= u64::MAX,
    ensures
        ({
            let buf = length_prefix() + decimal_bytes(n) + seq![13u8, 10u8] + rest;
            &&& n > max ==> spec_decode(buf, max) == Decoded::Error(FrameError::TooLarge)
            &&& n <= max ==> spec_decode(buf, max) == decode_from(
                buf,
                18 + decimal_bytes(n).len() as int,
                Some(n as u64),
                true,
                max,
            )
        }),
{
    let text = decimal_text(n);
    let d = text.len() as int;
    let buf = length_prefix() + decimal_bytes(n) + seq![13u8, 10u8] + rest;
    lemma_decimal_text_value(n);
    assert forall|j: int| 0 <= j < 16 implies buf[j] == length_prefix()[j] by {}
    assert forall|j: int| 16 <= j < 16 + d implies is_digit_byte(buf[j]) by {
        assert(buf[j] == decimal_bytes(n)[j - 16]);
        assert(is_digit(text[j - 16]));
    }
    assert(buf[16 + d] == 13);
    assert(buf[17 + d] == 10);
    assert(buf.subrange(0, 14) =~= length_prefix().subrange(0, 14));
    assert(is_length_key(buf.subrange(0, 14)));
    assert(buf[14] == 58);
    assert(buf[15] == 32);
    assert forall|j: int| 0 <= j < 17 + d implies buf[j] != 10 by {
        if j < 16 {
            assert(buf[j] == length_prefix()[j]);
        }
    }
    lemma_find_at(buf, 10, 0, 17 + d, buf.len() as int);
    lemma_length_line(buf, 0, 0, 14, 14, 16, 16 + d, 16 + d, max);
    assert(bytes_as_chars(buf.subrange(16, 16 + d)) =~= text) by {
        assert forall|j: int| 0 <= j < d implies bytes_as_chars(buf.subrange(16, 16 + d))[j]
            == text[j] by {
            assert(buf[16 + j] == decimal_bytes(n)[j]);
            assert(is_digit(text[j]));
        }
    }
    assert(spec_parse_header(buf, 0, 16 + d, max) == length_of(text, max));
}

/// Whether reading passes over the lines of `buf` from `pos` up to `upto`:
/// each of them ends in a line feed, is not blank, and is a header that is
/// neither malformed nor above the ceiling.
pub open spec fn passes_over(buf: Seq<u8>, pos: int, upto: int, max: nat) -> bool
    decreases upto - pos,
{
    if pos >= upto {
        pos == upto
    } else {
        let newline = find(buf, 10, pos, buf.len() as int);
        let end = if newline > pos && buf[newline - 1] == 13 {
            newline - 1
        } else {
            newline
        };
        if pos <= newline < upto && newline < buf.len() && end > pos {
            (spec_parse_header(buf, pos, end, max) is Other || spec_parse_header(
                buf,
                pos,
                end,
                max,
            ) is ContentLength) && passes_over(buf, newline + 1, upto, max)
        } else {
            false
        }
    }
}

/// Where reading passes over the lines up to a place from which every
/// reading is refused as too large, the reading from the start of those
/// lines is refused as too large.
proof fn lemma_passes_to_refusal(
    buf: Seq<u8>,
    pos: int,
    at: int,
    length: Option<u64>,
    seen: bool,
    max: nat,
)
    requires
        0 <= pos,
        passes_over(buf, pos, at, max),
        forall|l: Option<u64>, s: bool| #[trigger]
            decode_from(buf, at, l, s, max) == Decoded::Error(FrameError::TooLarge),
    ensures
        decode_from(buf, pos, length, seen, max) == Decoded::Error(FrameError::TooLarge),
    decreases at - pos,
{
    if pos < at {
        let newline = find(buf, 10, pos, buf.len() as int);
        let end = if newline > pos && buf[newline - 1] == 13 {
            newline - 1
        } else {
            newline
        };
        match spec_parse_header(buf, pos, end, max) {
            Header::ContentLength(n) => {
                lemma_passes_to_refusal(buf, newline + 1, at, Some(n), true, max);
            },
            _ => {
                lemma_passes_to_refusal(buf, newline + 1, at, length, true, max);
            },
        }
    }
}

/// A header block that declares too much is refused, wherever in the block
/// the declaration stands and however it is written: after any lines that
/// reading passes over, a line that holds spaces, `Content-Length` in some
/// mix of cases, spaces, a colon, spaces, a numeral above the ceiling and
/// spaces, and ends in a line feed with or without a carriage return before
/// it, makes the buffer one that is refused as too large. Nothing behind the
/// line is looked at: no body need be there.
pub proof fn lemma_oversized_header_refused(
    buf: Seq<u8>,
    at: int,
    key_start: int,
    key_end: int,
    colon: int,
    digits_start: int,
    digits_end: int,
    to: int,
    max: nat,
)
    requires
        passes_over(buf, 0, at, max),
        0 <= at <= key_start <= key_end <= colon < digits_start < digits_end <= to < buf.len(),
        forall|j: int| at <= j < key_start ==> is_space(buf[j]),
        is_length_key(buf.subrange(key_start, key_end)),
        forall|j: int| key_end <= j < colon ==> is_space(buf[j]),
        buf[colon] == 58,
        forall|j: int| colon < j < digits_start ==> is_space(buf[j]),
        forall|j: int| digits_start <= j < digits_end ==> is_digit_byte(buf[j]),
        forall|j: int| digits_end <= j < to ==> is_space(buf[j]),
        decimal_value(bytes_as_chars(buf.subrange(digits_start, digits_end))) > max,
        buf[to] == 10 || (buf[to] == 13 && to + 1 < buf.len() && buf[to + 1] == 10),
    ensures
        spec_decode(buf, max) == Decoded::Error(FrameError::TooLarge),
{
    let key = buf.subrange(key_start, key_end);
    assert forall|j: int| key_start <= j < key_end implies buf[j] != 10 && buf[j] != 13 by {
        assert(key[j - key_start] == buf[j]);
        assert(lower(key[j - key_start]) == length_key()[j - key_start]);
    }
    let newline = if buf[to] == 10 {
        to
    } else {
        to + 1
    };
    assert forall|j: int| at <= j < newline implies buf[j] != 10 by {}
    lemma_find_at(buf, 10, at, newline, buf.len() as int);
    lemma_length_line(buf, at, key_start, key_end, colon, digits_start, digits_end, to, max);
    let digits = bytes_as_chars(buf.subrange(digits_start, digits_end));
    assert forall|i: int| 0 <= i < digits.len() implies is_digit(#[trigger] digits[i]) by {
        assert(is_digit_byte(buf[digits_start + i]));
    }
    assert(is_decimal(digits));
    assert(spec_parse_header(buf, at, to, max) == Header::TooLarge);
    assert(buf[to - 1] != 13);
    assert forall|l: Option<u64>, s: bool| #[trigger]
        decode_from(buf, at, l, s, max) == Decoded::Error(FrameError::TooLarge) by {}
    lemma_passes_to_refusal(buf, 0, at, None, false, max);
}

/// A frame decodes to its body, whatever follows it: a body within the
/// ceiling comes back as it was, an empty one is skipped, and one above the
/// ceiling is refused.
pub proof fn lemma_frame_round_trip(body: Seq<u8>, rest: Seq<u8>, max: nat)
    requires
        frame(body).len() + rest.len() <= usize::MAX,
        max <= u64::MAX,
    ensures
        body.len() > max ==> spec_decode(frame(body) + rest, max) == Decoded::Error(
            FrameError::TooLarge,
        ),
        0 < body.len() <= max ==> spec_decode(frame(body) + rest, max) == (Decoded::Frame {
            start: header(body.len()).len() as usize,
            end: frame(body).len() as usize,
        }) && (frame(body) + rest).subrange(
            header(body.len()).len() as int,
            frame(body).len() as int,
        ) == body,
        body.len() == 0 ==> spec_decode(frame(body) + rest, max) == (Decoded::Skip {
            consumed: frame(body).len() as usize,
        }),
{
    let n = body.len();
    let d = decimal_bytes(n).len() as int;
    let buf = frame(body) + rest;
    let tail = seq![13u8, 10u8] + body + rest;
    assert(buf =~= length_prefix() + decimal_bytes(n) + seq![13u8, 10u8] + tail);
    lemma_length_line_first(n, tail, max);
    if n <= max {
        assert(buf[18 + d] == 13);
        assert(buf[19 + d] == 10);
        lemma_find_at(buf, 10, 18 + d, 19 + d, buf.len() as int);
        assert(decode_from(buf, 18 + d, Some(n as u64), true, max) == finish(
            buf,
            20 + d,
            Some(n as u64),
            true,
        ));
        assert(header(n).len() == 20 + d);
        assert(buf.subrange(20 + d, 20 + d + n) =~= body);
    }
}

fn find_byte(s: &[u8], b: u8, from: usize, to: usize) -> (r: usize)
    requires
        from <= to <= s.len(),
    ensures
        r == find(s@, b, from as int, to as int),
        from <= r <= to,
{
    let mut i: usize = from;
    while i < to && s[i] != b
        invariant
            from <= i <= to <= s.len(),
            find(s@, b, from as int, to as int) == find(s@, b, i as int, to as int),
        decreases to - i,
    {
        i += 1;
    }
    i
}

fn skip_spaces(s: &[u8], from: usize, to: usize) -> (r: usize)
    requires
        from <= to <= s.len(),
    ensures
        r == trim_start(s@, from as int, to as int),
        from <= r <= to,
{
    let mut i: usize = from;
    while i < to && (s[i] == 32 || s[i] == 9)
        invariant
            from <= i <= to <= s.len(),
            trim_start(s@, from as int, to as int) == trim_start(s@, i as int, to as int),
        decreases to - i,
    {
        i += 1;
    }
    i
}

fn drop_spaces(s: &[u8], from: usize, to: usize) -> (r: usize)
    requires
        from <= to <= s.len(),
    ensures
        r == trim_end(s@, from as int, to as int),
        from <= r <= to,
{
    let mut i: usize = to;
    while from < i && (s[i - 1] == 32 || s[i - 1] == 9)
        invariant
            from <= i <= to <= s.len(),
            trim_end(s@, from as int, to as int) == trim_end(s@, from as int, i as int),
        decreases i - from,
    {
        i -= 1;
    }
    i
}

fn matches_length_key(s: &[u8], from: usize, to: usize) -> (r: bool)
    requires
        from <= to <= s.len(),
    ensures
        r == is_length_key(s@.subrange(from as int, to as int)),
{
    if to - from != 14 {
        return false;
    }
    let name: [u8; 14] = [99, 111, 110, 116, 101, 110, 116, 45, 108, 101, 110, 103, 116, 104];
    let ghost key = s@.subrange(from as int, to as int);
    let mut i: usize = 0;
    while i < 14
        invariant
            i <= 14,
            from + 14 == to <= s.len(),
            key == s@.subrange(from as int, to as int),
            name@ == length_key(),
            forall|j: int| 0 <= j < i ==> lower(#[trigger] key[j]) == length_key()[j],
        decreases 14 - i,
    {
        let b: u8 = s[from + i];
        let folded: u8 = if b >= 65 && b <= 90 {
            b + 32
        } else {
            b
        };
        assert(key[i as int] == b);
        if folded != name[i] {
            assert(lower(key[i as int]) != length_key()[i as int]);
            return false;
        }
        i += 1;
    }
    true
}

/// Reads the header line `line[from..to)`.
pub fn parse_header(line: &[u8], from: usize, to: usize, max: usize) -> (r: Header)
    requires
        from <= to <= line.len(),
    ensures
        r == spec_parse_header(line@, from as int, to as int, max as nat),
{
    let colon = find_byte(line, 58, from, to);
    if colon >= to {
        return Header::Malformed;
    }
    let key_start = skip_spaces(line, from, colon);
    let key_end = drop_spaces(line, key_start, colon);
    let value_start = skip_spaces(line, colon + 1, to);
    let value_end = drop_spaces(line, value_start, to);
    if matches_length_key(line, key_start, key_end) {
        let digits_start: usize = if value_start < value_end && line[value_start] == 43 {
            value_start + 1
        } else {
            value_start
        };
        match parse_decimal(line, digits_start, value_end, max as u64) {
            Decimal::Value(n) => Header::ContentLength(n),
            Decimal::TooLarge => Header::TooLarge,
            Decimal::Invalid => Header::Malformed,
        }
    } else {
        Header::Other
    }
}

/// Says what the start of `buf` holds: a frame, the start of one, or
/// something that is none. A body may have `max` bytes at most.
pub fn decode_frame(buf: &[u8], max: usize) -> (r: Decoded)
    ensures
        r == spec_decode(buf@, max as nat),
        r matches Decoded::Frame { start, end } ==> start < end <= buf.len() && end - start <= max,
        r matches Decoded::Skip { consumed } ==> 0 < consumed <= buf.len(),
{
    let mut pos: usize = 0;
    let mut length: Option<u64> = None;
    let mut seen: bool = false;
    loop
        invariant
            pos <= buf.len(),
            spec_decode(buf@, max as nat) == decode_from(buf@, pos as int, length, seen, max as nat),
            length is Some ==> length->0 <= max,
        decreases buf.len() - pos,
    {
        let newline = find_byte(buf, 10, pos, buf.len());
        if newline >= buf.len() {
            return Decoded::Incomplete;
        }
        let end: usize = if newline > pos && buf[newline - 1] == 13 {
            newline - 1
        } else {
            newline
        };
        if end == pos {
            let body_start: usize = newline + 1;
            return match length {
                None => if seen {
                    Decoded::Error(FrameError::MissingContentLength)
                } else {
                    Decoded::Skip { consumed: body_start }
                },
                Some(n) => if n == 0 {
                    Decoded::Skip { consumed: body_start }
                } else if (buf.len() - body_start) as u64 >= n {
                    Decoded::Frame { start: body_start, end: body_start + n as usize }
                } else {
                    Decoded::Incomplete
                },
            };
        }
        match parse_header(buf, pos, end, max) {
            Header::Malformed => {
                return Decoded::Error(FrameError::MalformedHeader);
            },
            Header::TooLarge => {
                return Decoded::Error(FrameError::TooLarge);
            },
            Header::ContentLength(n) => {
                length = Some(n);
                seen = true;
            },
            Header::Other => {
                seen = true;
            },
        }
        pos = newline + 1;
    }
}

/// Says what the end of the input means, given what is left in the buffer
/// once every whole frame has been taken out: with nothing left, the stream
/// ended between two frames and the shutdown is a clean one; with anything
/// left, it ended in the middle of a frame.
pub fn end_of_input(buf: &[u8]) -> (r: Result<(), FrameError>)
    ensures
        buf@.len() == 0 ==> r is Ok,
        buf@.len() > 0 ==> r == Err::<(), FrameError>(FrameError::UnexpectedEof),
{
    if buf.len() == 0 {
        Ok(())
    } else {
        Err(FrameError::UnexpectedEof)
    }
}

/// Puts a body in its frame: `Content-Length`, a blank line, the body.
pub fn encode_frame(body: &[u8]) -> (r: Vec<u8>)
    ensures
        r@ == frame(body@),
{
    let prefix: [u8; 16] = [67, 111, 110, 116, 101, 110, 116, 45, 76, 101, 110, 103, 116, 104, 58, 32];
    let mut out: Vec<u8> = Vec::new();
    let mut i: usize = 0;
    while i < 16
        invariant
            i <= 16,
            prefix@ == length_prefix(),
            out@ == length_prefix().take(i as int),
        decreases 16 - i,
    {
        out.push(prefix[i]);
        assert(out@ =~= length_prefix().take(i + 1));
        i += 1;
    }
    assert(length_prefix().take(16) =~= length_prefix());
    let digits = format_decimal(body.len() as u64);
    proof {
        let text = decimal_text(body@.len());
        lemma_decimal_text_value(body@.len());
        assert(digits@.len() == text.len());
        assert forall|j: int| 0 <= j < digits@.len() implies digits@[j] == #[trigger] text[j] as u8 by {
            assert(bytes_as_chars(digits@)[j] == text[j]);
            assert(is_digit(text[j]));
        }
        assert(digits@ =~= decimal_bytes(body@.len()));
    }
    let mut j: usize = 0;
    while j < digits.len()
        invariant
            j <= digits.len(),
            out@ == length_prefix() + digits@.take(j as int),
        decreases digits.len() - j,
    {
        out.push(digits[j]);
        assert(out@ =~= length_prefix() + digits@.take(j + 1));
        j += 1;
    }
    assert(digits@.take(digits@.len() as int) =~= digits@);
    out.push(13);
    out.push(10);
    out.push(13);
    out.push(10);
    assert(out@ =~= header(body@.len()));
    let mut k: usize = 0;
    while k < body.len()
        invariant
            k <= body.len(),
            out@ == header(body@.len()) + body@.take(k as int),
        decreases body.len() - k,
    {
        out.push(body[k]);
        assert(out@ =~= header(body@.len()) + body@.take(k + 1));
        k += 1;
    }
    assert(body@.take(body@.len() as int) =~= body@);
    out
}

} // verus!
