use copilot_sdk::framing::{
    decode_frame, encode_frame, end_of_input, parse_header, Decoded, FrameError, Header,
    MAX_MESSAGE_SIZE,
};

fn body_of(buf: &[u8], max: usize) -> Option<Vec<u8>> {
    match decode_frame(buf, max) {
        Decoded::Frame { start, end } => Some(buf[start..end].to_vec()),
        _ => None,
    }
}

#[test]
fn the_ceiling_is_a_hundred_mebibytes() {
    assert_eq!(MAX_MESSAGE_SIZE, 104_857_600);
}

#[test]
fn encode_writes_the_length_and_a_blank_line() {
    assert_eq!(encode_frame(b"{}"), b"Content-Length: 2\r\n\r\n{}".to_vec());
    assert_eq!(encode_frame(b""), b"Content-Length: 0\r\n\r\n".to_vec());
    let body = vec![b'x'; 1234];
    let framed = encode_frame(&body);
    assert!(framed.starts_with(b"Content-Length: 1234\r\n\r\n"));
    assert_eq!(framed.len(), 24 + 1234);
}

#[test]
fn a_frame_decodes_to_its_body() {
    let body = b"{\"jsonrpc\":\"2.0\",\"method\":\"x\"}".to_vec();
    let framed = encode_frame(&body);
    assert_eq!(
        decode_frame(&framed, MAX_MESSAGE_SIZE),
        Decoded::Frame { start: framed.len() - body.len(), end: framed.len() }
    );
    assert_eq!(body_of(&framed, MAX_MESSAGE_SIZE), Some(body));
}

#[test]
fn a_frame_decodes_to_its_body_whatever_follows() {
    let mut stream = encode_frame(b"first");
    let first_len = stream.len();
    stream.extend_from_slice(&encode_frame(b"second"));
    match decode_frame(&stream, 64) {
        Decoded::Frame { start, end } => {
            assert_eq!(&stream[start..end], b"first");
            assert_eq!(end, first_len);
            assert_eq!(body_of(&stream[end..], 64), Some(b"second".to_vec()));
        }
        other => panic!("unexpected {:?}", other),
    }
}

#[test]
fn a_body_at_the_ceiling_passes_and_one_above_fails_at_decode() {
    let at = encode_frame(&[7u8; 16]);
    assert_eq!(body_of(&at, 16), Some(vec![7u8; 16]));
    let above = encode_frame(&[7u8; 17]);
    assert_eq!(decode_frame(&above, 16), Decoded::Error(FrameError::TooLarge));
}

#[test]
fn an_oversized_length_is_refused_before_any_body_is_there() {
    assert_eq!(
        decode_frame(b"Content-Length: 104857601\r\n", MAX_MESSAGE_SIZE),
        Decoded::Error(FrameError::TooLarge)
    );
    assert_eq!(
        decode_frame(b"Content-Length: 99999999999999999999999999\r\n", MAX_MESSAGE_SIZE),
        Decoded::Error(FrameError::TooLarge)
    );
    assert_eq!(
        decode_frame(b"Content-Length: 104857600\r\n\r\n", MAX_MESSAGE_SIZE),
        Decoded::Incomplete
    );
}

#[test]
fn header_keys_match_in_any_case_and_with_spaces_around() {
    let max = MAX_MESSAGE_SIZE;
    for line in [
        &b"Content-Length: 5"[..],
        b"content-length: 5",
        b"CONTENT-LENGTH:5",
        b"  CoNtEnT-lEnGtH \t:\t 5  ",
        b"Content-Length: +5",
    ] {
        assert_eq!(parse_header(line, 0, line.len(), max), Header::ContentLength(5), "{:?}", line);
    }
    let buf = b"content-length : 3 \r\nX-Other: y\r\n\r\nabc";
    assert_eq!(body_of(buf, max), Some(b"abc".to_vec()));
}

#[test]
fn header_lines_of_other_kinds() {
    let max = 100;
    let other = b"Content-Type: application/json";
    assert_eq!(parse_header(other, 0, other.len(), max), Header::Other);
    let no_colon = b"Content-Length 5";
    assert_eq!(parse_header(no_colon, 0, no_colon.len(), max), Header::Malformed);
    let not_a_number = b"Content-Length: five";
    assert_eq!(parse_header(not_a_number, 0, not_a_number.len(), max), Header::Malformed);
    let empty_value = b"Content-Length:";
    assert_eq!(parse_header(empty_value, 0, empty_value.len(), max), Header::Malformed);
    let negative = b"Content-Length: -1";
    assert_eq!(parse_header(negative, 0, negative.len(), max), Header::Malformed);
    let large = b"Content-Length: 101";
    assert_eq!(parse_header(large, 0, large.len(), max), Header::TooLarge);
    let inner = b"xxContent-Length: 7yy";
    assert_eq!(parse_header(inner, 2, inner.len() - 2, max), Header::ContentLength(7));
}

#[test]
fn both_line_ends_are_accepted() {
    assert_eq!(body_of(b"Content-Length: 2\n\nhi", 10), Some(b"hi".to_vec()));
    assert_eq!(body_of(b"Content-Length: 2\r\n\nhi", 10), Some(b"hi".to_vec()));
    assert_eq!(body_of(b"Content-Length: 2\n\r\nhi", 10), Some(b"hi".to_vec()));
}

#[test]
fn the_last_length_counts() {
    assert_eq!(body_of(b"Content-Length: 1\r\nContent-Length: 2\r\n\r\nhi", 10), Some(b"hi".to_vec()));
}

#[test]
fn incomplete_input_asks_for_more() {
    let framed = encode_frame(b"hello");
    for cut in 0..framed.len() {
        assert_eq!(decode_frame(&framed[..cut], 10), Decoded::Incomplete, "cut at {}", cut);
    }
    assert!(matches!(decode_frame(&framed, 10), Decoded::Frame { .. }));
}

#[test]
fn a_zero_length_body_is_skipped() {
    assert_eq!(decode_frame(b"Content-Length: 0\r\n\r\nrest", 10), Decoded::Skip { consumed: 21 });
    assert_eq!(decode_frame(b"\r\nrest", 10), Decoded::Skip { consumed: 2 });
    assert_eq!(decode_frame(b"\nrest", 10), Decoded::Skip { consumed: 1 });
}

#[test]
fn headers_without_a_length_are_a_protocol_error() {
    assert_eq!(
        decode_frame(b"Content-Type: text/plain\r\n\r\nbody", 10),
        Decoded::Error(FrameError::MissingContentLength)
    );
}

#[test]
fn a_malformed_header_is_an_error() {
    assert_eq!(decode_frame(b"garbage\r\n\r\n", 10), Decoded::Error(FrameError::MalformedHeader));
    assert_eq!(
        decode_frame(b"Content-Length: abc\r\n\r\n", 10),
        Decoded::Error(FrameError::MalformedHeader)
    );
}

#[test]
fn the_end_of_the_input_is_clean_between_frames() {
    assert_eq!(end_of_input(b""), Ok(()));
    assert_eq!(end_of_input(b"Content-Length: 5\r\n\r\nab"), Err(FrameError::UnexpectedEof));
    assert_eq!(end_of_input(b"Content-"), Err(FrameError::UnexpectedEof));
}
