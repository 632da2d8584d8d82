use os_utils::error::Error;
use os_utils::text::text_end;
use os_utils::utils::{slice_until, str_from_u8};

fn buffer_with(text: &str, capacity: usize, filler: u8) -> Vec<u8> {
    let mut buf = vec![filler; capacity];
    buf[..text.len()].copy_from_slice(text.as_bytes());
    buf[text.len()] = 0;
    buf
}

#[test]
fn text_stops_at_the_first_zero_byte() {
    assert_eq!(str_from_u8(b"hello\0world"), Ok("hello"));
    assert_eq!(str_from_u8(b"a\0b\0c\0"), Ok("a"));
}

#[test]
fn text_without_zero_byte_is_the_whole_buffer() {
    assert_eq!(str_from_u8(b"hello"), Ok("hello"));
    assert_eq!(str_from_u8("gr\u{fc}\u{df}e".as_bytes()), Ok("gr\u{fc}\u{df}e"));
}

#[test]
fn empty_buffer_is_empty_text() {
    assert_eq!(str_from_u8(b""), Ok(""));
}

#[test]
fn leading_zero_byte_is_empty_text() {
    assert_eq!(str_from_u8(b"\0hello"), Ok(""));
    assert_eq!(str_from_u8(&[0u8; 16]), Ok(""));
}

#[test]
fn zero_byte_in_the_last_place() {
    assert_eq!(str_from_u8(b"abc\0"), Ok("abc"));
}

#[test]
fn text_borrows_from_the_buffer() {
    let buf = *b"name\0rest";
    let text = str_from_u8(&buf).unwrap();
    assert_eq!(text.as_ptr(), buf.as_ptr());
    assert_eq!(text.len(), 4);
}

#[test]
fn round_trip_of_terminated_text() {
    let samples = [
        "",
        "a",
        "root",
        "/proc/self/stat",
        "with space and\ttab",
        "\u{e9}t\u{e9}",
        "\u{65e5}\u{672c}\u{8a9e}",
        "\u{1f600} smile",
        "\u{7f}\u{80}\u{7ff}\u{800}\u{ffff}\u{10000}\u{10ffff}",
    ];
    for text in samples {
        for filler in [0u8, b'x', 0xff] {
            let buf = buffer_with(text, text.len() + 1, filler);
            assert_eq!(str_from_u8(&buf), Ok(text));
            let buf = buffer_with(text, 64, filler);
            assert_eq!(str_from_u8(&buf), Ok(text));
        }
    }
}

#[test]
fn text_with_a_nul_character_comes_back_cut() {
    let buf = buffer_with("a\0b", 8, b'x');
    assert_eq!(str_from_u8(&buf), Ok("a"));
}

#[test]
fn invalid_utf8_is_the_decoder_error() {
    let outcome = str_from_u8(&[b'a', b'b', 0xff, b'c', 0]);
    match outcome {
        Err(Error::Utf8(e)) => {
            assert_eq!(e.valid_up_to(), 2);
            assert_eq!(e.error_len(), Some(1));
            assert_eq!(e, std::str::from_utf8(&[b'a', b'b', 0xff, b'c']).unwrap_err());
        }
        other => panic!("expected a decoding failure, got {:?}", other),
    }
}

#[test]
fn invalid_utf8_without_zero_byte_is_the_decoder_error() {
    assert!(matches!(str_from_u8(&[0xc3]), Err(Error::Utf8(_))));
    assert!(matches!(str_from_u8(&[0xed, 0xa0, 0x80]), Err(Error::Utf8(_))));
    assert!(matches!(str_from_u8(&[0xc0, 0x80]), Err(Error::Utf8(_))));
    assert!(matches!(str_from_u8(&[0x80]), Err(Error::Utf8(_))));
}

#[test]
fn truncated_sequence_before_the_zero_byte_is_the_decoder_error() {
    match str_from_u8(&[b'o', b'k', 0xe6, 0x97, 0, 0xa5]) {
        Err(Error::Utf8(e)) => {
            assert_eq!(e.valid_up_to(), 2);
            assert_eq!(e.error_len(), None);
        }
        other => panic!("expected a decoding failure, got {:?}", other),
    }
}

#[test]
fn invalid_bytes_behind_the_zero_byte_do_not_matter() {
    assert_eq!(str_from_u8(&[b'o', b'k', 0, 0xff, 0xfe]), Ok("ok"));
}

#[test]
fn decoding_never_reports_a_slice_failure() {
    let buffers: [&[u8]; 6] = [b"", b"\0", b"abc", b"abc\0", &[0xff], &[0xff, 0]];
    for buf in buffers {
        assert_ne!(str_from_u8(buf), Err(Error::StringFromBytes));
    }
}

#[test]
fn path_to_a_missing_file_decodes() {
    let buf = buffer_with("/no/such/dir/no-such-file", 64, 0);
    assert_eq!(str_from_u8(&buf), Ok("/no/such/dir/no-such-file"));
}

#[test]
fn text_end_is_the_first_zero_byte_or_the_length() {
    assert_eq!(text_end(b""), 0);
    assert_eq!(text_end(b"\0"), 0);
    assert_eq!(text_end(b"abc"), 3);
    assert_eq!(text_end(b"abc\0"), 3);
    assert_eq!(text_end(b"ab\0c\0"), 2);
    assert_eq!(text_end(&[1u8; 2048]), 2048);
}

#[test]
fn slice_until_takes_the_head() {
    assert_eq!(slice_until(b"hello", 0), Ok(&b""[..]));
    assert_eq!(slice_until(b"hello", 2), Ok(&b"he"[..]));
    assert_eq!(slice_until(b"hello", 5), Ok(&b"hello"[..]));
    assert_eq!(slice_until(b"", 0), Ok(&b""[..]));
}

#[test]
fn slice_until_outside_the_buffer_is_string_from_bytes() {
    assert_eq!(slice_until(b"hello", 6), Err(Error::StringFromBytes));
    assert_eq!(slice_until(b"", 1), Err(Error::StringFromBytes));
    assert_eq!(slice_until(b"abc", usize::MAX), Err(Error::StringFromBytes));
}

/// Whether `bytes` is a run of well-formed UTF-8 sequences: a leading byte
/// with the right number of continuation bytes, no overlong form, no
/// surrogate, nothing above U+10FFFF.
fn well_formed(bytes: &[u8]) -> bool {
    let mut i = 0;
    while i < bytes.len() {
        let lead = bytes[i];
        let width = match lead {
            0x00..=0x7f => 1,
            0xc0..=0xdf => 2,
            0xe0..=0xef => 3,
            0xf0..=0xf7 => 4,
            _ => return false,
        };
        if i + width > bytes.len() {
            return false;
        }
        let mut scalar = match width {
            1 => u32::from(lead),
            2 => u32::from(lead & 0x1f),
            3 => u32::from(lead & 0x0f),
            _ => u32::from(lead & 0x07),
        };
        for k in 1..width {
            let next = bytes[i + k];
            if !(0x80..=0xbf).contains(&next) {
                return false;
            }
            scalar = (scalar << 6) | u32::from(next & 0x3f);
        }
        let shortest = match width {
            1 => true,
            2 => scalar >= 0x80,
            3 => scalar >= 0x800,
            _ => scalar >= 0x1_0000,
        };
        if !shortest || scalar > 0x10_ffff || (0xd800..=0xdfff).contains(&scalar) {
            return false;
        }
        i += width;
    }
    true
}

fn text_of(buf: &[u8]) -> &[u8] {
    let end = buf.iter().position(|&b| b == 0).unwrap_or(buf.len());
    &buf[..end]
}

fn assert_decodes_as_defined(buf: &[u8]) {
    let text = text_of(buf);
    match str_from_u8(buf) {
        Ok(s) => {
            assert!(well_formed(text), "accepted {:x?}", buf);
            assert_eq!(s.as_bytes(), text);
        }
        Err(e) => {
            assert!(!well_formed(text), "refused {:x?}", buf);
            assert!(matches!(e, Error::Utf8(_)));
        }
    }
}

#[test]
fn every_buffer_of_one_or_two_bytes_decodes_as_defined() {
    for a in 0..=255u8 {
        assert_decodes_as_defined(&[a]);
        for b in 0..=255u8 {
            assert_decodes_as_defined(&[a, b]);
        }
    }
}

#[test]
fn three_byte_sequences_decode_as_defined() {
    for lead in [0xe0u8, 0xe1, 0xec, 0xed, 0xee, 0xef, 0xc2, 0x7f, 0x80, 0xf0] {
        for b in 0..=255u8 {
            for c in [0x00u8, 0x41, 0x7f, 0x80, 0x9f, 0xa0, 0xbf, 0xc0, 0xff] {
                assert_decodes_as_defined(&[lead, b, c]);
                assert_decodes_as_defined(&[b'a', lead, b, c, b'z']);
            }
        }
    }
}

#[test]
fn four_byte_sequences_decode_as_defined() {
    for lead in [0xf0u8, 0xf1, 0xf3, 0xf4, 0xf5, 0xf7, 0xf8, 0xff] {
        for b in 0..=255u8 {
            for c in [0x41u8, 0x80, 0xbf, 0xc0] {
                for d in [0x00u8, 0x7f, 0x80, 0xbf, 0xc0] {
                    assert_decodes_as_defined(&[lead, b, c, d]);
                }
            }
        }
    }
}
