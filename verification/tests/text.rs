use brotli_codec::text::REPLACEMENT;
use brotli_codec::{
    brotli_compress, brotli_compress_string, brotli_decompress, bytes_to_string,
    gbrotli_decompress_string, string_to_bytes,
};

fn texts() -> Vec<String> {
    vec![
        String::new(),
        "a".to_string(),
        "hello, world".to_string(),
        "h\u{e9}llo w\u{f6}rld".to_string(),
        "\u{4f60}\u{597d}\u{ff0c}\u{4e16}\u{754c}".to_string(),
        "\u{1f600} and \u{10348}".to_string(),
        "kept as it is: \u{fffd}".to_string(),
        "line\n".repeat(2_000),
    ]
}

#[test]
fn replacement_is_u_fffd() {
    assert_eq!(REPLACEMENT, '\u{FFFD}');
    assert_eq!(REPLACEMENT, char::REPLACEMENT_CHARACTER);
}

#[test]
fn string_to_bytes_is_the_utf8_encoding() {
    assert_eq!(string_to_bytes(""), Vec::<u8>::new());
    assert_eq!(string_to_bytes("abc"), vec![0x61, 0x62, 0x63]);
    assert_eq!(string_to_bytes("\u{e9}"), vec![0xC3, 0xA9]);
    assert_eq!(string_to_bytes("\u{20ac}"), vec![0xE2, 0x82, 0xAC]);
    assert_eq!(string_to_bytes("\u{1f600}"), vec![0xF0, 0x9F, 0x98, 0x80]);
    assert_eq!(string_to_bytes("a\u{e9}\u{20ac}"), vec![0x61, 0xC3, 0xA9, 0xE2, 0x82, 0xAC]);
}

#[test]
fn bytes_to_string_reads_valid_utf8_as_it_is() {
    assert_eq!(bytes_to_string(&[]), "");
    assert_eq!(bytes_to_string(b"abc"), "abc");
    assert_eq!(bytes_to_string(&[0xC3, 0xA9]), "\u{e9}");
    assert_eq!(bytes_to_string(&[0xF0, 0x9F, 0x98, 0x80]), "\u{1f600}");
}

#[test]
fn bytes_to_string_replaces_ff_fe() {
    let text = bytes_to_string(&[0xFF, 0xFE]);
    assert!(text.contains(REPLACEMENT));
    assert_eq!(text, "\u{FFFD}\u{FFFD}");
}

#[test]
fn bytes_to_string_replaces_only_what_is_invalid() {
    assert_eq!(bytes_to_string(b"Hello \xF0\x90\x80World"), "Hello \u{FFFD}World");
    assert_eq!(bytes_to_string(&[0x61, 0x80, 0x62]), "a\u{FFFD}b");
    assert_eq!(bytes_to_string(&[0xC3]), "\u{FFFD}");
    assert_eq!(bytes_to_string(&[0xED, 0xA0, 0x80]), "\u{FFFD}\u{FFFD}\u{FFFD}");
    assert_eq!(bytes_to_string(&[0xC0, 0x80]), "\u{FFFD}\u{FFFD}");
}

#[test]
fn text_survives_the_trip_through_bytes() {
    for text in texts() {
        assert_eq!(bytes_to_string(&string_to_bytes(&text)), text);
    }
}

#[test]
fn text_round_trip_with_absent_settings() {
    for text in texts() {
        let stream = brotli_compress_string(&text, None, None).unwrap();
        assert_eq!(gbrotli_decompress_string(&stream), Some(text));
    }
}

#[test]
fn text_round_trip_over_all_valid_settings() {
    let text = "h\u{e9}llo, \u{4e16}\u{754c}! ".repeat(50);
    for quality in 0..=11u32 {
        for lg_window in 20..=21u32 {
            let stream = brotli_compress_string(&text, Some(quality), Some(lg_window)).unwrap();
            assert_eq!(gbrotli_decompress_string(&stream), Some(text.clone()));
        }
    }
}

#[test]
fn compress_string_is_compress_of_the_bytes() {
    for text in texts() {
        let settings = [(None, None), (Some(0u32), Some(20u32)), (Some(11), Some(21))];
        for (quality, lg_window) in settings {
            assert_eq!(
                brotli_compress_string(&text, quality, lg_window),
                brotli_compress(&string_to_bytes(&text), quality, lg_window),
            );
        }
    }
}

#[test]
fn decompress_string_is_decompress_then_read() {
    let stream = brotli_compress(b"plain", None, None).unwrap();
    assert_eq!(
        gbrotli_decompress_string(&stream),
        brotli_decompress(&stream).map(|payload| bytes_to_string(&payload)),
    );
    assert_eq!(gbrotli_decompress_string(&stream), Some("plain".to_string()));
}

#[test]
fn decompress_string_of_invalid_stream_is_nothing() {
    assert_eq!(gbrotli_decompress_string(&[0xFF]), None);
    assert_eq!(gbrotli_decompress_string(&[]), None);
    assert_eq!(gbrotli_decompress_string(b"not a stream"), None);
}

#[test]
fn decompress_string_repairs_a_payload_that_is_not_utf8() {
    let stream = brotli_compress(&[0x61, 0xFF, 0xFE, 0x62], None, None).unwrap();
    assert_eq!(gbrotli_decompress_string(&stream), Some("a\u{FFFD}\u{FFFD}b".to_string()));
}

#[test]
fn decompress_string_of_a_known_stream() {
    let stream = b"\x8f\x02\x80\x68\x65\x6c\x6c\x6f\x0a\x03";
    assert_eq!(gbrotli_decompress_string(stream), Some("hello\n".to_string()));
}
