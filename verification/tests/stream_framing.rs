use sakura_ai_rs::text::{is_white_space_char, trim_text};
use sakura_ai_rs::StreamDecoder;

fn payloads(d: &mut StreamDecoder, text: &str) -> Vec<String> {
    d.push_text(text)
}

#[test]
fn white_space_matches_char_is_whitespace() {
    for u in 0u32..=0x10FFFF {
        if let Some(c) = char::from_u32(u) {
            assert_eq!(is_white_space_char(c), c.is_whitespace(), "char U+{:04X}", u);
        }
    }
}

#[test]
fn trim_text_matches_str_trim() {
    let samples = [
        "",
        "   ",
        "  abc  ",
        "\t\r\n data: x \u{3000}",
        "\u{85}\u{a0}inner space\u{2028}",
        "no-trim",
        "\u{200b}zero width is not white space\u{200b}",
    ];
    for s in samples {
        assert_eq!(trim_text(s), s.trim());
    }
}

#[test]
fn data_lines_are_framed() {
    let mut d = StreamDecoder::new();
    let out = payloads(&mut d, "data: {\"a\":1}\n\ndata: {\"b\":2}\n");
    assert_eq!(out, vec!["{\"a\":1}".to_string(), "{\"b\":2}".to_string()]);
    assert_eq!(d.finish(), None);
}

#[test]
fn incomplete_line_waits_for_next_chunk() {
    let mut d = StreamDecoder::new();
    assert!(payloads(&mut d, "data: {\"a\"").is_empty());
    assert_eq!(payloads(&mut d, ":1}\r\n"), vec!["{\"a\":1}".to_string()]);
}

#[test]
fn done_marker_ends_framing() {
    let mut d = StreamDecoder::new();
    let out = payloads(&mut d, "data: one\ndata: [DONE]\ndata: two\n");
    assert_eq!(out, vec!["one".to_string()]);
    assert!(payloads(&mut d, "data: three\n").is_empty());
    assert_eq!(
        d.finish(),
        Some("data: [DONE]\ndata: two\ndata: three\n".to_string())
    );
}

#[test]
fn repeated_data_prefix_and_plain_lines() {
    let mut d = StreamDecoder::new();
    let out = payloads(&mut d, "  data: data:  x  \n{\"plain\":true}\n   \n");
    assert_eq!(out, vec!["x".to_string(), "{\"plain\":true}".to_string()]);
}

#[test]
fn data_without_space_is_a_plain_line() {
    let mut d = StreamDecoder::new();
    let out = payloads(&mut d, "data:{}\ndata: \n");
    assert_eq!(out, vec!["data:{}".to_string(), "data:".to_string()]);
}

#[test]
fn chunking_does_not_change_framing() {
    let text = "data: alpha\n\ndata: beta gamma\n: comment\ndata: [DONE]\ndata: x\n";
    let mut whole = StreamDecoder::new();
    let expected = whole.push_text(text);
    let expected_rest = whole.finish();
    for cut in 0..=text.len() {
        if !text.is_char_boundary(cut) {
            continue;
        }
        let mut d = StreamDecoder::new();
        let mut out = d.push_text(&text[..cut]);
        out.extend(d.push_text(&text[cut..]));
        assert_eq!(out, expected, "cut at {}", cut);
        assert_eq!(d.finish(), expected_rest, "cut at {}", cut);
    }
}

#[test]
fn invalid_utf8_chunk_is_dropped() {
    let mut d = StreamDecoder::new();
    assert!(d.push_bytes(b"data: a").is_empty());
    assert!(d.push_bytes(&[0xff, b'\n']).is_empty());
    assert_eq!(d.push_bytes(b"\n"), vec!["a".to_string()]);
}

#[test]
fn multibyte_text_is_decoded() {
    let mut d = StreamDecoder::new();
    let out = d.push_bytes("data: こんにちは\n".as_bytes());
    assert_eq!(out, vec!["こんにちは".to_string()]);
}

#[test]
fn finish_returns_untrimmed_rest() {
    let mut d = StreamDecoder::new();
    assert!(d.push_text("  {\"last\":1} ").is_empty());
    assert_eq!(d.finish(), Some("  {\"last\":1} ".to_string()));
}
