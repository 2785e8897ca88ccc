use nothing_as_a_service::json::encode_string;
use nothing_as_a_service::NothingResponse;

#[test]
fn plain_text_is_only_quoted() {
    assert_eq!(encode_string("nothing"), "\"nothing\"");
    assert_eq!(encode_string(""), "\"\"");
    assert_eq!(encode_string("a b/c~\u{7f}"), "\"a b/c~\u{7f}\"");
    assert_eq!(encode_string("h\u{e9}llo \u{4e16}\u{754c} \u{1f600}"), "\"h\u{e9}llo \u{4e16}\u{754c} \u{1f600}\"");
}

#[test]
fn quote_backslash_and_controls_are_escaped() {
    assert_eq!(encode_string("a\"b"), "\"a\\\"b\"");
    assert_eq!(encode_string("a\\b"), "\"a\\\\b\"");
    assert_eq!(encode_string("\n\r\t"), "\"\\n\\r\\t\"");
    assert_eq!(encode_string("\u{8}\u{c}"), "\"\\b\\f\"");
    assert_eq!(encode_string("\u{0}\u{1f}"), "\"\\u0000\\u001f\"");
}

#[test]
fn every_character_is_escaped_or_left_alone_by_the_same_rule() {
    for code in 0..=0x10ffffu32 {
        let Some(c) = char::from_u32(code) else { continue };
        let text = c.to_string();
        let encoded = encode_string(&text);
        let plain = c >= ' ' && c != '"' && c != '\\';
        assert_eq!(encoded == format!("\"{}\"", text), plain, "U+{:04X}", code);
    }
}

#[test]
fn plain_text_of_any_length_is_only_quoted() {
    let mut text = String::new();
    for c in (' '..='~').chain('\u{a0}'..='\u{ff}') {
        if c != '"' && c != '\\' {
            text.push(c);
        }
    }
    assert_eq!(encode_string(&text), format!("\"{}\"", text));
}

#[test]
fn encoded_text_reads_back_as_the_same_text() {
    for text in ["nothing", "", "a\"b\\c", "line\nbreak", "\u{0}\u{1}\u{1f}", "\u{2028}\u{fffd}"] {
        let encoded = encode_string(text);
        let back: String = serde_json::from_str(&encoded).unwrap();
        assert_eq!(back, text);
    }
}

#[test]
fn nothing_payload_holds_nothing() {
    assert_eq!(NothingResponse::nothing().result, "nothing");
}

#[test]
fn frame_puts_the_value_under_result() {
    assert_eq!(NothingResponse::frame("\"nothing\""), "{\"result\":\"nothing\"}");
    assert_eq!(NothingResponse::frame("1"), "{\"result\":1}");
    assert_eq!(NothingResponse::frame(""), "{\"result\":}");
}

#[test]
fn payload_serializes_without_whitespace() {
    assert_eq!(NothingResponse::nothing().to_json(), "{\"result\":\"nothing\"}");
}

#[test]
fn payload_with_other_text_is_escaped_inside_the_object() {
    let payload = NothingResponse { result: "say \"nothing\"\n".to_string() };
    let text = payload.to_json();
    assert_eq!(text, "{\"result\":\"say \\\"nothing\\\"\\n\"}");

    let json: serde_json::Value = serde_json::from_str(&text).unwrap();
    assert_eq!(json["result"], "say \"nothing\"\n");
    assert_eq!(json.as_object().unwrap().len(), 1);
}
