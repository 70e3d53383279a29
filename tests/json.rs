use story_time::chatgpt::Message;
use story_time::elevenlabs;
use story_time::json::{decode, encode, NotAJsonString};

#[test]
fn encode_escapes_quote_and_backslash() {
    assert_eq!(encode(&"a\"b\\c".to_string()), "\"a\\\"b\\\\c\"");
}

#[test]
fn encode_escapes_control_characters() {
    assert_eq!(
        encode(&"\u{8}\t\n\u{c}\r".to_string()),
        "\"\\b\\t\\n\\f\\r\""
    );
    assert_eq!(encode(&"\u{1}\u{1f}".to_string()), "\"\\u0001\\u001f\"");
}

#[test]
fn encode_leaves_other_characters() {
    assert_eq!(encode(&"é/\u{7f}".to_string()), "\"é/\u{7f}\"");
    assert_eq!(encode(&String::new()), "\"\"");
}

#[test]
fn decode_reads_back_every_escape() {
    let text = "q\" b\\ \u{8}\t\n\u{c}\r \u{1} \u{1f} é".to_string();
    assert_eq!(decode(&encode(&text)), Ok(text));
}

#[test]
fn decode_refuses_what_is_not_a_string() {
    assert_eq!(decode("test"), Err(NotAJsonString));
    assert_eq!(decode("{\"a\":1}"), Err(NotAJsonString));
    assert_eq!(decode("\"open"), Err(NotAJsonString));
}

#[test]
fn message_from_json_refuses_an_object() {
    assert_eq!(Message::from_json("{}"), Err(NotAJsonString));
}

#[test]
fn synthesis_body_holds_text_and_model() {
    let message = elevenlabs::Message::new("Once upon a time.".to_string());
    assert_eq!(
        elevenlabs::synthesis_body(&message),
        "{\"text\":\"Once upon a time.\",\"model_id\":\"eleven_monolingual_v1\"}"
    );
}

#[test]
fn synthesis_body_escapes_the_text() {
    let message = elevenlabs::Message::new("say \"hi\"\n".to_string());
    assert_eq!(
        elevenlabs::synthesis_body(&message),
        "{\"text\":\"say \\\"hi\\\"\\n\",\"model_id\":\"eleven_monolingual_v1\"}"
    );
}
