use story_time::chatgpt;
use story_time::elevenlabs::{Key, Message, Voice};

#[test]
fn message_can_be_made_from_chatgpt_message() {
    let message: Message = chatgpt::Message::from("test".to_string()).into();
    assert_eq!(message, Message::new("test".to_string()));
}

#[test]
fn elevenlabs_message_is_a_string_in_json() {
    let message: Message = "test".to_string().into();
    assert_eq!(message.to_json(), "\"test\"".to_string());
}

#[test]
fn elevenlabs_message_can_be_made_from_string() {
    let message: Message = "test".to_string().into();
    assert_eq!(message, Message::new("test".to_string()));
}

#[test]
fn elevenlabs_message_implements_display() {
    let message = Message::new("test".to_string());
    assert_eq!(message.to_string(), "test");
}

#[test]
fn elevenlabs_message_implements_into_string() {
    let message: String = Message::new("test".to_string()).into();
    assert_eq!(message, "test".to_string());
}

#[test]
fn voice_is_a_string_in_json() {
    let voice: Voice = "test".to_string().into();
    assert_eq!(voice.to_json(), "\"test\"".to_string());
}

#[test]
fn voice_can_be_made_from_string() {
    let voice: Voice = "test".to_string().into();
    assert_eq!(voice, Voice::new("test".to_string()));
}

#[test]
fn voice_implements_display() {
    let voice = Voice::new("test".to_string());
    assert_eq!(voice.to_string(), "test");
}

#[test]
fn voice_implements_into_string() {
    let voice: String = Voice::new("test".to_string()).into();
    assert_eq!(voice, "test".to_string());
}

#[test]
fn elevenlabs_key_is_a_string_in_json() {
    let key: Key = "test".to_string().into();
    assert_eq!(key.to_json(), "\"test\"".to_string());
}

#[test]
fn elevenlabs_key_can_be_made_from_string() {
    let key: Key = "test".to_string().into();
    assert_eq!(key, Key::new("test".to_string()));
}

#[test]
fn elevenlabs_key_implements_display() {
    let key = Key::new("test".to_string());
    assert_eq!(key.to_string(), "test");
}

#[test]
fn elevenlabs_key_implements_into_string() {
    let key: String = Key::new("test".to_string()).into();
    assert_eq!(key, "test".to_string());
}

#[test]
fn message_from_generated_keeps_text() {
    let generated = chatgpt::Message::new("Once upon a time.".to_string());
    assert_eq!(Message::from_generated(generated).as_str(), "Once upon a time.");
}

#[test]
fn voice_json_reads_back() {
    let voice = Voice::new("MF3mGyEYCl7XYWbV9V6O".to_string());
    assert_eq!(voice.to_json(), "\"MF3mGyEYCl7XYWbV9V6O\"");
    assert_eq!(Voice::from_json("\"MF3mGyEYCl7XYWbV9V6O\""), Ok(voice));
}
