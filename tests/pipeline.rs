use story_time::audio::VecU8A;
use story_time::chatgpt::{self, Direction, Prompt};
use story_time::elevenlabs::{self, Voice};
use story_time::read_aloud::{Command, Dispatch, Generation};

fn scenario(output: Option<String>) -> Generation<String> {
    Generation::new(
        Direction::new("You are reading aloud".to_string()),
        Prompt::new("Tell me a short story".to_string()),
        Voice::new("MF3mGyEYCl7XYWbV9V6O".to_string()),
        output,
    )
}

fn generated() -> Result<chatgpt::Message, String> {
    Ok(chatgpt::Message::new("Once upon a time.".to_string()))
}

fn synthesized() -> Result<VecU8A, String> {
    Ok(VecU8A::from(vec![1, 2, 3]))
}

#[test]
fn command_holds_its_clients() {
    let command = Command::new(1u8, "speech");
    assert_eq!(*command.chatgpt_client(), 1u8);
    assert_eq!(*command.elevenlabs_client(), "speech");
}

#[test]
fn generation_carries_the_request() {
    let generation = scenario(None);
    assert_eq!(generation.direction.as_str(), "You are reading aloud");
    assert_eq!(generation.prompt.as_str(), "Tell me a short story");
}

#[test]
fn failing_generation_issues_no_synthesis() {
    let outcome: Result<chatgpt::Message, String> = Err("unauthorized".to_string());
    let next = scenario(Some("out.mp3".to_string())).on_generated(outcome);
    assert_eq!(next, Err("unauthorized".to_string()));
}

#[test]
fn failing_synthesis_dispatches_nothing() {
    let synthesis = scenario(Some("out.mp3".to_string()))
        .on_generated(generated())
        .expect("generation succeeded");
    let outcome: Result<VecU8A, String> = Err("bad voice".to_string());
    assert_eq!(synthesis.on_synthesized(outcome), Err("bad voice".to_string()));
}

#[test]
fn synthesis_speaks_the_message_in_the_voice() {
    let synthesis = scenario(None).on_generated(generated()).expect("generation succeeded");
    assert_eq!(synthesis.voice, Voice::new("MF3mGyEYCl7XYWbV9V6O".to_string()));
    assert_eq!(synthesis.message, elevenlabs::Message::new("Once upon a time.".to_string()));
    assert_eq!(
        elevenlabs::synthesis_body(&synthesis.message),
        "{\"text\":\"Once upon a time.\",\"model_id\":\"eleven_monolingual_v1\"}"
    );
}

#[test]
fn run_with_output_saves_the_stream() {
    let synthesis = scenario(Some("story.mp3".to_string()))
        .on_generated(generated())
        .expect("generation succeeded");
    let dispatch = synthesis.on_synthesized(synthesized()).expect("synthesis succeeded");
    match dispatch {
        Dispatch::Save(path, audio) => {
            assert_eq!(path, "story.mp3".to_string());
            assert_eq!(audio.as_bytes(), &[1u8, 2, 3][..]);
        }
        Dispatch::Play(_) => panic!("a run with an output path must save"),
    }
}

#[test]
fn run_without_output_plays_the_stream() {
    let synthesis = scenario(None).on_generated(generated()).expect("generation succeeded");
    let dispatch = synthesis.on_synthesized(synthesized()).expect("synthesis succeeded");
    assert_eq!(dispatch, Dispatch::Play(VecU8A::from(vec![1, 2, 3])));
}

#[test]
fn stream_keeps_its_bytes() {
    for bytes in [vec![], vec![7u8], vec![0u8, 255, 3, 4, 5]] {
        let stream = VecU8A::new(bytes.clone());
        assert_eq!(stream.len(), bytes.len());
        assert_eq!(stream.as_bytes(), &bytes[..]);
        assert_eq!(stream.into_bytes(), bytes);
    }
}
