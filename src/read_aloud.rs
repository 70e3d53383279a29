//! The pipeline: generate a text, have it spoken, then play or save the audio.
//!
//! Each stage is a value that says what the next outside call is to be given;
//! handing it that call's outcome gives the next stage, or the run's failure.
use vstd::prelude::*;

use crate::audio::VecU8A;
use crate::chatgpt::{self, Direction, Prompt};
use crate::elevenlabs::{self, Voice};

verus! {

/// The two service clients that a run uses: one that generates text and one
/// that synthesizes speech. The command holds nothing else.
#[derive(Debug)]
pub struct Command<G, S> {
    chatgpt_client: G,
    elevenlabs_client: S,
}

impl<G, S> Command<G, S> {
    /// The client that generates text.
    pub closed spec fn generator(&self) -> G {
        self.chatgpt_client
    }

    /// The client that synthesizes speech.
    pub closed spec fn synthesizer(&self) -> S {
        self.elevenlabs_client
    }

    /// The command that runs on these two clients.
    pub fn new(chatgpt_client: G, elevenlabs_client: S) -> (r: Command<G, S>)
        ensures
            r.generator() == chatgpt_client,
            r.synthesizer() == elevenlabs_client,
    {
        Command { chatgpt_client, elevenlabs_client }
    }

    /// The client that generates text.
    pub fn chatgpt_client(&self) -> (r: &G)
        ensures
            *r == self.generator(),
    {
        &self.chatgpt_client
    }

    /// The client that synthesizes speech.
    pub fn elevenlabs_client(&self) -> (r: &S)
        ensures
            *r == self.synthesizer(),
    {
        &self.elevenlabs_client
    }
}

/// The first stage of a run: what to generate from, and what the later stages
/// will need. The audio is saved to `output` when there is one, else played.
#[derive(Clone, Debug, PartialEq, Eq)]
pub struct Generation<P> {
    pub direction: Direction,
    pub prompt: Prompt,
    pub voice: Voice,
    pub output: Option<P>,
}

/// The second stage of a run: the generated text, to be spoken in the run's voice.
#[derive(Clone, Debug, PartialEq, Eq)]
pub struct Synthesis<P> {
    pub voice: Voice,
    pub message: elevenlabs::Message,
    pub output: Option<P>,
}

/// The last stage of a run: what the sink is to do with the audio.
#[derive(Clone, Debug, PartialEq, Eq)]
pub enum Dispatch<P> {
    /// Write the stream to the path, replacing what was there.
    Save(P, VecU8A),
    /// Play the stream on the default output device.
    Play(VecU8A),
}

impl<P> Generation<P> {
    /// A run that generates from `direction` and `prompt`, speaks the result in
    /// `voice`, and saves the audio to `output` or, without one, plays it.
    pub fn new(direction: Direction, prompt: Prompt, voice: Voice, output: Option<P>) -> (r:
        Generation<P>)
        ensures
            r.direction == direction,
            r.prompt == prompt,
            r.voice == voice,
            r.output == output,
    {
        Generation { direction, prompt, voice, output }
    }

    /// The stage that follows the generation call. Its failure ends the run
    /// with that very error, and no synthesis follows; a message goes on to be
    /// spoken, in the run's voice and with the run's output.
    pub fn on_generated<E>(self, outcome: Result<chatgpt::Message, E>) -> (r: Result<
        Synthesis<P>,
        E,
    >)
        ensures
            outcome is Err ==> r == Err::<Synthesis<P>, E>(outcome->Err_0),
            outcome is Ok ==> {
                &&& r is Ok
                &&& r->Ok_0.voice == self.voice
                &&& r->Ok_0.message@ == outcome->Ok_0@
                &&& r->Ok_0.output == self.output
            },
    {
        match outcome {
            Ok(m) => Ok(
                Synthesis {
                    voice: self.voice,
                    message: elevenlabs::Message::from_generated(m),
                    output: self.output,
                },
            ),
            Err(e) => Err(e),
        }
    }
}

impl<P> Synthesis<P> {
    /// The stage that follows the synthesis call. Its failure ends the run with
    /// that very error, and the sink is given nothing; a stream is saved to the
    /// run's output when there is one, and played otherwise.
    pub fn on_synthesized<E>(self, outcome: Result<VecU8A, E>) -> (r: Result<Dispatch<P>, E>)
        ensures
            outcome is Err ==> r == Err::<Dispatch<P>, E>(outcome->Err_0),
            outcome is Ok ==> r == Ok::<Dispatch<P>, E>(
                match self.output {
                    Some(path) => Dispatch::Save(path, outcome->Ok_0),
                    None => Dispatch::Play(outcome->Ok_0),
                },
            ),
    {
        match outcome {
            Ok(audio) => match self.output {
                Some(path) => Ok(Dispatch::Save(path, audio)),
                None => Ok(Dispatch::Play(audio)),
            },
            Err(e) => Err(e),
        }
    }
}

} // verus!
