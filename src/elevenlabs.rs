//! The text values of the synthesis stage, and the request that asks for speech.
use vstd::prelude::*;
use vstd::std_specs::convert::{FromSpec, FromSpecImpl};

use crate::chatgpt;
use crate::json::{self, json_string_of, NotAJsonString};

verus! {

/// Where synthesis requests go; the voice follows as one more path segment.
pub const SYNTHESIS_ENDPOINT: &'static str = "https://api.elevenlabs.io/v1/text-to-speech";

/// The synthesis model that every request selects.
pub const MODEL_ID: &'static str = "eleven_monolingual_v1";

/// The header that carries the service key.
pub const KEY_HEADER: &'static str = "xi-api-key";

/// The kind of audio that a request asks for.
pub const AUDIO_MPEG: &'static str = "audio/mpeg";

/// The identifier of a synthetic voice. The service, not this library, says
/// which identifiers exist.
#[derive(Clone, Debug, PartialEq, Eq)]
pub struct Voice(String);

impl View for Voice {
    type V = Seq<char>;

    closed spec fn view(&self) -> Seq<char> {
        self.0@
    }
}

impl Voice {
    /// The value that holds `text`.
    pub fn new(text: String) -> (r: Voice)
        ensures
            r@ == text@,
    {
        Voice(text)
    }

    /// The text, as it is displayed.
    pub fn to_string(&self) -> (r: String)
        ensures
            r@ == self@,
    {
        self.0.clone()
    }

    /// The text, borrowed.
    pub fn as_str(&self) -> (r: &str)
        ensures
            r@ == self@,
    {
        self.0.as_str()
    }

    /// The text, given back.
    pub fn into_string(self) -> (r: String)
        ensures
            r@ == self@,
    {
        self.0
    }

    /// The value's JSON form: the bare string literal of its text.
    pub fn to_json(&self) -> (r: String)
        ensures
            r@ == json_string_of(self@),
    {
        json::encode(&self.0)
    }

    /// The value whose JSON form is `t`.
    pub fn from_json(t: &str) -> (r: Result<Voice, NotAJsonString>)
        ensures
            forall|s: Seq<char>| #[trigger] json_string_of(s) == t@ ==> (r matches Ok(v) && v@ == s),
    {
        match json::decode(t) {
            Ok(v) => Ok(Voice(v)),
            Err(e) => Err(e),
        }
    }
}

impl From<String> for Voice {
    fn from(v: String) -> Voice {
        Voice(v)
    }
}

impl FromSpecImpl<String> for Voice {
    open spec fn obeys_from_spec() -> bool {
        true
    }

    closed spec fn from_spec(v: String) -> Voice {
        Voice(v)
    }
}

impl From<Voice> for String {
    fn from(v: Voice) -> String {
        v.0
    }
}

impl FromSpecImpl<Voice> for String {
    open spec fn obeys_from_spec() -> bool {
        true
    }

    closed spec fn from_spec(v: Voice) -> String {
        v.0
    }
}

/// The credential of the speech-synthesis service. Its text is handed to the
/// service as it is; the service decides whether it is valid.
#[derive(Clone, Debug, PartialEq, Eq)]
pub struct Key(String);

impl View for Key {
    type V = Seq<char>;

    closed spec fn view(&self) -> Seq<char> {
        self.0@
    }
}

impl Key {
    /// The value that holds `text`.
    pub fn new(text: String) -> (r: Key)
        ensures
            r@ == text@,
    {
        Key(text)
    }

    /// The text, as it is displayed.
    pub fn to_string(&self) -> (r: String)
        ensures
            r@ == self@,
    {
        self.0.clone()
    }

    /// The text, borrowed.
    pub fn as_str(&self) -> (r: &str)
        ensures
            r@ == self@,
    {
        self.0.as_str()
    }

    /// The text, given back.
    pub fn into_string(self) -> (r: String)
        ensures
            r@ == self@,
    {
        self.0
    }

    /// The value's JSON form: the bare string literal of its text.
    pub fn to_json(&self) -> (r: String)
        ensures
            r@ == json_string_of(self@),
    {
        json::encode(&self.0)
    }

    /// The value whose JSON form is `t`.
    pub fn from_json(t: &str) -> (r: Result<Key, NotAJsonString>)
        ensures
            forall|s: Seq<char>| #[trigger] json_string_of(s) == t@ ==> (r matches Ok(v) && v@ == s),
    {
        match json::decode(t) {
            Ok(v) => Ok(Key(v)),
            Err(e) => Err(e),
        }
    }
}

impl From<String> for Key {
    fn from(v: String) -> Key {
        Key(v)
    }
}

impl FromSpecImpl<String> for Key {
    open spec fn obeys_from_spec() -> bool {
        true
    }

    closed spec fn from_spec(v: String) -> Key {
        Key(v)
    }
}

impl From<Key> for String {
    fn from(v: Key) -> String {
        v.0
    }
}

impl FromSpecImpl<Key> for String {
    open spec fn obeys_from_spec() -> bool {
        true
    }

    closed spec fn from_spec(v: Key) -> String {
        v.0
    }
}

/// The text to be spoken: a generated message, or one made from a plain string.
#[derive(Clone, Debug, PartialEq, Eq)]
pub struct Message(String);

impl View for Message {
    type V = Seq<char>;

    closed spec fn view(&self) -> Seq<char> {
        self.0@
    }
}

impl Message {
    /// The value that holds `text`.
    pub fn new(text: String) -> (r: Message)
        ensures
            r@ == text@,
    {
        Message(text)
    }

    /// The text, as it is displayed.
    pub fn to_string(&self) -> (r: String)
        ensures
            r@ == self@,
    {
        self.0.clone()
    }

    /// The text, borrowed.
    pub fn as_str(&self) -> (r: &str)
        ensures
            r@ == self@,
    {
        self.0.as_str()
    }

    /// The text, given back.
    pub fn into_string(self) -> (r: String)
        ensures
            r@ == self@,
    {
        self.0
    }

    /// The value's JSON form: the bare string literal of its text.
    pub fn to_json(&self) -> (r: String)
        ensures
            r@ == json_string_of(self@),
    {
        json::encode(&self.0)
    }

    /// The value whose JSON form is `t`.
    pub fn from_json(t: &str) -> (r: Result<Message, NotAJsonString>)
        ensures
            forall|s: Seq<char>| #[trigger] json_string_of(s) == t@ ==> (r matches Ok(v) && v@ == s),
    {
        match json::decode(t) {
            Ok(v) => Ok(Message(v)),
            Err(e) => Err(e),
        }
    }
}

impl From<String> for Message {
    fn from(v: String) -> Message {
        Message(v)
    }
}

impl FromSpecImpl<String> for Message {
    open spec fn obeys_from_spec() -> bool {
        true
    }

    closed spec fn from_spec(v: String) -> Message {
        Message(v)
    }
}

impl From<Message> for String {
    fn from(v: Message) -> String {
        v.0
    }
}

impl FromSpecImpl<Message> for String {
    open spec fn obeys_from_spec() -> bool {
        true
    }

    closed spec fn from_spec(v: Message) -> String {
        v.0
    }
}

impl Message {
    /// The generated message, made ready to be spoken.
    pub fn from_generated(m: chatgpt::Message) -> (r: Message)
        ensures
            r@ == m@,
    {
        Message(m.into_string())
    }
}

impl From<chatgpt::Message> for Message {
    fn from(v: chatgpt::Message) -> Message {
        Message(String::from(v))
    }
}

impl FromSpecImpl<chatgpt::Message> for Message {
    open spec fn obeys_from_spec() -> bool {
        true
    }

    closed spec fn from_spec(v: chatgpt::Message) -> Message {
        Message(<String as FromSpec<chatgpt::Message>>::from_spec(v))
    }
}

/// The JSON body of a synthesis request for the text `text`: the text and the
/// fixed model, whose name needs no escape.
pub open spec fn synthesis_body_of(text: Seq<char>) -> Seq<char> {
    "{\"text\":"@ + json_string_of(text) + ",\"model_id\":\""@ + MODEL_ID@ + "\"}"@
}

/// The JSON body of the request that asks for `message` to be spoken.
pub fn synthesis_body(message: &Message) -> (r: String)
    ensures
        r@ == synthesis_body_of(message@),
{
    let mut body = String::from_str("{\"text\":");
    let text = json::encode(&message.0);
    body.append(text.as_str());
    body.append(",\"model_id\":\"");
    body.append(MODEL_ID);
    body.append("\"}");
    body
}

/// Each text value of this stage gives back exactly the text that it was made from.
pub proof fn lemma_text_round_trip(s: String)
    ensures
        <String as FromSpec<Voice>>::from_spec(<Voice as FromSpec<String>>::from_spec(s)) == s,
        <String as FromSpec<Key>>::from_spec(<Key as FromSpec<String>>::from_spec(s)) == s,
        <String as FromSpec<Message>>::from_spec(<Message as FromSpec<String>>::from_spec(s)) == s,
        <Voice as FromSpec<String>>::from_spec(s)@ == s@,
        <Key as FromSpec<String>>::from_spec(s)@ == s@,
        <Message as FromSpec<String>>::from_spec(s)@ == s@,
{
}

} // verus!
