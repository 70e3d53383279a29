//! The text values of the generation stage: the service key, the direction
//! that sets the tone, the prompt, and the message that comes back.
use vstd::prelude::*;
use vstd::std_specs::convert::{FromSpec, FromSpecImpl};

use crate::json::{self, json_string_of, NotAJsonString};

verus! {

/// The credential of the text-generation service. Its text is handed to the
/// service as it is; the service decides whether it is valid.
#[derive(Clone, Debug, PartialEq, Eq)]
pub struct Key(String);

impl View for Key {
    type V = Seq<char>;

    closed spec fn view(&self) -> Seq<char> {
        self.0@
    }
}

impl Key {
    /// The value that holds `text`.
    pub fn new(text: String) -> (r: Key)
        ensures
            r@ == text@,
    {
        Key(text)
    }

    /// The text, as it is displayed.
    pub fn to_string(&self) -> (r: String)
        ensures
            r@ == self@,
    {
        self.0.clone()
    }

    /// The text, borrowed.
    pub fn as_str(&self) -> (r: &str)
        ensures
            r@ == self@,
    {
        self.0.as_str()
    }

    /// The text, given back.
    pub fn into_string(self) -> (r: String)
        ensures
            r@ == self@,
    {
        self.0
    }

    /// The value's JSON form: the bare string literal of its text.
    pub fn to_json(&self) -> (r: String)
        ensures
            r@ == json_string_of(self@),
    {
        json::encode(&self.0)
    }

    /// The value whose JSON form is `t`.
    pub fn from_json(t: &str) -> (r: Result<Key, NotAJsonString>)
        ensures
            forall|s: Seq<char>| #[trigger] json_string_of(s) == t@ ==> (r matches Ok(v) && v@ == s),
    {
        match json::decode(t) {
            Ok(v) => Ok(Key(v)),
            Err(e) => Err(e),
        }
    }
}

impl From<String> for Key {
    fn from(v: String) -> Key {
        Key(v)
    }
}

impl FromSpecImpl<String> for Key {
    open spec fn obeys_from_spec() -> bool {
        true
    }

    closed spec fn from_spec(v: String) -> Key {
        Key(v)
    }
}

impl From<Key> for String {
    fn from(v: Key) -> String {
        v.0
    }
}

impl FromSpecImpl<Key> for String {
    open spec fn obeys_from_spec() -> bool {
        true
    }

    closed spec fn from_spec(v: Key) -> String {
        v.0
    }
}

/// An instruction that sets the tone of the generated text. Any text, the
/// empty one included.
#[derive(Clone, Debug, PartialEq, Eq)]
pub struct Direction(String);

impl View for Direction {
    type V = Seq<char>;

    closed spec fn view(&self) -> Seq<char> {
        self.0@
    }
}

impl Direction {
    /// The value that holds `text`.
    pub fn new(text: String) -> (r: Direction)
        ensures
            r@ == text@,
    {
        Direction(text)
    }

    /// The text, as it is displayed.
    pub fn to_string(&self) -> (r: String)
        ensures
            r@ == self@,
    {
        self.0.clone()
    }

    /// The text, borrowed.
    pub fn as_str(&self) -> (r: &str)
        ensures
            r@ == self@,
    {
        self.0.as_str()
    }

    /// The text, given back.
    pub fn into_string(self) -> (r: String)
        ensures
            r@ == self@,
    {
        self.0
    }

    /// The value's JSON form: the bare string literal of its text.
    pub fn to_json(&self) -> (r: String)
        ensures
            r@ == json_string_of(self@),
    {
        json::encode(&self.0)
    }

    /// The value whose JSON form is `t`.
    pub fn from_json(t: &str) -> (r: Result<Direction, NotAJsonString>)
        ensures
            forall|s: Seq<char>| #[trigger] json_string_of(s) == t@ ==> (r matches Ok(v) && v@ == s),
    {
        match json::decode(t) {
            Ok(v) => Ok(Direction(v)),
            Err(e) => Err(e),
        }
    }
}

impl From<String> for Direction {
    fn from(v: String) -> Direction {
        Direction(v)
    }
}

impl FromSpecImpl<String> for Direction {
    open spec fn obeys_from_spec() -> bool {
        true
    }

    closed spec fn from_spec(v: String) -> Direction {
        Direction(v)
    }
}

impl From<Direction> for String {
    fn from(v: Direction) -> String {
        v.0
    }
}

impl FromSpecImpl<Direction> for String {
    open spec fn obeys_from_spec() -> bool {
        true
    }

    closed spec fn from_spec(v: Direction) -> String {
        v.0
    }
}

/// The text that the generation starts from. Any text.
#[derive(Clone, Debug, PartialEq, Eq)]
pub struct Prompt(String);

impl View for Prompt {
    type V = Seq<char>;

    closed spec fn view(&self) -> Seq<char> {
        self.0@
    }
}

impl Prompt {
    /// The value that holds `text`.
    pub fn new(text: String) -> (r: Prompt)
        ensures
            r@ == text@,
    {
        Prompt(text)
    }

    /// The text, as it is displayed.
    pub fn to_string(&self) -> (r: String)
        ensures
            r@ == self@,
    {
        self.0.clone()
    }

    /// The text, borrowed.
    pub fn as_str(&self) -> (r: &str)
        ensures
            r@ == self@,
    {
        self.0.as_str()
    }

    /// The text, given back.
    pub fn into_string(self) -> (r: String)
        ensures
            r@ == self@,
    {
        self.0
    }

    /// The value's JSON form: the bare string literal of its text.
    pub fn to_json(&self) -> (r: String)
        ensures
            r@ == json_string_of(self@),
    {
        json::encode(&self.0)
    }

    /// The value whose JSON form is `t`.
    pub fn from_json(t: &str) -> (r: Result<Prompt, NotAJsonString>)
        ensures
            forall|s: Seq<char>| #[trigger] json_string_of(s) == t@ ==> (r matches Ok(v) && v@ == s),
    {
        match json::decode(t) {
            Ok(v) => Ok(Prompt(v)),
            Err(e) => Err(e),
        }
    }
}

impl From<String> for Prompt {
    fn from(v: String) -> Prompt {
        Prompt(v)
    }
}

impl FromSpecImpl<String> for Prompt {
    open spec fn obeys_from_spec() -> bool {
        true
    }

    closed spec fn from_spec(v: String) -> Prompt {
        Prompt(v)
    }
}

impl From<Prompt> for String {
    fn from(v: Prompt) -> String {
        v.0
    }
}

impl FromSpecImpl<Prompt> for String {
    open spec fn obeys_from_spec() -> bool {
        true
    }

    closed spec fn from_spec(v: Prompt) -> String {
        v.0
    }
}

/// A generated text, or one made from a plain string.
#[derive(Clone, Debug, PartialEq, Eq)]
pub struct Message(String);

impl View for Message {
    type V = Seq<char>;

    closed spec fn view(&self) -> Seq<char> {
        self.0@
    }
}

impl Message {
    /// The value that holds `text`.
    pub fn new(text: String) -> (r: Message)
        ensures
            r@ == text@,
    {
        Message(text)
    }

    /// The text, as it is displayed.
    pub fn to_string(&self) -> (r: String)
        ensures
            r@ == self@,
    {
        self.0.clone()
    }

    /// The text, borrowed.
    pub fn as_str(&self) -> (r: &str)
        ensures
            r@ == self@,
    {
        self.0.as_str()
    }

    /// The text, given back.
    pub fn into_string(self) -> (r: String)
        ensures
            r@ == self@,
    {
        self.0
    }

    /// The value's JSON form: the bare string literal of its text.
    pub fn to_json(&self) -> (r: String)
        ensures
            r@ == json_string_of(self@),
    {
        json::encode(&self.0)
    }

    /// The value whose JSON form is `t`.
    pub fn from_json(t: &str) -> (r: Result<Message, NotAJsonString>)
        ensures
            forall|s: Seq<char>| #[trigger] json_string_of(s) == t@ ==> (r matches Ok(v) && v@ == s),
    {
        match json::decode(t) {
            Ok(v) => Ok(Message(v)),
            Err(e) => Err(e),
        }
    }
}

impl From<String> for Message {
    fn from(v: String) -> Message {
        Message(v)
    }
}

impl FromSpecImpl<String> for Message {
    open spec fn obeys_from_spec() -> bool {
        true
    }

    closed spec fn from_spec(v: String) -> Message {
        Message(v)
    }
}

impl From<Message> for String {
    fn from(v: Message) -> String {
        v.0
    }
}

impl FromSpecImpl<Message> for String {
    open spec fn obeys_from_spec() -> bool {
        true
    }

    closed spec fn from_spec(v: Message) -> String {
        v.0
    }
}

/// Each text value of this stage gives back exactly the text that it was made from.
pub proof fn lemma_text_round_trip(s: String)
    ensures
        <String as FromSpec<Key>>::from_spec(<Key as FromSpec<String>>::from_spec(s)) == s,
        <String as FromSpec<Direction>>::from_spec(<Direction as FromSpec<String>>::from_spec(s)) == s,
        <String as FromSpec<Prompt>>::from_spec(<Prompt as FromSpec<String>>::from_spec(s)) == s,
        <String as FromSpec<Message>>::from_spec(<Message as FromSpec<String>>::from_spec(s)) == s,
        <Key as FromSpec<String>>::from_spec(s)@ == s@,
        <Direction as FromSpec<String>>::from_spec(s)@ == s@,
        <Prompt as FromSpec<String>>::from_spec(s)@ == s@,
        <Message as FromSpec<String>>::from_spec(s)@ == s@,
{
}

} // verus!
