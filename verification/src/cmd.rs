//! The commands of the key-value service, as plain values.

use vstd::prelude::*;

verus! {

/// The upper-case form of a text.
pub uninterp spec fn uppercase(text: Seq<char>) -> Seq<char>;

/// Calls `str::to_uppercase`. Trusted: the result is what `uppercase` names
/// for the text.
#[verifier::external_body]
fn to_uppercase(text: &str) -> (upper: String)
    ensures
        upper@ == uppercase(text@),
{
    text.to_uppercase()
}

/// Get the value of the key.
#[derive(Debug)]
pub struct Get {
    /// Name of the key to retrieve
    key: String,
}

impl Get {
    /// The key that the command fetches.
    pub closed spec fn key_text(&self) -> Seq<char> {
        self.key@
    }

    /// Create a new `Get` command which fetches the `key`.
    pub fn new(key: &str) -> (command: Get)
        ensures
            command.key_text() == key@,
    {
        Get { key: key.to_owned() }
    }

    /// The key that the command fetches.
    pub fn key(&self) -> (key: &str)
        ensures
            key@ == self.key_text(),
    {
        self.key.as_str()
    }
}

/// Set `key` to hold the string `value`.
#[derive(Debug)]
pub struct SetCommand {
    /// the lookup key
    key: String,
    /// the value to be stored
    value: String,
}

impl SetCommand {
    /// The key that the command writes.
    pub closed spec fn key_text(&self) -> Seq<char> {
        self.key@
    }

    /// The value that the command stores.
    pub closed spec fn value_text(&self) -> Seq<char> {
        self.value@
    }

    /// Create a new command which sets `key` to `value`.
    pub fn new(key: &str, value: &str) -> (command: SetCommand)
        ensures
            command.key_text() == key@,
            command.value_text() == value@,
    {
        SetCommand { key: key.to_owned(), value: value.to_owned() }
    }

    /// The key that the command writes.
    pub fn key(&self) -> (key: &str)
        ensures
            key@ == self.key_text(),
    {
        self.key.as_str()
    }

    /// The value that the command stores.
    pub fn value(&self) -> (value: &str)
        ensures
            value@ == self.value_text(),
    {
        self.value.as_str()
    }
}

/// Returns a copy of its message in upper case; used to test whether a
/// connection is still alive.
#[derive(Debug)]
pub struct Ping {
    message: String,
}

impl Ping {
    /// The message of the command.
    pub closed spec fn message_text(&self) -> Seq<char> {
        self.message@
    }

    /// Create a new `Ping` command with `message`.
    pub fn new(message: &str) -> (command: Ping)
        ensures
            command.message_text() == message@,
    {
        Ping { message: message.to_owned() }
    }

    /// The answer to the command once the service was found alive: the
    /// message in upper case.
    pub fn reply(&self) -> (answer: String)
        ensures
            answer@ == uppercase(self.message_text()),
    {
        to_uppercase(self.message.as_str())
    }
}

/// Resets the service.
#[derive(Debug)]
pub struct Reset {
    _msg: String,
}

impl Default for Reset {
    /// The command with an empty message.
    fn default() -> (command: Self)
        ensures
            command.message_text() == Seq::<char>::empty(),
    {
        Reset { _msg: String::new() }
    }
}

impl Reset {
    /// The message of the command.
    pub closed spec fn message_text(&self) -> Seq<char> {
        self._msg@
    }

    /// Create a new `Reset` command with `_msg`.
    pub fn new(_msg: String) -> (command: Self)
        ensures
            command.message_text() == _msg@,
    {
        Self { _msg }
    }
}

} // verus!
