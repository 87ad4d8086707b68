//! Encoders: what every encoder offers, its error, and its settings.

use vstd::prelude::*;

use crate::log4rs::Log4rsEncoderSettings;

verus! {

/// The error an encoder reports.
#[derive(Debug, Clone)]
pub struct EncodeError {
    msg: String,
}

impl View for EncodeError {
    type V = Seq<char>;

    closed spec fn view(&self) -> Seq<char> {
        self.msg@
    }
}

impl EncodeError {
    /// An error with the given message.
    pub fn new(message: &str) -> (e: EncodeError)
        ensures
            e@ == message@,
    {
        EncodeError { msg: message.to_owned() }
    }

    /// The message the error was made with.
    pub fn msg(&self) -> (m: &str)
        ensures
            m@ == self@,
    {
        self.msg.as_str()
    }

    /// The error as it reads to a user: `Error in encoder: ` and the message.
    pub fn to_display_string(&self) -> (s: String)
        ensures
            s@ == "Error in encoder: "@ + self@,
    {
        let mut s = String::from_str("Error in encoder: ");
        s.append(self.msg.as_str());
        s
    }
}

/// What an encoder produced for one batch of data: the records to write, in
/// order, to the logger named `target`, and whether the whole batch went
/// through.
pub struct EncodeOutcome {
    pub target: String,
    pub records: Vec<String>,
    pub result: Result<(), EncodeError>,
}

/// The text of each string in `v`.
pub open spec fn texts(v: Seq<String>) -> Seq<Seq<char>> {
    v.map_values(|s: String| s@)
}

/// An encoder of Auth0 alert batches.
pub trait Encode {
    /// Turns a batch of alerts into records.
    fn encode(&self, data: &serde_json::Value) -> EncodeOutcome;

    /// The encoder's name.
    fn name(&self) -> String;
}

/// Settings of an encoder.
pub trait EncodeSettings {
}

/// The encoders that can be configured.
#[derive(Debug)]
pub enum EncoderType {
    Log4rs(Log4rsEncoderSettings),
}

impl Clone for EncoderType {
    fn clone(&self) -> (t: Self)
        ensures
            t == *self,
    {
        match self {
            EncoderType::Log4rs(s) => EncoderType::Log4rs(s.clone()),
        }
    }
}

/// The `encoders` part of the configuration.
#[derive(Debug)]
pub struct EncodersSettings {
    pub encoders: Vec<EncoderType>,
}

} // verus!
