use vstd::prelude::*;

verus! {

/// What went wrong in the emulator's surroundings.
#[derive(Clone, Copy, Debug, PartialEq, Eq, Structural)]
pub enum EmulatorErrorType {
    AudioInitFailed,
}

impl EmulatorErrorType {
    /// The text of each error's message.
    pub open spec fn message_spec(self) -> Seq<char> {
        match self {
            EmulatorErrorType::AudioInitFailed => "Audio initialization failed!"@,
        }
    }

    /// The message that describes the error.
    pub fn message(&self) -> (m: String)
        ensures
            m@ == self.message_spec(),
    {
        match self {
            EmulatorErrorType::AudioInitFailed => "Audio initialization failed!".to_string(),
        }
    }
}

/// An error with its kind and a description.
pub struct EmulatorError {
    pub error_type: EmulatorErrorType,
    pub info: String,
}

impl EmulatorError {
    pub fn new(error_type: EmulatorErrorType, info: String) -> (e: EmulatorError)
        ensures
            e.error_type == error_type,
            e.info@ == info@,
    {
        EmulatorError { error_type, info }
    }
}

} // verus!
