use vstd::prelude::*;

verus! {

/// Errors reported by the scheduler core.
#[derive(Debug, Clone)]
pub enum Error {
    Config(String),
    Policy(String),
    InvalidState(String),
    Runtime(String),
    NotFound(String),
    Io(String),
    Database(String),
    Serialization(String),
}

/// The label that precedes an error's message in its text form.
pub open spec fn error_label(e: Error) -> Seq<char> {
    match e {
        Error::Config(_) => "configuration error: "@,
        Error::Policy(_) => "policy violation: "@,
        Error::InvalidState(_) => "invalid state: "@,
        Error::Runtime(_) => "runtime error: "@,
        Error::NotFound(_) => "not found: "@,
        Error::Io(_) => "io error: "@,
        Error::Database(_) => "database error: "@,
        Error::Serialization(_) => "serialization error: "@,
    }
}

/// The message carried by an error.
pub open spec fn error_message(e: Error) -> Seq<char> {
    match e {
        Error::Config(m) => m@,
        Error::Policy(m) => m@,
        Error::InvalidState(m) => m@,
        Error::Runtime(m) => m@,
        Error::NotFound(m) => m@,
        Error::Io(m) => m@,
        Error::Database(m) => m@,
        Error::Serialization(m) => m@,
    }
}

impl Error {
    /// Human-readable text: the error's label followed by its message.
    pub fn to_string(&self) -> (text: String)
        ensures
            text@ == error_label(*self) + error_message(*self),
    {
        let (label, message) = match self {
            Error::Config(m) => ("configuration error: ", m),
            Error::Policy(m) => ("policy violation: ", m),
            Error::InvalidState(m) => ("invalid state: ", m),
            Error::Runtime(m) => ("runtime error: ", m),
            Error::NotFound(m) => ("not found: ", m),
            Error::Io(m) => ("io error: ", m),
            Error::Database(m) => ("database error: ", m),
            Error::Serialization(m) => ("serialization error: ", m),
        };
        let mut text = String::from_str(label);
        text.append(message.as_str());
        text
    }
}

} // verus!
