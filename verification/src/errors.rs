use vstd::prelude::*;
use vstd::string::StringExecFns;

verus! {

/// Failures reported while opening a session or analyzing text.
#[derive(Debug, PartialEq, Eq)]
pub enum Error {
    /// The engine reported a failure; the payload is the engine's own
    /// diagnostic text.
    KhaiiiExcept(String),
    /// Analysis was attempted while no session was open.
    ResourcesFailure,
    /// The engine reported a failure but its message was not decodable text.
    Unknown,
}

impl Error {
    /// Classifies the engine's last-error message: decodable text becomes
    /// `KhaiiiExcept` carrying that text, an undecodable message becomes
    /// `Unknown`.
    pub fn from_last_error(message: Option<String>) -> (r: Error)
        ensures
            message matches Some(m) ==> r == Error::KhaiiiExcept(m),
            message is None ==> r == Error::Unknown,
    {
        match message {
            Some(m) => Error::KhaiiiExcept(m),
            None => Error::Unknown,
        }
    }

    /// A human-readable description of the failure.
    pub fn message(&self) -> (r: String)
        ensures
            self matches Error::KhaiiiExcept(m) ==> r@ == "Khaiii exception: "@ + m@,
            self is ResourcesFailure ==> r@ == "Khaiii resources were not loaded"@,
            self is Unknown ==> r@ == "Unknown exception"@,
    {
        match self {
            Error::KhaiiiExcept(m) => {
                let mut s = String::from_str("Khaiii exception: ");
                s.append(m.as_str());
                s
            },
            Error::ResourcesFailure => String::from_str("Khaiii resources were not loaded"),
            Error::Unknown => String::from_str("Unknown exception"),
        }
    }
}

} // verus!
