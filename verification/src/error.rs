use vstd::prelude::*;

verus! {

/// The closed set of decode failures shared by both codecs.
#[derive(Clone, Debug, PartialEq, Eq)]
pub enum SerdeError {
    /// A free-form error produced by a surrounding serialization framework.
    Message(String),
    /// Bytes of the right length that do not decode to a valid value.
    ParsingError,
    /// Input whose byte length is not the expected fixed length.
    DataLengthError,
    /// Unclassified; should not normally occur.
    Other,
}

impl SerdeError {
    /// Wraps a framework message; used for both serialization directions.
    pub fn from_message(msg: String) -> (r: SerdeError)
        ensures
            r == SerdeError::Message(msg),
    {
        SerdeError::Message(msg)
    }

    /// What `message` returns for each variant.
    pub open spec fn spec_message(&self) -> Seq<char> {
        match self {
            SerdeError::Other => "unknown error"@,
            SerdeError::ParsingError => "parsing error"@,
            SerdeError::DataLengthError => "data length error"@,
            SerdeError::Message(x) => x@,
        }
    }

    /// A short description of the error.
    pub fn message(&self) -> (r: &str)
        ensures
            r@ == self.spec_message(),
    {
        match self {
            SerdeError::Other => "unknown error",
            SerdeError::ParsingError => "parsing error",
            SerdeError::DataLengthError => "data length error",
            SerdeError::Message(x) => x.as_str(),
        }
    }
}

} // verus!
