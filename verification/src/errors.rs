//! The error type shared by the archive tools.

use vstd::prelude::*;
use vstd::string::StringExecFns;

verus! {

/// A failure of the tools.
#[derive(Debug, Clone)]
pub enum Error {
    /// Reading, writing or listing files failed; the text is the cause.
    IOError(String),
    /// The archive codec failed; the text is the cause.
    SevenzError(String),
    /// A checksum algorithm was asked for by a name that the catalogue does
    /// not hold; the text says which.
    UnknownAlgorithm(String),
}

impl Error {
    /// The name of the variant, as text.
    pub open spec fn variant_name(self) -> Seq<char> {
        match self {
            Error::IOError(_) => "IOError"@,
            Error::SevenzError(_) => "SevenzError"@,
            Error::UnknownAlgorithm(_) => "UnknownAlgorithm"@,
        }
    }

    /// The text that the error carries.
    pub open spec fn message(self) -> Seq<char> {
        match self {
            Error::IOError(cause) => cause@,
            Error::SevenzError(cause) => cause@,
            Error::UnknownAlgorithm(cause) => cause@,
        }
    }

    /// The name of the variant: `"IOError"`, `"SevenzError"` or
    /// `"UnknownAlgorithm"`.
    pub fn variant(&self) -> (name: String)
        ensures
            name@ == self.variant_name(),
    {
        match self {
            Error::IOError(_) => "IOError".to_string(),
            Error::SevenzError(_) => "SevenzError".to_string(),
            Error::UnknownAlgorithm(_) => "UnknownAlgorithm".to_string(),
        }
    }

    /// The error as one line of text: the variant's name directly followed by
    /// the message, with nothing between them.
    pub fn describe(&self) -> (line: String)
        ensures
            line@ == self.variant_name() + self.message(),
    {
        let mut line = self.variant();
        match self {
            Error::IOError(cause) => line.append(cause.as_str()),
            Error::SevenzError(cause) => line.append(cause.as_str()),
            Error::UnknownAlgorithm(cause) => line.append(cause.as_str()),
        }
        line
    }
}

} // verus!
