use vstd::prelude::*;

verus! {

/// The errors returned by the library.
#[derive(Debug, Clone, Copy, PartialEq, Eq, Structural)]
pub enum Error {
    /// An invalid AWS region name was provided. Older entry points returned
    /// this variant; `InvalidAwsRegion` replaces it.
    InvalidRegion,
    /// An invalid AWS region name was provided.
    InvalidAwsRegion,
    /// An invalid Deno Deploy region name was provided.
    InvalidDenoRegion,
}

impl Error {
    /// The fixed description of the error.
    pub open spec fn spec_message(self) -> Seq<char> {
        match self {
            Error::InvalidRegion => "invalid AWS region"@,
            Error::InvalidAwsRegion => "invalid AWS region"@,
            Error::InvalidDenoRegion => "invalid Deno Deploy region"@,
        }
    }

    /// Returns the fixed description of the error.
    pub fn message(&self) -> (m: &'static str)
        ensures
            m@ == self.spec_message(),
    {
        match self {
            Error::InvalidRegion => "invalid AWS region",
            Error::InvalidAwsRegion => "invalid AWS region",
            Error::InvalidDenoRegion => "invalid Deno Deploy region",
        }
    }
}

} // verus!
