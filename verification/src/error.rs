use vstd::prelude::*;

verus! {

/// Errors raised when a distribution is built from parameters.
#[derive(Debug, Clone, PartialEq, Eq)]
pub enum DistributionError {
    /// A parameter is out of its domain; the message says which rule failed.
    InvalidParameter(&'static str),
}

/// The text a `DistributionError` is rendered as.
pub open spec fn error_text(e: DistributionError) -> Seq<char> {
    match e {
        DistributionError::InvalidParameter(msg) => "invalid parameter: "@ + msg@,
    }
}

impl DistributionError {
    /// Renders the error for humans: `invalid parameter: <message>`.
    pub fn to_string(&self) -> (s: String)
        ensures
            s@ == error_text(*self),
    {
        match self {
            DistributionError::InvalidParameter(msg) => {
                let prefix = String::from_str("invalid parameter: ");
                prefix.concat(msg)
            },
        }
    }
}

} // verus!
