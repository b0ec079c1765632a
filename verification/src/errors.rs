//! The error taxonomy of the tool, as an explicit error-kind enum.
//!
//! Every failure short-circuits the pipeline and is reported once, at the top
//! level, as a primary message followed by the remaining causes of its chain,
//! ordered from most specific to most general.

use vstd::prelude::*;

verus! {

/// One failure of the pipeline, with everything the top-level report needs.
#[derive(Clone, Debug, PartialEq, Eq)]
pub enum SendError {
    /// No authentication token was found, neither on the command line nor in
    /// the environment.
    MissingToken,
    /// Reading standard input (or writing diagnostics) failed; carries the
    /// underlying I/O error's message.
    IoError { message: String },
    /// The remote chat service rejected the request, or transport failed;
    /// carries the upstream error chain verbatim, most specific cause first.
    ServiceError { chain: Vec<String> },
}

impl SendError {
    /// The full chain of messages this error reports: the primary message
    /// first, then each further cause in order.
    pub open spec fn chain_spec(self) -> Seq<Seq<char>> {
        match self {
            SendError::MissingToken => seq!["No token found"@],
            SendError::IoError { message } => seq![message@],
            SendError::ServiceError { chain } => chain@.map_values(|s: String| s@),
        }
    }

    /// Renders the error as its chain of messages, primary first; the
    /// top-level handler prints the first as `error:` and each of the rest as
    /// `caused by:`.
    pub fn into_messages(self) -> (r: Vec<String>)
        ensures
            r@.map_values(|s: String| s@) == self.chain_spec(),
    {
        match self {
            SendError::MissingToken => {
                let mut v: Vec<String> = Vec::new();
                v.push("No token found".to_owned());
                proof {
                    assert(v@.map_values(|s: String| s@) =~= self.chain_spec());
                }
                v
            },
            SendError::IoError { message } => {
                let mut v: Vec<String> = Vec::new();
                v.push(message);
                proof {
                    assert(v@.map_values(|s: String| s@) =~= self.chain_spec());
                }
                v
            },
            SendError::ServiceError { chain } => chain,
        }
    }
}

} // verus!
