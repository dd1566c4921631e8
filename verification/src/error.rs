use vstd::prelude::*;
use vstd::string::*;

verus! {

/// The failure kinds of the numerical routines this crate supports.
///
/// The variant set is closed: these four kinds are the library's only
/// failure modes, and no variant carries more than one message field.
#[derive(Debug)]
pub enum NumalError {
    /// A caller-supplied argument violated a precondition.
    InvalidInput(String),
    /// A comparison or iterative process failed to reach its tolerance.
    DidNotConverge,
    /// A derivative-dependent operation could not produce a value.
    DerivativeNotComputable,
    /// An underlying library reported an error; the message is forwarded verbatim.
    LibErr(String),
}

impl NumalError {
    /// The human-readable rendering of each error kind.
    pub open spec fn message_spec(&self) -> Seq<char> {
        match self {
            NumalError::InvalidInput(msg) => "INVALID INPUT: "@ + msg@,
            NumalError::DidNotConverge => "FAILED TO CONVERGE"@,
            NumalError::DerivativeNotComputable => "DERIVATIVE NOT COMPUTABLE"@,
            NumalError::LibErr(msg) => "NUMAL LIB ERROR: "@ + msg@,
        }
    }

    /// Render this error for users and logs, exactly as `message_spec` states.
    pub fn message(&self) -> (r: String)
        ensures
            r@ == self.message_spec(),
    {
        match self {
            NumalError::InvalidInput(msg) => {
                String::from_str("INVALID INPUT: ").concat(msg.as_str())
            },
            NumalError::DidNotConverge => String::from_str("FAILED TO CONVERGE"),
            NumalError::DerivativeNotComputable => {
                String::from_str("DERIVATIVE NOT COMPUTABLE")
            },
            NumalError::LibErr(msg) => {
                String::from_str("NUMAL LIB ERROR: ").concat(msg.as_str())
            },
        }
    }
}

} // verus!
