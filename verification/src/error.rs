//! The ways in which a run can fail.

use vstd::prelude::*;

verus! {

/// Why nothing was snipped.
#[derive(Clone, Debug, PartialEq, Eq)]
pub enum SnipError {
    /// A pattern is not a regular expression that can be compiled. The
    /// field holds the regex engine's own message.
    Pattern(String),
    /// A target index names no function of the module, or an imported one.
    InvalidTarget(usize),
}

impl SnipError {
    /// The sentence that `message` returns.
    pub open spec fn message_text(&self) -> Seq<char> {
        match self {
            SnipError::Pattern(m) => "failed to compile pattern: "@ + m@,
            SnipError::InvalidTarget(_) => "target is not a local function of the module"@,
        }
    }

    /// A sentence for the user.
    pub fn message(&self) -> (s: String)
        ensures
            s@ == self.message_text(),
    {
        match self {
            SnipError::Pattern(m) => String::from_str("failed to compile pattern: ").concat(
                m.as_str(),
            ),
            SnipError::InvalidTarget(_) => String::from_str(
                "target is not a local function of the module",
            ),
        }
    }
}

} // verus!
