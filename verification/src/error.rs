//! Why a plugin pass can fail.

use vstd::prelude::*;
use vstd::string::StringExecFns;

verus! {

/// A failure of the plugin bridge. Each one fails the pass it occurs in; none
/// is swallowed, and none takes back findings that were already merged.
#[derive(Debug, PartialEq, Eq)]
pub enum BridgeError {
    /// A payload that crossed the boundary does not have the agreed shape.
    Protocol,
    /// A control-flow query arrived while no control-flow table was installed.
    MissingContext,
    /// The plugin module, or a module that it imports, could not be read.
    Io(String),
    /// The script threw, and nothing in the script caught it.
    ScriptFault(String),
}

impl BridgeError {
    /// What went wrong, in words.
    pub open spec fn spec_message(&self) -> Seq<char> {
        match self {
            BridgeError::Protocol => "malformed payload"@,
            BridgeError::MissingContext => "ControlFlow is not set"@,
            BridgeError::Io(detail) => detail@,
            BridgeError::ScriptFault(detail) => detail@,
        }
    }

    /// What went wrong, in words.
    pub fn message(&self) -> (text: String)
        ensures
            text@ == self.spec_message(),
    {
        match self {
            BridgeError::Protocol => String::from_str("malformed payload"),
            BridgeError::MissingContext => String::from_str("ControlFlow is not set"),
            BridgeError::Io(detail) => detail.clone(),
            BridgeError::ScriptFault(detail) => detail.clone(),
        }
    }
}

} // verus!
