//! The CLI command that sets one configuration key. Only its description is
//! computed here; applying the update to the configuration store is the CLI
//! runtime's business.

use vstd::prelude::*;
use vstd::string::StringExecFns;

verus! {

/// Set a configuration key to a value.
#[derive(Clone, Debug, PartialEq, Eq)]
pub struct SetConfigCommand {
    pub key: String,
    pub value: String,
}

impl SetConfigCommand {
    /// What this command does, in words.
    pub fn description(&self) -> (r: String)
        ensures
            r@ == "set the configuration key: '"@ + self.key@ + "' with value: "@ + self.value@
                + "."@,
    {
        let mut text = String::from_str("set the configuration key: '");
        text.append(self.key.as_str());
        text.append("' with value: ");
        text.append(self.value.as_str());
        text.append(".");
        proof {
            assert(text@ =~= "set the configuration key: '"@ + self.key@ + "' with value: "@
                + self.value@ + "."@);
        }
        text
    }
}

} // verus!
