//! The two error shapes of the command layer.
use vstd::prelude::*;
use vstd::string::StringExecFns;

use crate::verb::{verb_name, Verb};

verus! {

/// A command line that could not be parsed. The payload explains why.
#[derive(Debug)]
pub struct CommandError(pub String);

impl Default for CommandError {
    fn default() -> (r: Self)
        ensures
            r.0@ == Seq::<char>::empty(),
    {
        CommandError(String::new())
    }
}

impl CommandError {
    /// The line of explanation sent back to the peer.
    pub fn message(&self) -> (r: String)
        ensures
            self.0@.len() == 0 ==> r@ == "Invalid command"@,
            self.0@.len() > 0 ==> r@ == "Invalid command: "@ + self.0@,
    {
        if self.0.as_str().is_empty() {
            "Invalid command".to_owned()
        } else {
            "Invalid command: ".to_owned().concat(self.0.as_str())
        }
    }
}

/// An executor that could not produce a result for a verb.
#[derive(Debug)]
pub struct ExecutionError(pub Verb, pub String);

impl ExecutionError {
    /// The line of explanation kept for the server log.
    pub fn message(&self) -> (r: String)
        ensures
            self.1@.len() == 0 ==> r@ == "Error when executing command "@ + verb_name(self.0),
            self.1@.len() > 0 ==> r@ == "Error when executing command "@ + verb_name(self.0)
                + ": "@ + self.1@,
    {
        let head = "Error when executing command ".to_owned().concat(self.0.name());
        if self.1.as_str().is_empty() {
            head
        } else {
            head.concat(": ").concat(self.1.as_str())
        }
    }
}

} // verus!
