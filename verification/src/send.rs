//! The send-message command: sends a raw message through the backend wired
//! to the send capability. The surrounding program reads the standard input
//! and performs the network sending; which bytes are sent is decided here.

use vstd::prelude::*;

use crate::text::join_all;
use crate::text::spec_join;

verus! {

/// Sends a message: a raw message given as an argument, and the account
/// name that overrides the default account.
#[derive(Debug)]
pub struct MessageSendCommand {
    pub message: String,
    pub account: Option<String>,
}

impl MessageSendCommand {
    /// The raw message to send: the argument when the standard input is a
    /// terminal, otherwise the piped lines joined with CRLF.
    pub fn raw_message(&self, stdin_is_terminal: bool, piped_lines: &Vec<String>) -> (r: String)
        ensures
            stdin_is_terminal ==> r@ == self.message@,
            !stdin_is_terminal ==> r@ == spec_join(
                piped_lines@.map_values(|l: String| l@),
                seq!['\r', '\n'],
            ),
    {
        if stdin_is_terminal {
            self.message.clone()
        } else {
            proof {
                reveal_strlit("\r\n");
                assert("\r\n"@ =~= seq!['\r', '\n']);
            }
            join_all(piped_lines, "\r\n")
        }
    }
}

} // verus!
