//! The terminal capability a session's surroundings must provide: showing
//! titled messages and snippets, and reading a line from the operator. The
//! implementations live with the application; nothing here is assumed about
//! their behaviour.

use vstd::prelude::*;
use crate::errors::SessionError;

verus! {

/// What the surrounding application shows and asks on the session's behalf.
/// `get_user_input` returns `None` when the operator aborted the read.
pub trait IO {
    fn show_message(&self, title: &str, text: &str);

    fn show_snippet(&self, title: &str, text: &str);

    fn get_user_input(&mut self, prompt: &str) -> Result<Option<String>, SessionError>;
}

} // verus!
