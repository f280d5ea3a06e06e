//! The debug log. Logging is switched off: messages are dropped.

use vstd::prelude::*;

verus! {

/// Logs a debug message; logging is switched off, so nothing happens.
pub fn log_message(message: &str) {
}

} // verus!
