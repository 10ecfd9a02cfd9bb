//! Trace output sinks.

use std::io::Write;
use vstd::prelude::*;

verus! {

/// Print test info to the output.  Printing is observational only: nothing
/// in the checking logic depends on it.
pub trait Printer {
    /// Print an info string to the output.
    fn print(&mut self, s: &str);
}

/// Relies on std::io::Stdout's Write implementation: the line goes to
/// standard output and the logic ignores the outcome.
#[verifier::external_body]
pub(crate) fn write_stdout(s: &str) {
    let _ = writeln!(std::io::stdout(), "{}", s);
}

/// A printer that writes each line to standard output.
pub struct StdoutPrinter;

impl Printer for StdoutPrinter {
    fn print(&mut self, s: &str) {
        write_stdout(s);
    }
}

} // verus!
