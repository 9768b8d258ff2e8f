//! Trusted access to the two process-wide output streams.
//!
//! Logging must never fail the calling program, so a failed write or
//! flush is deliberately discarded here: not surfaced, not retried.

use std::io::Write;
use vstd::prelude::*;

verus! {

/// Relies on `std::io::Stdout`'s `write_fmt` (through the `write!`
/// macro): writes the bytes of `line` to the primary stream.
/// A failure is discarded.
#[verifier::external_body]
pub(crate) fn write_primary(line: &str) {
    let mut out = std::io::stdout();
    let _ = write!(out, "{}", line);
}

/// Relies on `std::io::Stderr`'s `write_fmt` (through the `write!`
/// macro): writes the bytes of `line` to the error stream.
/// A failure is discarded.
#[verifier::external_body]
pub(crate) fn write_error(line: &str) {
    let mut out = std::io::stderr();
    let _ = write!(out, "{}", line);
}

/// Relies on `std::io::Stdout::flush`: drains the primary stream's
/// buffering. A failure is discarded.
#[verifier::external_body]
pub(crate) fn flush_primary() {
    let _ = std::io::stdout().flush();
}

/// Relies on `std::io::Stderr::flush`: drains the error stream's
/// buffering. A failure is discarded.
#[verifier::external_body]
pub(crate) fn flush_error() {
    let _ = std::io::stderr().flush();
}

} // verus!
