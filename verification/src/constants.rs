//! Constants of the archiver's raw protocol and of the default configuration.

use vstd::prelude::*;

verus! {

/// Starts an escape sequence in the raw format.
pub const ESCAPE_CHAR: u8 = 0x1B;
/// Escaped form of the escape byte itself.
pub const ESCAPE_ESCAPE_CHAR: u8 = 0x01;
/// Separates the header and the samples in the raw format.
pub const NEWLINE_CHAR: u8 = 0x0A;
/// Escaped form of a newline.
pub const NEWLINE_ESCAPE_CHAR: u8 = 0x02;
/// A carriage return.
pub const CARRIAGERETURN_CHAR: u8 = 0x0D;
/// Escaped form of a carriage return.
pub const CARRIAGERETURN_ESCAPE_CHAR: u8 = 0x03;

/// Request timeout of the default configuration, in seconds.
pub const DEFAULT_TIMEOUT_SECS: u64 = 300;
/// The archiver the default configuration talks to.
pub const DEFAULT_BASE_URL: &'static str = "http://lcls-archapp.slac.stanford.edu/retrieval";

} // verus!
