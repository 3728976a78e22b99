//! The controller's error taxonomy.

use vstd::prelude::*;

verus! {

/// A hardware interface operation failed: a control file could not be
/// opened, read or written, or its content did not parse.
#[derive(Clone, Copy, Debug, PartialEq, Eq, Structural)]
pub enum HardwareAccessError {
    /// A control file could not be opened.
    OpenFailed,
    /// A read from a control file failed.
    ReadFailed,
    /// A write to a control file was rejected.
    WriteFailed,
    /// A control file's content did not parse as the expected integer.
    Unparsable,
}

/// Required configuration was absent: the process must not start the loop.
#[derive(Clone, Copy, Debug, PartialEq, Eq, Structural)]
pub enum ConfigurationError {
    /// A required configuration field was missing.
    MissingField,
}

/// Writing a telemetry line failed.  Never fatal for the control loop.
#[derive(Clone, Copy, Debug, PartialEq, Eq, Structural)]
pub enum TelemetryIOError {
    /// The telemetry sink rejected the write.
    WriteFailed,
}

} // verus!
