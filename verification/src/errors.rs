use vstd::prelude::*;

verus! {

/// The individual per-display attributes that the native layer answers
/// through fallible queries.
#[derive(Clone, Copy, Debug, PartialEq, Eq, Structural)]
pub enum Field {
    Id,
    Width,
    Height,
    Name,
    IsPrimary,
}

/// Failure of a directory operation: either the query of the whole display
/// set failed, or a single attribute query failed while building a snapshot
/// (fail-fast: no partial snapshot is ever produced), or a default display
/// was requested while none is attached.
#[derive(Debug)]
pub enum EnumerationError {
    /// The native query of the full display set failed.
    NativeQuery { message: String },
    /// One attribute query failed during snapshot construction. `identity`
    /// is the display's identity when it could be read, `None` when the
    /// identity query itself is what failed.
    FieldQuery { identity: Option<u32>, field: Field, message: String },
    /// The default display was requested but the enumeration was empty.
    NoDisplays,
}

/// Failure of a capture request.
#[derive(Debug)]
#[allow(inconsistent_fields)]
pub enum CaptureError {
    /// The fresh native enumeration that a capture starts with failed.
    Enumeration { message: String },
    /// An attribute query failed while resolving the capture target.
    FieldQuery { identity: Option<u32>, field: Field, message: String },
    /// No display in the fresh enumeration carries the requested identity.
    NotFound { identity: u32 },
    /// The matched display reports a zero width or height; capture is not
    /// attempted on it.
    InvalidDimensions { identity: u32, width: u32, height: u32 },
    /// The native capture call on the matched display failed.
    CaptureFailed { identity: u32, message: String },
    /// The worker that ran the native interaction terminated abnormally
    /// before yielding a result.
    WorkerAborted { message: String },
}

} // verus!
