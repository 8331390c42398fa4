//! The immutable configuration, parsed once at startup.

use vstd::prelude::*;

verus! {

/// Configuration for the uploader loop. All fields are read-only after
/// startup; nothing else persists across cycles but the sleep delay.
pub struct Config {
    /// Seconds between successful cycles.
    pub interval: u64,
    /// Opaque credential string handed to the upload collaborator.
    pub token: String,
    /// Opaque device identifier; also names the local snapshot file.
    pub fingerprint: String,
    /// When true, collaborator output is echoed to the logger.
    pub debug: bool,
    /// When true, colored diagnostic output is suppressed.
    pub no_color: bool,
}

impl Config {
    /// A configuration is valid when the interval is positive and the
    /// tripled back-off delay still fits in a `u64`.
    pub open spec fn wf(&self) -> bool {
        1 <= self.interval && self.interval * 3 <= u64::MAX
    }
}

} // verus!
