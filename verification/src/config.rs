//! Decode configuration: two independent three-mode settings controlling
//! CRC validation and network-stream decoding strictness.

use vstd::prelude::*;

verus! {

/// How the decode engine validates the header and content checksums.
#[derive(Clone, Copy, PartialEq, Eq, Structural, Debug)]
pub enum InternalCrcCheck {
    /// Validate both CRCs and fail the decode on any mismatch.
    Always,
    /// Skip CRC validation entirely (useful for corrupted captures).
    Never,
    /// Decode optimistically; validate the CRC only if the primary decode
    /// path fails, to produce a more specific error.
    OnError,
}

/// Whether the network stream is decoded, and how a failure there is treated.
#[derive(Clone, Copy, PartialEq, Eq, Structural, Debug)]
pub enum InternalNetworkParse {
    /// Network decode is mandatory; a failure fails the whole decode.
    Always,
    /// Skip the network stream; the result has no network frames by design.
    Never,
    /// Attempt the network decode; on failure discard it and return the
    /// header-only replay successfully.
    IgnoreOnError,
}

/// A numeric code for an optional CRC setting, used to state which
/// configuration a decode ran under. `0` stands for "no override":
/// the engine's own documented default applies.
pub open spec fn crc_code(c: Option<InternalCrcCheck>) -> int {
    match c {
        None => 0,
        Some(InternalCrcCheck::Always) => 1,
        Some(InternalCrcCheck::Never) => 2,
        Some(InternalCrcCheck::OnError) => 3,
    }
}

/// A numeric code for an optional network-parse setting; `0` again stands
/// for "no override, engine default".
pub open spec fn net_code(n: Option<InternalNetworkParse>) -> int {
    match n {
        None => 0,
        Some(InternalNetworkParse::Always) => 1,
        Some(InternalNetworkParse::Never) => 2,
        Some(InternalNetworkParse::IgnoreOnError) => 3,
    }
}

} // verus!
