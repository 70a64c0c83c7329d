//! The parser facade: raw bytes plus a decode configuration in, one
//! boundary document or one classified failure out.

use vstd::prelude::*;
use crate::config::{crc_code, net_code, InternalCrcCheck, InternalNetworkParse};
use crate::engine::{
    engine_accepts, engine_document, engine_fault_code, engine_fault_text, run_engine,
    EngineFault, FAULT_NETWORK, FAULT_UNEXPECTED_PROPERTY,
};

verus! {

/// The kind of a decode failure. Exactly one kind is reported per failure,
/// and no partial document ever accompanies one.
#[derive(Debug, Clone, Copy, PartialEq, Eq, Structural)]
pub enum DecodeErrorKind {
    /// The bytes do not constitute a valid replay container.
    MalformedInput,
    /// CRC validation was performed and failed.
    ChecksumMismatch,
    /// The network-stream pass failed and the configuration made that fatal.
    NetworkDecodeFailure,
    /// The header declares content outside the engine's known range.
    UnsupportedVersion,
}

/// A decode failure: its kind and the engine's description of the cause.
#[derive(Debug, Clone, PartialEq)]
pub struct DecodeError {
    pub kind: DecodeErrorKind,
    pub detail: String,
}

/// The kind assigned to each engine fault class: checksum faults map to
/// [`DecodeErrorKind::ChecksumMismatch`], a failed network pass to
/// [`DecodeErrorKind::NetworkDecodeFailure`], header content outside the
/// engine's known range to [`DecodeErrorKind::UnsupportedVersion`], and
/// every other fault to [`DecodeErrorKind::MalformedInput`].
pub open spec fn kind_of_fault(code: int) -> DecodeErrorKind {
    if code == crate::engine::FAULT_CRC_MISMATCH as int
        || code == crate::engine::FAULT_CORRUPT as int {
        DecodeErrorKind::ChecksumMismatch
    } else if code == FAULT_NETWORK as int {
        DecodeErrorKind::NetworkDecodeFailure
    } else if code == FAULT_UNEXPECTED_PROPERTY as int {
        DecodeErrorKind::UnsupportedVersion
    } else {
        DecodeErrorKind::MalformedInput
    }
}

/// What [`BoxcarsParser::parse`] returns, as a function of the input bytes
/// and the configuration alone: the decode is deterministic, so any two
/// runs on the same input under the same configuration agree on this value.
pub open spec fn parse_outcome(
    data: Seq<u8>,
    crc: Option<InternalCrcCheck>,
    net: Option<InternalNetworkParse>,
) -> Result<Seq<char>, (DecodeErrorKind, Seq<char>)> {
    if engine_accepts(data, crc_code(crc), net_code(net)) {
        Ok(engine_document(data, crc_code(crc), net_code(net)))
    } else {
        Err((
            kind_of_fault(engine_fault_code(data, crc_code(crc), net_code(net))),
            engine_fault_text(data, crc_code(crc), net_code(net)),
        ))
    }
}

/// The value content of a parse result: the document text on success, the
/// failure kind and description otherwise.
pub open spec fn outcome_of(r: Result<String, DecodeError>) -> Result<
    Seq<char>,
    (DecodeErrorKind, Seq<char>),
> {
    match r {
        Ok(doc) => Ok(doc@),
        Err(e) => Err((e.kind, e.detail@)),
    }
}

/// Maps an engine fault to the failure surfaced to the caller, keeping the
/// underlying cause.
fn classify_fault(f: EngineFault) -> (e: DecodeError)
    ensures
        e.kind == kind_of_fault(f.code as int),
        e.detail@ == f.text@,
{
    let kind: DecodeErrorKind = if f.code == crate::engine::FAULT_CRC_MISMATCH
        || f.code == crate::engine::FAULT_CORRUPT {
        DecodeErrorKind::ChecksumMismatch
    } else if f.code == FAULT_NETWORK {
        DecodeErrorKind::NetworkDecodeFailure
    } else if f.code == FAULT_UNEXPECTED_PROPERTY {
        DecodeErrorKind::UnsupportedVersion
    } else {
        DecodeErrorKind::MalformedInput
    };
    DecodeError { kind, detail: f.text }
}

/// Decodes one replay byte buffer under an explicit, inspectable
/// configuration. The facade holds no state between calls: each value is
/// used for one decode of one complete buffer (the format's header holds
/// absolute offsets, so partial buffers cannot be decoded incrementally).
pub struct BoxcarsParser {
    /// The complete replay file content.
    pub data: Vec<u8>,
    /// The CRC validation override; `None` leaves the engine's documented
    /// default (validate only on error) in force.
    pub crc_check: Option<InternalCrcCheck>,
    /// The network-stream override; `None` leaves the engine's documented
    /// default (attempt, and discard on failure) in force.
    pub network_parse: Option<InternalNetworkParse>,
}

impl BoxcarsParser {
    /// Wraps a buffer with no configuration overrides: the engine's own
    /// documented defaults stay in force rather than a silently chosen
    /// strictest mode.
    pub fn new(data: Vec<u8>) -> (p: Self)
        ensures
            p.data == data,
            p.crc_check is None,
            p.network_parse is None,
    {
        BoxcarsParser { data, crc_check: None, network_parse: None }
    }

    /// Selects a CRC validation mode, leaving everything else unchanged.
    pub fn set_crc_check(self, check: InternalCrcCheck) -> (p: Self)
        ensures
            p.data == self.data,
            p.crc_check == Some(check),
            p.network_parse == self.network_parse,
    {
        BoxcarsParser { crc_check: Some(check), ..self }
    }

    /// Selects a network-stream mode, leaving everything else unchanged.
    pub fn set_network_parse(self, parse: InternalNetworkParse) -> (p: Self)
        ensures
            p.data == self.data,
            p.crc_check == self.crc_check,
            p.network_parse == Some(parse),
    {
        BoxcarsParser { network_parse: Some(parse), ..self }
    }

    /// Decodes the buffer: invokes the external engine exactly once (the
    /// operation is deterministic, so a retry would reproduce the same
    /// outcome) and returns either the complete boundary document as JSON
    /// text or one classified failure — never a partially populated
    /// document beside an error. The one sanctioned absorption of a
    /// failure, the lenient network mode, happens inside the engine, not
    /// by this facade catching and discarding anything.
    pub fn parse(self) -> (r: Result<String, DecodeError>)
        ensures
            outcome_of(r) == parse_outcome(self.data@, self.crc_check, self.network_parse),
    {
        match run_engine(&self.data, &self.crc_check, &self.network_parse) {
            Ok(doc) => Ok(doc),
            Err(f) => Err(classify_fault(f)),
        }
    }
}

/// Decoding is configuration-idempotent: two results of
/// [`BoxcarsParser::parse`] for the same bytes under the same configuration
/// carry the same content — there is no hidden nondeterminism.
pub proof fn lemma_parse_deterministic(
    r1: Result<String, DecodeError>,
    r2: Result<String, DecodeError>,
    data: Seq<u8>,
    crc: Option<InternalCrcCheck>,
    net: Option<InternalNetworkParse>,
)
    requires
        outcome_of(r1) == parse_outcome(data, crc, net),
        outcome_of(r2) == parse_outcome(data, crc, net),
    ensures
        outcome_of(r1) == outcome_of(r2),
{
}

} // verus!
