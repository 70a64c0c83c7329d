//! The trusted boundary to the external decode engine.
//!
//! The engine is consumed through a single entry point: it takes the whole
//! byte buffer and the two configuration settings, and returns either the
//! decoded document serialised as JSON text or a classified fault. The
//! decode is deterministic and pure over its input (no retry could change
//! the outcome), so its results are named by uninterpreted functions of the
//! buffer and the two mode codes; nothing else is assumed about them.

use vstd::prelude::*;
use crate::config::{InternalCrcCheck, InternalNetworkParse};

verus! {

/// Whether the engine, run on `data` under the CRC mode `crc` and the
/// network mode `net` (codes as in [`crate::config::crc_code`] and
/// [`crate::config::net_code`]), decodes a document and serialises it.
pub uninterp spec fn engine_accepts(data: Seq<u8>, crc: int, net: int) -> bool;

/// The JSON text of the document that the engine produces when it accepts.
pub uninterp spec fn engine_document(data: Seq<u8>, crc: int, net: int) -> Seq<char>;

/// The fault class the engine reports when it rejects (one of the
/// `FAULT_*` codes below).
pub uninterp spec fn engine_fault_code(data: Seq<u8>, crc: int, net: int) -> int;

/// The engine's own description of the fault when it rejects.
pub uninterp spec fn engine_fault_text(data: Seq<u8>, crc: int, net: int) -> Seq<char>;

/// A section wrapper that carried no deeper cause; kept for totality of
/// the classification, the engine always nests a concrete cause inside.
pub const FAULT_SECTION: u8 = 1;
/// Text in the buffer was not valid UTF-8.
pub const FAULT_UTF8: u8 = 2;
/// A declared text length was implausibly large.
pub const FAULT_TEXT_TOO_LARGE: u8 = 3;
/// The buffer ended before a declared size was satisfied.
pub const FAULT_INSUFFICIENT_DATA: u8 = 4;
/// The header declared a property kind outside the engine's known range.
pub const FAULT_UNEXPECTED_PROPERTY: u8 = 5;
/// A checksum was validated and did not match.
pub const FAULT_CRC_MISMATCH: u8 = 6;
/// A section failed to decode and the checksum over it did not match.
pub const FAULT_CORRUPT: u8 = 7;
/// A declared list length was implausibly large.
pub const FAULT_LIST_TOO_LARGE: u8 = 8;
/// The network-stream pass failed.
pub const FAULT_NETWORK: u8 = 9;
/// The decoded document could not be serialised.
pub const FAULT_SERIALIZE: u8 = 10;

/// A fault reported by the engine boundary: a class code and the engine's
/// own description.
#[derive(Debug, Clone, PartialEq)]
pub struct EngineFault {
    pub code: u8,
    pub text: String,
}

/// Relies on `boxcars::ParseError`: gives each of its nine variants its
/// `FAULT_*` class code, in the order the variants are declared
/// (`ParseError` 1, `Utf8Error` 2, `TextTooLarge` 3, `InsufficientData` 4,
/// `UnexpectedProperty` 5, `CrcMismatch` 6, `CorruptReplay` 7,
/// `ListTooLarge` 8, `NetworkError` 9). The `ParseError` variant only adds
/// section context around the error it carries, so it is unwrapped to the
/// root cause first; the underlying cause, never the wrapper, is classified.
#[verifier::external_type_specification]
#[verifier::external_body]
pub struct ExParseError(boxcars::ParseError);

/// Relies on `boxcars::ParseError`: reads which variant the engine
/// reported, one arm per variant, moving nothing but the nested cause.
#[verifier::external_body]
fn fault_code(e: &boxcars::ParseError) -> (code: u8)
    ensures
        1 <= code <= 9,
{
    let mut cause = e;
    while let boxcars::ParseError::ParseError(_, _, inner) = cause {
        cause = inner;
    }
    match cause {
        boxcars::ParseError::ParseError(_, _, _) => 1,
        boxcars::ParseError::Utf8Error(_) => 2,
        boxcars::ParseError::TextTooLarge(_) => 3,
        boxcars::ParseError::InsufficientData(_, _) => 4,
        boxcars::ParseError::UnexpectedProperty(_) => 5,
        boxcars::ParseError::CrcMismatch(_, _) => 6,
        boxcars::ParseError::CorruptReplay(_, _) => 7,
        boxcars::ParseError::ListTooLarge(_) => 8,
        boxcars::ParseError::NetworkError(_) => 9,
    }
}

/// Relies on `boxcars::ParserBuilder` (`new`, `with_crc_check`,
/// `with_network_parse`, `parse`) as the single external decode entry
/// point, and on `serde_json::to_string` to serialise the decoded document;
/// both are deterministic and pure over their input, so the outcome is a
/// function of the buffer and the two modes alone. When no override is
/// given the engine applies its own documented defaults (validate the CRC
/// only on error; discard a failed network pass). A non-finite
/// floating-point value serialises as JSON `null`, so serialisation of a
/// decoded document does not fail in practice; if it ever did, the fault is
/// reported, never swallowed.
#[verifier::external_body]
fn engine_decode(
    data: &[u8],
    crc: &Option<InternalCrcCheck>,
    net: &Option<InternalNetworkParse>,
) -> (r: Result<String, EngineFault>)
    ensures
        r is Ok <==> engine_accepts(data@, crate::config::crc_code(*crc), crate::config::net_code(*net)),
        r matches Ok(doc) ==> doc@ == engine_document(
            data@, crate::config::crc_code(*crc), crate::config::net_code(*net)),
        r matches Err(f) ==> f.code as int == engine_fault_code(
            data@, crate::config::crc_code(*crc), crate::config::net_code(*net))
            && 1 <= f.code <= 10
            && f.text@ == engine_fault_text(
                data@, crate::config::crc_code(*crc), crate::config::net_code(*net)),
{
    let mut b = boxcars::ParserBuilder::new(data);
    if let Some(c) = crc {
        b = b.with_crc_check(engine_crc(c));
    }
    if let Some(n) = net {
        b = b.with_network_parse(engine_net(n));
    }
    match b.parse() {
        Ok(replay) => match serde_json::to_string(&replay) {
            Ok(text) => Ok(text),
            Err(e) => Err(EngineFault { code: FAULT_SERIALIZE, text: format!("{}", e) }),
        },
        Err(e) => Err(EngineFault { code: fault_code(&e), text: format!("{}", e) }),
    }
}

/// Relies on `boxcars::CrcCheck`: the engine's CRC setting, one mode for
/// each configuration mode.
#[verifier::external_type_specification]
#[verifier::external_body]
pub struct ExCrcCheck(boxcars::CrcCheck);

/// Relies on `boxcars::CrcCheck`: maps each configuration mode to the
/// engine mode of the same name, one arm each.
#[verifier::external_body]
fn engine_crc(c: &InternalCrcCheck) -> boxcars::CrcCheck {
    match c {
        InternalCrcCheck::Always => boxcars::CrcCheck::Always,
        InternalCrcCheck::Never => boxcars::CrcCheck::Never,
        InternalCrcCheck::OnError => boxcars::CrcCheck::OnError,
    }
}

/// Relies on `boxcars::NetworkParse`: the engine's network-stream setting,
/// one mode for each configuration mode.
#[verifier::external_type_specification]
#[verifier::external_body]
pub struct ExNetworkParse(boxcars::NetworkParse);

/// Relies on `boxcars::NetworkParse`: maps each configuration mode to the
/// engine mode of the same name, one arm each.
#[verifier::external_body]
fn engine_net(n: &InternalNetworkParse) -> boxcars::NetworkParse {
    match n {
        InternalNetworkParse::Always => boxcars::NetworkParse::Always,
        InternalNetworkParse::Never => boxcars::NetworkParse::Never,
        InternalNetworkParse::IgnoreOnError => boxcars::NetworkParse::IgnoreOnError,
    }
}

/// Runs the external engine once on the whole buffer under the given
/// configuration. This is the one call site of the trusted boundary.
pub(crate) fn run_engine(
    data: &Vec<u8>,
    crc: &Option<InternalCrcCheck>,
    net: &Option<InternalNetworkParse>,
) -> (r: Result<String, EngineFault>)
    ensures
        r is Ok <==> engine_accepts(data@, crate::config::crc_code(*crc), crate::config::net_code(*net)),
        r matches Ok(doc) ==> doc@ == engine_document(
            data@, crate::config::crc_code(*crc), crate::config::net_code(*net)),
        r matches Err(f) ==> f.code as int == engine_fault_code(
            data@, crate::config::crc_code(*crc), crate::config::net_code(*net))
            && 1 <= f.code <= 10
            && f.text@ == engine_fault_text(
                data@, crate::config::crc_code(*crc), crate::config::net_code(*net)),
{
    engine_decode(data.as_slice(), crc, net)
}

} // verus!
