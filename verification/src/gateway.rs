//! The model of the Module Gateway's interface: the request sent after
//! validation, and every shape its reply can take. The gateway itself is an
//! external collaborator; the transport adapter performs the exchange and
//! hands the reply back to the dispatcher.

use vstd::prelude::*;

verus! {

/// The digest algorithm of the module's register bank.
#[derive(Clone, Copy, Debug, PartialEq, Eq, Structural)]
pub enum Digest {
    SHA256,
    SHA384,
    SHA512,
}

/// A validated request, ready to be sent to the gateway. Attestation fields
/// hold decoded bytes; an absent field is omitted from the outbound request.
pub enum GatewayRequest {
    DescribePCR { index: u16 },
    ExtendPCR { index: u16, data: Vec<u8> },
    LockPCR { index: u16 },
    LockPCRs { range: u16 },
    DescribeNSM,
    Attestation { user_data: Option<Vec<u8>>, nonce: Option<Vec<u8>>, public_key: Option<Vec<u8>> },
    GetRandom,
}

/// Every shape a gateway reply can take: the matching success payload per
/// command, a reported error code, or an unrelated shape.
pub enum GatewayReply {
    DescribePCR { lock: bool, data: Vec<u8> },
    ExtendPCR { data: Vec<u8> },
    LockPCR,
    LockPCRs,
    DescribeNSM {
        version_major: u16,
        version_minor: u16,
        version_patch: u16,
        module_id: Vec<u8>,
        max_pcrs: u16,
        locked_pcrs: Vec<u16>,
        digest: Digest,
    },
    Attestation { document: Vec<u8> },
    GetRandom { random: Vec<u8> },
    Error(crate::error::ErrorCode),
}

} // verus!
