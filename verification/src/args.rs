//! The closed set of commands the gateway supports. Binary arguments arrive
//! as base64url text and are validated before anything is sent onward.

use vstd::prelude::*;

verus! {

/// One command per operation. `Server` is the process-lifecycle variant: it
/// is not meaningful over the socket transport and is rejected there.
pub enum Args {
    /// Ask for `number` random bytes.
    Rand { number: u8 },
    /// Ask for an attestation document; each optional field is base64url text.
    Attestation { nonce: Option<String>, public_key: Option<String>, user_data: Option<String> },
    /// Serve commands from a Unix socket at `socket`.
    Server { socket: String },
    /// Read the platform configuration register at `index`.
    DescribePCR { index: u16 },
    /// Extend the register at `index` with `data`, base64url text.
    ExtendPCR { index: u16, data: String },
    /// Lock the register at `index` against further modification.
    LockPCR { index: u16 },
    /// Lock the registers at indices `[0, range)`.
    LockPCRS { range: u16 },
    /// Ask for the module's capabilities and version.
    DescribeNSM,
}

} // verus!
