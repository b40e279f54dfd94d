//! Fixed values of the handshake protocol.

use vstd::prelude::*;

verus! {

/// The only protocol version this library accepts.
pub const ICA_VERSION: &'static str = "ics27-1";

/// The only transaction type this library accepts.
pub const TX_TYPE: &'static str = "sdk_multi_msg";

/// The longest account address, in bytes of UTF-8, that is accepted.
pub const MAX_ADDRESS_LENGTH: usize = 128;

} // verus!
