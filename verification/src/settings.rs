//! The fixed values that every exchange with the storage network shares.

use vstd::prelude::*;

verus! {

/// RPC endpoint of the storage network.
pub const ENDPOINT: &'static str = "wss://testnet-rpc0.cess.cloud/ws/";

/// Name of the environment variable that holds the account mnemonic.
pub const CREDENTIAL_VARIABLE: &'static str = "CESS_ACCOUNT_MNEMONIC";

/// Bucket that the upload service stores payloads in.
pub const UPLOAD_BUCKET: &'static str = "vitrine_bucket";

/// Bucket that the account setup creates.
pub const SETUP_BUCKET: &'static str = "vitrine-bucket";

/// Storage that the account setup buys, in GiB.
pub const GIB_TO_BUY: u32 = 10;

/// Pause before the second and the third remote call of the account setup,
/// in seconds.
pub const PAUSE_SECONDS: u64 = 5;

/// HTTP status of a reply that reports a stored payload.
pub const STATUS_OK: u16 = 200;

/// HTTP status of a reply that reports a failure.
pub const STATUS_INTERNAL_SERVER_ERROR: u16 = 500;

/// Status tag of a reply that reports a stored payload.
pub const TAG_SUCCESS: &'static str = "success";

/// Status tag of a reply that reports a failure.
pub const TAG_ERROR: &'static str = "error";

} // verus!
