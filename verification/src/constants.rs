use vstd::prelude::*;
use crate::extension::MintExtension;

verus! {

/// Seed of the counter account.
pub const COUNTER_SEED: [u8; 7] = [99, 111, 117, 110, 116, 101, 114];

/// Lamport amount of a hello-world payment.
pub const HELLO_WORLD_LAMPORTS: u64 = 1;

/// Largest count the program allows.
pub const MAX_COUNT: u64 = 10;

/// Length of an authenticated-encryption ciphertext (a decryptable balance).
pub const AE_CIPHERTEXT_LEN: usize = 36;

/// Length of an ElGamal ciphertext.
pub const ELGAMAL_CIPHERTEXT_LEN: usize = 64;

/// Length of an ElGamal public key.
pub const ELGAMAL_PUBKEY_LEN: usize = 32;

/// The mint extensions this program has been written to handle.
pub const SUPPORTED_EXTENSIONS: [MintExtension; 3] = [
    MintExtension::MintCloseAuthority,
    MintExtension::MetadataPointer,
    MintExtension::TransferFeeConfig,
];

/// The Token-2022 program id, `TokenzQdBNbLqP5VEhdkAS6EPFLC1PHnBqCXEpPxuEb`.
pub const TOKEN_2022_PROGRAM_ID: [u8; 32] = [
    6, 221, 246, 225, 238, 117, 143, 222, 24, 66, 93, 188, 228, 108, 205, 218,
    182, 26, 252, 77, 131, 185, 13, 39, 254, 189, 249, 40, 216, 161, 139, 252,
];

/// The system program id (all zero bytes).
pub const SYSTEM_PROGRAM_ID: [u8; 32] = [
    0, 0, 0, 0, 0, 0, 0, 0, 0, 0, 0, 0, 0, 0, 0, 0,
    0, 0, 0, 0, 0, 0, 0, 0, 0, 0, 0, 0, 0, 0, 0, 0,
];

} // verus!
