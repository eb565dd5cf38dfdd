//! Stream header of a secret stream: 24 cleartext random bytes that split,
//! at a fixed offset, into the sub-nonce for key derivation and the initial
//! running nonce of the chunk cipher.

mod errors;
mod header;
mod random;

pub use errors::InvalidLength;
pub use header::{
    header_from_bytes, running_nonce_of, sub_nonce_of, HChaCha20Nonce, Header, Nonce,
};
