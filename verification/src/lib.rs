//! A minimal symmetric-key token service: a single owner controls a shared
//! secret, any caller may request a deterministic token bound to an identity,
//! and any caller may check a presented token against an identity under the
//! current secret.

mod hexcodec;
mod identity;
mod mac;
mod token;

pub use hexcodec::{hex_of, lemma_hex_of_injective, lemma_hex_of_len};
pub use identity::AccountId;
pub use mac::hmac_sha256_of;
pub use token::{
    lemma_issued_token_verifies, lemma_rotation, lemma_token_idempotent,
    lemma_tokens_equal_iff_digests_equal, spec_token, spec_verifies, Error, Token,
};
