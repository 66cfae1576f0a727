//! Security core of a personal-journal backend: an authenticated
//! field-level encryption service that seals journal content as
//! `hex(nonce ‖ ciphertext ‖ tag)` under one 256-bit AES-GCM key, and a
//! bearer-token scheme — signed, time-bounded claims issued at login and
//! verified by an authorization decision in front of every
//! content-bearing route. Contracts pin the wire formats, the round
//! trip, and exactly when each operation fails.

mod encryption;
mod gate;
mod hexfmt;
mod jwt;
mod models;

pub use encryption::{
    decrypt_text, encrypt_text, envelope_opens_to, gcm_sealed, is_envelope_for, is_envelope_with,
    well_formed_envelope_text, EncryptionError, EncryptionService, MAX_PLAINTEXT_BYTES,
};
pub use gate::{
    authorize_request, bearer_prefix, extract_bearer_token, gate_decided, has_bearer_scheme,
    RejectReason,
};
pub use hexfmt::{
    hex_decoded, hex_digit_val, hex_digits, hex_encoding, is_hex_digit, is_hex_seq,
    lemma_hex_round_trip,
};
pub use jwt::{
    check_expiry, create_jwt, expiry_decided, signed_token, verified_claims, verify_jwt, Claims,
    TokenError, TOKEN_LIFETIME_SECS,
};
pub use models::{
    sealed_content_for_update, CreateJournalEntry, CreateUser, LoginUser, UpdateJournalEntry,
};
