//! The token service: owner-gated secret management, deterministic token
//! issuance, and token verification.
//!
//! The host environment that dispatches calls is expected to pass the current
//! caller's identity explicitly into every operation; tokens are bound to an
//! explicitly supplied identity, so a caller binds a token to itself by
//! passing its own identity.

use crate::hexcodec::{
    encode_hex, encode_lower_hex, hex_of, lemma_hex_of_injective, lemma_hex_of_len,
};
use crate::identity::AccountId;
use crate::mac::{hmac_sha256_of, hmac_sign};
use vstd::prelude::*;
use vstd::utf8::encode_utf8;

verus! {

/// The sole recoverable failure: a caller other than the owner asked to read
/// or replace the secret key.
#[derive(Clone, Copy, Debug, PartialEq, Eq, Structural)]
pub enum Error {
    NotOwner,
}

/// The token bound to the identity bytes `id` under the secret `secret`:
/// the lowercase hexadecimal rendering of the HMAC-SHA256 digest of `id`,
/// keyed by the secret's UTF-8 bytes.
pub open spec fn spec_token(secret: Seq<char>, id: Seq<u8>) -> Seq<char> {
    hex_of(hmac_sha256_of(encode_utf8(secret), id))
}

/// True when `token` is accepted for the identity bytes `id` under `secret`.
pub open spec fn spec_verifies(secret: Seq<char>, token: Seq<char>, id: Seq<u8>) -> bool {
    token == spec_token(secret, id)
}

/// One deployed service instance: the owner identity fixed at construction
/// and the current secret key.
pub struct Token {
    owner: AccountId,
    secret_key: String,
}

impl Token {
    /// The canonical bytes of the identity fixed at construction as the owner.
    pub closed spec fn spec_owner(&self) -> Seq<u8> {
        self.owner@
    }

    /// The current secret key.
    pub closed spec fn spec_secret(&self) -> Seq<char> {
        self.secret_key@
    }

    /// Constructs the service: the constructing caller becomes the owner and
    /// the given key becomes the secret. Any key, including empty, is valid.
    pub fn new(caller: AccountId, secret_key: String) -> (r: Token)
        ensures
            r.spec_owner() == caller@,
            r.spec_secret() == secret_key@,
    {
        Token { owner: caller, secret_key }
    }

    /// Succeeds exactly when the caller is the owner, by exact equality of
    /// the canonical representations; otherwise fails with NotOwner.
    pub fn ensure_owner(&self, caller: &AccountId) -> (r: Result<(), Error>)
        ensures
            r is Ok <==> caller@ == self.spec_owner(),
            r is Err <==> caller@ != self.spec_owner(),
            r is Err ==> r == Err::<(), Error>(Error::NotOwner),
    {
        if caller.eq_id(&self.owner) {
            Ok(())
        } else {
            Err(Error::NotOwner)
        }
    }

    /// Owner-gated read of the secret key: the owner gets the current key,
    /// every other caller fails with NotOwner.
    pub fn get_secret_key(&self, caller: &AccountId) -> (r: Result<String, Error>)
        ensures
            caller@ == self.spec_owner() ==> r is Ok && r->Ok_0@ == self.spec_secret(),
            caller@ != self.spec_owner() ==> r == Err::<String, Error>(Error::NotOwner),
    {
        match self.ensure_owner(caller) {
            Ok(()) => Ok(self.secret_key.clone()),
            Err(e) => Err(e),
        }
    }

    /// Owner-gated replacement of the secret key: the owner installs the new
    /// key and gets it back for confirmation; every other caller fails with
    /// NotOwner and the stored key is unchanged. The owner is never
    /// reassigned. No validation is applied to the new key.
    pub fn set_secret_key(&mut self, caller: &AccountId, secret_key: String) -> (r: Result<
        String,
        Error,
    >)
        ensures
            final(self).spec_owner() == old(self).spec_owner(),
            caller@ == old(self).spec_owner() ==> final(self).spec_secret() == secret_key@
                && r is Ok && r->Ok_0@ == secret_key@,
            caller@ != old(self).spec_owner() ==> final(self).spec_secret() == old(
                self,
            ).spec_secret() && r == Err::<String, Error>(Error::NotOwner),
    {
        match self.ensure_owner(caller) {
            Ok(()) => {
                self.secret_key = secret_key;
                Ok(self.secret_key.clone())
            },
            Err(e) => Err(e),
        }
    }

    /// Reports the caller's identity as the host environment sees it;
    /// unrestricted.
    pub fn get_account_id(&self, caller: &AccountId) -> (r: AccountId)
        ensures
            r@ == caller@,
    {
        caller.duplicate()
    }

    /// Reports the caller's identity as lowercase hexadecimal text;
    /// unrestricted.
    pub fn get_hex_account_id(&self, caller: &AccountId) -> (r: String)
        ensures
            r@ == hex_of(caller@),
    {
        let bytes = caller.to_bytes();
        encode_hex(&bytes)
    }

    /// Issues the token binding the given identity to the current secret;
    /// unrestricted, since a token is an attestation, not a capability.
    pub fn create_token(&self, account_id: &AccountId) -> (r: String)
        ensures
            r@ == spec_token(self.spec_secret(), account_id@),
            r@.len() == 64,
    {
        self.create_signature(account_id)
    }

    /// Accepts a presented token exactly when it equals, character for
    /// character, the token for the given identity under the current secret;
    /// unrestricted. A mismatch is the valid false outcome, not an error.
    pub fn verify_token(&self, token: String, account_id: AccountId) -> (r: bool)
        ensures
            r == spec_verifies(self.spec_secret(), token@, account_id@),
    {
        let signature = self.create_signature(&account_id);
        signature == token
    }

    /// Computes the token for the given identity under the current secret:
    /// the HMAC-SHA256 digest of the identity's canonical bytes, keyed by the
    /// secret's UTF-8 bytes, rendered as 64 lowercase hexadecimal digits.
    pub fn create_signature(&self, account_id: &AccountId) -> (r: String)
        ensures
            r@ == spec_token(self.spec_secret(), account_id@),
            r@.len() == 64,
    {
        let msg = account_id.to_bytes();
        let key = self.secret_key.as_str().as_bytes();
        let signature_bytes = hmac_sign(key, msg.as_slice());
        proof {
            lemma_hex_of_len(signature_bytes@);
        }
        encode_lower_hex(&signature_bytes)
    }
}

/// Issuing then checking: a token freshly issued for an identity is accepted
/// for that identity under the unchanged secret.
pub proof fn lemma_issued_token_verifies(secret: Seq<char>, id: Seq<u8>)
    ensures
        spec_verifies(secret, spec_token(secret, id), id),
{
}

/// Issuance is deterministic: two tokens issued for the same identity with no
/// intervening change of the secret are identical.
pub proof fn lemma_token_idempotent(secret: Seq<char>, id: Seq<u8>, t1: Seq<char>, t2: Seq<char>)
    requires
        t1 == spec_token(secret, id),
        t2 == spec_token(secret, id),
    ensures
        t1 == t2,
{
}

/// Two inputs get the same token exactly when their keyed digests coincide:
/// the hexadecimal rendering loses nothing, so whether tokens for two
/// identities (or under two secrets) can collide is exactly the question of
/// whether the digests can.
pub proof fn lemma_tokens_equal_iff_digests_equal(
    secret1: Seq<char>,
    secret2: Seq<char>,
    id1: Seq<u8>,
    id2: Seq<u8>,
)
    ensures
        spec_token(secret1, id1) == spec_token(secret2, id2) <==> hmac_sha256_of(
            encode_utf8(secret1),
            id1,
        ) == hmac_sha256_of(encode_utf8(secret2), id2),
{
    if spec_token(secret1, id1) == spec_token(secret2, id2) {
        lemma_hex_of_injective(
            hmac_sha256_of(encode_utf8(secret1), id1),
            hmac_sha256_of(encode_utf8(secret2), id2),
        );
    }
}

/// Rotation: after the secret is replaced, a token freshly issued under the
/// new secret is accepted, and a token issued under another secret is
/// accepted only if the two secrets happen to yield the same token for this
/// identity (verification always uses the current secret).
pub proof fn lemma_rotation(old_secret: Seq<char>, new_secret: Seq<char>, id: Seq<u8>)
    ensures
        spec_verifies(new_secret, spec_token(new_secret, id), id),
        spec_verifies(new_secret, spec_token(old_secret, id), id) <==> spec_token(old_secret, id)
            == spec_token(new_secret, id),
{
}

} // verus!
