//! Directional pairs of identities and the identifiers derived from them.

use crate::digest::{sha256, sha256_digest, DIGEST_LEN};
use crate::encoding::{encode_pair, pair_encoding};
use vstd::prelude::*;
use vstd::utf8::encode_utf8;

verus! {

/// The name of a participant, as the host authenticates it. Two identities
/// are the same when their strings are the same; nothing is normalized.
pub type AccountId = String;

/// The identifier derived from a single identity.
pub type AccountHash = Vec<u8>;

/// The identifier derived from a directional pair.
pub type AccountPairHash = Vec<u8>;

/// The identifier under which the exchange from `from` to `to` is stored:
/// the digest of the pair's encoding.
pub open spec fn pair_identifier(from: Seq<char>, to: Seq<char>) -> Seq<u8> {
    sha256(pair_encoding(from, to))
}

/// The identifier under which the key of `account_id` is stored: the digest
/// of its UTF-8 bytes.
pub open spec fn account_identifier(account_id: Seq<char>) -> Seq<u8> {
    sha256(encode_utf8(account_id))
}

/// An ordered pair of identities: the initiator of an exchange and its
/// responder. A pair and its reverse are different pairs.
pub struct AccountPair {
    pub from_account_id: AccountId,
    pub to_account_id: AccountId,
}

impl View for AccountPair {
    type V = (Seq<char>, Seq<char>);

    open spec fn view(&self) -> (Seq<char>, Seq<char>) {
        (self.from_account_id@, self.to_account_id@)
    }
}

impl AccountPair {
    /// The same two identities with the roles exchanged.
    pub fn reverse(&self) -> (r: Self)
        ensures
            r@ == (self@.1, self@.0),
    {
        Self {
            from_account_id: self.to_account_id.clone(),
            to_account_id: self.from_account_id.clone(),
        }
    }

    /// The identifier of this pair.
    pub fn hash(&self) -> (id: AccountPairHash)
        ensures
            id@ == pair_identifier(self@.0, self@.1),
            id@.len() == DIGEST_LEN,
    {
        let bytes = encode_pair(&self.from_account_id, &self.to_account_id);
        sha256_digest(bytes.as_slice())
    }
}

/// The identifier of a single identity.
pub fn hash_account_id(account_id: &AccountId) -> (id: AccountHash)
    ensures
        id@ == account_identifier(account_id@),
        id@.len() == DIGEST_LEN,
{
    sha256_digest(account_id.as_str().as_bytes())
}

} // verus!
