use crate::definitions::ChainFamily;
use crate::errors::ClientError;
use crate::key::sec1_point_valid;
use vstd::prelude::*;
use vstd::slice::slice_subrange;

verus! {

/// The Keccak-256 digest of the bytes.
pub uninterp spec fn keccak256_digest(data: Seq<u8>) -> Seq<u8>;

/// The uncompressed (65-byte) SEC1 encoding of a SEC1-encoded point.
pub uninterp spec fn sec1_uncompressed(pk: Seq<u8>) -> Seq<u8>;

/// The 20-byte account id of a secp256k1 key: RIPEMD-160 of SHA-256 of its
/// compressed encoding.
pub uninterp spec fn cosmos_account_hash(pk: Seq<u8>) -> Seq<u8>;

/// The lower-case Bech32 text of `data` under the human-readable part `prefix`.
pub uninterp spec fn bech32_text(prefix: Seq<char>, data: Seq<u8>) -> Seq<char>;

/// Relies on sha3's `Keccak256::digest`: a 32-byte digest.
#[verifier::external_body]
fn keccak256(data: &[u8]) -> (r: Vec<u8>)
    ensures
        r@ == keccak256_digest(data@),
        r@.len() == 32,
{
    <sha3::Keccak256 as sha3::Digest>::digest(data).to_vec()
}

/// Relies on k256's `VerifyingKey::from_sec1_bytes` and
/// `VerifyingKey::to_encoded_point(false)`: the 65-byte uncompressed encoding.
#[verifier::external_body]
fn uncompressed_point(pk: &[u8]) -> (r: Option<Vec<u8>>)
    ensures
        r is Some <==> sec1_point_valid(pk@),
        r matches Some(u) ==> u@ == sec1_uncompressed(pk@) && u@.len() == 65,
{
    k256::ecdsa::VerifyingKey::from_sec1_bytes(pk).ok().map(
        |k| k.to_encoded_point(false).as_bytes().to_vec(),
    )
}

/// Relies on tendermint's `account::Id::from` on a k256 verifying key: the
/// 20-byte RIPEMD-160(SHA-256) hash of the compressed key.
#[verifier::external_body]
fn account_hash(pk: &[u8]) -> (r: Option<Vec<u8>>)
    ensures
        r is Some <==> sec1_point_valid(pk@),
        r matches Some(h) ==> h@ == cosmos_account_hash(pk@) && h@.len() == 20,
{
    k256::ecdsa::VerifyingKey::from_sec1_bytes(pk).ok().map(
        |k| cosmrs::tendermint::account::Id::from(k).as_bytes().to_vec(),
    )
}

/// Relies on cosmrs's `AccountId::new`, which accepts a prefix of lower-case
/// ASCII letters and digits and 1 to 255 bytes, and Bech32-encodes them.
#[verifier::external_body]
fn account_id_text(prefix: &str, data: &[u8]) -> (r: Option<String>)
    ensures
        r is Some <==> (prefix_accepted(prefix@) && 1 <= data@.len() <= 255),
        r matches Some(s) ==> s@ == bech32_text(prefix@, data@),
{
    cosmrs::AccountId::new(prefix, data).ok().map(|id| id.to_string())
}

/// A character that may stand in an address prefix.
pub open spec fn prefix_char(c: char) -> bool {
    ('a' <= c && c <= 'z') || ('0' <= c && c <= '9')
}

/// A prefix that can be Bech32-encoded: lower-case ASCII letters and digits.
pub open spec fn prefix_accepted(prefix: Seq<char>) -> bool {
    forall|i: int| 0 <= i < prefix.len() ==> #[trigger] prefix_char(prefix[i])
}

/// The prefix that the EthCompatible family always uses.
pub open spec fn eth_prefix() -> Seq<char> {
    seq!['i', 'n', 'j']
}

/// The address of a compressed SEC1 public key in a chain family.
pub open spec fn address_spec(pk: Seq<u8>, family: ChainFamily, prefix: Seq<char>) -> Result<
    Seq<char>,
    ClientError,
> {
    if !sec1_point_valid(pk) {
        Err(ClientError::InvalidKeyMaterial)
    } else {
        match family {
            ChainFamily::Standard => {
                if prefix_accepted(prefix) {
                    Ok(bech32_text(prefix, cosmos_account_hash(pk)))
                } else {
                    Err(ClientError::InvalidPrefix)
                }
            },
            ChainFamily::EthCompatible => Ok(
                bech32_text(
                    eth_prefix(),
                    keccak256_digest(sec1_uncompressed(pk).drop_first()).subrange(12, 32),
                ),
            ),
        }
    }
}

/// The view of a text result.
pub open spec fn text_result(r: Result<String, ClientError>) -> Result<Seq<char>, ClientError> {
    match r {
        Ok(s) => Ok(s@),
        Err(e) => Err(e),
    }
}

/// The account address of a compressed SEC1 public key. The Standard family
/// encodes the key's account id under `prefix`; the EthCompatible family
/// encodes the low 20 bytes of the Keccak-256 digest of the uncompressed key
/// under `inj`, whatever `prefix` is.
pub fn derive_address(public_key: &[u8], family: ChainFamily, prefix: &str) -> (r: Result<
    String,
    ClientError,
>)
    ensures
        text_result(r) == address_spec(public_key@, family, prefix@),
{
    match family {
        ChainFamily::Standard => {
            let hash = match account_hash(public_key) {
                Some(h) => h,
                None => {
                    return Err(ClientError::InvalidKeyMaterial);
                },
            };
            match account_id_text(prefix, hash.as_slice()) {
                Some(s) => Ok(s),
                None => Err(ClientError::InvalidPrefix),
            }
        },
        ChainFamily::EthCompatible => {
            let point = match uncompressed_point(public_key) {
                Some(u) => u,
                None => {
                    return Err(ClientError::InvalidKeyMaterial);
                },
            };
            let digest = keccak256(slice_subrange(point.as_slice(), 1, 65));
            let low = slice_subrange(digest.as_slice(), 12, 32);
            proof {
                reveal_strlit("inj");
                assert(point@.subrange(1, 65) =~= point@.drop_first());
                assert("inj"@ =~= eth_prefix());
                assert(prefix_accepted("inj"@));
            }
            match account_id_text("inj", low) {
                Some(s) => Ok(s),
                None => Err(ClientError::InvalidPrefix),
            }
        },
    }
}

/// The address is a function of the public key, the family and the prefix
/// alone; in the EthCompatible family the prefix does not affect it.
pub proof fn lemma_eth_address_ignores_prefix(pk: Seq<u8>, p1: Seq<char>, p2: Seq<char>)
    ensures
        address_spec(pk, ChainFamily::EthCompatible, p1) == address_spec(
            pk,
            ChainFamily::EthCompatible,
            p2,
        ),
{
}

} // verus!
