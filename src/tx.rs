use crate::address::{address_spec, derive_address, text_result};
use crate::definitions::ChainFamily;
use crate::errors::ClientError;
use crate::key::Key;
use cosmos_sdk_proto::cosmos::base::v1beta1::Coin as ProtoCoin;
use cosmos_sdk_proto::cosmos::tx::signing::v1beta1::SignMode;
use cosmos_sdk_proto::cosmos::tx::v1beta1::{
    mode_info, AuthInfo, Fee as ProtoFee, ModeInfo, SignDoc, SignerInfo as ProtoSignerInfo,
    TxBody, TxRaw,
};
use prost::Message;
use vstd::prelude::*;

verus! {

/// Type URL of a standard secp256k1 public key.
pub const SECP256K1_PUBKEY_TYPE_URL: &'static str = "/cosmos.crypto.secp256k1.PubKey";

/// Type URL of an Ethereum-style secp256k1 public key.
pub const ETH_SECP256K1_PUBKEY_TYPE_URL: &'static str =
    "/injective.crypto.v1beta1.ethsecp256k1.PubKey";

/// A message envelope: the type URL of a message and its encoded body.
#[derive(Clone, Debug, PartialEq, Eq)]
pub struct AnyMsg {
    pub type_url: String,
    pub value: Vec<u8>,
}

/// An amount of one denomination, in its smallest unit.
#[derive(Clone, Debug, PartialEq, Eq)]
pub struct Coin {
    pub denom: String,
    pub amount: u128,
}

/// What a transaction pays and the most gas it may use.
#[derive(Clone, Debug, PartialEq, Eq)]
pub struct Fee {
    pub amount: Vec<Coin>,
    pub gas_limit: u64,
}

/// The signer's entry in the auth info, as this library wrote it.
#[derive(Clone, Debug, PartialEq, Eq)]
pub struct SignerInfo {
    pub public_key_type_url: String,
    pub public_key: Vec<u8>,
    pub sequence: u64,
}

/// The messages, fee and memo of a transaction, frozen before signing.
#[derive(Clone, Debug, PartialEq, Eq)]
pub struct UnsignedTx {
    pub messages: Vec<AnyMsg>,
    pub fee: Fee,
    pub memo: String,
}

/// A transaction ready for the wire: body bytes, auth-info bytes and
/// signatures, with the signer entry that the auth info encodes.
#[derive(Clone, Debug, PartialEq, Eq)]
pub struct SignedTx {
    pub body_bytes: Vec<u8>,
    pub auth_info_bytes: Vec<u8>,
    pub signatures: Vec<Vec<u8>>,
    pub signer: SignerInfo,
}

/// Replay-protection counters of an account.
#[derive(Clone, Copy, Debug, PartialEq, Eq, Structural)]
pub struct AccountState {
    pub account_number: u64,
    pub sequence: u64,
}

pub open spec fn msgs_view(msgs: Seq<AnyMsg>) -> Seq<(Seq<char>, Seq<u8>)> {
    msgs.map_values(|m: AnyMsg| (m.type_url@, m.value@))
}

pub open spec fn coins_view(coins: Seq<Coin>) -> Seq<(Seq<char>, u128)> {
    coins.map_values(|c: Coin| (c.denom@, c.amount))
}

pub open spec fn sigs_view(sigs: Seq<Vec<u8>>) -> Seq<Seq<u8>> {
    sigs.map_values(|s: Vec<u8>| s@)
}

/// Protobuf encoding of a `TxBody` with these messages and memo.
pub uninterp spec fn tx_body_encoding(msgs: Seq<(Seq<char>, Seq<u8>)>, memo: Seq<char>) -> Seq<u8>;

/// Protobuf encoding of a secp256k1 `PubKey` holding these key bytes.
pub uninterp spec fn public_key_encoding(pk: Seq<u8>) -> Seq<u8>;

/// Protobuf encoding of an `AuthInfo` with one direct-mode signer and a fee.
pub uninterp spec fn auth_info_encoding(
    key_type_url: Seq<char>,
    key_value: Seq<u8>,
    sequence: u64,
    fee: Seq<(Seq<char>, u128)>,
    gas_limit: u64,
) -> Seq<u8>;

/// Protobuf encoding of a `SignDoc`.
pub uninterp spec fn sign_doc_encoding(
    body: Seq<u8>,
    auth_info: Seq<u8>,
    chain_id: Seq<char>,
    account_number: u64,
) -> Seq<u8>;

/// Protobuf encoding of a `TxRaw`.
pub uninterp spec fn tx_raw_encoding(body: Seq<u8>, auth_info: Seq<u8>, signatures: Seq<Seq<u8>>) -> Seq<u8>;

/// The ECDSA signature over SHA-256 of the message, when signing succeeds.
pub uninterp spec fn direct_signature(secret: Seq<u8>, msg: Seq<u8>) -> Option<Seq<u8>>;

/// The recoverable ECDSA signature over Keccak-256 of the message with its
/// recovery byte stripped, when signing succeeds.
pub uninterp spec fn eth_signature(secret: Seq<u8>, msg: Seq<u8>) -> Option<Seq<u8>>;

/// Relies on prost's `encode_to_vec` for `TxBody` (no timeout, no extensions).
#[verifier::external_body]
fn encode_tx_body(msgs: &Vec<AnyMsg>, memo: &str) -> (r: Vec<u8>)
    ensures
        r@ == tx_body_encoding(msgs_view(msgs@), memo@),
{
    let messages = msgs.iter().map(
        |m| prost_types::Any { type_url: m.type_url.clone(), value: m.value.clone() },
    ).collect();
    TxBody { messages, memo: memo.to_string(), ..Default::default() }.encode_to_vec()
}

/// Relies on prost's `encode_to_vec` for a secp256k1 `PubKey`.
#[verifier::external_body]
fn encode_public_key(pk: &[u8]) -> (r: Vec<u8>)
    ensures
        r@ == public_key_encoding(pk@),
{
    cosmos_sdk_proto::cosmos::crypto::secp256k1::PubKey { key: pk.to_vec() }.encode_to_vec()
}

/// Relies on prost's `encode_to_vec` for an `AuthInfo` with a single
/// direct-mode signer, a fee without payer or granter, and no tip.
#[verifier::external_body]
fn encode_auth_info(key_type_url: &str, key_value: &[u8], sequence: u64, fee: &Fee) -> (r: Vec<u8>)
    ensures
        r@ == auth_info_encoding(key_type_url@, key_value@, sequence, coins_view(fee.amount@), fee.gas_limit),
{
    let amount = fee.amount.iter().map(
        |c| ProtoCoin { denom: c.denom.clone(), amount: c.amount.to_string() },
    ).collect();
    let fee = ProtoFee { amount, gas_limit: fee.gas_limit, ..Default::default() };
    let single = mode_info::Single { mode: SignMode::Direct as i32 };
    let mode_info = Some(ModeInfo { sum: Some(mode_info::Sum::Single(single)) });
    let key = prost_types::Any { type_url: key_type_url.to_string(), value: key_value.to_vec() };
    let signer = ProtoSignerInfo { public_key: Some(key), mode_info, sequence };
    AuthInfo { signer_infos: vec![signer], fee: Some(fee), tip: None }.encode_to_vec()
}

/// Relies on prost's `encode_to_vec` for a `SignDoc`.
#[verifier::external_body]
fn encode_sign_doc(body: &[u8], auth_info: &[u8], chain_id: &str, account_number: u64) -> (r: Vec<u8>)
    ensures
        r@ == sign_doc_encoding(body@, auth_info@, chain_id@, account_number),
{
    let chain_id = chain_id.to_string();
    SignDoc { body_bytes: body.to_vec(), auth_info_bytes: auth_info.to_vec(), chain_id, account_number }
        .encode_to_vec()
}

/// Relies on prost's `encode_to_vec` for a `TxRaw`.
#[verifier::external_body]
fn encode_tx_raw(body: &[u8], auth_info: &[u8], signatures: &Vec<Vec<u8>>) -> (r: Vec<u8>)
    ensures
        r@ == tx_raw_encoding(body@, auth_info@, sigs_view(signatures@)),
{
    let signatures = signatures.clone();
    TxRaw { body_bytes: body.to_vec(), auth_info_bytes: auth_info.to_vec(), signatures }.encode_to_vec()
}

/// A character that may stand in a chain id.
pub open spec fn chain_id_char(c: char) -> bool {
    ('a' <= c && c <= 'z') || ('A' <= c && c <= 'Z') || ('0' <= c && c <= '9') || c == '-' || c
        == '_' || c == '.'
}

/// A chain id that tendermint accepts: 1 to 50 characters from `[A-Za-z0-9._-]`.
pub open spec fn chain_id_accepted(id: Seq<char>) -> bool {
    &&& 1 <= id.len() <= 50
    &&& forall|i: int| 0 <= i < id.len() ==> #[trigger] chain_id_char(id[i])
}

/// Relies on tendermint's `chain::Id::from_str`: 1 to 50 bytes, each an ASCII
/// letter, digit, `-`, `_` or `.`.
#[verifier::external_body]
fn parse_chain_id(id: &str) -> (r: bool)
    ensures
        r == chain_id_accepted(id@),
{
    id.parse::<cosmrs::tendermint::chain::Id>().is_ok()
}

/// Relies on cosmrs's `secp256k1::SigningKey::sign`: k256 ECDSA over SHA-256
/// with an RFC 6979 nonce, as 64 bytes.
#[verifier::external_body]
fn sign_sha256(secret: &[u8], msg: &[u8]) -> (r: Option<Vec<u8>>)
    requires
        crate::key::is_secret(secret@),
    ensures
        r matches Some(s) ==> direct_signature(secret@, msg@) == Some(s@) && s@.len() == 64,
        r is None ==> direct_signature(secret@, msg@) is None,
{
    let key = k256::ecdsa::SigningKey::from_slice(secret).expect("a canonical secret scalar");
    let key = cosmrs::crypto::secp256k1::SigningKey::new(Box::new(key));
    key.sign(msg).ok().map(|s| s.to_vec())
}

/// Relies on k256's `SigningKey::sign_digest_recoverable` over a Keccak-256
/// digest of the message; the recovery id is dropped.
#[verifier::external_body]
fn sign_keccak256(secret: &[u8], msg: &[u8]) -> (r: Option<Vec<u8>>)
    requires
        crate::key::is_secret(secret@),
    ensures
        r matches Some(s) ==> eth_signature(secret@, msg@) == Some(s@) && s@.len() == 64,
        r is None ==> eth_signature(secret@, msg@) is None,
{
    let key = k256::ecdsa::SigningKey::from_slice(secret).expect("a canonical secret scalar");
    let digest = <sha3::Keccak256 as sha3::Digest>::new_with_prefix(msg);
    key.sign_digest_recoverable(digest).ok().map(|(s, _)| s.to_vec())
}

/// The type URL under which a family embeds the signer's public key.
pub open spec fn family_key_type_url(family: ChainFamily) -> Seq<char> {
    match family {
        ChainFamily::Standard => SECP256K1_PUBKEY_TYPE_URL@,
        ChainFamily::EthCompatible => ETH_SECP256K1_PUBKEY_TYPE_URL@,
    }
}

/// The signature a family puts on a signing document.
pub open spec fn family_signature(family: ChainFamily, secret: Seq<u8>, doc: Seq<u8>) -> Option<Seq<u8>> {
    match family {
        ChainFamily::Standard => direct_signature(secret, doc),
        ChainFamily::EthCompatible => eth_signature(secret, doc),
    }
}

/// The body bytes of a transaction with these messages and memo.
pub open spec fn body_spec(msgs: Seq<AnyMsg>, memo: Seq<char>) -> Seq<u8> {
    tx_body_encoding(msgs_view(msgs), memo)
}

/// The auth-info bytes of a single signer in a family.
pub open spec fn auth_info_spec(fee: Fee, family: ChainFamily, pk: Seq<u8>, sequence: u64) -> Seq<u8> {
    auth_info_encoding(
        family_key_type_url(family),
        public_key_encoding(pk),
        sequence,
        coins_view(fee.amount@),
        fee.gas_limit,
    )
}

/// The canonical document that the signer of a transaction signs.
pub open spec fn sign_doc_spec(
    msgs: Seq<AnyMsg>,
    fee: Fee,
    memo: Seq<char>,
    family: ChainFamily,
    pk: Seq<u8>,
    account: AccountState,
    chain_id: Seq<char>,
) -> Seq<u8> {
    sign_doc_encoding(
        body_spec(msgs, memo),
        auth_info_spec(fee, family, pk, account.sequence),
        chain_id,
        account.account_number,
    )
}

/// Signing succeeds: the chain id parses and the signer produced a signature.
pub open spec fn signing_succeeds(
    msgs: Seq<AnyMsg>,
    fee: Fee,
    memo: Seq<char>,
    identity: Key,
    family: ChainFamily,
    account: AccountState,
    chain_id: Seq<char>,
) -> bool {
    &&& chain_id_accepted(chain_id)
    &&& family_signature(
        family,
        identity.secret_bytes(),
        sign_doc_spec(msgs, fee, memo, family, identity.public_key_bytes(), account, chain_id),
    ) is Some
}

/// `tx` is the transaction of these messages, fee and memo, signed by
/// `identity` in `family` with these counters and chain id.
pub open spec fn signed_as(
    tx: SignedTx,
    msgs: Seq<AnyMsg>,
    fee: Fee,
    memo: Seq<char>,
    identity: Key,
    family: ChainFamily,
    account: AccountState,
    chain_id: Seq<char>,
) -> bool {
    let pk = identity.public_key_bytes();
    let doc = sign_doc_spec(msgs, fee, memo, family, pk, account, chain_id);
    &&& tx.body_bytes@ == body_spec(msgs, memo)
    &&& tx.auth_info_bytes@ == auth_info_spec(fee, family, pk, account.sequence)
    &&& tx.signatures@.len() == 1
    &&& tx.signatures@[0]@.len() == 64
    &&& family_signature(family, identity.secret_bytes(), doc) == Some(tx.signatures@[0]@)
    &&& tx.signer.public_key_type_url@ == family_key_type_url(family)
    &&& tx.signer.public_key@ == pk
    &&& tx.signer.sequence == account.sequence
}

impl UnsignedTx {
    /// Freezes messages (in the order given), fee and memo (empty when absent).
    pub fn build(messages: Vec<AnyMsg>, fee: Fee, memo: Option<String>) -> (r: UnsignedTx)
        ensures
            r.messages@ == messages@,
            r.fee == fee,
            r.memo@ == match memo {
                Some(m) => m@,
                None => Seq::<char>::empty(),
            },
    {
        let memo = match memo {
            Some(m) => m,
            None => String::new(),
        };
        UnsignedTx { messages, fee, memo }
    }

    /// Signs the transaction for a family, with the account's counters and the chain id.
    pub fn sign(
        &self,
        identity: &Key,
        family: ChainFamily,
        account: AccountState,
        chain_id: &str,
    ) -> (r: Result<SignedTx, ClientError>)
        requires
            identity.wf(),
        ensures
            r matches Ok(tx) ==> signed_as(
                tx,
                self.messages@,
                self.fee,
                self.memo@,
                *identity,
                family,
                account,
                chain_id@,
            ),
            r matches Err(e) ==> e == ClientError::SigningFailure,
            r is Ok <==> signing_succeeds(
                self.messages@,
                self.fee,
                self.memo@,
                *identity,
                family,
                account,
                chain_id@,
            ),
    {
        if !parse_chain_id(chain_id) {
            return Err(ClientError::SigningFailure);
        }
        let pk = identity.public_key();
        let body = encode_tx_body(&self.messages, self.memo.as_str());
        let key_type_url = match family {
            ChainFamily::Standard => SECP256K1_PUBKEY_TYPE_URL,
            ChainFamily::EthCompatible => ETH_SECP256K1_PUBKEY_TYPE_URL,
        };
        let key_value = encode_public_key(pk.as_slice());
        let auth_info = encode_auth_info(key_type_url, key_value.as_slice(), account.sequence, &self.fee);
        let doc = encode_sign_doc(body.as_slice(), auth_info.as_slice(), chain_id, account.account_number);
        let secret = identity.secret();
        let signature = match family {
            ChainFamily::Standard => sign_sha256(secret.as_slice(), doc.as_slice()),
            ChainFamily::EthCompatible => sign_keccak256(secret.as_slice(), doc.as_slice()),
        };
        match signature {
            Some(sig) => {
                let signer = SignerInfo {
                    public_key_type_url: key_type_url.to_string(),
                    public_key: pk.clone(),
                    sequence: account.sequence,
                };
                Ok(SignedTx { body_bytes: body, auth_info_bytes: auth_info, signatures: vec![sig], signer })
            },
            None => Err(ClientError::SigningFailure),
        }
    }
}

impl SignedTx {
    /// The `TxRaw` encoding that goes on the wire.
    pub fn to_bytes(&self) -> (r: Vec<u8>)
        ensures
            r@ == tx_raw_encoding(self.body_bytes@, self.auth_info_bytes@, sigs_view(self.signatures@)),
    {
        encode_tx_raw(self.body_bytes.as_slice(), self.auth_info_bytes.as_slice(), &self.signatures)
    }

    /// The address that the embedded signer key derives in a family.
    pub fn signer_address(&self, family: ChainFamily, prefix: &str) -> (r: Result<String, ClientError>)
        ensures
            text_result(r) == address_spec(self.signer.public_key@, family, prefix@),
    {
        derive_address(self.signer.public_key.as_slice(), family, prefix)
    }
}

/// Signing the same transaction under the Standard and the EthCompatible
/// family embeds the signer's key under different type tags.
pub proof fn lemma_family_key_tags_differ(
    standard: SignedTx,
    eth: SignedTx,
    msgs: Seq<AnyMsg>,
    fee: Fee,
    memo: Seq<char>,
    identity: Key,
    account: AccountState,
    chain_id: Seq<char>,
)
    requires
        signed_as(standard, msgs, fee, memo, identity, ChainFamily::Standard, account, chain_id),
        signed_as(eth, msgs, fee, memo, identity, ChainFamily::EthCompatible, account, chain_id),
    ensures
        standard.signer.public_key_type_url@ != eth.signer.public_key_type_url@,
        family_key_type_url(ChainFamily::Standard) != family_key_type_url(ChainFamily::EthCompatible),
{
    reveal_strlit("/cosmos.crypto.secp256k1.PubKey");
    reveal_strlit("/injective.crypto.v1beta1.ethsecp256k1.PubKey");
    assert(SECP256K1_PUBKEY_TYPE_URL@.len() == 31);
    assert(ETH_SECP256K1_PUBKEY_TYPE_URL@.len() == 45);
}

} // verus!
