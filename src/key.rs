use crate::address::{address_spec, derive_address, text_result};
use crate::definitions::CoinType;
use crate::errors::ClientError;
use vstd::prelude::*;

verus! {

/// The order of the secp256k1 group.
pub open spec fn secp256k1_order() -> int {
    0xFFFF_FFFF_FFFF_FFFF_FFFF_FFFF_FFFF_FFFEint * 0x1_0000_0000_0000_0000int
        * 0x1_0000_0000_0000_0000int + 0xBAAE_DCE6_AF48_A03B_BFD2_5E8C_D036_4141int
}

/// The big-endian integer that the bytes spell.
pub open spec fn be_value(b: Seq<u8>) -> int
    decreases b.len(),
{
    if b.len() == 0 {
        0
    } else {
        be_value(b.drop_last()) * 256 + b.last() as int
    }
}

/// Bytes that k256 accepts as a secret scalar: 24 to 32 bytes, big endian,
/// shorter input padded on the left, and a value in `1 .. n`.
pub open spec fn secret_accepted(b: Seq<u8>) -> bool {
    24 <= b.len() <= 32 && 0 < be_value(b) < secp256k1_order()
}

/// A secret scalar in its canonical 32-byte form.
pub open spec fn is_secret(b: Seq<u8>) -> bool {
    b.len() == 32 && secret_accepted(b)
}

/// The bytes padded on the left with zeros to 32 bytes.
pub open spec fn pad32(b: Seq<u8>) -> Seq<u8> {
    Seq::new((32 - b.len()) as nat, |i: int| 0u8) + b
}

proof fn lemma_zeros_value(n: nat)
    ensures
        be_value(Seq::new(n, |i: int| 0u8)) == 0,
    decreases n,
{
    if n > 0 {
        lemma_zeros_value((n - 1) as nat);
        assert(Seq::new(n, |i: int| 0u8).drop_last() =~= Seq::new((n - 1) as nat, |i: int| 0u8));
    }
}

/// Leading zeros do not change the big-endian value.
proof fn lemma_zero_prefix_value(n: nat, b: Seq<u8>)
    ensures
        be_value(Seq::new(n, |i: int| 0u8) + b) == be_value(b),
    decreases b.len(),
{
    let z = Seq::new(n, |i: int| 0u8);
    if b.len() == 0 {
        assert(z + b =~= z);
        lemma_zeros_value(n);
    } else {
        lemma_zero_prefix_value(n, b.drop_last());
        assert((z + b).drop_last() =~= z + b.drop_last());
    }
}

/// The compressed SEC1 encoding of the public key of a secret scalar.
pub uninterp spec fn sec1_public_key(secret: Seq<u8>) -> Seq<u8>;

/// Whether the bytes are a SEC1 encoding of a secp256k1 point.
pub uninterp spec fn sec1_point_valid(pk: Seq<u8>) -> bool;

/// Whether bip39 accepts the phrase as an English mnemonic.
pub uninterp spec fn mnemonic_accepted(phrase: Seq<char>) -> bool;

/// The 64-byte BIP-39 seed of a phrase, with an empty passphrase.
pub uninterp spec fn mnemonic_seed(phrase: Seq<char>) -> Seq<u8>;

/// The secret scalar of the BIP-32 child of `seed` along `path`, when derivation succeeds.
pub uninterp spec fn bip32_child_secret(seed: Seq<u8>, path: Seq<char>) -> Option<Seq<u8>>;

/// Relies on k256's `SigningKey::from_slice` (24 to 32 bytes, left-padded, value
/// in `1 .. n`) and `SigningKey::to_bytes` (the scalar as 32 big-endian bytes).
#[verifier::external_body]
fn secret_from_slice(bytes: &[u8]) -> (r: Option<Vec<u8>>)
    ensures
        r is Some <==> secret_accepted(bytes@),
        r matches Some(s) ==> s@ == pad32(bytes@),
{
    k256::ecdsa::SigningKey::from_slice(bytes).ok().map(|k| k.to_bytes().to_vec())
}

/// Relies on k256's `SigningKey::random` over the operating system's generator:
/// a uniformly drawn non-zero scalar below the group order.
#[verifier::external_body]
fn random_secret() -> (r: Vec<u8>)
    ensures
        is_secret(r@),
{
    k256::ecdsa::SigningKey::random(&mut k256::elliptic_curve::rand_core::OsRng).to_bytes().to_vec()
}

/// Relies on k256's `VerifyingKey::to_encoded_point(true)`: the 33-byte compressed
/// SEC1 encoding of the key's point, which `VerifyingKey::from_sec1_bytes` accepts.
#[verifier::external_body]
fn compressed_public_key(secret: &[u8]) -> (r: Vec<u8>)
    requires
        is_secret(secret@),
    ensures
        r@ == sec1_public_key(secret@),
        r@.len() == 33,
        sec1_point_valid(r@),
{
    let key = k256::ecdsa::SigningKey::from_slice(secret).expect("a canonical secret scalar");
    key.verifying_key().to_encoded_point(true).as_bytes().to_vec()
}

/// Relies on bip39's `Mnemonic::from_str` (word list and checksum) and
/// `Mnemonic::to_seed("")` (PBKDF2 with an empty passphrase, 64 bytes).
#[verifier::external_body]
fn seed_from_mnemonic(phrase: &str) -> (r: Option<Vec<u8>>)
    ensures
        r is Some <==> mnemonic_accepted(phrase@),
        r matches Some(s) ==> s@ == mnemonic_seed(phrase@) && s@.len() == 64,
{
    phrase.parse::<bip39::Mnemonic>().ok().map(|m| m.to_seed("").to_vec())
}

/// Relies on bip32's `DerivationPath::from_str`: after the leading `m`, each
/// `/`-separated child is a `u32` in decimal, optionally marked hardened by a
/// trailing `'`, and must lie below 2^31.
#[verifier::external_body]
fn derivation_path_accepted(path: &str) -> (r: bool)
    ensures
        forall|coin_type: u64, index: u64|
            #![trigger derivation_path_text(coin_type, index)]
            path@ == derivation_path_text(coin_type, index) ==> (r <==> (coin_type < 0x8000_0000
                && index < 0x8000_0000)),
{
    path.parse::<bip32::DerivationPath>().is_ok()
}

/// Relies on bip32's `XPrv::derive_from_path`: the child's private key, a
/// k256 signing key, as 32 bytes.
#[verifier::external_body]
fn derive_child_secret(seed: &[u8], path: &str) -> (r: Option<Vec<u8>>)
    ensures
        r matches Some(s) ==> bip32_child_secret(seed@, path@) == Some(s@) && is_secret(s@),
        r is None ==> bip32_child_secret(seed@, path@) is None,
{
    let path: bip32::DerivationPath = path.parse().ok()?;
    bip32::XPrv::derive_from_path(seed, &path).ok().map(|k| k.to_bytes().to_vec())
}

/// The decimal digit character of `d < 10`.
pub open spec fn digit_char(d: int) -> char {
    if d == 0 { '0' } else if d == 1 { '1' } else if d == 2 { '2' } else if d == 3 { '3' }
    else if d == 4 { '4' } else if d == 5 { '5' } else if d == 6 { '6' } else if d == 7 { '7' }
    else if d == 8 { '8' } else { '9' }
}

/// `n` in decimal, without leading zeros.
pub open spec fn decimal_text(n: nat) -> Seq<char>
    decreases n,
{
    if n < 10 {
        seq![digit_char(n as int)]
    } else {
        decimal_text(n / 10).push(digit_char((n % 10) as int))
    }
}

/// `m/44'/<coin_type>'/0'/0/<index>`.
pub open spec fn derivation_path_text(coin_type: u64, index: u64) -> Seq<char> {
    seq!['m', '/', '4', '4', '\'', '/'] + decimal_text(coin_type as nat) + seq![
        '\'',
        '/',
        '0',
        '\'',
        '/',
        '0',
        '/',
    ] + decimal_text(index as nat)
}

fn digit_str(d: u64) -> (r: &'static str)
    requires
        d < 10,
    ensures
        r@ == seq![digit_char(d as int)],
{
    proof {
        reveal_strlit("0");
        reveal_strlit("1");
        reveal_strlit("2");
        reveal_strlit("3");
        reveal_strlit("4");
        reveal_strlit("5");
        reveal_strlit("6");
        reveal_strlit("7");
        reveal_strlit("8");
        reveal_strlit("9");
    }
    if d == 0 { "0" } else if d == 1 { "1" } else if d == 2 { "2" } else if d == 3 { "3" }
    else if d == 4 { "4" } else if d == 5 { "5" } else if d == 6 { "6" } else if d == 7 { "7" }
    else if d == 8 { "8" } else { "9" }
}

/// Appends `n` in decimal to `s`.
pub fn push_decimal(s: &mut String, n: u64)
    ensures
        final(s)@ == old(s)@ + decimal_text(n as nat),
    decreases n,
{
    if n >= 10 {
        push_decimal(s, n / 10);
    }
    s.append(digit_str(n % 10));
    proof {
        assert(old(s)@ + decimal_text(n as nat) =~= if n >= 10 {
            old(s)@ + decimal_text((n / 10) as nat) + seq![digit_char((n % 10) as int)]
        } else {
            old(s)@ + seq![digit_char((n % 10) as int)]
        });
    }
}

/// The BIP-44 derivation path of an account: `m/44'/<coin_type>'/0'/0/<index>`.
pub fn derivation_path(coin_type: u64, index: u64) -> (r: String)
    ensures
        r@ == derivation_path_text(coin_type, index),
{
    let mut s = String::from_str("m/44'/");
    push_decimal(&mut s, coin_type);
    s.append("'/0'/0/");
    push_decimal(&mut s, index);
    proof {
        reveal_strlit("m/44'/");
        reveal_strlit("'/0'/0/");
        assert(s@ =~= derivation_path_text(coin_type, index));
    }
    s
}

/// The secret that a mnemonic, account index and coin type lead to, or the
/// error that stops the derivation.
pub open spec fn seed_phrase_secret(phrase: Seq<char>, account_index: u64, coin_type: u64) -> Result<
    Seq<u8>,
    ClientError,
> {
    if !mnemonic_accepted(phrase) {
        Err(ClientError::InvalidMnemonic)
    } else if coin_type >= 0x8000_0000 {
        Err(ClientError::InvalidDerivationPath)
    } else if account_index >= 0x8000_0000 {
        Err(ClientError::DerivationFailure)
    } else {
        match bip32_child_secret(
            mnemonic_seed(phrase),
            derivation_path_text(coin_type, account_index),
        ) {
            Some(s) => Ok(s),
            None => Err(ClientError::DerivationFailure),
        }
    }
}

/// A signing identity: a secp256k1 secret scalar together with its
/// compressed public key. It is never serialized by this library.
pub struct Key {
    secret: Vec<u8>,
    public_key: Vec<u8>,
}

impl Key {
    /// The secret scalar, as 32 big-endian bytes.
    pub closed spec fn secret_bytes(&self) -> Seq<u8> {
        self.secret@
    }

    /// The compressed SEC1 public key.
    pub closed spec fn public_key_bytes(&self) -> Seq<u8> {
        self.public_key@
    }

    /// The secret is a canonical scalar and the public key is its own.
    pub open spec fn wf(&self) -> bool {
        &&& is_secret(self.secret_bytes())
        &&& self.public_key_bytes() == sec1_public_key(self.secret_bytes())
        &&& self.public_key_bytes().len() == 33
        &&& sec1_point_valid(self.public_key_bytes())
    }

    /// The identity was derived from this mnemonic, account index and coin type.
    pub open spec fn derived_from(&self, phrase: Seq<char>, account_index: u64, coin_type: u64) -> bool {
        seed_phrase_secret(phrase, account_index, coin_type) == Ok::<Seq<u8>, ClientError>(
            self.secret_bytes(),
        )
    }

    fn from_secret(secret: Vec<u8>) -> (r: Key)
        requires
            is_secret(secret@),
        ensures
            r.wf(),
            r.secret_bytes() == secret@,
    {
        let public_key = compressed_public_key(secret.as_slice());
        Key { secret, public_key }
    }

    /// A fresh key from the operating system's secure generator.
    pub fn random() -> (r: Key)
        ensures
            r.wf(),
    {
        Key::from_secret(random_secret())
    }

    /// The key whose secret scalar the bytes spell.
    pub fn from_private_key(bytes: &[u8]) -> (r: Result<Key, ClientError>)
        ensures
            r is Ok <==> secret_accepted(bytes@),
            r matches Ok(id) ==> id.wf() && id.secret_bytes() == pad32(bytes@),
            r matches Err(e) ==> e == ClientError::InvalidKeyMaterial,
    {
        match secret_from_slice(bytes) {
            Some(secret) => {
                proof {
                    lemma_zero_prefix_value((32 - bytes@.len()) as nat, bytes@);
                }
                Ok(Key::from_secret(secret))
            },
            None => Err(ClientError::InvalidKeyMaterial),
        }
    }

    /// The key at `m/44'/<coin_type>'/0'/0/<account_index>` under the seed of a
    /// BIP-39 mnemonic with an empty passphrase.
    pub fn from_seed_phrase(phrase: &str, account_index: u64, coin_type: u64) -> (r: Result<
        Key,
        ClientError,
    >)
        ensures
            match seed_phrase_secret(phrase@, account_index, coin_type) {
                Ok(s) => r matches Ok(id) && id.wf() && id.secret_bytes() == s,
                Err(e) => r == Err::<Key, ClientError>(e),
            },
    {
        let seed = match seed_from_mnemonic(phrase) {
            Some(seed) => seed,
            None => {
                return Err(ClientError::InvalidMnemonic);
            },
        };
        let path = derivation_path(coin_type, account_index);
        if !derivation_path_accepted(path.as_str()) {
            if coin_type >= 0x8000_0000 {
                return Err(ClientError::InvalidDerivationPath);
            }
            return Err(ClientError::DerivationFailure);
        }
        match derive_child_secret(seed.as_slice(), path.as_str()) {
            Some(secret) => Ok(Key::from_secret(secret)),
            None => Err(ClientError::DerivationFailure),
        }
    }

    /// The account address of the key under a coin type's family (see
    /// `derive_address`); an unknown coin type is refused.
    pub fn account_address(&self, prefix: &str, coin_type: u64) -> (r: Result<String, ClientError>)
        requires
            self.wf(),
        ensures
            CoinType::of_code(coin_type) is None ==> r == Err::<String, ClientError>(
                ClientError::InvalidCoinType,
            ),
            CoinType::of_code(coin_type) matches Some(c) ==> text_result(r) == address_spec(
                self.public_key_bytes(),
                c.family_of(),
                prefix@,
            ),
    {
        match CoinType::from_repr(coin_type) {
            Some(c) => derive_address(self.public_key.as_slice(), c.family(), prefix),
            None => Err(ClientError::InvalidCoinType),
        }
    }

    /// The compressed SEC1 public key.
    pub fn public_key(&self) -> (r: &Vec<u8>)
        ensures
            r@ == self.public_key_bytes(),
    {
        &self.public_key
    }

    pub(crate) fn secret(&self) -> (r: &Vec<u8>)
        ensures
            r@ == self.secret_bytes(),
    {
        &self.secret
    }
}

/// Derivation from a mnemonic is deterministic: two identities derived from the
/// same phrase, account index and coin type hold the same secret and public key.
pub proof fn lemma_seed_derivation_deterministic(
    a: Key,
    b: Key,
    phrase: Seq<char>,
    account_index: u64,
    coin_type: u64,
)
    requires
        a.wf(),
        b.wf(),
        a.derived_from(phrase, account_index, coin_type),
        b.derived_from(phrase, account_index, coin_type),
    ensures
        a.secret_bytes() == b.secret_bytes(),
        a.public_key_bytes() == b.public_key_bytes(),
{
}

} // verus!
