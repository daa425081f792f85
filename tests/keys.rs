use cosmos_grpc_client::address::derive_address;
use cosmos_grpc_client::key::{derivation_path, Key};
use cosmos_grpc_client::wallet::Wallet;
use cosmos_grpc_client::{ChainFamily, ClientError, CoinType, Decimal};

const MNEMONIC: &str = "abandon abandon abandon abandon abandon abandon abandon abandon abandon abandon abandon about";

fn price() -> Decimal {
    Decimal::raw(15_000_000_000_000_000)
}

fn adjustment() -> Decimal {
    Decimal::raw(2_000_000_000_000_000_000)
}

fn seed_wallet(prefix: &str, coin_type: u64, index: u64) -> Result<Wallet, ClientError> {
    Wallet::from_seed_phrase(
        "pisco-1".to_string(),
        MNEMONIC,
        prefix.to_string(),
        coin_type,
        index,
        price(),
        adjustment(),
        "uluna".to_string(),
    )
}

fn hex(bytes: &[u8]) -> String {
    bytes.iter().map(|b| format!("{:02x}", b)).collect()
}

#[test]
fn derivation_path_renders_decimal() {
    assert_eq!(derivation_path(118, 0), "m/44'/118'/0'/0/0");
    assert_eq!(derivation_path(60, 1234567), "m/44'/60'/0'/0/1234567");
    assert_eq!(derivation_path(0, 10), "m/44'/0'/0'/0/10");
    assert_eq!(
        derivation_path(u64::MAX, u64::MAX),
        "m/44'/18446744073709551615'/0'/0/18446744073709551615"
    );
}

#[test]
fn seed_phrase_gives_known_cosmos_key() {
    let id = Key::from_seed_phrase(MNEMONIC, 0, 118).unwrap();
    assert_eq!(
        hex(id.public_key()),
        "024f4e2ad99c34d60b9ba6283c9431a8418af8673212961f97a77b6377fcd05b62"
    );
    let address = derive_address(id.public_key(), ChainFamily::Standard, "cosmos").unwrap();
    assert_eq!(address, "cosmos19rl4cm2hmr8afy4kldpxz3fka4jguq0auqdal4");
}

#[test]
fn seed_derivation_is_deterministic() {
    let a = seed_wallet("terra", 330, 0).unwrap();
    let b = seed_wallet("terra", 330, 0).unwrap();
    assert_eq!(a.account_address(), b.account_address());
    assert_eq!(a.public_key(), b.public_key());
    assert_eq!(a.account_address(), "terra1amdttz2937a3dytmxmkany53pp6ma6dy4vsllv");
    let other = seed_wallet("terra", 330, 1).unwrap();
    assert_ne!(a.account_address(), other.account_address());
}

#[test]
fn injective_address_from_seed() {
    let w = seed_wallet("inj", 60, 0).unwrap();
    assert_eq!(w.account_address(), "inj1npvwllfr9dqr8erajqqr6s0vxnk2ak55re90dz");
    assert_eq!(w.family(), ChainFamily::EthCompatible);
}

#[test]
fn eth_address_ignores_prefix() {
    let id = Key::from_seed_phrase(MNEMONIC, 0, 60).unwrap();
    let a = derive_address(id.public_key(), ChainFamily::EthCompatible, "inj").unwrap();
    let b = derive_address(id.public_key(), ChainFamily::EthCompatible, "terra").unwrap();
    let c = derive_address(id.public_key(), ChainFamily::EthCompatible, "Not A Prefix").unwrap();
    assert_eq!(a, b);
    assert_eq!(a, c);
    assert!(a.starts_with("inj1"));
    let w1 = seed_wallet("inj", 60, 0).unwrap();
    let w2 = seed_wallet("osmo", 60, 0).unwrap();
    assert_eq!(w1.account_address(), w2.account_address());
}

#[test]
fn standard_address_follows_prefix() {
    let id = Key::from_seed_phrase(MNEMONIC, 0, 118).unwrap();
    let a = derive_address(id.public_key(), ChainFamily::Standard, "terra").unwrap();
    assert_eq!(a, "terra19rl4cm2hmr8afy4kldpxz3fka4jguq0a6yhaa4");
    assert_eq!(
        derive_address(id.public_key(), ChainFamily::Standard, "Terra"),
        Err(ClientError::InvalidPrefix)
    );
    assert_eq!(
        derive_address(id.public_key(), ChainFamily::Standard, "ter ra"),
        Err(ClientError::InvalidPrefix)
    );
}

#[test]
fn private_key_one_has_generator_as_public_key() {
    let mut bytes = vec![0u8; 31];
    bytes.push(1);
    let id = Key::from_private_key(&bytes).unwrap();
    assert_eq!(
        hex(id.public_key()),
        "0279be667ef9dcbbac55a06295ce870b07029bfcdb2dce28d959f2815b16f81798"
    );
    let address = derive_address(id.public_key(), ChainFamily::Standard, "cosmos").unwrap();
    assert_eq!(address, "cosmos1w508d6qejxtdg4y5r3zarvary0c5xw7k6ah60c");
}

#[test]
fn short_private_key_is_left_padded() {
    let short = vec![1u8; 24];
    let mut padded = vec![0u8; 8];
    padded.extend_from_slice(&short);
    let a = Key::from_private_key(&short).unwrap();
    let b = Key::from_private_key(&padded).unwrap();
    assert_eq!(a.public_key(), b.public_key());
}

#[test]
fn invalid_private_keys_are_refused() {
    assert!(matches!(
        Key::from_private_key(&[0u8; 32]),
        Err(ClientError::InvalidKeyMaterial)
    ));
    assert!(matches!(
        Key::from_private_key(&[0xffu8; 32]),
        Err(ClientError::InvalidKeyMaterial)
    ));
    assert!(matches!(
        Key::from_private_key(&[1u8; 23]),
        Err(ClientError::InvalidKeyMaterial)
    ));
    assert!(matches!(
        Key::from_private_key(&[1u8; 33]),
        Err(ClientError::InvalidKeyMaterial)
    ));
    let r = Wallet::from_private_key(
        "pisco-1".to_string(),
        &[0u8; 32],
        "terra".to_string(),
        330,
        price(),
        adjustment(),
        "uluna".to_string(),
    );
    assert!(matches!(r, Err(ClientError::InvalidKeyMaterial)));
}

#[test]
fn invalid_mnemonic_is_refused() {
    let r = Key::from_seed_phrase("abandon abandon abandon", 0, 118);
    assert!(matches!(r, Err(ClientError::InvalidMnemonic)));
    let bad_checksum = "abandon abandon abandon abandon abandon abandon abandon abandon abandon abandon abandon abandon";
    assert!(matches!(
        Key::from_seed_phrase(bad_checksum, 0, 118),
        Err(ClientError::InvalidMnemonic)
    ));
}

#[test]
fn hardened_range_bounds_the_path() {
    assert!(matches!(
        Key::from_seed_phrase(MNEMONIC, 1 << 31, 118),
        Err(ClientError::DerivationFailure)
    ));
    assert!(matches!(
        Key::from_seed_phrase(MNEMONIC, 0, 1 << 31),
        Err(ClientError::InvalidDerivationPath)
    ));
    assert!(matches!(
        Key::from_seed_phrase(MNEMONIC, u64::MAX, 118),
        Err(ClientError::DerivationFailure)
    ));
    assert!(matches!(
        Key::from_seed_phrase(MNEMONIC, u64::MAX, u64::MAX),
        Err(ClientError::InvalidDerivationPath)
    ));
    assert!(Key::from_seed_phrase(MNEMONIC, (1 << 31) - 1, 118).is_ok());
    assert!(matches!(seed_wallet("terra", 330, 1 << 31), Err(ClientError::DerivationFailure)));
}

#[test]
fn unknown_coin_type_is_refused() {
    assert!(matches!(seed_wallet("terra", 999, 0), Err(ClientError::InvalidCoinType)));
    assert!(matches!(seed_wallet("Terra", 330, 0), Err(ClientError::InvalidPrefix)));
}

#[test]
fn random_wallets_differ() {
    let a = Wallet::random(
        "pisco-1".to_string(),
        "terra".to_string(),
        330,
        price(),
        adjustment(),
        "uluna".to_string(),
    )
    .unwrap();
    let b = Wallet::random(
        "pisco-1".to_string(),
        "terra".to_string(),
        330,
        price(),
        adjustment(),
        "uluna".to_string(),
    )
    .unwrap();
    assert_ne!(a.account_address(), b.account_address());
    assert!(a.account_address().starts_with("terra1"));
    assert_eq!(a.account_sequence(), 0);
    assert_eq!(a.account_number(), 0);
}

#[test]
fn coin_type_codes() {
    assert_eq!(CoinType::Injective.repr(), 60);
    assert_eq!(CoinType::Cosmos.repr(), 118);
    assert_eq!(u64::from(CoinType::Terra), 330);
    assert_eq!(CoinType::from_repr(330), Some(CoinType::Terra));
    assert_eq!(CoinType::from_repr(61), None);
    assert_eq!(CoinType::Injective.family(), ChainFamily::EthCompatible);
    assert_eq!(CoinType::Cosmos.family(), ChainFamily::Standard);
}
