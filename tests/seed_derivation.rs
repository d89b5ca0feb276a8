use zypherscan::{
    decode_viewing_key, derive_account_key_material, derive_spending_key_from_seed,
    derive_ufvk_from_seed, detect_key_type, get_seed_word_count, network_from_name,
    validate_seed_phrase, Network, Pool, ScanError,
};

const PHRASE: &str = "abandon abandon abandon abandon abandon abandon abandon abandon abandon abandon abandon about";

#[test]
fn test_validate_seed_phrase() {
    // Valid 12-word seed
    let valid_seed = "abandon abandon abandon abandon abandon abandon abandon abandon abandon abandon abandon about";
    assert!(validate_seed_phrase(valid_seed));

    // Invalid seed
    let invalid_seed = "invalid seed phrase test";
    assert!(!validate_seed_phrase(invalid_seed));
}

#[test]
fn test_derive_ufvk() {
    let seed = "abandon abandon abandon abandon abandon abandon abandon abandon abandon abandon abandon about";
    let result = derive_ufvk_from_seed(seed, 0, "testnet");
    assert!(result.is_ok());

    let ufvk = result.unwrap();
    assert!(ufvk.starts_with("uviewtest"));
}

#[test]
fn derive_mainnet_key_has_mainnet_prefix() {
    let ufvk = derive_ufvk_from_seed(PHRASE, 0, "mainnet").unwrap();
    assert!(ufvk.starts_with("uview1"));
    assert_eq!(detect_key_type(&ufvk), "ufvk-mainnet");
}

#[test]
fn derive_testnet_key_is_detected_as_testnet() {
    let ufvk = derive_ufvk_from_seed(PHRASE, 0, "testnet").unwrap();
    assert!(ufvk.starts_with("uviewtest1"));
    assert_eq!(detect_key_type(&ufvk), "ufvk-testnet");
}

#[test]
fn derive_with_unknown_network_fails() {
    assert_eq!(derive_ufvk_from_seed(PHRASE, 0, "regtest"), Err(ScanError::UnsupportedNetwork));
    assert_eq!(derive_ufvk_from_seed(PHRASE, 0, "Mainnet"), Err(ScanError::UnsupportedNetwork));
    assert_eq!(network_from_name("testnet"), Ok(Network::Test));
    assert_eq!(network_from_name(""), Err(ScanError::UnsupportedNetwork));
}

#[test]
fn derive_with_invalid_phrase_fails() {
    assert_eq!(derive_ufvk_from_seed("invalid seed phrase test", 0, "mainnet"), Err(ScanError::InvalidMnemonic));
    assert_eq!(derive_spending_key_from_seed("abandon", 0), Err(ScanError::InvalidMnemonic));
}

#[test]
fn surrounding_whitespace_is_ignored() {
    let padded = format!("  {}\n", PHRASE);
    assert!(validate_seed_phrase(&padded));
    assert_eq!(derive_ufvk_from_seed(&padded, 3, "mainnet"), derive_ufvk_from_seed(PHRASE, 3, "mainnet"));
}

#[test]
fn word_count_of_valid_and_invalid_phrases() {
    assert_eq!(get_seed_word_count(PHRASE), Ok(12));
    assert_eq!(get_seed_word_count("invalid seed phrase test"), Err(ScanError::InvalidMnemonic));
}

#[test]
fn derivation_is_deterministic_and_separates_accounts() {
    let a = derive_ufvk_from_seed(PHRASE, 0, "mainnet").unwrap();
    let b = derive_ufvk_from_seed(PHRASE, 0, "mainnet").unwrap();
    let c = derive_ufvk_from_seed(PHRASE, 1, "mainnet").unwrap();
    assert_eq!(a, b);
    assert_ne!(a, c);
}

#[test]
fn key_material_mixes_index_bytes_cyclically() {
    let mut seed = [0u8; 64];
    for (i, b) in seed.iter_mut().enumerate() {
        *b = i as u8;
    }
    let m = derive_account_key_material(&seed, 0x0403_0201);
    for i in 0..32 {
        let idx_byte = [0x01u8, 0x02, 0x03, 0x04][i % 4];
        assert_eq!(m[i], (i as u8) ^ idx_byte);
    }
    assert_eq!(derive_account_key_material(&seed, 0)[..], seed[..32]);
    assert_ne!(derive_account_key_material(&seed, 1), derive_account_key_material(&seed, 256));
}

#[test]
fn spending_key_of_account_zero_is_the_seed_prefix() {
    // The BIP-39 seed of this phrase with an empty passphrase begins with these bytes.
    let hex_key = derive_spending_key_from_seed(PHRASE, 0).unwrap();
    assert_eq!(hex_key, "5eb00bbddcf069084889a8ab9155568165f5c453ccb85e70811aaed6f6da5fc1");
}

#[test]
fn spending_key_of_account_one_flips_the_low_bits() {
    let hex_key = derive_spending_key_from_seed(PHRASE, 1).unwrap();
    assert_eq!(hex_key, "5fb00bbdddf069084989a8ab9055568164f5c453cdb85e70801aaed6f7da5fc1");
}

#[test]
fn derived_key_decodes_to_one_orchard_component() {
    let ufvk = derive_ufvk_from_seed(PHRASE, 2, "testnet").unwrap();
    let (network, components) = decode_viewing_key(&ufvk).unwrap();
    assert_eq!(network, Network::Test);
    assert_eq!(components.len(), 1);
    assert_eq!(components[0].pool, Pool::Orchard);
    assert_eq!(components[0].data.len(), 96);
}
