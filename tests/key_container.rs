use zypherscan::{
    decode_viewing_key, derive_ufvk_from_seed, detect_key_type, extract_ivk,
    extract_orchard_component, orchard_fvk_from_key, parse_sapling_extfvk_ivk,
    parse_ufvk_orchard_ivk, KeyComponent, Pool, ScanError,
};

const PHRASE: &str = "abandon abandon abandon abandon abandon abandon abandon abandon abandon abandon abandon about";

fn component(pool: Pool, data: Vec<u8>) -> KeyComponent {
    KeyComponent { pool, data }
}

#[test]
fn detect_key_type_by_prefix() {
    assert_eq!(detect_key_type("uviewtest1abc"), "ufvk-testnet");
    assert_eq!(detect_key_type("uview1abc"), "ufvk-mainnet");
    assert_eq!(detect_key_type("uview"), "ufvk-mainnet");
    assert_eq!(detect_key_type("zxviews1abc"), "unknown");
    assert_eq!(detect_key_type(""), "unknown");
}

#[test]
fn round_trip_of_assembled_key() {
    for net in ["mainnet", "testnet"] {
        let ufvk = derive_ufvk_from_seed(PHRASE, 0, net).unwrap();
        let (_, components) = decode_viewing_key(&ufvk).unwrap();
        let fvk = orchard_fvk_from_key(&ufvk).unwrap();
        assert_eq!(components.len(), 1);
        assert_eq!(components[0].data, fvk.to_vec());
        let again = derive_ufvk_from_seed(PHRASE, 0, net).unwrap();
        assert_eq!(decode_viewing_key(&again).unwrap().1[0].data, components[0].data);
    }
}

#[test]
fn ivk_is_the_rivk_slice_of_the_component() {
    let data: Vec<u8> = (0..96u8).collect();
    let ivk = extract_ivk(&data);
    assert_eq!(ivk[..], data[64..96]);
    let longer: Vec<u8> = (0..120u8).collect();
    assert_eq!(extract_ivk(&longer)[..], longer[64..96]);
}

#[test]
fn parse_orchard_ivk_from_derived_key() {
    let ufvk = derive_ufvk_from_seed(PHRASE, 0, "mainnet").unwrap();
    let (_, components) = decode_viewing_key(&ufvk).unwrap();
    let ivk = parse_ufvk_orchard_ivk(&ufvk).unwrap();
    assert_eq!(ivk[..], components[0].data[64..96]);
}

#[test]
fn malformed_key_fails_to_decode() {
    assert_eq!(decode_viewing_key("uview1notakey").unwrap_err(), ScanError::InvalidEncoding);
    assert_eq!(parse_ufvk_orchard_ivk("hello"), Err(ScanError::InvalidEncoding));
    let ufvk = derive_ufvk_from_seed(PHRASE, 0, "mainnet").unwrap();
    let mut broken = ufvk.clone();
    let last = broken.pop().unwrap();
    broken.push(if last == 'q' { 'p' } else { 'q' });
    assert_eq!(parse_ufvk_orchard_ivk(&broken), Err(ScanError::InvalidEncoding));
}

#[test]
fn orchard_component_missing() {
    let cs = vec![component(Pool::Sapling, vec![0u8; 128]), component(Pool::Unknown(9), vec![1, 2])];
    assert_eq!(extract_orchard_component(&cs), Err(ScanError::ComponentNotFound));
    assert_eq!(extract_orchard_component(&Vec::new()), Err(ScanError::ComponentNotFound));
}

#[test]
fn orchard_component_too_short() {
    let cs = vec![component(Pool::Orchard, vec![7u8; 95]), component(Pool::Orchard, vec![1u8; 96])];
    assert_eq!(extract_orchard_component(&cs), Err(ScanError::ComponentTooShort));
}

#[test]
fn first_orchard_component_is_taken() {
    let cs = vec![
        component(Pool::Transparent, vec![0u8; 65]),
        component(Pool::Orchard, vec![5u8; 96]),
        component(Pool::Orchard, vec![6u8; 96]),
    ];
    assert_eq!(extract_orchard_component(&cs), Ok(vec![5u8; 96]));
}

#[test]
fn sapling_is_not_supported() {
    assert_eq!(parse_sapling_extfvk_ivk("zxviews1xyz"), Err(ScanError::UnsupportedComponent));
}
