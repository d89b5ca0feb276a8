use zypherscan::{
    batch_filter_compact_outputs, decrypt_compact_output, decrypt_memo, decrypt_with_multi_account,
    derive_ufvk_from_seed, find_owning_account, memo_text, orchard_fvk_from_key,
    parse_compact_output, report_full_match, CompactOutputHex, FullAction, OutputField, ScanError,
    Scope,
};

const PHRASE: &str = "abandon abandon abandon abandon abandon abandon abandon abandon abandon abandon abandon about";

fn zeros(n: usize) -> String {
    "00".repeat(n)
}

fn output(ciphertext_len: usize) -> CompactOutputHex {
    CompactOutputHex {
        nullifier: zeros(32),
        cmx: zeros(32),
        ephemeral_key: zeros(32),
        ciphertext: zeros(ciphertext_len),
        txid: "ab".repeat(32),
        height: 2_000_000,
    }
}

fn key() -> String {
    derive_ufvk_from_seed(PHRASE, 0, "mainnet").unwrap()
}

#[test]
fn short_ciphertext_fails_batch_with_its_length() {
    let outs = vec![output(52), output(51)];
    assert_eq!(
        batch_filter_compact_outputs(&outs, &key()).unwrap_err(),
        ScanError::InvalidLength(OutputField::Ciphertext, 51)
    );
}

#[test]
fn long_ciphertext_is_not_truncated() {
    let outs = vec![output(53)];
    assert_eq!(
        batch_filter_compact_outputs(&outs, &key()).unwrap_err(),
        ScanError::InvalidLength(OutputField::Ciphertext, 53)
    );
}

#[test]
fn each_field_is_checked_for_length_and_hex() {
    let mut o = output(52);
    o.cmx = zeros(31);
    assert_eq!(batch_filter_compact_outputs(&vec![o], &key()).unwrap_err(), ScanError::InvalidLength(OutputField::Commitment, 31));
    let mut o = output(52);
    o.nullifier = "zz".repeat(32);
    assert_eq!(batch_filter_compact_outputs(&vec![o], &key()).unwrap_err(), ScanError::InvalidHex(OutputField::Nullifier));
    let mut o = output(52);
    o.ephemeral_key = "0".repeat(63);
    assert_eq!(batch_filter_compact_outputs(&vec![o], &key()).unwrap_err(), ScanError::InvalidHex(OutputField::EphemeralKey));
}

#[test]
fn non_canonical_nullifier_is_rejected() {
    let nf = "ff".repeat(32);
    assert_eq!(
        parse_compact_output(&nf, &zeros(32), &zeros(32), &zeros(52)).unwrap_err(),
        ScanError::InvalidValue(OutputField::Nullifier)
    );
}

#[test]
fn non_canonical_commitment_is_rejected() {
    let cmx = "ff".repeat(32);
    assert_eq!(
        parse_compact_output(&zeros(32), &cmx, &zeros(32), &zeros(52)).unwrap_err(),
        ScanError::InvalidValue(OutputField::Commitment)
    );
}

#[test]
fn well_formed_outputs_parse_to_their_bytes() {
    let epk = "0102".repeat(16);
    let o = parse_compact_output(&zeros(32), &zeros(32), &epk, &"AB".repeat(52)).unwrap();
    assert_eq!(o.ephemeral_key[0], 1);
    assert_eq!(o.ephemeral_key[1], 2);
    assert_eq!(o.ciphertext, [0xabu8; 52]);
}

#[test]
fn unrelated_outputs_do_not_match() {
    let outs = vec![output(52), output(52)];
    assert_eq!(batch_filter_compact_outputs(&outs, &key()).unwrap().len(), 0);
    assert!(batch_filter_compact_outputs(&Vec::new(), &key()).unwrap().is_empty());
}

#[test]
fn single_and_batch_agree_on_a_non_matching_output() {
    let o = output(52);
    let single = decrypt_compact_output(&o.nullifier, &o.cmx, &o.ephemeral_key, &o.ciphertext, &key());
    assert_eq!(single.unwrap_err(), ScanError::NoMatch);
    assert!(batch_filter_compact_outputs(&vec![o], &key()).unwrap().is_empty());
}

#[test]
fn bad_key_fails_batch_and_single() {
    let o = output(52);
    assert_eq!(batch_filter_compact_outputs(&vec![o.clone()], "uview1bad").unwrap_err(), ScanError::InvalidEncoding);
    assert_eq!(
        decrypt_compact_output(&o.nullifier, &o.cmx, &o.ephemeral_key, &o.ciphertext, "uview1bad").unwrap_err(),
        ScanError::InvalidEncoding
    );
}

/// A well-formed full action that no key owns: every point field holds the
/// spend validating key of a derived viewing key.
fn foreign_action() -> FullAction {
    let other = derive_ufvk_from_seed(PHRASE, 7, "mainnet").unwrap();
    let fvk = orchard_fvk_from_key(&other).unwrap();
    let mut point = [0u8; 32];
    point.copy_from_slice(&fvk[..32]);
    FullAction {
        nullifier: [0u8; 32],
        rk: point,
        cmx: [0u8; 32],
        ephemeral_key: point,
        enc_ciphertext: [0u8; 580],
        out_ciphertext: [0u8; 80],
        cv_net: point,
    }
}

#[test]
fn zero_memo_has_no_text() {
    assert_eq!(memo_text(&[0u8; 512]), None);
    let m = report_full_match(12_345, &[0u8; 512], Scope::External);
    assert_eq!(m.value, 12_345);
    assert_eq!(m.memo, None);
    assert_eq!(m.scope, Scope::External);
}

#[test]
fn memo_is_clipped_at_first_zero() {
    let mut memo = vec![0u8; 512];
    memo[..5].copy_from_slice(b"hello");
    memo[6] = b'x';
    assert_eq!(memo_text(&memo), Some("hello".to_string()));
    let full = b"no zero byte at all".to_vec();
    assert_eq!(memo_text(&full), Some("no zero byte at all".to_string()));
    let m = report_full_match(5, &memo, Scope::Internal);
    assert_eq!((m.value, m.memo.as_deref(), m.scope), (5, Some("hello"), Scope::Internal));
}

#[test]
fn blank_or_invalid_memo_has_no_text() {
    let mut memo = vec![0u8; 512];
    memo[..3].copy_from_slice(b" \t ");
    assert_eq!(memo_text(&memo), None);
    let mut bad = vec![0u8; 512];
    bad[0] = 0xff;
    bad[1] = 0xfe;
    assert_eq!(memo_text(&bad), None);
    let m = report_full_match(7, &bad, Scope::Internal);
    assert_eq!((m.value, m.memo, m.scope), (7, None, Scope::Internal));
}

#[test]
fn invalid_full_action_is_reported_by_position() {
    let mut broken = foreign_action();
    broken.rk = [0u8; 32];
    let actions = vec![foreign_action(), broken];
    assert_eq!(decrypt_memo(&actions, &key()).unwrap_err(), ScanError::InvalidAction(1));
}

#[test]
fn foreign_full_action_does_not_match() {
    assert_eq!(decrypt_memo(&vec![foreign_action()], &key()).unwrap_err(), ScanError::NoMatch);
    assert_eq!(decrypt_memo(&Vec::new(), &key()).unwrap_err(), ScanError::NoMatch);
    assert_eq!(decrypt_memo(&vec![foreign_action()], "uview1bad").unwrap_err(), ScanError::InvalidEncoding);
}

#[test]
fn search_without_owner_reports_not_found() {
    let actions = vec![foreign_action()];
    assert_eq!(find_owning_account(&actions, PHRASE, "mainnet", 3).unwrap_err(), ScanError::NoOwningAccountFound);
    assert_eq!(find_owning_account(&actions, PHRASE, "mainnet", 0).unwrap_err(), ScanError::NoOwningAccountFound);
    assert_eq!(decrypt_with_multi_account(&Vec::new(), PHRASE, "testnet").unwrap_err(), ScanError::NoOwningAccountFound);
}

#[test]
fn search_skips_accounts_that_do_not_derive() {
    let actions = vec![foreign_action()];
    assert_eq!(
        find_owning_account(&actions, "invalid seed phrase test", "mainnet", 2).unwrap_err(),
        ScanError::NoOwningAccountFound
    );
    assert_eq!(find_owning_account(&actions, PHRASE, "moon", 2).unwrap_err(), ScanError::NoOwningAccountFound);
}
