//! From a mnemonic phrase to an encoded viewing key, one account at a time.

use vstd::prelude::*;
use bip39::{Language, Mnemonic};
use orchard::keys::{FullViewingKey, SpendingKey};

use crate::account::{account_key_material, derive_account_key_material};
use crate::container::{encode_orchard_ufvk, fvk_prefix, ufvk_decoded, ufvk_encoded, Network, Pool};
use crate::error::ScanError;
use crate::hexcodec::{encode_hex, hex_lower};
use crate::text::{same_text, starts_with, trim_text, trimmed};

verus! {

/// Whether the English word list and checksum accept a phrase.
pub uninterp spec fn mnemonic_accepted(phrase: Seq<char>) -> bool;

/// The 64-byte seed of an accepted phrase, with an empty passphrase.
pub uninterp spec fn mnemonic_seed(phrase: Seq<char>) -> Seq<u8>;

/// The number of words of an accepted phrase.
pub uninterp spec fn mnemonic_words(phrase: Seq<char>) -> nat;

/// Whether 32 bytes are a valid Orchard spending key.
pub uninterp spec fn spending_key_valid(material: Seq<u8>) -> bool;

/// The 96-byte full viewing key of a valid Orchard spending key.
pub uninterp spec fn orchard_fvk_of(material: Seq<u8>) -> Seq<u8>;

/// Relies on bip39's `Mnemonic::parse_in` in English and `Mnemonic::to_seed`
/// with an empty passphrase.
#[verifier::external_body]
fn seed_of_phrase(phrase: &str) -> (r: Option<[u8; 64]>)
    ensures
        r is Some <==> mnemonic_accepted(phrase@),
        r matches Some(s) ==> s@ == mnemonic_seed(phrase@),
{
    Mnemonic::parse_in(Language::English, phrase).ok().map(|m| m.to_seed(""))
}

/// Relies on bip39's `Mnemonic::parse_in` in English, which accepts 12, 15,
/// 18, 21 or 24 words, and `Mnemonic::word_count`.
#[verifier::external_body]
fn word_count_of_phrase(phrase: &str) -> (r: Option<usize>)
    ensures
        r is Some <==> mnemonic_accepted(phrase@),
        r matches Some(n) ==> n == mnemonic_words(phrase@) && 12 <= n <= 24 && n % 3 == 0,
{
    Mnemonic::parse_in(Language::English, phrase).ok().map(|m| m.word_count())
}

/// Relies on orchard's `SpendingKey::from_bytes`, which keeps the bytes it
/// accepts, and `SpendingKey::to_bytes`.
#[verifier::external_body]
fn spending_key_bytes(material: &[u8; 32]) -> (r: Option<[u8; 32]>)
    ensures
        r is Some <==> spending_key_valid(material@),
        r matches Some(k) ==> k@ == material@,
{
    SpendingKey::from_bytes(*material).into_option().map(|sk| *sk.to_bytes())
}

/// Relies on orchard's `SpendingKey::from_bytes`, `FullViewingKey::from` and
/// `FullViewingKey::to_bytes`.
#[verifier::external_body]
fn full_viewing_key_bytes(material: &[u8; 32]) -> (r: Option<[u8; 96]>)
    ensures
        r is Some <==> spending_key_valid(material@),
        r matches Some(f) ==> f@ == orchard_fvk_of(material@),
{
    SpendingKey::from_bytes(*material).into_option().map(|sk| FullViewingKey::from(&sk).to_bytes())
}

/// The network that a name selects: "mainnet" or "testnet".
pub open spec fn network_named(name: Seq<char>) -> Option<Network> {
    if name == seq!['m', 'a', 'i', 'n', 'n', 'e', 't'] {
        Some(Network::Main)
    } else if name == seq!['t', 'e', 's', 't', 'n', 'e', 't'] {
        Some(Network::Test)
    } else {
        None
    }
}

/// Reads a network name.
pub fn network_from_name(name: &str) -> (r: Result<Network, ScanError>)
    ensures
        match network_named(name@) {
            Some(n) => r == Ok::<Network, ScanError>(n),
            None => r == Err::<Network, ScanError>(ScanError::UnsupportedNetwork),
        },
{
    proof {
        reveal_strlit("mainnet");
        reveal_strlit("testnet");
        assert("mainnet"@ =~= seq!['m', 'a', 'i', 'n', 'n', 'e', 't']);
        assert("testnet"@ =~= seq!['t', 'e', 's', 't', 'n', 'e', 't']);
    }
    if same_text(name, "mainnet") {
        Ok(Network::Main)
    } else if same_text(name, "testnet") {
        Ok(Network::Test)
    } else {
        Err(ScanError::UnsupportedNetwork)
    }
}

/// Assembles a viewing key from a 96-byte Orchard full viewing key: a single
/// Orchard component, encoded for the named network.
pub fn assemble_viewing_key(fvk: &[u8; 96], network: &str) -> (r: Result<String, ScanError>)
    ensures
        match network_named(network@) {
            Some(n) => (r matches Ok(s) && s@ == ufvk_encoded(n, fvk@)
                && starts_with(s@, fvk_prefix(n).push('1'))
                && ufvk_decoded(s@) == Some((n, seq![(Pool::Orchard, fvk@)]))),
            None => r == Err::<String, ScanError>(ScanError::UnsupportedNetwork),
        },
{
    let n = network_from_name(network)?;
    let s = encode_orchard_ufvk(fvk, n);
    assert(seq![(Pool::Orchard, fvk@)][0].1.len() == 96);
    Ok(s)
}

/// The key material for an account, if the phrase is accepted.
pub open spec fn phrase_key_material(phrase: Seq<char>, account_index: u32) -> Result<Seq<u8>, ScanError> {
    let p = trimmed(phrase);
    if !mnemonic_accepted(p) {
        Err(ScanError::InvalidMnemonic)
    } else {
        Ok(account_key_material(mnemonic_seed(p), account_index))
    }
}

/// The viewing key that an account of a phrase has on a network.
pub open spec fn derived_viewing_key(phrase: Seq<char>, account_index: u32, network: Seq<char>) -> Result<Seq<char>, ScanError> {
    match phrase_key_material(phrase, account_index) {
        Err(e) => Err(e),
        Ok(m) => if !spending_key_valid(m) {
            Err(ScanError::KeyDerivationFailed)
        } else {
            match network_named(network) {
                None => Err(ScanError::UnsupportedNetwork),
                Some(n) => Ok(ufvk_encoded(n, orchard_fvk_of(m))),
            }
        },
    }
}

/// The Orchard key material of an account of an accepted phrase.
fn phrase_account_material(seed_phrase: &str, account_index: u32) -> (r: Result<[u8; 32], ScanError>)
    ensures
        match r {
            Ok(m) => phrase_key_material(seed_phrase@, account_index) == Ok::<Seq<u8>, ScanError>(m@),
            Err(e) => phrase_key_material(seed_phrase@, account_index) == Err::<Seq<u8>, ScanError>(e),
        },
{
    let phrase = trim_text(seed_phrase);
    match seed_of_phrase(phrase) {
        None => Err(ScanError::InvalidMnemonic),
        Some(seed) => Ok(derive_account_key_material(&seed, account_index)),
    }
}

/// Derives the unified full viewing key of an account from a mnemonic phrase,
/// encoded for "mainnet" or "testnet".
pub fn derive_ufvk_from_seed(seed_phrase: &str, account_index: u32, network: &str) -> (r: Result<String, ScanError>)
    ensures
        match r {
            Ok(s) => derived_viewing_key(seed_phrase@, account_index, network@) == Ok::<Seq<char>, ScanError>(s@),
            Err(e) => derived_viewing_key(seed_phrase@, account_index, network@) == Err::<Seq<char>, ScanError>(e),
        },
        r matches Ok(s) ==> (network_named(network@) matches Some(n)
            && starts_with(s@, fvk_prefix(n).push('1'))
            && (ufvk_decoded(s@) matches Some((m, cs))
            && m == n && cs.len() == 1 && cs[0].0 == Pool::Orchard && cs[0].1.len() == 96)),
{
    let material = phrase_account_material(seed_phrase, account_index)?;
    let fvk = match full_viewing_key_bytes(&material) {
        Some(f) => f,
        None => return Err(ScanError::KeyDerivationFailed),
    };
    assemble_viewing_key(&fvk, network)
}

/// Whether a phrase, once trimmed, is an accepted English mnemonic.
pub fn validate_seed_phrase(seed_phrase: &str) -> (r: bool)
    ensures
        r == mnemonic_accepted(trimmed(seed_phrase@)),
{
    word_count_of_phrase(trim_text(seed_phrase)).is_some()
}

/// The number of words of an accepted phrase: 12, 15, 18, 21 or 24.
pub fn get_seed_word_count(seed_phrase: &str) -> (r: Result<usize, ScanError>)
    ensures
        mnemonic_accepted(trimmed(seed_phrase@)) ==> (r matches Ok(n)
            && n == mnemonic_words(trimmed(seed_phrase@)) && 12 <= n <= 24 && n % 3 == 0),
        !mnemonic_accepted(trimmed(seed_phrase@)) ==> r == Err::<usize, ScanError>(ScanError::InvalidMnemonic),
{
    match word_count_of_phrase(trim_text(seed_phrase)) {
        Some(n) => Ok(n),
        None => Err(ScanError::InvalidMnemonic),
    }
}

/// The spending key of an account, as lowercase hex.
pub fn derive_spending_key_from_seed(seed_phrase: &str, account_index: u32) -> (r: Result<String, ScanError>)
    ensures
        match phrase_key_material(seed_phrase@, account_index) {
            Err(e) => r == Err::<String, ScanError>(e),
            Ok(m) => if spending_key_valid(m) {
                (r matches Ok(s) && s@ == hex_lower(m))
            } else {
                r == Err::<String, ScanError>(ScanError::KeyDerivationFailed)
            },
        },
{
    let material = phrase_account_material(seed_phrase, account_index)?;
    match spending_key_bytes(&material) {
        Some(k) => Ok(encode_hex(&k)),
        None => Err(ScanError::KeyDerivationFailed),
    }
}

} // verus!
