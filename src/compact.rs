//! Compact outputs: their hex form, their checked binary form, and the
//! Orchard trial decryption of one of them.

use vstd::prelude::*;
use orchard::keys::{FullViewingKey, PreparedIncomingViewingKey};
use orchard::note::{ExtractedNoteCommitment, Nullifier};
use orchard::note_encryption::{CompactAction, OrchardDomain};
use zcash_note_encryption::try_compact_note_decryption;

use crate::container::{decode_viewing_key, extract_orchard_component, orchard_extraction, ufvk_decoded};
use crate::error::{OutputField, ScanError};
use crate::hexcodec::{decode_hex, hex_decoded};

verus! {

/// The two derivation paths of a viewing key.
#[derive(Clone, Copy, Debug, PartialEq, Eq, Structural)]
pub enum Scope {
    /// Outputs sent to the wallet by others.
    External,
    /// Change and other outputs the wallet sends to itself.
    Internal,
}

/// A compact Orchard action: nullifier, note commitment and ephemeral key of
/// 32 bytes each, and the first 52 bytes of the note ciphertext.
#[derive(Clone, Copy, Debug)]
pub struct CompactOutput {
    pub nullifier: [u8; 32],
    pub cmx: [u8; 32],
    pub ephemeral_key: [u8; 32],
    pub ciphertext: [u8; 52],
}

/// The four byte fields of a compact output.
pub type CompactView = (Seq<u8>, Seq<u8>, Seq<u8>, Seq<u8>);

impl View for CompactOutput {
    type V = CompactView;

    open spec fn view(&self) -> CompactView {
        (self.nullifier@, self.cmx@, self.ephemeral_key@, self.ciphertext@)
    }
}

/// Whether 32 bytes are a canonical Orchard nullifier.
pub uninterp spec fn nullifier_canonical(b: Seq<u8>) -> bool;

/// Whether 32 bytes are a canonical extracted note commitment.
pub uninterp spec fn commitment_canonical(b: Seq<u8>) -> bool;

/// Whether 96 bytes encode an Orchard full viewing key.
pub uninterp spec fn orchard_fvk_valid(fvk: Seq<u8>) -> bool;

/// The value of the note that trial decryption of a compact output under one
/// scope of a full viewing key recovers, if the output is for that key.
pub uninterp spec fn compact_note_value(fvk: Seq<u8>, scope: Scope, out: CompactView) -> Option<u64>;

/// A compact output whose nullifier and commitment are canonical encodings.
pub open spec fn compact_well_formed(o: CompactView) -> bool {
    nullifier_canonical(o.0) && commitment_canonical(o.1)
}

/// Relies on orchard's `FullViewingKey::from_bytes`.
#[verifier::external_body]
pub(crate) fn fvk_parses(fvk: &[u8; 96]) -> (r: bool)
    ensures
        r == orchard_fvk_valid(fvk@),
{
    FullViewingKey::from_bytes(fvk).is_some()
}

/// Relies on orchard's `Nullifier::from_bytes`.
#[verifier::external_body]
fn nullifier_parses(b: &[u8; 32]) -> (r: bool)
    ensures
        r == nullifier_canonical(b@),
{
    Nullifier::from_bytes(b).is_some().into()
}

/// Relies on orchard's `ExtractedNoteCommitment::from_bytes`.
#[verifier::external_body]
fn commitment_parses(b: &[u8; 32]) -> (r: bool)
    ensures
        r == commitment_canonical(b@),
{
    ExtractedNoteCommitment::from_bytes(b).is_some().into()
}

/// Relies on zcash_note_encryption's `try_compact_note_decryption` in orchard's
/// `OrchardDomain`, with the prepared incoming viewing key of one scope.
#[verifier::external_body]
pub(crate) fn compact_trial_decrypt(fvk: &[u8; 96], scope: Scope, out: &CompactOutput) -> (r: Option<u64>)
    requires
        orchard_fvk_valid(fvk@),
        compact_well_formed(out@),
    ensures
        r == compact_note_value(fvk@, scope, out@),
{
    let fvk = FullViewingKey::from_bytes(fvk).unwrap();
    let nf = Nullifier::from_bytes(&out.nullifier).unwrap();
    let cmx = ExtractedNoteCommitment::from_bytes(&out.cmx).unwrap();
    let act = CompactAction::from_parts(nf, cmx, out.ephemeral_key.into(), out.ciphertext);
    let scope = match scope {
        Scope::External => orchard::keys::Scope::External,
        Scope::Internal => orchard::keys::Scope::Internal,
    };
    let ivk = PreparedIncomingViewingKey::new(&fvk.to_ivk(scope));
    let domain = OrchardDomain::for_compact_action(&act);
    try_compact_note_decryption(&domain, &ivk, &act).map(|(note, _)| note.value().inner())
}

/// The first `N` bytes of `v`.
pub fn leading_bytes<const N: usize>(v: &Vec<u8>) -> (r: [u8; N])
    requires
        v@.len() >= N,
    ensures
        r@ == v@.subrange(0, N as int),
{
    let mut a: [u8; N] = [0u8; N];
    let mut i: usize = 0;
    while i < N
        invariant
            0 <= i <= N,
            v@.len() >= N,
            a@.len() == N,
            forall|j: int| 0 <= j < i ==> a@[j] == v@[j],
        decreases N - i,
    {
        a[i] = v[i];
        i = i + 1;
    }
    assert(a@ =~= v@.subrange(0, N as int));
    a
}

/// What a hex field yields: its bytes, if it is hex and decodes to `len` bytes.
pub open spec fn field_bytes(s: Seq<char>, len: nat, field: OutputField) -> Result<Seq<u8>, ScanError> {
    match hex_decoded(s) {
        None => Err(ScanError::InvalidHex(field)),
        Some(b) => if b.len() == len {
            Ok(b)
        } else {
            Err(ScanError::InvalidLength(field, b.len() as usize))
        },
    }
}

/// Decodes one hex field of `N` bytes.
fn parse_field<const N: usize>(s: &str, field: OutputField) -> (r: Result<[u8; N], ScanError>)
    ensures
        match r {
            Ok(a) => field_bytes(s@, N as nat, field) == Ok::<Seq<u8>, ScanError>(a@),
            Err(e) => field_bytes(s@, N as nat, field) == Err::<Seq<u8>, ScanError>(e),
        },
{
    match decode_hex(s) {
        None => Err(ScanError::InvalidHex(field)),
        Some(b) => if b.len() == N {
            assert(b@.subrange(0, N as int) =~= b@);
            Ok(leading_bytes::<N>(&b))
        } else {
            Err(ScanError::InvalidLength(field, b.len()))
        },
    }
}

/// What the four hex fields of a compact output yield: fields of 32, 32, 32
/// and 52 bytes, checked in that order, then a canonical nullifier and
/// commitment.
pub open spec fn compact_output_of(nullifier: Seq<char>, cmx: Seq<char>, ephemeral_key: Seq<char>, ciphertext: Seq<char>) -> Result<CompactView, ScanError> {
    match field_bytes(nullifier, 32, OutputField::Nullifier) {
        Err(e) => Err(e),
        Ok(n) => match field_bytes(cmx, 32, OutputField::Commitment) {
            Err(e) => Err(e),
            Ok(c) => match field_bytes(ephemeral_key, 32, OutputField::EphemeralKey) {
                Err(e) => Err(e),
                Ok(k) => match field_bytes(ciphertext, 52, OutputField::Ciphertext) {
                    Err(e) => Err(e),
                    Ok(t) => if !nullifier_canonical(n) {
                        Err(ScanError::InvalidValue(OutputField::Nullifier))
                    } else if !commitment_canonical(c) {
                        Err(ScanError::InvalidValue(OutputField::Commitment))
                    } else {
                        Ok((n, c, k, t))
                    },
                },
            },
        },
    }
}

/// Decodes and checks the four hex fields of a compact output.
pub fn parse_compact_output(nullifier_hex: &str, cmx_hex: &str, ephemeral_key_hex: &str, ciphertext_hex: &str) -> (r: Result<CompactOutput, ScanError>)
    ensures
        match r {
            Ok(o) => compact_output_of(nullifier_hex@, cmx_hex@, ephemeral_key_hex@, ciphertext_hex@)
                == Ok::<CompactView, ScanError>(o@) && compact_well_formed(o@),
            Err(e) => compact_output_of(nullifier_hex@, cmx_hex@, ephemeral_key_hex@, ciphertext_hex@)
                == Err::<CompactView, ScanError>(e),
        },
{
    let nullifier = parse_field::<32>(nullifier_hex, OutputField::Nullifier)?;
    let cmx = parse_field::<32>(cmx_hex, OutputField::Commitment)?;
    let ephemeral_key = parse_field::<32>(ephemeral_key_hex, OutputField::EphemeralKey)?;
    let ciphertext = parse_field::<52>(ciphertext_hex, OutputField::Ciphertext)?;
    if !nullifier_parses(&nullifier) {
        return Err(ScanError::InvalidValue(OutputField::Nullifier));
    }
    if !commitment_parses(&cmx) {
        return Err(ScanError::InvalidValue(OutputField::Commitment));
    }
    Ok(CompactOutput { nullifier, cmx, ephemeral_key, ciphertext })
}

/// The Orchard full viewing key that a unified viewing key text holds: the
/// first 96 bytes of its Orchard component, provided they parse.
pub open spec fn viewing_key_fvk(encoded: Seq<char>) -> Result<Seq<u8>, ScanError> {
    match ufvk_decoded(encoded) {
        None => Err(ScanError::InvalidEncoding),
        Some((_, cs)) => match orchard_extraction(cs) {
            Err(e) => Err(e),
            Ok(d) => if orchard_fvk_valid(d.subrange(0, 96)) {
                Ok(d.subrange(0, 96))
            } else {
                Err(ScanError::InvalidViewingKey)
            },
        },
    }
}

/// Decodes a unified viewing key and parses its Orchard full viewing key.
pub fn orchard_fvk_from_key(viewing_key: &str) -> (r: Result<[u8; 96], ScanError>)
    ensures
        match r {
            Ok(f) => viewing_key_fvk(viewing_key@) == Ok::<Seq<u8>, ScanError>(f@),
            Err(e) => viewing_key_fvk(viewing_key@) == Err::<Seq<u8>, ScanError>(e),
        },
{
    let (_network, components) = decode_viewing_key(viewing_key)?;
    let component = extract_orchard_component(&components)?;
    let fvk = leading_bytes::<96>(&component);
    if !fvk_parses(&fvk) {
        return Err(ScanError::InvalidViewingKey);
    }
    Ok(fvk)
}

} // verus!
