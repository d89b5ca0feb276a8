//! Matching the full Orchard actions of a transaction, memo included.

use vstd::prelude::*;
use orchard::keys::{FullViewingKey, PreparedIncomingViewingKey, Scope as KeyScope};
use orchard::note::{ExtractedNoteCommitment, Nullifier, TransmittedNoteCiphertext};
use orchard::note_encryption::{NoteBytesData, OrchardDomain};
use orchard::primitives::redpallas::VerificationKey;
use orchard::value::ValueCommitment;
use orchard::Action;
use zcash_note_encryption::try_note_decryption;

use crate::compact::{orchard_fvk_from_key, orchard_fvk_valid, viewing_key_fvk, Scope};
use crate::error::ScanError;
use crate::matcher::{full_match_of, opt_text, report_full_match, OutputMatch};

verus! {

/// A full Orchard action as a transaction carries it.
#[derive(Clone, Copy, Debug)]
pub struct FullAction {
    pub nullifier: [u8; 32],
    pub rk: [u8; 32],
    pub cmx: [u8; 32],
    pub ephemeral_key: [u8; 32],
    pub enc_ciphertext: [u8; 580],
    pub out_ciphertext: [u8; 80],
    pub cv_net: [u8; 32],
}

/// Whether the fields form an Orchard action: a canonical nullifier,
/// commitment and value commitment, a non-identity randomized key and a
/// non-identity ephemeral key.
pub uninterp spec fn full_action_valid(a: FullAction) -> bool;

/// The note value and memo field that trial decryption of a full action under
/// one scope of a full viewing key recovers, if the action is for that key.
pub uninterp spec fn full_note_of(fvk: Seq<u8>, scope: Scope, a: FullAction) -> Option<(u64, Seq<u8>)>;

/// Relies on orchard's `Nullifier::from_bytes`, `VerificationKey::try_from`,
/// `ExtractedNoteCommitment::from_bytes`, `ValueCommitment::from_bytes` and
/// `Action::from_parts`.
#[verifier::external_body]
fn full_action_parses(a: &FullAction) -> (r: bool)
    ensures
        r == full_action_valid(*a),
{
    let note = TransmittedNoteCiphertext { epk_bytes: a.ephemeral_key, enc_ciphertext: NoteBytesData(a.enc_ciphertext), out_ciphertext: a.out_ciphertext };
    let nf = Nullifier::from_bytes(&a.nullifier).into_option();
    let cmx = ExtractedNoteCommitment::from_bytes(&a.cmx).into_option();
    let cv = ValueCommitment::from_bytes(&a.cv_net).into_option();
    match (nf, VerificationKey::try_from(a.rk), cmx, cv) {
        (Some(nf), Ok(rk), Some(cmx), Some(cv)) => Action::from_parts(nf, rk, cmx, note, cv, ()).is_ok(),
        _ => false,
    }
}

/// Relies on zcash_note_encryption's `try_note_decryption` in orchard's
/// `OrchardDomain`, with the prepared incoming viewing key of one scope.
#[verifier::external_body]
fn full_trial_decrypt(fvk: &[u8; 96], scope: Scope, a: &FullAction) -> (r: Option<(u64, [u8; 512])>)
    requires
        orchard_fvk_valid(fvk@),
        full_action_valid(*a),
    ensures
        r is None <==> full_note_of(fvk@, scope, *a) is None,
        r matches Some((v, m)) ==> full_note_of(fvk@, scope, *a) == Some((v, m@)),
{
    let fvk = FullViewingKey::from_bytes(fvk).unwrap();
    let cmx = ExtractedNoteCommitment::from_bytes(&a.cmx).unwrap();
    let act = Action::from_parts(
        Nullifier::from_bytes(&a.nullifier).unwrap(),
        VerificationKey::try_from(a.rk).unwrap(),
        cmx,
        TransmittedNoteCiphertext { epk_bytes: a.ephemeral_key, enc_ciphertext: NoteBytesData(a.enc_ciphertext), out_ciphertext: a.out_ciphertext },
        ValueCommitment::from_bytes(&a.cv_net).unwrap(),
        (),
    ).unwrap();
    let scope = match scope { Scope::External => KeyScope::External, Scope::Internal => KeyScope::Internal };
    let ivk = PreparedIncomingViewingKey::new(&fvk.to_ivk(scope));
    try_note_decryption(&OrchardDomain::for_action(&act), &ivk, &act).map(|(n, _, m)| (n.value().inner(), m))
}

/// The value, memo text and scope that matching a full action reports.
pub open spec fn full_action_match(fvk: Seq<u8>, a: FullAction) -> Option<(u64, Option<Seq<char>>, Scope)> {
    full_match_of(full_note_of(fvk, Scope::External, a), full_note_of(fvk, Scope::Internal, a))
}

/// A full action that decrypts under both scopes is reported under the
/// External scope.
pub proof fn lemma_full_external_scope_wins(fvk: Seq<u8>, a: FullAction)
    requires
        full_note_of(fvk, Scope::External, a) is Some,
        full_note_of(fvk, Scope::Internal, a) is Some,
    ensures
        full_action_match(fvk, a) matches Some((_, _, s)) && s == Scope::External,
{
}

/// The value, memo text and scope of a match.
pub open spec fn match_view(m: OutputMatch) -> (u64, Option<Seq<char>>, Scope) {
    (m.value, opt_text(m.memo), m.scope)
}

/// Trial-decrypts a full action under the External scope, then the Internal
/// one. The first success is reported, with its memo text if the memo field
/// holds any.
pub fn try_decrypt_full(fvk: &[u8; 96], a: &FullAction) -> (r: Option<OutputMatch>)
    requires
        orchard_fvk_valid(fvk@),
        full_action_valid(*a),
    ensures
        match full_action_match(fvk@, *a) {
            None => r is None,
            Some(m) => (r matches Some(o) && match_view(o) == m),
        },
{
    match full_trial_decrypt(fvk, Scope::External, a) {
        Some((value, memo)) => Some(report_full_match(value, &memo, Scope::External)),
        None => match full_trial_decrypt(fvk, Scope::Internal, a) {
            Some((value, memo)) => Some(report_full_match(value, &memo, Scope::Internal)),
            None => None,
        },
    }
}

/// The first action at or after position `j` that matches, with its match.
pub open spec fn first_full_match_from(fvk: Seq<u8>, acts: Seq<FullAction>, j: int) -> Option<(int, (u64, Option<Seq<char>>, Scope))>
    decreases acts.len() - j,
{
    if j < 0 || j >= acts.len() {
        None
    } else {
        match full_action_match(fvk, acts[j]) {
            Some(m) => Some((j, m)),
            None => first_full_match_from(fvk, acts, j + 1),
        }
    }
}

/// The position of the first action that is not a valid Orchard action.
pub open spec fn first_invalid_from(acts: Seq<FullAction>, j: int) -> Option<int>
    decreases acts.len() - j,
{
    if j < 0 || j >= acts.len() {
        None
    } else if !full_action_valid(acts[j]) {
        Some(j)
    } else {
        first_invalid_from(acts, j + 1)
    }
}

/// What matching the actions of a transaction under a full viewing key
/// yields: an error for the first invalid action; else the first action that
/// matches, with its match; else no match.
pub open spec fn actions_match(fvk: Seq<u8>, acts: Seq<FullAction>) -> Result<(int, (u64, Option<Seq<char>>, Scope)), ScanError> {
    match first_invalid_from(acts, 0) {
        Some(j) => Err(ScanError::InvalidAction(j as usize)),
        None => match first_full_match_from(fvk, acts, 0) {
            Some(m) => Ok(m),
            None => Err(ScanError::NoMatch),
        },
    }
}

/// What matching the actions of a transaction against a viewing key text
/// yields.
pub open spec fn full_actions_result(acts: Seq<FullAction>, viewing_key: Seq<char>) -> Result<(int, (u64, Option<Seq<char>>, Scope)), ScanError> {
    match viewing_key_fvk(viewing_key) {
        Err(e) => Err(e),
        Ok(f) => actions_match(f, acts),
    }
}

/// Matches the actions of a transaction under a parsed full viewing key;
/// returns the position of the first matching action and its match.
pub fn match_actions(fvk: &[u8; 96], actions: &Vec<FullAction>) -> (r: Result<(usize, OutputMatch), ScanError>)
    requires
        orchard_fvk_valid(fvk@),
    ensures
        match r {
            Ok((j, m)) => actions_match(fvk@, actions@) == Ok::<(int, (u64, Option<Seq<char>>, Scope)), ScanError>((j as int, match_view(m))),
            Err(e) => actions_match(fvk@, actions@) == Err::<(int, (u64, Option<Seq<char>>, Scope)), ScanError>(e),
        },
{
    let n = actions.len();
    let mut i: usize = 0;
    while i < n
        invariant
            0 <= i <= n,
            n == actions@.len(),
            first_invalid_from(actions@, 0) == first_invalid_from(actions@, i as int),
            forall|k: int| 0 <= k < i ==> full_action_valid(#[trigger] actions@[k]),
        decreases n - i,
    {
        if !full_action_parses(&actions[i]) {
            return Err(ScanError::InvalidAction(i));
        }
        i = i + 1;
    }
    let mut j: usize = 0;
    while j < n
        invariant
            0 <= j <= n,
            n == actions@.len(),
            orchard_fvk_valid(fvk@),
            first_invalid_from(actions@, 0) is None,
            forall|k: int| 0 <= k < n ==> full_action_valid(#[trigger] actions@[k]),
            first_full_match_from(fvk@, actions@, 0) == first_full_match_from(fvk@, actions@, j as int),
        decreases n - j,
    {
        if let Some(m) = try_decrypt_full(fvk, &actions[j]) {
            return Ok((j, m));
        }
        j = j + 1;
    }
    Err(ScanError::NoMatch)
}

/// Matches the full Orchard actions of a transaction against a unified
/// viewing key: the first action that decrypts, External scope first,
/// reports its value, its memo text if any, and its scope.
pub fn decrypt_memo(actions: &Vec<FullAction>, viewing_key: &str) -> (r: Result<OutputMatch, ScanError>)
    ensures
        match full_actions_result(actions@, viewing_key@) {
            Ok((_, m)) => (r matches Ok(o) && match_view(o) == m),
            Err(e) => r == Err::<OutputMatch, ScanError>(e),
        },
{
    let fvk = orchard_fvk_from_key(viewing_key)?;
    let (_, m) = match_actions(&fvk, actions)?;
    Ok(m)
}

} // verus!
