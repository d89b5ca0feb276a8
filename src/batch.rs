//! Matching many compact outputs against one viewing key in one pass.

use vstd::prelude::*;
use orchard::keys::{FullViewingKey, PreparedIncomingViewingKey};
use orchard::note::{ExtractedNoteCommitment, Nullifier};
use orchard::note_encryption::{CompactAction, OrchardDomain};
use zcash_note_encryption::batch;

use crate::compact::{
    compact_output_of, compact_well_formed, field_bytes, orchard_fvk_from_key, orchard_fvk_valid,
    parse_compact_output, viewing_key_fvk, CompactOutput, CompactView, Scope,
};
use crate::error::{OutputField, ScanError};
use crate::matcher::{compact_match, compact_output_match};

verus! {

/// A compact output as a block source hands it over: four hex fields, and
/// the transaction id and block height it came from.
#[derive(Clone, Debug)]
pub struct CompactOutputHex {
    pub nullifier: String,
    pub cmx: String,
    pub ephemeral_key: String,
    pub ciphertext: String,
    pub txid: String,
    pub height: u64,
}

/// An output of a batch that matched: its position in the batch, where it
/// came from, and the scope it matched under.
#[derive(Clone, Debug)]
pub struct BatchMatch {
    pub index: usize,
    pub txid: String,
    pub height: u64,
    pub scope: Scope,
}

impl View for BatchMatch {
    type V = (int, Seq<char>, u64, Scope);

    open spec fn view(&self) -> (int, Seq<char>, u64, Scope) {
        (self.index as int, self.txid@, self.height, self.scope)
    }
}

/// What the hex fields of one output yield.
pub open spec fn hex_output_of(h: CompactOutputHex) -> Result<CompactView, ScanError> {
    compact_output_of(h.nullifier@, h.cmx@, h.ephemeral_key@, h.ciphertext@)
}

/// All outputs decoded, or the error of the first one that fails.
pub open spec fn parsed_outputs(hs: Seq<CompactOutputHex>) -> Result<Seq<CompactView>, ScanError>
    decreases hs.len(),
{
    if hs.len() == 0 {
        Ok(seq![])
    } else {
        match parsed_outputs(hs.drop_last()) {
            Err(e) => Err(e),
            Ok(v) => match hex_output_of(hs.last()) {
                Err(e) => Err(e),
                Ok(o) => Ok(v.push(o)),
            },
        }
    }
}

/// The position of the scope that a match reports, in the order the keys
/// are tried.
pub open spec fn scope_position(m: Option<(u64, Scope)>) -> Option<usize> {
    match m {
        None => None,
        Some((_, Scope::External)) => Some(0),
        Some((_, Scope::Internal)) => Some(1),
    }
}

/// The matches among the first `n` outputs, in order.
pub open spec fn batch_matches(fvk: Seq<u8>, hs: Seq<CompactOutputHex>, os: Seq<CompactView>, n: int) -> Seq<(int, Seq<char>, u64, Scope)>
    decreases n,
{
    if n <= 0 {
        seq![]
    } else {
        let prev = batch_matches(fvk, hs, os, n - 1);
        match compact_match(fvk, os[n - 1]) {
            Some((_, s)) => prev.push((n - 1, hs[n - 1].txid@, hs[n - 1].height, s)),
            None => prev,
        }
    }
}

/// What matching a batch against a viewing key yields.
pub open spec fn batch_result(hs: Seq<CompactOutputHex>, viewing_key: Seq<char>) -> Result<Seq<(int, Seq<char>, u64, Scope)>, ScanError> {
    match viewing_key_fvk(viewing_key) {
        Err(e) => Err(e),
        Ok(f) => match parsed_outputs(hs) {
            Err(e) => Err(e),
            Ok(os) => Ok(batch_matches(f, hs, os, hs.len() as int)),
        },
    }
}

/// Relies on zcash_note_encryption's `batch::try_compact_note_decryption` in
/// orchard's `OrchardDomain`, given the External and then the Internal key:
/// for each output, the position of the first key under which the
/// single-output trial decryption succeeds.
#[verifier::external_body]
fn batch_trial_decrypt(fvk: &[u8; 96], outs: &Vec<CompactOutput>) -> (r: Vec<Option<usize>>)
    requires
        orchard_fvk_valid(fvk@),
        forall|i: int| 0 <= i < outs@.len() ==> compact_well_formed(#[trigger] outs@[i]@),
    ensures
        r@.len() == outs@.len(),
        forall|i: int| 0 <= i < outs@.len() ==> r@[i] == scope_position(compact_match(fvk@, #[trigger] outs@[i]@)),
{
    let fvk = FullViewingKey::from_bytes(fvk).unwrap();
    let scopes = [orchard::keys::Scope::External, orchard::keys::Scope::Internal];
    let ivks = scopes.map(|s| PreparedIncomingViewingKey::new(&fvk.to_ivk(s)));
    let acts: Vec<_> = outs.iter().map(|o| {
        let nf = Nullifier::from_bytes(&o.nullifier).unwrap();
        let act = CompactAction::from_parts(nf, ExtractedNoteCommitment::from_bytes(&o.cmx).unwrap(), o.ephemeral_key.into(), o.ciphertext);
        (OrchardDomain::for_compact_action(&act), act)
    }).collect();
    batch::try_compact_note_decryption(&ivks, &acts).into_iter().map(|m| m.map(|(_, i)| i)).collect()
}

/// Once a prefix of the batch fails to decode, the whole batch fails the
/// same way.
proof fn lemma_prefix_error(hs: Seq<CompactOutputHex>, k: int)
    requires
        0 <= k <= hs.len(),
        parsed_outputs(hs.subrange(0, k)) is Err,
    ensures
        parsed_outputs(hs) == parsed_outputs(hs.subrange(0, k)),
    decreases hs.len() - k,
{
    if k == hs.len() {
        assert(hs.subrange(0, k) =~= hs);
    } else {
        let d = hs.drop_last();
        assert(d.subrange(0, k) =~= hs.subrange(0, k));
        lemma_prefix_error(d, k);
    }
}

/// Decodes every output of the batch, failing on the first malformed one.
fn parse_all(outputs: &Vec<CompactOutputHex>) -> (r: Result<Vec<CompactOutput>, ScanError>)
    ensures
        match r {
            Ok(v) => parsed_outputs(outputs@) == Ok::<Seq<CompactView>, ScanError>(v@.map_values(|o: CompactOutput| o@))
                && forall|i: int| 0 <= i < v@.len() ==> compact_well_formed(#[trigger] v@[i]@),
            Err(e) => parsed_outputs(outputs@) == Err::<Seq<CompactView>, ScanError>(e),
        },
{
    let mut parsed: Vec<CompactOutput> = Vec::new();
    let mut i: usize = 0;
    assert(outputs@.subrange(0, 0) =~= Seq::<CompactOutputHex>::empty());
    assert(parsed@.map_values(|o: CompactOutput| o@) =~= Seq::<CompactView>::empty());
    while i < outputs.len()
        invariant
            0 <= i <= outputs@.len(),
            parsed_outputs(outputs@.subrange(0, i as int)) == Ok::<Seq<CompactView>, ScanError>(parsed@.map_values(|o: CompactOutput| o@)),
            forall|j: int| 0 <= j < parsed@.len() ==> compact_well_formed(#[trigger] parsed@[j]@),
        decreases outputs@.len() - i,
    {
        let h = &outputs[i];
        let ghost pre = outputs@.subrange(0, i as int);
        let ghost next = outputs@.subrange(0, i + 1);
        assert(next.drop_last() =~= pre);
        assert(next.last() == outputs@[i as int]);
        match parse_compact_output(h.nullifier.as_str(), h.cmx.as_str(), h.ephemeral_key.as_str(), h.ciphertext.as_str()) {
            Ok(o) => {
                let ghost before = parsed@;
                parsed.push(o);
                assert(parsed@.map_values(|o: CompactOutput| o@) =~= before.map_values(|o: CompactOutput| o@).push(o@));
            },
            Err(e) => {
                proof {
                    lemma_prefix_error(outputs@, i + 1);
                }
                return Err(e);
            },
        }
        i = i + 1;
    }
    assert(outputs@.subrange(0, outputs@.len() as int) =~= outputs@);
    Ok(parsed)
}

/// Matches a batch of compact outputs against a unified viewing key. Every
/// output is decoded and checked before any decryption, and one malformed
/// output fails the whole batch. Both scope keys are prepared once; the
/// result lists the outputs that matched, in order, with the first scope,
/// External before Internal, that matched each.
pub fn batch_filter_compact_outputs(outputs: &Vec<CompactOutputHex>, viewing_key: &str) -> (r: Result<Vec<BatchMatch>, ScanError>)
    ensures
        match r {
            Ok(ms) => batch_result(outputs@, viewing_key@) == Ok::<Seq<(int, Seq<char>, u64, Scope)>, ScanError>(
                ms@.map_values(|m: BatchMatch| m@)),
            Err(e) => batch_result(outputs@, viewing_key@) == Err::<Seq<(int, Seq<char>, u64, Scope)>, ScanError>(e),
        },
{
    let fvk = orchard_fvk_from_key(viewing_key)?;
    let parsed = parse_all(outputs)?;
    let ghost os = parsed@.map_values(|o: CompactOutput| o@);
    proof {
        lemma_parsed_len(outputs@);
    }
    let found = batch_trial_decrypt(&fvk, &parsed);
    let mut matches: Vec<BatchMatch> = Vec::new();
    let mut i: usize = 0;
    while i < found.len()
        invariant
            0 <= i <= found@.len(),
            found@.len() == parsed@.len(),
            parsed@.len() == outputs@.len(),
            os == parsed@.map_values(|o: CompactOutput| o@),
            forall|k: int| 0 <= k < parsed@.len() ==> found@[k] == scope_position(compact_match(fvk@, #[trigger] parsed@[k]@)),
            matches@.map_values(|m: BatchMatch| m@) == batch_matches(fvk@, outputs@, os, i as int),
        decreases found@.len() - i,
    {
        let ghost before = matches@;
        assert(os[i as int] == parsed@[i as int]@);
        match found[i] {
            Some(p) => {
                let scope = if p == 0 { Scope::External } else { Scope::Internal };
                matches.push(BatchMatch {
                    index: i,
                    txid: outputs[i].txid.clone(),
                    height: outputs[i].height,
                    scope,
                });
                assert(matches@.map_values(|m: BatchMatch| m@) =~= before.map_values(|m: BatchMatch| m@).push(
                    (i as int, outputs@[i as int].txid@, outputs@[i as int].height, scope)));
            },
            None => {},
        }
        i = i + 1;
    }
    Ok(matches)
}

/// A batch that decodes holds one decoded output per input.
proof fn lemma_parsed_len(hs: Seq<CompactOutputHex>)
    ensures
        parsed_outputs(hs) matches Ok(os) ==> os.len() == hs.len(),
    decreases hs.len(),
{
    if hs.len() > 0 {
        lemma_parsed_len(hs.drop_last());
    }
}

/// Matching a batch of one output agrees with matching that output alone:
/// the batch reports a match exactly when the single match succeeds, and
/// under the same scope.
pub proof fn lemma_batch_of_one_agrees(h: CompactOutputHex, viewing_key: Seq<char>)
    ensures
        (compact_output_match(h.nullifier@, h.cmx@, h.ephemeral_key@, h.ciphertext@, viewing_key) is Ok)
            <==> (batch_result(seq![h], viewing_key) matches Ok(ms) && ms.len() > 0),
        compact_output_match(h.nullifier@, h.cmx@, h.ephemeral_key@, h.ciphertext@, viewing_key) matches Ok((_, s))
            ==> (batch_result(seq![h], viewing_key) matches Ok(ms) && ms.len() == 1 && ms[0].3 == s),
{
    let hs = seq![h];
    assert(hs.drop_last() =~= Seq::<CompactOutputHex>::empty());
    assert(hs.last() == h);
    assert(parsed_outputs(Seq::<CompactOutputHex>::empty()) == Ok::<Seq<CompactView>, ScanError>(seq![]));
    if let Ok(o) = hex_output_of(h) {
        assert(seq![].push(o) =~= seq![o]);
        if let Ok(f) = viewing_key_fvk(viewing_key) {
            assert(batch_matches(f, hs, seq![o], 0) == Seq::<(int, Seq<char>, u64, Scope)>::empty());
        }
    }
}

/// A field that is not hex, or that decodes to a length other than 32, 32,
/// 32 and 52 bytes, fails the whole batch before any decryption, whatever
/// the other outputs and the key.
pub proof fn lemma_malformed_field_fails_batch(hs: Seq<CompactOutputHex>, i: int, viewing_key: Seq<char>)
    requires
        0 <= i < hs.len(),
        field_bytes(hs[i].nullifier@, 32, OutputField::Nullifier) is Err
            || field_bytes(hs[i].cmx@, 32, OutputField::Commitment) is Err
            || field_bytes(hs[i].ephemeral_key@, 32, OutputField::EphemeralKey) is Err
            || field_bytes(hs[i].ciphertext@, 52, OutputField::Ciphertext) is Err,
    ensures
        parsed_outputs(hs) is Err,
        batch_result(hs, viewing_key) is Err,
{
    let pre = hs.subrange(0, i + 1);
    assert(pre.last() == hs[i]);
    assert(hex_output_of(hs[i]) is Err);
    assert(parsed_outputs(pre) is Err);
    lemma_prefix_error(hs, i + 1);
}

} // verus!
