//! Matching one output against one viewing key, External scope first.

use vstd::prelude::*;

use crate::compact::{
    compact_note_value, compact_output_of, compact_trial_decrypt, compact_well_formed,
    orchard_fvk_from_key, orchard_fvk_valid, parse_compact_output, viewing_key_fvk, CompactOutput,
    CompactView, Scope,
};
use crate::error::ScanError;
use crate::text::{trim_text, trimmed};

verus! {

/// A matched output: its value in the smallest currency unit, its memo text
/// if one was recovered, and the scope it matched under.
#[derive(Clone, Debug)]
pub struct OutputMatch {
    pub value: u64,
    pub memo: Option<String>,
    pub scope: Scope,
}

/// The text of an optional string.
pub open spec fn opt_text(o: Option<String>) -> Option<Seq<char>> {
    match o {
        Some(s) => Some(s@),
        None => None,
    }
}

/// The value and scope of the first scope, External before Internal, under
/// which a compact output decrypts.
pub open spec fn compact_match(fvk: Seq<u8>, out: CompactView) -> Option<(u64, Scope)> {
    match compact_note_value(fvk, Scope::External, out) {
        Some(v) => Some((v, Scope::External)),
        None => match compact_note_value(fvk, Scope::Internal, out) {
            Some(v) => Some((v, Scope::Internal)),
            None => None,
        },
    }
}

/// Trial-decrypts a compact output under the External scope, then the
/// Internal one; the first success is returned.
pub fn try_decrypt_compact(fvk: &[u8; 96], out: &CompactOutput) -> (r: Option<(u64, Scope)>)
    requires
        orchard_fvk_valid(fvk@),
        compact_well_formed(out@),
    ensures
        r == compact_match(fvk@, out@),
        compact_note_value(fvk@, Scope::External, out@) is Some ==> (r matches Some((_, s)) && s == Scope::External),
{
    match compact_trial_decrypt(fvk, Scope::External, out) {
        Some(v) => Some((v, Scope::External)),
        None => match compact_trial_decrypt(fvk, Scope::Internal, out) {
            Some(v) => Some((v, Scope::Internal)),
            None => None,
        },
    }
}

/// A compact output that decrypts under both scopes is reported under the
/// External scope.
pub proof fn lemma_compact_external_scope_wins(fvk: Seq<u8>, out: CompactView)
    requires
        compact_note_value(fvk, Scope::External, out) is Some,
        compact_note_value(fvk, Scope::Internal, out) is Some,
    ensures
        compact_match(fvk, out) matches Some((_, s)) && s == Scope::External,
{
}

/// What matching a compact output given in hex against a viewing key yields.
pub open spec fn compact_output_match(
    nullifier: Seq<char>,
    cmx: Seq<char>,
    ephemeral_key: Seq<char>,
    ciphertext: Seq<char>,
    viewing_key: Seq<char>,
) -> Result<(u64, Scope), ScanError> {
    match viewing_key_fvk(viewing_key) {
        Err(e) => Err(e),
        Ok(f) => match compact_output_of(nullifier, cmx, ephemeral_key, ciphertext) {
            Err(e) => Err(e),
            Ok(o) => match compact_match(f, o) {
                None => Err(ScanError::NoMatch),
                Some(m) => Ok(m),
            },
        },
    }
}

/// Matches one compact output, given as four hex fields, against a unified
/// viewing key. A compact ciphertext is too short to hold the memo, so none is
/// reported.
pub fn decrypt_compact_output(
    nullifier_hex: &str,
    cmx_hex: &str,
    ephemeral_key_hex: &str,
    ciphertext_hex: &str,
    viewing_key: &str,
) -> (r: Result<OutputMatch, ScanError>)
    ensures
        match r {
            Ok(m) => compact_output_match(nullifier_hex@, cmx_hex@, ephemeral_key_hex@, ciphertext_hex@, viewing_key@)
                == Ok::<(u64, Scope), ScanError>((m.value, m.scope)) && m.memo is None,
            Err(e) => compact_output_match(nullifier_hex@, cmx_hex@, ephemeral_key_hex@, ciphertext_hex@, viewing_key@)
                == Err::<(u64, Scope), ScanError>(e),
        },
{
    let fvk = orchard_fvk_from_key(viewing_key)?;
    let out = parse_compact_output(nullifier_hex, cmx_hex, ephemeral_key_hex, ciphertext_hex)?;
    match try_decrypt_compact(&fvk, &out) {
        Some((value, scope)) => Ok(OutputMatch { value, memo: None, scope }),
        None => Err(ScanError::NoMatch),
    }
}

/// The text that valid UTF-8 bytes spell.
pub uninterp spec fn utf8_decoded(b: Seq<u8>) -> Option<Seq<char>>;

/// Relies on `String::from_utf8`: the text that valid UTF-8 spells, or an
/// error; no bytes spell the empty text.
#[verifier::external_body]
fn utf8_text(b: Vec<u8>) -> (r: Option<String>)
    ensures
        r is None <==> utf8_decoded(b@) is None,
        r matches Some(s) ==> utf8_decoded(b@) == Some(s@),
        b@.len() == 0 ==> r is Some,
        r matches Some(s) ==> (b@.len() == 0 ==> s@.len() == 0),
{
    String::from_utf8(b).ok()
}

/// The index of the first zero byte at or after `i`, or the length.
pub open spec fn first_zero_from(m: Seq<u8>, i: int) -> int
    decreases m.len() - i,
{
    if i >= m.len() {
        m.len() as int
    } else if m[i] == 0 {
        i
    } else {
        first_zero_from(m, i + 1)
    }
}

/// The text of a memo field: the bytes before the first zero, if they are
/// UTF-8 and not blank.
pub open spec fn memo_text_of(m: Seq<u8>) -> Option<Seq<char>> {
    match utf8_decoded(m.subrange(0, first_zero_from(m, 0))) {
        None => None,
        Some(t) => if trimmed(t).len() == 0 {
            None
        } else {
            Some(t)
        },
    }
}

/// Reads the text of a memo field. A memo of zero bytes only has none.
pub fn memo_text(memo: &[u8]) -> (r: Option<String>)
    ensures
        opt_text(r) == memo_text_of(memo@),
        (forall|i: int| 0 <= i < memo@.len() ==> memo@[i] == 0) ==> r is None,
{
    let n = memo.len();
    let mut k: usize = 0;
    while k < n && memo[k] != 0
        invariant
            0 <= k <= n,
            n == memo@.len(),
            first_zero_from(memo@, 0) == first_zero_from(memo@, k as int),
        decreases n - k,
    {
        k = k + 1;
    }
    let mut bytes: Vec<u8> = Vec::new();
    let mut i: usize = 0;
    while i < k
        invariant
            0 <= i <= k <= n,
            n == memo@.len(),
            bytes@ == memo@.subrange(0, i as int),
        decreases k - i,
    {
        bytes.push(memo[i]);
        i = i + 1;
        assert(bytes@ =~= memo@.subrange(0, i as int));
    }
    proof {
        if (forall|i: int| 0 <= i < memo@.len() ==> memo@[i] == 0) && n > 0 {
            assert(memo@[0] == 0);
        }
    }
    match utf8_text(bytes) {
        None => None,
        Some(t) => {
            if trim_text(t.as_str()).unicode_len() == 0 {
                None
            } else {
                Some(t)
            }
        },
    }
}

/// What the matched full output reports, given what trial decryption under
/// each scope recovered: the External result wins.
pub open spec fn full_match_of(external: Option<(u64, Seq<u8>)>, internal: Option<(u64, Seq<u8>)>) -> Option<(u64, Option<Seq<char>>, Scope)> {
    match external {
        Some((v, m)) => Some((v, memo_text_of(m), Scope::External)),
        None => match internal {
            Some((v, m)) => Some((v, memo_text_of(m), Scope::Internal)),
            None => None,
        },
    }
}

/// Reports a match from what trial decryption recovered. Ownership does not
/// depend on the memo: a memo field that is not UTF-8, or is blank, is
/// reported as absent beside the value.
pub fn report_full_match(value: u64, memo: &[u8], scope: Scope) -> (r: OutputMatch)
    ensures
        r.value == value,
        r.scope == scope,
        opt_text(r.memo) == memo_text_of(memo@),
        (forall|i: int| 0 <= i < memo@.len() ==> memo@[i] == 0) ==> r.memo is None,
{
    OutputMatch { value, memo: memo_text(memo), scope }
}

} // verus!
