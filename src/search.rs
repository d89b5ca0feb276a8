//! Searching a bounded range of accounts for the owner of a transaction.

use vstd::prelude::*;

use crate::compact::{orchard_fvk_from_key, Scope};
use crate::error::ScanError;
use crate::full::{full_actions_result, match_actions, match_view, FullAction};
use crate::matcher::OutputMatch;
use crate::seed::{derive_ufvk_from_seed, derived_viewing_key};

verus! {

/// How many accounts a search tries when the caller names no bound.
pub const DEFAULT_MAX_ACCOUNTS: u32 = 10;

/// The account that owns a transaction, the position of the action it owns,
/// and what matching that action reported.
#[derive(Clone, Debug)]
pub struct AccountMatch {
    pub account_index: u32,
    pub action_index: usize,
    pub output: OutputMatch,
}

/// What trying one account yields: nothing if its key does not derive or the
/// actions do not match under it, else the first matching action and its
/// match.
pub open spec fn account_attempt(phrase: Seq<char>, network: Seq<char>, acts: Seq<FullAction>, account_index: u32) -> Option<(int, (u64, Option<Seq<char>>, Scope))> {
    match derived_viewing_key(phrase, account_index, network) {
        Err(_) => None,
        Ok(k) => match full_actions_result(acts, k) {
            Err(_) => None,
            Ok(m) => Some(m),
        },
    }
}

/// What a search over accounts below `max_accounts` may return: the first
/// account, in index order, whose key matches an action, with the first
/// action it matches; else that no account in range owns the transaction.
pub open spec fn search_outcome(
    acts: Seq<FullAction>,
    phrase: Seq<char>,
    network: Seq<char>,
    max_accounts: u32,
    r: Result<AccountMatch, ScanError>,
) -> bool {
    match r {
        Ok(m) => m.account_index < max_accounts
            && account_attempt(phrase, network, acts, m.account_index) == Some((m.action_index as int, match_view(m.output)))
            && forall|j: u32| j < m.account_index ==> (#[trigger] account_attempt(phrase, network, acts, j)) is None,
        Err(e) => e == ScanError::NoOwningAccountFound
            && forall|j: u32| j < max_accounts ==> (#[trigger] account_attempt(phrase, network, acts, j)) is None,
    }
}

/// Finds which account of a mnemonic phrase owns a transaction, given its
/// full Orchard actions. Accounts 0 to `max_accounts - 1` are tried in order;
/// an account whose key does not derive, or under which nothing matches, is
/// skipped. An owner at an index of `max_accounts` or more is not found.
pub fn find_owning_account(actions: &Vec<FullAction>, seed_phrase: &str, network: &str, max_accounts: u32) -> (r: Result<AccountMatch, ScanError>)
    ensures
        search_outcome(actions@, seed_phrase@, network@, max_accounts, r),
{
    let mut i: u32 = 0;
    while i < max_accounts
        invariant
            0 <= i <= max_accounts,
            forall|j: u32| j < i ==> (#[trigger] account_attempt(seed_phrase@, network@, actions@, j)) is None,
        decreases max_accounts - i,
    {
        if let Ok(key) = derive_ufvk_from_seed(seed_phrase, i, network) {
            if let Ok(fvk) = orchard_fvk_from_key(key.as_str()) {
                if let Ok((j, output)) = match_actions(&fvk, actions) {
                    return Ok(AccountMatch { account_index: i, action_index: j, output });
                }
            }
        }
        i = i + 1;
    }
    Err(ScanError::NoOwningAccountFound)
}

/// Finds the owning account among the first ten accounts of a phrase.
pub fn decrypt_with_multi_account(actions: &Vec<FullAction>, seed_phrase: &str, network: &str) -> (r: Result<AccountMatch, ScanError>)
    ensures
        search_outcome(actions@, seed_phrase@, network@, DEFAULT_MAX_ACCOUNTS, r),
{
    find_owning_account(actions, seed_phrase, network, DEFAULT_MAX_ACCOUNTS)
}

/// When no account below the bound owns the transaction, the search reports
/// that no owning account was found, whatever higher index would own it.
pub proof fn lemma_owner_beyond_bound_not_found(
    acts: Seq<FullAction>,
    phrase: Seq<char>,
    network: Seq<char>,
    max_accounts: u32,
    r: Result<AccountMatch, ScanError>,
)
    requires
        search_outcome(acts, phrase, network, max_accounts, r),
        forall|j: u32| j < max_accounts ==> (#[trigger] account_attempt(phrase, network, acts, j)) is None,
    ensures
        r matches Err(e) && e == ScanError::NoOwningAccountFound,
{
    if let Ok(m) = r {
        assert(account_attempt(phrase, network, acts, m.account_index) is None);
    }
}

} // verus!
