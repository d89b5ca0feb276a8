//! Plain records of a wallet's transaction history and balances.

use vstd::prelude::*;

verus! {

/// One transaction of a wallet's history.
#[derive(Clone, Debug)]
pub struct TxReport {
    pub txid: String,
    pub datetime: String,
    pub kind: String,
    pub value: u64,
    pub fee: Option<u64>,
    pub memos: Vec<String>,
}

/// A wallet's balance in each pool, in the smallest currency unit.
#[derive(Clone, Copy, Debug, PartialEq, Eq, Structural)]
pub struct PoolBalances {
    pub sapling_balance: u64,
    pub orchard_balance: u64,
    pub transparent_balance: u64,
}

} // verus!
