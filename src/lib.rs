//! Viewing-key derivation and shielded-output matching for the Orchard pool.
//!
//! The library decodes unified full viewing keys, derives per-account key
//! material from a mnemonic seed, trial-decrypts single outputs and batches of
//! compact outputs under both key scopes, and searches a bounded range of
//! accounts for the owner of a transaction.

pub mod account;
pub mod batch;
pub mod compact;
pub mod container;
pub mod error;
pub mod full;
pub mod hexcodec;
pub mod matcher;
pub mod report;
pub mod search;
pub mod seed;
pub mod text;

pub use account::{account_key_material, derive_account_key_material};
pub use batch::{batch_filter_compact_outputs, BatchMatch, CompactOutputHex};
pub use compact::{orchard_fvk_from_key, parse_compact_output, CompactOutput, Scope};
pub use container::{
    decode_viewing_key, detect_key_type, extract_ivk, extract_orchard_component,
    parse_sapling_extfvk_ivk, parse_ufvk_orchard_ivk, KeyComponent, Network, Pool,
};
pub use error::{OutputField, ScanError};
pub use full::{decrypt_memo, match_actions, try_decrypt_full, FullAction};
pub use matcher::{
    decrypt_compact_output, memo_text, report_full_match, try_decrypt_compact, OutputMatch,
};
pub use report::{PoolBalances, TxReport};
pub use search::{decrypt_with_multi_account, find_owning_account, AccountMatch, DEFAULT_MAX_ACCOUNTS};
pub use seed::{
    assemble_viewing_key, derive_spending_key_from_seed, derive_ufvk_from_seed,
    get_seed_word_count, network_from_name, validate_seed_phrase,
};
