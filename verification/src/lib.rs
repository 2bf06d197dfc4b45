//! A quorum-controlled transaction wallet.
//!
//! A fixed set of owner identities jointly controls a shared resource: any
//! owner may propose a transaction (a target, an amount and an opaque
//! payload), each owner may confirm a proposal at most once, and only once a
//! configured threshold of distinct confirmations has been reached may the
//! transaction be executed. Execution marks the record as executed before the
//! outward effect is performed, so a re-entrant attempt to execute the same
//! record is rejected.
//!
//! The wallet itself never performs the outward effect and never resolves who
//! is calling: the authenticated caller is an explicit argument of every
//! mutating operation, and a successful execution hands back an
//! [`EffectRequest`] that the surrounding host performs, reporting the outcome
//! to [`execution_result`].

mod address;
mod error;
mod wallet;

pub use address::Address;
pub use error::MultiSigError;
pub use wallet::EffectRequest;
pub use wallet::MultiSig;
pub use wallet::StateModel;
pub use wallet::TxModel;
pub use wallet::all_distinct;
pub use wallet::all_nonnull;
pub use wallet::execution_result;
pub use wallet::lemma_confirm_registers;
pub use wallet::lemma_initialize_guard;
pub use wallet::lemma_membership_after_initialize;
pub use wallet::valid_owner_set;
pub use wallet::wf_tx;
