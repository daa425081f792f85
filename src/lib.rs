//! Client-side access layer for a Cosmos-SDK node: key derivation, address
//! encoding, fee derivation, transaction signing and replay-protection
//! bookkeeping, with the decisions around each remote call kept apart from the
//! call itself.

pub mod account;
pub mod address;
pub mod definitions;
pub mod errors;
pub mod fee;
pub mod key;
pub mod math;
pub mod pagination;
pub mod tx;
pub mod wallet;

pub use crate::definitions::{BroadcastMode, ChainFamily, CoinType};
pub use crate::errors::ClientError;
pub use crate::math::{Decimal, IntoU64};
