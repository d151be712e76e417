//! The command surface of a ledger node: operator input is validated,
//! turned into typed values and transactions, and mapped onto exactly one
//! operation of the node.

pub mod error;
pub mod finalization;
pub mod hash;
pub mod hex_text;
pub mod record;
pub mod report;
pub mod router;
pub mod signer;
pub mod transaction;
pub mod value;
