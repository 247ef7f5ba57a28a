//! A demand-loaded value cache layered over a flat, slot-addressed
//! key-value store.
//!
//! Typed fields live in persistent storage and are only decoded when first
//! read; a separate flush pushes the in-memory value back out. The pieces
//! are: slot addressing (`Key`, `KeyPtr`), the per-type footprint contract
//! (`StorageSize`), the serialize/deserialize-at-cursor protocol
//! (`PullForward`, `PushForward`), the two-state cache cell (`LazyCell`),
//! and the ergonomic wrapper (`Lazy`).

pub mod cell;
pub mod key;
pub mod lazy;
pub mod pair;
pub mod protocol;
pub mod scalar;
pub mod store;

pub use cell::LazyCell;
pub use lazy::Lazy;

pub use key::Key;
pub use key::KeyPtr;
pub use protocol::Error;
pub use protocol::PullForward;
pub use protocol::PushForward;
pub use protocol::StorageSize;
pub use protocol::StorageValue;
pub use store::Store;
