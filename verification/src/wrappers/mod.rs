//! Typed accessors over raw account handles.

pub mod account_ref;
pub mod account_ref_mut;
pub mod rules;
pub mod shard_ref_context;
pub mod shard_ref_mut_context;
pub mod traits;

pub use account_ref::AccountRef;
pub use account_ref_mut::AccountRefMut;
pub use shard_ref_context::ShardRefContext;
pub use shard_ref_mut_context::{ShardBuffers, ShardRefMutContext, Shards};
pub use traits::AsAccountRef;
