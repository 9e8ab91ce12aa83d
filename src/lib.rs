//! Keeps a registry of tracked working trees and drives the per-repository
//! snapshot protocol that pushes each of them to a dedicated backup branch.

mod bytes;
pub mod lines;
pub mod store;
pub mod protocol;
pub mod engine;
pub mod prompt;
pub mod args;

pub use args::{must_ask_remote, Args, Cmd};
pub use bytes::same_bytes;
pub use engine::{aggregate, first_failure};
pub use prompt::{Key, Prompt};
pub use protocol::{Action, Event, Phase, SyncError};
pub use store::{Store, StoreError};
