//! A directory mirroring library: one-way backup, sync with purge, and
//! restore, with metadata-and-hash change detection.
//!
//! The library holds the decision logic of the mirroring engine: which
//! files must be copied, which directories must be created or deleted and
//! in what order, and which messages and errors each step produces. A
//! driver performs the filesystem work and feeds the outcomes back in.

pub mod copier;
pub mod detect;
pub mod engine;
pub mod errors;
pub mod laws;
pub mod messages;
pub mod mirror;
pub mod order;
pub mod paths;
pub mod purge;
pub mod style;
pub mod walker;
