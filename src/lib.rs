//! Database start-up for a personal expense tracker: the sync sidecar file,
//! the on-disk layout and conflict quarantine, the remote credential probe,
//! the schema plan, the start-up state machine, the shared connection record
//! and the copy of a quarantined database into a fresh one.
//!
//! Every decision is made here on plain values; the database engine, the
//! network and the file system are driven by the embedding application.

pub mod text;
pub mod sync_config;
pub mod layout;
pub mod validator;
pub mod schema;
pub mod initializer;
pub mod state;
pub mod legacy;
pub mod validators;
