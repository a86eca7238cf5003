//! A verified core for a desktop file bridge.
//!
//! The bridge mediates between a front-end and the native filesystem and file
//! picker. It keeps one piece of session state, the path of record: the path
//! of the last file opened or saved under a new name. Six commands are
//! offered: save, save-as, open, export, a query for the path of record, and
//! a check whether a file is present at it.
//!
//! The native dialog and the filesystem are outside this crate. Each command
//! here takes their outcomes as plain values and is verified to produce the
//! right response and the right next session state for every outcome. A ghost
//! model of the bridge together with its files ([`model::BridgeModel`]) and an
//! in-memory filesystem ([`memfs::MemFs`]) let the laws that span several
//! commands, such as the save/open round trip, be stated and proved.

pub mod bridge;
pub mod dialog;
pub mod laws;
pub mod memfs;
pub mod model;
pub mod outcome;
pub mod response;
pub mod session;
