//! Capture of system audio to WAV recordings: the decisions of a capture
//! session, the resolution of a device's stream format into a WAV header,
//! sample conversion, the stream writer's slot discipline, recording names,
//! the listing of recordings, hotkey mapping and configuration updates.

use vstd::prelude::*;

pub mod format;
pub mod sample;
pub mod error;
pub mod writer;
pub mod naming;
pub mod listing;
pub mod session;
pub mod config;
pub mod hotkey;

verus! {

/// File-system paths are carried through the library unchanged; it never
/// looks inside one.
#[verifier::external_type_specification]
#[verifier::external_body]
pub struct ExPathBuf(std::path::PathBuf);

} // verus!
