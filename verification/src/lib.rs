//! Core logic for patching GameCube-format Metroid Prime disc images:
//! revision identification from disc headers, canonical revision string
//! round-tripping, per-revision symbol address resolution, and the
//! progress-notification bridge around the external patch engine.

pub mod errors;
pub mod header;
pub mod identify;
pub mod orchestrator;
pub mod progress;
pub mod revision;
pub mod symbols;
