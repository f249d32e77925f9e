//! Data types and text formats of the Ori and the Will of the Wisps seed generator:
//! uberState identifiers and triggers, icons, enemies and seed headers.

pub mod text;
pub mod uber_state;
pub mod util;
