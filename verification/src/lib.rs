//! Core of a map viewer whose rendering is delegated to an external
//! cartographic engine: a bounded pool of reusable render targets, a
//! background worker that re-renders into whichever target is free, and a
//! handoff protocol that moves completed frames and view parameters across
//! the thread boundary without long-held locks.
//!
//! The pipeline bookkeeping (slot lifecycle, queues, worker state machine)
//! is verified here; the engine's render call, the surface memory, and the
//! actual threads and locks live with the embedding application, which
//! drives these functions and performs the actions they decide on.

pub mod map_renderer;
pub mod mapnik_config;
pub mod file_watcher;
pub mod screen_map_renderer;
