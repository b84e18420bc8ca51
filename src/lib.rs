//! The module-loading subsystem of a JavaScript and TypeScript runtime: specifier resolution,
//! language classification, transpiling, the content cache's layout and the load orchestrator,
//! with the runtime's smaller helpers (run modes, promise bookkeeping, diffs, formatting).
pub mod cache;
pub mod diff;
pub mod format;
pub mod loader;
pub mod media;
pub mod promise_tracker;
pub mod runtime_state;
pub mod specifier;
pub mod text;
pub mod timers;
pub mod transpile;
pub mod web;
