//! Clipboard history core: change detection with fingerprint deduplication,
//! image asset preparation, focus save/restore bookkeeping and the command
//! plans that surround them.
//!
//! Everything here works on plain values. Reading the clipboard, touching the
//! file system and talking to the window system belong to the caller, which
//! hands in what it observed and carries out what the functions here decide.

pub mod clipboard;
pub mod commands;
pub mod focus;
pub mod hashing;
pub mod image_store;
pub mod models;
pub mod text;
