//! Persistence core of a game launcher: per-variant installed-component
//! repositories, user-settings storage, and the master-reset orchestration,
//! all backed by a pooled embedded SQLite store.

pub mod colors;
pub mod db;
pub mod master_reset;
pub mod mods;
pub mod settings_repository;
pub mod settings_types;
pub mod soundpacks;
pub mod tilesets;
pub mod update_settings;
pub mod variants;
