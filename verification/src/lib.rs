//! Immich Sync: uploads the photos and videos of watched folders to an Immich
//! server. This crate holds the decisions of the sync, each with its contract;
//! the desktop shell in `app/` performs the file, database, keyring and network
//! work that the library asks for.

pub mod text;
pub mod config;
pub mod credentials;
pub mod immich;
pub mod storage;
pub mod upload;
pub mod digest;
pub mod pipeline;
pub mod sync;
pub mod settings;
pub mod records;
