//! Core logic of the Journey media library: entities, conversions, provider
//! and indexer bookkeeping, with their contracts.

pub mod enums;
pub mod helpers;
pub mod keyed;
pub mod text;
pub mod ids;
pub mod active;
pub mod error;
pub mod dto;
pub mod indexer;
pub mod provider;
pub mod provider_manager;
pub mod jellyfin;
pub mod keyring;
pub mod progress;
pub mod indexer_manager;
pub mod runner;
pub mod model;
pub mod convert;
