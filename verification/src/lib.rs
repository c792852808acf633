//! Background Assets: the data model, validation rules and decisions of a
//! binding to Apple's `BackgroundAssets` framework.
//!
//! The framework calls themselves live around this crate; everything that
//! computes on plain values lives here and carries a contract.

pub mod text;
pub mod error;
pub mod asset_pack;
pub mod download;
pub mod async_api;
pub mod manager;
pub mod extension;
pub mod handler;
pub mod manifest;
pub mod bridge;
