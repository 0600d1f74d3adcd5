//! Ingestion of a music library: decoded tags are normalised into songs,
//! albums, artists, covers and lyric lines, and reconciled with the rows that
//! a store already holds so that repeated scans converge.

pub mod text;
pub mod comm;
pub mod config;
pub mod cover;
pub mod database;
pub mod datasource;
pub mod engine;
pub mod ingest;
pub mod keys;
pub mod laws;
pub mod log;
pub mod lyric;
pub mod readmeta;
pub mod scan;
pub mod reconcile;
pub mod store;
pub mod tags;
