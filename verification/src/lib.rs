//! Storage decisions and client protocol of a shared compilation cache.
pub mod buffer;
pub mod client;
pub mod config;
pub mod connect;
pub mod connect_laws;
pub mod error;
pub mod frame;
pub mod mock;
pub mod outside;
pub mod remote;
pub mod remote_laws;
pub mod select;
pub mod select_laws;
pub mod storage;
