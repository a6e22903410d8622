//! Lifecycle management and dispatch for the source plugins of a manga
//! library server.
//!
//! The crate keeps the registry of loaded catalog plugins, gatekeeps which
//! plugin packages may be loaded by checking their build and interface
//! identity against the host's, drives the install / update / uninstall
//! lifecycle against a remote plugin repository, and normalizes the records
//! that plugins hand back.  Network retrieval, persistence and the engine
//! that actually runs plugin code live outside this crate; the functions
//! here take their outcomes as plain values and decide everything else.

pub mod auth;
pub mod entities;
pub mod errors;
pub mod index;
pub mod loader;
pub mod models;
pub mod notify;
pub mod registry;
pub mod repository;
pub mod rest;
pub mod services;
pub mod users;
pub mod version;
