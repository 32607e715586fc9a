//! Shared data directory for Fluorine Manager.
//!
//! All data lives under `~/.var/app/com.fluorine.manager/`. The resolver
//! here is pure: the caller supplies the home directory value (or `None`
//! when it is unknown) and receives the resolved path as a string.

pub mod paths;
