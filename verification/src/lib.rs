//! Bridge layer between an embedding host and its web-view: a registry of
//! scripts that are injected again on every page load, and the one-shot
//! exchange that carries a viewport capture back from the UI thread.

pub mod android;
pub mod capture;
pub mod injection;
pub mod script_registry;
