//! A minimal plugin host.
//!
//! A plugin is a shared library exporting four symbols: `name` and `version`,
//! which yield text, and `start` and `stop`, which yield an integer status
//! code. This crate holds everything about that protocol that is plain data
//! and decisions: mapping a logical plugin identifier to the platform's
//! library file name, the step-by-step protocol that turns a freshly opened
//! library into a [`loader::Plugin`] or a [`errors::PluginLoadError`], and the
//! batch bookkeeping of [`manager::PluginManager`]. Opening libraries and
//! resolving symbols is platform work that a host binary performs; it reports
//! each outcome as a [`loader::LoadEvent`] and this crate decides what follows.

pub mod errors;
pub mod hello_plugin;
pub mod loader;
pub mod manager;
pub mod naming;
