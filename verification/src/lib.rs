//! A host-side library for script-driven, per-frame declarative UI.
//!
//! A named plugin is a script source file. The host loads it into an
//! isolated interpreter session, installs a small set of bridge functions,
//! and then, once per frame, hands the script a fresh builder on which it
//! registers widgets (labels, buttons, collapsible sections). After the
//! script returns, the host walks the registered descriptors in
//! registration order and renders them, resolving each descriptor's
//! script-held table at draw time so that late mutations stay visible.
//! Script errors are appended to a structured log and never abort the
//! host; a failing per-frame draw call unloads the plugin.

pub mod config;
pub mod engine;
pub mod plugin;
pub mod plugin_ui;
pub mod records;
