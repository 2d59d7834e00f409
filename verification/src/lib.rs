//! Input remapping: buttons, remap configuration, and the decisions the hook thread makes.

pub mod button_map;
pub mod changes;
pub mod buttons;
pub mod config;
pub mod hooks;
pub mod output;
pub mod query_windows;
pub mod text;
pub mod gui;
pub mod registry;
pub mod seq_filter;
pub mod settings;
