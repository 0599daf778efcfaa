//! Verified core of a Flutter companion extension for the Zed editor.
//!
//! The extension maps `flutter run` / `flutter test` / `flutter attach` tasks to a
//! debug configuration for the Dart extension's debug adapter, resolves a target
//! device when the task names none, and builds the JSON configuration handed to
//! `flutter debug_adapter`.

pub mod text;
pub mod json;
pub mod args;
pub mod platform;
pub mod quote;
pub mod dap;
pub mod devices;
pub mod launch;


