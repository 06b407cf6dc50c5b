//! Decision logic of the Saladict desktop translator: command-line flags,
//! language detection, selection reading and the system tray menu.

pub mod cli;
pub mod text;
pub mod window;
pub mod lang_detect;
pub mod selection;
pub mod tray_labels;
pub mod settings;
pub mod tray;
pub mod state;
pub mod startup;
