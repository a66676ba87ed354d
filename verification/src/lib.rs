//! Control logic of a single-window desktop shell that shows a remotely
//! served page: aspect-ratio enforcement on resize, the saved start-up URL,
//! navigation scripts and the settings menu.
//!
//! Every function here is pure: the shell around it observes the windows and
//! the disk, hands plain values in, and carries out what is handed back.
pub mod config;
pub mod error;
pub mod geometry;
pub mod json;
pub mod menu;
pub mod navigation;
pub mod startup;
pub mod window;
