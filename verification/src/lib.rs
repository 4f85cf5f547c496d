//! A keyboard-driven browser over a directory tree: the navigation state
//! machine with its key-repeat filter, and the differential frame renderer.

pub mod common;
pub mod debug;
pub mod events;
pub mod files;
pub mod frame;
pub mod highlight;
pub mod nav;
pub mod styled;
pub mod syntax;
pub mod text;
pub mod ui;
pub mod ui_state;
