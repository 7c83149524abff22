//! A terminal file manager's model: panes of directory entries, a breadcrumb
//! trail, a prompt bar and a colour configuration, with the decisions taken on
//! mouse and keyboard events. Drawing and file system access stay outside.

pub mod app;
pub mod color;
pub mod command;
pub mod config;
pub mod event_handler;
pub mod file_pane;
pub mod finder;
pub mod geometry;
pub mod hover;
pub mod list_state;
pub mod path_trail;
pub mod paths;
pub mod preview;
pub mod prompt;
pub mod render;
pub mod text;
pub mod ui_components;
