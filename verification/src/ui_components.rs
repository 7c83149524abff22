//! The parts of the screen.

pub mod file_pane;
pub mod preview_pane;
pub mod file_panes;
pub mod path_breadcrumbs;
pub mod bot_bar;
pub mod fav_pane;
pub mod nav_arrows;
pub mod top_bar;
pub mod window_buttons;
