//! Verified core of the miro pdf viewer: geometry, configuration parsing,
//! navigation state (jumplist, recent files, tabs, page spreads) and the
//! small pure helpers that the viewer's interface is built on.

pub mod geometry;
pub mod text;
pub mod numbers;
pub mod config;
pub mod keys;
pub mod jumplist;
pub mod recent_files;
pub mod common_menu;
pub mod page_layout;
pub mod links;
pub mod hints;
pub mod menu_command;
pub mod search;
pub mod bookmarks;
pub mod document;
pub mod tabs;
pub mod app_state;
pub mod viewer_input;
pub mod shader;
pub mod worker;
pub mod menu_bar;
