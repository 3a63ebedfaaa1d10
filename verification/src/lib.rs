//! State and decision logic of a small games launcher and a todo list.

pub mod text;
pub mod launch_item;
pub mod launcher_state;
pub mod todo_state;
pub mod launch_item_repository;
pub mod list_nav;
pub mod tui_app;
pub mod laws;
pub mod font_setup;
