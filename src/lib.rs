pub mod error;
pub mod lemmas;
pub mod render;
pub mod reply;
pub mod text;
pub mod ui;
pub mod wrap;
