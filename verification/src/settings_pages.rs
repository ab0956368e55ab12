//! The pages of the settings window and the settings they list.

pub mod ai;
pub mod catalog;
pub mod appearance;
pub mod debugger;
pub mod editor;
pub mod general;
pub mod keymap;
pub mod language;
pub mod network;
pub mod panels;
pub mod search_and_files;
pub mod terminal;
pub mod window_and_layout;

pub use ai::ai_page;
pub use appearance::appearance_page;
pub use debugger::debugger_page;
pub use editor::editor_page;
pub use general::general_page;
pub use keymap::keymap_page;
pub use language::language_settings_data;
pub use network::network_page;
pub use panels::panels_page;
pub use search_and_files::search_and_files_page;
pub use terminal::terminal_page;
pub use window_and_layout::window_and_layout_page;
pub use catalog::settings_data;
pub mod page_laws;
