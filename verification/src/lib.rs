//! Verified decision logic of the Mditor desktop editor's user interface:
//! settings pages and their fields, the dropdown labels, the Copilot sign-in
//! flow, the remote connection prompt, the title bar and the application menus.

pub mod text;
pub mod settings_content;
pub mod settings_page;
pub mod settings_pages;
pub mod dropdown;
pub mod copilot_sign_in;
pub mod remote_connection;
pub mod title_bar;
pub mod app_menus;
pub mod markdown_preview_button;
pub mod structured_settings;
