# mditor_ui

The decision logic of the Mditor editor's interface, written in Verus and proved
against its contracts:

- `settings_content`, `settings_page`, `settings_pages/`: the settings pages, what
  each setting is, and how a setting reads and writes its field (the language
  settings fall back to the defaults shared by all languages);
- `structured_settings`: settings that take one of several shapes (themes, autosave,
  the terminal's shell and working directory);
- `dropdown`: the localized labels of enumerated settings and their dropdown;
- `copilot_sign_in`: the Copilot sign-in and sign-out flow, the device-code window
  and the provider's configuration view;
- `remote_connection`: the connection prompt and modal, the release requests of the
  remote server, and the cleanup of its archive cache;
- `title_bar`, `app_menus`, `markdown_preview_button`: the title bar, the menu bar
  and the Markdown preview button.

`app/` holds what runs around the library and is not verified: JSON for the release
service, the file system side of the cache cleanup, and the custom line height,
whose value is a floating-point number.
