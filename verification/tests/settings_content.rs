use mditor_ui::settings_content::{
    field_or_fallback, field_storage_key, language_settings_field, language_settings_field_mut, pick_field,
    show_scrollbar_or_editor, write_field, FieldAccess, SettingsContent,
};

fn text(s: &str) -> Option<String> {
    Some(s.to_string())
}

#[test]
fn set_then_get_and_clear() {
    let mut content = SettingsContent::new();
    assert_eq!(content.get("vim_mode"), None);
    content.set("vim_mode", text("true"));
    assert_eq!(content.get("vim_mode"), text("true"));
    content.set("vim_mode", text("false"));
    assert_eq!(content.get("vim_mode"), text("false"));
    content.set("vim_mode", None);
    assert_eq!(content.get("vim_mode"), None);
}

#[test]
fn storage_keys_of_each_access() {
    assert_eq!(field_storage_key(&FieldAccess::Direct("proxy", &[]), Some("Rust")), "proxy");
    assert_eq!(field_storage_key(&FieldAccess::NonEmptyText("server_url", &[]), None), "server_url");
    assert_eq!(
        field_storage_key(&FieldAccess::LanguageScoped("tab_size", &[]), Some("Rust")),
        "project.all_languages.languages.Rust.tab_size"
    );
    assert_eq!(
        field_storage_key(&FieldAccess::LanguageScoped("tab_size", &[]), None),
        "project.all_languages.defaults.tab_size"
    );
    assert_eq!(
        field_storage_key(&FieldAccess::WithFallback("terminal.font_size", "buffer_font_size", &[]), None),
        "terminal.font_size"
    );
}

#[test]
fn read_after_write_for_each_access() {
    let accesses = [
        FieldAccess::Direct("proxy", &[]),
        FieldAccess::NonEmptyText("server_url", &[]),
        FieldAccess::LanguageScoped("tab_size", &[]),
        FieldAccess::WithFallback("terminal.font_size", "buffer_font_size", &[]),
    ];
    for access in accesses.iter() {
        let mut content = SettingsContent::new();
        write_field(&mut content, access, Some("Markdown"), text("12"));
        assert_eq!(pick_field(&content, access, Some("Markdown")), text("12"));
    }
}

#[test]
fn empty_text_is_cleared_and_reads_empty() {
    let access = FieldAccess::NonEmptyText("server_url", &[]);
    let mut content = SettingsContent::new();
    write_field(&mut content, &access, None, text("https://example.org"));
    assert_eq!(content.get("server_url"), text("https://example.org"));
    write_field(&mut content, &access, None, text(""));
    assert_eq!(content.get("server_url"), None);
    assert_eq!(pick_field(&content, &access, None), text(""));
}

#[test]
fn clearing_a_plain_field_shows_nothing() {
    let access = FieldAccess::Direct("proxy", &[]);
    let mut content = SettingsContent::new();
    write_field(&mut content, &access, None, text("socks5h://localhost:10808"));
    write_field(&mut content, &access, None, None);
    assert_eq!(pick_field(&content, &access, None), None);
}

#[test]
fn language_field_falls_back_to_defaults() {
    let mut content = SettingsContent::new();
    language_settings_field_mut(&mut content, text("4"), "tab_size", &[], None);
    assert_eq!(content.get("project.all_languages.defaults.tab_size"), text("4"));
    assert_eq!(language_settings_field(&content, "tab_size", Some("Rust")), text("4"));
    language_settings_field_mut(&mut content, text("2"), "tab_size", &[], Some("Rust"));
    assert_eq!(language_settings_field(&content, "tab_size", Some("Rust")), text("2"));
    assert_eq!(language_settings_field(&content, "tab_size", Some("Go")), text("4"));
    assert_eq!(language_settings_field(&content, "tab_size", None), text("4"));
    language_settings_field_mut(&mut content, None, "tab_size", &[], Some("Rust"));
    assert_eq!(language_settings_field(&content, "tab_size", Some("Rust")), text("4"));
}

#[test]
fn fallback_fields_read_the_other_field_when_unset() {
    let mut content = SettingsContent::new();
    content.set("editor.scrollbar.show", text("auto"));
    assert_eq!(show_scrollbar_or_editor(&content, "project_panel.scrollbar.show"), text("auto"));
    content.set("project_panel.scrollbar.show", text("never"));
    assert_eq!(show_scrollbar_or_editor(&content, "project_panel.scrollbar.show"), text("never"));
    assert_eq!(field_or_fallback(&content, "terminal.font_family", "buffer_font_family"), None);
    content.set("buffer_font_family", text("Menlo"));
    assert_eq!(field_or_fallback(&content, "terminal.font_family", "buffer_font_family"), text("Menlo"));
}

#[test]
fn writing_one_setting_leaves_another() {
    let mut content = SettingsContent::new();
    content.set("buffer_font_size", text("15"));
    write_field(&mut content, &FieldAccess::Direct("ui_font_size", &[]), None, text("16"));
    assert_eq!(pick_field(&content, &FieldAccess::Direct("buffer_font_size", &[]), None), text("15"));
    write_field(&mut content, &FieldAccess::LanguageScoped("tab_size", &[]), Some("Rust"), text("8"));
    assert_eq!(pick_field(&content, &FieldAccess::LanguageScoped("tab_size", &[]), Some("Go")), None);
}

#[test]
fn writing_a_nested_field_creates_its_records() {
    let mut content = SettingsContent::new();
    assert!(!content.has_record("tab_bar"));
    let access = FieldAccess::Direct("tab_bar.show", &["tab_bar"]);
    write_field(&mut content, &access, None, None);
    assert!(content.has_record("tab_bar"));
    assert_eq!(pick_field(&content, &access, None), None);
    write_field(&mut content, &access, None, text("false"));
    assert_eq!(pick_field(&content, &access, None), text("false"));
}

#[test]
fn writing_a_language_field_creates_the_language() {
    let mut content = SettingsContent::new();
    let access = FieldAccess::LanguageScoped("indent_guides.enabled", &["indent_guides"]);
    write_field(&mut content, &access, Some("Rust"), text("true"));
    assert!(content.has_record("project.all_languages.languages.Rust"));
    assert!(content.has_record("project.all_languages.languages.Rust.indent_guides"));
    assert!(!content.has_record("project.all_languages.defaults.indent_guides"));
    write_field(&mut content, &access, None, None);
    assert!(content.has_record("project.all_languages.defaults.indent_guides"));
    assert_eq!(pick_field(&content, &access, Some("Rust")), text("true"));
    assert_eq!(pick_field(&content, &access, Some("Go")), None);
}
