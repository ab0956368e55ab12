use mditor_ui::settings_page::StructuredField;
use mditor_ui::structured_settings::{
    pick_structured, write_structured, StructuredDefaults, StructuredSettings, StructuredValue,
    autosave_delay, autosave_variant, selection_light_or_dark, selection_mode, selection_static_name,
    selection_variant, shell_args, shell_text_part, shell_variant, working_directory_path, working_directory_variant,
    write_autosave_delay, write_autosave_variant, write_selection_light_or_dark, write_selection_mode,
    write_selection_static_name, write_selection_variant, write_shell_args, write_shell_text_part,
    write_shell_variant, write_working_directory_path, write_working_directory_variant, AutosaveSetting,
    AutosaveVariant, SelectionVariant, Shell, ShellPart, ShellVariant, ThemeAppearanceMode, ThemeSelection,
    WorkingDirectory, WorkingDirectoryVariant, DEFAULT_AUTOSAVE_DELAY_MS,
};

fn default_theme() -> ThemeSelection {
    ThemeSelection::Static("One Dark".to_string())
}

fn following(mode: ThemeAppearanceMode, light: &str, dark: &str) -> ThemeSelection {
    ThemeSelection::Dynamic { mode, light: light.to_string(), dark: dark.to_string() }
}

#[test]
fn fixed_theme_becomes_following_one_for_both_appearances() {
    let next = write_selection_variant(
        Some(ThemeSelection::Static("Ayu".to_string())),
        Some(SelectionVariant::Dynamic),
        default_theme(),
    );
    match next {
        Some(ThemeSelection::Dynamic { mode, light, dark }) => {
            assert!(matches!(mode, ThemeAppearanceMode::System));
            assert_eq!(light, "Ayu");
            assert_eq!(dark, "Ayu");
        },
        _ => panic!("expected a following theme"),
    }
}

#[test]
fn following_theme_becomes_fixed_by_its_mode() {
    let light = write_selection_variant(
        Some(following(ThemeAppearanceMode::Light, "Day", "Night")),
        Some(SelectionVariant::Static),
        default_theme(),
    );
    assert!(matches!(light, Some(ThemeSelection::Static(ref n)) if n == "Day"));
    let system = write_selection_variant(
        Some(following(ThemeAppearanceMode::System, "Day", "Night")),
        Some(SelectionVariant::Static),
        default_theme(),
    );
    assert!(matches!(system, Some(ThemeSelection::Static(ref n)) if n == "Night"));
}

#[test]
fn unset_theme_starts_from_default_and_clearing_clears() {
    let next = write_selection_variant(None, Some(SelectionVariant::Dynamic), default_theme());
    assert!(matches!(next, Some(ThemeSelection::Dynamic { ref light, .. }) if light == "One Dark"));
    assert!(write_selection_variant(Some(default_theme()), None, default_theme()).is_none());
}

#[test]
fn static_theme_round_trip() {
    let there = write_selection_variant(
        Some(ThemeSelection::Static("Ayu".to_string())),
        Some(SelectionVariant::Dynamic),
        default_theme(),
    );
    let back = write_selection_variant(there, Some(SelectionVariant::Static), default_theme());
    assert!(matches!(back, Some(ThemeSelection::Static(ref n)) if n == "Ayu"));
}

#[test]
fn same_variant_keeps_selection() {
    let next = write_selection_variant(
        Some(following(ThemeAppearanceMode::Dark, "Day", "Night")),
        Some(SelectionVariant::Dynamic),
        default_theme(),
    );
    match next {
        Some(ThemeSelection::Dynamic { mode, light, dark }) => {
            assert!(matches!(mode, ThemeAppearanceMode::Dark));
            assert_eq!((light.as_str(), dark.as_str()), ("Day", "Night"));
        },
        _ => panic!("expected the same following theme"),
    }
}

#[test]
fn theme_part_fields() {
    let current = Some(following(ThemeAppearanceMode::Light, "Day", "Night"));
    assert!(matches!(selection_variant(&current), Some(SelectionVariant::Dynamic)));
    assert_eq!(selection_static_name(&current), None);
    assert!(matches!(selection_mode(&current), Some(ThemeAppearanceMode::Light)));
    assert_eq!(selection_light_or_dark(&current, false), Some("Day".to_string()));
    assert_eq!(selection_light_or_dark(&current, true), Some("Night".to_string()));

    let darker = write_selection_light_or_dark(current, true, Some("Midnight".to_string()), None);
    assert_eq!(selection_light_or_dark(&darker, true), Some("Midnight".to_string()));
    let system = write_selection_mode(darker, Some(ThemeAppearanceMode::System), None);
    assert!(matches!(selection_mode(&system), Some(ThemeAppearanceMode::System)));

    // A fixed theme does not take a mode, and an unset one takes the inserted default.
    let fixed = write_selection_mode(Some(default_theme()), Some(ThemeAppearanceMode::Dark), None);
    assert_eq!(selection_static_name(&fixed), Some("One Dark".to_string()));
    let inserted = write_selection_static_name(None, Some("Ayu".to_string()), Some(default_theme()));
    assert_eq!(selection_static_name(&inserted), Some("Ayu".to_string()));
    assert!(write_selection_static_name(None, Some("Ayu".to_string()), None).is_none());
}

#[test]
fn autosave_after_delay_starts_with_a_second_and_keeps_its_delay() {
    let next = write_autosave_variant(Some(AutosaveSetting::Off), Some(AutosaveVariant::AfterDelay));
    assert_eq!(autosave_delay(&next), Some(DEFAULT_AUTOSAVE_DELAY_MS));
    assert_eq!(DEFAULT_AUTOSAVE_DELAY_MS, 1000);
    let kept = write_autosave_variant(
        Some(AutosaveSetting::AfterDelay { milliseconds: 250 }),
        Some(AutosaveVariant::AfterDelay),
    );
    assert_eq!(autosave_delay(&kept), Some(250));
    assert!(matches!(autosave_variant(&kept), Some(AutosaveVariant::AfterDelay)));
    assert!(write_autosave_variant(kept, None).is_none());
}

#[test]
fn autosave_delay_field() {
    let set = write_autosave_delay(Some(AutosaveSetting::AfterDelay { milliseconds: 250 }), Some(500));
    assert_eq!(autosave_delay(&set), Some(500));
    let untouched = write_autosave_delay(Some(AutosaveSetting::OnFocusChange), Some(500));
    assert!(matches!(untouched, Some(AutosaveSetting::OnFocusChange)));
    assert!(write_autosave_delay(set, None).is_none());
}

#[test]
fn shell_variant_defaults_per_platform() {
    let windows = write_shell_variant(None, Some(ShellVariant::Program), true);
    assert!(matches!(windows, Some(Shell::Program(ref p)) if p == "powershell.exe"));
    let unix = write_shell_variant(Some(Shell::System), Some(ShellVariant::WithArguments), false);
    match &unix {
        Some(Shell::WithArguments { program, args, title_override }) => {
            assert_eq!(program, "sh");
            assert!(args.is_empty());
            assert!(title_override.is_none());
        },
        _ => panic!("expected a shell with arguments"),
    }
    assert!(matches!(shell_variant(&unix), Some(ShellVariant::WithArguments)));
    assert!(write_shell_variant(unix, None, false).is_none());
}

#[test]
fn shell_program_carries_over_between_shapes() {
    let with_args = Some(Shell::WithArguments {
        program: "zsh".to_string(),
        args: vec!["-l".to_string()],
        title_override: Some("Z".to_string()),
    });
    let program = write_shell_variant(with_args, Some(ShellVariant::Program), false);
    assert_eq!(shell_text_part(&program, ShellPart::Program), Some("zsh".to_string()));
    let back = write_shell_variant(program, Some(ShellVariant::WithArguments), false);
    assert_eq!(shell_text_part(&back, ShellPart::ArgumentsProgram), Some("zsh".to_string()));
    assert_eq!(shell_args(&back), Some(Vec::new()));
    assert_eq!(shell_text_part(&back, ShellPart::TitleOverride), Some(String::new()));
}

#[test]
fn shell_parts_are_edited_in_place() {
    let shell = Some(Shell::WithArguments { program: "bash".to_string(), args: Vec::new(), title_override: None });
    let titled = write_shell_text_part(shell, ShellPart::TitleOverride, Some("Build".to_string()));
    assert_eq!(shell_text_part(&titled, ShellPart::TitleOverride), Some("Build".to_string()));
    let untitled = write_shell_text_part(titled, ShellPart::TitleOverride, Some(String::new()));
    assert_eq!(shell_text_part(&untitled, ShellPart::TitleOverride), Some(String::new()));
    let with_args = write_shell_args(untitled, Some(vec!["-c".to_string(), "make".to_string()]));
    assert_eq!(shell_args(&with_args), Some(vec!["-c".to_string(), "make".to_string()]));
    // A program field of the other shape leaves the shell alone.
    let same = write_shell_text_part(with_args, ShellPart::Program, Some("fish".to_string()));
    assert_eq!(shell_text_part(&same, ShellPart::ArgumentsProgram), Some("bash".to_string()));
}

#[test]
fn working_directory_always_keeps_or_starts_empty() {
    let fresh = write_working_directory_variant(
        Some(WorkingDirectory::AlwaysHome),
        Some(WorkingDirectoryVariant::Always),
    );
    assert_eq!(working_directory_path(&fresh), Some(String::new()));
    let chosen = write_working_directory_path(fresh, Some("/work".to_string()));
    assert_eq!(working_directory_path(&chosen), Some("/work".to_string()));
    let kept = write_working_directory_variant(chosen, Some(WorkingDirectoryVariant::Always));
    assert_eq!(working_directory_path(&kept), Some("/work".to_string()));
    assert!(matches!(working_directory_variant(&kept), Some(WorkingDirectoryVariant::Always)));
    let home = write_working_directory_variant(kept, Some(WorkingDirectoryVariant::AlwaysHome));
    assert!(matches!(home, Some(WorkingDirectory::AlwaysHome)));
    let unchanged = write_working_directory_path(home, Some("/tmp".to_string()));
    assert!(matches!(unchanged, Some(WorkingDirectory::AlwaysHome)));
}

fn empty_settings() -> StructuredSettings {
    StructuredSettings { theme: None, icon_theme: None, autosave: None, shell: None, working_directory: None }
}

fn defaults() -> StructuredDefaults {
    StructuredDefaults {
        theme: ThemeSelection::Static("One Dark".to_string()),
        icon_theme: ThemeSelection::Static("Zed (Default)".to_string()),
    }
}

#[test]
fn page_fields_dispatch_to_their_setting() {
    let settings = write_structured(
        empty_settings(),
        StructuredField::ThemeVariant,
        Some(StructuredValue::SelectionVariant(SelectionVariant::Dynamic)),
        defaults(),
        false,
    );
    assert!(matches!(
        pick_structured(&settings, StructuredField::ThemeVariant),
        Some(StructuredValue::SelectionVariant(SelectionVariant::Dynamic))
    ));
    assert!(matches!(pick_structured(&settings, StructuredField::ThemeLight), Some(StructuredValue::Text(ref t)) if t == "One Dark"));
    assert!(pick_structured(&settings, StructuredField::IconThemeVariant).is_none());

    // The icon theme's part fields do not insert a default.
    let settings = write_structured(settings, StructuredField::IconThemeName, Some(StructuredValue::Text("x".to_string())), defaults(), false);
    assert!(settings.icon_theme.is_none());
    // The theme's do.
    let settings = write_structured(empty_settings(), StructuredField::ThemeName, Some(StructuredValue::Text("Ayu".to_string())), defaults(), false);
    assert!(matches!(pick_structured(&settings, StructuredField::ThemeName), Some(StructuredValue::Text(ref t)) if t == "Ayu"));

    // A value of the wrong kind changes nothing.
    let settings = write_structured(settings, StructuredField::ThemeName, Some(StructuredValue::Delay(5)), defaults(), false);
    assert!(matches!(pick_structured(&settings, StructuredField::ThemeName), Some(StructuredValue::Text(ref t)) if t == "Ayu"));

    let settings = write_structured(settings, StructuredField::ShellVariant, Some(StructuredValue::ShellVariant(ShellVariant::WithArguments)), defaults(), true);
    assert!(matches!(pick_structured(&settings, StructuredField::ShellArgumentsProgram), Some(StructuredValue::Text(ref t)) if t == "powershell.exe"));
    assert!(matches!(pick_structured(&settings, StructuredField::ShellTitleOverride), Some(StructuredValue::Text(ref t)) if t.is_empty()));
    let settings = write_structured(settings, StructuredField::AutosaveVariant, Some(StructuredValue::AutosaveVariant(AutosaveVariant::AfterDelay)), defaults(), false);
    assert!(matches!(pick_structured(&settings, StructuredField::AutosaveDelay), Some(StructuredValue::Delay(1000))));
    let settings = write_structured(settings, StructuredField::BufferLineHeightVariant, None, defaults(), false);
    assert!(pick_structured(&settings, StructuredField::BufferLineHeightVariant).is_none());
    assert!(matches!(pick_structured(&settings, StructuredField::ThemeName), Some(StructuredValue::Text(ref t)) if t == "Ayu"));
}
