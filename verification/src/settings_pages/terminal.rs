//! The settings built by `terminal_page`.

use vstd::prelude::*;
use crate::settings_content::FieldAccess;
use crate::settings_page::{
    DynamicItem, FieldRef, OutlineEntry, PROJECT, SettingItem, SettingsFieldMetadata, SettingsPage, SettingsPageItem,
    StructuredField, SubPage, SubPageLink, USER, concat_sections, items_well_formed, lemma_well_formed_concat, outline,
    placeholder, placeholder_of, setting_item, setting_of, settings_have_paths, variant_outlines, views_of,
};

verus! {

/// The entries of the section `environment`, as values.
pub open spec fn environment_outline() -> Seq<OutlineEntry> {
    seq![
        OutlineEntry::Header("Environment"),
        OutlineEntry::Dynamic(setting_of(USER | PROJECT, "Shell", "What shell to use when opening a terminal.", Some("terminal.shell$"), FieldRef::Structured(StructuredField::ShellVariant), true, None), seq![seq![], seq![setting_of(USER | PROJECT, "Program", "The shell program to use.", Some("terminal.shell"), FieldRef::Structured(StructuredField::ShellProgram), true, None)], seq![setting_of(USER | PROJECT, "Program", "The shell program to run.", Some("terminal.shell.program"), FieldRef::Structured(StructuredField::ShellArgumentsProgram), true, None), setting_of(USER | PROJECT, "Arguments", "The arguments to pass to the shell program.", Some("terminal.shell.args"), FieldRef::Structured(StructuredField::ShellArguments), false, None), setting_of(USER | PROJECT, "Title Override", "An optional string to override the title of the terminal tab.", Some("terminal.shell.title_override"), FieldRef::Structured(StructuredField::ShellTitleOverride), true, None)]]),
        OutlineEntry::Dynamic(setting_of(USER | PROJECT, "Working Directory", "What working directory to use when launching the terminal.", Some("terminal.working_directory$"), FieldRef::Structured(StructuredField::WorkingDirectoryVariant), true, None), seq![seq![], seq![], seq![], seq![], seq![setting_of(USER | PROJECT, "Directory", "The directory path to use (will be shell expanded).", Some("terminal.working_directory.always"), FieldRef::Structured(StructuredField::WorkingDirectoryPath), true, None)]]),
        OutlineEntry::Setting(setting_of(USER | PROJECT, "Environment Variables", "Key-value pairs to add to the terminal's environment.", Some("terminal.env"), FieldRef::Text(FieldAccess::Direct("terminal.project.env", &["terminal"])), false, None)),
        OutlineEntry::Setting(setting_of(USER | PROJECT, "Detect Virtual Environment", "Activates the Python virtual environment, if one is found, in the terminal's working directory.", Some("terminal.detect_venv"), FieldRef::Text(FieldAccess::Direct("terminal.project.detect_venv", &["terminal"])), false, None)),
    ]
}

fn environment_section() -> (items: Vec<SettingsPageItem>)
    ensures
        outline(items@) == environment_outline(),
        items_well_formed(items@),
{
    let mut items: Vec<SettingsPageItem> = Vec::new();
    items.push(SettingsPageItem::SectionHeader("Environment"));
    let d0_0: Vec<SettingItem> = vec![];
    assert(d0_0@ =~= seq![]);
    let d0_1: Vec<SettingItem> = vec![setting_item(
            USER | PROJECT,
            "Program",
            "The shell program to use.",
            Some("terminal.shell"),
            FieldRef::Structured(StructuredField::ShellProgram),
            true,
            None,
        )];
    assert(d0_1@ =~= seq![setting_of(USER | PROJECT, "Program", "The shell program to use.", Some("terminal.shell"), FieldRef::Structured(StructuredField::ShellProgram), true, None)]);
    let d0_2: Vec<SettingItem> = vec![setting_item(
            USER | PROJECT,
            "Program",
            "The shell program to run.",
            Some("terminal.shell.program"),
            FieldRef::Structured(StructuredField::ShellArgumentsProgram),
            true,
            None,
        ), setting_item(
            USER | PROJECT,
            "Arguments",
            "The arguments to pass to the shell program.",
            Some("terminal.shell.args"),
            FieldRef::Structured(StructuredField::ShellArguments),
            false,
            None,
        ), setting_item(
            USER | PROJECT,
            "Title Override",
            "An optional string to override the title of the terminal tab.",
            Some("terminal.shell.title_override"),
            FieldRef::Structured(StructuredField::ShellTitleOverride),
            true,
            None,
        )];
    assert(d0_2@ =~= seq![setting_of(USER | PROJECT, "Program", "The shell program to run.", Some("terminal.shell.program"), FieldRef::Structured(StructuredField::ShellArgumentsProgram), true, None), setting_of(USER | PROJECT, "Arguments", "The arguments to pass to the shell program.", Some("terminal.shell.args"), FieldRef::Structured(StructuredField::ShellArguments), false, None), setting_of(USER | PROJECT, "Title Override", "An optional string to override the title of the terminal tab.", Some("terminal.shell.title_override"), FieldRef::Structured(StructuredField::ShellTitleOverride), true, None)]);
    let d0 = vec![d0_0, d0_1, d0_2];
    assert(variant_outlines(d0@) =~= seq![seq![], seq![setting_of(USER | PROJECT, "Program", "The shell program to use.", Some("terminal.shell"), FieldRef::Structured(StructuredField::ShellProgram), true, None)], seq![setting_of(USER | PROJECT, "Program", "The shell program to run.", Some("terminal.shell.program"), FieldRef::Structured(StructuredField::ShellArgumentsProgram), true, None), setting_of(USER | PROJECT, "Arguments", "The arguments to pass to the shell program.", Some("terminal.shell.args"), FieldRef::Structured(StructuredField::ShellArguments), false, None), setting_of(USER | PROJECT, "Title Override", "An optional string to override the title of the terminal tab.", Some("terminal.shell.title_override"), FieldRef::Structured(StructuredField::ShellTitleOverride), true, None)]]);
    items.push(SettingsPageItem::DynamicItem(DynamicItem {
        discriminant: setting_item(
            USER | PROJECT,
            "Shell",
            "What shell to use when opening a terminal.",
            Some("terminal.shell$"),
            FieldRef::Structured(StructuredField::ShellVariant),
            true,
            None,
        ),
        variant_fields: d0,
    }));
    let d1_0: Vec<SettingItem> = vec![];
    assert(d1_0@ =~= seq![]);
    let d1_1: Vec<SettingItem> = vec![];
    assert(d1_1@ =~= seq![]);
    let d1_2: Vec<SettingItem> = vec![];
    assert(d1_2@ =~= seq![]);
    let d1_3: Vec<SettingItem> = vec![];
    assert(d1_3@ =~= seq![]);
    let d1_4: Vec<SettingItem> = vec![setting_item(
            USER | PROJECT,
            "Directory",
            "The directory path to use (will be shell expanded).",
            Some("terminal.working_directory.always"),
            FieldRef::Structured(StructuredField::WorkingDirectoryPath),
            true,
            None,
        )];
    assert(d1_4@ =~= seq![setting_of(USER | PROJECT, "Directory", "The directory path to use (will be shell expanded).", Some("terminal.working_directory.always"), FieldRef::Structured(StructuredField::WorkingDirectoryPath), true, None)]);
    let d1 = vec![d1_0, d1_1, d1_2, d1_3, d1_4];
    assert(variant_outlines(d1@) =~= seq![seq![], seq![], seq![], seq![], seq![setting_of(USER | PROJECT, "Directory", "The directory path to use (will be shell expanded).", Some("terminal.working_directory.always"), FieldRef::Structured(StructuredField::WorkingDirectoryPath), true, None)]]);
    items.push(SettingsPageItem::DynamicItem(DynamicItem {
        discriminant: setting_item(
            USER | PROJECT,
            "Working Directory",
            "What working directory to use when launching the terminal.",
            Some("terminal.working_directory$"),
            FieldRef::Structured(StructuredField::WorkingDirectoryVariant),
            true,
            None,
        ),
        variant_fields: d1,
    }));
    items.push(SettingsPageItem::SettingItem(setting_item(
                USER | PROJECT,
                "Environment Variables",
                "Key-value pairs to add to the terminal's environment.",
                Some("terminal.env"),
                FieldRef::Text(FieldAccess::Direct("terminal.project.env", &["terminal"])),
                false,
                None,
            )));
    items.push(SettingsPageItem::SettingItem(setting_item(
                USER | PROJECT,
                "Detect Virtual Environment",
                "Activates the Python virtual environment, if one is found, in the terminal's working directory.",
                Some("terminal.detect_venv"),
                FieldRef::Text(FieldAccess::Direct("terminal.project.detect_venv", &["terminal"])),
                false,
                None,
            )));
    assert(outline(items@) =~= environment_outline());
    assert(settings_have_paths(items@));
    items
}

/// The entries of the section `font`, as values.
pub open spec fn font_outline() -> Seq<OutlineEntry> {
    seq![
        OutlineEntry::Header("Font"),
        OutlineEntry::Setting(setting_of(USER, "Font Size", "Font size for terminal text. If not set, defaults to buffer font size.", Some("terminal.font_size"), FieldRef::Text(FieldAccess::WithFallback("terminal.font_size", "theme.buffer_font_size", &["terminal"])), true, None)),
        OutlineEntry::Setting(setting_of(USER, "Font Family", "Font family for terminal text. If not set, defaults to buffer font family.", Some("terminal.font_family"), FieldRef::Text(FieldAccess::WithFallback("terminal.font_family", "theme.buffer_font_family", &["terminal"])), true, None)),
        OutlineEntry::Setting(setting_of(USER, "Font Fallbacks", "Font fallbacks for terminal text. If not set, defaults to buffer font fallbacks.", Some("terminal.font_fallbacks"), FieldRef::Text(FieldAccess::WithFallback("terminal.font_fallbacks", "theme.buffer_font_fallbacks", &["terminal"])), false, None)),
        OutlineEntry::Setting(setting_of(USER, "Font Weight", "Font weight for terminal text in CSS weight units (100-900).", Some("terminal.font_weight"), FieldRef::Text(FieldAccess::Direct("terminal.font_weight", &["terminal"])), true, None)),
        OutlineEntry::Setting(setting_of(USER, "Font Features", "Font features for terminal text.", Some("terminal.font_features"), FieldRef::Text(FieldAccess::WithFallback("terminal.font_features", "theme.buffer_font_features", &["terminal"])), false, None)),
    ]
}

fn font_section() -> (items: Vec<SettingsPageItem>)
    ensures
        outline(items@) == font_outline(),
        items_well_formed(items@),
{
    let mut items: Vec<SettingsPageItem> = Vec::new();
    items.push(SettingsPageItem::SectionHeader("Font"));
    items.push(SettingsPageItem::SettingItem(setting_item(
                USER,
                "Font Size",
                "Font size for terminal text. If not set, defaults to buffer font size.",
                Some("terminal.font_size"),
                FieldRef::Text(FieldAccess::WithFallback("terminal.font_size", "theme.buffer_font_size", &["terminal"])),
                true,
                None,
            )));
    items.push(SettingsPageItem::SettingItem(setting_item(
                USER,
                "Font Family",
                "Font family for terminal text. If not set, defaults to buffer font family.",
                Some("terminal.font_family"),
                FieldRef::Text(FieldAccess::WithFallback("terminal.font_family", "theme.buffer_font_family", &["terminal"])),
                true,
                None,
            )));
    items.push(SettingsPageItem::SettingItem(setting_item(
                USER,
                "Font Fallbacks",
                "Font fallbacks for terminal text. If not set, defaults to buffer font fallbacks.",
                Some("terminal.font_fallbacks"),
                FieldRef::Text(FieldAccess::WithFallback("terminal.font_fallbacks", "theme.buffer_font_fallbacks", &["terminal"])),
                false,
                None,
            )));
    items.push(SettingsPageItem::SettingItem(setting_item(
                USER,
                "Font Weight",
                "Font weight for terminal text in CSS weight units (100-900).",
                Some("terminal.font_weight"),
                FieldRef::Text(FieldAccess::Direct("terminal.font_weight", &["terminal"])),
                true,
                None,
            )));
    items.push(SettingsPageItem::SettingItem(setting_item(
                USER,
                "Font Features",
                "Font features for terminal text.",
                Some("terminal.font_features"),
                FieldRef::Text(FieldAccess::WithFallback("terminal.font_features", "theme.buffer_font_features", &["terminal"])),
                false,
                None,
            )));
    assert(outline(items@) =~= font_outline());
    assert(settings_have_paths(items@));
    items
}

/// The entries of the section `display_settings`, as values.
pub open spec fn display_settings_outline() -> Seq<OutlineEntry> {
    seq![
        OutlineEntry::Header("Display Settings"),
        OutlineEntry::Setting(setting_of(USER, "Line Height", "Line height for terminal text.", Some("terminal.line_height"), FieldRef::Text(FieldAccess::Direct("terminal.line_height", &["terminal"])), false, None)),
        OutlineEntry::Setting(setting_of(USER, "Cursor Shape", "Default cursor shape for the terminal (bar, block, underline, or hollow).", Some("terminal.cursor_shape"), FieldRef::Text(FieldAccess::Direct("terminal.cursor_shape", &["terminal"])), true, None)),
        OutlineEntry::Setting(setting_of(USER, "Cursor Blinking", "Sets the cursor blinking behavior in the terminal.", Some("terminal.blinking"), FieldRef::Text(FieldAccess::Direct("terminal.blinking", &["terminal"])), true, None)),
        OutlineEntry::Setting(setting_of(USER, "Alternate Scroll", "Whether alternate scroll mode is active by default (converts mouse scroll to arrow keys in apps like Vim).", Some("terminal.alternate_scroll"), FieldRef::Text(FieldAccess::Direct("terminal.alternate_scroll", &["terminal"])), true, None)),
        OutlineEntry::Setting(setting_of(USER, "Minimum Contrast", "The minimum APCA perceptual contrast between foreground and background colors (0-106).", Some("terminal.minimum_contrast"), FieldRef::Text(FieldAccess::Direct("terminal.minimum_contrast", &["terminal"])), true, None)),
    ]
}

fn display_settings_section() -> (items: Vec<SettingsPageItem>)
    ensures
        outline(items@) == display_settings_outline(),
        items_well_formed(items@),
{
    let mut items: Vec<SettingsPageItem> = Vec::new();
    items.push(SettingsPageItem::SectionHeader("Display Settings"));
    items.push(SettingsPageItem::SettingItem(setting_item(
                USER,
                "Line Height",
                "Line height for terminal text.",
                Some("terminal.line_height"),
                FieldRef::Text(FieldAccess::Direct("terminal.line_height", &["terminal"])),
                false,
                None,
            )));
    items.push(SettingsPageItem::SettingItem(setting_item(
                USER,
                "Cursor Shape",
                "Default cursor shape for the terminal (bar, block, underline, or hollow).",
                Some("terminal.cursor_shape"),
                FieldRef::Text(FieldAccess::Direct("terminal.cursor_shape", &["terminal"])),
                true,
                None,
            )));
    items.push(SettingsPageItem::SettingItem(setting_item(
                USER,
                "Cursor Blinking",
                "Sets the cursor blinking behavior in the terminal.",
                Some("terminal.blinking"),
                FieldRef::Text(FieldAccess::Direct("terminal.blinking", &["terminal"])),
                true,
                None,
            )));
    items.push(SettingsPageItem::SettingItem(setting_item(
                USER,
                "Alternate Scroll",
                "Whether alternate scroll mode is active by default (converts mouse scroll to arrow keys in apps like Vim).",
                Some("terminal.alternate_scroll"),
                FieldRef::Text(FieldAccess::Direct("terminal.alternate_scroll", &["terminal"])),
                true,
                None,
            )));
    items.push(SettingsPageItem::SettingItem(setting_item(
                USER,
                "Minimum Contrast",
                "The minimum APCA perceptual contrast between foreground and background colors (0-106).",
                Some("terminal.minimum_contrast"),
                FieldRef::Text(FieldAccess::Direct("terminal.minimum_contrast", &["terminal"])),
                true,
                None,
            )));
    assert(outline(items@) =~= display_settings_outline());
    assert(settings_have_paths(items@));
    items
}

/// The entries of the section `behavior_settings`, as values.
pub open spec fn behavior_settings_outline() -> Seq<OutlineEntry> {
    seq![
        OutlineEntry::Header("Behavior Settings"),
        OutlineEntry::Setting(setting_of(USER, "Option As Meta", "Whether the option key behaves as the meta key.", Some("terminal.option_as_meta"), FieldRef::Text(FieldAccess::Direct("terminal.option_as_meta", &["terminal"])), true, None)),
        OutlineEntry::Setting(setting_of(USER, "Copy On Select", "Whether selecting text in the terminal automatically copies to the system clipboard.", Some("terminal.copy_on_select"), FieldRef::Text(FieldAccess::Direct("terminal.copy_on_select", &["terminal"])), true, None)),
        OutlineEntry::Setting(setting_of(USER, "Keep Selection On Copy", "Whether to keep the text selection after copying it to the clipboard.", Some("terminal.keep_selection_on_copy"), FieldRef::Text(FieldAccess::Direct("terminal.keep_selection_on_copy", &["terminal"])), true, None)),
    ]
}

fn behavior_settings_section() -> (items: Vec<SettingsPageItem>)
    ensures
        outline(items@) == behavior_settings_outline(),
        items_well_formed(items@),
{
    let mut items: Vec<SettingsPageItem> = Vec::new();
    items.push(SettingsPageItem::SectionHeader("Behavior Settings"));
    items.push(SettingsPageItem::SettingItem(setting_item(
                USER,
                "Option As Meta",
                "Whether the option key behaves as the meta key.",
                Some("terminal.option_as_meta"),
                FieldRef::Text(FieldAccess::Direct("terminal.option_as_meta", &["terminal"])),
                true,
                None,
            )));
    items.push(SettingsPageItem::SettingItem(setting_item(
                USER,
                "Copy On Select",
                "Whether selecting text in the terminal automatically copies to the system clipboard.",
                Some("terminal.copy_on_select"),
                FieldRef::Text(FieldAccess::Direct("terminal.copy_on_select", &["terminal"])),
                true,
                None,
            )));
    items.push(SettingsPageItem::SettingItem(setting_item(
                USER,
                "Keep Selection On Copy",
                "Whether to keep the text selection after copying it to the clipboard.",
                Some("terminal.keep_selection_on_copy"),
                FieldRef::Text(FieldAccess::Direct("terminal.keep_selection_on_copy", &["terminal"])),
                true,
                None,
            )));
    assert(outline(items@) =~= behavior_settings_outline());
    assert(settings_have_paths(items@));
    items
}

/// The entries of the section `layout_settings`, as values.
pub open spec fn layout_settings_outline() -> Seq<OutlineEntry> {
    seq![
        OutlineEntry::Header("Layout Settings"),
        OutlineEntry::Setting(setting_of(USER, "Default Width", "Default width when the terminal is docked to the left or right (in pixels).", Some("terminal.default_width"), FieldRef::Text(FieldAccess::Direct("terminal.default_width", &["terminal"])), true, None)),
        OutlineEntry::Setting(setting_of(USER, "Default Height", "Default height when the terminal is docked to the bottom (in pixels).", Some("terminal.default_height"), FieldRef::Text(FieldAccess::Direct("terminal.default_height", &["terminal"])), true, None)),
    ]
}

fn layout_settings_section() -> (items: Vec<SettingsPageItem>)
    ensures
        outline(items@) == layout_settings_outline(),
        items_well_formed(items@),
{
    let mut items: Vec<SettingsPageItem> = Vec::new();
    items.push(SettingsPageItem::SectionHeader("Layout Settings"));
    items.push(SettingsPageItem::SettingItem(setting_item(
                USER,
                "Default Width",
                "Default width when the terminal is docked to the left or right (in pixels).",
                Some("terminal.default_width"),
                FieldRef::Text(FieldAccess::Direct("terminal.default_width", &["terminal"])),
                true,
                None,
            )));
    items.push(SettingsPageItem::SettingItem(setting_item(
                USER,
                "Default Height",
                "Default height when the terminal is docked to the bottom (in pixels).",
                Some("terminal.default_height"),
                FieldRef::Text(FieldAccess::Direct("terminal.default_height", &["terminal"])),
                true,
                None,
            )));
    assert(outline(items@) =~= layout_settings_outline());
    assert(settings_have_paths(items@));
    items
}

/// The entries of the section `advanced_settings`, as values.
pub open spec fn advanced_settings_outline() -> Seq<OutlineEntry> {
    seq![
        OutlineEntry::Header("Advanced Settings"),
        OutlineEntry::Setting(setting_of(USER, "Max Scroll History Lines", "Maximum number of lines to keep in scrollback history (max: 100,000; 0 disables scrolling).", Some("terminal.max_scroll_history_lines"), FieldRef::Text(FieldAccess::Direct("terminal.max_scroll_history_lines", &["terminal"])), true, None)),
        OutlineEntry::Setting(setting_of(USER, "Scroll Multiplier", "The multiplier for scrolling in the terminal with the mouse wheel", Some("terminal.scroll_multiplier"), FieldRef::Text(FieldAccess::Direct("terminal.scroll_multiplier", &["terminal"])), true, None)),
    ]
}

fn advanced_settings_section() -> (items: Vec<SettingsPageItem>)
    ensures
        outline(items@) == advanced_settings_outline(),
        items_well_formed(items@),
{
    let mut items: Vec<SettingsPageItem> = Vec::new();
    items.push(SettingsPageItem::SectionHeader("Advanced Settings"));
    items.push(SettingsPageItem::SettingItem(setting_item(
                USER,
                "Max Scroll History Lines",
                "Maximum number of lines to keep in scrollback history (max: 100,000; 0 disables scrolling).",
                Some("terminal.max_scroll_history_lines"),
                FieldRef::Text(FieldAccess::Direct("terminal.max_scroll_history_lines", &["terminal"])),
                true,
                None,
            )));
    items.push(SettingsPageItem::SettingItem(setting_item(
                USER,
                "Scroll Multiplier",
                "The multiplier for scrolling in the terminal with the mouse wheel",
                Some("terminal.scroll_multiplier"),
                FieldRef::Text(FieldAccess::Direct("terminal.scroll_multiplier", &["terminal"])),
                true,
                None,
            )));
    assert(outline(items@) =~= advanced_settings_outline());
    assert(settings_have_paths(items@));
    items
}

/// The entries of the section `toolbar`, as values.
pub open spec fn toolbar_outline() -> Seq<OutlineEntry> {
    seq![
        OutlineEntry::Header("Toolbar"),
        OutlineEntry::Setting(setting_of(USER, "Breadcrumbs", "Display the terminal title in breadcrumbs inside the terminal pane.", Some("terminal.toolbar.breadcrumbs"), FieldRef::Text(FieldAccess::Direct("terminal.toolbar.breadcrumbs", &["terminal", "terminal.toolbar"])), true, None)),
    ]
}

fn toolbar_section() -> (items: Vec<SettingsPageItem>)
    ensures
        outline(items@) == toolbar_outline(),
        items_well_formed(items@),
{
    let mut items: Vec<SettingsPageItem> = Vec::new();
    items.push(SettingsPageItem::SectionHeader("Toolbar"));
    items.push(SettingsPageItem::SettingItem(setting_item(
                USER,
                "Breadcrumbs",
                "Display the terminal title in breadcrumbs inside the terminal pane.",
                Some("terminal.toolbar.breadcrumbs"),
                FieldRef::Text(FieldAccess::Direct("terminal.toolbar.breadcrumbs", &["terminal", "terminal.toolbar"])),
                true,
                None,
            )));
    assert(outline(items@) =~= toolbar_outline());
    assert(settings_have_paths(items@));
    items
}

/// The entries of the section `scrollbar`, as values.
pub open spec fn scrollbar_outline() -> Seq<OutlineEntry> {
    seq![
        OutlineEntry::Header("Scrollbar"),
        OutlineEntry::Setting(setting_of(USER, "Show Scrollbar", "When to show the scrollbar in the terminal.", Some("terminal.scrollbar.show"), FieldRef::Text(FieldAccess::WithFallback("terminal.scrollbar.show", "editor.scrollbar.show", &["terminal", "terminal.scrollbar"])), true, None)),
    ]
}

fn scrollbar_section() -> (items: Vec<SettingsPageItem>)
    ensures
        outline(items@) == scrollbar_outline(),
        items_well_formed(items@),
{
    let mut items: Vec<SettingsPageItem> = Vec::new();
    items.push(SettingsPageItem::SectionHeader("Scrollbar"));
    items.push(SettingsPageItem::SettingItem(setting_item(
                USER,
                "Show Scrollbar",
                "When to show the scrollbar in the terminal.",
                Some("terminal.scrollbar.show"),
                FieldRef::Text(FieldAccess::WithFallback("terminal.scrollbar.show", "editor.scrollbar.show", &["terminal", "terminal.scrollbar"])),
                true,
                None,
            )));
    assert(outline(items@) =~= scrollbar_outline());
    assert(settings_have_paths(items@));
    items
}

/// The entries of the page, section by section.
pub open spec fn terminal_page_outline() -> Seq<OutlineEntry> {
    environment_outline() + font_outline() + display_settings_outline() + behavior_settings_outline() + layout_settings_outline() + advanced_settings_outline() + toolbar_outline() + scrollbar_outline()
}

/// The "Terminal" page: environment, font, display, behaviour, layout, advanced settings,
/// the toolbar and the scrollbar.
pub fn terminal_page() -> (page: SettingsPage)
    ensures
        page.title@ == "Terminal"@,
        outline(page.items@) == terminal_page_outline(),
        items_well_formed(page.items@),
{
    let s0 = environment_section();
    let s1 = font_section();
    let s2 = display_settings_section();
    let s3 = behavior_settings_section();
    let s4 = layout_settings_section();
    let s5 = advanced_settings_section();
    let s6 = toolbar_section();
    let s7 = scrollbar_section();
    let ghost v0 = s0@;
    let ghost v1 = s1@;
    let ghost v2 = s2@;
    let ghost v3 = s3@;
    let ghost v4 = s4@;
    let ghost v5 = s5@;
    let ghost v6 = s6@;
    let ghost v7 = s7@;
    let sections = vec![s0, s1, s2, s3, s4, s5, s6, s7];
    let ghost all = sections@;
    let items = concat_sections(sections);
    proof {
        let parts = seq![v0, v1, v2, v3, v4, v5, v6, v7];
        assert(views_of(all) =~= parts);
        reveal_with_fuel(Seq::flatten, 9);
        assert(items@ =~= v0 + v1 + v2 + v3 + v4 + v5 + v6 + v7);
        lemma_well_formed_concat(v0, v1);
        lemma_well_formed_concat(v0 + v1, v2);
        lemma_well_formed_concat(v0 + v1 + v2, v3);
        lemma_well_formed_concat(v0 + v1 + v2 + v3, v4);
        lemma_well_formed_concat(v0 + v1 + v2 + v3 + v4, v5);
        lemma_well_formed_concat(v0 + v1 + v2 + v3 + v4 + v5, v6);
        lemma_well_formed_concat(v0 + v1 + v2 + v3 + v4 + v5 + v6, v7);
    }
    SettingsPage { title: "Terminal", items }
}

} // verus!