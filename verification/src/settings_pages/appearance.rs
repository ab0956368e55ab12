//! The settings built by `appearance_page`.

use vstd::prelude::*;
use crate::settings_content::FieldAccess;
use crate::settings_page::{
    DynamicItem, FieldRef, OutlineEntry, PROJECT, SettingItem, SettingsFieldMetadata, SettingsPage, SettingsPageItem,
    StructuredField, SubPage, SubPageLink, USER, concat_sections, items_well_formed, lemma_well_formed_concat, outline,
    placeholder, placeholder_of, setting_item, setting_of, settings_have_paths, variant_outlines, views_of,
};

verus! {

/// The entries of the section `theme`, as values.
pub open spec fn theme_outline() -> Seq<OutlineEntry> {
    seq![
        OutlineEntry::Header("主题"),
        OutlineEntry::Dynamic(setting_of(USER, "主题模式", "选择固定主题，或根据外观与明暗模式动态切换主题。", Some("theme$"), FieldRef::Structured(StructuredField::ThemeVariant), true, None), seq![seq![setting_of(USER, "主题名称", "当前所选主题的名称。", Some("theme"), FieldRef::Structured(StructuredField::ThemeName), true, None)], seq![setting_of(USER, "模式", "选择使用选定的浅色或深色主题，或跟随系统外观设置。", Some("theme.mode"), FieldRef::Structured(StructuredField::ThemeMode), true, None), setting_of(USER, "浅色主题", "当模式设为浅色，或模式设为跟随系统且系统处于浅色模式时使用的主题。", Some("theme.light"), FieldRef::Structured(StructuredField::ThemeLight), true, None), setting_of(USER, "深色主题", "当模式设为深色，或模式设为跟随系统且系统处于深色模式时使用的主题。", Some("theme.dark"), FieldRef::Structured(StructuredField::ThemeDark), true, None)]]),
        OutlineEntry::Dynamic(setting_of(USER, "图标主题", "Prism 用于文件和目录的自定义图标集。", Some("icon_theme$"), FieldRef::Structured(StructuredField::IconThemeVariant), true, None), seq![seq![setting_of(USER, "图标主题名称", "当前所选图标主题的名称。", Some("icon_theme$string"), FieldRef::Structured(StructuredField::IconThemeName), true, None)], seq![setting_of(USER, "模式", "选择使用选定的浅色或深色图标主题，或跟随系统外观设置。", Some("icon_theme"), FieldRef::Structured(StructuredField::IconThemeMode), true, None), setting_of(USER, "浅色图标主题", "当模式设为浅色，或模式设为跟随系统且系统处于浅色模式时使用的图标主题。", Some("icon_theme.light"), FieldRef::Structured(StructuredField::IconThemeLight), true, None), setting_of(USER, "深色图标主题", "当模式设为深色，或模式设为跟随系统且系统处于深色模式时使用的图标主题。", Some("icon_theme.dark"), FieldRef::Structured(StructuredField::IconThemeDark), true, None)]]),
    ]
}

fn theme_section() -> (items: Vec<SettingsPageItem>)
    ensures
        outline(items@) == theme_outline(),
        items_well_formed(items@),
{
    let mut items: Vec<SettingsPageItem> = Vec::new();
    items.push(SettingsPageItem::SectionHeader("主题"));
    let d0_0: Vec<SettingItem> = vec![setting_item(
            USER,
            "主题名称",
            "当前所选主题的名称。",
            Some("theme"),
            FieldRef::Structured(StructuredField::ThemeName),
            true,
            None,
        )];
    assert(d0_0@ =~= seq![setting_of(USER, "主题名称", "当前所选主题的名称。", Some("theme"), FieldRef::Structured(StructuredField::ThemeName), true, None)]);
    let d0_1: Vec<SettingItem> = vec![setting_item(
            USER,
            "模式",
            "选择使用选定的浅色或深色主题，或跟随系统外观设置。",
            Some("theme.mode"),
            FieldRef::Structured(StructuredField::ThemeMode),
            true,
            None,
        ), setting_item(
            USER,
            "浅色主题",
            "当模式设为浅色，或模式设为跟随系统且系统处于浅色模式时使用的主题。",
            Some("theme.light"),
            FieldRef::Structured(StructuredField::ThemeLight),
            true,
            None,
        ), setting_item(
            USER,
            "深色主题",
            "当模式设为深色，或模式设为跟随系统且系统处于深色模式时使用的主题。",
            Some("theme.dark"),
            FieldRef::Structured(StructuredField::ThemeDark),
            true,
            None,
        )];
    assert(d0_1@ =~= seq![setting_of(USER, "模式", "选择使用选定的浅色或深色主题，或跟随系统外观设置。", Some("theme.mode"), FieldRef::Structured(StructuredField::ThemeMode), true, None), setting_of(USER, "浅色主题", "当模式设为浅色，或模式设为跟随系统且系统处于浅色模式时使用的主题。", Some("theme.light"), FieldRef::Structured(StructuredField::ThemeLight), true, None), setting_of(USER, "深色主题", "当模式设为深色，或模式设为跟随系统且系统处于深色模式时使用的主题。", Some("theme.dark"), FieldRef::Structured(StructuredField::ThemeDark), true, None)]);
    let d0 = vec![d0_0, d0_1];
    assert(variant_outlines(d0@) =~= seq![seq![setting_of(USER, "主题名称", "当前所选主题的名称。", Some("theme"), FieldRef::Structured(StructuredField::ThemeName), true, None)], seq![setting_of(USER, "模式", "选择使用选定的浅色或深色主题，或跟随系统外观设置。", Some("theme.mode"), FieldRef::Structured(StructuredField::ThemeMode), true, None), setting_of(USER, "浅色主题", "当模式设为浅色，或模式设为跟随系统且系统处于浅色模式时使用的主题。", Some("theme.light"), FieldRef::Structured(StructuredField::ThemeLight), true, None), setting_of(USER, "深色主题", "当模式设为深色，或模式设为跟随系统且系统处于深色模式时使用的主题。", Some("theme.dark"), FieldRef::Structured(StructuredField::ThemeDark), true, None)]]);
    items.push(SettingsPageItem::DynamicItem(DynamicItem {
        discriminant: setting_item(
            USER,
            "主题模式",
            "选择固定主题，或根据外观与明暗模式动态切换主题。",
            Some("theme$"),
            FieldRef::Structured(StructuredField::ThemeVariant),
            true,
            None,
        ),
        variant_fields: d0,
    }));
    let d1_0: Vec<SettingItem> = vec![setting_item(
            USER,
            "图标主题名称",
            "当前所选图标主题的名称。",
            Some("icon_theme$string"),
            FieldRef::Structured(StructuredField::IconThemeName),
            true,
            None,
        )];
    assert(d1_0@ =~= seq![setting_of(USER, "图标主题名称", "当前所选图标主题的名称。", Some("icon_theme$string"), FieldRef::Structured(StructuredField::IconThemeName), true, None)]);
    let d1_1: Vec<SettingItem> = vec![setting_item(
            USER,
            "模式",
            "选择使用选定的浅色或深色图标主题，或跟随系统外观设置。",
            Some("icon_theme"),
            FieldRef::Structured(StructuredField::IconThemeMode),
            true,
            None,
        ), setting_item(
            USER,
            "浅色图标主题",
            "当模式设为浅色，或模式设为跟随系统且系统处于浅色模式时使用的图标主题。",
            Some("icon_theme.light"),
            FieldRef::Structured(StructuredField::IconThemeLight),
            true,
            None,
        ), setting_item(
            USER,
            "深色图标主题",
            "当模式设为深色，或模式设为跟随系统且系统处于深色模式时使用的图标主题。",
            Some("icon_theme.dark"),
            FieldRef::Structured(StructuredField::IconThemeDark),
            true,
            None,
        )];
    assert(d1_1@ =~= seq![setting_of(USER, "模式", "选择使用选定的浅色或深色图标主题，或跟随系统外观设置。", Some("icon_theme"), FieldRef::Structured(StructuredField::IconThemeMode), true, None), setting_of(USER, "浅色图标主题", "当模式设为浅色，或模式设为跟随系统且系统处于浅色模式时使用的图标主题。", Some("icon_theme.light"), FieldRef::Structured(StructuredField::IconThemeLight), true, None), setting_of(USER, "深色图标主题", "当模式设为深色，或模式设为跟随系统且系统处于深色模式时使用的图标主题。", Some("icon_theme.dark"), FieldRef::Structured(StructuredField::IconThemeDark), true, None)]);
    let d1 = vec![d1_0, d1_1];
    assert(variant_outlines(d1@) =~= seq![seq![setting_of(USER, "图标主题名称", "当前所选图标主题的名称。", Some("icon_theme$string"), FieldRef::Structured(StructuredField::IconThemeName), true, None)], seq![setting_of(USER, "模式", "选择使用选定的浅色或深色图标主题，或跟随系统外观设置。", Some("icon_theme"), FieldRef::Structured(StructuredField::IconThemeMode), true, None), setting_of(USER, "浅色图标主题", "当模式设为浅色，或模式设为跟随系统且系统处于浅色模式时使用的图标主题。", Some("icon_theme.light"), FieldRef::Structured(StructuredField::IconThemeLight), true, None), setting_of(USER, "深色图标主题", "当模式设为深色，或模式设为跟随系统且系统处于深色模式时使用的图标主题。", Some("icon_theme.dark"), FieldRef::Structured(StructuredField::IconThemeDark), true, None)]]);
    items.push(SettingsPageItem::DynamicItem(DynamicItem {
        discriminant: setting_item(
            USER,
            "图标主题",
            "Prism 用于文件和目录的自定义图标集。",
            Some("icon_theme$"),
            FieldRef::Structured(StructuredField::IconThemeVariant),
            true,
            None,
        ),
        variant_fields: d1,
    }));
    assert(outline(items@) =~= theme_outline());
    assert(settings_have_paths(items@));
    items
}

/// The entries of the section `buffer_font`, as values.
pub open spec fn buffer_font_outline() -> Seq<OutlineEntry> {
    seq![
        OutlineEntry::Header("编辑区字体"),
        OutlineEntry::Setting(setting_of(USER, "字体族", "编辑器文本使用的字体族。", Some("buffer_font_family"), FieldRef::Text(FieldAccess::Direct("theme.buffer_font_family", &[])), true, None)),
        OutlineEntry::Setting(setting_of(USER, "字号", "编辑器文本的字号。", Some("buffer_font_size"), FieldRef::Text(FieldAccess::Direct("theme.buffer_font_size", &[])), true, None)),
        OutlineEntry::Setting(setting_of(USER, "字重", "编辑器文本的字重（100-900）。", Some("buffer_font_weight"), FieldRef::Text(FieldAccess::Direct("theme.buffer_font_weight", &[])), true, None)),
        OutlineEntry::Dynamic(setting_of(USER, "行高", "编辑器文本的行高。", Some("buffer_line_height$"), FieldRef::Structured(StructuredField::BufferLineHeightVariant), true, None), seq![seq![], seq![], seq![setting_of(USER, "自定义行高", "自定义行高值（最小为 1.0）。", Some("buffer_line_height"), FieldRef::Structured(StructuredField::BufferLineHeightCustom), true, None)]]),
        OutlineEntry::Setting(setting_of(USER, "字体特性", "在文本缓冲区渲染时启用的 OpenType 特性。", Some("buffer_font_features"), FieldRef::Text(FieldAccess::Direct("theme.buffer_font_features", &[])), false, None)),
        OutlineEntry::Setting(setting_of(USER, "后备字体", "文本缓冲区渲染时使用的后备字体。", Some("buffer_font_fallbacks"), FieldRef::Text(FieldAccess::Direct("theme.buffer_font_fallbacks", &[])), false, None)),
    ]
}

fn buffer_font_section() -> (items: Vec<SettingsPageItem>)
    ensures
        outline(items@) == buffer_font_outline(),
        items_well_formed(items@),
{
    let mut items: Vec<SettingsPageItem> = Vec::new();
    items.push(SettingsPageItem::SectionHeader("编辑区字体"));
    items.push(SettingsPageItem::SettingItem(setting_item(
                USER,
                "字体族",
                "编辑器文本使用的字体族。",
                Some("buffer_font_family"),
                FieldRef::Text(FieldAccess::Direct("theme.buffer_font_family", &[])),
                true,
                None,
            )));
    items.push(SettingsPageItem::SettingItem(setting_item(
                USER,
                "字号",
                "编辑器文本的字号。",
                Some("buffer_font_size"),
                FieldRef::Text(FieldAccess::Direct("theme.buffer_font_size", &[])),
                true,
                None,
            )));
    items.push(SettingsPageItem::SettingItem(setting_item(
                USER,
                "字重",
                "编辑器文本的字重（100-900）。",
                Some("buffer_font_weight"),
                FieldRef::Text(FieldAccess::Direct("theme.buffer_font_weight", &[])),
                true,
                None,
            )));
    let d0_0: Vec<SettingItem> = vec![];
    assert(d0_0@ =~= seq![]);
    let d0_1: Vec<SettingItem> = vec![];
    assert(d0_1@ =~= seq![]);
    let d0_2: Vec<SettingItem> = vec![setting_item(
            USER,
            "自定义行高",
            "自定义行高值（最小为 1.0）。",
            Some("buffer_line_height"),
            FieldRef::Structured(StructuredField::BufferLineHeightCustom),
            true,
            None,
        )];
    assert(d0_2@ =~= seq![setting_of(USER, "自定义行高", "自定义行高值（最小为 1.0）。", Some("buffer_line_height"), FieldRef::Structured(StructuredField::BufferLineHeightCustom), true, None)]);
    let d0 = vec![d0_0, d0_1, d0_2];
    assert(variant_outlines(d0@) =~= seq![seq![], seq![], seq![setting_of(USER, "自定义行高", "自定义行高值（最小为 1.0）。", Some("buffer_line_height"), FieldRef::Structured(StructuredField::BufferLineHeightCustom), true, None)]]);
    items.push(SettingsPageItem::DynamicItem(DynamicItem {
        discriminant: setting_item(
            USER,
            "行高",
            "编辑器文本的行高。",
            Some("buffer_line_height$"),
            FieldRef::Structured(StructuredField::BufferLineHeightVariant),
            true,
            None,
        ),
        variant_fields: d0,
    }));
    items.push(SettingsPageItem::SettingItem(setting_item(
                USER,
                "字体特性",
                "在文本缓冲区渲染时启用的 OpenType 特性。",
                Some("buffer_font_features"),
                FieldRef::Text(FieldAccess::Direct("theme.buffer_font_features", &[])),
                false,
                None,
            )));
    items.push(SettingsPageItem::SettingItem(setting_item(
                USER,
                "后备字体",
                "文本缓冲区渲染时使用的后备字体。",
                Some("buffer_font_fallbacks"),
                FieldRef::Text(FieldAccess::Direct("theme.buffer_font_fallbacks", &[])),
                false,
                None,
            )));
    assert(outline(items@) =~= buffer_font_outline());
    assert(settings_have_paths(items@));
    items
}

/// The entries of the section `ui_font`, as values.
pub open spec fn ui_font_outline() -> Seq<OutlineEntry> {
    seq![
        OutlineEntry::Header("界面字体"),
        OutlineEntry::Setting(setting_of(USER, "字体族", "界面元素使用的字体族。", Some("ui_font_family"), FieldRef::Text(FieldAccess::Direct("theme.ui_font_family", &[])), true, None)),
        OutlineEntry::Setting(setting_of(USER, "字号", "界面元素的字号。", Some("ui_font_size"), FieldRef::Text(FieldAccess::Direct("theme.ui_font_size", &[])), true, None)),
        OutlineEntry::Setting(setting_of(USER, "字重", "界面元素的字重（100-900）。", Some("ui_font_weight"), FieldRef::Text(FieldAccess::Direct("theme.ui_font_weight", &[])), true, None)),
        OutlineEntry::Setting(setting_of(USER, "字体特性", "在界面元素渲染时启用的 OpenType 特性。", Some("ui_font_features"), FieldRef::Text(FieldAccess::Direct("theme.ui_font_features", &[])), false, None)),
        OutlineEntry::Setting(setting_of(USER, "后备字体", "界面渲染时使用的后备字体。", Some("ui_font_fallbacks"), FieldRef::Text(FieldAccess::Direct("theme.ui_font_fallbacks", &[])), false, None)),
    ]
}

fn ui_font_section() -> (items: Vec<SettingsPageItem>)
    ensures
        outline(items@) == ui_font_outline(),
        items_well_formed(items@),
{
    let mut items: Vec<SettingsPageItem> = Vec::new();
    items.push(SettingsPageItem::SectionHeader("界面字体"));
    items.push(SettingsPageItem::SettingItem(setting_item(
                USER,
                "字体族",
                "界面元素使用的字体族。",
                Some("ui_font_family"),
                FieldRef::Text(FieldAccess::Direct("theme.ui_font_family", &[])),
                true,
                None,
            )));
    items.push(SettingsPageItem::SettingItem(setting_item(
                USER,
                "字号",
                "界面元素的字号。",
                Some("ui_font_size"),
                FieldRef::Text(FieldAccess::Direct("theme.ui_font_size", &[])),
                true,
                None,
            )));
    items.push(SettingsPageItem::SettingItem(setting_item(
                USER,
                "字重",
                "界面元素的字重（100-900）。",
                Some("ui_font_weight"),
                FieldRef::Text(FieldAccess::Direct("theme.ui_font_weight", &[])),
                true,
                None,
            )));
    items.push(SettingsPageItem::SettingItem(setting_item(
                USER,
                "字体特性",
                "在界面元素渲染时启用的 OpenType 特性。",
                Some("ui_font_features"),
                FieldRef::Text(FieldAccess::Direct("theme.ui_font_features", &[])),
                false,
                None,
            )));
    items.push(SettingsPageItem::SettingItem(setting_item(
                USER,
                "后备字体",
                "界面渲染时使用的后备字体。",
                Some("ui_font_fallbacks"),
                FieldRef::Text(FieldAccess::Direct("theme.ui_font_fallbacks", &[])),
                false,
                None,
            )));
    assert(outline(items@) =~= ui_font_outline());
    assert(settings_have_paths(items@));
    items
}

/// The entries of the section `agent_panel_font`, as values.
pub open spec fn agent_panel_font_outline() -> Seq<OutlineEntry> {
    seq![
        OutlineEntry::Header("Agent 面板字体"),
        OutlineEntry::Setting(setting_of(USER, "界面字号", "Agent 面板中 Agent 回复文本的字号。未设置时回退为常规界面字号。", Some("agent_ui_font_size"), FieldRef::Text(FieldAccess::WithFallback("theme.agent_ui_font_size", "theme.ui_font_size", &[])), true, None)),
        OutlineEntry::Setting(setting_of(USER, "编辑区字号", "Agent 面板中用户消息文本的字号。", Some("agent_buffer_font_size"), FieldRef::Text(FieldAccess::WithFallback("theme.agent_buffer_font_size", "theme.buffer_font_size", &[])), true, None)),
    ]
}

fn agent_panel_font_section() -> (items: Vec<SettingsPageItem>)
    ensures
        outline(items@) == agent_panel_font_outline(),
        items_well_formed(items@),
{
    let mut items: Vec<SettingsPageItem> = Vec::new();
    items.push(SettingsPageItem::SectionHeader("Agent 面板字体"));
    items.push(SettingsPageItem::SettingItem(setting_item(
                USER,
                "界面字号",
                "Agent 面板中 Agent 回复文本的字号。未设置时回退为常规界面字号。",
                Some("agent_ui_font_size"),
                FieldRef::Text(FieldAccess::WithFallback("theme.agent_ui_font_size", "theme.ui_font_size", &[])),
                true,
                None,
            )));
    items.push(SettingsPageItem::SettingItem(setting_item(
                USER,
                "编辑区字号",
                "Agent 面板中用户消息文本的字号。",
                Some("agent_buffer_font_size"),
                FieldRef::Text(FieldAccess::WithFallback("theme.agent_buffer_font_size", "theme.buffer_font_size", &[])),
                true,
                None,
            )));
    assert(outline(items@) =~= agent_panel_font_outline());
    assert(settings_have_paths(items@));
    items
}

/// The entries of the section `text_rendering`, as values.
pub open spec fn text_rendering_outline() -> Seq<OutlineEntry> {
    seq![
        OutlineEntry::Header("文本渲染"),
        OutlineEntry::Setting(setting_of(USER, "文本渲染模式", "要使用的文本渲染模式。", Some("text_rendering_mode"), FieldRef::Text(FieldAccess::Direct("workspace.text_rendering_mode", &[])), true, None)),
    ]
}

fn text_rendering_section() -> (items: Vec<SettingsPageItem>)
    ensures
        outline(items@) == text_rendering_outline(),
        items_well_formed(items@),
{
    let mut items: Vec<SettingsPageItem> = Vec::new();
    items.push(SettingsPageItem::SectionHeader("文本渲染"));
    items.push(SettingsPageItem::SettingItem(setting_item(
                USER,
                "文本渲染模式",
                "要使用的文本渲染模式。",
                Some("text_rendering_mode"),
                FieldRef::Text(FieldAccess::Direct("workspace.text_rendering_mode", &[])),
                true,
                None,
            )));
    assert(outline(items@) =~= text_rendering_outline());
    assert(settings_have_paths(items@));
    items
}

/// The entries of the section `cursor`, as values.
pub open spec fn cursor_outline() -> Seq<OutlineEntry> {
    seq![
        OutlineEntry::Header("光标"),
        OutlineEntry::Setting(setting_of(USER, "多光标修饰键", "添加多个光标时使用的修饰键。", Some("multi_cursor_modifier"), FieldRef::Text(FieldAccess::Direct("editor.multi_cursor_modifier", &[])), true, None)),
        OutlineEntry::Setting(setting_of(USER, "光标闪烁", "编辑器中的光标是否闪烁。", Some("cursor_blink"), FieldRef::Text(FieldAccess::Direct("editor.cursor_blink", &[])), true, None)),
        OutlineEntry::Setting(setting_of(USER, "光标形状", "编辑器使用的光标形状。", Some("cursor_shape"), FieldRef::Text(FieldAccess::Direct("editor.cursor_shape", &[])), true, None)),
        OutlineEntry::Setting(setting_of(USER, "隐藏鼠标", "在何时隐藏鼠标光标。", Some("hide_mouse"), FieldRef::Text(FieldAccess::Direct("editor.hide_mouse", &[])), true, None)),
    ]
}

fn cursor_section() -> (items: Vec<SettingsPageItem>)
    ensures
        outline(items@) == cursor_outline(),
        items_well_formed(items@),
{
    let mut items: Vec<SettingsPageItem> = Vec::new();
    items.push(SettingsPageItem::SectionHeader("光标"));
    items.push(SettingsPageItem::SettingItem(setting_item(
                USER,
                "多光标修饰键",
                "添加多个光标时使用的修饰键。",
                Some("multi_cursor_modifier"),
                FieldRef::Text(FieldAccess::Direct("editor.multi_cursor_modifier", &[])),
                true,
                None,
            )));
    items.push(SettingsPageItem::SettingItem(setting_item(
                USER,
                "光标闪烁",
                "编辑器中的光标是否闪烁。",
                Some("cursor_blink"),
                FieldRef::Text(FieldAccess::Direct("editor.cursor_blink", &[])),
                true,
                None,
            )));
    items.push(SettingsPageItem::SettingItem(setting_item(
                USER,
                "光标形状",
                "编辑器使用的光标形状。",
                Some("cursor_shape"),
                FieldRef::Text(FieldAccess::Direct("editor.cursor_shape", &[])),
                true,
                None,
            )));
    items.push(SettingsPageItem::SettingItem(setting_item(
                USER,
                "隐藏鼠标",
                "在何时隐藏鼠标光标。",
                Some("hide_mouse"),
                FieldRef::Text(FieldAccess::Direct("editor.hide_mouse", &[])),
                true,
                None,
            )));
    assert(outline(items@) =~= cursor_outline());
    assert(settings_have_paths(items@));
    items
}

/// The entries of the section `highlighting`, as values.
pub open spec fn highlighting_outline() -> Seq<OutlineEntry> {
    seq![
        OutlineEntry::Header("高亮"),
        OutlineEntry::Setting(setting_of(USER, "无用代码淡化", "未使用代码的淡化程度（0.0 - 0.9）。", Some("unnecessary_code_fade"), FieldRef::Text(FieldAccess::Direct("theme.unnecessary_code_fade", &[])), true, None)),
        OutlineEntry::Setting(setting_of(USER, "当前行高亮", "如何高亮当前行。", Some("current_line_highlight"), FieldRef::Text(FieldAccess::Direct("editor.current_line_highlight", &[])), true, None)),
        OutlineEntry::Setting(setting_of(USER, "选中文本高亮", "高亮所有与选中文本相同的内容。", Some("selection_highlight"), FieldRef::Text(FieldAccess::Direct("editor.selection_highlight", &[])), true, None)),
        OutlineEntry::Setting(setting_of(USER, "圆角选区", "文本选区是否使用圆角。", Some("rounded_selection"), FieldRef::Text(FieldAccess::Direct("editor.rounded_selection", &[])), true, None)),
        OutlineEntry::Setting(setting_of(USER, "高亮最小对比度", "在高亮背景上渲染文本时需要保持的最小 APCA 感知对比度。", Some("minimum_contrast_for_highlights"), FieldRef::Text(FieldAccess::Direct("editor.minimum_contrast_for_highlights", &[])), true, None)),
    ]
}

fn highlighting_section() -> (items: Vec<SettingsPageItem>)
    ensures
        outline(items@) == highlighting_outline(),
        items_well_formed(items@),
{
    let mut items: Vec<SettingsPageItem> = Vec::new();
    items.push(SettingsPageItem::SectionHeader("高亮"));
    items.push(SettingsPageItem::SettingItem(setting_item(
                USER,
                "无用代码淡化",
                "未使用代码的淡化程度（0.0 - 0.9）。",
                Some("unnecessary_code_fade"),
                FieldRef::Text(FieldAccess::Direct("theme.unnecessary_code_fade", &[])),
                true,
                None,
            )));
    items.push(SettingsPageItem::SettingItem(setting_item(
                USER,
                "当前行高亮",
                "如何高亮当前行。",
                Some("current_line_highlight"),
                FieldRef::Text(FieldAccess::Direct("editor.current_line_highlight", &[])),
                true,
                None,
            )));
    items.push(SettingsPageItem::SettingItem(setting_item(
                USER,
                "选中文本高亮",
                "高亮所有与选中文本相同的内容。",
                Some("selection_highlight"),
                FieldRef::Text(FieldAccess::Direct("editor.selection_highlight", &[])),
                true,
                None,
            )));
    items.push(SettingsPageItem::SettingItem(setting_item(
                USER,
                "圆角选区",
                "文本选区是否使用圆角。",
                Some("rounded_selection"),
                FieldRef::Text(FieldAccess::Direct("editor.rounded_selection", &[])),
                true,
                None,
            )));
    items.push(SettingsPageItem::SettingItem(setting_item(
                USER,
                "高亮最小对比度",
                "在高亮背景上渲染文本时需要保持的最小 APCA 感知对比度。",
                Some("minimum_contrast_for_highlights"),
                FieldRef::Text(FieldAccess::Direct("editor.minimum_contrast_for_highlights", &[])),
                true,
                None,
            )));
    assert(outline(items@) =~= highlighting_outline());
    assert(settings_have_paths(items@));
    items
}

/// The entries of the section `guides`, as values.
pub open spec fn guides_outline() -> Seq<OutlineEntry> {
    seq![
        OutlineEntry::Header("辅助线"),
        OutlineEntry::Setting(setting_of(USER | PROJECT, "显示换行参考线", "显示换行参考线（垂直标尺）。", Some("show_wrap_guides"), FieldRef::Text(FieldAccess::Direct("project.all_languages.defaults.show_wrap_guides", &[])), true, None)),
        OutlineEntry::Setting(setting_of(USER | PROJECT, "换行参考线位置", "在多少字符数处显示换行参考线。", Some("wrap_guides"), FieldRef::Text(FieldAccess::Direct("project.all_languages.defaults.wrap_guides", &[])), false, None)),
    ]
}

fn guides_section() -> (items: Vec<SettingsPageItem>)
    ensures
        outline(items@) == guides_outline(),
        items_well_formed(items@),
{
    let mut items: Vec<SettingsPageItem> = Vec::new();
    items.push(SettingsPageItem::SectionHeader("辅助线"));
    items.push(SettingsPageItem::SettingItem(setting_item(
                USER | PROJECT,
                "显示换行参考线",
                "显示换行参考线（垂直标尺）。",
                Some("show_wrap_guides"),
                FieldRef::Text(FieldAccess::Direct("project.all_languages.defaults.show_wrap_guides", &[])),
                true,
                None,
            )));
    items.push(SettingsPageItem::SettingItem(setting_item(
                USER | PROJECT,
                "换行参考线位置",
                "在多少字符数处显示换行参考线。",
                Some("wrap_guides"),
                FieldRef::Text(FieldAccess::Direct("project.all_languages.defaults.wrap_guides", &[])),
                false,
                None,
            )));
    assert(outline(items@) =~= guides_outline());
    assert(settings_have_paths(items@));
    items
}

/// The entries of the page, section by section.
pub open spec fn appearance_page_outline() -> Seq<OutlineEntry> {
    theme_outline() + buffer_font_outline() + ui_font_outline() + agent_panel_font_outline() + text_rendering_outline() + cursor_outline() + highlighting_outline() + guides_outline()
}

/// The "Appearance" page: themes, fonts, text rendering, the cursor, highlighting and guides.
pub fn appearance_page() -> (page: SettingsPage)
    ensures
        page.title@ == "外观"@,
        outline(page.items@) == appearance_page_outline(),
        items_well_formed(page.items@),
{
    let s0 = theme_section();
    let s1 = buffer_font_section();
    let s2 = ui_font_section();
    let s3 = agent_panel_font_section();
    let s4 = text_rendering_section();
    let s5 = cursor_section();
    let s6 = highlighting_section();
    let s7 = guides_section();
    let ghost v0 = s0@;
    let ghost v1 = s1@;
    let ghost v2 = s2@;
    let ghost v3 = s3@;
    let ghost v4 = s4@;
    let ghost v5 = s5@;
    let ghost v6 = s6@;
    let ghost v7 = s7@;
    let sections = vec![s0, s1, s2, s3, s4, s5, s6, s7];
    let ghost all = sections@;
    let items = concat_sections(sections);
    proof {
        let parts = seq![v0, v1, v2, v3, v4, v5, v6, v7];
        assert(views_of(all) =~= parts);
        reveal_with_fuel(Seq::flatten, 9);
        assert(items@ =~= v0 + v1 + v2 + v3 + v4 + v5 + v6 + v7);
        lemma_well_formed_concat(v0, v1);
        lemma_well_formed_concat(v0 + v1, v2);
        lemma_well_formed_concat(v0 + v1 + v2, v3);
        lemma_well_formed_concat(v0 + v1 + v2 + v3, v4);
        lemma_well_formed_concat(v0 + v1 + v2 + v3 + v4, v5);
        lemma_well_formed_concat(v0 + v1 + v2 + v3 + v4 + v5, v6);
        lemma_well_formed_concat(v0 + v1 + v2 + v3 + v4 + v5 + v6, v7);
    }
    SettingsPage { title: "外观", items }
}

} // verus!