//! The settings built by `window_and_layout_page`.

use vstd::prelude::*;
use crate::settings_content::FieldAccess;
use crate::settings_page::{
    DynamicItem, FieldRef, OutlineEntry, PROJECT, SettingItem, SettingsFieldMetadata, SettingsPage, SettingsPageItem,
    StructuredField, SubPage, SubPageLink, USER, concat_sections, items_well_formed, lemma_well_formed_concat, outline,
    placeholder, placeholder_of, setting_item, setting_of, settings_have_paths, variant_outlines, views_of,
};

verus! {

/// The entries of the section `status_bar`, as values.
pub open spec fn status_bar_outline() -> Seq<OutlineEntry> {
    seq![
        OutlineEntry::Header("状态栏"),
        OutlineEntry::Setting(setting_of(USER, "项目面板按钮", "在状态栏中显示项目面板按钮。", Some("project_panel.button"), FieldRef::Text(FieldAccess::Direct("project_panel.button", &["project_panel"])), true, None)),
        OutlineEntry::Setting(setting_of(USER, "当前语言按钮", "在状态栏中显示当前语言按钮。", Some("status_bar.active_language_button"), FieldRef::Text(FieldAccess::Direct("status_bar.active_language_button", &["status_bar"])), true, None)),
        OutlineEntry::Setting(setting_of(USER, "当前编码按钮", "控制何时在状态栏中显示当前编码。", Some("status_bar.active_encoding_button"), FieldRef::Text(FieldAccess::Direct("status_bar.active_encoding_button", &["status_bar"])), true, None)),
        OutlineEntry::Setting(setting_of(USER, "光标位置按钮", "在状态栏中显示光标位置按钮。", Some("status_bar.cursor_position_button"), FieldRef::Text(FieldAccess::Direct("status_bar.cursor_position_button", &["status_bar"])), true, None)),
        OutlineEntry::Setting(setting_of(USER, "项目搜索按钮", "在状态栏中显示项目搜索按钮。", Some("search.button"), FieldRef::Text(FieldAccess::Direct("editor.search.button", &["editor.search"])), true, None)),
    ]
}

fn status_bar_section() -> (items: Vec<SettingsPageItem>)
    ensures
        outline(items@) == status_bar_outline(),
        items_well_formed(items@),
{
    let mut items: Vec<SettingsPageItem> = Vec::new();
    items.push(SettingsPageItem::SectionHeader("状态栏"));
    items.push(SettingsPageItem::SettingItem(setting_item(
                USER,
                "项目面板按钮",
                "在状态栏中显示项目面板按钮。",
                Some("project_panel.button"),
                FieldRef::Text(FieldAccess::Direct("project_panel.button", &["project_panel"])),
                true,
                None,
            )));
    items.push(SettingsPageItem::SettingItem(setting_item(
                USER,
                "当前语言按钮",
                "在状态栏中显示当前语言按钮。",
                Some("status_bar.active_language_button"),
                FieldRef::Text(FieldAccess::Direct("status_bar.active_language_button", &["status_bar"])),
                true,
                None,
            )));
    items.push(SettingsPageItem::SettingItem(setting_item(
                USER,
                "当前编码按钮",
                "控制何时在状态栏中显示当前编码。",
                Some("status_bar.active_encoding_button"),
                FieldRef::Text(FieldAccess::Direct("status_bar.active_encoding_button", &["status_bar"])),
                true,
                None,
            )));
    items.push(SettingsPageItem::SettingItem(setting_item(
                USER,
                "光标位置按钮",
                "在状态栏中显示光标位置按钮。",
                Some("status_bar.cursor_position_button"),
                FieldRef::Text(FieldAccess::Direct("status_bar.cursor_position_button", &["status_bar"])),
                true,
                None,
            )));
    items.push(SettingsPageItem::SettingItem(setting_item(
                USER,
                "项目搜索按钮",
                "在状态栏中显示项目搜索按钮。",
                Some("search.button"),
                FieldRef::Text(FieldAccess::Direct("editor.search.button", &["editor.search"])),
                true,
                None,
            )));
    assert(outline(items@) =~= status_bar_outline());
    assert(settings_have_paths(items@));
    items
}

/// The entries of the section `title_bar`, as values.
pub open spec fn title_bar_outline() -> Seq<OutlineEntry> {
    seq![
        OutlineEntry::Header("标题栏"),
        OutlineEntry::Setting(setting_of(USER, "显示分支图标", "在标题栏分支切换器旁显示分支图标。", Some("title_bar.show_branch_icon"), FieldRef::Text(FieldAccess::Direct("title_bar.show_branch_icon", &["title_bar"])), true, None)),
        OutlineEntry::Setting(setting_of(USER, "显示分支名称", "在标题栏中显示分支名称按钮。", Some("title_bar.show_branch_name"), FieldRef::Text(FieldAccess::Direct("title_bar.show_branch_name", &["title_bar"])), true, None)),
        OutlineEntry::Setting(setting_of(USER, "显示项目项", "在标题栏中显示项目宿主和项目名称。", Some("title_bar.show_project_items"), FieldRef::Text(FieldAccess::Direct("title_bar.show_project_items", &["title_bar"])), true, None)),
        OutlineEntry::Setting(setting_of(USER, "显示菜单", "在标题栏中显示菜单。", Some("title_bar.show_menus"), FieldRef::Text(FieldAccess::Direct("title_bar.show_menus", &["title_bar"])), true, None)),
    ]
}

fn title_bar_section() -> (items: Vec<SettingsPageItem>)
    ensures
        outline(items@) == title_bar_outline(),
        items_well_formed(items@),
{
    let mut items: Vec<SettingsPageItem> = Vec::new();
    items.push(SettingsPageItem::SectionHeader("标题栏"));
    items.push(SettingsPageItem::SettingItem(setting_item(
                USER,
                "显示分支图标",
                "在标题栏分支切换器旁显示分支图标。",
                Some("title_bar.show_branch_icon"),
                FieldRef::Text(FieldAccess::Direct("title_bar.show_branch_icon", &["title_bar"])),
                true,
                None,
            )));
    items.push(SettingsPageItem::SettingItem(setting_item(
                USER,
                "显示分支名称",
                "在标题栏中显示分支名称按钮。",
                Some("title_bar.show_branch_name"),
                FieldRef::Text(FieldAccess::Direct("title_bar.show_branch_name", &["title_bar"])),
                true,
                None,
            )));
    items.push(SettingsPageItem::SettingItem(setting_item(
                USER,
                "显示项目项",
                "在标题栏中显示项目宿主和项目名称。",
                Some("title_bar.show_project_items"),
                FieldRef::Text(FieldAccess::Direct("title_bar.show_project_items", &["title_bar"])),
                true,
                None,
            )));
    items.push(SettingsPageItem::SettingItem(setting_item(
                USER,
                "显示菜单",
                "在标题栏中显示菜单。",
                Some("title_bar.show_menus"),
                FieldRef::Text(FieldAccess::Direct("title_bar.show_menus", &["title_bar"])),
                true,
                None,
            )));
    assert(outline(items@) =~= title_bar_outline());
    assert(settings_have_paths(items@));
    items
}

/// The entries of the section `tab_bar`, as values.
pub open spec fn tab_bar_outline() -> Seq<OutlineEntry> {
    seq![
        OutlineEntry::Header("标签栏"),
        OutlineEntry::Setting(setting_of(USER, "显示标签栏", "在编辑器中显示标签栏。", Some("tab_bar.show"), FieldRef::Text(FieldAccess::Direct("tab_bar.show", &["tab_bar"])), true, None)),
        OutlineEntry::Setting(setting_of(USER, "在标签中显示文件图标", "为标签页显示文件图标。", Some("tabs.file_icons"), FieldRef::Text(FieldAccess::Direct("tabs.file_icons", &["tabs"])), true, None)),
        OutlineEntry::Setting(setting_of(USER, "标签关闭按钮位置", "标签页中关闭按钮的位置。", Some("tabs.close_position"), FieldRef::Text(FieldAccess::Direct("tabs.close_position", &["tabs"])), true, None)),
        OutlineEntry::Setting(setting_of(USER, "最大标签数", "单个窗格允许打开的最大标签数。不会关闭未保存的标签。", Some("max_tabs"), FieldRef::Text(FieldAccess::Direct("workspace.max_tabs", &[])), false, None)),
        OutlineEntry::Setting(setting_of(USER, "显示导航历史按钮", "在标签栏中显示导航历史按钮。", Some("tab_bar.show_nav_history_buttons"), FieldRef::Text(FieldAccess::Direct("tab_bar.show_nav_history_buttons", &["tab_bar"])), true, None)),
        OutlineEntry::Setting(setting_of(USER, "显示标签栏按钮", "显示标签栏按钮（新建、拆分窗格、缩放）。", Some("tab_bar.show_tab_bar_buttons"), FieldRef::Text(FieldAccess::Direct("tab_bar.show_tab_bar_buttons", &["tab_bar"])), true, None)),
        OutlineEntry::Setting(setting_of(USER, "固定标签布局", "将固定标签显示在未固定标签上方的独立一行中。", Some("tab_bar.show_pinned_tabs_in_separate_row"), FieldRef::Text(FieldAccess::Direct("tab_bar.show_pinned_tabs_in_separate_row", &["tab_bar"])), true, None)),
    ]
}

fn tab_bar_section() -> (items: Vec<SettingsPageItem>)
    ensures
        outline(items@) == tab_bar_outline(),
        items_well_formed(items@),
{
    let mut items: Vec<SettingsPageItem> = Vec::new();
    items.push(SettingsPageItem::SectionHeader("标签栏"));
    items.push(SettingsPageItem::SettingItem(setting_item(
                USER,
                "显示标签栏",
                "在编辑器中显示标签栏。",
                Some("tab_bar.show"),
                FieldRef::Text(FieldAccess::Direct("tab_bar.show", &["tab_bar"])),
                true,
                None,
            )));
    items.push(SettingsPageItem::SettingItem(setting_item(
                USER,
                "在标签中显示文件图标",
                "为标签页显示文件图标。",
                Some("tabs.file_icons"),
                FieldRef::Text(FieldAccess::Direct("tabs.file_icons", &["tabs"])),
                true,
                None,
            )));
    items.push(SettingsPageItem::SettingItem(setting_item(
                USER,
                "标签关闭按钮位置",
                "标签页中关闭按钮的位置。",
                Some("tabs.close_position"),
                FieldRef::Text(FieldAccess::Direct("tabs.close_position", &["tabs"])),
                true,
                None,
            )));
    items.push(SettingsPageItem::SettingItem(setting_item(
                USER,
                "最大标签数",
                "单个窗格允许打开的最大标签数。不会关闭未保存的标签。",
                Some("max_tabs"),
                FieldRef::Text(FieldAccess::Direct("workspace.max_tabs", &[])),
                false,
                None,
            )));
    items.push(SettingsPageItem::SettingItem(setting_item(
                USER,
                "显示导航历史按钮",
                "在标签栏中显示导航历史按钮。",
                Some("tab_bar.show_nav_history_buttons"),
                FieldRef::Text(FieldAccess::Direct("tab_bar.show_nav_history_buttons", &["tab_bar"])),
                true,
                None,
            )));
    items.push(SettingsPageItem::SettingItem(setting_item(
                USER,
                "显示标签栏按钮",
                "显示标签栏按钮（新建、拆分窗格、缩放）。",
                Some("tab_bar.show_tab_bar_buttons"),
                FieldRef::Text(FieldAccess::Direct("tab_bar.show_tab_bar_buttons", &["tab_bar"])),
                true,
                None,
            )));
    items.push(SettingsPageItem::SettingItem(setting_item(
                USER,
                "固定标签布局",
                "将固定标签显示在未固定标签上方的独立一行中。",
                Some("tab_bar.show_pinned_tabs_in_separate_row"),
                FieldRef::Text(FieldAccess::Direct("tab_bar.show_pinned_tabs_in_separate_row", &["tab_bar"])),
                true,
                None,
            )));
    assert(outline(items@) =~= tab_bar_outline());
    assert(settings_have_paths(items@));
    items
}

/// The entries of the section `tab_settings`, as values.
pub open spec fn tab_settings_outline() -> Seq<OutlineEntry> {
    seq![
        OutlineEntry::Header("标签设置"),
        OutlineEntry::Setting(setting_of(USER, "关闭后激活", "关闭当前标签后执行的操作。", Some("tabs.activate_on_close"), FieldRef::Text(FieldAccess::Direct("tabs.activate_on_close", &["tabs"])), true, None)),
        OutlineEntry::Setting(setting_of(USER, "显示关闭按钮", "控制标签关闭按钮的显示行为。", Some("tabs.show_close_button"), FieldRef::Text(FieldAccess::Direct("tabs.show_close_button", &["tabs"])), true, None)),
    ]
}

fn tab_settings_section() -> (items: Vec<SettingsPageItem>)
    ensures
        outline(items@) == tab_settings_outline(),
        items_well_formed(items@),
{
    let mut items: Vec<SettingsPageItem> = Vec::new();
    items.push(SettingsPageItem::SectionHeader("标签设置"));
    items.push(SettingsPageItem::SettingItem(setting_item(
                USER,
                "关闭后激活",
                "关闭当前标签后执行的操作。",
                Some("tabs.activate_on_close"),
                FieldRef::Text(FieldAccess::Direct("tabs.activate_on_close", &["tabs"])),
                true,
                None,
            )));
    items.push(SettingsPageItem::SettingItem(setting_item(
                USER,
                "显示关闭按钮",
                "控制标签关闭按钮的显示行为。",
                Some("tabs.show_close_button"),
                FieldRef::Text(FieldAccess::Direct("tabs.show_close_button", &["tabs"])),
                true,
                None,
            )));
    assert(outline(items@) =~= tab_settings_outline());
    assert(settings_have_paths(items@));
    items
}

/// The entries of the section `preview_tabs`, as values.
pub open spec fn preview_tabs_outline() -> Seq<OutlineEntry> {
    seq![
        OutlineEntry::Header("预览标签"),
        OutlineEntry::Setting(setting_of(USER, "启用预览标签", "将已打开的编辑器显示为预览标签。", Some("preview_tabs.enabled"), FieldRef::Text(FieldAccess::Direct("preview_tabs.enabled", &["preview_tabs"])), true, None)),
        OutlineEntry::Setting(setting_of(USER, "从项目面板启用预览", "从项目面板单击打开时，是否以预览模式打开标签。", Some("preview_tabs.enable_preview_from_project_panel"), FieldRef::Text(FieldAccess::Direct("preview_tabs.enable_preview_from_project_panel", &["preview_tabs"])), true, None)),
        OutlineEntry::Setting(setting_of(USER, "从文件查找器启用预览", "从文件查找器选择打开时，是否以预览模式打开标签。", Some("preview_tabs.enable_preview_from_file_finder"), FieldRef::Text(FieldAccess::Direct("preview_tabs.enable_preview_from_file_finder", &["preview_tabs"])), true, None)),
        OutlineEntry::Setting(setting_of(USER, "从多缓冲区启用预览", "从多缓冲区打开时，是否以预览模式打开标签。", Some("preview_tabs.enable_preview_from_multibuffer"), FieldRef::Text(FieldAccess::Direct("preview_tabs.enable_preview_from_multibuffer", &["preview_tabs"])), true, None)),
        OutlineEntry::Setting(setting_of(USER, "代码导航打开多缓冲区时启用预览", "使用代码导航打开多缓冲区时，是否以预览模式打开标签。", Some("preview_tabs.enable_preview_multibuffer_from_code_navigation"), FieldRef::Text(FieldAccess::Direct("preview_tabs.enable_preview_multibuffer_from_code_navigation", &["preview_tabs"])), true, None)),
        OutlineEntry::Setting(setting_of(USER, "代码导航打开文件时启用预览", "使用代码导航打开单个文件时，是否以预览模式打开标签。", Some("preview_tabs.enable_preview_file_from_code_navigation"), FieldRef::Text(FieldAccess::Direct("preview_tabs.enable_preview_file_from_code_navigation", &["preview_tabs"])), true, None)),
        OutlineEntry::Setting(setting_of(USER, "代码导航时保持预览模式", "使用代码导航从当前标签跳转时，是否保持其为预览模式。如果 `enable_preview_file_from_code_navigation` 或 `enable_preview_multibuffer_from_code_navigation` 也为 true，新标签可能会替换现有标签。", Some("preview_tabs.enable_keep_preview_on_code_navigation"), FieldRef::Text(FieldAccess::Direct("preview_tabs.enable_keep_preview_on_code_navigation", &["preview_tabs"])), true, None)),
    ]
}

fn preview_tabs_section() -> (items: Vec<SettingsPageItem>)
    ensures
        outline(items@) == preview_tabs_outline(),
        items_well_formed(items@),
{
    let mut items: Vec<SettingsPageItem> = Vec::new();
    items.push(SettingsPageItem::SectionHeader("预览标签"));
    items.push(SettingsPageItem::SettingItem(setting_item(
                USER,
                "启用预览标签",
                "将已打开的编辑器显示为预览标签。",
                Some("preview_tabs.enabled"),
                FieldRef::Text(FieldAccess::Direct("preview_tabs.enabled", &["preview_tabs"])),
                true,
                None,
            )));
    items.push(SettingsPageItem::SettingItem(setting_item(
                USER,
                "从项目面板启用预览",
                "从项目面板单击打开时，是否以预览模式打开标签。",
                Some("preview_tabs.enable_preview_from_project_panel"),
                FieldRef::Text(FieldAccess::Direct("preview_tabs.enable_preview_from_project_panel", &["preview_tabs"])),
                true,
                None,
            )));
    items.push(SettingsPageItem::SettingItem(setting_item(
                USER,
                "从文件查找器启用预览",
                "从文件查找器选择打开时，是否以预览模式打开标签。",
                Some("preview_tabs.enable_preview_from_file_finder"),
                FieldRef::Text(FieldAccess::Direct("preview_tabs.enable_preview_from_file_finder", &["preview_tabs"])),
                true,
                None,
            )));
    items.push(SettingsPageItem::SettingItem(setting_item(
                USER,
                "从多缓冲区启用预览",
                "从多缓冲区打开时，是否以预览模式打开标签。",
                Some("preview_tabs.enable_preview_from_multibuffer"),
                FieldRef::Text(FieldAccess::Direct("preview_tabs.enable_preview_from_multibuffer", &["preview_tabs"])),
                true,
                None,
            )));
    items.push(SettingsPageItem::SettingItem(setting_item(
                USER,
                "代码导航打开多缓冲区时启用预览",
                "使用代码导航打开多缓冲区时，是否以预览模式打开标签。",
                Some("preview_tabs.enable_preview_multibuffer_from_code_navigation"),
                FieldRef::Text(FieldAccess::Direct("preview_tabs.enable_preview_multibuffer_from_code_navigation", &["preview_tabs"])),
                true,
                None,
            )));
    items.push(SettingsPageItem::SettingItem(setting_item(
                USER,
                "代码导航打开文件时启用预览",
                "使用代码导航打开单个文件时，是否以预览模式打开标签。",
                Some("preview_tabs.enable_preview_file_from_code_navigation"),
                FieldRef::Text(FieldAccess::Direct("preview_tabs.enable_preview_file_from_code_navigation", &["preview_tabs"])),
                true,
                None,
            )));
    items.push(SettingsPageItem::SettingItem(setting_item(
                USER,
                "代码导航时保持预览模式",
                "使用代码导航从当前标签跳转时，是否保持其为预览模式。如果 `enable_preview_file_from_code_navigation` 或 `enable_preview_multibuffer_from_code_navigation` 也为 true，新标签可能会替换现有标签。",
                Some("preview_tabs.enable_keep_preview_on_code_navigation"),
                FieldRef::Text(FieldAccess::Direct("preview_tabs.enable_keep_preview_on_code_navigation", &["preview_tabs"])),
                true,
                None,
            )));
    assert(outline(items@) =~= preview_tabs_outline());
    assert(settings_have_paths(items@));
    items
}

/// The entries of the section `layout`, as values.
pub open spec fn layout_outline() -> Seq<OutlineEntry> {
    seq![
        OutlineEntry::Header("布局"),
        OutlineEntry::Setting(setting_of(USER, "底部停靠区布局", "底部停靠区的布局模式。", Some("bottom_dock_layout"), FieldRef::Text(FieldAccess::Direct("workspace.bottom_dock_layout", &[])), true, None)),
        OutlineEntry::Setting(setting_of(USER, "居中布局左边距", "居中布局的左侧内边距。", Some("centered_layout.left_padding"), FieldRef::Text(FieldAccess::Direct("workspace.centered_layout.left_padding", &["workspace.centered_layout"])), true, None)),
        OutlineEntry::Setting(setting_of(USER, "居中布局右边距", "居中布局的右侧内边距。", Some("centered_layout.right_padding"), FieldRef::Text(FieldAccess::Direct("workspace.centered_layout.right_padding", &["workspace.centered_layout"])), true, None)),
    ]
}

fn layout_section() -> (items: Vec<SettingsPageItem>)
    ensures
        outline(items@) == layout_outline(),
        items_well_formed(items@),
{
    let mut items: Vec<SettingsPageItem> = Vec::new();
    items.push(SettingsPageItem::SectionHeader("布局"));
    items.push(SettingsPageItem::SettingItem(setting_item(
                USER,
                "底部停靠区布局",
                "底部停靠区的布局模式。",
                Some("bottom_dock_layout"),
                FieldRef::Text(FieldAccess::Direct("workspace.bottom_dock_layout", &[])),
                true,
                None,
            )));
    items.push(SettingsPageItem::SettingItem(setting_item(
                USER,
                "居中布局左边距",
                "居中布局的左侧内边距。",
                Some("centered_layout.left_padding"),
                FieldRef::Text(FieldAccess::Direct("workspace.centered_layout.left_padding", &["workspace.centered_layout"])),
                true,
                None,
            )));
    items.push(SettingsPageItem::SettingItem(setting_item(
                USER,
                "居中布局右边距",
                "居中布局的右侧内边距。",
                Some("centered_layout.right_padding"),
                FieldRef::Text(FieldAccess::Direct("workspace.centered_layout.right_padding", &["workspace.centered_layout"])),
                true,
                None,
            )));
    assert(outline(items@) =~= layout_outline());
    assert(settings_have_paths(items@));
    items
}

/// The entries of the section `window`, as values.
pub open spec fn window_outline() -> Seq<OutlineEntry> {
    seq![
        OutlineEntry::Header("窗口"),
        OutlineEntry::Setting(setting_of(USER, "使用系统窗口标签", "（仅 macOS）是否允许多个窗口以标签方式合并。", Some("use_system_window_tabs"), FieldRef::Text(FieldAccess::Direct("workspace.use_system_window_tabs", &[])), true, None)),
        OutlineEntry::Setting(setting_of(USER, "窗口装饰", "（仅 Linux）由 Prism 还是系统合成器绘制窗口装饰。", Some("window_decorations"), FieldRef::Text(FieldAccess::Direct("workspace.window_decorations", &[])), true, None)),
    ]
}

fn window_section() -> (items: Vec<SettingsPageItem>)
    ensures
        outline(items@) == window_outline(),
        items_well_formed(items@),
{
    let mut items: Vec<SettingsPageItem> = Vec::new();
    items.push(SettingsPageItem::SectionHeader("窗口"));
    items.push(SettingsPageItem::SettingItem(setting_item(
                USER,
                "使用系统窗口标签",
                "（仅 macOS）是否允许多个窗口以标签方式合并。",
                Some("use_system_window_tabs"),
                FieldRef::Text(FieldAccess::Direct("workspace.use_system_window_tabs", &[])),
                true,
                None,
            )));
    items.push(SettingsPageItem::SettingItem(setting_item(
                USER,
                "窗口装饰",
                "（仅 Linux）由 Prism 还是系统合成器绘制窗口装饰。",
                Some("window_decorations"),
                FieldRef::Text(FieldAccess::Direct("workspace.window_decorations", &[])),
                true,
                None,
            )));
    assert(outline(items@) =~= window_outline());
    assert(settings_have_paths(items@));
    items
}

/// The entries of the section `pane_modifiers`, as values.
pub open spec fn pane_modifiers_outline() -> Seq<OutlineEntry> {
    seq![
        OutlineEntry::Header("窗格修饰"),
        OutlineEntry::Setting(setting_of(USER, "非活动透明度", "非活动窗格的透明度（0.0 - 1.0）。", Some("active_pane_modifiers.inactive_opacity"), FieldRef::Text(FieldAccess::Direct("workspace.active_pane_modifiers.inactive_opacity", &["workspace.active_pane_modifiers"])), true, None)),
        OutlineEntry::Setting(setting_of(USER, "边框大小", "活动窗格周围边框的大小。", Some("active_pane_modifiers.border_size"), FieldRef::Text(FieldAccess::Direct("workspace.active_pane_modifiers.border_size", &["workspace.active_pane_modifiers"])), true, None)),
        OutlineEntry::Setting(setting_of(USER, "放大视图边距", "为放大后的窗格显示内边距。", Some("zoomed_padding"), FieldRef::Text(FieldAccess::Direct("workspace.zoomed_padding", &[])), true, None)),
    ]
}

fn pane_modifiers_section() -> (items: Vec<SettingsPageItem>)
    ensures
        outline(items@) == pane_modifiers_outline(),
        items_well_formed(items@),
{
    let mut items: Vec<SettingsPageItem> = Vec::new();
    items.push(SettingsPageItem::SectionHeader("窗格修饰"));
    items.push(SettingsPageItem::SettingItem(setting_item(
                USER,
                "非活动透明度",
                "非活动窗格的透明度（0.0 - 1.0）。",
                Some("active_pane_modifiers.inactive_opacity"),
                FieldRef::Text(FieldAccess::Direct("workspace.active_pane_modifiers.inactive_opacity", &["workspace.active_pane_modifiers"])),
                true,
                None,
            )));
    items.push(SettingsPageItem::SettingItem(setting_item(
                USER,
                "边框大小",
                "活动窗格周围边框的大小。",
                Some("active_pane_modifiers.border_size"),
                FieldRef::Text(FieldAccess::Direct("workspace.active_pane_modifiers.border_size", &["workspace.active_pane_modifiers"])),
                true,
                None,
            )));
    items.push(SettingsPageItem::SettingItem(setting_item(
                USER,
                "放大视图边距",
                "为放大后的窗格显示内边距。",
                Some("zoomed_padding"),
                FieldRef::Text(FieldAccess::Direct("workspace.zoomed_padding", &[])),
                true,
                None,
            )));
    assert(outline(items@) =~= pane_modifiers_outline());
    assert(settings_have_paths(items@));
    items
}

/// The entries of the section `pane_split_direction`, as values.
pub open spec fn pane_split_direction_outline() -> Seq<OutlineEntry> {
    seq![
        OutlineEntry::Header("窗格拆分方向"),
        OutlineEntry::Setting(setting_of(USER, "垂直拆分方向", "垂直拆分时的方向。", Some("pane_split_direction_vertical"), FieldRef::Text(FieldAccess::Direct("workspace.pane_split_direction_vertical", &[])), true, None)),
        OutlineEntry::Setting(setting_of(USER, "水平拆分方向", "水平拆分时的方向。", Some("pane_split_direction_horizontal"), FieldRef::Text(FieldAccess::Direct("workspace.pane_split_direction_horizontal", &[])), true, None)),
    ]
}

fn pane_split_direction_section() -> (items: Vec<SettingsPageItem>)
    ensures
        outline(items@) == pane_split_direction_outline(),
        items_well_formed(items@),
{
    let mut items: Vec<SettingsPageItem> = Vec::new();
    items.push(SettingsPageItem::SectionHeader("窗格拆分方向"));
    items.push(SettingsPageItem::SettingItem(setting_item(
                USER,
                "垂直拆分方向",
                "垂直拆分时的方向。",
                Some("pane_split_direction_vertical"),
                FieldRef::Text(FieldAccess::Direct("workspace.pane_split_direction_vertical", &[])),
                true,
                None,
            )));
    items.push(SettingsPageItem::SettingItem(setting_item(
                USER,
                "水平拆分方向",
                "水平拆分时的方向。",
                Some("pane_split_direction_horizontal"),
                FieldRef::Text(FieldAccess::Direct("workspace.pane_split_direction_horizontal", &[])),
                true,
                None,
            )));
    assert(outline(items@) =~= pane_split_direction_outline());
    assert(settings_have_paths(items@));
    items
}

/// The entries of the page, section by section.
pub open spec fn window_and_layout_page_outline() -> Seq<OutlineEntry> {
    status_bar_outline() + title_bar_outline() + tab_bar_outline() + tab_settings_outline() + preview_tabs_outline() + layout_outline() + window_outline() + pane_modifiers_outline() + pane_split_direction_outline()
}

/// The "Window & Layout" page: status bar, title bar, tab bar, tabs, preview tabs,
/// layout, window and pane settings.
pub fn window_and_layout_page() -> (page: SettingsPage)
    ensures
        page.title@ == "窗口与布局"@,
        outline(page.items@) == window_and_layout_page_outline(),
        items_well_formed(page.items@),
{
    let s0 = status_bar_section();
    let s1 = title_bar_section();
    let s2 = tab_bar_section();
    let s3 = tab_settings_section();
    let s4 = preview_tabs_section();
    let s5 = layout_section();
    let s6 = window_section();
    let s7 = pane_modifiers_section();
    let s8 = pane_split_direction_section();
    let ghost v0 = s0@;
    let ghost v1 = s1@;
    let ghost v2 = s2@;
    let ghost v3 = s3@;
    let ghost v4 = s4@;
    let ghost v5 = s5@;
    let ghost v6 = s6@;
    let ghost v7 = s7@;
    let ghost v8 = s8@;
    let sections = vec![s0, s1, s2, s3, s4, s5, s6, s7, s8];
    let ghost all = sections@;
    let items = concat_sections(sections);
    proof {
        let parts = seq![v0, v1, v2, v3, v4, v5, v6, v7, v8];
        assert(views_of(all) =~= parts);
        reveal_with_fuel(Seq::flatten, 10);
        assert(items@ =~= v0 + v1 + v2 + v3 + v4 + v5 + v6 + v7 + v8);
        lemma_well_formed_concat(v0, v1);
        lemma_well_formed_concat(v0 + v1, v2);
        lemma_well_formed_concat(v0 + v1 + v2, v3);
        lemma_well_formed_concat(v0 + v1 + v2 + v3, v4);
        lemma_well_formed_concat(v0 + v1 + v2 + v3 + v4, v5);
        lemma_well_formed_concat(v0 + v1 + v2 + v3 + v4 + v5, v6);
        lemma_well_formed_concat(v0 + v1 + v2 + v3 + v4 + v5 + v6, v7);
        lemma_well_formed_concat(v0 + v1 + v2 + v3 + v4 + v5 + v6 + v7, v8);
    }
    SettingsPage { title: "窗口与布局", items }
}

} // verus!