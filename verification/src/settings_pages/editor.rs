//! The settings built by `editor_page`.

use vstd::prelude::*;
use crate::settings_content::FieldAccess;
use crate::settings_page::{
    DynamicItem, FieldRef, OutlineEntry, PROJECT, SettingItem, SettingsFieldMetadata, SettingsPage, SettingsPageItem,
    StructuredField, SubPage, SubPageLink, USER, concat_sections, items_well_formed, lemma_well_formed_concat, outline,
    placeholder, placeholder_of, setting_item, setting_of, settings_have_paths, variant_outlines, views_of,
};
use crate::settings_pages::language::{language_settings_data, language_settings_outline};

verus! {

/// The entries of the section `auto_save`, as values.
pub open spec fn auto_save_outline() -> Seq<OutlineEntry> {
    seq![
        OutlineEntry::Header("自动保存"),
        OutlineEntry::Dynamic(setting_of(USER, "自动保存模式", "在何时自动保存缓冲区改动。", Some("autosave$"), FieldRef::Structured(StructuredField::AutosaveVariant), true, None), seq![seq![], seq![setting_of(USER, "延迟（毫秒）", "在无操作一段时间后保存（单位：毫秒）。", Some("autosave.after_delay.milliseconds"), FieldRef::Structured(StructuredField::AutosaveDelay), true, None)], seq![], seq![]]),
    ]
}

fn auto_save_section() -> (items: Vec<SettingsPageItem>)
    ensures
        outline(items@) == auto_save_outline(),
        items_well_formed(items@),
{
    let mut items: Vec<SettingsPageItem> = Vec::new();
    items.push(SettingsPageItem::SectionHeader("自动保存"));
    let d0_0: Vec<SettingItem> = vec![];
    assert(d0_0@ =~= seq![]);
    let d0_1: Vec<SettingItem> = vec![setting_item(
            USER,
            "延迟（毫秒）",
            "在无操作一段时间后保存（单位：毫秒）。",
            Some("autosave.after_delay.milliseconds"),
            FieldRef::Structured(StructuredField::AutosaveDelay),
            true,
            None,
        )];
    assert(d0_1@ =~= seq![setting_of(USER, "延迟（毫秒）", "在无操作一段时间后保存（单位：毫秒）。", Some("autosave.after_delay.milliseconds"), FieldRef::Structured(StructuredField::AutosaveDelay), true, None)]);
    let d0_2: Vec<SettingItem> = vec![];
    assert(d0_2@ =~= seq![]);
    let d0_3: Vec<SettingItem> = vec![];
    assert(d0_3@ =~= seq![]);
    let d0 = vec![d0_0, d0_1, d0_2, d0_3];
    assert(variant_outlines(d0@) =~= seq![seq![], seq![setting_of(USER, "延迟（毫秒）", "在无操作一段时间后保存（单位：毫秒）。", Some("autosave.after_delay.milliseconds"), FieldRef::Structured(StructuredField::AutosaveDelay), true, None)], seq![], seq![]]);
    items.push(SettingsPageItem::DynamicItem(DynamicItem {
        discriminant: setting_item(
            USER,
            "自动保存模式",
            "在何时自动保存缓冲区改动。",
            Some("autosave$"),
            FieldRef::Structured(StructuredField::AutosaveVariant),
            true,
            None,
        ),
        variant_fields: d0,
    }));
    assert(outline(items@) =~= auto_save_outline());
    assert(settings_have_paths(items@));
    items
}

/// The entries of the section `multibuffer`, as values.
pub open spec fn multibuffer_outline() -> Seq<OutlineEntry> {
    seq![
        OutlineEntry::Header("多缓冲区"),
        OutlineEntry::Setting(setting_of(USER, "多缓冲区双击行为", "在多缓冲区摘录区域中双击时的处理方式。", Some("double_click_in_multibuffer"), FieldRef::Text(FieldAccess::Direct("editor.double_click_in_multibuffer", &[])), true, None)),
        OutlineEntry::Setting(setting_of(USER, "展开摘录行数", "默认展开多缓冲区摘录的行数。", Some("expand_excerpt_lines"), FieldRef::Text(FieldAccess::Direct("editor.expand_excerpt_lines", &[])), true, None)),
        OutlineEntry::Setting(setting_of(USER, "摘录上下文行数", "默认在多缓冲区摘录中提供的上下文行数。", Some("excerpt_context_lines"), FieldRef::Text(FieldAccess::Direct("editor.excerpt_context_lines", &[])), true, None)),
        OutlineEntry::Setting(setting_of(USER, "大纲默认展开深度", "当前文件中大纲项默认展开的层级深度。", Some("outline_panel.expand_outlines_with_depth"), FieldRef::Text(FieldAccess::Direct("outline_panel.expand_outlines_with_depth", &["outline_panel"])), true, None)),
        OutlineEntry::Setting(setting_of(USER, "Diff 视图样式", "在编辑器中如何显示 diff。", Some("diff_view_style"), FieldRef::Text(FieldAccess::Direct("editor.diff_view_style", &[])), true, None)),
    ]
}

fn multibuffer_section() -> (items: Vec<SettingsPageItem>)
    ensures
        outline(items@) == multibuffer_outline(),
        items_well_formed(items@),
{
    let mut items: Vec<SettingsPageItem> = Vec::new();
    items.push(SettingsPageItem::SectionHeader("多缓冲区"));
    items.push(SettingsPageItem::SettingItem(setting_item(
                USER,
                "多缓冲区双击行为",
                "在多缓冲区摘录区域中双击时的处理方式。",
                Some("double_click_in_multibuffer"),
                FieldRef::Text(FieldAccess::Direct("editor.double_click_in_multibuffer", &[])),
                true,
                None,
            )));
    items.push(SettingsPageItem::SettingItem(setting_item(
                USER,
                "展开摘录行数",
                "默认展开多缓冲区摘录的行数。",
                Some("expand_excerpt_lines"),
                FieldRef::Text(FieldAccess::Direct("editor.expand_excerpt_lines", &[])),
                true,
                None,
            )));
    items.push(SettingsPageItem::SettingItem(setting_item(
                USER,
                "摘录上下文行数",
                "默认在多缓冲区摘录中提供的上下文行数。",
                Some("excerpt_context_lines"),
                FieldRef::Text(FieldAccess::Direct("editor.excerpt_context_lines", &[])),
                true,
                None,
            )));
    items.push(SettingsPageItem::SettingItem(setting_item(
                USER,
                "大纲默认展开深度",
                "当前文件中大纲项默认展开的层级深度。",
                Some("outline_panel.expand_outlines_with_depth"),
                FieldRef::Text(FieldAccess::Direct("outline_panel.expand_outlines_with_depth", &["outline_panel"])),
                true,
                None,
            )));
    items.push(SettingsPageItem::SettingItem(setting_item(
                USER,
                "Diff 视图样式",
                "在编辑器中如何显示 diff。",
                Some("diff_view_style"),
                FieldRef::Text(FieldAccess::Direct("editor.diff_view_style", &[])),
                true,
                None,
            )));
    assert(outline(items@) =~= multibuffer_outline());
    assert(settings_have_paths(items@));
    items
}

/// The entries of the section `scrolling`, as values.
pub open spec fn scrolling_outline() -> Seq<OutlineEntry> {
    seq![
        OutlineEntry::Header("滚动"),
        OutlineEntry::Setting(setting_of(USER, "滚动超出最后一行", "编辑器是否允许滚动到最后一行之后。", Some("scroll_beyond_last_line"), FieldRef::Text(FieldAccess::Direct("editor.scroll_beyond_last_line", &[])), true, None)),
        OutlineEntry::Setting(setting_of(USER, "垂直滚动边距", "自动滚动时，在光标上方和下方保留的行数。", Some("vertical_scroll_margin"), FieldRef::Text(FieldAccess::Direct("editor.vertical_scroll_margin", &[])), true, None)),
        OutlineEntry::Setting(setting_of(USER, "水平滚动边距", "使用鼠标滚动时，在左右两侧保留的字符数。", Some("horizontal_scroll_margin"), FieldRef::Text(FieldAccess::Direct("editor.horizontal_scroll_margin", &[])), true, None)),
        OutlineEntry::Setting(setting_of(USER, "滚动灵敏度", "水平和垂直滚动共用的灵敏度倍数。", Some("scroll_sensitivity"), FieldRef::Text(FieldAccess::Direct("editor.scroll_sensitivity", &[])), true, None)),
        OutlineEntry::Setting(setting_of(USER, "快速滚动灵敏度", "水平和垂直快速滚动共用的灵敏度倍数。", Some("fast_scroll_sensitivity"), FieldRef::Text(FieldAccess::Direct("editor.fast_scroll_sensitivity", &[])), true, None)),
        OutlineEntry::Setting(setting_of(USER, "点击时自动滚动", "点击靠近可见文本区域边缘时是否自动滚动。", Some("autoscroll_on_clicks"), FieldRef::Text(FieldAccess::Direct("editor.autoscroll_on_clicks", &[])), true, None)),
        OutlineEntry::Setting(setting_of(USER, "粘性滚动", "是否将作用域固定在编辑器顶部。", Some("sticky_scroll.enabled"), FieldRef::Text(FieldAccess::Direct("editor.sticky_scroll.enabled", &["editor.sticky_scroll"])), true, None)),
    ]
}

fn scrolling_section() -> (items: Vec<SettingsPageItem>)
    ensures
        outline(items@) == scrolling_outline(),
        items_well_formed(items@),
{
    let mut items: Vec<SettingsPageItem> = Vec::new();
    items.push(SettingsPageItem::SectionHeader("滚动"));
    items.push(SettingsPageItem::SettingItem(setting_item(
                USER,
                "滚动超出最后一行",
                "编辑器是否允许滚动到最后一行之后。",
                Some("scroll_beyond_last_line"),
                FieldRef::Text(FieldAccess::Direct("editor.scroll_beyond_last_line", &[])),
                true,
                None,
            )));
    items.push(SettingsPageItem::SettingItem(setting_item(
                USER,
                "垂直滚动边距",
                "自动滚动时，在光标上方和下方保留的行数。",
                Some("vertical_scroll_margin"),
                FieldRef::Text(FieldAccess::Direct("editor.vertical_scroll_margin", &[])),
                true,
                None,
            )));
    items.push(SettingsPageItem::SettingItem(setting_item(
                USER,
                "水平滚动边距",
                "使用鼠标滚动时，在左右两侧保留的字符数。",
                Some("horizontal_scroll_margin"),
                FieldRef::Text(FieldAccess::Direct("editor.horizontal_scroll_margin", &[])),
                true,
                None,
            )));
    items.push(SettingsPageItem::SettingItem(setting_item(
                USER,
                "滚动灵敏度",
                "水平和垂直滚动共用的灵敏度倍数。",
                Some("scroll_sensitivity"),
                FieldRef::Text(FieldAccess::Direct("editor.scroll_sensitivity", &[])),
                true,
                None,
            )));
    items.push(SettingsPageItem::SettingItem(setting_item(
                USER,
                "快速滚动灵敏度",
                "水平和垂直快速滚动共用的灵敏度倍数。",
                Some("fast_scroll_sensitivity"),
                FieldRef::Text(FieldAccess::Direct("editor.fast_scroll_sensitivity", &[])),
                true,
                None,
            )));
    items.push(SettingsPageItem::SettingItem(setting_item(
                USER,
                "点击时自动滚动",
                "点击靠近可见文本区域边缘时是否自动滚动。",
                Some("autoscroll_on_clicks"),
                FieldRef::Text(FieldAccess::Direct("editor.autoscroll_on_clicks", &[])),
                true,
                None,
            )));
    items.push(SettingsPageItem::SettingItem(setting_item(
                USER,
                "粘性滚动",
                "是否将作用域固定在编辑器顶部。",
                Some("sticky_scroll.enabled"),
                FieldRef::Text(FieldAccess::Direct("editor.sticky_scroll.enabled", &["editor.sticky_scroll"])),
                true,
                None,
            )));
    assert(outline(items@) =~= scrolling_outline());
    assert(settings_have_paths(items@));
    items
}

/// The entries of the section `drag_and_drop_selection`, as values.
pub open spec fn drag_and_drop_selection_outline() -> Seq<OutlineEntry> {
    seq![
        OutlineEntry::Header("拖放选区"),
        OutlineEntry::Setting(setting_of(USER, "启用", "启用拖放选区。", Some("drag_and_drop_selection.enabled"), FieldRef::Text(FieldAccess::Direct("editor.drag_and_drop_selection.enabled", &["editor.drag_and_drop_selection"])), true, None)),
        OutlineEntry::Setting(setting_of(USER, "延迟", "开始拖放选区前的延迟时间（毫秒）。", Some("drag_and_drop_selection.delay"), FieldRef::Text(FieldAccess::Direct("editor.drag_and_drop_selection.delay", &["editor.drag_and_drop_selection"])), true, None)),
    ]
}

fn drag_and_drop_selection_section() -> (items: Vec<SettingsPageItem>)
    ensures
        outline(items@) == drag_and_drop_selection_outline(),
        items_well_formed(items@),
{
    let mut items: Vec<SettingsPageItem> = Vec::new();
    items.push(SettingsPageItem::SectionHeader("拖放选区"));
    items.push(SettingsPageItem::SettingItem(setting_item(
                USER,
                "启用",
                "启用拖放选区。",
                Some("drag_and_drop_selection.enabled"),
                FieldRef::Text(FieldAccess::Direct("editor.drag_and_drop_selection.enabled", &["editor.drag_and_drop_selection"])),
                true,
                None,
            )));
    items.push(SettingsPageItem::SettingItem(setting_item(
                USER,
                "延迟",
                "开始拖放选区前的延迟时间（毫秒）。",
                Some("drag_and_drop_selection.delay"),
                FieldRef::Text(FieldAccess::Direct("editor.drag_and_drop_selection.delay", &["editor.drag_and_drop_selection"])),
                true,
                None,
            )));
    assert(outline(items@) =~= drag_and_drop_selection_outline());
    assert(settings_have_paths(items@));
    items
}

/// The entries of the section `gutter`, as values.
pub open spec fn gutter_outline() -> Seq<OutlineEntry> {
    seq![
        OutlineEntry::Header("边栏"),
        OutlineEntry::Setting(setting_of(USER, "显示行号", "在边栏中显示行号。", Some("gutter.line_numbers"), FieldRef::Text(FieldAccess::Direct("editor.gutter.line_numbers", &["editor.gutter"])), true, None)),
        OutlineEntry::Setting(setting_of(USER, "相对行号", "控制编辑器边栏中的行号显示方式。“disabled”显示绝对行号，“enabled”为每个绝对行显示相对行号，“wrapped”则为每一行（包括折行）都显示相对行号。", Some("relative_line_numbers"), FieldRef::Text(FieldAccess::Direct("editor.relative_line_numbers", &[])), true, None)),
        OutlineEntry::Setting(setting_of(USER, "显示折叠控件", "在边栏中显示代码折叠控件。", Some("gutter.folds"), FieldRef::Text(FieldAccess::Direct("editor.gutter.folds", &["editor.gutter"])), true, None)),
        OutlineEntry::Setting(setting_of(USER, "行号最小位数", "在边栏中为行号预留的最少字符数。", Some("gutter.min_line_number_digits"), FieldRef::Text(FieldAccess::Direct("editor.gutter.min_line_number_digits", &["editor.gutter"])), true, None)),
    ]
}

fn gutter_section() -> (items: Vec<SettingsPageItem>)
    ensures
        outline(items@) == gutter_outline(),
        items_well_formed(items@),
{
    let mut items: Vec<SettingsPageItem> = Vec::new();
    items.push(SettingsPageItem::SectionHeader("边栏"));
    items.push(SettingsPageItem::SettingItem(setting_item(
                USER,
                "显示行号",
                "在边栏中显示行号。",
                Some("gutter.line_numbers"),
                FieldRef::Text(FieldAccess::Direct("editor.gutter.line_numbers", &["editor.gutter"])),
                true,
                None,
            )));
    items.push(SettingsPageItem::SettingItem(setting_item(
                USER,
                "相对行号",
                "控制编辑器边栏中的行号显示方式。“disabled”显示绝对行号，“enabled”为每个绝对行显示相对行号，“wrapped”则为每一行（包括折行）都显示相对行号。",
                Some("relative_line_numbers"),
                FieldRef::Text(FieldAccess::Direct("editor.relative_line_numbers", &[])),
                true,
                None,
            )));
    items.push(SettingsPageItem::SettingItem(setting_item(
                USER,
                "显示折叠控件",
                "在边栏中显示代码折叠控件。",
                Some("gutter.folds"),
                FieldRef::Text(FieldAccess::Direct("editor.gutter.folds", &["editor.gutter"])),
                true,
                None,
            )));
    items.push(SettingsPageItem::SettingItem(setting_item(
                USER,
                "行号最小位数",
                "在边栏中为行号预留的最少字符数。",
                Some("gutter.min_line_number_digits"),
                FieldRef::Text(FieldAccess::Direct("editor.gutter.min_line_number_digits", &["editor.gutter"])),
                true,
                None,
            )));
    assert(outline(items@) =~= gutter_outline());
    assert(settings_have_paths(items@));
    items
}

/// The entries of the section `scrollbar`, as values.
pub open spec fn scrollbar_outline() -> Seq<OutlineEntry> {
    seq![
        OutlineEntry::Header("滚动条"),
        OutlineEntry::Setting(setting_of(USER, "显示", "在何时显示编辑器滚动条。", Some("scrollbar"), FieldRef::Text(FieldAccess::Direct("editor.scrollbar.show", &["editor.scrollbar"])), true, None)),
        OutlineEntry::Setting(setting_of(USER, "光标位置", "在滚动条中显示光标位置。", Some("scrollbar.cursors"), FieldRef::Text(FieldAccess::Direct("editor.scrollbar.cursors", &["editor.scrollbar"])), true, None)),
        OutlineEntry::Setting(setting_of(USER, "搜索结果", "在滚动条中显示缓冲区搜索结果标记。", Some("scrollbar.search_results"), FieldRef::Text(FieldAccess::Direct("editor.scrollbar.search_results", &["editor.scrollbar"])), true, None)),
        OutlineEntry::Setting(setting_of(USER, "选中文本", "在滚动条中显示选中文本的出现位置。", Some("scrollbar.selected_text"), FieldRef::Text(FieldAccess::Direct("editor.scrollbar.selected_text", &["editor.scrollbar"])), true, None)),
        OutlineEntry::Setting(setting_of(USER, "水平滚动条", "设为 false 时，强制禁用水平滚动条。", Some("scrollbar.axes.horizontal"), FieldRef::Text(FieldAccess::Direct("editor.scrollbar.axes.horizontal", &["editor.scrollbar", "editor.scrollbar.axes"])), true, None)),
        OutlineEntry::Setting(setting_of(USER, "垂直滚动条", "设为 false 时，强制禁用垂直滚动条。", Some("scrollbar.axes.vertical"), FieldRef::Text(FieldAccess::Direct("editor.scrollbar.axes.vertical", &["editor.scrollbar", "editor.scrollbar.axes"])), true, None)),
    ]
}

fn scrollbar_section() -> (items: Vec<SettingsPageItem>)
    ensures
        outline(items@) == scrollbar_outline(),
        items_well_formed(items@),
{
    let mut items: Vec<SettingsPageItem> = Vec::new();
    items.push(SettingsPageItem::SectionHeader("滚动条"));
    items.push(SettingsPageItem::SettingItem(setting_item(
                USER,
                "显示",
                "在何时显示编辑器滚动条。",
                Some("scrollbar"),
                FieldRef::Text(FieldAccess::Direct("editor.scrollbar.show", &["editor.scrollbar"])),
                true,
                None,
            )));
    items.push(SettingsPageItem::SettingItem(setting_item(
                USER,
                "光标位置",
                "在滚动条中显示光标位置。",
                Some("scrollbar.cursors"),
                FieldRef::Text(FieldAccess::Direct("editor.scrollbar.cursors", &["editor.scrollbar"])),
                true,
                None,
            )));
    items.push(SettingsPageItem::SettingItem(setting_item(
                USER,
                "搜索结果",
                "在滚动条中显示缓冲区搜索结果标记。",
                Some("scrollbar.search_results"),
                FieldRef::Text(FieldAccess::Direct("editor.scrollbar.search_results", &["editor.scrollbar"])),
                true,
                None,
            )));
    items.push(SettingsPageItem::SettingItem(setting_item(
                USER,
                "选中文本",
                "在滚动条中显示选中文本的出现位置。",
                Some("scrollbar.selected_text"),
                FieldRef::Text(FieldAccess::Direct("editor.scrollbar.selected_text", &["editor.scrollbar"])),
                true,
                None,
            )));
    items.push(SettingsPageItem::SettingItem(setting_item(
                USER,
                "水平滚动条",
                "设为 false 时，强制禁用水平滚动条。",
                Some("scrollbar.axes.horizontal"),
                FieldRef::Text(FieldAccess::Direct("editor.scrollbar.axes.horizontal", &["editor.scrollbar", "editor.scrollbar.axes"])),
                true,
                None,
            )));
    items.push(SettingsPageItem::SettingItem(setting_item(
                USER,
                "垂直滚动条",
                "设为 false 时，强制禁用垂直滚动条。",
                Some("scrollbar.axes.vertical"),
                FieldRef::Text(FieldAccess::Direct("editor.scrollbar.axes.vertical", &["editor.scrollbar", "editor.scrollbar.axes"])),
                true,
                None,
            )));
    assert(outline(items@) =~= scrollbar_outline());
    assert(settings_have_paths(items@));
    items
}

/// The entries of the section `minimap`, as values.
pub open spec fn minimap_outline() -> Seq<OutlineEntry> {
    seq![
        OutlineEntry::Header("迷你地图"),
        OutlineEntry::Setting(setting_of(USER, "显示", "在何时显示编辑器迷你地图。", Some("minimap.show"), FieldRef::Text(FieldAccess::Direct("editor.minimap.show", &["editor.minimap"])), true, None)),
        OutlineEntry::Setting(setting_of(USER, "显示位置", "在编辑器中的何处显示迷你地图。", Some("minimap.display_in"), FieldRef::Text(FieldAccess::Direct("editor.minimap.display_in", &["editor.minimap"])), true, None)),
        OutlineEntry::Setting(setting_of(USER, "滑块", "在何时显示迷你地图滑块。", Some("minimap.thumb"), FieldRef::Text(FieldAccess::Direct("editor.minimap.thumb", &["editor.minimap"])), true, None)),
        OutlineEntry::Setting(setting_of(USER, "滑块边框", "迷你地图滚动滑块的边框样式。", Some("minimap.thumb_border"), FieldRef::Text(FieldAccess::Direct("editor.minimap.thumb_border", &["editor.minimap"])), true, None)),
        OutlineEntry::Setting(setting_of(USER, "当前行高亮", "如何在迷你地图中高亮当前行。", Some("minimap.current_line_highlight"), FieldRef::Text(FieldAccess::WithFallback("editor.minimap.current_line_highlight", "editor.current_line_highlight", &["editor.minimap"])), true, None)),
        OutlineEntry::Setting(setting_of(USER, "最大显示列数", "迷你地图中可显示的最大列数。", Some("minimap.max_width_columns"), FieldRef::Text(FieldAccess::Direct("editor.minimap.max_width_columns", &["editor.minimap"])), true, None)),
    ]
}

fn minimap_section() -> (items: Vec<SettingsPageItem>)
    ensures
        outline(items@) == minimap_outline(),
        items_well_formed(items@),
{
    let mut items: Vec<SettingsPageItem> = Vec::new();
    items.push(SettingsPageItem::SectionHeader("迷你地图"));
    items.push(SettingsPageItem::SettingItem(setting_item(
                USER,
                "显示",
                "在何时显示编辑器迷你地图。",
                Some("minimap.show"),
                FieldRef::Text(FieldAccess::Direct("editor.minimap.show", &["editor.minimap"])),
                true,
                None,
            )));
    items.push(SettingsPageItem::SettingItem(setting_item(
                USER,
                "显示位置",
                "在编辑器中的何处显示迷你地图。",
                Some("minimap.display_in"),
                FieldRef::Text(FieldAccess::Direct("editor.minimap.display_in", &["editor.minimap"])),
                true,
                None,
            )));
    items.push(SettingsPageItem::SettingItem(setting_item(
                USER,
                "滑块",
                "在何时显示迷你地图滑块。",
                Some("minimap.thumb"),
                FieldRef::Text(FieldAccess::Direct("editor.minimap.thumb", &["editor.minimap"])),
                true,
                None,
            )));
    items.push(SettingsPageItem::SettingItem(setting_item(
                USER,
                "滑块边框",
                "迷你地图滚动滑块的边框样式。",
                Some("minimap.thumb_border"),
                FieldRef::Text(FieldAccess::Direct("editor.minimap.thumb_border", &["editor.minimap"])),
                true,
                None,
            )));
    items.push(SettingsPageItem::SettingItem(setting_item(
                USER,
                "当前行高亮",
                "如何在迷你地图中高亮当前行。",
                Some("minimap.current_line_highlight"),
                FieldRef::Text(FieldAccess::WithFallback("editor.minimap.current_line_highlight", "editor.current_line_highlight", &["editor.minimap"])),
                true,
                None,
            )));
    items.push(SettingsPageItem::SettingItem(setting_item(
                USER,
                "最大显示列数",
                "迷你地图中可显示的最大列数。",
                Some("minimap.max_width_columns"),
                FieldRef::Text(FieldAccess::Direct("editor.minimap.max_width_columns", &["editor.minimap"])),
                true,
                None,
            )));
    assert(outline(items@) =~= minimap_outline());
    assert(settings_have_paths(items@));
    items
}

/// The entries of the section `toolbar`, as values.
pub open spec fn toolbar_outline() -> Seq<OutlineEntry> {
    seq![
        OutlineEntry::Header("工具栏"),
        OutlineEntry::Setting(setting_of(USER, "面包屑", "显示面包屑。", Some("toolbar.breadcrumbs"), FieldRef::Text(FieldAccess::Direct("editor.toolbar.breadcrumbs", &["editor.toolbar"])), true, None)),
        OutlineEntry::Setting(setting_of(USER, "快捷操作", "显示快捷操作按钮（如搜索、选区、编辑器控制等）。", Some("toolbar.quick_actions"), FieldRef::Text(FieldAccess::Direct("editor.toolbar.quick_actions", &["editor.toolbar"])), true, None)),
        OutlineEntry::Setting(setting_of(USER, "选区菜单", "在编辑器工具栏中显示选区菜单。", Some("toolbar.selections_menu"), FieldRef::Text(FieldAccess::Direct("editor.toolbar.selections_menu", &["editor.toolbar"])), true, None)),
        OutlineEntry::Setting(setting_of(USER, "Agent 审查", "在编辑器工具栏中显示 Agent 审查按钮。", Some("toolbar.agent_review"), FieldRef::Text(FieldAccess::Direct("editor.toolbar.agent_review", &["editor.toolbar"])), true, None)),
    ]
}

fn toolbar_section() -> (items: Vec<SettingsPageItem>)
    ensures
        outline(items@) == toolbar_outline(),
        items_well_formed(items@),
{
    let mut items: Vec<SettingsPageItem> = Vec::new();
    items.push(SettingsPageItem::SectionHeader("工具栏"));
    items.push(SettingsPageItem::SettingItem(setting_item(
                USER,
                "面包屑",
                "显示面包屑。",
                Some("toolbar.breadcrumbs"),
                FieldRef::Text(FieldAccess::Direct("editor.toolbar.breadcrumbs", &["editor.toolbar"])),
                true,
                None,
            )));
    items.push(SettingsPageItem::SettingItem(setting_item(
                USER,
                "快捷操作",
                "显示快捷操作按钮（如搜索、选区、编辑器控制等）。",
                Some("toolbar.quick_actions"),
                FieldRef::Text(FieldAccess::Direct("editor.toolbar.quick_actions", &["editor.toolbar"])),
                true,
                None,
            )));
    items.push(SettingsPageItem::SettingItem(setting_item(
                USER,
                "选区菜单",
                "在编辑器工具栏中显示选区菜单。",
                Some("toolbar.selections_menu"),
                FieldRef::Text(FieldAccess::Direct("editor.toolbar.selections_menu", &["editor.toolbar"])),
                true,
                None,
            )));
    items.push(SettingsPageItem::SettingItem(setting_item(
                USER,
                "Agent 审查",
                "在编辑器工具栏中显示 Agent 审查按钮。",
                Some("toolbar.agent_review"),
                FieldRef::Text(FieldAccess::Direct("editor.toolbar.agent_review", &["editor.toolbar"])),
                true,
                None,
            )));
    assert(outline(items@) =~= toolbar_outline());
    assert(settings_have_paths(items@));
    items
}

/// The entries of the section `vim_settings`, as values.
pub open spec fn vim_settings_outline() -> Seq<OutlineEntry> {
    seq![
        OutlineEntry::Header("Vim"),
        OutlineEntry::Setting(setting_of(USER, "默认模式", "Vim 启动时使用的默认模式。", Some("vim.default_mode"), FieldRef::Text(FieldAccess::Direct("vim.default_mode", &["vim"])), true, None)),
        OutlineEntry::Setting(setting_of(USER, "切换相对行号", "在 Vim 模式下切换相对行号。", Some("vim.toggle_relative_line_numbers"), FieldRef::Text(FieldAccess::Direct("vim.toggle_relative_line_numbers", &["vim"])), true, None)),
        OutlineEntry::Setting(setting_of(USER, "使用系统剪贴板", "控制在 Vim 模式下何时使用系统剪贴板。", Some("vim.use_system_clipboard"), FieldRef::Text(FieldAccess::Direct("vim.use_system_clipboard", &["vim"])), true, None)),
        OutlineEntry::Setting(setting_of(USER, "使用 Smartcase 查找", "在 Vim 模式下启用 smartcase 搜索。", Some("vim.use_smartcase_find"), FieldRef::Text(FieldAccess::Direct("vim.use_smartcase_find", &["vim"])), true, None)),
        OutlineEntry::Setting(setting_of(USER, "默认全局替换", "启用后，:substitute 命令默认替换一行中的所有匹配项，随后使用“g”标志切换该行为。", Some("vim.gdefault"), FieldRef::Text(FieldAccess::Direct("vim.gdefault", &["vim"])), true, None)),
        OutlineEntry::Setting(setting_of(USER, "复制高亮时长", "在 Vim 模式下高亮已复制文本的时长（毫秒）。", Some("vim.highlight_on_yank_duration"), FieldRef::Text(FieldAccess::Direct("vim.highlight_on_yank_duration", &["vim"])), true, None)),
        OutlineEntry::Setting(setting_of(USER, "光标形状 - Normal 模式", "Normal 模式下的光标形状。", Some("vim.cursor_shape.normal"), FieldRef::Text(FieldAccess::Direct("vim.cursor_shape.normal", &["vim", "vim.cursor_shape"])), true, None)),
        OutlineEntry::Setting(setting_of(USER, "光标形状 - Insert 模式", "Insert 模式下的光标形状。选择 Inherit 时使用编辑器的光标形状。", Some("vim.cursor_shape.insert"), FieldRef::Text(FieldAccess::Direct("vim.cursor_shape.insert", &["vim", "vim.cursor_shape"])), true, None)),
        OutlineEntry::Setting(setting_of(USER, "光标形状 - Replace 模式", "Replace 模式下的光标形状。", Some("vim.cursor_shape.replace"), FieldRef::Text(FieldAccess::Direct("vim.cursor_shape.replace", &["vim", "vim.cursor_shape"])), true, None)),
        OutlineEntry::Setting(setting_of(USER, "光标形状 - Visual 模式", "Visual 模式下的光标形状。", Some("vim.cursor_shape.visual"), FieldRef::Text(FieldAccess::Direct("vim.cursor_shape.visual", &["vim", "vim.cursor_shape"])), true, None)),
        OutlineEntry::Setting(setting_of(USER, "自定义二合字", "Vim 模式下的自定义 digraph 映射。", Some("vim.custom_digraphs"), FieldRef::Text(FieldAccess::Direct("vim.custom_digraphs", &["vim"])), false, None)),
    ]
}

fn vim_settings_section() -> (items: Vec<SettingsPageItem>)
    ensures
        outline(items@) == vim_settings_outline(),
        items_well_formed(items@),
{
    let mut items: Vec<SettingsPageItem> = Vec::new();
    items.push(SettingsPageItem::SectionHeader("Vim"));
    items.push(SettingsPageItem::SettingItem(setting_item(
                USER,
                "默认模式",
                "Vim 启动时使用的默认模式。",
                Some("vim.default_mode"),
                FieldRef::Text(FieldAccess::Direct("vim.default_mode", &["vim"])),
                true,
                None,
            )));
    items.push(SettingsPageItem::SettingItem(setting_item(
                USER,
                "切换相对行号",
                "在 Vim 模式下切换相对行号。",
                Some("vim.toggle_relative_line_numbers"),
                FieldRef::Text(FieldAccess::Direct("vim.toggle_relative_line_numbers", &["vim"])),
                true,
                None,
            )));
    items.push(SettingsPageItem::SettingItem(setting_item(
                USER,
                "使用系统剪贴板",
                "控制在 Vim 模式下何时使用系统剪贴板。",
                Some("vim.use_system_clipboard"),
                FieldRef::Text(FieldAccess::Direct("vim.use_system_clipboard", &["vim"])),
                true,
                None,
            )));
    items.push(SettingsPageItem::SettingItem(setting_item(
                USER,
                "使用 Smartcase 查找",
                "在 Vim 模式下启用 smartcase 搜索。",
                Some("vim.use_smartcase_find"),
                FieldRef::Text(FieldAccess::Direct("vim.use_smartcase_find", &["vim"])),
                true,
                None,
            )));
    items.push(SettingsPageItem::SettingItem(setting_item(
                USER,
                "默认全局替换",
                "启用后，:substitute 命令默认替换一行中的所有匹配项，随后使用“g”标志切换该行为。",
                Some("vim.gdefault"),
                FieldRef::Text(FieldAccess::Direct("vim.gdefault", &["vim"])),
                true,
                None,
            )));
    items.push(SettingsPageItem::SettingItem(setting_item(
                USER,
                "复制高亮时长",
                "在 Vim 模式下高亮已复制文本的时长（毫秒）。",
                Some("vim.highlight_on_yank_duration"),
                FieldRef::Text(FieldAccess::Direct("vim.highlight_on_yank_duration", &["vim"])),
                true,
                None,
            )));
    items.push(SettingsPageItem::SettingItem(setting_item(
                USER,
                "光标形状 - Normal 模式",
                "Normal 模式下的光标形状。",
                Some("vim.cursor_shape.normal"),
                FieldRef::Text(FieldAccess::Direct("vim.cursor_shape.normal", &["vim", "vim.cursor_shape"])),
                true,
                None,
            )));
    items.push(SettingsPageItem::SettingItem(setting_item(
                USER,
                "光标形状 - Insert 模式",
                "Insert 模式下的光标形状。选择 Inherit 时使用编辑器的光标形状。",
                Some("vim.cursor_shape.insert"),
                FieldRef::Text(FieldAccess::Direct("vim.cursor_shape.insert", &["vim", "vim.cursor_shape"])),
                true,
                None,
            )));
    items.push(SettingsPageItem::SettingItem(setting_item(
                USER,
                "光标形状 - Replace 模式",
                "Replace 模式下的光标形状。",
                Some("vim.cursor_shape.replace"),
                FieldRef::Text(FieldAccess::Direct("vim.cursor_shape.replace", &["vim", "vim.cursor_shape"])),
                true,
                None,
            )));
    items.push(SettingsPageItem::SettingItem(setting_item(
                USER,
                "光标形状 - Visual 模式",
                "Visual 模式下的光标形状。",
                Some("vim.cursor_shape.visual"),
                FieldRef::Text(FieldAccess::Direct("vim.cursor_shape.visual", &["vim", "vim.cursor_shape"])),
                true,
                None,
            )));
    items.push(SettingsPageItem::SettingItem(setting_item(
                USER,
                "自定义二合字",
                "Vim 模式下的自定义 digraph 映射。",
                Some("vim.custom_digraphs"),
                FieldRef::Text(FieldAccess::Direct("vim.custom_digraphs", &["vim"])),
                false,
                None,
            )));
    assert(outline(items@) =~= vim_settings_outline());
    assert(settings_have_paths(items@));
    items
}

/// The entries of the page, section by section.
pub open spec fn editor_page_outline() -> Seq<OutlineEntry> {
    auto_save_outline() + multibuffer_outline() + scrolling_outline() + drag_and_drop_selection_outline() + gutter_outline() + scrollbar_outline() + minimap_outline() + toolbar_outline() + vim_settings_outline() + language_settings_outline()
}

/// The "Editor" page: autosave, multibuffers, scrolling, drag and drop, the gutter, the
/// scrollbar, the minimap, the toolbar, Vim, and then the per-language settings.
pub fn editor_page() -> (page: SettingsPage)
    ensures
        page.title@ == "编辑器"@,
        outline(page.items@) == editor_page_outline(),
        items_well_formed(page.items@),
{
    let s0 = auto_save_section();
    let s1 = multibuffer_section();
    let s2 = scrolling_section();
    let s3 = drag_and_drop_selection_section();
    let s4 = gutter_section();
    let s5 = scrollbar_section();
    let s6 = minimap_section();
    let s7 = toolbar_section();
    let s8 = vim_settings_section();
    let s9 = language_settings_data();
    let ghost v0 = s0@;
    let ghost v1 = s1@;
    let ghost v2 = s2@;
    let ghost v3 = s3@;
    let ghost v4 = s4@;
    let ghost v5 = s5@;
    let ghost v6 = s6@;
    let ghost v7 = s7@;
    let ghost v8 = s8@;
    let ghost v9 = s9@;
    let sections = vec![s0, s1, s2, s3, s4, s5, s6, s7, s8, s9];
    let ghost all = sections@;
    let items = concat_sections(sections);
    proof {
        let parts = seq![v0, v1, v2, v3, v4, v5, v6, v7, v8, v9];
        assert(views_of(all) =~= parts);
        reveal_with_fuel(Seq::flatten, 11);
        assert(items@ =~= v0 + v1 + v2 + v3 + v4 + v5 + v6 + v7 + v8 + v9);
        lemma_well_formed_concat(v0, v1);
        lemma_well_formed_concat(v0 + v1, v2);
        lemma_well_formed_concat(v0 + v1 + v2, v3);
        lemma_well_formed_concat(v0 + v1 + v2 + v3, v4);
        lemma_well_formed_concat(v0 + v1 + v2 + v3 + v4, v5);
        lemma_well_formed_concat(v0 + v1 + v2 + v3 + v4 + v5, v6);
        lemma_well_formed_concat(v0 + v1 + v2 + v3 + v4 + v5 + v6, v7);
        lemma_well_formed_concat(v0 + v1 + v2 + v3 + v4 + v5 + v6 + v7, v8);
        lemma_well_formed_concat(v0 + v1 + v2 + v3 + v4 + v5 + v6 + v7 + v8, v9);
    }
    SettingsPage { title: "编辑器", items }
}

} // verus!