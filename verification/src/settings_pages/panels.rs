//! The settings built by `panels_page`.

use vstd::prelude::*;
use crate::settings_content::FieldAccess;
use crate::settings_page::{
    DynamicItem, FieldRef, OutlineEntry, PROJECT, SettingItem, SettingsFieldMetadata, SettingsPage, SettingsPageItem,
    StructuredField, SubPage, SubPageLink, USER, concat_sections, items_well_formed, lemma_well_formed_concat, outline,
    placeholder, placeholder_of, setting_item, setting_of, settings_have_paths, variant_outlines, views_of,
};

verus! {

/// The entries of the section `project_panel`, as values.
pub open spec fn project_panel_outline() -> Seq<OutlineEntry> {
    seq![
        OutlineEntry::Header("项目面板"),
        OutlineEntry::Setting(setting_of(USER, "项目面板停靠位置", "项目面板停靠的位置。", Some("project_panel.dock"), FieldRef::Text(FieldAccess::Direct("project_panel.dock", &["project_panel"])), true, None)),
        OutlineEntry::Setting(setting_of(USER, "项目面板默认宽度", "项目面板的默认宽度（像素）。", Some("project_panel.default_width"), FieldRef::Text(FieldAccess::Direct("project_panel.default_width", &["project_panel"])), true, None)),
        OutlineEntry::Setting(setting_of(USER, "条目间距", "项目面板中工作树条目之间的间距。", Some("project_panel.entry_spacing"), FieldRef::Text(FieldAccess::Direct("project_panel.entry_spacing", &["project_panel"])), true, None)),
        OutlineEntry::Setting(setting_of(USER, "文件图标", "在项目面板中显示文件图标。", Some("project_panel.file_icons"), FieldRef::Text(FieldAccess::Direct("project_panel.file_icons", &["project_panel"])), true, None)),
        OutlineEntry::Setting(setting_of(USER, "文件夹图标", "项目面板中目录是否显示文件夹图标或折叠箭头。", Some("project_panel.folder_icons"), FieldRef::Text(FieldAccess::Direct("project_panel.folder_icons", &["project_panel"])), true, None)),
        OutlineEntry::Setting(setting_of(USER, "缩进大小", "嵌套条目的缩进量。", Some("project_panel.indent_size"), FieldRef::Text(FieldAccess::Direct("project_panel.indent_size", &["project_panel"])), true, None)),
        OutlineEntry::Setting(setting_of(USER, "自动定位条目", "当对应项目条目变为活动项时，是否在项目面板中自动定位显示。", Some("project_panel.auto_reveal_entries"), FieldRef::Text(FieldAccess::Direct("project_panel.auto_reveal_entries", &["project_panel"])), true, None)),
        OutlineEntry::Setting(setting_of(USER, "启动时打开", "启动时是否自动打开项目面板。", Some("project_panel.starts_open"), FieldRef::Text(FieldAccess::Direct("project_panel.starts_open", &["project_panel"])), true, None)),
        OutlineEntry::Setting(setting_of(USER, "自动折叠目录", "当目录下仅包含一个子目录时，是否自动折叠并以紧凑目录形式显示。", Some("project_panel.auto_fold_dirs"), FieldRef::Text(FieldAccess::Direct("project_panel.auto_fold_dirs", &["project_panel"])), true, None)),
        OutlineEntry::Setting(setting_of(USER, "加粗文件夹名称", "是否在项目面板中使用粗体显示文件夹名称。", Some("project_panel.bold_folder_labels"), FieldRef::Text(FieldAccess::Direct("project_panel.bold_folder_labels", &["project_panel"])), true, None)),
        OutlineEntry::Setting(setting_of(USER, "显示滚动条", "在项目面板中显示滚动条。", Some("project_panel.scrollbar.show"), FieldRef::Text(FieldAccess::WithFallback("project_panel.scrollbar.show", "editor.scrollbar.show", &["project_panel", "project_panel.scrollbar"])), true, None)),
        OutlineEntry::Setting(setting_of(USER, "水平滚动", "是否允许项目面板水平滚动。禁用后，视图会始终锁定在最左侧，较长文件名会被裁剪。", Some("project_panel.scrollbar.horizontal_scroll"), FieldRef::Text(FieldAccess::Direct("project_panel.scrollbar.horizontal_scroll", &["project_panel", "project_panel.scrollbar"])), true, None)),
        OutlineEntry::Setting(setting_of(USER, "粘性滚动", "是否将父目录固定在项目面板顶部。", Some("project_panel.sticky_scroll"), FieldRef::Text(FieldAccess::Direct("project_panel.sticky_scroll", &["project_panel"])), true, None)),
        OutlineEntry::Setting(setting_of(USER, "显示缩进辅助线", "在项目面板中显示缩进辅助线。", Some("project_panel.indent_guides.show"), FieldRef::Text(FieldAccess::Direct("project_panel.indent_guides.show", &["project_panel", "project_panel.indent_guides"])), true, None)),
        OutlineEntry::Setting(setting_of(USER, "拖放", "是否在项目面板中启用拖放操作。", Some("project_panel.drag_and_drop"), FieldRef::Text(FieldAccess::Direct("project_panel.drag_and_drop", &["project_panel"])), true, None)),
        OutlineEntry::Setting(setting_of(USER, "隐藏根目录", "当窗口中只打开一个文件夹时，是否隐藏根目录条目。", Some("project_panel.drag_and_drop"), FieldRef::Text(FieldAccess::Direct("project_panel.hide_root", &["project_panel"])), true, None)),
        OutlineEntry::Setting(setting_of(USER, "隐藏隐藏项", "是否在项目面板中隐藏被标记为隐藏的条目。", Some("project_panel.hide_hidden"), FieldRef::Text(FieldAccess::Direct("project_panel.hide_hidden", &["project_panel"])), true, None)),
        OutlineEntry::Setting(setting_of(USER, "隐藏文件", "用于匹配将被视为“隐藏”并可从项目面板隐藏的文件的 glob 规则。", Some("worktree.hidden_files"), FieldRef::Text(FieldAccess::Direct("project.worktree.hidden_files", &[])), false, None)),
    ]
}

fn project_panel_section() -> (items: Vec<SettingsPageItem>)
    ensures
        outline(items@) == project_panel_outline(),
        items_well_formed(items@),
{
    let mut items: Vec<SettingsPageItem> = Vec::new();
    items.push(SettingsPageItem::SectionHeader("项目面板"));
    items.push(SettingsPageItem::SettingItem(setting_item(
                USER,
                "项目面板停靠位置",
                "项目面板停靠的位置。",
                Some("project_panel.dock"),
                FieldRef::Text(FieldAccess::Direct("project_panel.dock", &["project_panel"])),
                true,
                None,
            )));
    items.push(SettingsPageItem::SettingItem(setting_item(
                USER,
                "项目面板默认宽度",
                "项目面板的默认宽度（像素）。",
                Some("project_panel.default_width"),
                FieldRef::Text(FieldAccess::Direct("project_panel.default_width", &["project_panel"])),
                true,
                None,
            )));
    items.push(SettingsPageItem::SettingItem(setting_item(
                USER,
                "条目间距",
                "项目面板中工作树条目之间的间距。",
                Some("project_panel.entry_spacing"),
                FieldRef::Text(FieldAccess::Direct("project_panel.entry_spacing", &["project_panel"])),
                true,
                None,
            )));
    items.push(SettingsPageItem::SettingItem(setting_item(
                USER,
                "文件图标",
                "在项目面板中显示文件图标。",
                Some("project_panel.file_icons"),
                FieldRef::Text(FieldAccess::Direct("project_panel.file_icons", &["project_panel"])),
                true,
                None,
            )));
    items.push(SettingsPageItem::SettingItem(setting_item(
                USER,
                "文件夹图标",
                "项目面板中目录是否显示文件夹图标或折叠箭头。",
                Some("project_panel.folder_icons"),
                FieldRef::Text(FieldAccess::Direct("project_panel.folder_icons", &["project_panel"])),
                true,
                None,
            )));
    items.push(SettingsPageItem::SettingItem(setting_item(
                USER,
                "缩进大小",
                "嵌套条目的缩进量。",
                Some("project_panel.indent_size"),
                FieldRef::Text(FieldAccess::Direct("project_panel.indent_size", &["project_panel"])),
                true,
                None,
            )));
    items.push(SettingsPageItem::SettingItem(setting_item(
                USER,
                "自动定位条目",
                "当对应项目条目变为活动项时，是否在项目面板中自动定位显示。",
                Some("project_panel.auto_reveal_entries"),
                FieldRef::Text(FieldAccess::Direct("project_panel.auto_reveal_entries", &["project_panel"])),
                true,
                None,
            )));
    items.push(SettingsPageItem::SettingItem(setting_item(
                USER,
                "启动时打开",
                "启动时是否自动打开项目面板。",
                Some("project_panel.starts_open"),
                FieldRef::Text(FieldAccess::Direct("project_panel.starts_open", &["project_panel"])),
                true,
                None,
            )));
    items.push(SettingsPageItem::SettingItem(setting_item(
                USER,
                "自动折叠目录",
                "当目录下仅包含一个子目录时，是否自动折叠并以紧凑目录形式显示。",
                Some("project_panel.auto_fold_dirs"),
                FieldRef::Text(FieldAccess::Direct("project_panel.auto_fold_dirs", &["project_panel"])),
                true,
                None,
            )));
    items.push(SettingsPageItem::SettingItem(setting_item(
                USER,
                "加粗文件夹名称",
                "是否在项目面板中使用粗体显示文件夹名称。",
                Some("project_panel.bold_folder_labels"),
                FieldRef::Text(FieldAccess::Direct("project_panel.bold_folder_labels", &["project_panel"])),
                true,
                None,
            )));
    items.push(SettingsPageItem::SettingItem(setting_item(
                USER,
                "显示滚动条",
                "在项目面板中显示滚动条。",
                Some("project_panel.scrollbar.show"),
                FieldRef::Text(FieldAccess::WithFallback("project_panel.scrollbar.show", "editor.scrollbar.show", &["project_panel", "project_panel.scrollbar"])),
                true,
                None,
            )));
    items.push(SettingsPageItem::SettingItem(setting_item(
                USER,
                "水平滚动",
                "是否允许项目面板水平滚动。禁用后，视图会始终锁定在最左侧，较长文件名会被裁剪。",
                Some("project_panel.scrollbar.horizontal_scroll"),
                FieldRef::Text(FieldAccess::Direct("project_panel.scrollbar.horizontal_scroll", &["project_panel", "project_panel.scrollbar"])),
                true,
                None,
            )));
    items.push(SettingsPageItem::SettingItem(setting_item(
                USER,
                "粘性滚动",
                "是否将父目录固定在项目面板顶部。",
                Some("project_panel.sticky_scroll"),
                FieldRef::Text(FieldAccess::Direct("project_panel.sticky_scroll", &["project_panel"])),
                true,
                None,
            )));
    items.push(SettingsPageItem::SettingItem(setting_item(
                USER,
                "显示缩进辅助线",
                "在项目面板中显示缩进辅助线。",
                Some("project_panel.indent_guides.show"),
                FieldRef::Text(FieldAccess::Direct("project_panel.indent_guides.show", &["project_panel", "project_panel.indent_guides"])),
                true,
                None,
            )));
    items.push(SettingsPageItem::SettingItem(setting_item(
                USER,
                "拖放",
                "是否在项目面板中启用拖放操作。",
                Some("project_panel.drag_and_drop"),
                FieldRef::Text(FieldAccess::Direct("project_panel.drag_and_drop", &["project_panel"])),
                true,
                None,
            )));
    items.push(SettingsPageItem::SettingItem(setting_item(
                USER,
                "隐藏根目录",
                "当窗口中只打开一个文件夹时，是否隐藏根目录条目。",
                Some("project_panel.drag_and_drop"),
                FieldRef::Text(FieldAccess::Direct("project_panel.hide_root", &["project_panel"])),
                true,
                None,
            )));
    items.push(SettingsPageItem::SettingItem(setting_item(
                USER,
                "隐藏隐藏项",
                "是否在项目面板中隐藏被标记为隐藏的条目。",
                Some("project_panel.hide_hidden"),
                FieldRef::Text(FieldAccess::Direct("project_panel.hide_hidden", &["project_panel"])),
                true,
                None,
            )));
    items.push(SettingsPageItem::SettingItem(setting_item(
                USER,
                "隐藏文件",
                "用于匹配将被视为“隐藏”并可从项目面板隐藏的文件的 glob 规则。",
                Some("worktree.hidden_files"),
                FieldRef::Text(FieldAccess::Direct("project.worktree.hidden_files", &[])),
                false,
                None,
            )));
    assert(outline(items@) =~= project_panel_outline());
    assert(settings_have_paths(items@));
    items
}

/// The entries of the section `auto_open_files`, as values.
pub open spec fn auto_open_files_outline() -> Seq<OutlineEntry> {
    seq![
        OutlineEntry::Header("自动打开文件"),
        OutlineEntry::Setting(setting_of(USER, "创建时", "是否在编辑器中自动打开新创建的文件。", Some("project_panel.auto_open.on_create"), FieldRef::Text(FieldAccess::Direct("project_panel.auto_open.on_create", &["project_panel", "project_panel.auto_open"])), true, None)),
        OutlineEntry::Setting(setting_of(USER, "粘贴时", "是否在粘贴或复制文件后自动打开它们。", Some("project_panel.auto_open.on_paste"), FieldRef::Text(FieldAccess::Direct("project_panel.auto_open.on_paste", &["project_panel", "project_panel.auto_open"])), true, None)),
        OutlineEntry::Setting(setting_of(USER, "拖入时", "是否自动打开从外部来源拖入的文件。", Some("project_panel.auto_open.on_drop"), FieldRef::Text(FieldAccess::Direct("project_panel.auto_open.on_drop", &["project_panel", "project_panel.auto_open"])), true, None)),
        OutlineEntry::Setting(setting_of(USER, "排序模式", "项目面板中条目的排序方式。", Some("project_panel.sort_mode"), FieldRef::Text(FieldAccess::Direct("project_panel.sort_mode", &["project_panel"])), true, None)),
    ]
}

fn auto_open_files_section() -> (items: Vec<SettingsPageItem>)
    ensures
        outline(items@) == auto_open_files_outline(),
        items_well_formed(items@),
{
    let mut items: Vec<SettingsPageItem> = Vec::new();
    items.push(SettingsPageItem::SectionHeader("自动打开文件"));
    items.push(SettingsPageItem::SettingItem(setting_item(
                USER,
                "创建时",
                "是否在编辑器中自动打开新创建的文件。",
                Some("project_panel.auto_open.on_create"),
                FieldRef::Text(FieldAccess::Direct("project_panel.auto_open.on_create", &["project_panel", "project_panel.auto_open"])),
                true,
                None,
            )));
    items.push(SettingsPageItem::SettingItem(setting_item(
                USER,
                "粘贴时",
                "是否在粘贴或复制文件后自动打开它们。",
                Some("project_panel.auto_open.on_paste"),
                FieldRef::Text(FieldAccess::Direct("project_panel.auto_open.on_paste", &["project_panel", "project_panel.auto_open"])),
                true,
                None,
            )));
    items.push(SettingsPageItem::SettingItem(setting_item(
                USER,
                "拖入时",
                "是否自动打开从外部来源拖入的文件。",
                Some("project_panel.auto_open.on_drop"),
                FieldRef::Text(FieldAccess::Direct("project_panel.auto_open.on_drop", &["project_panel", "project_panel.auto_open"])),
                true,
                None,
            )));
    items.push(SettingsPageItem::SettingItem(setting_item(
                USER,
                "排序模式",
                "项目面板中条目的排序方式。",
                Some("project_panel.sort_mode"),
                FieldRef::Text(FieldAccess::Direct("project_panel.sort_mode", &["project_panel"])),
                true,
                None,
            )));
    assert(outline(items@) =~= auto_open_files_outline());
    assert(settings_have_paths(items@));
    items
}

/// The entries of the section `outline_panel`, as values.
pub open spec fn outline_panel_outline() -> Seq<OutlineEntry> {
    seq![
        OutlineEntry::Header("大纲面板"),
        OutlineEntry::Setting(setting_of(USER, "大纲面板按钮", "在状态栏中显示大纲面板按钮。", Some("outline_panel.button"), FieldRef::Text(FieldAccess::Direct("outline_panel.button", &["outline_panel"])), true, None)),
        OutlineEntry::Setting(setting_of(USER, "大纲面板停靠位置", "大纲面板停靠的位置。", Some("outline_panel.dock"), FieldRef::Text(FieldAccess::Direct("outline_panel.dock", &["outline_panel"])), true, None)),
        OutlineEntry::Setting(setting_of(USER, "大纲面板默认宽度", "大纲面板的默认宽度（像素）。", Some("outline_panel.default_width"), FieldRef::Text(FieldAccess::Direct("outline_panel.default_width", &["outline_panel"])), true, None)),
        OutlineEntry::Setting(setting_of(USER, "文件图标", "在大纲面板中显示文件图标。", Some("outline_panel.file_icons"), FieldRef::Text(FieldAccess::Direct("outline_panel.file_icons", &["outline_panel"])), true, None)),
        OutlineEntry::Setting(setting_of(USER, "文件夹图标", "大纲面板中目录是否显示文件夹图标或折叠箭头。", Some("outline_panel.folder_icons"), FieldRef::Text(FieldAccess::Direct("outline_panel.folder_icons", &["outline_panel"])), true, None)),
        OutlineEntry::Setting(setting_of(USER, "缩进大小", "嵌套条目的缩进量。", Some("outline_panel.indent_size"), FieldRef::Text(FieldAccess::Direct("outline_panel.indent_size", &["outline_panel"])), true, None)),
        OutlineEntry::Setting(setting_of(USER, "自动定位条目", "当对应大纲条目变为活动项时，是否自动定位显示。", Some("outline_panel.auto_reveal_entries"), FieldRef::Text(FieldAccess::Direct("outline_panel.auto_reveal_entries", &["outline_panel"])), true, None)),
        OutlineEntry::Setting(setting_of(USER, "自动折叠目录", "当目录仅包含一个子目录时，是否自动折叠目录。", Some("outline_panel.auto_fold_dirs"), FieldRef::Text(FieldAccess::Direct("outline_panel.auto_fold_dirs", &["outline_panel"])), true, None)),
        OutlineEntry::Setting(setting_of(USER, "显示缩进辅助线", "在何时于大纲面板中显示缩进辅助线。", Some("outline_panel.indent_guides.show"), FieldRef::Text(FieldAccess::Direct("outline_panel.indent_guides.show", &["outline_panel", "outline_panel.indent_guides"])), true, None)),
    ]
}

fn outline_panel_section() -> (items: Vec<SettingsPageItem>)
    ensures
        outline(items@) == outline_panel_outline(),
        items_well_formed(items@),
{
    let mut items: Vec<SettingsPageItem> = Vec::new();
    items.push(SettingsPageItem::SectionHeader("大纲面板"));
    items.push(SettingsPageItem::SettingItem(setting_item(
                USER,
                "大纲面板按钮",
                "在状态栏中显示大纲面板按钮。",
                Some("outline_panel.button"),
                FieldRef::Text(FieldAccess::Direct("outline_panel.button", &["outline_panel"])),
                true,
                None,
            )));
    items.push(SettingsPageItem::SettingItem(setting_item(
                USER,
                "大纲面板停靠位置",
                "大纲面板停靠的位置。",
                Some("outline_panel.dock"),
                FieldRef::Text(FieldAccess::Direct("outline_panel.dock", &["outline_panel"])),
                true,
                None,
            )));
    items.push(SettingsPageItem::SettingItem(setting_item(
                USER,
                "大纲面板默认宽度",
                "大纲面板的默认宽度（像素）。",
                Some("outline_panel.default_width"),
                FieldRef::Text(FieldAccess::Direct("outline_panel.default_width", &["outline_panel"])),
                true,
                None,
            )));
    items.push(SettingsPageItem::SettingItem(setting_item(
                USER,
                "文件图标",
                "在大纲面板中显示文件图标。",
                Some("outline_panel.file_icons"),
                FieldRef::Text(FieldAccess::Direct("outline_panel.file_icons", &["outline_panel"])),
                true,
                None,
            )));
    items.push(SettingsPageItem::SettingItem(setting_item(
                USER,
                "文件夹图标",
                "大纲面板中目录是否显示文件夹图标或折叠箭头。",
                Some("outline_panel.folder_icons"),
                FieldRef::Text(FieldAccess::Direct("outline_panel.folder_icons", &["outline_panel"])),
                true,
                None,
            )));
    items.push(SettingsPageItem::SettingItem(setting_item(
                USER,
                "缩进大小",
                "嵌套条目的缩进量。",
                Some("outline_panel.indent_size"),
                FieldRef::Text(FieldAccess::Direct("outline_panel.indent_size", &["outline_panel"])),
                true,
                None,
            )));
    items.push(SettingsPageItem::SettingItem(setting_item(
                USER,
                "自动定位条目",
                "当对应大纲条目变为活动项时，是否自动定位显示。",
                Some("outline_panel.auto_reveal_entries"),
                FieldRef::Text(FieldAccess::Direct("outline_panel.auto_reveal_entries", &["outline_panel"])),
                true,
                None,
            )));
    items.push(SettingsPageItem::SettingItem(setting_item(
                USER,
                "自动折叠目录",
                "当目录仅包含一个子目录时，是否自动折叠目录。",
                Some("outline_panel.auto_fold_dirs"),
                FieldRef::Text(FieldAccess::Direct("outline_panel.auto_fold_dirs", &["outline_panel"])),
                true,
                None,
            )));
    items.push(SettingsPageItem::SettingItem(setting_item(
                USER,
                "显示缩进辅助线",
                "在何时于大纲面板中显示缩进辅助线。",
                Some("outline_panel.indent_guides.show"),
                FieldRef::Text(FieldAccess::Direct("outline_panel.indent_guides.show", &["outline_panel", "outline_panel.indent_guides"])),
                true,
                None,
            )));
    assert(outline(items@) =~= outline_panel_outline());
    assert(settings_have_paths(items@));
    items
}

/// The entries of the section `agent_panel`, as values.
pub open spec fn agent_panel_outline() -> Seq<OutlineEntry> {
    seq![
        OutlineEntry::Header("Agent 面板"),
        OutlineEntry::Setting(setting_of(USER, "Agent 面板按钮", "是否在状态栏中显示 Agent 面板按钮。", Some("agent.button"), FieldRef::Text(FieldAccess::Direct("agent.button", &["agent"])), true, None)),
        OutlineEntry::Setting(setting_of(USER, "Agent 面板停靠位置", "Agent 面板停靠的位置。", Some("agent.dock"), FieldRef::Text(FieldAccess::Direct("agent.dock", &["agent"])), true, None)),
        OutlineEntry::Setting(setting_of(USER, "Agent 面板默认宽度", "Agent 面板停靠在左侧或右侧时的默认宽度。", Some("agent.default_width"), FieldRef::Text(FieldAccess::Direct("agent.default_width", &["agent"])), true, None)),
        OutlineEntry::Setting(setting_of(USER, "Agent 面板默认高度", "Agent 面板停靠在底部时的默认高度。", Some("agent.default_height"), FieldRef::Text(FieldAccess::Direct("agent.default_height", &["agent"])), true, None)),
    ]
}

fn agent_panel_section() -> (items: Vec<SettingsPageItem>)
    ensures
        outline(items@) == agent_panel_outline(),
        items_well_formed(items@),
{
    let mut items: Vec<SettingsPageItem> = Vec::new();
    items.push(SettingsPageItem::SectionHeader("Agent 面板"));
    items.push(SettingsPageItem::SettingItem(setting_item(
                USER,
                "Agent 面板按钮",
                "是否在状态栏中显示 Agent 面板按钮。",
                Some("agent.button"),
                FieldRef::Text(FieldAccess::Direct("agent.button", &["agent"])),
                true,
                None,
            )));
    items.push(SettingsPageItem::SettingItem(setting_item(
                USER,
                "Agent 面板停靠位置",
                "Agent 面板停靠的位置。",
                Some("agent.dock"),
                FieldRef::Text(FieldAccess::Direct("agent.dock", &["agent"])),
                true,
                None,
            )));
    items.push(SettingsPageItem::SettingItem(setting_item(
                USER,
                "Agent 面板默认宽度",
                "Agent 面板停靠在左侧或右侧时的默认宽度。",
                Some("agent.default_width"),
                FieldRef::Text(FieldAccess::Direct("agent.default_width", &["agent"])),
                true,
                None,
            )));
    items.push(SettingsPageItem::SettingItem(setting_item(
                USER,
                "Agent 面板默认高度",
                "Agent 面板停靠在底部时的默认高度。",
                Some("agent.default_height"),
                FieldRef::Text(FieldAccess::Direct("agent.default_height", &["agent"])),
                true,
                None,
            )));
    assert(outline(items@) =~= agent_panel_outline());
    assert(settings_have_paths(items@));
    items
}

/// The entries of the page, section by section.
pub open spec fn panels_page_outline() -> Seq<OutlineEntry> {
    project_panel_outline() + auto_open_files_outline() + outline_panel_outline() + agent_panel_outline()
}

/// The "Panels" page: the project panel, automatic opening of files, the outline panel and
/// the agent panel.
pub fn panels_page() -> (page: SettingsPage)
    ensures
        page.title@ == "面板"@,
        outline(page.items@) == panels_page_outline(),
        items_well_formed(page.items@),
{
    let s0 = project_panel_section();
    let s1 = auto_open_files_section();
    let s2 = outline_panel_section();
    let s3 = agent_panel_section();
    let ghost v0 = s0@;
    let ghost v1 = s1@;
    let ghost v2 = s2@;
    let ghost v3 = s3@;
    let sections = vec![s0, s1, s2, s3];
    let ghost all = sections@;
    let items = concat_sections(sections);
    proof {
        let parts = seq![v0, v1, v2, v3];
        assert(views_of(all) =~= parts);
        reveal_with_fuel(Seq::flatten, 5);
        assert(items@ =~= v0 + v1 + v2 + v3);
        lemma_well_formed_concat(v0, v1);
        lemma_well_formed_concat(v0 + v1, v2);
        lemma_well_formed_concat(v0 + v1 + v2, v3);
    }
    SettingsPage { title: "面板", items }
}

} // verus!