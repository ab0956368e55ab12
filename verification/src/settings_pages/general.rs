//! The settings built by `general_page`.

use vstd::prelude::*;
use crate::settings_content::FieldAccess;
use crate::settings_page::{
    DynamicItem, FieldRef, OutlineEntry, PROJECT, SettingItem, SettingsFieldMetadata, SettingsPage, SettingsPageItem,
    StructuredField, SubPage, SubPageLink, USER, concat_sections, items_well_formed, lemma_well_formed_concat, outline,
    placeholder, placeholder_of, setting_item, setting_of, settings_have_paths, variant_outlines, views_of,
};

verus! {

/// The entries of the section `general_settings`, as values.
pub open spec fn general_settings_outline() -> Seq<OutlineEntry> {
    seq![
        OutlineEntry::Header("常规设置"),
        OutlineEntry::Setting(setting_of(PROJECT, "项目名称", "此项目显示的名称。若留空，将显示根目录名称。", Some("project_name"), FieldRef::Text(FieldAccess::NonEmptyText("project.worktree.project_name", &[])), true, placeholder_of("项目名称"))),
        OutlineEntry::Setting(setting_of(USER, "无标签页时关闭行为", "在没有标签页时使用“关闭当前项”操作时的处理方式。", Some("when_closing_with_no_tabs"), FieldRef::Text(FieldAccess::Direct("workspace.when_closing_with_no_tabs", &[])), true, None)),
        OutlineEntry::Setting(setting_of(USER, "关闭最后一个窗口时", "关闭最后一个窗口时要执行的操作。", Some("on_last_window_closed"), FieldRef::Text(FieldAccess::Direct("workspace.on_last_window_closed", &[])), true, None)),
        OutlineEntry::Setting(setting_of(USER, "使用系统路径对话框", "对“打开”和“另存为”使用系统原生对话框。", Some("use_system_path_prompts"), FieldRef::Text(FieldAccess::Direct("workspace.use_system_path_prompts", &[])), true, None)),
        OutlineEntry::Setting(setting_of(USER, "使用系统提示框", "对确认操作使用系统原生对话框。", Some("use_system_prompts"), FieldRef::Text(FieldAccess::Direct("workspace.use_system_prompts", &[])), true, None)),
        OutlineEntry::Setting(setting_of(USER, "隐藏私密值", "隐藏私密文件中的变量值。", Some("redact_private_values"), FieldRef::Text(FieldAccess::Direct("editor.redact_private_values", &[])), true, None)),
        OutlineEntry::Setting(setting_of(USER, "私密文件", "用于匹配文件路径并判断文件是否为私密文件的 glob 规则。", Some("worktree.private_files"), FieldRef::Text(FieldAccess::Direct("project.worktree.private_files", &[])), false, None)),
    ]
}

fn general_settings_section() -> (items: Vec<SettingsPageItem>)
    ensures
        outline(items@) == general_settings_outline(),
        items_well_formed(items@),
{
    let mut items: Vec<SettingsPageItem> = Vec::new();
    items.push(SettingsPageItem::SectionHeader("常规设置"));
    items.push(SettingsPageItem::SettingItem(setting_item(
                PROJECT,
                "项目名称",
                "此项目显示的名称。若留空，将显示根目录名称。",
                Some("project_name"),
                FieldRef::Text(FieldAccess::NonEmptyText("project.worktree.project_name", &[])),
                true,
                placeholder("项目名称"),
            )));
    items.push(SettingsPageItem::SettingItem(setting_item(
                USER,
                "无标签页时关闭行为",
                "在没有标签页时使用“关闭当前项”操作时的处理方式。",
                Some("when_closing_with_no_tabs"),
                FieldRef::Text(FieldAccess::Direct("workspace.when_closing_with_no_tabs", &[])),
                true,
                None,
            )));
    items.push(SettingsPageItem::SettingItem(setting_item(
                USER,
                "关闭最后一个窗口时",
                "关闭最后一个窗口时要执行的操作。",
                Some("on_last_window_closed"),
                FieldRef::Text(FieldAccess::Direct("workspace.on_last_window_closed", &[])),
                true,
                None,
            )));
    items.push(SettingsPageItem::SettingItem(setting_item(
                USER,
                "使用系统路径对话框",
                "对“打开”和“另存为”使用系统原生对话框。",
                Some("use_system_path_prompts"),
                FieldRef::Text(FieldAccess::Direct("workspace.use_system_path_prompts", &[])),
                true,
                None,
            )));
    items.push(SettingsPageItem::SettingItem(setting_item(
                USER,
                "使用系统提示框",
                "对确认操作使用系统原生对话框。",
                Some("use_system_prompts"),
                FieldRef::Text(FieldAccess::Direct("workspace.use_system_prompts", &[])),
                true,
                None,
            )));
    items.push(SettingsPageItem::SettingItem(setting_item(
                USER,
                "隐藏私密值",
                "隐藏私密文件中的变量值。",
                Some("redact_private_values"),
                FieldRef::Text(FieldAccess::Direct("editor.redact_private_values", &[])),
                true,
                None,
            )));
    items.push(SettingsPageItem::SettingItem(setting_item(
                USER,
                "私密文件",
                "用于匹配文件路径并判断文件是否为私密文件的 glob 规则。",
                Some("worktree.private_files"),
                FieldRef::Text(FieldAccess::Direct("project.worktree.private_files", &[])),
                false,
                None,
            )));
    assert(outline(items@) =~= general_settings_outline());
    assert(settings_have_paths(items@));
    items
}

/// The entries of the section `security`, as values.
pub open spec fn security_outline() -> Seq<OutlineEntry> {
    seq![
        OutlineEntry::Header("安全"),
        OutlineEntry::Setting(setting_of(USER, "默认信任所有项目", "打开 Prism 时自动信任所有项目，从而避免进入受限模式，无需为每个新项目单独授权即可使用全部功能。", Some("session.trust_all_projects"), FieldRef::Text(FieldAccess::Direct("session.trust_all_worktrees", &["session"])), true, None)),
    ]
}

fn security_section() -> (items: Vec<SettingsPageItem>)
    ensures
        outline(items@) == security_outline(),
        items_well_formed(items@),
{
    let mut items: Vec<SettingsPageItem> = Vec::new();
    items.push(SettingsPageItem::SectionHeader("安全"));
    items.push(SettingsPageItem::SettingItem(setting_item(
                USER,
                "默认信任所有项目",
                "打开 Prism 时自动信任所有项目，从而避免进入受限模式，无需为每个新项目单独授权即可使用全部功能。",
                Some("session.trust_all_projects"),
                FieldRef::Text(FieldAccess::Direct("session.trust_all_worktrees", &["session"])),
                true,
                None,
            )));
    assert(outline(items@) =~= security_outline());
    assert(settings_have_paths(items@));
    items
}

/// The entries of the section `workspace_restoration`, as values.
pub open spec fn workspace_restoration_outline() -> Seq<OutlineEntry> {
    seq![
        OutlineEntry::Header("工作区恢复"),
        OutlineEntry::Setting(setting_of(USER, "恢复未保存缓冲区", "重启后是否恢复未保存的缓冲区。", Some("session.restore_unsaved_buffers"), FieldRef::Text(FieldAccess::Direct("session.restore_unsaved_buffers", &["session"])), true, None)),
        OutlineEntry::Setting(setting_of(USER, "启动时恢复", "打开 Prism 时，从上一次会话中恢复哪些内容。", Some("restore_on_startup"), FieldRef::Text(FieldAccess::Direct("workspace.restore_on_startup", &[])), true, None)),
    ]
}

fn workspace_restoration_section() -> (items: Vec<SettingsPageItem>)
    ensures
        outline(items@) == workspace_restoration_outline(),
        items_well_formed(items@),
{
    let mut items: Vec<SettingsPageItem> = Vec::new();
    items.push(SettingsPageItem::SectionHeader("工作区恢复"));
    items.push(SettingsPageItem::SettingItem(setting_item(
                USER,
                "恢复未保存缓冲区",
                "重启后是否恢复未保存的缓冲区。",
                Some("session.restore_unsaved_buffers"),
                FieldRef::Text(FieldAccess::Direct("session.restore_unsaved_buffers", &["session"])),
                true,
                None,
            )));
    items.push(SettingsPageItem::SettingItem(setting_item(
                USER,
                "启动时恢复",
                "打开 Prism 时，从上一次会话中恢复哪些内容。",
                Some("restore_on_startup"),
                FieldRef::Text(FieldAccess::Direct("workspace.restore_on_startup", &[])),
                true,
                None,
            )));
    assert(outline(items@) =~= workspace_restoration_outline());
    assert(settings_have_paths(items@));
    items
}

/// The entries of the page, section by section.
pub open spec fn general_page_outline() -> Seq<OutlineEntry> {
    general_settings_outline() + security_outline() + workspace_restoration_outline()
}

/// The "General" page: project name, window and dialog behaviour, privacy, trust and
/// what is restored on startup.
pub fn general_page() -> (page: SettingsPage)
    ensures
        page.title@ == "常规"@,
        outline(page.items@) == general_page_outline(),
        items_well_formed(page.items@),
{
    let s0 = general_settings_section();
    let s1 = security_section();
    let s2 = workspace_restoration_section();
    let ghost v0 = s0@;
    let ghost v1 = s1@;
    let ghost v2 = s2@;
    let sections = vec![s0, s1, s2];
    let ghost all = sections@;
    let items = concat_sections(sections);
    proof {
        let parts = seq![v0, v1, v2];
        assert(views_of(all) =~= parts);
        reveal_with_fuel(Seq::flatten, 4);
        assert(items@ =~= v0 + v1 + v2);
        lemma_well_formed_concat(v0, v1);
        lemma_well_formed_concat(v0 + v1, v2);
    }
    SettingsPage { title: "常规", items }
}

} // verus!