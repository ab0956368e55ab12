//! The settings built by `ai_page`.

use vstd::prelude::*;
use crate::settings_content::FieldAccess;
use crate::settings_page::{
    DynamicItem, FieldRef, OutlineEntry, PROJECT, SettingItem, SettingsFieldMetadata, SettingsPage, SettingsPageItem,
    StructuredField, SubPage, SubPageLink, USER, concat_sections, items_well_formed, lemma_well_formed_concat, outline,
    placeholder, placeholder_of, setting_item, setting_of, settings_have_paths, variant_outlines, views_of,
};

verus! {

/// The entries of the section `general`, as values.
pub open spec fn general_outline() -> Seq<OutlineEntry> {
    seq![
        OutlineEntry::Header("General"),
        OutlineEntry::Setting(setting_of(USER | PROJECT, "禁用 AI", "是否禁用 Prism 中的所有 AI 功能。", Some("disable_ai"), FieldRef::Text(FieldAccess::Direct("project.disable_ai", &[])), true, None)),
    ]
}

fn general_section() -> (items: Vec<SettingsPageItem>)
    ensures
        outline(items@) == general_outline(),
        items_well_formed(items@),
{
    let mut items: Vec<SettingsPageItem> = Vec::new();
    items.push(SettingsPageItem::SectionHeader("General"));
    items.push(SettingsPageItem::SettingItem(setting_item(
                USER | PROJECT,
                "禁用 AI",
                "是否禁用 Prism 中的所有 AI 功能。",
                Some("disable_ai"),
                FieldRef::Text(FieldAccess::Direct("project.disable_ai", &[])),
                true,
                None,
            )));
    assert(outline(items@) =~= general_outline());
    assert(settings_have_paths(items@));
    items
}

/// The entries of the section `agent_configuration`, as values.
pub open spec fn agent_configuration_outline(agent_v2_enabled: bool) -> Seq<OutlineEntry> {
    seq![
        OutlineEntry::Header("Agent 配置"),
        OutlineEntry::SubPage(SubPageLink {
            title: "工具权限",
            json_path: Some("agent.tool_permissions"),
            description: Some("为特定工具输入设置正则规则，以自动允许、自动拒绝，或始终请求确认。"),
            in_json: true,
            files: USER,
            page: SubPage::ToolPermissions,
        }),
    ]
    + (if agent_v2_enabled { seq![OutlineEntry::Setting(setting_of(USER, "新线程位置", "新线程是在当前本地项目中启动，还是在新的 Git 工作树中启动。", Some("agent.new_thread_location"), FieldRef::Text(FieldAccess::Direct("agent.new_thread_location", &["agent"])), true, None))] } else { seq![] })
    + seq![
        OutlineEntry::Setting(setting_of(USER, "单文件审查", "启用后，Agent 的编辑也会显示在单文件缓冲区中供你审查。", Some("agent.single_file_review"), FieldRef::Text(FieldAccess::Direct("agent.single_file_review", &["agent"])), true, None)),
        OutlineEntry::Setting(setting_of(USER, "启用反馈", "显示点赞/点踩按钮，用于对 Agent 编辑结果进行反馈。", Some("agent.enable_feedback"), FieldRef::Text(FieldAccess::Direct("agent.enable_feedback", &["agent"])), true, None)),
        OutlineEntry::Setting(setting_of(USER, "Agent 等待时通知", "当 Agent 完成响应或在执行工具操作前需要确认时，在何处显示通知。", Some("agent.notify_when_agent_waiting"), FieldRef::Text(FieldAccess::Direct("agent.notify_when_agent_waiting", &["agent"])), true, None)),
        OutlineEntry::Setting(setting_of(USER, "展开编辑卡片", "是否默认展开 Agent 面板中的编辑卡片，以显示 diff 预览。", Some("agent.expand_edit_card"), FieldRef::Text(FieldAccess::Direct("agent.expand_edit_card", &["agent"])), true, None)),
        OutlineEntry::Setting(setting_of(USER, "展开终端卡片", "是否默认展开 Agent 面板中的终端卡片，以显示完整命令输出。", Some("agent.expand_terminal_card"), FieldRef::Text(FieldAccess::Direct("agent.expand_terminal_card", &["agent"])), true, None)),
        OutlineEntry::Setting(setting_of(USER, "终端停止时取消生成", "点击正在运行的终端工具上的停止按钮时，是否同时取消 Agent 的生成。注意，这只对停止按钮生效，不影响终端内的 ctrl+c。", Some("agent.cancel_generation_on_terminal_stop"), FieldRef::Text(FieldAccess::Direct("agent.cancel_generation_on_terminal_stop", &["agent"])), true, None)),
        OutlineEntry::Setting(setting_of(USER, "使用修饰键发送", "是否始终使用 cmd-enter（Linux 或 Windows 上为 ctrl-enter）发送消息。", Some("agent.use_modifier_to_send"), FieldRef::Text(FieldAccess::Direct("agent.use_modifier_to_send", &["agent"])), true, None)),
        OutlineEntry::Setting(setting_of(USER, "消息编辑器最少行数", "Agent 消息编辑器显示的最少行数。", Some("agent.message_editor_min_lines"), FieldRef::Text(FieldAccess::Direct("agent.message_editor_min_lines", &["agent"])), true, None)),
        OutlineEntry::Setting(setting_of(USER, "显示轮次统计", "是否显示生成耗时、最终轮次耗时等轮次统计信息。", Some("agent.show_turn_stats"), FieldRef::Text(FieldAccess::Direct("agent.show_turn_stats", &["agent"])), true, None)),
    ]
}

fn agent_configuration_section(agent_v2_enabled: bool) -> (items: Vec<SettingsPageItem>)
    ensures
        outline(items@) == agent_configuration_outline(agent_v2_enabled),
        items_well_formed(items@),
{
    let mut items: Vec<SettingsPageItem> = Vec::new();
    items.push(SettingsPageItem::SectionHeader("Agent 配置"));
    items.push(SettingsPageItem::SubPageLink(SubPageLink {
            title: "工具权限",
            json_path: Some("agent.tool_permissions"),
            description: Some("为特定工具输入设置正则规则，以自动允许、自动拒绝，或始终请求确认。"),
            in_json: true,
            files: USER,
            page: SubPage::ToolPermissions,
        }));
    if agent_v2_enabled {
        items.push(SettingsPageItem::SettingItem(setting_item(
                    USER,
                    "新线程位置",
                    "新线程是在当前本地项目中启动，还是在新的 Git 工作树中启动。",
                    Some("agent.new_thread_location"),
                    FieldRef::Text(FieldAccess::Direct("agent.new_thread_location", &["agent"])),
                    true,
                    None,
                )));
    }
    items.push(SettingsPageItem::SettingItem(setting_item(
                USER,
                "单文件审查",
                "启用后，Agent 的编辑也会显示在单文件缓冲区中供你审查。",
                Some("agent.single_file_review"),
                FieldRef::Text(FieldAccess::Direct("agent.single_file_review", &["agent"])),
                true,
                None,
            )));
    items.push(SettingsPageItem::SettingItem(setting_item(
                USER,
                "启用反馈",
                "显示点赞/点踩按钮，用于对 Agent 编辑结果进行反馈。",
                Some("agent.enable_feedback"),
                FieldRef::Text(FieldAccess::Direct("agent.enable_feedback", &["agent"])),
                true,
                None,
            )));
    items.push(SettingsPageItem::SettingItem(setting_item(
                USER,
                "Agent 等待时通知",
                "当 Agent 完成响应或在执行工具操作前需要确认时，在何处显示通知。",
                Some("agent.notify_when_agent_waiting"),
                FieldRef::Text(FieldAccess::Direct("agent.notify_when_agent_waiting", &["agent"])),
                true,
                None,
            )));
    items.push(SettingsPageItem::SettingItem(setting_item(
                USER,
                "展开编辑卡片",
                "是否默认展开 Agent 面板中的编辑卡片，以显示 diff 预览。",
                Some("agent.expand_edit_card"),
                FieldRef::Text(FieldAccess::Direct("agent.expand_edit_card", &["agent"])),
                true,
                None,
            )));
    items.push(SettingsPageItem::SettingItem(setting_item(
                USER,
                "展开终端卡片",
                "是否默认展开 Agent 面板中的终端卡片，以显示完整命令输出。",
                Some("agent.expand_terminal_card"),
                FieldRef::Text(FieldAccess::Direct("agent.expand_terminal_card", &["agent"])),
                true,
                None,
            )));
    items.push(SettingsPageItem::SettingItem(setting_item(
                USER,
                "终端停止时取消生成",
                "点击正在运行的终端工具上的停止按钮时，是否同时取消 Agent 的生成。注意，这只对停止按钮生效，不影响终端内的 ctrl+c。",
                Some("agent.cancel_generation_on_terminal_stop"),
                FieldRef::Text(FieldAccess::Direct("agent.cancel_generation_on_terminal_stop", &["agent"])),
                true,
                None,
            )));
    items.push(SettingsPageItem::SettingItem(setting_item(
                USER,
                "使用修饰键发送",
                "是否始终使用 cmd-enter（Linux 或 Windows 上为 ctrl-enter）发送消息。",
                Some("agent.use_modifier_to_send"),
                FieldRef::Text(FieldAccess::Direct("agent.use_modifier_to_send", &["agent"])),
                true,
                None,
            )));
    items.push(SettingsPageItem::SettingItem(setting_item(
                USER,
                "消息编辑器最少行数",
                "Agent 消息编辑器显示的最少行数。",
                Some("agent.message_editor_min_lines"),
                FieldRef::Text(FieldAccess::Direct("agent.message_editor_min_lines", &["agent"])),
                true,
                None,
            )));
    items.push(SettingsPageItem::SettingItem(setting_item(
                USER,
                "显示轮次统计",
                "是否显示生成耗时、最终轮次耗时等轮次统计信息。",
                Some("agent.show_turn_stats"),
                FieldRef::Text(FieldAccess::Direct("agent.show_turn_stats", &["agent"])),
                true,
                None,
            )));
    assert(outline(items@) =~= agent_configuration_outline(agent_v2_enabled));
    assert(settings_have_paths(items@));
    items
}

/// The entries of the section `context_servers`, as values.
pub open spec fn context_servers_outline() -> Seq<OutlineEntry> {
    seq![
        OutlineEntry::Header("上下文服务器"),
        OutlineEntry::Setting(setting_of(USER | PROJECT, "上下文服务器超时", "上下文服务器工具调用的默认超时时间（秒）。可在 context_servers 配置中按服务器单独覆盖。", Some("context_server_timeout"), FieldRef::Text(FieldAccess::Direct("project.context_server_timeout", &[])), true, None)),
    ]
}

fn context_servers_section() -> (items: Vec<SettingsPageItem>)
    ensures
        outline(items@) == context_servers_outline(),
        items_well_formed(items@),
{
    let mut items: Vec<SettingsPageItem> = Vec::new();
    items.push(SettingsPageItem::SectionHeader("上下文服务器"));
    items.push(SettingsPageItem::SettingItem(setting_item(
                USER | PROJECT,
                "上下文服务器超时",
                "上下文服务器工具调用的默认超时时间（秒）。可在 context_servers 配置中按服务器单独覆盖。",
                Some("context_server_timeout"),
                FieldRef::Text(FieldAccess::Direct("project.context_server_timeout", &[])),
                true,
                None,
            )));
    assert(outline(items@) =~= context_servers_outline());
    assert(settings_have_paths(items@));
    items
}

/// The entries of the page, section by section.
pub open spec fn ai_page_outline(agent_v2_enabled: bool) -> Seq<OutlineEntry> {
    general_outline() + agent_configuration_outline(agent_v2_enabled) + context_servers_outline()
}

/// The "AI" page: disabling AI, the agent's configuration (the new-thread location only
/// when the second agent version is enabled) and context servers.
pub fn ai_page(agent_v2_enabled: bool) -> (page: SettingsPage)
    ensures
        page.title@ == "AI"@,
        outline(page.items@) == ai_page_outline(agent_v2_enabled),
        items_well_formed(page.items@),
{
    let s0 = general_section();
    let s1 = agent_configuration_section(agent_v2_enabled);
    let s2 = context_servers_section();
    let ghost v0 = s0@;
    let ghost v1 = s1@;
    let ghost v2 = s2@;
    let sections = vec![s0, s1, s2];
    let ghost all = sections@;
    let items = concat_sections(sections);
    proof {
        let parts = seq![v0, v1, v2];
        assert(views_of(all) =~= parts);
        reveal_with_fuel(Seq::flatten, 4);
        assert(items@ =~= v0 + v1 + v2);
        lemma_well_formed_concat(v0, v1);
        lemma_well_formed_concat(v0 + v1, v2);
    }
    SettingsPage { title: "AI", items }
}

} // verus!