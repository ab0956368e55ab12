//! The settings built by `search_and_files_page`.

use vstd::prelude::*;
use crate::settings_content::FieldAccess;
use crate::settings_page::{
    DynamicItem, FieldRef, OutlineEntry, PROJECT, SettingItem, SettingsFieldMetadata, SettingsPage, SettingsPageItem,
    StructuredField, SubPage, SubPageLink, USER, concat_sections, items_well_formed, lemma_well_formed_concat, outline,
    placeholder, placeholder_of, setting_item, setting_of, settings_have_paths, variant_outlines, views_of,
};

verus! {

/// The entries of the section `search`, as values.
pub open spec fn search_outline() -> Seq<OutlineEntry> {
    seq![
        OutlineEntry::Header("搜索"),
        OutlineEntry::Setting(setting_of(USER, "全词匹配", "默认按完整单词搜索。", Some("search.whole_word"), FieldRef::Text(FieldAccess::Direct("editor.search.whole_word", &["editor.search"])), true, None)),
        OutlineEntry::Setting(setting_of(USER, "区分大小写", "默认区分大小写搜索。", Some("search.case_sensitive"), FieldRef::Text(FieldAccess::Direct("editor.search.case_sensitive", &["editor.search"])), true, None)),
        OutlineEntry::Setting(setting_of(USER, "使用 Smartcase 搜索", "是否根据搜索内容自动启用区分大小写搜索。", Some("use_smartcase_search"), FieldRef::Text(FieldAccess::Direct("editor.use_smartcase_search", &[])), true, None)),
        OutlineEntry::Setting(setting_of(USER, "包含已忽略文件", "默认在搜索结果中包含已忽略文件。", Some("search.include_ignored"), FieldRef::Text(FieldAccess::Direct("editor.search.include_ignored", &["editor.search"])), true, None)),
        OutlineEntry::Setting(setting_of(USER, "正则表达式", "默认使用正则表达式搜索。", Some("search.regex"), FieldRef::Text(FieldAccess::Direct("editor.search.regex", &["editor.search"])), true, None)),
        OutlineEntry::Setting(setting_of(USER, "搜索循环", "编辑器内搜索结果是否循环。", Some("search_wrap"), FieldRef::Text(FieldAccess::Direct("editor.search_wrap", &[])), true, None)),
        OutlineEntry::Setting(setting_of(USER, "匹配项居中", "是否将当前匹配项显示在编辑器中间。", Some("editor.search.center_on_match"), FieldRef::Text(FieldAccess::Direct("editor.search.center_on_match", &["editor.search"])), true, None)),
        OutlineEntry::Setting(setting_of(USER, "从光标处填充搜索词", "在何时根据光标下的文本自动填充新的搜索词。", Some("seed_search_query_from_cursor"), FieldRef::Text(FieldAccess::Direct("editor.seed_search_query_from_cursor", &[])), true, None)),
    ]
}

fn search_section() -> (items: Vec<SettingsPageItem>)
    ensures
        outline(items@) == search_outline(),
        items_well_formed(items@),
{
    let mut items: Vec<SettingsPageItem> = Vec::new();
    items.push(SettingsPageItem::SectionHeader("搜索"));
    items.push(SettingsPageItem::SettingItem(setting_item(
                USER,
                "全词匹配",
                "默认按完整单词搜索。",
                Some("search.whole_word"),
                FieldRef::Text(FieldAccess::Direct("editor.search.whole_word", &["editor.search"])),
                true,
                None,
            )));
    items.push(SettingsPageItem::SettingItem(setting_item(
                USER,
                "区分大小写",
                "默认区分大小写搜索。",
                Some("search.case_sensitive"),
                FieldRef::Text(FieldAccess::Direct("editor.search.case_sensitive", &["editor.search"])),
                true,
                None,
            )));
    items.push(SettingsPageItem::SettingItem(setting_item(
                USER,
                "使用 Smartcase 搜索",
                "是否根据搜索内容自动启用区分大小写搜索。",
                Some("use_smartcase_search"),
                FieldRef::Text(FieldAccess::Direct("editor.use_smartcase_search", &[])),
                true,
                None,
            )));
    items.push(SettingsPageItem::SettingItem(setting_item(
                USER,
                "包含已忽略文件",
                "默认在搜索结果中包含已忽略文件。",
                Some("search.include_ignored"),
                FieldRef::Text(FieldAccess::Direct("editor.search.include_ignored", &["editor.search"])),
                true,
                None,
            )));
    items.push(SettingsPageItem::SettingItem(setting_item(
                USER,
                "正则表达式",
                "默认使用正则表达式搜索。",
                Some("search.regex"),
                FieldRef::Text(FieldAccess::Direct("editor.search.regex", &["editor.search"])),
                true,
                None,
            )));
    items.push(SettingsPageItem::SettingItem(setting_item(
                USER,
                "搜索循环",
                "编辑器内搜索结果是否循环。",
                Some("search_wrap"),
                FieldRef::Text(FieldAccess::Direct("editor.search_wrap", &[])),
                true,
                None,
            )));
    items.push(SettingsPageItem::SettingItem(setting_item(
                USER,
                "匹配项居中",
                "是否将当前匹配项显示在编辑器中间。",
                Some("editor.search.center_on_match"),
                FieldRef::Text(FieldAccess::Direct("editor.search.center_on_match", &["editor.search"])),
                true,
                None,
            )));
    items.push(SettingsPageItem::SettingItem(setting_item(
                USER,
                "从光标处填充搜索词",
                "在何时根据光标下的文本自动填充新的搜索词。",
                Some("seed_search_query_from_cursor"),
                FieldRef::Text(FieldAccess::Direct("editor.seed_search_query_from_cursor", &[])),
                true,
                None,
            )));
    assert(outline(items@) =~= search_outline());
    assert(settings_have_paths(items@));
    items
}

/// The entries of the section `file_finder`, as values.
pub open spec fn file_finder_outline() -> Seq<OutlineEntry> {
    seq![
        OutlineEntry::Header("文件查找器"),
        OutlineEntry::Setting(setting_of(USER, "搜索时包含已忽略文件", "搜索时包含被 gitignore 忽略的文件。", Some("file_finder.include_ignored"), FieldRef::Text(FieldAccess::Direct("file_finder.include_ignored", &["file_finder"])), true, None)),
        OutlineEntry::Setting(setting_of(USER, "文件图标", "在文件查找器中显示文件图标。", Some("file_finder.file_icons"), FieldRef::Text(FieldAccess::Direct("file_finder.file_icons", &["file_finder"])), true, None)),
        OutlineEntry::Setting(setting_of(USER, "弹窗最大宽度", "决定文件查找器相对于可用窗口宽度最多可占用多少空间。", Some("file_finder.modal_max_width"), FieldRef::Text(FieldAccess::Direct("file_finder.modal_max_width", &["file_finder"])), true, None)),
        OutlineEntry::Setting(setting_of(USER, "搜索中跳过当前文件聚焦", "文件查找器是否在搜索结果中跳过对当前活动文件的聚焦。", Some("file_finder.skip_focus_for_active_in_search"), FieldRef::Text(FieldAccess::Direct("file_finder.skip_focus_for_active_in_search", &["file_finder"])), true, None)),
    ]
}

fn file_finder_section() -> (items: Vec<SettingsPageItem>)
    ensures
        outline(items@) == file_finder_outline(),
        items_well_formed(items@),
{
    let mut items: Vec<SettingsPageItem> = Vec::new();
    items.push(SettingsPageItem::SectionHeader("文件查找器"));
    items.push(SettingsPageItem::SettingItem(setting_item(
                USER,
                "搜索时包含已忽略文件",
                "搜索时包含被 gitignore 忽略的文件。",
                Some("file_finder.include_ignored"),
                FieldRef::Text(FieldAccess::Direct("file_finder.include_ignored", &["file_finder"])),
                true,
                None,
            )));
    items.push(SettingsPageItem::SettingItem(setting_item(
                USER,
                "文件图标",
                "在文件查找器中显示文件图标。",
                Some("file_finder.file_icons"),
                FieldRef::Text(FieldAccess::Direct("file_finder.file_icons", &["file_finder"])),
                true,
                None,
            )));
    items.push(SettingsPageItem::SettingItem(setting_item(
                USER,
                "弹窗最大宽度",
                "决定文件查找器相对于可用窗口宽度最多可占用多少空间。",
                Some("file_finder.modal_max_width"),
                FieldRef::Text(FieldAccess::Direct("file_finder.modal_max_width", &["file_finder"])),
                true,
                None,
            )));
    items.push(SettingsPageItem::SettingItem(setting_item(
                USER,
                "搜索中跳过当前文件聚焦",
                "文件查找器是否在搜索结果中跳过对当前活动文件的聚焦。",
                Some("file_finder.skip_focus_for_active_in_search"),
                FieldRef::Text(FieldAccess::Direct("file_finder.skip_focus_for_active_in_search", &["file_finder"])),
                true,
                None,
            )));
    assert(outline(items@) =~= file_finder_outline());
    assert(settings_have_paths(items@));
    items
}

/// The entries of the section `file_scan`, as values.
pub open spec fn file_scan_outline() -> Seq<OutlineEntry> {
    seq![
        OutlineEntry::Header("文件扫描"),
        OutlineEntry::Setting(setting_of(USER, "文件扫描排除项", "Prism 将完全排除的文件或 glob 规则。它们会在文件扫描、文件搜索中被跳过，并且不会显示在项目文件树中。优先级高于“文件扫描包含项”。", Some("file_scan_exclusions"), FieldRef::Text(FieldAccess::Direct("project.worktree.file_scan_exclusions", &[])), false, None)),
        OutlineEntry::Setting(setting_of(USER, "文件扫描包含项", "即使被 git 忽略，Prism 仍会包含的文件或 glob 规则。这适用于未被 git 跟踪但对项目仍然重要的文件。注意，过于宽泛的 glob 规则可能会拖慢 Prism 的文件扫描速度。“文件扫描排除项”优先于这些包含项。", Some("file_scan_inclusions"), FieldRef::Text(FieldAccess::Direct("project.worktree.file_scan_inclusions", &[])), false, None)),
        OutlineEntry::Setting(setting_of(USER, "恢复文件状态", "重新打开文件时恢复上一次的状态。", Some("restore_on_file_reopen"), FieldRef::Text(FieldAccess::Direct("workspace.restore_on_file_reopen", &[])), true, None)),
        OutlineEntry::Setting(setting_of(USER, "文件删除时关闭", "自动关闭已被删除的文件。", Some("close_on_file_delete"), FieldRef::Text(FieldAccess::Direct("workspace.close_on_file_delete", &[])), true, None)),
    ]
}

fn file_scan_section() -> (items: Vec<SettingsPageItem>)
    ensures
        outline(items@) == file_scan_outline(),
        items_well_formed(items@),
{
    let mut items: Vec<SettingsPageItem> = Vec::new();
    items.push(SettingsPageItem::SectionHeader("文件扫描"));
    items.push(SettingsPageItem::SettingItem(setting_item(
                USER,
                "文件扫描排除项",
                "Prism 将完全排除的文件或 glob 规则。它们会在文件扫描、文件搜索中被跳过，并且不会显示在项目文件树中。优先级高于“文件扫描包含项”。",
                Some("file_scan_exclusions"),
                FieldRef::Text(FieldAccess::Direct("project.worktree.file_scan_exclusions", &[])),
                false,
                None,
            )));
    items.push(SettingsPageItem::SettingItem(setting_item(
                USER,
                "文件扫描包含项",
                "即使被 git 忽略，Prism 仍会包含的文件或 glob 规则。这适用于未被 git 跟踪但对项目仍然重要的文件。注意，过于宽泛的 glob 规则可能会拖慢 Prism 的文件扫描速度。“文件扫描排除项”优先于这些包含项。",
                Some("file_scan_inclusions"),
                FieldRef::Text(FieldAccess::Direct("project.worktree.file_scan_inclusions", &[])),
                false,
                None,
            )));
    items.push(SettingsPageItem::SettingItem(setting_item(
                USER,
                "恢复文件状态",
                "重新打开文件时恢复上一次的状态。",
                Some("restore_on_file_reopen"),
                FieldRef::Text(FieldAccess::Direct("workspace.restore_on_file_reopen", &[])),
                true,
                None,
            )));
    items.push(SettingsPageItem::SettingItem(setting_item(
                USER,
                "文件删除时关闭",
                "自动关闭已被删除的文件。",
                Some("close_on_file_delete"),
                FieldRef::Text(FieldAccess::Direct("workspace.close_on_file_delete", &[])),
                true,
                None,
            )));
    assert(outline(items@) =~= file_scan_outline());
    assert(settings_have_paths(items@));
    items
}

/// The entries of the page, section by section.
pub open spec fn search_and_files_page_outline() -> Seq<OutlineEntry> {
    search_outline() + file_finder_outline() + file_scan_outline()
}

/// The "Search & Files" page: search defaults, the file finder and which files are scanned.
pub fn search_and_files_page() -> (page: SettingsPage)
    ensures
        page.title@ == "搜索与文件"@,
        outline(page.items@) == search_and_files_page_outline(),
        items_well_formed(page.items@),
{
    let s0 = search_section();
    let s1 = file_finder_section();
    let s2 = file_scan_section();
    let ghost v0 = s0@;
    let ghost v1 = s1@;
    let ghost v2 = s2@;
    let sections = vec![s0, s1, s2];
    let ghost all = sections@;
    let items = concat_sections(sections);
    proof {
        let parts = seq![v0, v1, v2];
        assert(views_of(all) =~= parts);
        reveal_with_fuel(Seq::flatten, 4);
        assert(items@ =~= v0 + v1 + v2);
        lemma_well_formed_concat(v0, v1);
        lemma_well_formed_concat(v0 + v1, v2);
    }
    SettingsPage { title: "搜索与文件", items }
}

} // verus!