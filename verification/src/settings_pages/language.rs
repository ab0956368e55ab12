//! The settings built by `language_settings_data`.

use vstd::prelude::*;
use crate::settings_content::FieldAccess;
use crate::settings_page::{
    DynamicItem, FieldRef, OutlineEntry, PROJECT, SettingItem, SettingsFieldMetadata, SettingsPage, SettingsPageItem,
    StructuredField, SubPage, SubPageLink, USER, concat_sections, items_well_formed, lemma_well_formed_concat, outline,
    placeholder, placeholder_of, setting_item, setting_of, settings_have_paths, variant_outlines, views_of,
};

verus! {

/// The entries of the section `indentation`, as values.
pub open spec fn indentation_outline() -> Seq<OutlineEntry> {
    seq![
        OutlineEntry::Header("缩进"),
        OutlineEntry::Setting(setting_of(USER | PROJECT, "Tab 宽度", "一个 Tab 应占用多少列。", Some("languages.$(language).tab_size"), FieldRef::Text(FieldAccess::LanguageScoped("tab_size", &[])), true, None)),
        OutlineEntry::Setting(setting_of(USER | PROJECT, "硬 Tab", "是否使用 Tab 字符而非多个空格进行缩进。", Some("languages.$(language).hard_tabs"), FieldRef::Text(FieldAccess::LanguageScoped("hard_tabs", &[])), true, None)),
        OutlineEntry::Setting(setting_of(USER | PROJECT, "自动缩进", "控制输入时的自动缩进行为。", Some("languages.$(language).auto_indent"), FieldRef::Text(FieldAccess::LanguageScoped("auto_indent", &[])), true, None)),
        OutlineEntry::Setting(setting_of(USER | PROJECT, "粘贴时自动缩进", "是否根据上下文调整粘贴内容的缩进。", Some("languages.$(language).auto_indent_on_paste"), FieldRef::Text(FieldAccess::LanguageScoped("auto_indent_on_paste", &[])), true, None)),
    ]
}

fn indentation_section() -> (items: Vec<SettingsPageItem>)
    ensures
        outline(items@) == indentation_outline(),
        items_well_formed(items@),
{
    let mut items: Vec<SettingsPageItem> = Vec::new();
    items.push(SettingsPageItem::SectionHeader("缩进"));
    items.push(SettingsPageItem::SettingItem(setting_item(
                USER | PROJECT,
                "Tab 宽度",
                "一个 Tab 应占用多少列。",
                Some("languages.$(language).tab_size"),
                FieldRef::Text(FieldAccess::LanguageScoped("tab_size", &[])),
                true,
                None,
            )));
    items.push(SettingsPageItem::SettingItem(setting_item(
                USER | PROJECT,
                "硬 Tab",
                "是否使用 Tab 字符而非多个空格进行缩进。",
                Some("languages.$(language).hard_tabs"),
                FieldRef::Text(FieldAccess::LanguageScoped("hard_tabs", &[])),
                true,
                None,
            )));
    items.push(SettingsPageItem::SettingItem(setting_item(
                USER | PROJECT,
                "自动缩进",
                "控制输入时的自动缩进行为。",
                Some("languages.$(language).auto_indent"),
                FieldRef::Text(FieldAccess::LanguageScoped("auto_indent", &[])),
                true,
                None,
            )));
    items.push(SettingsPageItem::SettingItem(setting_item(
                USER | PROJECT,
                "粘贴时自动缩进",
                "是否根据上下文调整粘贴内容的缩进。",
                Some("languages.$(language).auto_indent_on_paste"),
                FieldRef::Text(FieldAccess::LanguageScoped("auto_indent_on_paste", &[])),
                true,
                None,
            )));
    assert(outline(items@) =~= indentation_outline());
    assert(settings_have_paths(items@));
    items
}

/// The entries of the section `wrapping`, as values.
pub open spec fn wrapping_outline() -> Seq<OutlineEntry> {
    seq![
        OutlineEntry::Header("换行"),
        OutlineEntry::Setting(setting_of(USER | PROJECT, "软换行", "长文本行的软换行方式。", Some("languages.$(language).soft_wrap"), FieldRef::Text(FieldAccess::LanguageScoped("soft_wrap", &[])), true, None)),
        OutlineEntry::Setting(setting_of(USER | PROJECT, "显示换行参考线", "在编辑器中显示换行参考线。", Some("languages.$(language).show_wrap_guides"), FieldRef::Text(FieldAccess::LanguageScoped("show_wrap_guides", &[])), true, None)),
        OutlineEntry::Setting(setting_of(USER | PROJECT, "首选行宽", "在启用软换行的缓冲区中，于哪一列进行软换行。", Some("languages.$(language).preferred_line_length"), FieldRef::Text(FieldAccess::LanguageScoped("preferred_line_length", &[])), true, None)),
        OutlineEntry::Setting(setting_of(USER | PROJECT, "换行参考线位置", "在编辑器中于多少字符数处显示换行参考线。", Some("languages.$(language).wrap_guides"), FieldRef::Text(FieldAccess::LanguageScoped("wrap_guides", &[])), false, None)),
        OutlineEntry::Setting(setting_of(USER | PROJECT, "允许重新换行", "控制此语言在何处允许执行 `editor::rewrap` 操作。", Some("languages.$(language).allow_rewrap"), FieldRef::Text(FieldAccess::LanguageScoped("allow_rewrap", &[])), true, None)),
    ]
}

fn wrapping_section() -> (items: Vec<SettingsPageItem>)
    ensures
        outline(items@) == wrapping_outline(),
        items_well_formed(items@),
{
    let mut items: Vec<SettingsPageItem> = Vec::new();
    items.push(SettingsPageItem::SectionHeader("换行"));
    items.push(SettingsPageItem::SettingItem(setting_item(
                USER | PROJECT,
                "软换行",
                "长文本行的软换行方式。",
                Some("languages.$(language).soft_wrap"),
                FieldRef::Text(FieldAccess::LanguageScoped("soft_wrap", &[])),
                true,
                None,
            )));
    items.push(SettingsPageItem::SettingItem(setting_item(
                USER | PROJECT,
                "显示换行参考线",
                "在编辑器中显示换行参考线。",
                Some("languages.$(language).show_wrap_guides"),
                FieldRef::Text(FieldAccess::LanguageScoped("show_wrap_guides", &[])),
                true,
                None,
            )));
    items.push(SettingsPageItem::SettingItem(setting_item(
                USER | PROJECT,
                "首选行宽",
                "在启用软换行的缓冲区中，于哪一列进行软换行。",
                Some("languages.$(language).preferred_line_length"),
                FieldRef::Text(FieldAccess::LanguageScoped("preferred_line_length", &[])),
                true,
                None,
            )));
    items.push(SettingsPageItem::SettingItem(setting_item(
                USER | PROJECT,
                "换行参考线位置",
                "在编辑器中于多少字符数处显示换行参考线。",
                Some("languages.$(language).wrap_guides"),
                FieldRef::Text(FieldAccess::LanguageScoped("wrap_guides", &[])),
                false,
                None,
            )));
    items.push(SettingsPageItem::SettingItem(setting_item(
                USER | PROJECT,
                "允许重新换行",
                "控制此语言在何处允许执行 `editor::rewrap` 操作。",
                Some("languages.$(language).allow_rewrap"),
                FieldRef::Text(FieldAccess::LanguageScoped("allow_rewrap", &[])),
                true,
                None,
            )));
    assert(outline(items@) =~= wrapping_outline());
    assert(settings_have_paths(items@));
    items
}

/// The entries of the section `indent_guides`, as values.
pub open spec fn indent_guides_outline() -> Seq<OutlineEntry> {
    seq![
        OutlineEntry::Header("缩进辅助线"),
        OutlineEntry::Setting(setting_of(USER | PROJECT, "启用", "在编辑器中显示缩进辅助线。", Some("languages.$(language).indent_guides.enabled"), FieldRef::Text(FieldAccess::LanguageScoped("indent_guides.enabled", &["indent_guides"])), true, None)),
        OutlineEntry::Setting(setting_of(USER | PROJECT, "线宽", "缩进辅助线的宽度（像素），范围为 1 到 10。", Some("languages.$(language).indent_guides.line_width"), FieldRef::Text(FieldAccess::LanguageScoped("indent_guides.line_width", &["indent_guides"])), true, None)),
        OutlineEntry::Setting(setting_of(USER | PROJECT, "活动线宽", "活动缩进辅助线的宽度（像素），范围为 1 到 10。", Some("languages.$(language).indent_guides.active_line_width"), FieldRef::Text(FieldAccess::LanguageScoped("indent_guides.active_line_width", &["indent_guides"])), true, None)),
        OutlineEntry::Setting(setting_of(USER | PROJECT, "着色方式", "决定缩进辅助线的着色方式。", Some("languages.$(language).indent_guides.coloring"), FieldRef::Text(FieldAccess::LanguageScoped("indent_guides.coloring", &["indent_guides"])), true, None)),
        OutlineEntry::Setting(setting_of(USER | PROJECT, "背景着色", "决定缩进辅助线背景的着色方式。", Some("languages.$(language).indent_guides.background_coloring"), FieldRef::Text(FieldAccess::LanguageScoped("indent_guides.background_coloring", &["indent_guides"])), true, None)),
    ]
}

fn indent_guides_section() -> (items: Vec<SettingsPageItem>)
    ensures
        outline(items@) == indent_guides_outline(),
        items_well_formed(items@),
{
    let mut items: Vec<SettingsPageItem> = Vec::new();
    items.push(SettingsPageItem::SectionHeader("缩进辅助线"));
    items.push(SettingsPageItem::SettingItem(setting_item(
                USER | PROJECT,
                "启用",
                "在编辑器中显示缩进辅助线。",
                Some("languages.$(language).indent_guides.enabled"),
                FieldRef::Text(FieldAccess::LanguageScoped("indent_guides.enabled", &["indent_guides"])),
                true,
                None,
            )));
    items.push(SettingsPageItem::SettingItem(setting_item(
                USER | PROJECT,
                "线宽",
                "缩进辅助线的宽度（像素），范围为 1 到 10。",
                Some("languages.$(language).indent_guides.line_width"),
                FieldRef::Text(FieldAccess::LanguageScoped("indent_guides.line_width", &["indent_guides"])),
                true,
                None,
            )));
    items.push(SettingsPageItem::SettingItem(setting_item(
                USER | PROJECT,
                "活动线宽",
                "活动缩进辅助线的宽度（像素），范围为 1 到 10。",
                Some("languages.$(language).indent_guides.active_line_width"),
                FieldRef::Text(FieldAccess::LanguageScoped("indent_guides.active_line_width", &["indent_guides"])),
                true,
                None,
            )));
    items.push(SettingsPageItem::SettingItem(setting_item(
                USER | PROJECT,
                "着色方式",
                "决定缩进辅助线的着色方式。",
                Some("languages.$(language).indent_guides.coloring"),
                FieldRef::Text(FieldAccess::LanguageScoped("indent_guides.coloring", &["indent_guides"])),
                true,
                None,
            )));
    items.push(SettingsPageItem::SettingItem(setting_item(
                USER | PROJECT,
                "背景着色",
                "决定缩进辅助线背景的着色方式。",
                Some("languages.$(language).indent_guides.background_coloring"),
                FieldRef::Text(FieldAccess::LanguageScoped("indent_guides.background_coloring", &["indent_guides"])),
                true,
                None,
            )));
    assert(outline(items@) =~= indent_guides_outline());
    assert(settings_have_paths(items@));
    items
}

/// The entries of the section `formatting`, as values.
pub open spec fn formatting_outline() -> Seq<OutlineEntry> {
    seq![
        OutlineEntry::Header("格式化"),
        OutlineEntry::Setting(setting_of(USER | PROJECT, "保存时格式化", "保存前是否先格式化缓冲区。", Some("languages.$(language).format_on_save"), FieldRef::Text(FieldAccess::LanguageScoped("format_on_save", &[])), true, None)),
        OutlineEntry::Setting(setting_of(USER | PROJECT, "保存时移除行尾空白", "保存前是否移除缓冲区各行末尾的空白字符。", Some("languages.$(language).remove_trailing_whitespace_on_save"), FieldRef::Text(FieldAccess::LanguageScoped("remove_trailing_whitespace_on_save", &[])), true, None)),
        OutlineEntry::Setting(setting_of(USER | PROJECT, "保存时确保末尾换行", "保存时是否确保缓冲区结尾只有一个换行符。", Some("languages.$(language).ensure_final_newline_on_save"), FieldRef::Text(FieldAccess::LanguageScoped("ensure_final_newline_on_save", &[])), true, None)),
        OutlineEntry::Setting(setting_of(USER | PROJECT, "格式化器", "如何执行缓冲区格式化。", Some("languages.$(language).formatter"), FieldRef::Text(FieldAccess::LanguageScoped("formatter", &[])), false, None)),
        OutlineEntry::Setting(setting_of(USER | PROJECT, "输入时格式化", "是否在每次输入由 LSP 服务端能力定义的“触发”符号后，使用额外的 LSP 请求来格式化（并修正）代码。", Some("languages.$(language).use_on_type_format"), FieldRef::Text(FieldAccess::LanguageScoped("use_on_type_format", &[])), true, None)),
        OutlineEntry::Setting(setting_of(USER | PROJECT, "格式化时执行代码操作", "格式化时额外运行的代码操作。", Some("languages.$(language).code_actions_on_format"), FieldRef::Text(FieldAccess::LanguageScoped("code_actions_on_format", &[])), false, None)),
    ]
}

fn formatting_section() -> (items: Vec<SettingsPageItem>)
    ensures
        outline(items@) == formatting_outline(),
        items_well_formed(items@),
{
    let mut items: Vec<SettingsPageItem> = Vec::new();
    items.push(SettingsPageItem::SectionHeader("格式化"));
    items.push(SettingsPageItem::SettingItem(setting_item(
                USER | PROJECT,
                "保存时格式化",
                "保存前是否先格式化缓冲区。",
                Some("languages.$(language).format_on_save"),
                FieldRef::Text(FieldAccess::LanguageScoped("format_on_save", &[])),
                true,
                None,
            )));
    items.push(SettingsPageItem::SettingItem(setting_item(
                USER | PROJECT,
                "保存时移除行尾空白",
                "保存前是否移除缓冲区各行末尾的空白字符。",
                Some("languages.$(language).remove_trailing_whitespace_on_save"),
                FieldRef::Text(FieldAccess::LanguageScoped("remove_trailing_whitespace_on_save", &[])),
                true,
                None,
            )));
    items.push(SettingsPageItem::SettingItem(setting_item(
                USER | PROJECT,
                "保存时确保末尾换行",
                "保存时是否确保缓冲区结尾只有一个换行符。",
                Some("languages.$(language).ensure_final_newline_on_save"),
                FieldRef::Text(FieldAccess::LanguageScoped("ensure_final_newline_on_save", &[])),
                true,
                None,
            )));
    items.push(SettingsPageItem::SettingItem(setting_item(
                USER | PROJECT,
                "格式化器",
                "如何执行缓冲区格式化。",
                Some("languages.$(language).formatter"),
                FieldRef::Text(FieldAccess::LanguageScoped("formatter", &[])),
                false,
                None,
            )));
    items.push(SettingsPageItem::SettingItem(setting_item(
                USER | PROJECT,
                "输入时格式化",
                "是否在每次输入由 LSP 服务端能力定义的“触发”符号后，使用额外的 LSP 请求来格式化（并修正）代码。",
                Some("languages.$(language).use_on_type_format"),
                FieldRef::Text(FieldAccess::LanguageScoped("use_on_type_format", &[])),
                true,
                None,
            )));
    items.push(SettingsPageItem::SettingItem(setting_item(
                USER | PROJECT,
                "格式化时执行代码操作",
                "格式化时额外运行的代码操作。",
                Some("languages.$(language).code_actions_on_format"),
                FieldRef::Text(FieldAccess::LanguageScoped("code_actions_on_format", &[])),
                false,
                None,
            )));
    assert(outline(items@) =~= formatting_outline());
    assert(settings_have_paths(items@));
    items
}

/// The entries of the section `autoclose`, as values.
pub open spec fn autoclose_outline() -> Seq<OutlineEntry> {
    seq![
        OutlineEntry::Header("自动闭合"),
        OutlineEntry::Setting(setting_of(USER | PROJECT, "使用自动闭合", "是否自动补全闭合字符。例如输入“(”时，Prism 会在正确位置自动补上“)” 。", Some("languages.$(language).use_autoclose"), FieldRef::Text(FieldAccess::LanguageScoped("use_autoclose", &[])), true, None)),
        OutlineEntry::Setting(setting_of(USER | PROJECT, "使用自动包裹", "是否自动使用成对字符包裹文本。例如选中文本后输入“(”，Prism 会自动用“()”包裹文本。", Some("languages.$(language).use_auto_surround"), FieldRef::Text(FieldAccess::LanguageScoped("use_auto_surround", &[])), true, None)),
        OutlineEntry::Setting(setting_of(USER | PROJECT, "始终将括号视为自动闭合", "控制无论闭合字符如何插入，都是否始终可被跳过并自动移除。", Some("languages.$(language).always_treat_brackets_as_autoclosed"), FieldRef::Text(FieldAccess::LanguageScoped("always_treat_brackets_as_autoclosed", &[])), true, None)),
        OutlineEntry::Setting(setting_of(USER | PROJECT, "JSX 标签自动闭合", "是否自动闭合 JSX 标签。", Some("languages.$(language).jsx_tag_auto_close"), FieldRef::Text(FieldAccess::LanguageScoped("jsx_tag_auto_close.enabled", &["jsx_tag_auto_close"])), true, None)),
    ]
}

fn autoclose_section() -> (items: Vec<SettingsPageItem>)
    ensures
        outline(items@) == autoclose_outline(),
        items_well_formed(items@),
{
    let mut items: Vec<SettingsPageItem> = Vec::new();
    items.push(SettingsPageItem::SectionHeader("自动闭合"));
    items.push(SettingsPageItem::SettingItem(setting_item(
                USER | PROJECT,
                "使用自动闭合",
                "是否自动补全闭合字符。例如输入“(”时，Prism 会在正确位置自动补上“)” 。",
                Some("languages.$(language).use_autoclose"),
                FieldRef::Text(FieldAccess::LanguageScoped("use_autoclose", &[])),
                true,
                None,
            )));
    items.push(SettingsPageItem::SettingItem(setting_item(
                USER | PROJECT,
                "使用自动包裹",
                "是否自动使用成对字符包裹文本。例如选中文本后输入“(”，Prism 会自动用“()”包裹文本。",
                Some("languages.$(language).use_auto_surround"),
                FieldRef::Text(FieldAccess::LanguageScoped("use_auto_surround", &[])),
                true,
                None,
            )));
    items.push(SettingsPageItem::SettingItem(setting_item(
                USER | PROJECT,
                "始终将括号视为自动闭合",
                "控制无论闭合字符如何插入，都是否始终可被跳过并自动移除。",
                Some("languages.$(language).always_treat_brackets_as_autoclosed"),
                FieldRef::Text(FieldAccess::LanguageScoped("always_treat_brackets_as_autoclosed", &[])),
                true,
                None,
            )));
    items.push(SettingsPageItem::SettingItem(setting_item(
                USER | PROJECT,
                "JSX 标签自动闭合",
                "是否自动闭合 JSX 标签。",
                Some("languages.$(language).jsx_tag_auto_close"),
                FieldRef::Text(FieldAccess::LanguageScoped("jsx_tag_auto_close.enabled", &["jsx_tag_auto_close"])),
                true,
                None,
            )));
    assert(outline(items@) =~= autoclose_outline());
    assert(settings_have_paths(items@));
    items
}

/// The entries of the section `whitespace`, as values.
pub open spec fn whitespace_outline() -> Seq<OutlineEntry> {
    seq![
        OutlineEntry::Header("空白字符"),
        OutlineEntry::Setting(setting_of(USER | PROJECT, "显示空白字符", "是否在编辑器中显示 Tab 和空格。", Some("languages.$(language).show_whitespaces"), FieldRef::Text(FieldAccess::LanguageScoped("show_whitespaces", &[])), true, None)),
        OutlineEntry::Setting(setting_of(USER | PROJECT, "空格可视字符", "启用 show_whitespaces 时，用于显示空格字符的可见符号（默认：“•”）。", Some("languages.$(language).whitespace_map.space"), FieldRef::Text(FieldAccess::LanguageScoped("whitespace_map.space", &["whitespace_map"])), false, None)),
        OutlineEntry::Setting(setting_of(USER | PROJECT, "Tab 可视字符", "启用 show_whitespaces 时，用于显示 Tab 字符的可见符号（默认：“→”）。", Some("languages.$(language).whitespace_map.tab"), FieldRef::Text(FieldAccess::LanguageScoped("whitespace_map.tab", &["whitespace_map"])), false, None)),
    ]
}

fn whitespace_section() -> (items: Vec<SettingsPageItem>)
    ensures
        outline(items@) == whitespace_outline(),
        items_well_formed(items@),
{
    let mut items: Vec<SettingsPageItem> = Vec::new();
    items.push(SettingsPageItem::SectionHeader("空白字符"));
    items.push(SettingsPageItem::SettingItem(setting_item(
                USER | PROJECT,
                "显示空白字符",
                "是否在编辑器中显示 Tab 和空格。",
                Some("languages.$(language).show_whitespaces"),
                FieldRef::Text(FieldAccess::LanguageScoped("show_whitespaces", &[])),
                true,
                None,
            )));
    items.push(SettingsPageItem::SettingItem(setting_item(
                USER | PROJECT,
                "空格可视字符",
                "启用 show_whitespaces 时，用于显示空格字符的可见符号（默认：“•”）。",
                Some("languages.$(language).whitespace_map.space"),
                FieldRef::Text(FieldAccess::LanguageScoped("whitespace_map.space", &["whitespace_map"])),
                false,
                None,
            )));
    items.push(SettingsPageItem::SettingItem(setting_item(
                USER | PROJECT,
                "Tab 可视字符",
                "启用 show_whitespaces 时，用于显示 Tab 字符的可见符号（默认：“→”）。",
                Some("languages.$(language).whitespace_map.tab"),
                FieldRef::Text(FieldAccess::LanguageScoped("whitespace_map.tab", &["whitespace_map"])),
                false,
                None,
            )));
    assert(outline(items@) =~= whitespace_outline());
    assert(settings_have_paths(items@));
    items
}

/// The entries of the section `miscellaneous`, as values.
pub open spec fn miscellaneous_outline() -> Seq<OutlineEntry> {
    seq![
        OutlineEntry::Header("Markdown 写作"),
        OutlineEntry::Setting(setting_of(USER | PROJECT, "换行时延续列表", "按 Enter 时是否延续 Markdown 列表。", Some("languages.$(language).extend_list_on_newline"), FieldRef::Text(FieldAccess::LanguageScoped("extend_list_on_newline", &[])), true, None)),
        OutlineEntry::Setting(setting_of(USER | PROJECT, "Tab 时缩进列表", "在列表标记后按 Tab 时，是否缩进 Markdown 列表项。", Some("languages.$(language).indent_list_on_tab"), FieldRef::Text(FieldAccess::LanguageScoped("indent_list_on_tab", &[])), true, None)),
    ]
}

fn miscellaneous_section() -> (items: Vec<SettingsPageItem>)
    ensures
        outline(items@) == miscellaneous_outline(),
        items_well_formed(items@),
{
    let mut items: Vec<SettingsPageItem> = Vec::new();
    items.push(SettingsPageItem::SectionHeader("Markdown 写作"));
    items.push(SettingsPageItem::SettingItem(setting_item(
                USER | PROJECT,
                "换行时延续列表",
                "按 Enter 时是否延续 Markdown 列表。",
                Some("languages.$(language).extend_list_on_newline"),
                FieldRef::Text(FieldAccess::LanguageScoped("extend_list_on_newline", &[])),
                true,
                None,
            )));
    items.push(SettingsPageItem::SettingItem(setting_item(
                USER | PROJECT,
                "Tab 时缩进列表",
                "在列表标记后按 Tab 时，是否缩进 Markdown 列表项。",
                Some("languages.$(language).indent_list_on_tab"),
                FieldRef::Text(FieldAccess::LanguageScoped("indent_list_on_tab", &[])),
                true,
                None,
            )));
    assert(outline(items@) =~= miscellaneous_outline());
    assert(settings_have_paths(items@));
    items
}

/// The per-language settings shown for the active language (or for all languages):
/// indentation, wrapping, indent guides, formatting, autoclosing, whitespace and
/// Markdown writing.
pub fn language_settings_data() -> (items: Vec<SettingsPageItem>)
    ensures
        outline(items@) == language_settings_outline(),
        items_well_formed(items@),
{
    let s0 = indentation_section();
    let s1 = wrapping_section();
    let s2 = indent_guides_section();
    let s3 = formatting_section();
    let s4 = autoclose_section();
    let s5 = whitespace_section();
    let s6 = miscellaneous_section();
    let ghost v0 = s0@;
    let ghost v1 = s1@;
    let ghost v2 = s2@;
    let ghost v3 = s3@;
    let ghost v4 = s4@;
    let ghost v5 = s5@;
    let ghost v6 = s6@;
    let sections = vec![s0, s1, s2, s3, s4, s5, s6];
    let ghost all = sections@;
    let items = concat_sections(sections);
    proof {
        let parts = seq![v0, v1, v2, v3, v4, v5, v6];
        assert(views_of(all) =~= parts);
        reveal_with_fuel(Seq::flatten, 8);
        assert(items@ =~= v0 + v1 + v2 + v3 + v4 + v5 + v6);
        lemma_well_formed_concat(v0, v1);
        lemma_well_formed_concat(v0 + v1, v2);
        lemma_well_formed_concat(v0 + v1 + v2, v3);
        lemma_well_formed_concat(v0 + v1 + v2 + v3, v4);
        lemma_well_formed_concat(v0 + v1 + v2 + v3 + v4, v5);
        lemma_well_formed_concat(v0 + v1 + v2 + v3 + v4 + v5, v6);
    }
    items
}

/// The per-language settings, section by section.
pub open spec fn language_settings_outline() -> Seq<OutlineEntry> {
    indentation_outline() + wrapping_outline() + indent_guides_outline() + formatting_outline() + autoclose_outline() + whitespace_outline() + miscellaneous_outline()
}

} // verus!