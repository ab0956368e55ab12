//! The settings built by `keymap_page`.

use vstd::prelude::*;
use crate::settings_content::FieldAccess;
use crate::settings_page::{
    DynamicItem, FieldRef, OutlineEntry, PROJECT, SettingItem, SettingsFieldMetadata, SettingsPage, SettingsPageItem,
    StructuredField, SubPage, SubPageLink, USER, concat_sections, items_well_formed, lemma_well_formed_concat, outline,
    placeholder, placeholder_of, setting_item, setting_of, settings_have_paths, variant_outlines, views_of,
};

verus! {

/// The entries of the section `base_keymap`, as values.
pub open spec fn base_keymap_outline() -> Seq<OutlineEntry> {
    seq![
        OutlineEntry::Header("基础键位映射"),
        OutlineEntry::Setting(setting_of(USER, "基础键位映射", "要使用的基础快捷键方案名称。", Some("base_keymap"), FieldRef::Text(FieldAccess::Direct("base_keymap", &[])), true, Some(SettingsFieldMetadata { placeholder: None, should_do_titlecase: Some(false) }))),
    ]
}

fn base_keymap_section() -> (items: Vec<SettingsPageItem>)
    ensures
        outline(items@) == base_keymap_outline(),
        items_well_formed(items@),
{
    let mut items: Vec<SettingsPageItem> = Vec::new();
    items.push(SettingsPageItem::SectionHeader("基础键位映射"));
    items.push(SettingsPageItem::SettingItem(setting_item(
                USER,
                "基础键位映射",
                "要使用的基础快捷键方案名称。",
                Some("base_keymap"),
                FieldRef::Text(FieldAccess::Direct("base_keymap", &[])),
                true,
                Some(SettingsFieldMetadata { placeholder: None, should_do_titlecase: Some(false) }),
            )));
    assert(outline(items@) =~= base_keymap_outline());
    assert(settings_have_paths(items@));
    items
}

/// The entries of the section `modal_editing`, as values.
pub open spec fn modal_editing_outline() -> Seq<OutlineEntry> {
    seq![
        OutlineEntry::Header("模态编辑"),
        OutlineEntry::Setting(setting_of(USER, "Vim 模式", "启用 Vim 模式和对应快捷键。", Some("vim_mode"), FieldRef::Text(FieldAccess::Direct("vim_mode", &[])), true, None)),
        OutlineEntry::Setting(setting_of(USER, "Helix 模式", "启用 Helix 模式和对应快捷键。", Some("helix_mode"), FieldRef::Text(FieldAccess::Direct("helix_mode", &[])), true, None)),
    ]
}

fn modal_editing_section() -> (items: Vec<SettingsPageItem>)
    ensures
        outline(items@) == modal_editing_outline(),
        items_well_formed(items@),
{
    let mut items: Vec<SettingsPageItem> = Vec::new();
    items.push(SettingsPageItem::SectionHeader("模态编辑"));
    items.push(SettingsPageItem::SettingItem(setting_item(
                USER,
                "Vim 模式",
                "启用 Vim 模式和对应快捷键。",
                Some("vim_mode"),
                FieldRef::Text(FieldAccess::Direct("vim_mode", &[])),
                true,
                None,
            )));
    items.push(SettingsPageItem::SettingItem(setting_item(
                USER,
                "Helix 模式",
                "启用 Helix 模式和对应快捷键。",
                Some("helix_mode"),
                FieldRef::Text(FieldAccess::Direct("helix_mode", &[])),
                true,
                None,
            )));
    assert(outline(items@) =~= modal_editing_outline());
    assert(settings_have_paths(items@));
    items
}

/// The entries of the page, section by section.
pub open spec fn keymap_page_outline() -> Seq<OutlineEntry> {
    base_keymap_outline() + modal_editing_outline()
}

/// The "Keymap" page: the base keymap and the modal editing modes.
pub fn keymap_page() -> (page: SettingsPage)
    ensures
        page.title@ == "键位映射"@,
        outline(page.items@) == keymap_page_outline(),
        items_well_formed(page.items@),
{
    let s0 = base_keymap_section();
    let s1 = modal_editing_section();
    let ghost v0 = s0@;
    let ghost v1 = s1@;
    let sections = vec![s0, s1];
    let ghost all = sections@;
    let items = concat_sections(sections);
    proof {
        let parts = seq![v0, v1];
        assert(views_of(all) =~= parts);
        reveal_with_fuel(Seq::flatten, 3);
        assert(items@ =~= v0 + v1);
        lemma_well_formed_concat(v0, v1);
    }
    SettingsPage { title: "键位映射", items }
}

} // verus!