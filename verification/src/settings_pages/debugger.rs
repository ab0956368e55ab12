//! The settings built by `debugger_page`.

use vstd::prelude::*;
use crate::settings_content::FieldAccess;
use crate::settings_page::{
    DynamicItem, FieldRef, OutlineEntry, PROJECT, SettingItem, SettingsFieldMetadata, SettingsPage, SettingsPageItem,
    StructuredField, SubPage, SubPageLink, USER, concat_sections, items_well_formed, lemma_well_formed_concat, outline,
    placeholder, placeholder_of, setting_item, setting_of, settings_have_paths, variant_outlines, views_of,
};

verus! {

/// The entries of the section `general`, as values.
pub open spec fn general_outline() -> Seq<OutlineEntry> {
    seq![
        OutlineEntry::Header("常规"),
        OutlineEntry::Setting(setting_of(USER, "Stepping Granularity", "Determines the stepping granularity for debug operations.", Some("debugger.stepping_granularity"), FieldRef::Text(FieldAccess::Direct("debugger.stepping_granularity", &["debugger"])), true, None)),
        OutlineEntry::Setting(setting_of(USER, "Save Breakpoints", "Whether breakpoints should be reused across Prism sessions.", Some("debugger.save_breakpoints"), FieldRef::Text(FieldAccess::Direct("debugger.save_breakpoints", &["debugger"])), true, None)),
        OutlineEntry::Setting(setting_of(USER, "Timeout", "Time in milliseconds until timeout error when connecting to a TCP debug adapter.", Some("debugger.timeout"), FieldRef::Text(FieldAccess::Direct("debugger.timeout", &["debugger"])), true, None)),
        OutlineEntry::Setting(setting_of(USER, "Log DAP Communications", "Whether to log messages between active debug adapters and Zed.", Some("debugger.log_dap_communications"), FieldRef::Text(FieldAccess::Direct("debugger.log_dap_communications", &["debugger"])), true, None)),
        OutlineEntry::Setting(setting_of(USER, "Format DAP Log Messages", "Whether to format DAP messages when adding them to debug adapter logger.", Some("debugger.format_dap_log_messages"), FieldRef::Text(FieldAccess::Direct("debugger.format_dap_log_messages", &["debugger"])), true, None)),
    ]
}

fn general_section() -> (items: Vec<SettingsPageItem>)
    ensures
        outline(items@) == general_outline(),
        items_well_formed(items@),
{
    let mut items: Vec<SettingsPageItem> = Vec::new();
    items.push(SettingsPageItem::SectionHeader("常规"));
    items.push(SettingsPageItem::SettingItem(setting_item(
                USER,
                "Stepping Granularity",
                "Determines the stepping granularity for debug operations.",
                Some("debugger.stepping_granularity"),
                FieldRef::Text(FieldAccess::Direct("debugger.stepping_granularity", &["debugger"])),
                true,
                None,
            )));
    items.push(SettingsPageItem::SettingItem(setting_item(
                USER,
                "Save Breakpoints",
                "Whether breakpoints should be reused across Prism sessions.",
                Some("debugger.save_breakpoints"),
                FieldRef::Text(FieldAccess::Direct("debugger.save_breakpoints", &["debugger"])),
                true,
                None,
            )));
    items.push(SettingsPageItem::SettingItem(setting_item(
                USER,
                "Timeout",
                "Time in milliseconds until timeout error when connecting to a TCP debug adapter.",
                Some("debugger.timeout"),
                FieldRef::Text(FieldAccess::Direct("debugger.timeout", &["debugger"])),
                true,
                None,
            )));
    items.push(SettingsPageItem::SettingItem(setting_item(
                USER,
                "Log DAP Communications",
                "Whether to log messages between active debug adapters and Zed.",
                Some("debugger.log_dap_communications"),
                FieldRef::Text(FieldAccess::Direct("debugger.log_dap_communications", &["debugger"])),
                true,
                None,
            )));
    items.push(SettingsPageItem::SettingItem(setting_item(
                USER,
                "Format DAP Log Messages",
                "Whether to format DAP messages when adding them to debug adapter logger.",
                Some("debugger.format_dap_log_messages"),
                FieldRef::Text(FieldAccess::Direct("debugger.format_dap_log_messages", &["debugger"])),
                true,
                None,
            )));
    assert(outline(items@) =~= general_outline());
    assert(settings_have_paths(items@));
    items
}

/// The entries of the page, section by section.
pub open spec fn debugger_page_outline() -> Seq<OutlineEntry> {
    general_outline()
}

/// The "Debugger" page.
pub fn debugger_page() -> (page: SettingsPage)
    ensures
        page.title@ == "Debugger"@,
        outline(page.items@) == debugger_page_outline(),
        items_well_formed(page.items@),
{
    let s0 = general_section();
    let ghost v0 = s0@;
    let sections = vec![s0];
    let ghost all = sections@;
    let items = concat_sections(sections);
    proof {
        let parts = seq![v0];
        assert(views_of(all) =~= parts);
        reveal_with_fuel(Seq::flatten, 2);
        assert(items@ =~= v0);
    }
    SettingsPage { title: "Debugger", items }
}

} // verus!