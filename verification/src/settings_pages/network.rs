//! The settings built by `network_page`.

use vstd::prelude::*;
use crate::settings_content::FieldAccess;
use crate::settings_page::{
    DynamicItem, FieldRef, OutlineEntry, PROJECT, SettingItem, SettingsFieldMetadata, SettingsPage, SettingsPageItem,
    StructuredField, SubPage, SubPageLink, USER, concat_sections, items_well_formed, lemma_well_formed_concat, outline,
    placeholder, placeholder_of, setting_item, setting_of, settings_have_paths, variant_outlines, views_of,
};

verus! {

/// The entries of the section `network`, as values.
pub open spec fn network_outline() -> Seq<OutlineEntry> {
    seq![
        OutlineEntry::Header("网络"),
        OutlineEntry::Setting(setting_of(USER, "代理", "网络请求使用的代理。", Some("proxy"), FieldRef::Text(FieldAccess::Direct("proxy", &[])), true, placeholder_of("socks5h://localhost:10808"))),
        OutlineEntry::Setting(setting_of(USER, "服务器 URL", "要连接的 Prism 服务器地址。", Some("server_url"), FieldRef::Text(FieldAccess::Direct("server_url", &[])), true, placeholder_of("https://zed.dev"))),
    ]
}

fn network_section() -> (items: Vec<SettingsPageItem>)
    ensures
        outline(items@) == network_outline(),
        items_well_formed(items@),
{
    let mut items: Vec<SettingsPageItem> = Vec::new();
    items.push(SettingsPageItem::SectionHeader("网络"));
    items.push(SettingsPageItem::SettingItem(setting_item(
                USER,
                "代理",
                "网络请求使用的代理。",
                Some("proxy"),
                FieldRef::Text(FieldAccess::Direct("proxy", &[])),
                true,
                placeholder("socks5h://localhost:10808"),
            )));
    items.push(SettingsPageItem::SettingItem(setting_item(
                USER,
                "服务器 URL",
                "要连接的 Prism 服务器地址。",
                Some("server_url"),
                FieldRef::Text(FieldAccess::Direct("server_url", &[])),
                true,
                placeholder("https://zed.dev"),
            )));
    assert(outline(items@) =~= network_outline());
    assert(settings_have_paths(items@));
    items
}

/// The entries of the page, section by section.
pub open spec fn network_page_outline() -> Seq<OutlineEntry> {
    network_outline()
}

/// The "Network" page: the proxy and the server address.
pub fn network_page() -> (page: SettingsPage)
    ensures
        page.title@ == "网络"@,
        outline(page.items@) == network_page_outline(),
        items_well_formed(page.items@),
{
    let s0 = network_section();
    let ghost v0 = s0@;
    let sections = vec![s0];
    let ghost all = sections@;
    let items = concat_sections(sections);
    proof {
        let parts = seq![v0];
        assert(views_of(all) =~= parts);
        reveal_with_fuel(Seq::flatten, 2);
        assert(items@ =~= v0);
    }
    SettingsPage { title: "网络", items }
}

} // verus!