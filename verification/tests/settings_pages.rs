use mditor_ui::settings_content::FieldAccess;
use mditor_ui::settings_page::{FieldRef, SettingsPage, SettingsPageItem, USER};
use mditor_ui::settings_pages::{
    ai_page, appearance_page, debugger_page, editor_page, general_page, keymap_page, language_settings_data,
    network_page, panels_page, search_and_files_page, settings_data, terminal_page, window_and_layout_page,
};

fn setting_titles(page: &SettingsPage) -> Vec<&'static str> {
    page.items
        .iter()
        .filter_map(|item| match item {
            SettingsPageItem::SettingItem(setting) => Some(setting.title),
            _ => None,
        })
        .collect()
}

#[test]
fn settings_window_lists_nine_pages_in_order() {
    let pages = settings_data(false);
    let titles: Vec<&str> = pages.iter().map(|page| page.title).collect();
    assert_eq!(titles, vec!["常规", "外观", "键位映射", "编辑器", "搜索与文件", "窗口与布局", "面板", "AI", "网络"]);
}

#[test]
fn page_titles() {
    assert_eq!(general_page().title, "常规");
    assert_eq!(appearance_page().title, "外观");
    assert_eq!(keymap_page().title, "键位映射");
    assert_eq!(editor_page().title, "编辑器");
    assert_eq!(search_and_files_page().title, "搜索与文件");
    assert_eq!(window_and_layout_page().title, "窗口与布局");
    assert_eq!(panels_page().title, "面板");
    assert_eq!(ai_page(true).title, "AI");
    assert_eq!(network_page().title, "网络");
    assert_eq!(terminal_page().title, "Terminal");
    assert_eq!(debugger_page().title, "Debugger");
}

#[test]
fn network_page_lists_proxy_and_server() {
    let page = network_page();
    assert_eq!(page.items.len(), 3);
    assert!(matches!(page.items[0], SettingsPageItem::SectionHeader("网络")));
    match &page.items[1] {
        SettingsPageItem::SettingItem(setting) => {
            assert_eq!(setting.title, "代理");
            assert_eq!(setting.files, USER);
            assert_eq!(setting.field.json_path, Some("proxy"));
            assert!(matches!(setting.field.access, FieldRef::Text(FieldAccess::Direct("proxy", _))));
            let metadata = setting.metadata.as_ref().expect("the proxy field has a placeholder");
            assert_eq!(metadata.placeholder, Some("socks5h://localhost:10808"));
        },
        _ => panic!("the proxy setting comes second"),
    }
    assert_eq!(setting_titles(&page), vec!["代理", "服务器 URL"]);
}

#[test]
fn new_thread_location_needs_agent_v2() {
    let with = setting_titles(&ai_page(true));
    let without = setting_titles(&ai_page(false));
    assert!(with.contains(&"新线程位置"));
    assert!(!without.contains(&"新线程位置"));
    assert_eq!(with.len(), without.len() + 1);
}

#[test]
fn every_setting_has_a_json_path() {
    for page in settings_data(true).iter() {
        for item in page.items.iter() {
            if let SettingsPageItem::SettingItem(setting) = item {
                assert!(setting.field.json_path.is_some(), "{} has no path", setting.title);
            }
        }
    }
}

#[test]
fn language_settings_start_with_a_header() {
    let items = language_settings_data();
    assert!(!items.is_empty());
    assert!(matches!(items[0], SettingsPageItem::SectionHeader(_)));
}
