use mditor_ui::app_menus::{app_menus, Menu, MenuCommand, MenuItem, OsAction, SystemMenuType};

fn entry_names(menu: &Menu) -> Vec<&'static str> {
    menu.items
        .iter()
        .filter_map(|item| match item {
            MenuItem::Action { name, .. } => Some(*name),
            MenuItem::Submenu(sub) => Some(sub.name),
            MenuItem::SystemSubmenu { name, .. } => Some(*name),
            MenuItem::Separator => None,
        })
        .collect()
}

#[test]
fn menu_bar_order() {
    for is_macos in [true, false] {
        let names: Vec<&str> = app_menus(is_macos).iter().map(|menu| menu.name).collect();
        assert_eq!(names, vec!["Prism", "文件", "编辑", "选择", "查看", "前往", "窗口", "帮助"]);
    }
}

#[test]
fn macos_only_entries() {
    let mac = app_menus(true);
    let other = app_menus(false);
    let mac_app = entry_names(&mac[0]);
    let other_app = entry_names(&other[0]);
    assert!(mac_app.contains(&"服务") && mac_app.contains(&"隐藏 Prism"));
    assert!(!other_app.contains(&"服务") && !other_app.contains(&"隐藏 Prism"));
    assert!(mac[0].items.iter().any(|item| matches!(item, MenuItem::SystemSubmenu { kind: SystemMenuType::Services, .. })));
    assert_eq!(other_app.last(), Some(&"退出 Prism"));

    let mac_file = entry_names(&mac[1]);
    let other_file = entry_names(&other[1]);
    assert!(mac_file.contains(&"打开…") && !mac_file.contains(&"打开文件..."));
    assert!(other_file.contains(&"打开文件...") && other_file.contains(&"打开文件夹..."));
    assert_eq!(other_file.len(), mac_file.len() + 1);
}

#[test]
fn edit_menu_stands_for_system_commands() {
    let menus = app_menus(false);
    let edit = &menus[2];
    assert!(matches!(
        edit.items[0],
        MenuItem::Action { name: "撤销", command: MenuCommand::Undo, os_action: Some(OsAction::Undo) }
    ));
    assert!(matches!(
        edit.items[5],
        MenuItem::Action { name: "复制并裁剪", command: MenuCommand::CopyAndTrim, os_action: None }
    ));
    assert!(matches!(MenuItem::action("x", MenuCommand::Quit), MenuItem::Action { os_action: None, .. }));
}
