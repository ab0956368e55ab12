use mditor_ui::app_menus::MenuCommand;
use mditor_ui::title_bar::{
    branch_icon, branch_label, handle_title_bar_event, has_application_menu, init, starts_with_path, title_bar_layout,
    ApplicationMenuAction, BranchIcon, ClientStatus, Color, ConnectionState, GitSummary, MenuActionKind, MenuRequest,
    Organization, PlatformStyle, ProjectHost, ProjectHostView, RemoteIcon, RemoteKind, RepositoryInfo, TitleBar,
    TitleBarEvent, TitleBarSettings, TrackedSummary, Worktree,
};

fn path(parts: &[&str]) -> Vec<String> {
    parts.iter().map(|p| p.to_string()).collect()
}

fn worktree(id: u64, parts: &[&str], visible: bool) -> Worktree {
    Worktree { id, abs_path: path(parts), root_name: parts.last().unwrap_or(&"").to_string(), visible }
}

fn clean() -> TrackedSummary {
    TrackedSummary { modified: 0, added: 0, deleted: 0 }
}

fn summary(conflict: u64, modified: u64, added: u64, deleted: u64, untracked: u64) -> GitSummary {
    GitSummary {
        index: TrackedSummary { modified, added, deleted },
        worktree: clean(),
        conflict,
        untracked,
    }
}

fn linux_title_bar() -> TitleBar {
    TitleBar::new(&PlatformStyle::Linux, false, 1, 2)
}

#[test]
fn application_menu_by_platform() {
    assert!(has_application_menu(&PlatformStyle::Linux, false));
    assert!(has_application_menu(&PlatformStyle::Windows, false));
    assert!(!has_application_menu(&PlatformStyle::Mac, false));
    assert!(has_application_menu(&PlatformStyle::Mac, true));
}

#[test]
fn init_registers_menu_actions_off_macos() {
    assert!(init(false, false).is_none());
    assert!(init(true, true).map(|v| v.is_empty()).unwrap_or(false));
    let actions = init(false, true).expect("a window gets a title bar");
    assert!(matches!(
        actions.as_slice(),
        [MenuActionKind::OpenApplicationMenu, MenuActionKind::ActivateMenuRight, MenuActionKind::ActivateMenuLeft]
    ));
}

#[test]
fn menu_actions_reach_the_menu_when_there_is_one() {
    let title_bar = linux_title_bar();
    let request = title_bar.handle_menu_action(&ApplicationMenuAction::OpenApplicationMenu("File".to_string()));
    assert!(matches!(request, Some(MenuRequest::Open(ref name)) if name == "File"));
    assert!(matches!(title_bar.handle_menu_action(&ApplicationMenuAction::ActivateMenuLeft), Some(MenuRequest::NavigateLeft)));
    let mac = TitleBar::new(&PlatformStyle::Mac, false, 1, 2);
    assert!(mac.handle_menu_action(&ApplicationMenuAction::ActivateMenuRight).is_none());
}

#[test]
fn paths_are_compared_by_component() {
    assert!(starts_with_path(&path(&["home", "me", "notes"]), &path(&["home", "me"])));
    assert!(starts_with_path(&path(&["home", "me"]), &path(&["home", "me"])));
    assert!(!starts_with_path(&path(&["home", "meta"]), &path(&["home", "me"])));
    assert!(!starts_with_path(&path(&["home"]), &path(&["home", "me"])));
}

#[test]
fn effective_worktree_prefers_override_then_repository_then_first() {
    let title_bar = linux_title_bar();
    let worktrees = vec![
        worktree(1, &["home", "a"], false),
        worktree(2, &["home", "b"], true),
        worktree(3, &["home", "c", "docs"], true),
    ];
    let repo = path(&["home", "c"]);
    assert_eq!(title_bar.effective_active_worktree(&worktrees, Some(1), Some(&repo)), Some(0));
    assert_eq!(title_bar.effective_active_worktree(&worktrees, Some(9), Some(&repo)), Some(2));
    assert_eq!(title_bar.effective_active_worktree(&worktrees, None, None), Some(1));
    assert_eq!(title_bar.effective_active_worktree(&Vec::new(), None, None), None);
    let gone = TitleBar { workspace_alive: false, ..linux_title_bar() };
    assert_eq!(gone.effective_active_worktree(&worktrees, Some(1), None), Some(1));
    assert_eq!(title_bar.worktree_count(&worktrees), 2);
}

#[test]
fn typing_forgets_the_override() {
    let mut worktree_override = Some(7);
    assert!(!handle_title_bar_event(&mut worktree_override, &TitleBarEvent::OtherProjectEvent));
    assert_eq!(worktree_override, Some(7));
    assert!(!handle_title_bar_event(&mut worktree_override, &TitleBarEvent::RepositoryUpdated { is_active: false }));
    assert!(handle_title_bar_event(&mut worktree_override, &TitleBarEvent::RepositoryUpdated { is_active: true }));
    assert_eq!(worktree_override, Some(7));
    assert!(handle_title_bar_event(&mut worktree_override, &TitleBarEvent::BufferEdited));
    assert_eq!(worktree_override, None);

    let title_bar = linux_title_bar();
    assert!(title_bar.set_active_worktree_override(&mut worktree_override, 3));
    assert_eq!(worktree_override, Some(3));
    assert!(handle_title_bar_event(&mut worktree_override, &TitleBarEvent::ActiveRepositoryChanged));
    assert_eq!(worktree_override, None);
    assert!(title_bar.set_active_worktree_override(&mut worktree_override, 4));
    assert!(title_bar.clear_active_worktree_override(&mut worktree_override));
    assert_eq!(worktree_override, None);
}

#[test]
fn branch_labels_and_icons() {
    assert_eq!(branch_label(Some("main"), Some("0123456789abcdef")), Some("main".to_string()));
    assert_eq!(branch_label(None, Some("0123456789abcdef")), Some("01234567".to_string()));
    assert_eq!(branch_label(None, Some("abc")), Some("abc".to_string()));
    assert_eq!(branch_label(None, None), None);
    let long = "feature/a-very-long-branch-name-that-goes-on-and-on";
    let label = branch_label(Some(long), None).unwrap();
    assert_eq!(label.chars().count(), 41);
    assert!(label.starts_with("feature/a-very-long-branch-name-that-goe"));
    assert!(label.ends_with('…'));

    assert!(matches!(branch_icon(&summary(1, 1, 1, 1, 1)), BranchIcon::Warning));
    assert!(matches!(branch_icon(&summary(0, 1, 1, 1, 0)), BranchIcon::SquareDot));
    assert!(matches!(branch_icon(&summary(0, 0, 0, 1, 1)), BranchIcon::SquarePlus));
    assert!(matches!(branch_icon(&summary(0, 0, 0, 2, 0)), BranchIcon::SquareMinus));
    assert!(matches!(branch_icon(&summary(0, 0, 0, 0, 0)), BranchIcon::GitBranch));
}

#[test]
fn branch_button_for_the_repository_holding_the_worktree() {
    let title_bar = linux_title_bar();
    let repositories = vec![
        RepositoryInfo {
            work_directory_abs_path: path(&["home", "other"]),
            branch: Some("dev".to_string()),
            head_sha: None,
            status: summary(0, 0, 0, 0, 0),
        },
        RepositoryInfo {
            work_directory_abs_path: path(&["home", "notes"]),
            branch: Some("main".to_string()),
            head_sha: None,
            status: summary(0, 3, 0, 0, 0),
        },
    ];
    let worktree_path = path(&["home", "notes", "book"]);
    let button = title_bar.render_project_branch(Some(&worktree_path), &repositories, true).unwrap();
    assert_eq!(button.repository, 1);
    assert_eq!(button.label, "main");
    assert!(matches!(button.icon, Some(BranchIcon::SquareDot)));
    let plain = title_bar.render_project_branch(Some(&worktree_path), &repositories, false).unwrap();
    assert!(plain.icon.is_none());
    assert!(title_bar.render_project_branch(Some(&path(&["tmp"])), &repositories, true).is_none());
    assert!(title_bar.render_project_branch(None, &repositories, true).is_none());
    assert_eq!(title_bar.get_repository_for_worktree(&worktree_path, &repositories), Some(1));
}

#[test]
fn project_name_button() {
    let title_bar = linux_title_bar();
    let named = title_bar.render_project_name(Some("notes"), 2);
    assert_eq!(named.label, "notes");
    assert!(named.is_project_selected && named.show_chevron);
    assert_eq!(named.tooltip, "最近项目");
    assert!(matches!(named.tooltip_action, MenuCommand::OpenRecent { create_new_window: false }));
    let unnamed = title_bar.render_project_name(None, 1);
    assert_eq!(unnamed.label, "打开最近项目");
    assert!(!unnamed.is_project_selected && !unnamed.show_chevron);
}

#[test]
fn remote_project_button() {
    let title_bar = linux_title_bar();
    let view = title_bar.render_remote_project_connection("example.org", &RemoteKind::Ssh(Some("box".to_string())), &ConnectionState::Connected);
    assert_eq!(view.label, "box");
    assert_eq!(view.meta, "已连接：example.org");
    assert!(matches!(view.icon, RemoteIcon::Server));
    assert!(matches!(view.indicator_color, Color::Success));
    assert!(matches!(view.icon_color, Color::Default));
    let docker = title_bar.render_remote_project_connection("dev", &RemoteKind::Docker, &ConnectionState::Disconnected);
    assert_eq!(docker.label, "dev");
    assert_eq!(docker.tooltip_title, "Dev Container");
    assert_eq!(docker.meta, "已从 dev 断开连接");
    assert!(matches!(docker.indicator_color, Color::Error));
}

#[test]
fn project_host_slot() {
    let title_bar = linux_title_bar();
    assert!(title_bar.render_project_host(&ProjectHost::Local).is_none());
    assert!(matches!(title_bar.render_project_host(&ProjectHost::Disconnected), Some(ProjectHostView::Disconnected)));
    let shared = title_bar.render_project_host(&ProjectHost::Shared { login: Some("ann".to_string()), participant_index: Some(2) });
    match shared {
        Some(ProjectHostView::SharedBy { login, color: Color::Player(2), tooltip_title }) => {
            assert_eq!(login, "ann");
            assert_eq!(tooltip_title, "ann 正在共享此项目。点击即可跟随。");
        },
        _ => panic!("expected the collaborator's button"),
    }
    assert!(title_bar.render_project_host(&ProjectHost::Shared { login: Some("ann".to_string()), participant_index: None }).is_none());
    let remote = ProjectHost::Remote { host: "h".to_string(), kind: RemoteKind::Wsl, state: Some(ConnectionState::Connecting) };
    assert!(matches!(title_bar.render_project_host(&remote), Some(ProjectHostView::Remote(ref r)) if r.meta == "正在连接：h"));
}

#[test]
fn status_indicators() {
    let title_bar = linux_title_bar();
    let button = title_bar.render_restricted_mode(Some(true)).expect("an untrusted worktree restricts");
    assert_eq!(button.label, "受限模式");
    assert_eq!(button.tooltip_meta, "将此项目标记为受信任并解锁全部功能");
    assert!(title_bar.render_restricted_mode(Some(false)).is_none());
    assert!(title_bar.render_restricted_mode(None).is_none());
    assert!(title_bar.render_connection_status(&ClientStatus::ConnectionLost));
    assert!(title_bar.render_connection_status(&ClientStatus::UpgradeRequired));
    assert!(!title_bar.render_connection_status(&ClientStatus::Connected));
    assert!(!title_bar.render_connection_status(&ClientStatus::SignedOut));
    assert!(title_bar.window_activation_changed());
}

#[test]
fn organization_menu_checks_the_current_one() {
    let title_bar = linux_title_bar();
    let organizations = vec![Organization { id: 1, name: "Solo".to_string() }, Organization { id: 2, name: "Team".to_string() }];
    let plans = vec![None, Some("pro")];
    let menu = title_bar
        .render_organization_menu_button(Some(&organizations[1]), &organizations, &plans, "free")
        .unwrap();
    assert_eq!(menu.button_label, "Team");
    assert_eq!(menu.header, "组织");
    let entries = menu.entries;
    assert_eq!(entries.len(), 2);
    assert_eq!((entries[0].plan, entries[0].is_current), ("free", false));
    assert_eq!((entries[1].plan, entries[1].is_current), ("pro", true));
    assert!(title_bar.render_organization_menu_button(None, &organizations, &plans, "free").is_none());
    let mut current = Some(Organization { id: 2, name: "Team".to_string() });
    title_bar.choose_organization(&mut current, &organizations, 0);
    assert!(matches!(current, Some(Organization { id: 1, ref name }) if name == "Solo"));
}

#[test]
fn layout_hides_project_items_behind_a_full_menu() {
    let settings = TitleBarSettings {
        show_branch_icon: false,
        show_onboarding_banner: false,
        show_branch_name: true,
        show_project_items: true,
    };
    let crowded = title_bar_layout(&settings, false, true, true, false);
    assert!(crowded.inline_application_menu);
    assert!(!crowded.project_host_and_name && !crowded.branch);
    let roomy = linux_title_bar().render(&settings, false, false, true);
    assert!(roomy.project_host_and_name && roomy.branch && roomy.signed_in_padding);
    let menu_row = title_bar_layout(&settings, true, true, true, false);
    assert!(menu_row.menu_row && !menu_row.inline_application_menu && menu_row.branch);
}

#[test]
fn new_title_bar_state() {
    let title_bar = TitleBar::new(&PlatformStyle::Mac, true, 7, 9);
    assert!(title_bar.has_application_menu && title_bar.workspace_alive);
    assert_eq!((title_bar.workspace_id, title_bar.project_id), (7, 9));
    assert!(!title_bar.has_multi_workspace);
    assert!(!title_bar.onboarding_banner_visible);
}

#[test]
fn override_holds_until_edit() {
    let mut worktree_override = Some(5);
    for event in [TitleBarEvent::OtherProjectEvent, TitleBarEvent::Observed, TitleBarEvent::OtherGitEvent] {
        handle_title_bar_event(&mut worktree_override, &event);
        assert_eq!(worktree_override, Some(5));
    }
    handle_title_bar_event(&mut worktree_override, &TitleBarEvent::ActiveRepositoryChanged);
    assert_eq!(worktree_override, None);
}
