use mditor_ui::copilot_sign_in::{
    copilot_toast, initiate_sign_in, initiate_sign_in_impl, initiate_sign_out, open_copilot_code_verification_window,
    reinstall_and_sign_in, sign_out_finished, ButtonLayout, ConfigurationButton, ConfigurationMode,
    ConfigurationPanel, ConfigurationView, CopilotCodeVerification, CopilotStatus, DeviceCodePrompt, SignInAction,
    PromptingClick, PromptingEffect, SignInPhase, ToastRequest, VerificationEvent, VerificationModal, COPILOT_SIGN_UP_URL, ERROR_LABEL,
};

fn prompt(code: &str) -> DeviceCodePrompt {
    DeviceCodePrompt { user_code: code.to_string(), command: "github.copilot.finishDeviceFlow".to_string() }
}

#[test]
fn sign_in_of_a_disabled_server_starts_it_first() {
    let mut flow = initiate_sign_in();
    assert!(!flow.is_reinstall);
    let actions = flow.step(&CopilotStatus::Disabled);
    assert!(matches!(actions.as_slice(), [SignInAction::StartCopilot]));
    let actions = flow.step(&CopilotStatus::Starting);
    assert!(matches!(
        actions.as_slice(),
        [SignInAction::ShowToast("正在启动 Copilot…"), SignInAction::AwaitStartup]
    ));
    let actions = flow.step(&CopilotStatus::SignedOut { awaiting_signing_in: false });
    assert!(matches!(
        actions.as_slice(),
        [SignInAction::DismissToast, SignInAction::SignIn, SignInAction::OpenVerificationWindow]
    ));
    assert!(matches!(flow.phase, SignInPhase::Finished));
    assert!(flow.step(&CopilotStatus::Authorized).is_empty());
}

#[test]
fn sign_in_of_a_running_server_opens_the_window_at_once() {
    let mut flow = initiate_sign_in_impl(false);
    let actions = flow.step(&CopilotStatus::SignedOut { awaiting_signing_in: false });
    assert!(matches!(actions.as_slice(), [SignInAction::SignIn, SignInAction::OpenVerificationWindow]));
    assert!(matches!(flow.phase, SignInPhase::Finished));
}

#[test]
fn reinstall_shows_its_own_toast_and_authorized_server_only_toasts() {
    let (first, mut flow) = reinstall_and_sign_in();
    assert!(matches!(first, SignInAction::ReinstallCopilot));
    assert!(flow.is_reinstall);
    let actions = flow.step(&CopilotStatus::Starting);
    assert!(matches!(actions[0], SignInAction::ShowToast("正在重新安装 Copilot…")));
    let actions = flow.step(&CopilotStatus::Authorized);
    assert!(matches!(actions.as_slice(), [SignInAction::ShowToast("Copilot 已启动。")]));
}

#[test]
fn a_sign_in_ends_within_three_steps() {
    let statuses = [CopilotStatus::Disabled, CopilotStatus::Disabled, CopilotStatus::Disabled, CopilotStatus::Disabled];
    let mut flow = initiate_sign_in();
    let mut steps = 0;
    for status in statuses.iter() {
        if matches!(flow.phase, SignInPhase::Finished) {
            break;
        }
        flow.step(status);
        steps += 1;
    }
    assert!(matches!(flow.phase, SignInPhase::Finished));
    assert!(steps <= 3);
}

#[test]
fn sign_out_toasts_then_reports() {
    assert!(matches!(
        initiate_sign_out().as_slice(),
        [SignInAction::ShowToast("正在退出 Copilot 登录…"), SignInAction::SignOut]
    ));
    assert!(matches!(sign_out_finished(true, false).as_slice(), [SignInAction::ShowToast("已退出 Copilot 登录")]));
    assert!(matches!(sign_out_finished(false, true).as_slice(), [SignInAction::ShowError]));
    assert!(matches!(sign_out_finished(false, false).as_slice(), [SignInAction::LogError]));
}

#[test]
fn toasts_need_a_workspace() {
    assert!(copilot_toast(Some("x"), false).is_none());
    assert!(matches!(copilot_toast(Some("x"), true), Some(ToastRequest::Show("x"))));
    assert!(matches!(copilot_toast(None, true), Some(ToastRequest::Dismiss)));
}

#[test]
fn verification_window_geometry() {
    let options = open_copilot_code_verification_window();
    assert_eq!((options.width, options.height), (450, 350));
    assert_eq!(options.origin_offset, (225, 175));
    assert!(options.is_pop_up && options.is_movable && !options.is_resizable);
    assert!(options.transparent_title_bar);
}

#[test]
fn verification_window_follows_the_server() {
    let mut window = CopilotCodeVerification::new(CopilotStatus::SigningIn { prompt: None });
    assert!(matches!(window.render(), VerificationModal::Spinner));
    assert!(matches!(
        window.status_changed(CopilotStatus::SigningIn { prompt: Some(prompt("ABCD-1234")) }),
        VerificationEvent::Notify
    ));
    match window.render() {
        VerificationModal::Prompting { user_code, connect_label, .. } => {
            assert_eq!(user_code, "ABCD-1234");
            assert_eq!(connect_label, "连接 GitHub");
        },
        _ => panic!("expected the device code"),
    }
    assert!(matches!(
        window.prompting_modal_clicked(PromptingClick::DeviceCode, true),
        PromptingEffect::WriteToClipboard(ref code) if code == "ABCD-1234"
    ));
    assert!(!window.connect_clicked);
    assert!(matches!(
        window.prompting_modal_clicked(PromptingClick::Connect, true),
        PromptingEffect::RunCommand(ref command) if command == "github.copilot.finishDeviceFlow"
    ));
    assert!(window.connect_clicked);
    match window.render() {
        VerificationModal::Prompting { connect_label, .. } => assert_eq!(connect_label, "等待连接中…"),
        _ => panic!("expected the device code"),
    }
    assert!(matches!(window.status_changed(CopilotStatus::Starting), VerificationEvent::Dismiss));
    assert!(matches!(window.status_changed(CopilotStatus::Authorized), VerificationEvent::Notify));
    assert!(matches!(window.render(), VerificationModal::Enabled { headline: "Copilot 已启用！", .. }));
    assert!(!window.connect_clicked);
}

#[test]
fn unauthorized_and_error_modals() {
    let mut window = CopilotCodeVerification::new(CopilotStatus::Unauthorized);
    match window.render() {
        VerificationModal::Unauthorized { sign_up_url, subscribe_label, .. } => {
            assert_eq!(sign_up_url, COPILOT_SIGN_UP_URL);
            assert_eq!(subscribe_label, "前往 GitHub 订阅");
        },
        _ => panic!("expected the subscription notice"),
    }
    window.sign_up_url = Some("https://example.org/subscribe".to_string());
    assert_eq!(window.sign_up_url(), "https://example.org/subscribe");
    window.set_status(CopilotStatus::Error("boom".to_string()));
    assert!(matches!(window.render(), VerificationModal::Error { description: ERROR_LABEL, .. }));
    assert!(matches!(window.before_dismiss(), (true, None)));
    window.set_status(CopilotStatus::SigningIn { prompt: None });
    assert!(matches!(window.before_dismiss(), (true, Some(SignInAction::SignOut))));
}

#[test]
fn copy_button_knows_the_clipboard() {
    let code = "ABCD-1234".to_string();
    assert_eq!(CopilotCodeVerification::render_device_code(&code, Some(&code)), "已复制");
    assert_eq!(CopilotCodeVerification::render_device_code(&code, Some(&"x".to_string())), "复制");
    assert_eq!(CopilotCodeVerification::render_device_code(&code, None), "复制");
}

#[test]
fn configuration_view_prompts() {
    let authorized = ConfigurationView::new(Some(CopilotStatus::Authorized), ConfigurationMode::Chat);
    assert!(matches!(authorized.render(true), ConfigurationPanel::Authorized { label: "已授权", button_label: "退出登录" }));

    let starting = ConfigurationView::new(Some(CopilotStatus::Starting), ConfigurationMode::EditPrediction);
    assert_eq!(starting.loading_message(), Some("正在启动 Copilot…"));
    match starting.render(false) {
        ConfigurationPanel::EditPrediction { title, button, .. } => {
            assert_eq!(title, "登录后使用");
            assert!(matches!(button, ConfigurationButton::Loading { label: "正在启动 Copilot…", layout: ButtonLayout::Medium }));
        },
        _ => panic!("expected the edit prediction layout"),
    }

    let broken = ConfigurationView::new(Some(CopilotStatus::Error("x".to_string())), ConfigurationMode::Chat);
    match broken.render(false) {
        ConfigurationPanel::Chat { description, button } => {
            assert_eq!(description, ERROR_LABEL);
            assert!(matches!(button, ConfigurationButton::Reinstall { label: "重新安装 Copilot 并登录", layout: ButtonLayout::FullWidth }));
        },
        _ => panic!("expected the chat layout"),
    }

    let unknown = ConfigurationView::new(None, ConfigurationMode::EditPrediction);
    assert!(unknown.has_no_status());
    match unknown.render(false) {
        ConfigurationPanel::EditPrediction { button, description, .. } => {
            assert!(description.starts_with("Copilot 需要有效的 GitHub Copilot 订阅"));
            assert!(matches!(button, ConfigurationButton::SignIn { label: "登录 GitHub", tab_index: Some(0), .. }));
        },
        _ => panic!("expected the edit prediction layout"),
    }

    let mut awaiting = ConfigurationView::new(None, ConfigurationMode::Chat);
    awaiting.status_changed(CopilotStatus::SignedOut { awaiting_signing_in: true });
    assert!(awaiting.is_signing_in());
    assert_eq!(awaiting.loading_message(), Some("正在登录 Copilot…"));
}

#[test]
fn prompt_buttons_without_a_language_server() {
    let mut window = CopilotCodeVerification::new(CopilotStatus::SigningIn { prompt: Some(prompt("X")) });
    assert!(matches!(window.prompting_modal_clicked(PromptingClick::Connect, false), PromptingEffect::Nothing));
    assert!(window.connect_clicked);
    assert!(matches!(window.prompting_modal_clicked(PromptingClick::Cancel, false), PromptingEffect::Dismiss));
    let mut idle = CopilotCodeVerification::new(CopilotStatus::Authorized);
    assert!(matches!(idle.prompting_modal_clicked(PromptingClick::Connect, true), PromptingEffect::Nothing));
    assert!(!idle.connect_clicked);
}
