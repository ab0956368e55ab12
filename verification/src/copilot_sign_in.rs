//! The Copilot sign-in flow: what is done when the user asks to sign in or out,
//! the verification window that shows the device code, and the configuration view
//! of the Copilot provider.

use vstd::prelude::*;
use vstd::string::*;

verus! {

/// Where a user subscribes to Copilot when no other address is given.
pub const COPILOT_SIGN_UP_URL: &'static str = "https://github.com/features/copilot";

/// The code that the user pastes on GitHub, and the command that completes the
/// device flow.
pub struct DeviceCodePrompt {
    pub user_code: String,
    pub command: String,
}

/// The state of the Copilot language server.
pub enum CopilotStatus {
    /// The server is starting; the flow waits for it.
    Starting,
    Error(String),
    Disabled,
    SignedOut { awaiting_signing_in: bool },
    SigningIn { prompt: Option<DeviceCodePrompt> },
    Unauthorized,
    Authorized,
}

/// One thing the sign-in or sign-out flow has done.
pub enum SignInAction {
    StartCopilot,
    ReinstallCopilot,
    ShowToast(&'static str),
    DismissToast,
    /// Wait until the server has started, then step the flow with the new status.
    AwaitStartup,
    SignIn,
    OpenVerificationWindow,
    SignOut,
    /// Show the sign-out error in the workspace.
    ShowError,
    /// Log the sign-out error, for want of a workspace to show it in.
    LogError,
}

/// Where a sign-in stands.
pub enum SignInPhase {
    /// The flow reads the server's status (`started` once it has asked a disabled
    /// server to start).
    CheckStatus { started: bool },
    /// The server is starting; the flow waits for it.
    AwaitingStartup,
    Finished,
}

/// A sign-in under way: whether it follows a reinstall, and where it stands.
pub struct SignInFlow {
    pub is_reinstall: bool,
    pub phase: SignInPhase,
}

/// How many steps a sign-in can still take.
pub open spec fn steps_left(phase: SignInPhase) -> nat {
    match phase {
        SignInPhase::CheckStatus { started } => if started { 2 } else { 3 },
        SignInPhase::AwaitingStartup => 1,
        SignInPhase::Finished => 0,
    }
}

/// The toast shown while the server starts for a sign-in.
pub open spec fn starting_toast(is_reinstall: bool) -> &'static str {
    if is_reinstall {
        "正在重新安装 Copilot…"
    } else {
        "正在启动 Copilot…"
    }
}

/// What one step of a sign-in does, and where it then stands, given the server's
/// status at that step.
pub open spec fn sign_in_step(flow: SignInFlow, status: CopilotStatus) -> (SignInPhase, Seq<SignInAction>) {
    match flow.phase {
        SignInPhase::CheckStatus { started } => {
            if !started && status is Disabled {
                (SignInPhase::CheckStatus { started: true }, seq![SignInAction::StartCopilot])
            } else if status is Starting {
                (
                    SignInPhase::AwaitingStartup,
                    seq![SignInAction::ShowToast(starting_toast(flow.is_reinstall)), SignInAction::AwaitStartup],
                )
            } else {
                (SignInPhase::Finished, seq![SignInAction::SignIn, SignInAction::OpenVerificationWindow])
            }
        },
        SignInPhase::AwaitingStartup => {
            if status is Authorized {
                (SignInPhase::Finished, seq![SignInAction::ShowToast("Copilot 已启动。")])
            } else {
                (
                    SignInPhase::Finished,
                    seq![SignInAction::DismissToast, SignInAction::SignIn, SignInAction::OpenVerificationWindow],
                )
            }
        },
        SignInPhase::Finished => (SignInPhase::Finished, Seq::empty()),
    }
}

/// A sign-in (after a reinstall of the server, or not) that has not yet looked at the
/// server.
pub fn initiate_sign_in_impl(is_reinstall: bool) -> (flow: SignInFlow)
    ensures
        flow.is_reinstall == is_reinstall,
        flow.phase == (SignInPhase::CheckStatus { started: false }),
{
    SignInFlow { is_reinstall, phase: SignInPhase::CheckStatus { started: false } }
}

impl SignInFlow {
    /// Steps the sign-in with the server's status: a disabled server is first asked to
    /// start; a starting server is waited for behind a toast; otherwise the device flow
    /// begins and the verification window opens. After waiting, an authorized server
    /// only gets a toast.
    pub fn step(&mut self, status: &CopilotStatus) -> (actions: Vec<SignInAction>)
        ensures
            final(self).is_reinstall == old(self).is_reinstall,
            (final(self).phase, actions@) == sign_in_step(*old(self), *status),
    {
        match self.phase {
            SignInPhase::CheckStatus { started } => {
                let disabled = match status {
                    CopilotStatus::Disabled => true,
                    _ => false,
                };
                let starting = match status {
                    CopilotStatus::Starting => true,
                    _ => false,
                };
                if !started && disabled {
                    self.phase = SignInPhase::CheckStatus { started: true };
                    vec![SignInAction::StartCopilot]
                } else if starting {
                    self.phase = SignInPhase::AwaitingStartup;
                    let toast = if self.is_reinstall {
                        "正在重新安装 Copilot…"
                    } else {
                        "正在启动 Copilot…"
                    };
                    vec![SignInAction::ShowToast(toast), SignInAction::AwaitStartup]
                } else {
                    self.phase = SignInPhase::Finished;
                    vec![SignInAction::SignIn, SignInAction::OpenVerificationWindow]
                }
            },
            SignInPhase::AwaitingStartup => {
                self.phase = SignInPhase::Finished;
                match status {
                    CopilotStatus::Authorized => vec![SignInAction::ShowToast("Copilot 已启动。")],
                    _ => vec![SignInAction::DismissToast, SignInAction::SignIn, SignInAction::OpenVerificationWindow],
                }
            },
            SignInPhase::Finished => Vec::new(),
        }
    }
}

/// A sign-in that the user asked for.
pub fn initiate_sign_in() -> (flow: SignInFlow)
    ensures
        !flow.is_reinstall,
        flow.phase == (SignInPhase::CheckStatus { started: false }),
{
    initiate_sign_in_impl(false)
}

/// A reinstall of the server followed by a sign-in: the reinstall to do first, and
/// the sign-in to step afterwards.
pub fn reinstall_and_sign_in() -> (plan: (SignInAction, SignInFlow))
    ensures
        plan.0 == SignInAction::ReinstallCopilot,
        plan.1.is_reinstall,
        plan.1.phase == (SignInPhase::CheckStatus { started: false }),
{
    (SignInAction::ReinstallCopilot, initiate_sign_in_impl(true))
}

/// Every step of an unfinished sign-in moves it on, so that a sign-in ends after at
/// most three steps, whatever the statuses it meets.
pub proof fn law_sign_in_terminates(flow: SignInFlow, status: CopilotStatus)
    requires
        !(flow.phase is Finished),
    ensures
        steps_left(sign_in_step(flow, status).0) < steps_left(flow.phase),
{
}

/// A sign-in asks for the device flow at most once, and opens the verification window
/// exactly when it asks for it.
pub proof fn law_sign_in_requested_with_window(flow: SignInFlow, status: CopilotStatus)
    ensures
        sign_in_step(flow, status).1.contains(SignInAction::SignIn)
            <==> sign_in_step(flow, status).1.contains(SignInAction::OpenVerificationWindow),
        sign_in_step(flow, status).1.contains(SignInAction::SignIn) ==> sign_in_step(flow, status).0 is Finished,
{
    let actions = sign_in_step(flow, status).1;
    match flow.phase {
        SignInPhase::CheckStatus { started } => {
            if !started && status is Disabled {
                assert(actions[0] == SignInAction::StartCopilot);
            } else if status is Starting {
                assert(actions =~= seq![SignInAction::ShowToast(starting_toast(flow.is_reinstall)), SignInAction::AwaitStartup]);
                assert(actions[0] != SignInAction::SignIn && actions[1] != SignInAction::SignIn);
            } else {
                assert(actions[0] == SignInAction::SignIn);
                assert(actions[1] == SignInAction::OpenVerificationWindow);
            }
        },
        SignInPhase::AwaitingStartup => {
            if status is Authorized {
                assert(actions[0] != SignInAction::SignIn);
            } else {
                assert(actions[1] == SignInAction::SignIn);
                assert(actions[2] == SignInAction::OpenVerificationWindow);
            }
        },
        SignInPhase::Finished => {},
    }
}

/// What a sign-out does first: a toast, then the sign-out itself.
pub fn initiate_sign_out() -> (actions: Vec<SignInAction>)
    ensures
        actions@ == seq![SignInAction::ShowToast("正在退出 Copilot 登录…"), SignInAction::SignOut],
{
    vec![SignInAction::ShowToast("正在退出 Copilot 登录…"), SignInAction::SignOut]
}

/// What a sign-out does once the server has answered: a toast on success; on failure
/// the error, shown in the workspace when there is one and logged otherwise.
pub fn sign_out_finished(succeeded: bool, has_workspace: bool) -> (actions: Vec<SignInAction>)
    ensures
        actions@ == (if succeeded {
            seq![SignInAction::ShowToast("已退出 Copilot 登录")]
        } else if has_workspace {
            seq![SignInAction::ShowError]
        } else {
            seq![SignInAction::LogError]
        }),
{
    if succeeded {
        vec![SignInAction::ShowToast("已退出 Copilot 登录")]
    } else if has_workspace {
        vec![SignInAction::ShowError]
    } else {
        vec![SignInAction::LogError]
    }
}

/// Where a toast about Copilot goes: nowhere without a workspace; otherwise the toast
/// shows `message`, or the toast is taken down when there is none.
pub enum ToastRequest {
    Show(&'static str),
    Dismiss,
}

/// The toast request for `message`, in a window that has a workspace or not.
pub fn copilot_toast(message: Option<&'static str>, has_workspace: bool) -> (request: Option<ToastRequest>)
    ensures
        !has_workspace ==> request is None,
        has_workspace ==> request == Some(match message {
            Some(m) => ToastRequest::Show(m),
            None => ToastRequest::Dismiss,
        }),
{
    if !has_workspace {
        return None;
    }
    match message {
        Some(m) => Some(ToastRequest::Show(m)),
        None => Some(ToastRequest::Dismiss),
    }
}

/// How the verification window opens: a pop-up of fixed size, centred on the window it
/// is opened from (its origin is that centre less `origin_offset`), movable but not
/// resizable, under a transparent title bar.
pub struct VerificationWindowOptions {
    pub width: u32,
    pub height: u32,
    /// Subtracted from the centre of the current window, as (x, y).
    pub origin_offset: (u32, u32),
    pub is_pop_up: bool,
    pub is_resizable: bool,
    pub is_movable: bool,
    pub transparent_title_bar: bool,
    /// What is logged when the window fails to open.
    pub failure_context: &'static str,
}

/// The options of the verification window. Its size is 450 by 350 pixels, and its
/// origin sits half of that away from the centre of the current window.
pub fn open_copilot_code_verification_window() -> (options: VerificationWindowOptions)
    ensures
        options.width == 450,
        options.height == 350,
        options.origin_offset == (225u32, 175u32),
        options.is_pop_up,
        !options.is_resizable,
        options.is_movable,
        options.transparent_title_bar,
        options.failure_context == "打开 Copilot 验证窗口失败",
{
    let height: u32 = 450;
    let width: u32 = 350;
    VerificationWindowOptions {
        width: height,
        height: width,
        origin_offset: (height / 2, width / 2),
        is_pop_up: true,
        is_resizable: false,
        is_movable: true,
        transparent_title_bar: true,
        failure_context: "打开 Copilot 验证窗口失败",
    }
}

/// What the verification window does when the server's status changes.
pub enum VerificationEvent {
    /// The window takes the new status and redraws.
    Notify,
    /// The window closes.
    Dismiss,
}

/// What the verification window shows.
pub enum VerificationModal {
    /// A spinner, while the server prepares the device code.
    Spinner,
    /// The device code, with the button that connects to GitHub and a cancel button.
    Prompting {
        headline: &'static str,
        description: &'static str,
        user_code: String,
        instructions: &'static str,
        connect_label: &'static str,
        cancel_label: &'static str,
    },
    /// The notice that a subscription is needed, with the address to subscribe at.
    Unauthorized {
        headline: &'static str,
        description: &'static str,
        subscribe_label: &'static str,
        sign_up_url: String,
        cancel_label: &'static str,
    },
    Enabled { headline: &'static str, description: &'static str, done_label: &'static str },
    /// The notice that Copilot failed, with a button that reinstalls it and signs in.
    Error { headline: &'static str, description: &'static str, reinstall_label: &'static str },
    Empty,
}

/// A button of the device-code prompt.
pub enum PromptingClick {
    /// The button that shows the device code.
    DeviceCode,
    /// The button that connects to GitHub.
    Connect,
    Cancel,
}

/// What a click on the device-code prompt does outside the window's own state.
pub enum PromptingEffect {
    /// Put this text on the clipboard (and redraw, so that the button says it is copied).
    WriteToClipboard(String),
    /// Have the language server run this command, which completes the device flow.
    RunCommand(String),
    /// Close the window.
    Dismiss,
    Nothing,
}

/// The window that walks the user through GitHub's device flow.
pub struct CopilotCodeVerification {
    pub status: CopilotStatus,
    pub connect_clicked: bool,
    pub sign_up_url: Option<String>,
}

/// The label of the button that connects to GitHub.
pub open spec fn connect_label(connect_clicked: bool) -> &'static str {
    if connect_clicked {
        "等待连接中…"
    } else {
        "连接 GitHub"
    }
}

/// The label of the button that copies the device code: whether the clipboard already
/// holds it.
pub open spec fn copy_label(user_code: Seq<char>, clipboard: Option<Seq<char>>) -> &'static str {
    if clipboard == Some(user_code) {
        "已复制"
    } else {
        "复制"
    }
}

/// The address of the subscription page: the one given, or the default.
pub open spec fn sign_up_url_of(sign_up_url: Option<String>) -> Seq<char> {
    match sign_up_url {
        Some(u) => u@,
        None => COPILOT_SIGN_UP_URL@,
    }
}

/// Whether `modal` is the prompt for `user_code` with the connect button labelled for
/// `connect_clicked`.
pub open spec fn is_prompting_modal(modal: VerificationModal, user_code: Seq<char>, connect_clicked: bool) -> bool {
    modal matches VerificationModal::Prompting { headline, description, user_code: code, instructions, connect_label: label, cancel_label }
        && headline == "在 Prism 中使用 GitHub Copilot"
        && description == "使用 Copilot 需要你在 GitHub 上拥有有效订阅。"
        && code@ == user_code
        && instructions == "点击下方按钮后，将此代码粘贴到 GitHub 中。"
        && label == connect_label(connect_clicked)
        && cancel_label == "取消"
}

/// Whether `modal` is the subscription notice that sends the user to `url`.
pub open spec fn is_unauthorized_modal(modal: VerificationModal, url: Seq<char>) -> bool {
    modal matches VerificationModal::Unauthorized { headline, description, subscribe_label, sign_up_url, cancel_label }
        && headline == "你必须拥有有效的 GitHub Copilot 订阅。"
        && description == "订阅或续订后，连接你现有的许可证即可启用 Copilot。"
        && subscribe_label == "前往 GitHub 订阅"
        && sign_up_url@ == url
        && cancel_label == "取消"
}

/// The notice that Copilot is enabled.
pub open spec fn enabled_modal() -> VerificationModal {
    VerificationModal::Enabled {
        headline: "Copilot 已启用！",
        description: "现在可以正常使用 GitHub Copilot 了。",
        done_label: "完成",
    }
}

/// The notice that Copilot failed.
pub open spec fn error_modal() -> VerificationModal {
    VerificationModal::Error { headline: "发生错误", description: ERROR_LABEL, reinstall_label: "重新安装 Copilot 并登录" }
}

impl CopilotCodeVerification {
    /// The window, showing the server's status when it opens.
    pub fn new(status: CopilotStatus) -> (window: Self)
        ensures
            window.status == status,
            !window.connect_clicked,
            window.sign_up_url is None,
    {
        CopilotCodeVerification { status, connect_clicked: false, sign_up_url: None }
    }

    pub fn set_status(&mut self, status: CopilotStatus)
        ensures
            final(self).status == status,
            final(self).connect_clicked == old(self).connect_clicked,
            final(self).sign_up_url == old(self).sign_up_url,
    {
        self.status = status;
    }

    /// Follows the server: an authorized, unauthorized or signing-in status is shown;
    /// any other closes the window.
    pub fn status_changed(&mut self, status: CopilotStatus) -> (event: VerificationEvent)
        ensures
            (status is Authorized || status is Unauthorized || status is SigningIn) ==> {
                &&& event is Notify
                &&& final(self).status == status
            },
            !(status is Authorized || status is Unauthorized || status is SigningIn) ==> {
                &&& event is Dismiss
                &&& final(self).status == old(self).status
            },
            final(self).connect_clicked == old(self).connect_clicked,
            final(self).sign_up_url == old(self).sign_up_url,
    {
        let shown = match status {
            CopilotStatus::Authorized | CopilotStatus::Unauthorized | CopilotStatus::SigningIn { .. } => true,
            _ => false,
        };
        if shown {
            self.set_status(status);
            VerificationEvent::Notify
        } else {
            VerificationEvent::Dismiss
        }
    }

    /// What a click on a button of the device-code prompt does (nothing unless the prompt
    /// is on show). The code button puts the device code on the clipboard. The connect
    /// button makes the button wait and, when Copilot has a language server, has it run
    /// the command of the device code. The cancel button closes the window.
    pub fn prompting_modal_clicked(&mut self, click: PromptingClick, has_language_server: bool) -> (effect: PromptingEffect)
        ensures
            final(self).status == old(self).status,
            final(self).sign_up_url == old(self).sign_up_url,
            match old(self).status {
                CopilotStatus::SigningIn { prompt: Some(p) } => match click {
                    PromptingClick::DeviceCode => (effect matches PromptingEffect::WriteToClipboard(t) && t@ == p.user_code@)
                        && final(self).connect_clicked == old(self).connect_clicked,
                    PromptingClick::Connect => final(self).connect_clicked && if has_language_server {
                        effect matches PromptingEffect::RunCommand(c) && c@ == p.command@
                    } else {
                        effect is Nothing
                    },
                    PromptingClick::Cancel => effect is Dismiss && final(self).connect_clicked == old(self).connect_clicked,
                },
                _ => effect is Nothing && final(self).connect_clicked == old(self).connect_clicked,
            },
    {
        match &self.status {
            CopilotStatus::SigningIn { prompt: Some(p) } => match click {
                PromptingClick::DeviceCode => PromptingEffect::WriteToClipboard(p.user_code.clone()),
                PromptingClick::Connect => {
                    let effect = if has_language_server {
                        PromptingEffect::RunCommand(p.command.clone())
                    } else {
                        PromptingEffect::Nothing
                    };
                    self.connect_clicked = true;
                    effect
                },
                PromptingClick::Cancel => PromptingEffect::Dismiss,
            },
            _ => PromptingEffect::Nothing,
        }
    }

    /// The label of the button that copies the device code.
    pub fn render_device_code(user_code: &String, clipboard: Option<&String>) -> (label: &'static str)
        ensures
            label == copy_label(user_code@, match clipboard { Some(c) => Some(c@), None => None }),
    {
        match clipboard {
            Some(text) => if *text == *user_code { "已复制" } else { "复制" },
            None => "复制",
        }
    }

    /// The prompt that shows the device code (its buttons act as
    /// `prompting_modal_clicked` says).
    pub fn render_prompting_modal(connect_clicked: bool, prompt: &DeviceCodePrompt) -> (modal: VerificationModal)
        ensures
            is_prompting_modal(modal, prompt.user_code@, connect_clicked),
    {
        let connect_label = if connect_clicked { "等待连接中…" } else { "连接 GitHub" };
        VerificationModal::Prompting {
            headline: "在 Prism 中使用 GitHub Copilot",
            description: "使用 Copilot 需要你在 GitHub 上拥有有效订阅。",
            user_code: prompt.user_code.clone(),
            instructions: "点击下方按钮后，将此代码粘贴到 GitHub 中。",
            connect_label,
            cancel_label: "取消",
        }
    }

    pub fn render_enabled_modal() -> (modal: VerificationModal)
        ensures
            modal == enabled_modal(),
    {
        VerificationModal::Enabled {
            headline: "Copilot 已启用！",
            description: "现在可以正常使用 GitHub Copilot 了。",
            done_label: "完成",
        }
    }

    /// The address of the subscription page.
    pub fn sign_up_url(&self) -> (url: String)
        ensures
            url@ == sign_up_url_of(self.sign_up_url),
    {
        match &self.sign_up_url {
            Some(u) => u.clone(),
            None => String::from_str(COPILOT_SIGN_UP_URL),
        }
    }

    pub fn render_unauthorized_modal(&self) -> (modal: VerificationModal)
        ensures
            is_unauthorized_modal(modal, sign_up_url_of(self.sign_up_url)),
    {
        VerificationModal::Unauthorized {
            headline: "你必须拥有有效的 GitHub Copilot 订阅。",
            description: "订阅或续订后，连接你现有的许可证即可启用 Copilot。",
            subscribe_label: "前往 GitHub 订阅",
            sign_up_url: self.sign_up_url(),
            cancel_label: "取消",
        }
    }

    pub fn render_error_modal() -> (modal: VerificationModal)
        ensures
            modal == error_modal(),
    {
        VerificationModal::Error { headline: "发生错误", description: ERROR_LABEL, reinstall_label: "重新安装 Copilot 并登录" }
    }

    /// What the window shows for its status. Showing the outcome of a sign-in
    /// (authorized or not) resets the connect button.
    pub fn render(&mut self) -> (modal: VerificationModal)
        ensures
            final(self).status == old(self).status,
            final(self).sign_up_url == old(self).sign_up_url,
            final(self).connect_clicked == if old(self).status is Authorized || old(self).status is Unauthorized {
                false
            } else {
                old(self).connect_clicked
            },
            match old(self).status {
                CopilotStatus::SigningIn { prompt: None } => modal is Spinner,
                CopilotStatus::SigningIn { prompt: Some(p) } => is_prompting_modal(modal, p.user_code@, old(self).connect_clicked),
                CopilotStatus::Unauthorized => is_unauthorized_modal(modal, sign_up_url_of(old(self).sign_up_url)),
                CopilotStatus::Authorized => modal == enabled_modal(),
                CopilotStatus::Error(_) => modal == error_modal(),
                _ => modal is Empty,
            },
    {
        match &self.status {
            CopilotStatus::SigningIn { prompt: None } => VerificationModal::Spinner,
            CopilotStatus::SigningIn { prompt: Some(p) } => Self::render_prompting_modal(self.connect_clicked, p),
            CopilotStatus::Unauthorized => {
                self.connect_clicked = false;
                self.render_unauthorized_modal()
            },
            CopilotStatus::Authorized => {
                self.connect_clicked = false;
                Self::render_enabled_modal()
            },
            CopilotStatus::Error(_) => Self::render_error_modal(),
            _ => VerificationModal::Empty,
        }
    }

    /// Before the window closes, a sign-in still under way is abandoned by signing
    /// out. The window always closes.
    pub fn before_dismiss(&self) -> (decision: (bool, Option<SignInAction>))
        ensures
            decision.0,
            decision.1 == if self.status is SigningIn {
                Some(SignInAction::SignOut)
            } else {
                None::<SignInAction>
            },
    {
        match self.status {
            CopilotStatus::SigningIn { .. } => (true, Some(SignInAction::SignOut)),
            _ => (true, None),
        }
    }
}

/// Which provider the configuration view configures Copilot for.
pub enum ConfigurationMode {
    Chat,
    EditPrediction,
}

/// How a button of the configuration view is sized.
pub enum ButtonLayout {
    /// The default size.
    Plain,
    /// The medium size, in the edit prediction layout.
    Medium,
    /// The whole width of the view, in the chat layout.
    FullWidth,
}

/// The button the configuration view offers.
pub enum ConfigurationButton {
    /// A disabled button with a spinner and this message.
    Loading { label: &'static str, layout: ButtonLayout },
    /// The sign-in button; it comes first in the tab order in the edit prediction layout.
    SignIn { label: &'static str, layout: ButtonLayout, tab_index: Option<isize> },
    Reinstall { label: &'static str, layout: ButtonLayout },
}

/// What the configuration view shows.
pub enum ConfigurationPanel {
    /// The card that says Copilot is authorized, with a sign-out button.
    Authorized { label: &'static str, button_label: &'static str },
    /// The edit prediction layout: a title and a description beside a button.
    EditPrediction { title: &'static str, description: &'static str, button: ConfigurationButton },
    /// The chat layout: a description above a button.
    Chat { description: &'static str, button: ConfigurationButton },
}

/// The configuration view of the Copilot provider.
pub struct ConfigurationView {
    pub copilot_status: Option<CopilotStatus>,
    pub edit_prediction: bool,
}

/// The label shown while Copilot starts or signs in.
pub open spec fn loading_message_of(status: Option<CopilotStatus>) -> Option<&'static str> {
    match status {
        Some(CopilotStatus::Starting) => Some("正在启动 Copilot…"),
        Some(CopilotStatus::SigningIn { .. }) => Some("正在登录 Copilot…"),
        Some(CopilotStatus::SignedOut { awaiting_signing_in: true }) => Some("正在登录 Copilot…"),
        _ => None,
    }
}

/// The text shown when Copilot failed to start.
pub const ERROR_LABEL: &'static str = "Copilot 启动时出现问题。你可以尝试重新安装并再次登录。";

/// The loading button with `label`.
pub open spec fn loading_button(label: &'static str, edit_prediction: bool) -> ConfigurationButton {
    ConfigurationButton::Loading { label, layout: if edit_prediction { ButtonLayout::Medium } else { ButtonLayout::Plain } }
}

/// The sign-in button.
pub open spec fn sign_in_button(edit_prediction: bool) -> ConfigurationButton {
    if edit_prediction {
        ConfigurationButton::SignIn { label: "登录 GitHub", layout: ButtonLayout::Medium, tab_index: Some(0) }
    } else {
        ConfigurationButton::SignIn { label: "登录以使用 GitHub Copilot", layout: ButtonLayout::FullWidth, tab_index: None }
    }
}

/// The button that reinstalls Copilot and signs in.
pub open spec fn reinstall_button(edit_prediction: bool) -> ConfigurationButton {
    if edit_prediction {
        ConfigurationButton::Reinstall { label: "重新安装并登录", layout: ButtonLayout::Medium }
    } else {
        ConfigurationButton::Reinstall { label: "重新安装 Copilot 并登录", layout: ButtonLayout::FullWidth }
    }
}

/// The description and the button the configuration view shows when the user is not
/// authenticated: a spinner while Copilot is busy, the reinstall button after an error,
/// and the sign-in button otherwise (with a warning when no server is known).
pub open spec fn configuration_prompt(status: Option<CopilotStatus>, edit_prediction: bool) -> (&'static str, ConfigurationButton) {
    let start_label = if edit_prediction {
        "要将 Copilot 用于编辑预测，你需要先登录 GitHub。请注意，你的 GitHub 账户必须拥有有效的 Copilot 订阅。"
    } else {
        "要让 Prism Agent 使用 GitHub Copilot，你需要先登录 GitHub。请注意，你的 GitHub 账户必须拥有有效的 Copilot Chat 订阅。"
    };
    let no_status_label = if edit_prediction {
        "Copilot 需要有效的 GitHub Copilot 订阅。请确认 Copilot 已正确配置后重试，或改用其他编辑预测提供商。"
    } else {
        "Copilot Chat 需要有效的 GitHub Copilot 订阅。请确认 Copilot 已正确配置后重试，或改用其他 LLM 提供商。"
    };
    match loading_message_of(status) {
        Some(message) => (start_label, loading_button(message, edit_prediction)),
        None => if status matches Some(CopilotStatus::Error(_)) {
            (ERROR_LABEL, reinstall_button(edit_prediction))
        } else if status is None {
            (no_status_label, sign_in_button(edit_prediction))
        } else {
            (start_label, sign_in_button(edit_prediction))
        },
    }
}

/// What the configuration view shows: the authorized card when the provider is
/// authenticated, and otherwise the prompt in the layout of its mode.
pub open spec fn configuration_panel(status: Option<CopilotStatus>, edit_prediction: bool, is_authenticated: bool) -> ConfigurationPanel {
    if is_authenticated {
        ConfigurationPanel::Authorized { label: "已授权", button_label: "退出登录" }
    } else if edit_prediction {
        ConfigurationPanel::EditPrediction {
            title: "登录后使用",
            description: configuration_prompt(status, true).0,
            button: configuration_prompt(status, true).1,
        }
    } else {
        ConfigurationPanel::Chat {
            description: configuration_prompt(status, false).0,
            button: configuration_prompt(status, false).1,
        }
    }
}

impl ConfigurationView {
    /// The view for `mode`, showing the server's status when there is a server.
    pub fn new(copilot_status: Option<CopilotStatus>, mode: ConfigurationMode) -> (view: Self)
        ensures
            view.copilot_status == copilot_status,
            view.edit_prediction == (mode is EditPrediction),
    {
        let edit_prediction = match mode {
            ConfigurationMode::EditPrediction => true,
            ConfigurationMode::Chat => false,
        };
        ConfigurationView { copilot_status, edit_prediction }
    }

    /// Follows the server's status.
    pub fn status_changed(&mut self, status: CopilotStatus)
        ensures
            final(self).copilot_status == Some(status),
            final(self).edit_prediction == old(self).edit_prediction,
    {
        self.copilot_status = Some(status);
    }

    pub fn is_starting(&self) -> (res: bool)
        ensures
            res == (self.copilot_status matches Some(CopilotStatus::Starting)),
    {
        match &self.copilot_status {
            Some(CopilotStatus::Starting) => true,
            _ => false,
        }
    }

    pub fn is_signing_in(&self) -> (res: bool)
        ensures
            res == (self.copilot_status matches Some(CopilotStatus::SigningIn { .. })
                || self.copilot_status == Some(CopilotStatus::SignedOut { awaiting_signing_in: true })),
    {
        match &self.copilot_status {
            Some(CopilotStatus::SigningIn { .. }) => true,
            Some(CopilotStatus::SignedOut { awaiting_signing_in }) => *awaiting_signing_in,
            _ => false,
        }
    }

    pub fn is_error(&self) -> (res: bool)
        ensures
            res == (self.copilot_status matches Some(CopilotStatus::Error(_))),
    {
        match &self.copilot_status {
            Some(CopilotStatus::Error(_)) => true,
            _ => false,
        }
    }

    pub fn has_no_status(&self) -> (res: bool)
        ensures
            res == (self.copilot_status is None),
    {
        self.copilot_status.is_none()
    }

    /// The message shown while Copilot starts or signs in.
    pub fn loading_message(&self) -> (message: Option<&'static str>)
        ensures
            message == loading_message_of(self.copilot_status),
    {
        if self.is_starting() {
            Some("正在启动 Copilot…")
        } else if self.is_signing_in() {
            Some("正在登录 Copilot…")
        } else {
            None
        }
    }

    pub fn render_loading_button(&self, label: &'static str, edit_prediction: bool) -> (button: ConfigurationButton)
        ensures
            button == loading_button(label, edit_prediction),
    {
        let layout = if edit_prediction { ButtonLayout::Medium } else { ButtonLayout::Plain };
        ConfigurationButton::Loading { label, layout }
    }

    pub fn render_sign_in_button(&self, edit_prediction: bool) -> (button: ConfigurationButton)
        ensures
            button == sign_in_button(edit_prediction),
    {
        if edit_prediction {
            ConfigurationButton::SignIn { label: "登录 GitHub", layout: ButtonLayout::Medium, tab_index: Some(0) }
        } else {
            ConfigurationButton::SignIn { label: "登录以使用 GitHub Copilot", layout: ButtonLayout::FullWidth, tab_index: None }
        }
    }

    pub fn render_reinstall_button(&self, edit_prediction: bool) -> (button: ConfigurationButton)
        ensures
            button == reinstall_button(edit_prediction),
    {
        if edit_prediction {
            ConfigurationButton::Reinstall { label: "重新安装并登录", layout: ButtonLayout::Medium }
        } else {
            ConfigurationButton::Reinstall { label: "重新安装 Copilot 并登录", layout: ButtonLayout::FullWidth }
        }
    }

    /// The description and the button for the server's status, in the layout of
    /// `edit_prediction`.
    fn prompt(&self, edit_prediction: bool) -> (prompt: (&'static str, ConfigurationButton))
        ensures
            prompt == configuration_prompt(self.copilot_status, edit_prediction),
    {
        let start_label = if edit_prediction {
            "要将 Copilot 用于编辑预测，你需要先登录 GitHub。请注意，你的 GitHub 账户必须拥有有效的 Copilot 订阅。"
        } else {
            "要让 Prism Agent 使用 GitHub Copilot，你需要先登录 GitHub。请注意，你的 GitHub 账户必须拥有有效的 Copilot Chat 订阅。"
        };
        let no_status_label = if edit_prediction {
            "Copilot 需要有效的 GitHub Copilot 订阅。请确认 Copilot 已正确配置后重试，或改用其他编辑预测提供商。"
        } else {
            "Copilot Chat 需要有效的 GitHub Copilot 订阅。请确认 Copilot 已正确配置后重试，或改用其他 LLM 提供商。"
        };
        match self.loading_message() {
            Some(message) => (start_label, self.render_loading_button(message, edit_prediction)),
            None => if self.is_error() {
                (ERROR_LABEL, self.render_reinstall_button(edit_prediction))
            } else if self.has_no_status() {
                (no_status_label, self.render_sign_in_button(edit_prediction))
            } else {
                (start_label, self.render_sign_in_button(edit_prediction))
            },
        }
    }

    /// The prompt in the edit prediction layout.
    pub fn render_for_edit_prediction(&self) -> (panel: ConfigurationPanel)
        ensures
            panel == configuration_panel(self.copilot_status, true, false),
    {
        let (description, button) = self.prompt(true);
        ConfigurationPanel::EditPrediction { title: "登录后使用", description, button }
    }

    /// The prompt in the chat layout.
    pub fn render_for_chat(&self) -> (panel: ConfigurationPanel)
        ensures
            panel == configuration_panel(self.copilot_status, false, false),
    {
        let (description, button) = self.prompt(false);
        ConfigurationPanel::Chat { description, button }
    }

    /// What the view shows: the authorized card when the provider is authenticated,
    /// and otherwise the prompt that fits the server's status.
    pub fn render(&self, is_authenticated: bool) -> (panel: ConfigurationPanel)
        ensures
            panel == configuration_panel(self.copilot_status, self.edit_prediction, is_authenticated),
    {
        if is_authenticated {
            ConfigurationPanel::Authorized { label: "已授权", button_label: "退出登录" }
        } else if self.edit_prediction {
            self.render_for_edit_prediction()
        } else {
            self.render_for_chat()
        }
    }
}

/// The configuration view offers a sign-in exactly when Copilot is neither busy
/// starting or signing in, nor broken.
pub proof fn law_configuration_offers_sign_in(status: Option<CopilotStatus>, edit_prediction: bool)
    ensures
        configuration_prompt(status, edit_prediction).1 is SignIn
            <==> (loading_message_of(status) is None && !(status matches Some(CopilotStatus::Error(_)))),
{
}

/// While a sign-in is under way (the device code shown or not yet), and while a
/// signed-out server awaits one, the configuration view says that Copilot is signing in
/// and offers only a disabled loading button; while the server starts it says so.
pub proof fn law_signing_in_shows_loading(prompt: Option<DeviceCodePrompt>, edit_prediction: bool)
    ensures
        loading_message_of(Some(CopilotStatus::SigningIn { prompt })) == Some("正在登录 Copilot…"),
        loading_message_of(Some(CopilotStatus::SignedOut { awaiting_signing_in: true })) == Some("正在登录 Copilot…"),
        loading_message_of(Some(CopilotStatus::Starting)) == Some("正在启动 Copilot…"),
        configuration_prompt(Some(CopilotStatus::SigningIn { prompt }), edit_prediction).1
            matches ConfigurationButton::Loading { label, .. } && label == "正在登录 Copilot…",
        !(configuration_prompt(Some(CopilotStatus::SigningIn { prompt }), edit_prediction).1 is SignIn),
        loading_message_of(Some(CopilotStatus::SignedOut { awaiting_signing_in: false })) is None,
        loading_message_of(Some(CopilotStatus::Authorized)) is None,
        loading_message_of(None) is None,
        loading_message_of(Some(CopilotStatus::Disabled)) is None,
        loading_message_of(Some(CopilotStatus::Unauthorized)) is None,
        forall|e: String| loading_message_of(Some(CopilotStatus::Error(e))) is None,
{
}

} // verus!
