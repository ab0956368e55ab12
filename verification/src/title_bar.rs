//! The title bar: which worktree and branch it names, how it shows the connection to
//! a remote host and to the collaboration server, and the organization menu.

use vstd::prelude::*;
use crate::app_menus::MenuCommand;
use vstd::string::*;
use crate::remote_connection::path_view;
use crate::text::{truncate_and_trailoff, truncated_with_trailoff};

verus! {

/// The longest project name the title bar shows in full.
pub const MAX_PROJECT_NAME_LENGTH: usize = 40;

/// The longest branch name the title bar shows in full.
pub const MAX_BRANCH_NAME_LENGTH: usize = 40;

/// How many characters of a commit hash stand for a detached head.
pub const MAX_SHORT_SHA_LENGTH: usize = 8;

/// A worktree of the project.
pub struct Worktree {
    pub id: u64,
    /// The absolute path of its root, by components.
    pub abs_path: Vec<String>,
    pub root_name: String,
    /// Whether the project panel lists it.
    pub visible: bool,
}

/// Whether `path` lies at or under `base`, component by component.
pub open spec fn path_starts_with(path: Seq<Seq<char>>, base: Seq<Seq<char>>) -> bool {
    base.len() <= path.len() && path.take(base.len() as int) == base
}

/// Whether the path `path` lies at or under `base`.
pub fn starts_with_path(path: &Vec<String>, base: &Vec<String>) -> (res: bool)
    ensures
        res == path_starts_with(path_view(path@), path_view(base@)),
{
    if base.len() > path.len() {
        return false;
    }
    let mut i: usize = 0;
    while i < base.len()
        invariant
            base@.len() <= path@.len(),
            i <= base@.len(),
            forall|j: int| 0 <= j < i ==> path@[j]@ == base@[j]@,
        decreases base@.len() - i,
    {
        if path[i] != base[i] {
            proof {
                assert(path_view(path@).take(base@.len() as int)[i as int] != path_view(base@)[i as int]);
            }
            return false;
        }
        i = i + 1;
    }
    assert(path_view(path@).take(base@.len() as int) =~= path_view(base@));
    true
}

/// The worktree the title bar names, by its position in `worktrees`: the one set by
/// the override while it still exists; otherwise the first listed worktree that holds
/// the active repository; otherwise the first listed worktree.
pub open spec fn effective_worktree(
    worktrees: Seq<Worktree>,
    override_id: Option<u64>,
    active_repository: Option<Seq<Seq<char>>>,
) -> Option<int> {
    if override_id is Some && exists|i: int| 0 <= i < worktrees.len() && worktrees[i].id == override_id->0 {
        Some(choose|i: int| 0 <= i < worktrees.len() && worktrees[i].id == override_id->0
            && forall|j: int| 0 <= j < i ==> worktrees[j].id != override_id->0)
    } else if active_repository is Some && exists|i: int| 0 <= i < worktrees.len() && worktrees[i].visible
        && path_starts_with(path_view(worktrees[i].abs_path@), active_repository->0) {
        Some(choose|i: int| 0 <= i < worktrees.len() && worktrees[i].visible
            && path_starts_with(path_view(worktrees[i].abs_path@), active_repository->0)
            && forall|j: int| 0 <= j < i ==> !(worktrees[j].visible
                && path_starts_with(path_view(worktrees[j].abs_path@), active_repository->0)))
    } else if exists|i: int| 0 <= i < worktrees.len() && worktrees[i].visible {
        Some(choose|i: int| 0 <= i < worktrees.len() && worktrees[i].visible
            && forall|j: int| 0 <= j < i ==> !worktrees[j].visible)
    } else {
        None
    }
}

/// The first position in `worktrees` with id `id`.
fn worktree_for_id(worktrees: &Vec<Worktree>, id: u64) -> (found: Option<usize>)
    ensures
        match found {
            Some(i) => i < worktrees@.len() && worktrees@[i as int].id == id
                && forall|j: int| 0 <= j < i ==> worktrees@[j].id != id,
            None => forall|j: int| 0 <= j < worktrees@.len() ==> worktrees@[j].id != id,
        },
{
    let mut i: usize = 0;
    while i < worktrees.len()
        invariant
            i <= worktrees@.len(),
            forall|j: int| 0 <= j < i ==> worktrees@[j].id != id,
        decreases worktrees@.len() - i,
    {
        if worktrees[i].id == id {
            return Some(i);
        }
        i = i + 1;
    }
    None
}

/// The worktree to display in the title bar, by its position in `worktrees`: the
/// override when that worktree still exists, else the first visible worktree at or
/// under the active repository, else the first visible one.
fn choose_worktree(
    worktrees: &Vec<Worktree>,
    override_id: Option<u64>,
    active_repository: Option<&Vec<String>>,
) -> (found: Option<usize>)
    ensures
        match found {
            Some(i) => effective_worktree(worktrees@, override_id, match active_repository {
                Some(r) => Some(path_view(r@)),
                None => None,
            }) == Some(i as int),
            None => effective_worktree(worktrees@, override_id, match active_repository {
                Some(r) => Some(path_view(r@)),
                None => None,
            }) is None,
        },
{
    let ghost repo = match active_repository {
        Some(r) => Some(path_view(r@)),
        None => None::<Seq<Seq<char>>>,
    };
    let ghost no_override = !(override_id is Some && exists|i: int| 0 <= i < worktrees@.len() && worktrees@[i].id == override_id->0);
    if let Some(id) = override_id {
        let found = worktree_for_id(worktrees, id);
        if found.is_none() {
            assert(no_override);
        }
        if let Some(i) = found {
            proof {
                let c = choose|k: int| 0 <= k < worktrees@.len() && worktrees@[k].id == id
                    && forall|j: int| 0 <= j < k ==> worktrees@[j].id != id;
                assert(c == i as int) by {
                    if c < i as int {} else if c > i as int {}
                }
            }
            return Some(i);
        }
    }
    if let Some(repo_path) = active_repository {
        let mut i: usize = 0;
        while i < worktrees.len()
            invariant
                no_override,
                repo == Some(path_view(repo_path@)),
                repo == match active_repository {
                    Some(r) => Some(path_view(r@)),
                    None => None::<Seq<Seq<char>>>,
                },
                no_override == !(override_id is Some && exists|i: int| 0 <= i < worktrees@.len() && worktrees@[i].id == override_id->0),
                i <= worktrees@.len(),
                forall|j: int| 0 <= j < i ==> !(worktrees@[j].visible
                    && path_starts_with(path_view(worktrees@[j].abs_path@), path_view(repo_path@))),
            decreases worktrees@.len() - i,
        {
            if worktrees[i].visible && starts_with_path(&worktrees[i].abs_path, repo_path) {
                proof {
                    let c = choose|k: int| 0 <= k < worktrees@.len() && worktrees@[k].visible
                        && path_starts_with(path_view(worktrees@[k].abs_path@), path_view(repo_path@))
                        && forall|j: int| 0 <= j < k ==> !(worktrees@[j].visible
                            && path_starts_with(path_view(worktrees@[j].abs_path@), path_view(repo_path@)));
                    assert(c == i as int) by {
                        if c < i as int {} else if c > i as int {}
                    }
                }
                return Some(i);
            }
            i = i + 1;
        }
        assert(!exists|k: int| 0 <= k < worktrees@.len() && worktrees@[k].visible
            && path_starts_with(path_view(worktrees@[k].abs_path@), path_view(repo_path@)));
    }
    assert(no_override);
    let ghost no_repo_match = !(repo is Some && exists|k: int| 0 <= k < worktrees@.len() && worktrees@[k].visible
        && path_starts_with(path_view(worktrees@[k].abs_path@), repo->0));
    assert(no_repo_match);
    let mut i: usize = 0;
    while i < worktrees.len()
        invariant
            no_override,
            no_override == !(override_id is Some && exists|i: int| 0 <= i < worktrees@.len() && worktrees@[i].id == override_id->0),
            no_repo_match,
            no_repo_match == !(repo is Some && exists|k: int| 0 <= k < worktrees@.len() && worktrees@[k].visible
                && path_starts_with(path_view(worktrees@[k].abs_path@), repo->0)),
            repo == match active_repository {
                Some(r) => Some(path_view(r@)),
                None => None::<Seq<Seq<char>>>,
            },
            i <= worktrees@.len(),
            forall|j: int| 0 <= j < i ==> !worktrees@[j].visible,
        decreases worktrees@.len() - i,
    {
        if worktrees[i].visible {
            proof {
                let c = choose|k: int| 0 <= k < worktrees@.len() && worktrees@[k].visible
                    && forall|j: int| 0 <= j < k ==> !worktrees@[j].visible;
                assert(c == i as int) by {
                    if c < i as int {} else if c > i as int {}
                }
            }
            return Some(i);
        }
        i = i + 1;
    }
    None
}

/// The label of the project name button: the worktree's root name, shortened, or the
/// invitation to open a recent project.
pub open spec fn project_name_label(name: Option<Seq<char>>) -> Seq<char> {
    match name {
        Some(n) => truncated_with_trailoff(n, MAX_PROJECT_NAME_LENGTH as nat),
        None => "打开最近项目"@,
    }
}

/// What the project name button shows.
pub struct ProjectNameView {
    pub label: String,
    /// Whether a project is named (otherwise the label is muted).
    pub is_project_selected: bool,
    /// Whether the button offers a list of the worktrees.
    pub show_chevron: bool,
    /// The tooltip's text.
    pub tooltip: &'static str,
    /// The action the tooltip names, which the button's menu offers too.
    pub tooltip_action: MenuCommand,
}

/// The project name button for the worktree root name `name` among `worktree_count`
/// visible worktrees.
fn project_name_view(name: Option<&str>, worktree_count: usize) -> (view: ProjectNameView)
    ensures
        view.label@ == project_name_label(match name { Some(n) => Some(n@), None => None }),
        view.is_project_selected == name is Some,
        view.show_chevron == (worktree_count > 1),
        view.tooltip == "最近项目",
        view.tooltip_action == (MenuCommand::OpenRecent { create_new_window: false }),
{
    let label = match name {
        Some(n) => truncate_and_trailoff(n, MAX_PROJECT_NAME_LENGTH),
        None => String::from_str("打开最近项目"),
    };
    ProjectNameView {
        label,
        is_project_selected: name.is_some(),
        show_chevron: worktree_count > 1,
        tooltip: "最近项目",
        tooltip_action: MenuCommand::OpenRecent { create_new_window: false },
    }
}

/// What the branch button names: the branch, shortened; for a detached head, the
/// start of the commit hash; nothing otherwise.
pub open spec fn branch_label_of(branch: Option<Seq<char>>, head_sha: Option<Seq<char>>) -> Option<Seq<char>> {
    match branch {
        Some(b) => Some(truncated_with_trailoff(b, MAX_BRANCH_NAME_LENGTH as nat)),
        None => match head_sha {
            Some(sha) => Some(if sha.len() <= MAX_SHORT_SHA_LENGTH { sha } else { sha.take(MAX_SHORT_SHA_LENGTH as int) }),
            None => None,
        },
    }
}

/// The label of the branch button.
pub fn branch_label(branch: Option<&str>, head_sha: Option<&str>) -> (label: Option<String>)
    ensures
        match label {
            Some(l) => branch_label_of(match branch { Some(b) => Some(b@), None => None },
                match head_sha { Some(h) => Some(h@), None => None }) == Some(l@),
            None => branch_label_of(match branch { Some(b) => Some(b@), None => None },
                match head_sha { Some(h) => Some(h@), None => None }) is None,
        },
{
    match branch {
        Some(b) => Some(truncate_and_trailoff(b, MAX_BRANCH_NAME_LENGTH)),
        None => match head_sha {
            Some(sha) => {
                let n = sha.unicode_len();
                if n <= MAX_SHORT_SHA_LENGTH {
                    Some(String::from_str(sha))
                } else {
                    Some(String::from_str(sha.substring_char(0, MAX_SHORT_SHA_LENGTH)))
                }
            },
            None => None,
        },
    }
}

/// Counts of changed files, by kind of change.
pub struct TrackedSummary {
    pub modified: u64,
    pub added: u64,
    pub deleted: u64,
}

/// The changes of a repository: those staged, those in the working tree, conflicts and
/// untracked files.
pub struct GitSummary {
    pub index: TrackedSummary,
    pub worktree: TrackedSummary,
    pub conflict: u64,
    pub untracked: u64,
}

/// The icon beside the branch name.
pub enum BranchIcon {
    /// A conflict.
    Warning,
    /// A modified file.
    SquareDot,
    /// An added or untracked file.
    SquarePlus,
    /// A deleted file.
    SquareMinus,
    /// A clean repository.
    GitBranch,
}

/// The icon for the changes of a repository, the gravest kind first: conflicts,
/// modifications, additions (untracked files included), deletions, and a clean state.
pub open spec fn branch_icon_of(status: GitSummary) -> BranchIcon {
    if status.conflict > 0 {
        BranchIcon::Warning
    } else if status.index.modified + status.worktree.modified > 0 {
        BranchIcon::SquareDot
    } else if status.index.added + status.worktree.added > 0 || status.untracked > 0 {
        BranchIcon::SquarePlus
    } else if status.index.deleted + status.worktree.deleted > 0 {
        BranchIcon::SquareMinus
    } else {
        BranchIcon::GitBranch
    }
}

/// The icon beside the branch name for the changes of a repository.
pub fn branch_icon(status: &GitSummary) -> (icon: BranchIcon)
    ensures
        icon == branch_icon_of(*status),
{
    if status.conflict > 0 {
        BranchIcon::Warning
    } else if status.index.modified > 0 || status.worktree.modified > 0 {
        BranchIcon::SquareDot
    } else if status.index.added > 0 || status.worktree.added > 0 || status.untracked > 0 {
        BranchIcon::SquarePlus
    } else if status.index.deleted > 0 || status.worktree.deleted > 0 {
        BranchIcon::SquareMinus
    } else {
        BranchIcon::GitBranch
    }
}

/// The kind of a remote project's connection.
pub enum RemoteKind {
    /// An SSH host, with the nickname it was given, if any.
    Ssh(Option<String>),
    Wsl,
    Docker,
}

/// The state of the connection to a remote host.
pub enum ConnectionState {
    Connecting,
    Connected,
    HeartbeatMissed,
    Reconnecting,
    Disconnected,
}

/// A color of the interface palette.
pub enum Color {
    Default,
    Info,
    Success,
    Warning,
    Error,
    Muted,
    Disabled,
    /// The color of the collaborator with this participant index.
    Player(u32),
}

/// The icon of a remote host.
pub enum RemoteIcon {
    Server,
    Linux,
    Box,
}

/// What the remote project button shows.
pub struct RemoteProjectView {
    pub label: String,
    pub tooltip_title: &'static str,
    pub icon: RemoteIcon,
    pub icon_color: Color,
    pub indicator_color: Color,
    /// The connection's state, in words, for the tooltip.
    pub meta: String,
}

/// The state of the connection in words, naming `host`.
pub open spec fn connection_meta(state: ConnectionState, host: Seq<char>) -> Seq<char> {
    match state {
        ConnectionState::Connecting => "正在连接："@ + host,
        ConnectionState::Connected => "已连接："@ + host,
        ConnectionState::HeartbeatMissed => "与 "@ + host + " 的连接尝试未成功，正在重试..."@,
        ConnectionState::Reconnecting => "与 "@ + host + " 的连接已断开，正在重新连接..."@,
        ConnectionState::Disconnected => "已从 "@ + host + " 断开连接"@,
    }
}

/// The color of the dot on the remote icon.
pub open spec fn indicator_color_of(state: ConnectionState) -> Color {
    match state {
        ConnectionState::Connecting => Color::Info,
        ConnectionState::Connected => Color::Success,
        ConnectionState::HeartbeatMissed => Color::Warning,
        ConnectionState::Reconnecting => Color::Warning,
        ConnectionState::Disconnected => Color::Error,
    }
}

/// The color of the remote icon itself.
pub open spec fn icon_color_of(state: ConnectionState) -> Color {
    match state {
        ConnectionState::Connecting => Color::Info,
        ConnectionState::Connected => Color::Default,
        ConnectionState::HeartbeatMissed => Color::Warning,
        ConnectionState::Reconnecting => Color::Warning,
        ConnectionState::Disconnected => Color::Error,
    }
}

/// The button of a remote project: named by the SSH nickname or else the host's
/// display name, with an icon for the kind of host colored by the connection's state.
fn remote_project_view(host: &str, kind: &RemoteKind, state: &ConnectionState) -> (view: RemoteProjectView)
    ensures
        remote_view_shows(view, host@, *kind, *state),
{
    let (nickname, tooltip_title, icon) = match kind {
        RemoteKind::Ssh(nickname) => (nickname.clone(), "远程项目", RemoteIcon::Server),
        RemoteKind::Wsl => (None, "远程项目", RemoteIcon::Linux),
        RemoteKind::Docker => (None, "Dev Container", RemoteIcon::Box),
    };
    let label = match nickname {
        Some(n) => n,
        None => String::from_str(host),
    };
    let (indicator_color, meta) = match state {
        ConnectionState::Connecting => (Color::Info, String::from_str("正在连接：").concat(host)),
        ConnectionState::Connected => (Color::Success, String::from_str("已连接：").concat(host)),
        ConnectionState::HeartbeatMissed => (
            Color::Warning,
            String::from_str("与 ").concat(host).concat(" 的连接尝试未成功，正在重试..."),
        ),
        ConnectionState::Reconnecting => (
            Color::Warning,
            String::from_str("与 ").concat(host).concat(" 的连接已断开，正在重新连接..."),
        ),
        ConnectionState::Disconnected => (Color::Error, String::from_str("已从 ").concat(host).concat(" 断开连接")),
    };
    let icon_color = match state {
        ConnectionState::Connecting => Color::Info,
        ConnectionState::Connected => Color::Default,
        ConnectionState::HeartbeatMissed => Color::Warning,
        ConnectionState::Reconnecting => Color::Warning,
        ConnectionState::Disconnected => Color::Error,
    };
    RemoteProjectView { label, tooltip_title, icon, icon_color, indicator_color, meta }
}

/// What the project host slot of the title bar shows.
pub enum ProjectHostView {
    /// The remote project button.
    Remote(RemoteProjectView),
    /// A disabled "disconnected" button.
    Disconnected,
    /// The login of the collaborator who shares the project, in their color.
    /// The button that follows the collaborator, with the tooltip that says so.
    SharedBy { login: String, color: Color, tooltip_title: String },
}

/// Where the project lives, as the project host slot needs to know it.
pub enum ProjectHost {
    /// The project is on a remote host; `state` is `None` while no connection state is known.
    Remote { host: String, kind: RemoteKind, state: Option<ConnectionState> },
    /// A shared project whose connection to the collaboration server is lost.
    Disconnected,
    /// A project shared by a collaborator, with the collaborator's login and participant
    /// index when they are known.
    Shared { login: Option<String>, participant_index: Option<u32> },
    Local,
}

/// Whether `view` is what the remote project button shows for a project on `host`, reached
/// through `kind`, whose connection is in `state`.
pub open spec fn remote_view_shows(view: RemoteProjectView, host: Seq<char>, kind: RemoteKind, state: ConnectionState) -> bool {
    &&& view.label@ == match kind {
        RemoteKind::Ssh(Some(nickname)) => nickname@,
        _ => host,
    }
    &&& view.tooltip_title == match kind {
        RemoteKind::Docker => "Dev Container",
        _ => "远程项目",
    }
    &&& view.icon == match kind {
        RemoteKind::Ssh(_) => RemoteIcon::Server,
        RemoteKind::Wsl => RemoteIcon::Linux,
        RemoteKind::Docker => RemoteIcon::Box,
    }
    &&& view.indicator_color == indicator_color_of(state)
    &&& view.icon_color == icon_color_of(state)
    &&& view.meta@ == connection_meta(state, host)
}

/// Whether `view` is what the project host slot shows for `host`.
pub open spec fn project_host_shows(host: ProjectHost, view: Option<ProjectHostView>) -> bool {
    match host {
        ProjectHost::Remote { host, kind, state } => match state {
            Some(st) => view matches Some(ProjectHostView::Remote(r)) && remote_view_shows(r, host@, kind, st),
            None => view is None,
        },
        ProjectHost::Disconnected => view == Some(ProjectHostView::Disconnected),
        ProjectHost::Shared { login, participant_index } => match (login, participant_index) {
            (Some(l), Some(p)) => view matches Some(ProjectHostView::SharedBy { login, color, tooltip_title })
                && login@ == l@ && color == Color::Player(p) && tooltip_title@ == l@ + " 正在共享此项目。点击即可跟随。"@,
            _ => view is None,
        },
        ProjectHost::Local => view is None,
    }
}

/// The project host slot: the remote project button, the disconnected notice, or the
/// collaborator who shares the project (when they and their color are known).
fn project_host_view(host: &ProjectHost) -> (view: Option<ProjectHostView>)
    ensures
        project_host_shows(*host, view),
{
    match host {
        ProjectHost::Remote { host, kind, state } => match state {
            Some(st) => Some(ProjectHostView::Remote(remote_project_view(host.as_str(), kind, st))),
            None => None,
        },
        ProjectHost::Disconnected => Some(ProjectHostView::Disconnected),
        ProjectHost::Shared { login, participant_index } => match (login, participant_index) {
            (Some(l), Some(p)) => Some(ProjectHostView::SharedBy {
                login: l.clone(),
                color: Color::Player(*p),
                tooltip_title: l.clone().concat(" 正在共享此项目。点击即可跟随。"),
            }),
            _ => None,
        },
        ProjectHost::Local => None,
    }
}

/// The state of the connection to the collaboration server.
pub enum ClientStatus {
    SignedOut,
    UpgradeRequired,
    Authenticating,
    Authenticated,
    AuthenticationError,
    Connecting,
    ConnectionError,
    Connected,
    ConnectionLost,
    Reauthenticating,
    Reauthenticated,
    Reconnecting,
    ReconnectionError,
}

/// Whether the title bar shows the "disconnected" icon: while the connection to the
/// collaboration server is failing or being re-established, or needs an upgrade.
fn disconnected_status(status: &ClientStatus) -> (disconnected: bool)
    ensures
        disconnected == (*status is ConnectionError || *status is ConnectionLost || *status is Reauthenticating
            || *status is Reconnecting || *status is ReconnectionError || *status is UpgradeRequired),
{
    match status {
        ClientStatus::ConnectionError
        | ClientStatus::ConnectionLost
        | ClientStatus::Reauthenticating
        | ClientStatus::Reconnecting
        | ClientStatus::ReconnectionError
        | ClientStatus::UpgradeRequired => true,
        _ => false,
    }
}

/// The restricted-mode button: its label and its tooltip.
pub struct RestrictedModeButton {
    pub label: &'static str,
    pub tooltip_title: &'static str,
    pub tooltip_meta: &'static str,
}

/// The restricted-mode button, shown while some worktree of the project is not trusted
/// (an absent trust store trusts all).
fn restricted_mode_button(has_restricted_worktrees: Option<bool>) -> (button: Option<RestrictedModeButton>)
    ensures
        button is Some <==> has_restricted_worktrees == Some(true),
        button matches Some(b) ==> b.label == "受限模式" && b.tooltip_title == "你当前处于受限模式"
            && b.tooltip_meta == "将此项目标记为受信任并解锁全部功能",
{
    match has_restricted_worktrees {
        Some(true) => Some(RestrictedModeButton {
            label: "受限模式",
            tooltip_title: "你当前处于受限模式",
            tooltip_meta: "将此项目标记为受信任并解锁全部功能",
        }),
        _ => None,
    }
}

/// An organization the user belongs to.
pub struct Organization {
    pub id: u64,
    pub name: String,
}

/// An entry of the organization menu, with the organization's plan.
pub struct OrganizationEntry<P> {
    pub id: u64,
    pub name: String,
    pub plan: P,
    /// Whether it is the current organization (checked in the menu).
    pub is_current: bool,
}

/// The organization button and its menu.
pub struct OrganizationMenu<P> {
    /// The name of the current organization, on the button.
    pub button_label: String,
    /// The header of the menu.
    pub header: &'static str,
    pub entries: Vec<OrganizationEntry<P>>,
}

/// The organization menu: the button names the current organization, and the menu lists
/// every organization with its plan (the free plan when none is known), the current one
/// checked. Without a current organization there is no button.
fn organization_menu<P: Copy>(
    current: Option<&Organization>,
    organizations: &Vec<Organization>,
    plans: &Vec<Option<P>>,
    free_plan: P,
) -> (menu: Option<OrganizationMenu<P>>)
    requires
        plans@.len() == organizations@.len(),
    ensures
        current is None ==> menu is None,
        current matches Some(c) ==> menu matches Some(m) && {
            &&& m.button_label@ == c.name@
            &&& m.header == "组织"
            &&& m.entries@.len() == organizations@.len()
            &&& forall|i: int| 0 <= i < organizations@.len() ==> {
                &&& (#[trigger] m.entries@[i]).id == organizations@[i].id
                &&& m.entries@[i].name@ == organizations@[i].name@
                &&& m.entries@[i].plan == match plans@[i] {
                    Some(p) => p,
                    None => free_plan,
                }
                &&& m.entries@[i].is_current == (organizations@[i].id == c.id)
            }
        },
{
    let current = match current {
        Some(c) => c,
        None => return None,
    };
    let mut entries: Vec<OrganizationEntry<P>> = Vec::new();
    let mut i: usize = 0;
    while i < organizations.len()
        invariant
            plans@.len() == organizations@.len(),
            i <= organizations@.len(),
            entries@.len() == i,
            forall|k: int| 0 <= k < i ==> {
                &&& (#[trigger] entries@[k]).id == organizations@[k].id
                &&& entries@[k].name@ == organizations@[k].name@
                &&& entries@[k].plan == match plans@[k] {
                    Some(p) => p,
                    None => free_plan,
                }
                &&& entries@[k].is_current == (organizations@[k].id == current.id)
            },
        decreases organizations@.len() - i,
    {
        let plan = match &plans[i] {
            Some(p) => *p,
            None => free_plan,
        };
        let org = &organizations[i];
        entries.push(OrganizationEntry { id: org.id, name: org.name.clone(), plan, is_current: org.id == current.id });
        i = i + 1;
    }
    Some(OrganizationMenu { button_label: current.name.clone(), header: "组织", entries })
}

/// The title bar's own settings.
pub struct TitleBarSettings {
    pub show_branch_icon: bool,
    pub show_onboarding_banner: bool,
    pub show_branch_name: bool,
    pub show_project_items: bool,
}

/// Which parts the title bar shows.
pub struct TitleBarLayout {
    /// The application menu, in line with the project items.
    pub inline_application_menu: bool,
    pub project_host_and_name: bool,
    pub branch: bool,
    pub onboarding_banner: bool,
    /// The application menu in a row of its own above the rest.
    pub menu_row: bool,
    /// The wider right padding used when the user is signed in.
    pub signed_in_padding: bool,
}

/// Which parts the title bar shows: the project items and the branch as the settings
/// ask, unless an in-line application menu shows all its menus; the banner as the
/// settings ask; the application menu in a row of its own when menus are shown.
pub fn title_bar_layout(
    settings: &TitleBarSettings,
    show_menus: bool,
    has_application_menu: bool,
    all_menus_shown: bool,
    signed_in: bool,
) -> (layout: TitleBarLayout)
    ensures
        layout.inline_application_menu == (has_application_menu && !show_menus),
        layout.project_host_and_name == (settings.show_project_items
            && !(has_application_menu && !show_menus && all_menus_shown)),
        layout.branch == (settings.show_branch_name && !(has_application_menu && !show_menus && all_menus_shown)),
        layout.onboarding_banner == settings.show_onboarding_banner,
        layout.menu_row == show_menus,
        layout.signed_in_padding == signed_in,
{
    let mut render_project_items = settings.show_branch_name || settings.show_project_items;
    let inline_application_menu = has_application_menu && !show_menus;
    if inline_application_menu {
        render_project_items = render_project_items && !all_menus_shown;
    }
    TitleBarLayout {
        inline_application_menu,
        project_host_and_name: render_project_items && settings.show_project_items,
        branch: render_project_items && settings.show_branch_name,
        onboarding_banner: settings.show_onboarding_banner,
        menu_row: show_menus,
        signed_in_padding: signed_in,
    }
}

/// The platform the application runs on, as its interface style.
pub enum PlatformStyle {
    Mac,
    Linux,
    Windows,
}

/// Whether the title bar carries its own application menu: always on Linux and
/// Windows, and on macOS only when the cross-platform menu was asked for at build time.
pub fn has_application_menu(platform: &PlatformStyle, cross_platform_menu_requested: bool) -> (has_menu: bool)
    ensures
        has_menu == match *platform {
            PlatformStyle::Mac => cross_platform_menu_requested,
            _ => true,
        },
{
    match platform {
        PlatformStyle::Mac => cross_platform_menu_requested,
        PlatformStyle::Linux | PlatformStyle::Windows => true,
    }
}

/// An action of the application menu that a workspace forwards to its title bar.
pub enum MenuActionKind {
    OpenApplicationMenu,
    ActivateMenuRight,
    ActivateMenuLeft,
}

/// The application menu actions each new workspace answers: none on macOS, where the
/// system draws the menu; the three that open and walk the title bar's menu elsewhere.
pub open spec fn registered_menu_actions(is_macos: bool) -> Seq<MenuActionKind> {
    if is_macos {
        seq![]
    } else {
        seq![MenuActionKind::OpenApplicationMenu, MenuActionKind::ActivateMenuRight, MenuActionKind::ActivateMenuLeft]
    }
}

/// What happens when a workspace is created: a workspace without a window gets nothing;
/// one with a window gets a title bar and answers the application menu actions that
/// come back (their kinds, in the order they are registered).
pub fn init(is_macos: bool, has_window: bool) -> (menu_actions: Option<Vec<MenuActionKind>>)
    ensures
        menu_actions is Some <==> has_window,
        menu_actions matches Some(v) ==> v@ == registered_menu_actions(is_macos),
{
    if !has_window {
        return None;
    }
    let mut actions: Vec<MenuActionKind> = Vec::new();
    if !is_macos {
        actions.push(MenuActionKind::OpenApplicationMenu);
        actions.push(MenuActionKind::ActivateMenuRight);
        actions.push(MenuActionKind::ActivateMenuLeft);
    }
    assert(actions@ =~= registered_menu_actions(is_macos));
    Some(actions)
}

/// An application menu action as the workspace hands it on.
pub enum ApplicationMenuAction {
    /// Open the menu of that name.
    OpenApplicationMenu(String),
    ActivateMenuRight,
    ActivateMenuLeft,
}

/// What the title bar asks of its application menu.
pub enum MenuRequest {
    Open(String),
    NavigateRight,
    NavigateLeft,
}

/// What the title bar hears about.
pub enum TitleBarEvent {
    /// A buffer of the project was edited.
    BufferEdited,
    /// Another project event.
    OtherProjectEvent,
    /// The repository of the focused file changed.
    ActiveRepositoryChanged,
    /// A repository was updated; `is_active` when it is the active one.
    RepositoryUpdated { is_active: bool },
    /// Another event of the git store.
    OtherGitEvent,
    /// The workspace, the user store or the trusted worktrees changed.
    Observed,
}


/// The worktree named by the user after `event`: forgotten when the user types in an
/// editor or focuses a file of another repository, kept otherwise.
pub open spec fn override_after_event(worktree_override: Option<u64>, event: TitleBarEvent) -> Option<u64> {
    match event {
        TitleBarEvent::BufferEdited => None,
        TitleBarEvent::ActiveRepositoryChanged => None,
        _ => worktree_override,
    }
}

/// Follows an event: typing in any editor or focusing a file of another repository
/// forgets the worktree named by the user, so that the title bar shows the project
/// actually worked in. Returns whether the title bar redraws.
pub fn handle_title_bar_event(worktree_override: &mut Option<u64>, event: &TitleBarEvent) -> (notify: bool)
    ensures
        *final(worktree_override) == override_after_event(*old(worktree_override), *event),
        notify == match *event {
            TitleBarEvent::BufferEdited => true,
            TitleBarEvent::ActiveRepositoryChanged => true,
            TitleBarEvent::RepositoryUpdated { is_active } => is_active,
            TitleBarEvent::Observed => true,
            _ => false,
        },
{
    match event {
        TitleBarEvent::BufferEdited | TitleBarEvent::ActiveRepositoryChanged => {
            *worktree_override = None;
            true
        },
        TitleBarEvent::RepositoryUpdated { is_active } => *is_active,
        TitleBarEvent::Observed => true,
        TitleBarEvent::OtherProjectEvent | TitleBarEvent::OtherGitEvent => false,
    }
}

/// Once the user types in an editor, the title bar names the worktree of the active
/// repository (or the first one), whatever worktree the user had named before.
pub proof fn law_edit_forgets_override(
    worktrees: Seq<Worktree>,
    worktree_override: Option<u64>,
    active_repository: Option<Seq<Seq<char>>>,
)
    ensures
        effective_worktree(worktrees, override_after_event(worktree_override, TitleBarEvent::BufferEdited), active_repository)
            == effective_worktree(worktrees, None, active_repository),
        effective_worktree(worktrees, override_after_event(worktree_override, TitleBarEvent::ActiveRepositoryChanged), active_repository)
            == effective_worktree(worktrees, None, active_repository),
{
}

/// The worktree named by the user after `events`, in order.
pub open spec fn override_after_events(worktree_override: Option<u64>, events: Seq<TitleBarEvent>) -> Option<u64>
    decreases events.len(),
{
    if events.len() == 0 {
        worktree_override
    } else {
        override_after_events(override_after_event(worktree_override, events[0]), events.drop_first())
    }
}

/// The worktree named by the user stays named, whatever else happens, until the user
/// types in an editor or the active repository changes.
pub proof fn law_override_holds(worktree_override: Option<u64>, events: Seq<TitleBarEvent>)
    requires
        forall|i: int| 0 <= i < events.len() ==> !(#[trigger] events[i] is BufferEdited)
            && !(events[i] is ActiveRepositoryChanged),
    ensures
        override_after_events(worktree_override, events) == worktree_override,
    decreases events.len(),
{
    if events.len() > 0 {
        assert(!(events[0] is BufferEdited) && !(events[0] is ActiveRepositoryChanged));
        let rest = events.drop_first();
        assert forall|i: int| 0 <= i < rest.len() implies !(#[trigger] rest[i] is BufferEdited)
            && !(rest[i] is ActiveRepositoryChanged) by {
            assert(rest[i] == events[i + 1]);
        }
        law_override_holds(worktree_override, rest);
    }
}

/// Once the user types in an editor or the active repository changes, no worktree is
/// named any more, until the user names one again.
pub proof fn law_override_cleared(worktree_override: Option<u64>, event: TitleBarEvent)
    requires
        event is BufferEdited || event is ActiveRepositoryChanged,
    ensures
        override_after_event(worktree_override, event) is None,
{
}

/// A worktree named by the user is shown while it exists.
pub proof fn law_override_wins(worktrees: Seq<Worktree>, id: u64, active_repository: Option<Seq<Seq<char>>>, i: int)
    requires
        0 <= i < worktrees.len(),
        worktrees[i].id == id,
        forall|j: int| 0 <= j < i ==> worktrees[j].id != id,
    ensures
        effective_worktree(worktrees, Some(id), active_repository) == Some(i),
{
    let c = choose|k: int| 0 <= k < worktrees.len() && worktrees[k].id == id
        && forall|j: int| 0 <= j < k ==> worktrees[j].id != id;
    assert(c == i) by {
        if c < i {} else if c > i {}
    }
}

/// A repository of the project, as the branch button reads it.
pub struct RepositoryInfo {
    pub work_directory_abs_path: Vec<String>,
    pub branch: Option<String>,
    pub head_sha: Option<String>,
    pub status: GitSummary,
}

/// What the branch button shows: the repository it opens the branch picker for, the
/// branch label, and the icon when the settings ask for it.
pub struct BranchButton {
    pub repository: usize,
    pub label: String,
    pub icon: Option<BranchIcon>,
}

/// The title bar of a workspace window.
pub struct TitleBar {
    /// Whether the title bar carries its own application menu.
    pub has_application_menu: bool,
    /// Whether the workspace it belongs to is still alive.
    pub workspace_alive: bool,
    /// The workspace it belongs to.
    pub workspace_id: u64,
    /// The project of that workspace.
    pub project_id: u64,
    /// Whether it knows the window's group of workspaces yet (it learns that later).
    pub has_multi_workspace: bool,
    /// Whether the onboarding banner shows anything.
    pub onboarding_banner_visible: bool,
}

impl TitleBar {
    /// The title bar of a workspace on `platform`.
    /// The title bar of the workspace `workspace_id`, whose project is `project_id`, on
    /// `platform`: with its own application menu as `has_application_menu` says, not yet
    /// knowing the window's group of workspaces, and with an onboarding banner that never
    /// shows.
    pub fn new(platform: &PlatformStyle, cross_platform_menu_requested: bool, workspace_id: u64, project_id: u64) -> (title_bar: TitleBar)
        ensures
            title_bar == (TitleBar {
                has_application_menu: match *platform {
                    PlatformStyle::Mac => cross_platform_menu_requested,
                    _ => true,
                },
                workspace_alive: true,
                workspace_id,
                project_id,
                has_multi_workspace: false,
                onboarding_banner_visible: false,
            }),
    {
        TitleBar {
            has_application_menu: has_application_menu(platform, cross_platform_menu_requested),
            workspace_alive: true,
            workspace_id,
            project_id,
            has_multi_workspace: false,
            onboarding_banner_visible: false,
        }
    }

    /// The user chose the organization at `index` in the menu: it becomes the current
    /// organization.
    pub fn choose_organization(&self, current: &mut Option<Organization>, organizations: &Vec<Organization>, index: usize)
        requires
            index < organizations@.len(),
        ensures
            *final(current) matches Some(c) && c.id == organizations@[index as int].id
                && c.name@ == organizations@[index as int].name@,
    {
        let chosen = &organizations[index];
        *current = Some(Organization { id: chosen.id, name: chosen.name.clone() });
    }

    /// Forwards an application menu action to the title bar's menu; a title bar without
    /// its own menu does nothing.
    pub fn handle_menu_action(&self, action: &ApplicationMenuAction) -> (request: Option<MenuRequest>)
        ensures
            request is Some <==> self.has_application_menu,
            self.has_application_menu ==> match *action {
                ApplicationMenuAction::OpenApplicationMenu(name) => request matches Some(MenuRequest::Open(n)) && n@ == name@,
                ApplicationMenuAction::ActivateMenuRight => request == Some(MenuRequest::NavigateRight),
                ApplicationMenuAction::ActivateMenuLeft => request == Some(MenuRequest::NavigateLeft),
            },
    {
        if !self.has_application_menu {
            return None;
        }
        match action {
            ApplicationMenuAction::OpenApplicationMenu(name) => Some(MenuRequest::Open(name.clone())),
            ApplicationMenuAction::ActivateMenuRight => Some(MenuRequest::NavigateRight),
            ApplicationMenuAction::ActivateMenuLeft => Some(MenuRequest::NavigateLeft),
        }
    }

    /// When the window gains or loses focus, the workspace (while it is alive) tells
    /// its followers which view is active. Returns whether it is told to.
    pub fn window_activation_changed(&self) -> (update_followers: bool)
        ensures
            update_followers == self.workspace_alive,
    {
        self.workspace_alive
    }

    /// How many of `worktrees` the project panel lists.
    pub fn worktree_count(&self, worktrees: &Vec<Worktree>) -> (count: usize)
        ensures
            count == worktrees@.filter(|w: Worktree| w.visible).len(),
    {
        let mut count: usize = 0;
        let mut i: usize = 0;
        while i < worktrees.len()
            invariant
                i <= worktrees@.len(),
                count == worktrees@.take(i as int).filter(|w: Worktree| w.visible).len(),
                count <= i,
            decreases worktrees@.len() - i,
        {
            proof {
                assert(worktrees@.take(i + 1) =~= worktrees@.take(i as int).push(worktrees@[i as int]));
                worktrees@.take(i as int).lemma_filter_push(worktrees@[i as int], |w: Worktree| w.visible);
            }
            if worktrees[i].visible {
                count = count + 1;
            }
            i = i + 1;
        }
        proof {
            assert(worktrees@.take(worktrees@.len() as int) =~= worktrees@);
        }
        count
    }

    /// Returns the worktree to display in the title bar, by its position in `worktrees`:
    /// the override set on the workspace (while the workspace lives) when that worktree
    /// still exists, else the first visible worktree at or under the active repository,
    /// else the first visible one.
    pub fn effective_active_worktree(
        &self,
        worktrees: &Vec<Worktree>,
        worktree_override: Option<u64>,
        active_repository: Option<&Vec<String>>,
    ) -> (found: Option<usize>)
        ensures
            match found {
                Some(i) => effective_worktree(
                    worktrees@,
                    if self.workspace_alive { worktree_override } else { None },
                    match active_repository {
                        Some(r) => Some(path_view(r@)),
                        None => None,
                    },
                ) == Some(i as int),
                None => effective_worktree(
                    worktrees@,
                    if self.workspace_alive { worktree_override } else { None },
                    match active_repository {
                        Some(r) => Some(path_view(r@)),
                        None => None,
                    },
                ) is None,
            },
    {
        let used = if self.workspace_alive { worktree_override } else { None };
        choose_worktree(worktrees, used, active_repository)
    }

    /// Names `worktree_id` as the worktree the title bar shows, for as long as the user
    /// does not move on (nothing is named once the workspace is gone); the title bar
    /// redraws.
    pub fn set_active_worktree_override(&self, worktree_override: &mut Option<u64>, worktree_id: u64) -> (notify: bool)
        ensures
            *final(worktree_override) == if self.workspace_alive { Some(worktree_id) } else { *old(worktree_override) },
            notify,
    {
        if self.workspace_alive {
            *worktree_override = Some(worktree_id);
        }
        true
    }

    /// Forgets the worktree named by the user; the title bar redraws.
    pub fn clear_active_worktree_override(&self, worktree_override: &mut Option<u64>) -> (notify: bool)
        ensures
            *final(worktree_override) == if self.workspace_alive { None } else { *old(worktree_override) },
            notify,
    {
        if self.workspace_alive {
            *worktree_override = None;
        }
        true
    }

    /// The first repository, in the order the git store lists them, whose working
    /// directory holds the worktree at `worktree_path`.
    pub fn get_repository_for_worktree(&self, worktree_path: &Vec<String>, repositories: &Vec<RepositoryInfo>) -> (found: Option<usize>)
        ensures
            match found {
                Some(i) => i < repositories@.len()
                    && path_starts_with(path_view(worktree_path@), path_view(repositories@[i as int].work_directory_abs_path@))
                    && forall|j: int| 0 <= j < i ==> !path_starts_with(
                        path_view(worktree_path@),
                        path_view(repositories@[j].work_directory_abs_path@),
                    ),
                None => forall|j: int| 0 <= j < repositories@.len() ==> !path_starts_with(
                    path_view(worktree_path@),
                    path_view(repositories@[j].work_directory_abs_path@),
                ),
            },
    {
        let mut i: usize = 0;
        while i < repositories.len()
            invariant
                i <= repositories@.len(),
                forall|j: int| 0 <= j < i ==> !path_starts_with(
                    path_view(worktree_path@),
                    path_view(repositories@[j].work_directory_abs_path@),
                ),
            decreases repositories@.len() - i,
        {
            if starts_with_path(worktree_path, &repositories[i].work_directory_abs_path) {
                return Some(i);
            }
            i = i + 1;
        }
        None
    }

    /// The button of a remote project.
    pub fn render_remote_project_connection(&self, host: &str, kind: &RemoteKind, state: &ConnectionState) -> (view: RemoteProjectView)
        ensures
            remote_view_shows(view, host@, *kind, *state),
    {
        remote_project_view(host, kind, state)
    }

    /// The restricted-mode button, shown while some worktree is not trusted.
    pub fn render_restricted_mode(&self, has_restricted_worktrees: Option<bool>) -> (button: Option<RestrictedModeButton>)
        ensures
            button is Some <==> has_restricted_worktrees == Some(true),
            button matches Some(b) ==> b.label == "受限模式" && b.tooltip_title == "你当前处于受限模式"
                && b.tooltip_meta == "将此项目标记为受信任并解锁全部功能",
    {
        restricted_mode_button(has_restricted_worktrees)
    }

    /// The project host slot.
    pub fn render_project_host(&self, host: &ProjectHost) -> (view: Option<ProjectHostView>)
        ensures
            project_host_shows(*host, view),
    {
        project_host_view(host)
    }

    /// The project name button.
    pub fn render_project_name(&self, name: Option<&str>, worktree_count: usize) -> (view: ProjectNameView)
        ensures
            view.label@ == project_name_label(match name { Some(n) => Some(n@), None => None }),
            view.is_project_selected == name is Some,
            view.show_chevron == (worktree_count > 1),
            view.tooltip == "最近项目",
            view.tooltip_action == (MenuCommand::OpenRecent { create_new_window: false }),
    {
        project_name_view(name, worktree_count)
    }

    /// The branch button: for the repository that holds the worktree the title bar names
    /// (`worktree_path`), named by its branch or, for a detached head, the start of its
    /// commit; none without such a repository, without a name, or once the workspace is
    /// gone. The icon appears when the settings ask for it.
    pub fn render_project_branch(
        &self,
        worktree_path: Option<&Vec<String>>,
        repositories: &Vec<RepositoryInfo>,
        show_branch_icon: bool,
    ) -> (button: Option<BranchButton>)
        ensures
            button matches Some(b) ==> {
                &&& worktree_path is Some
                &&& self.workspace_alive
                &&& b.repository < repositories@.len()
                &&& path_starts_with(
                    path_view(worktree_path->0@),
                    path_view(repositories@[b.repository as int].work_directory_abs_path@),
                )
                &&& forall|j: int| 0 <= j < b.repository ==> !path_starts_with(
                    path_view(worktree_path->0@),
                    path_view(repositories@[j].work_directory_abs_path@),
                )
                &&& branch_label_of(
                    match repositories@[b.repository as int].branch { Some(x) => Some(x@), None => None },
                    match repositories@[b.repository as int].head_sha { Some(x) => Some(x@), None => None },
                ) == Some(b.label@)
                &&& b.icon == if show_branch_icon {
                    Some(branch_icon_of(repositories@[b.repository as int].status))
                } else {
                    None::<BranchIcon>
                }
            },
            button is None ==> worktree_path is None || !self.workspace_alive || match worktree_path {
                Some(w) => (forall|j: int| 0 <= j < repositories@.len() ==> !path_starts_with(
                    path_view(w@),
                    path_view(repositories@[j].work_directory_abs_path@),
                )) || exists|i: int| 0 <= i < repositories@.len() && path_starts_with(
                    path_view(w@),
                    path_view(repositories@[i].work_directory_abs_path@),
                ) && (forall|j: int| 0 <= j < i ==> !path_starts_with(
                    path_view(w@),
                    path_view(repositories@[j].work_directory_abs_path@),
                )) && branch_label_of(
                    match repositories@[i].branch { Some(x) => Some(x@), None => None },
                    match repositories@[i].head_sha { Some(x) => Some(x@), None => None },
                ) is None,
                None => true,
            },
    {
        let path = match worktree_path {
            Some(p) => p,
            None => return None,
        };
        let repo = match self.get_repository_for_worktree(path, repositories) {
            Some(r) => r,
            None => return None,
        };
        if !self.workspace_alive {
            return None;
        }
        let info = &repositories[repo];
        let branch = match &info.branch {
            Some(b) => Some(b.as_str()),
            None => None,
        };
        let sha = match &info.head_sha {
            Some(h) => Some(h.as_str()),
            None => None,
        };
        let label = match branch_label(branch, sha) {
            Some(l) => l,
            None => return None,
        };
        let icon = if show_branch_icon { Some(branch_icon(&info.status)) } else { None };
        Some(BranchButton { repository: repo, label, icon })
    }

    /// Whether the "disconnected" icon is shown for the collaboration server's status.
    pub fn render_connection_status(&self, status: &ClientStatus) -> (disconnected: bool)
        ensures
            disconnected == (*status is ConnectionError || *status is ConnectionLost || *status is Reauthenticating
                || *status is Reconnecting || *status is ReconnectionError || *status is UpgradeRequired),
    {
        disconnected_status(status)
    }

    /// The organization menu (see `organization_menu`).
    pub fn render_organization_menu_button<P: Copy>(
        &self,
        current: Option<&Organization>,
        organizations: &Vec<Organization>,
        plans: &Vec<Option<P>>,
        free_plan: P,
    ) -> (menu: Option<OrganizationMenu<P>>)
        requires
            plans@.len() == organizations@.len(),
        ensures
            current is None ==> menu is None,
            current matches Some(c) ==> menu matches Some(m) && {
                &&& m.button_label@ == c.name@
            &&& m.header == "组织"
                &&& m.entries@.len() == organizations@.len()
                &&& forall|i: int| 0 <= i < organizations@.len() ==> {
                    &&& (#[trigger] m.entries@[i]).id == organizations@[i].id
                    &&& m.entries@[i].name@ == organizations@[i].name@
                    &&& m.entries@[i].plan == match plans@[i] {
                        Some(p) => p,
                        None => free_plan,
                    }
                    &&& m.entries@[i].is_current == (organizations@[i].id == c.id)
                }
            },
    {
        organization_menu(current, organizations, plans, free_plan)
    }

    /// Which parts the title bar shows (see `title_bar_layout`).
    pub fn render(
        &self,
        settings: &TitleBarSettings,
        show_menus: bool,
        all_menus_shown: bool,
        signed_in: bool,
    ) -> (layout: TitleBarLayout)
        ensures
            layout.inline_application_menu == (self.has_application_menu && !show_menus),
            layout.project_host_and_name == (settings.show_project_items
                && !(self.has_application_menu && !show_menus && all_menus_shown)),
            layout.branch == (settings.show_branch_name && !(self.has_application_menu && !show_menus && all_menus_shown)),
            layout.onboarding_banner == settings.show_onboarding_banner,
            layout.menu_row == show_menus,
            layout.signed_in_padding == signed_in,
    {
        title_bar_layout(settings, show_menus, self.has_application_menu, all_menus_shown, signed_in)
    }
}

/// The branch icon tells the gravest kind of change, counting the staged changes and
/// those of the working tree alike: a conflict first; then a modified file, staged or
/// not; then an added or untracked file; then a deleted file. The clean-repository
/// icon shows exactly when nothing of these is counted anywhere.
pub proof fn law_branch_icon_reports_changes(status: GitSummary)
    ensures
        status.conflict > 0 ==> branch_icon_of(status) == BranchIcon::Warning,
        status.conflict == 0 && (status.index.modified > 0 || status.worktree.modified > 0)
            ==> branch_icon_of(status) == BranchIcon::SquareDot,
        status.conflict == 0 && status.index.modified == 0 && status.worktree.modified == 0
            && (status.index.added > 0 || status.worktree.added > 0 || status.untracked > 0)
            ==> branch_icon_of(status) == BranchIcon::SquarePlus,
        status.conflict == 0 && status.index.modified == 0 && status.worktree.modified == 0
            && status.index.added == 0 && status.worktree.added == 0 && status.untracked == 0
            && (status.index.deleted > 0 || status.worktree.deleted > 0)
            ==> branch_icon_of(status) == BranchIcon::SquareMinus,
        branch_icon_of(status) == BranchIcon::GitBranch <==> (status.conflict == 0 && status.untracked == 0
            && status.index.modified == 0 && status.worktree.modified == 0
            && status.index.added == 0 && status.worktree.added == 0
            && status.index.deleted == 0 && status.worktree.deleted == 0),
{
}

} // verus!
