//! The remote connection: the prompt that asks for passwords and shows progress,
//! the modal around it, the header naming the host, the delegate that answers the
//! connection's questions, where the server binaries are kept and which of them are
//! cleaned up.

use vstd::prelude::*;
use vstd::string::*;
use crate::text::{contains_text, decimal_text, text_contains};

verus! {

/// An SSH connection, by what the prompt shows of it.
pub struct SshConnection {
    /// The `user@host:port` text that names the connection.
    pub connection_string: String,
    pub nickname: Option<String>,
    /// A password given with the connection, answered without asking.
    pub password: Option<String>,
}

/// How a remote project is reached.
pub enum RemoteConnectionOptions {
    Ssh(SshConnection),
    /// A WSL distribution, by name.
    Wsl(String),
    /// A dev container, by name.
    Docker(String),
}

/// The prompt inside the connection modal: progress, and the question the connection
/// asks (a password or a yes/no confirmation).
pub struct RemoteConnectionPrompt {
    pub connection_string: String,
    pub nickname: Option<String>,
    pub is_wsl: bool,
    pub is_devcontainer: bool,
    pub status_message: Option<String>,
    /// The question being asked, if any.
    pub prompt: Option<String>,
    /// Whether the connection can still be cancelled.
    pub has_cancellation: bool,
    /// Whether the answer field hides what is typed.
    pub editor_masked: bool,
    /// What is typed in the answer field.
    pub editor_text: String,
}

/// What the prompt shows.
pub struct PromptView {
    /// The progress line, with a trailing ellipsis.
    pub status_line: Option<String>,
    pub question: Option<String>,
    /// Whether the caps-lock warning is shown.
    pub capslock_warning: bool,
}

/// The progress line for `status`.
pub open spec fn status_line_of(status: Seq<char>) -> Seq<char> {
    status + seq!['\u{2026}']
}

impl RemoteConnectionPrompt {
    /// A prompt for a connection, with nothing asked and no progress yet.
    pub fn new(connection_string: String, nickname: Option<String>, is_wsl: bool, is_devcontainer: bool) -> (prompt: Self)
        ensures
            prompt.connection_string == connection_string,
            prompt.nickname == nickname,
            prompt.is_wsl == is_wsl,
            prompt.is_devcontainer == is_devcontainer,
            prompt.status_message is None,
            prompt.prompt is None,
            !prompt.has_cancellation,
            !prompt.editor_masked,
            prompt.editor_text@.len() == 0,
    {
        RemoteConnectionPrompt {
            connection_string,
            nickname,
            is_wsl,
            is_devcontainer,
            status_message: None,
            prompt: None,
            has_cancellation: false,
            editor_masked: false,
            editor_text: String::new(),
        }
    }

    /// The connection can now be cancelled from the prompt.
    pub fn set_cancellation_tx(&mut self)
        ensures
            *final(self) == (RemoteConnectionPrompt { has_cancellation: true, ..*old(self) }),
    {
        self.has_cancellation = true;
    }

    /// Asks `prompt`: the answer is masked unless the question is a yes/no one, and
    /// the progress line goes away.
    pub fn set_prompt(&mut self, prompt: String)
        ensures
            *final(self) == (RemoteConnectionPrompt {
                editor_masked: !contains_text(prompt@, "yes/no"@),
                prompt: Some(prompt),
                status_message: None,
                ..*old(self)
            }),
    {
        let is_yes_no = text_contains(prompt.as_str(), "yes/no");
        self.editor_masked = !is_yes_no;
        self.prompt = Some(prompt);
        self.status_message = None;
    }

    pub fn set_status(&mut self, status: Option<String>)
        ensures
            *final(self) == (RemoteConnectionPrompt { status_message: status, ..*old(self) }),
    {
        self.status_message = status;
    }

    /// The user confirmed what is typed in the answer field. `encrypted` is that text
    /// turned into the form the connection takes a password in, or `None` when that
    /// conversion failed. When a question was asked, it is answered with the converted
    /// text (nothing is sent when the conversion failed), the prompt shows that it
    /// connects and the answer field is emptied; otherwise nothing happens.
    pub fn confirm<P>(&mut self, encrypted: Option<P>) -> (answer: Option<P>)
        ensures
            old(self).prompt is Some ==> {
                &&& answer == encrypted
                &&& final(self).status_message matches Some(m) && m@ == "Connecting"@
                &&& final(self).editor_text@.len() == 0
                &&& *final(self) == (RemoteConnectionPrompt {
                    prompt: None,
                    status_message: final(self).status_message,
                    editor_text: final(self).editor_text,
                    ..*old(self)
                })
            },
            old(self).prompt is None ==> answer is None && *final(self) == *old(self),
    {
        if self.prompt.is_some() {
            self.prompt = None;
            self.status_message = Some(String::from_str("Connecting"));
            self.editor_text = String::new();
            encrypted
        } else {
            None
        }
    }

    /// Takes the means of cancelling the connection, if the prompt still has it.
    pub fn take_cancellation(&mut self) -> (taken: bool)
        ensures
            taken == old(self).has_cancellation,
            *final(self) == (RemoteConnectionPrompt { has_cancellation: false, ..*old(self) }),
    {
        let taken = self.has_cancellation;
        self.has_cancellation = false;
        taken
    }

    /// What the prompt shows; the caps-lock warning appears only under a question.
    pub fn render(&self, capslock_on: bool) -> (view: PromptView)
        ensures
            match self.status_message {
                Some(s) => view.status_line matches Some(l) && l@ == status_line_of(s@),
                None => view.status_line is None,
            },
            view.question == self.prompt,
            view.capslock_warning == (self.prompt is Some && capslock_on),
    {
        let status_line = match &self.status_message {
            Some(s) => {
                proof {
                    reveal_strlit("\u{2026}");
                }
                Some(s.clone().concat("\u{2026}"))
            },
            None => None,
        };
        let question = self.prompt.clone();
        PromptView { status_line, question, capslock_warning: self.prompt.is_some() && capslock_on }
    }
}

/// What the prompt of a connection names: its text, its nickname, and whether it is a
/// WSL distribution or a dev container.
pub open spec fn connection_labels(options: RemoteConnectionOptions) -> (Seq<char>, Option<Seq<char>>, bool, bool) {
    match options {
        RemoteConnectionOptions::Ssh(ssh) => (
            ssh.connection_string@,
            match ssh.nickname {
                Some(n) => Some(n@),
                None => None,
            },
            false,
            false,
        ),
        RemoteConnectionOptions::Wsl(distro) => (distro@, None, true, false),
        RemoteConnectionOptions::Docker(name) => (name@, None, false, true),
    }
}

/// What the connection modal does besides changing its own state.
pub enum ModalEffect {
    /// Tells the connection under way to stop.
    CancelConnection,
    /// Asks the workspace to dismiss the modal.
    EmitDismiss,
}

/// The modal that shows a connection under way.
pub struct RemoteConnectionModal {
    pub prompt: RemoteConnectionPrompt,
    /// The paths being opened on the remote host.
    pub paths: Vec<String>,
    pub finished: bool,
}

impl RemoteConnectionModal {
    /// The modal for a connection by `options` that opens `paths`.
    pub fn new(options: &RemoteConnectionOptions, paths: Vec<String>) -> (modal: Self)
        ensures
            (modal.prompt.connection_string@, match modal.prompt.nickname {
                Some(n) => Some(n@),
                None => None,
            }, modal.prompt.is_wsl, modal.prompt.is_devcontainer) == connection_labels(*options),
            modal.prompt.prompt is None,
            modal.prompt.status_message is None,
            !modal.prompt.has_cancellation,
            modal.paths == paths,
            !modal.finished,
    {
        let (connection_string, nickname, is_wsl, is_devcontainer) = match options {
            RemoteConnectionOptions::Ssh(ssh) => (ssh.connection_string.clone(), ssh.nickname.clone(), false, false),
            RemoteConnectionOptions::Wsl(distro) => (distro.clone(), None, true, false),
            RemoteConnectionOptions::Docker(name) => (name.clone(), None, false, true),
        };
        RemoteConnectionModal {
            prompt: RemoteConnectionPrompt::new(connection_string, nickname, is_wsl, is_devcontainer),
            paths,
            finished: false,
        }
    }

    /// The user confirmed what is typed in the prompt (see
    /// `RemoteConnectionPrompt::confirm`, of which `encrypted` is the argument).
    pub fn confirm<P>(&mut self, encrypted: Option<P>) -> (answer: Option<P>)
        ensures
            old(self).prompt.prompt is Some ==> {
                &&& answer == encrypted
                &&& final(self).prompt.prompt is None
                &&& final(self).prompt.status_message matches Some(m) && m@ == "Connecting"@
                &&& final(self).prompt.editor_text@.len() == 0
                &&& final(self).prompt == (RemoteConnectionPrompt {
                    prompt: None,
                    status_message: final(self).prompt.status_message,
                    editor_text: final(self).prompt.editor_text,
                    ..old(self).prompt
                })
            },
            old(self).prompt.prompt is None ==> answer is None && final(self).prompt == old(self).prompt,
            final(self).finished == old(self).finished,
            final(self).paths == old(self).paths,
    {
        self.prompt.confirm(encrypted)
    }

    /// The connection is over: the modal is marked finished, so that it may close, and
    /// asks to be dismissed.
    pub fn finished(&mut self) -> (event: ModalEffect)
        ensures
            final(self).finished,
            final(self).prompt == old(self).prompt,
            final(self).paths == old(self).paths,
            event == ModalEffect::EmitDismiss,
    {
        self.finished = true;
        ModalEffect::EmitDismiss
    }

    /// The user cancelled: a connection that can still be cancelled is cancelled first,
    /// then the modal is finished and asks to be dismissed.
    pub fn dismiss(&mut self) -> (effects: Vec<ModalEffect>)
        ensures
            effects@ == if old(self).prompt.has_cancellation {
                seq![ModalEffect::CancelConnection, ModalEffect::EmitDismiss]
            } else {
                seq![ModalEffect::EmitDismiss]
            },
            final(self).prompt == (RemoteConnectionPrompt { has_cancellation: false, ..old(self).prompt }),
            final(self).finished,
            final(self).paths == old(self).paths,
    {
        let cancelled = self.prompt.take_cancellation();
        let event = self.finished();
        if cancelled {
            vec![ModalEffect::CancelConnection, event]
        } else {
            vec![event]
        }
    }

    /// The modal lets itself be closed only once the connection is over.
    pub fn on_before_dismiss(&self) -> (dismiss: bool)
        ensures
            dismiss == self.finished,
    {
        self.finished
    }

    /// The workspace behind the modal is faded out.
    pub fn fade_out_background(&self) -> (fade: bool)
        ensures
            fade,
    {
        true
    }

    /// The header of the modal.
    pub fn header(&self) -> (header: SshConnectionHeader)
        ensures
            header.connection_string == self.prompt.connection_string,
            header.nickname == self.prompt.nickname,
            header.is_wsl == self.prompt.is_wsl,
            header.is_devcontainer == self.prompt.is_devcontainer,
            header.paths@ == self.paths@,
    {
        SshConnectionHeader {
            connection_string: self.prompt.connection_string.clone(),
            paths: self.paths.clone(),
            nickname: self.prompt.nickname.clone(),
            is_wsl: self.prompt.is_wsl,
            is_devcontainer: self.prompt.is_devcontainer,
        }
    }
}

/// What the connection modal shows: the header naming the host, the prompt, and the
/// cancel entry.
pub struct ModalView {
    pub header: HeaderView,
    pub prompt: PromptView,
    pub cancel_label: &'static str,
}

impl RemoteConnectionModal {
    /// The modal: its header, its prompt (with the caps-lock warning when `capslock_on`)
    /// and a "Cancel" entry that dismisses it.
    pub fn render(&self, capslock_on: bool) -> (view: ModalView)
        ensures
            view.header.icon == if self.prompt.is_wsl {
                HostIcon::Linux
            } else if self.prompt.is_devcontainer {
                HostIcon::Box
            } else {
                HostIcon::Server
            },
            match self.prompt.nickname {
                Some(n) => view.header.main_label == n && (view.header.meta_label matches Some(m)
                    && m@ == "("@ + self.prompt.connection_string@ + ")"@),
                None => view.header.main_label == self.prompt.connection_string && view.header.meta_label is None,
            },
            view.header.path_labels@ == self.paths@,
            match self.prompt.status_message {
                Some(st) => view.prompt.status_line matches Some(l) && l@ == status_line_of(st@),
                None => view.prompt.status_line is None,
            },
            view.prompt.question == self.prompt.prompt,
            view.prompt.capslock_warning == (self.prompt.prompt is Some && capslock_on),
            view.cancel_label == "Cancel",
    {
        let header = self.header().render();
        let prompt = self.prompt.render(capslock_on);
        ModalView { header, prompt, cancel_label: "Cancel" }
    }
}

/// The icon of a connection header.
pub enum HostIcon {
    Linux,
    Box,
    Server,
}

/// The header that names the host of a connection.
pub struct SshConnectionHeader {
    pub connection_string: String,
    pub paths: Vec<String>,
    pub nickname: Option<String>,
    pub is_wsl: bool,
    pub is_devcontainer: bool,
}

/// What a connection header shows.
pub struct HeaderView {
    pub main_label: String,
    /// The connection text in parentheses, beside a nickname.
    pub meta_label: Option<String>,
    pub icon: HostIcon,
    pub path_labels: Vec<String>,
}

impl SshConnectionHeader {
    /// The header shows the nickname with the connection text beside it in
    /// parentheses, or the connection text alone; a Linux icon for WSL, a box for a dev
    /// container and a server otherwise; then the paths.
    pub fn render(self) -> (view: HeaderView)
        ensures
            match self.nickname {
                Some(n) => view.main_label == n && (view.meta_label matches Some(m)
                    && m@ == "("@ + self.connection_string@ + ")"@),
                None => view.main_label == self.connection_string && view.meta_label is None,
            },
            view.icon == if self.is_wsl {
                HostIcon::Linux
            } else if self.is_devcontainer {
                HostIcon::Box
            } else {
                HostIcon::Server
            },
            view.path_labels == self.paths,
    {
        let icon = if self.is_wsl {
            HostIcon::Linux
        } else if self.is_devcontainer {
            HostIcon::Box
        } else {
            HostIcon::Server
        };
        let (main_label, meta_label) = match self.nickname {
            Some(nickname) => {
                let meta = String::from_str("(").concat(self.connection_string.as_str()).concat(")");
                (nickname, Some(meta))
            },
            None => (self.connection_string, None),
        };
        HeaderView { main_label, meta_label, icon, path_labels: self.paths }
    }
}

/// How the connection's question for a password is answered.
pub enum PasswordAnswer<'a, P> {
    /// With the password given with the connection (in the form the connection takes).
    Known(&'a P),
    /// By asking the user in the prompt.
    Ask(String),
}

/// A server release asked for: its channel, its version (the latest when there is
/// none) and the platform it runs on.
pub struct ReleaseQuery {
    pub channel: ReleaseChannel,
    pub version: Option<ReleaseVersion>,
    pub os: String,
    pub arch: String,
}

/// What answers the connection's questions on behalf of the modal. `P` is the form
/// the connection takes a password in.
pub struct RemoteClientDelegate<P> {
    pub known_password: Option<P>,
}

impl<P> RemoteClientDelegate<P> {
    pub fn new(known_password: Option<P>) -> (delegate: Self)
        ensures
            delegate.known_password == known_password,
    {
        RemoteClientDelegate { known_password }
    }

    /// Answers a password question: with the known password whenever there is one (it
    /// is kept for later questions), and otherwise by asking `prompt` in the prompt.
    pub fn ask_password(&self, prompt: String) -> (answer: PasswordAnswer<'_, P>)
        ensures
            match self.known_password {
                Some(p) => answer == PasswordAnswer::<'_, P>::Known(&p),
                None => answer == PasswordAnswer::<'_, P>::Ask(prompt),
            },
    {
        match &self.known_password {
            Some(p) => PasswordAnswer::Known(p),
            None => PasswordAnswer::Ask(prompt),
        }
    }

    /// Shows the connection's progress in the prompt.
    pub fn set_status(&self, ui: &mut RemoteConnectionPrompt, status: Option<&str>)
        ensures
            match status {
                Some(s) => final(ui).status_message matches Some(m) && m@ == s@,
                None => final(ui).status_message is None,
            },
            *final(ui) == (RemoteConnectionPrompt { status_message: final(ui).status_message, ..*old(ui) }),
    {
        self.update_status(ui, status)
    }

    /// The server release to download for `platform` (its archive is fetched into the
    /// local cache, the progress shown in the prompt).
    pub fn download_server_binary_locally(
        &self,
        platform: &RemotePlatform,
        release_channel: ReleaseChannel,
        version: Option<ReleaseVersion>,
    ) -> (query: ReleaseQuery)
        ensures
            query.channel == release_channel,
            query.version == version,
            query.os@ == platform.os@,
            query.arch@ == platform.arch@,
    {
        ReleaseQuery { channel: release_channel, version, os: platform.os.clone(), arch: platform.arch.clone() }
    }

    /// The server release whose download address is asked for `platform`.
    pub fn get_download_url(
        &self,
        platform: &RemotePlatform,
        release_channel: ReleaseChannel,
        version: Option<ReleaseVersion>,
    ) -> (query: ReleaseQuery)
        ensures
            query.channel == release_channel,
            query.version == version,
            query.os@ == platform.os@,
            query.arch@ == platform.arch@,
    {
        ReleaseQuery { channel: release_channel, version, os: platform.os.clone(), arch: platform.arch.clone() }
    }

    /// Shows the connection's progress in the prompt.
    pub fn update_status(&self, ui: &mut RemoteConnectionPrompt, status: Option<&str>)
        ensures
            match status {
                Some(s) => final(ui).status_message matches Some(m) && m@ == s@,
                None => final(ui).status_message is None,
            },
            *final(ui) == (RemoteConnectionPrompt { status_message: final(ui).status_message, ..*old(ui) }),
    {
        let message = match status {
            Some(s) => Some(String::from_str(s)),
            None => None,
        };
        ui.set_status(message);
    }
}

/// The password that an SSH connection carries, as its text, to be turned into the form
/// the connection takes; other connections carry none.
pub open spec fn carried_password(options: RemoteConnectionOptions) -> Option<Seq<char>> {
    match options {
        RemoteConnectionOptions::Ssh(ssh) => match ssh.password {
            Some(p) => Some(p@),
            None => None,
        },
        _ => None,
    }
}

/// The password text that `options` carries (see `carried_password`).
pub fn connection_password(options: &RemoteConnectionOptions) -> (password: Option<String>)
    ensures
        match password {
            Some(p) => carried_password(*options) == Some(p@),
            None => carried_password(*options) is None,
        },
{
    match options {
        RemoteConnectionOptions::Ssh(ssh) => match &ssh.password {
            Some(p) => Some(p.clone()),
            None => None,
        },
        _ => None,
    }
}

/// The delegate for a connection by `options`. `converted_password` is the password
/// that `options` carries (see `connection_password`) turned into the form the
/// connection takes, or `None` when there is none or the conversion failed; the
/// delegate answers with it. The prompt can cancel the connection from now on.
pub fn connect<P>(
    options: &RemoteConnectionOptions,
    ui: &mut RemoteConnectionPrompt,
    converted_password: Option<P>,
) -> (delegate: RemoteClientDelegate<P>)
    ensures
        delegate.known_password == if carried_password(*options) is Some {
            converted_password
        } else {
            None::<P>
        },
        *final(ui) == (RemoteConnectionPrompt { has_cancellation: true, ..*old(ui) }),
{
    let known_password = match options {
        RemoteConnectionOptions::Ssh(ssh) => match &ssh.password {
            Some(_) => converted_password,
            None => None,
        },
        _ => None,
    };
    ui.set_cancellation_tx();
    RemoteClientDelegate::new(known_password)
}

/// How the race between the connection and its cancellation ended.
pub enum ConnectRace<C, E> {
    /// The cancellation fired, or its sender was dropped, first.
    Cancelled,
    /// The connection ended first, with this outcome.
    Finished(Result<C, E>),
}

/// What the connection hands back: no client when it was cancelled (or its canceller
/// dropped) first, the connection's error when it failed, and the connection to make
/// the client from otherwise.
pub fn connection_outcome<C, E>(race: ConnectRace<C, E>) -> (outcome: Result<Option<C>, E>)
    ensures
        match race {
            ConnectRace::Cancelled => outcome == Ok::<Option<C>, E>(None),
            ConnectRace::Finished(Ok(c)) => outcome == Ok::<Option<C>, E>(Some(c)),
            ConnectRace::Finished(Err(e)) => outcome == Err::<Option<C>, E>(e),
        },
{
    match race {
        ConnectRace::Cancelled => Ok(None),
        ConnectRace::Finished(Ok(c)) => Ok(Some(c)),
        ConnectRace::Finished(Err(e)) => Err(e),
    }
}

/// A path, by its components.
pub open spec fn path_view(path: Seq<String>) -> Seq<Seq<char>> {
    path.map_values(|c: String| c@)
}

/// Whether two paths have the same components.
pub fn same_path(a: &Vec<String>, b: &Vec<String>) -> (res: bool)
    ensures
        res == (path_view(a@) == path_view(b@)),
{
    if a.len() != b.len() {
        proof {
            assert(path_view(a@).len() != path_view(b@).len());
        }
        return false;
    }
    let mut i: usize = 0;
    while i < a.len()
        invariant
            a@.len() == b@.len(),
            i <= a@.len(),
            forall|j: int| 0 <= j < i ==> a@[j]@ == b@[j]@,
        decreases a@.len() - i,
    {
        if a[i] != b[i] {
            proof {
                assert(path_view(a@)[i as int] != path_view(b@)[i as int]);
            }
            return false;
        }
        i = i + 1;
    }
    assert(path_view(a@) =~= path_view(b@));
    true
}

/// An entry of the directory that caches the server archives of one platform.
pub struct CacheEntry {
    pub path: Vec<String>,
    pub is_file: bool,
    /// When the entry was last modified, in nanoseconds since the Unix epoch, when the
    /// file system tells.
    pub modified: Option<u64>,
}

/// When `entry` was last modified; the Unix epoch when that is unknown.
pub open spec fn modified_time(entry: CacheEntry) -> u64 {
    match entry.modified {
        Some(t) => t,
        None => 0,
    }
}

/// Whether `entry` may be removed at all: a file other than the archive being kept.
pub open spec fn is_candidate(entry: CacheEntry, keep: Seq<Seq<char>>) -> bool {
    entry.is_file && path_view(entry.path@) != keep
}

/// Whether entry `j` comes before entry `i` when the archives are ordered newest first,
/// ties keeping their directory order.
pub open spec fn comes_before(entries: Seq<CacheEntry>, j: int, i: int) -> bool {
    modified_time(entries[j]) > modified_time(entries[i])
        || (j < i && modified_time(entries[j]) == modified_time(entries[i]))
}

/// How many of the first `upto` entries are archives that come before entry `i`.
pub open spec fn count_before(entries: Seq<CacheEntry>, keep: Seq<Seq<char>>, i: int, upto: int) -> nat
    decreases upto,
{
    if upto <= 0 {
        0
    } else {
        count_before(entries, keep, i, upto - 1) + if is_candidate(entries[upto - 1], keep)
            && comes_before(entries, upto - 1, i) {
            1nat
        } else {
            0nat
        }
    }
}

/// The place of archive `i` when the archives are ordered newest first.
pub open spec fn cache_rank(entries: Seq<CacheEntry>, keep: Seq<Seq<char>>, i: int) -> nat {
    count_before(entries, keep, i, entries.len() as int)
}

/// Whether the cleanup removes entry `i`: an archive other than the kept one, behind
/// the `limit - 1` newest ones; nothing when `limit` is 0.
pub open spec fn removed_by_cleanup(entries: Seq<CacheEntry>, keep: Seq<Seq<char>>, limit: nat, i: int) -> bool {
    limit > 0 && is_candidate(entries[i], keep) && cache_rank(entries, keep, i) >= limit - 1
}

/// The place of archive `i` among the archives, counted newest first.
fn rank_of(entries: &Vec<CacheEntry>, keep: &Vec<String>, i: usize) -> (rank: usize)
    requires
        i < entries@.len(),
    ensures
        rank == cache_rank(entries@, path_view(keep@), i as int),
{
    let mut count: usize = 0;
    let mut j: usize = 0;
    while j < entries.len()
        invariant
            i < entries@.len(),
            j <= entries@.len(),
            count == count_before(entries@, path_view(keep@), i as int, j as int),
            count <= j,
        decreases entries@.len() - j,
    {
        let e = &entries[j];
        let ti = match entries[i].modified { Some(t) => t, None => 0 };
        let tj = match e.modified { Some(t) => t, None => 0 };
        let candidate = e.is_file && !same_path(&e.path, keep);
        if candidate && (tj > ti || (j < i && tj == ti)) {
            count = count + 1;
        }
        j = j + 1;
    }
    count
}

/// Which archives of a platform's cache to remove so that at most `limit` remain with
/// the one being kept: every file of `entries` other than `keep_path` that is not among
/// the `limit - 1` newest (by modification time, ties in directory order), listed in
/// directory order. Nothing is removed when `limit` is 0.
pub fn cleanup_remote_server_cache(entries: &Vec<CacheEntry>, keep_path: &Vec<String>, limit: usize) -> (removed: Vec<usize>)
    ensures
        forall|k: int| 0 <= k < removed@.len() ==> (#[trigger] removed@[k]) < entries@.len(),
        forall|k1: int, k2: int| 0 <= k1 < k2 < removed@.len() ==> removed@[k1] < removed@[k2],
        forall|i: int|
            0 <= i < entries@.len() ==> (removed@.contains(#[verifier::truncate] (i as usize)) <==> removed_by_cleanup(
                entries@,
                path_view(keep_path@),
                limit as nat,
                i,
            )),
{
    let mut removed: Vec<usize> = Vec::new();
    if limit == 0 {
        return removed;
    }
    let mut i: usize = 0;
    while i < entries.len()
        invariant
            limit > 0,
            i <= entries@.len(),
            forall|k: int| 0 <= k < removed@.len() ==> (#[trigger] removed@[k]) < i,
            forall|k1: int, k2: int| 0 <= k1 < k2 < removed@.len() ==> removed@[k1] < removed@[k2],
            forall|x: int|
                0 <= x < i ==> (removed@.contains(x as usize) <==> removed_by_cleanup(
                    entries@,
                    path_view(keep_path@),
                    limit as nat,
                    x,
                )),
        decreases entries@.len() - i,
    {
        let ghost before = removed@;
        let e = &entries[i];
        let candidate = e.is_file && !same_path(&e.path, keep_path);
        let remove_it = candidate && rank_of(entries, keep_path, i) >= limit - 1;
        assert(remove_it == removed_by_cleanup(entries@, path_view(keep_path@), limit as nat, i as int));
        if remove_it {
            removed.push(i);
        }
        proof {
            assert forall|x: int| 0 <= x < i + 1 implies (removed@.contains(x as usize) <==> removed_by_cleanup(
                entries@,
                path_view(keep_path@),
                limit as nat,
                x,
            )) by {
                if x < i {
                    if removed@.contains(x as usize) {
                        let k = choose|k: int| 0 <= k < removed@.len() && removed@[k] == x as usize;
                        assert(k < before.len());
                        assert(before[k] == x as usize);
                    }
                    if before.contains(x as usize) {
                        let k = choose|k: int| 0 <= k < before.len() && before[k] == x as usize;
                        assert(removed@[k] == x as usize);
                    }
                } else {
                    if remove_it {
                        assert(removed@[before.len() as int] == i);
                    } else {
                        if removed@.contains(x as usize) {
                            let k = choose|k: int| 0 <= k < removed@.len() && removed@[k] == x as usize;
                            assert(before[k] < i);
                        }
                    }
                }
            }
        }
        i = i + 1;
    }
    removed
}

proof fn lemma_count_before_grows(entries: Seq<CacheEntry>, keep: Seq<Seq<char>>, i: int, j: int, upto: int)
    requires
        0 <= i < entries.len(),
        upto <= entries.len(),
        is_candidate(entries[i], keep),
        comes_before(entries, i, j),
        forall|y: int| 0 <= y < entries.len() && comes_before(entries, y, i) ==> comes_before(entries, y, j),
    ensures
        count_before(entries, keep, j, upto) >= count_before(entries, keep, i, upto) + if 0 <= i < upto {
            1nat
        } else {
            0nat
        },
    decreases upto,
{
    if upto > 0 {
        lemma_count_before_grows(entries, keep, i, j, upto - 1);
    }
}

/// The cleanup keeps the newest archives: an archive it removes is never newer than one
/// it keeps.
pub proof fn law_cleanup_removes_only_older(
    entries: Seq<CacheEntry>,
    keep: Seq<Seq<char>>,
    limit: nat,
    i: int,
    j: int,
)
    requires
        0 <= i < entries.len(),
        0 <= j < entries.len(),
        removed_by_cleanup(entries, keep, limit, i),
        is_candidate(entries[j], keep),
        !removed_by_cleanup(entries, keep, limit, j),
    ensures
        modified_time(entries[j]) >= modified_time(entries[i]),
{
    if modified_time(entries[j]) < modified_time(entries[i]) {
        lemma_count_before_grows(entries, keep, i, j, entries.len() as int);
    }
}

/// The archives that the cleanup leaves besides the one being kept.
pub open spec fn left_after_cleanup(entries: Seq<CacheEntry>, keep: Seq<Seq<char>>, limit: nat) -> Set<int> {
    Set::new(|i: int| 0 <= i < entries.len() && is_candidate(entries[i], keep) && !removed_by_cleanup(entries, keep, limit, i))
}

/// Two different archives never share a place in the newest-first order.
proof fn lemma_ranks_differ(entries: Seq<CacheEntry>, keep: Seq<Seq<char>>, i: int, j: int)
    requires
        0 <= i < entries.len(),
        0 <= j < entries.len(),
        i != j,
        is_candidate(entries[i], keep),
        is_candidate(entries[j], keep),
    ensures
        cache_rank(entries, keep, i) != cache_rank(entries, keep, j),
{
    let n = entries.len() as int;
    if comes_before(entries, i, j) {
        assert forall|y: int| 0 <= y < n && comes_before(entries, y, i) implies comes_before(entries, y, j) by {}
        lemma_count_before_grows(entries, keep, i, j, n);
    } else {
        assert(comes_before(entries, j, i));
        assert forall|y: int| 0 <= y < n && comes_before(entries, y, j) implies comes_before(entries, y, i) by {}
        lemma_count_before_grows(entries, keep, j, i, n);
    }
}

/// The cache holds at most `limit` archives once cleaned up: besides the one being
/// kept, at most `limit - 1` are left.
pub proof fn law_cleanup_respects_limit(entries: Seq<CacheEntry>, keep: Seq<Seq<char>>, limit: nat)
    requires
        limit > 0,
    ensures
        left_after_cleanup(entries, keep, limit).finite(),
        left_after_cleanup(entries, keep, limit).len() <= limit - 1,
{
    let left = left_after_cleanup(entries, keep, limit);
    let n = entries.len() as int;
    let bound = (limit - 1) as int;
    vstd::set_lib::lemma_int_range(0, n);
    vstd::set_lib::lemma_len_subset(left, vstd::set_lib::set_int_range(0, n));
    let rank = |i: int| cache_rank(entries, keep, i) as int;
    assert(vstd::relations::injective_on(rank, left)) by {
        assert forall|x1: int, x2: int| left.contains(x1) && left.contains(x2) && #[trigger] rank(x1) == #[trigger] rank(x2) implies x1 == x2 by {
            if x1 != x2 {
                lemma_ranks_differ(entries, keep, x1, x2);
            }
        }
    }
    let ranks = left.map(rank);
    vstd::set_lib::lemma_map_size(left, ranks, rank);
    vstd::set_lib::lemma_int_range(0, bound);
    assert(ranks.subset_of(vstd::set_lib::set_int_range(0, bound))) by {
        assert forall|r: int| ranks.contains(r) implies vstd::set_lib::set_int_range(0, bound).contains(r) by {
            let i = choose|i: int| left.contains(i) && rank(i) == r;
        }
    }
    vstd::set_lib::lemma_len_subset(ranks, vstd::set_lib::set_int_range(0, bound));
}

/// The cleanup never removes the archive being kept, nor anything but files.
pub proof fn law_cleanup_spares_kept_archive(entries: Seq<CacheEntry>, keep: Seq<Seq<char>>, limit: nat, i: int)
    requires
        0 <= i < entries.len(),
        path_view(entries[i].path@) == keep || !entries[i].is_file,
    ensures
        !removed_by_cleanup(entries, keep, limit, i),
{
}

/// A release channel of the application.
pub enum ReleaseChannel {
    Dev,
    Nightly,
    Preview,
    Stable,
}

/// The name of `channel` in paths and addresses.
pub open spec fn channel_dev_name(channel: ReleaseChannel) -> &'static str {
    match channel {
        ReleaseChannel::Dev => "dev",
        ReleaseChannel::Nightly => "nightly",
        ReleaseChannel::Preview => "preview",
        ReleaseChannel::Stable => "stable",
    }
}

impl ReleaseChannel {
    /// The channel's name in paths and addresses.
    pub fn dev_name(&self) -> (name: &'static str)
        ensures
            name == channel_dev_name(*self),
    {
        match self {
            ReleaseChannel::Dev => "dev",
            ReleaseChannel::Nightly => "nightly",
            ReleaseChannel::Preview => "preview",
            ReleaseChannel::Stable => "stable",
        }
    }
}

/// A semantic version of the remote server.
pub struct ReleaseVersion {
    pub major: u64,
    pub minor: u64,
    pub patch: u64,
    /// The pre-release identifiers, empty when there are none.
    pub pre: String,
    /// The build metadata, empty when there is none.
    pub build: String,
}

/// `major.minor.patch` in decimal.
pub open spec fn version_core_text(major: u64, minor: u64, patch: u64) -> Seq<char> {
    decimal_text(major as nat) + seq!['.'] + decimal_text(minor as nat) + seq!['.'] + decimal_text(patch as nat)
}

/// The text of a version without pre-release or build metadata, as `semver` displays
/// `Version::new(major, minor, patch)`: the three numbers in decimal, joined by dots.
#[verifier::external_body]
fn semver_core_text(major: u64, minor: u64, patch: u64) -> (text: String)
    ensures
        text@ == version_core_text(major, minor, patch),
{
    semver::Version::new(major, minor, patch).to_string()
}

/// The version asked for in a release address: the version without its pre-release
/// and build parts, or `latest`.
pub open spec fn release_version_segment(version: Option<ReleaseVersion>) -> Seq<char> {
    match version {
        Some(v) => version_core_text(v.major, v.minor, v.patch),
        None => "latest"@,
    }
}

/// The version asked for in a release address: the version without its pre-release
/// and build parts, or `latest` when none is asked for.
pub fn release_version_text(version: Option<&ReleaseVersion>) -> (text: String)
    ensures
        text@ == release_version_segment(match version { Some(v) => Some(*v), None => None }),
{
    match version {
        Some(v) => semver_core_text(v.major, v.minor, v.patch),
        None => String::from_str("latest"),
    }
}

/// The address path of the server release of `channel` at `version`.
pub fn release_asset_path(channel: &ReleaseChannel, version: Option<&ReleaseVersion>) -> (path: String)
    ensures
        path@ == release_path(*channel, match version { Some(v) => Some(*v), None => None }),
{
    let version_text = release_version_text(version);
    String::from_str("/releases/").concat(channel.dev_name()).concat("/").concat(version_text.as_str()).concat("/asset")
}

/// What the application tells the server about itself when it asks for a release.
pub struct Telemetry {
    pub metrics_enabled: bool,
    pub system_id: Option<String>,
    pub metrics_id: Option<String>,
    pub is_staff: Option<bool>,
}

/// The query of a release request.
pub struct AssetQuery {
    pub asset: &'static str,
    pub os: String,
    pub arch: String,
    pub metrics_id: Option<String>,
    pub system_id: Option<String>,
    pub is_staff: Option<bool>,
}

/// The query for the server release of `os` and `arch`: the identifiers are sent only
/// when metrics are enabled.
pub fn asset_query(os: &str, arch: &str, telemetry: &Telemetry) -> (query: AssetQuery)
    ensures
        is_asset_query(query, os@, arch@, *telemetry),
{
    let (system_id, metrics_id, is_staff) = if telemetry.metrics_enabled {
        (telemetry.system_id.clone(), telemetry.metrics_id.clone(), telemetry.is_staff)
    } else {
        (None, None, None)
    };
    AssetQuery {
        asset: "zed-remote-server",
        os: String::from_str(os),
        arch: String::from_str(arch),
        metrics_id,
        system_id,
        is_staff,
    }
}

/// Whether an HTTP status code reports success (200 to 299).
pub fn is_success(status: u16) -> (ok: bool)
    ensures
        ok == (200 <= status <= 299),
{
    200 <= status && status <= 299
}

/// The platform of a remote host.
pub struct RemotePlatform {
    pub os: String,
    pub arch: String,
}

/// A request for the description of a server release: the address path and its query.
pub struct ReleaseRequest {
    pub path: String,
    pub query: AssetQuery,
}

/// Whether `query` asks for the server release of `os` and `arch`, carrying the
/// telemetry identifiers only when metrics are enabled.
pub open spec fn is_asset_query(query: AssetQuery, os: Seq<char>, arch: Seq<char>, telemetry: Telemetry) -> bool {
    &&& query.asset@ == "zed-remote-server"@
    &&& query.os@ == os
    &&& query.arch@ == arch
    &&& telemetry.metrics_enabled ==> query.metrics_id == telemetry.metrics_id
        && query.system_id == telemetry.system_id && query.is_staff == telemetry.is_staff
    &&& !telemetry.metrics_enabled ==> query.metrics_id is None && query.system_id is None
        && query.is_staff is None
}

/// The address path of the server release of `channel` at `version`.
pub open spec fn release_path(channel: ReleaseChannel, version: Option<ReleaseVersion>) -> Seq<char> {
    "/releases/"@ + channel_dev_name(channel)@ + "/"@ + release_version_segment(version) + "/asset"@
}

/// The request for the server release of `release_channel` at `version` (without its
/// pre-release and build parts; the latest when none is asked for) for `os` and `arch`.
pub fn get_remote_server_release_asset(
    release_channel: &ReleaseChannel,
    version: Option<&ReleaseVersion>,
    os: &str,
    arch: &str,
    telemetry: &Telemetry,
) -> (request: ReleaseRequest)
    ensures
        request.path@ == release_path(*release_channel, match version { Some(v) => Some(*v), None => None }),
        is_asset_query(request.query, os@, arch@, *telemetry),
{
    let path = release_asset_path(release_channel, version);
    let query = asset_query(os, arch, telemetry);
    ReleaseRequest { path, query }
}

/// Why fetching the server failed.
pub enum ReleaseError {
    /// The release service answered with an error; its body says why.
    FetchFailed { body: Vec<u8> },
    /// The download of the archive answered with this status.
    DownloadFailed { status: u16 },
}

/// The answer of the release service: its body (the release's description) when the
/// status reports success, and the failure with that body otherwise.
pub fn release_response(status: u16, body: Vec<u8>) -> (result: Result<Vec<u8>, ReleaseError>)
    ensures
        (200 <= status <= 299) ==> result == Ok::<Vec<u8>, ReleaseError>(body),
        !(200 <= status <= 299) ==> result == Err::<Vec<u8>, ReleaseError>(ReleaseError::FetchFailed { body }),
{
    if is_success(status) {
        Ok(body)
    } else {
        Err(ReleaseError::FetchFailed { body })
    }
}

/// A server release, as the release service describes it.
pub struct ReleaseAsset {
    pub version: String,
    pub url: String,
}

/// The download address of a release.
pub fn get_remote_server_release_url(release: &ReleaseAsset) -> (url: Option<String>)
    ensures
        url matches Some(u) && u@ == release.url@,
{
    Some(release.url.clone())
}

/// The cache directory of the server archives of one platform:
/// `servers_dir/<channel>/<os>-<arch>`.
pub fn remote_server_platform_dir(servers_dir: &Vec<String>, channel: &ReleaseChannel, os: &str, arch: &str) -> (dir: Vec<String>)
    ensures
        path_view(dir@) == path_view(servers_dir@) + seq![channel_dev_name(*channel)@, os@ + "-"@ + arch@],
{
    let mut dir = copy_path(servers_dir);
    dir.push(String::from_str(channel.dev_name()));
    dir.push(String::from_str(os).concat("-").concat(arch));
    assert(path_view(dir@) =~= path_view(servers_dir@) + seq![channel_dev_name(*channel)@, os@ + "-"@ + arch@]);
    dir
}

/// A copy of `dir`, component by component.
fn copy_path(dir: &Vec<String>) -> (path: Vec<String>)
    ensures
        path_view(path@) == path_view(dir@),
{
    let mut path: Vec<String> = Vec::new();
    let mut i: usize = 0;
    while i < dir.len()
        invariant
            i <= dir@.len(),
            path_view(path@) == path_view(dir@.take(i as int)),
        decreases dir@.len() - i,
    {
        path.push(dir[i].clone());
        proof {
            assert(path_view(dir@.take(i + 1)) =~= path_view(dir@.take(i as int)).push(dir@[i as int]@));
            assert(path_view(path@) =~= path_view(dir@.take(i + 1)));
        }
        i = i + 1;
    }
    assert(dir@.take(dir@.len() as int) =~= dir@);
    path
}

/// `dir` with `name` appended.
fn child_path(dir: &Vec<String>, name: String) -> (path: Vec<String>)
    ensures
        path_view(path@) == path_view(dir@).push(name@),
{
    let mut path = copy_path(dir);
    path.push(name);
    assert(path_view(path@) =~= path_view(dir@).push(name@));
    path
}

/// Where the archive of a release is kept: `<version>.gz` in the platform's directory.
pub fn remote_server_archive_path(platform_dir: &Vec<String>, release: &ReleaseAsset) -> (path: Vec<String>)
    ensures
        path_view(path@) == path_view(platform_dir@).push(release.version@ + ".gz"@),
{
    child_path(platform_dir, release.version.clone().concat(".gz"))
}

/// Where the last dot of `name` stands, if it stands after the first character (a
/// leading dot starts a hidden name, not an extension).
pub open spec fn extension_dot(name: Seq<char>) -> Option<int> {
    if exists|p: int| 0 < p < name.len() && name[p] == '.' {
        let p = choose|p: int| 0 < p < name.len() && name[p] == '.' && forall|q: int| p < q < name.len() ==> name[q] != '.';
        Some(p)
    } else {
        None
    }
}

/// `name` with its extension replaced by `ext` (or given `ext` when it has none).
pub open spec fn with_extension_name(name: Seq<char>, ext: Seq<char>) -> Seq<char> {
    match extension_dot(name) {
        Some(p) => name.take(p) + seq!['.'] + ext,
        None => name + seq!['.'] + ext,
    }
}

/// `name` with its extension replaced by `ext`.
fn replace_extension(name: &str, ext: &str) -> (res: String)
    ensures
        res@ == with_extension_name(name@, ext@),
{
    let n = name.unicode_len();
    let mut i: usize = n;
    let mut dot: usize = 0;
    while i > 1 && dot == 0
        invariant
            n == name@.len(),
            i <= n,
            dot == 0 ==> forall|q: int| i <= q < n ==> name@[q] != '.',
            dot > 0 ==> dot < n && name@[dot as int] == '.' && forall|q: int| dot < q < n ==> name@[q] != '.',
        decreases i,
    {
        if name.get_char(i - 1) == '.' {
            dot = i - 1;
        }
        i = i - 1;
    }
    proof {
        reveal_strlit(".");
    }
    if dot > 0 {
        assert(name@[dot as int] == '.');
        assert(forall|q: int| dot < q < n ==> name@[q] != '.');
        assert(exists|p: int| 0 < p < name@.len() && name@[p] == '.');
        let ghost p = choose|p: int| 0 < p < name@.len() && name@[p] == '.' && forall|q: int| p < q < name@.len() ==> name@[q] != '.';
        assert(p == dot as int) by {
            if p < dot as int {
                assert(name@[dot as int] == '.');
            } else if p > dot as int {
                assert(name@[p] != '.');
            }
        }
        String::from_str(name.substring_char(0, dot)).concat(".").concat(ext)
    } else {
        assert(!exists|p: int| 0 < p < name@.len() && name@[p] == '.') by {
            if exists|p: int| 0 < p < name@.len() && name@[p] == '.' {
                let p = choose|p: int| 0 < p < name@.len() && name@[p] == '.';
                assert(p >= i);
            }
        }
        String::from_str(name).concat(".").concat(ext)
    }
}

/// Whether the last component of a path names a file: a path that is empty, or ends in
/// the root, `.` or `..`, has no file name.
pub open spec fn has_file_name(path: Seq<Seq<char>>) -> bool {
    path.len() > 0 && path.last() != "/"@ && path.last() != "."@ && path.last() != ".."@
}

/// `path` with the extension of its file name replaced by `tmp` (given `tmp` when it
/// has none); a path without a file name is kept as it is.
pub open spec fn temp_path_of(path: Seq<Seq<char>>) -> Seq<Seq<char>> {
    if has_file_name(path) {
        path.drop_last().push(with_extension_name(path.last(), "tmp"@))
    } else {
        path
    }
}

/// Whether `name` is the root, `.` or `..`.
fn names_no_file(name: &str) -> (res: bool)
    ensures
        res == (name@ == "/"@ || name@ == "."@ || name@ == ".."@),
{
    let n = name.unicode_len();
    proof {
        reveal_strlit("/");
        reveal_strlit(".");
        reveal_strlit("..");
    }
    if n == 1 {
        let c = name.get_char(0);
        if c == '/' {
            assert(name@ =~= "/"@);
            true
        } else if c == '.' {
            assert(name@ =~= "."@);
            true
        } else {
            assert(name@[0] != "/"@[0] && name@[0] != "."@[0]);
            false
        }
    } else if n == 2 {
        if name.get_char(0) == '.' && name.get_char(1) == '.' {
            assert(name@ =~= ".."@);
            true
        } else {
            assert(name@ != ".."@) by {
                if name@ == ".."@ {
                    assert(name@[0] == '.' && name@[1] == '.');
                }
            }
            false
        }
    } else {
        false
    }
}

/// Where an archive is downloaded before it is moved into place: the archive's path
/// with the extension `tmp` (a path without a file name is kept as it is).
pub fn download_temp_path(target: &Vec<String>) -> (temp: Vec<String>)
    ensures
        path_view(temp@) == temp_path_of(path_view(target@)),
{
    if target.len() == 0 {
        assert(path_view(target@) =~= Seq::<Seq<char>>::empty());
        return Vec::new();
    }
    let last = target.len() - 1;
    if names_no_file(target[last].as_str()) {
        return copy_path(target);
    }
    let mut dir: Vec<String> = Vec::new();
    let mut i: usize = 0;
    while i < last
        invariant
            last == target@.len() - 1,
            i <= last,
            path_view(dir@) == path_view(target@.take(i as int)),
        decreases last - i,
    {
        dir.push(target[i].clone());
        proof {
            assert(path_view(target@.take(i + 1)) =~= path_view(target@.take(i as int)).push(target@[i as int]@));
            assert(path_view(dir@) =~= path_view(target@.take(i + 1)));
        }
        i = i + 1;
    }
    let name = replace_extension(target[last].as_str(), "tmp");
    dir.push(name);
    assert(path_view(target@).drop_last() =~= path_view(target@.take(last as int)));
    assert(path_view(dir@) =~= path_view(target@).drop_last().push(with_extension_name(target@.last()@, "tmp"@)));
    dir
}

/// How an archive is downloaded: fetched from `url` into `temp_path`, which is then
/// moved to `target_path`.
pub struct BinaryDownload {
    pub url: String,
    pub temp_path: Vec<String>,
    pub target_path: Vec<String>,
}

/// The download of `release` to `target_path`, through a temporary file beside it.
pub fn download_remote_server_binary(target_path: &Vec<String>, release: &ReleaseAsset) -> (download: BinaryDownload)
    ensures
        download.url@ == release.url@,
        path_view(download.temp_path@) == temp_path_of(path_view(target_path@)),
        path_view(download.target_path@) == path_view(target_path@),
{
    let temp_path = download_temp_path(target_path);
    let target = copy_path(target_path);
    BinaryDownload { url: release.url.clone(), temp_path, target_path: target }
}

/// The answer to the archive download: success, or the failure with its status.
pub fn download_response(status: u16) -> (result: Result<(), ReleaseError>)
    ensures
        (200 <= status <= 299) ==> result is Ok,
        !(200 <= status <= 299) ==> result == Err::<(), ReleaseError>(ReleaseError::DownloadFailed { status }),
{
    if is_success(status) {
        Ok(())
    } else {
        Err(ReleaseError::DownloadFailed { status })
    }
}

/// Where the fetch of the server binary into the local cache stands.
pub enum ReleaseDownloadPhase {
    /// The release's description is being fetched.
    FetchingRelease,
    /// The platform's cache directory is made and the archive looked for in it.
    CheckingArchive,
    Downloading,
    /// Older archives are being removed from the cache.
    CleaningUp,
    Finished,
}

/// What the fetch hears back from the work it asked for. A failure of the fetch or
/// of the download ends the whole fetch with that error, before any event.
pub enum ReleaseEvent {
    ReleaseFetched,
    ArchiveChecked { exists: bool },
    Downloaded,
    CleanedUp { succeeded: bool },
}

/// A step of fetching the server binary.
pub enum ReleaseStep {
    SetStatus(&'static str),
    /// Fetch the release's description (see `get_remote_server_release_asset`).
    FetchRelease,
    /// Make the platform's cache directory (see `remote_server_platform_dir`).
    CreatePlatformDir,
    /// Look for the release's archive in it (see `remote_server_archive_path`).
    CheckArchive,
    /// Download the archive (see `download_remote_server_binary`).
    Download,
    /// Remove older archives (see `cleanup_remote_server_cache`).
    Cleanup,
    /// Warn that the cleanup failed; the fetch goes on.
    WarnCleanupFailed,
    /// Hand back the archive's path.
    Finish,
}

/// How the fetch moves on after `event` in `phase`, and what it does: a cached
/// archive is not downloaded again; the cache is cleaned up in either case, and a
/// failed cleanup is only warned about. An event that does not fit the phase changes
/// nothing.
pub open spec fn release_download_step(phase: ReleaseDownloadPhase, event: ReleaseEvent) -> (ReleaseDownloadPhase, Seq<ReleaseStep>) {
    match (phase, event) {
        (ReleaseDownloadPhase::FetchingRelease, ReleaseEvent::ReleaseFetched) => (
            ReleaseDownloadPhase::CheckingArchive,
            seq![ReleaseStep::CreatePlatformDir, ReleaseStep::CheckArchive],
        ),
        (ReleaseDownloadPhase::CheckingArchive, ReleaseEvent::ArchiveChecked { exists }) => if exists {
            (ReleaseDownloadPhase::CleaningUp, seq![ReleaseStep::Cleanup])
        } else {
            (
                ReleaseDownloadPhase::Downloading,
                seq![ReleaseStep::SetStatus("Downloading remote server"), ReleaseStep::Download],
            )
        },
        (ReleaseDownloadPhase::Downloading, ReleaseEvent::Downloaded) => (
            ReleaseDownloadPhase::CleaningUp,
            seq![ReleaseStep::Cleanup],
        ),
        (ReleaseDownloadPhase::CleaningUp, ReleaseEvent::CleanedUp { succeeded }) => (
            ReleaseDownloadPhase::Finished,
            if succeeded { seq![ReleaseStep::Finish] } else { seq![ReleaseStep::WarnCleanupFailed, ReleaseStep::Finish] },
        ),
        (p, _) => (p, Seq::empty()),
    }
}

/// The start of a fetch of the server binary: the progress line, then the fetch of
/// the release's description.
pub fn download_remote_server_release() -> (start: (ReleaseDownloadPhase, Vec<ReleaseStep>))
    ensures
        start.0 == ReleaseDownloadPhase::FetchingRelease,
        start.1@ == seq![ReleaseStep::SetStatus("Fetching remote server release"), ReleaseStep::FetchRelease],
{
    (
        ReleaseDownloadPhase::FetchingRelease,
        vec![ReleaseStep::SetStatus("Fetching remote server release"), ReleaseStep::FetchRelease],
    )
}

/// Moves a fetch of the server binary on after `event` (see `release_download_step`).
pub fn step_release_download(phase: &ReleaseDownloadPhase, event: &ReleaseEvent) -> (next: (ReleaseDownloadPhase, Vec<ReleaseStep>))
    ensures
        (next.0, next.1@) == release_download_step(*phase, *event),
{
    match (phase, event) {
        (ReleaseDownloadPhase::FetchingRelease, ReleaseEvent::ReleaseFetched) => (
            ReleaseDownloadPhase::CheckingArchive,
            vec![ReleaseStep::CreatePlatformDir, ReleaseStep::CheckArchive],
        ),
        (ReleaseDownloadPhase::CheckingArchive, ReleaseEvent::ArchiveChecked { exists }) => if *exists {
            (ReleaseDownloadPhase::CleaningUp, vec![ReleaseStep::Cleanup])
        } else {
            (
                ReleaseDownloadPhase::Downloading,
                vec![ReleaseStep::SetStatus("Downloading remote server"), ReleaseStep::Download],
            )
        },
        (ReleaseDownloadPhase::Downloading, ReleaseEvent::Downloaded) => (
            ReleaseDownloadPhase::CleaningUp,
            vec![ReleaseStep::Cleanup],
        ),
        (ReleaseDownloadPhase::CleaningUp, ReleaseEvent::CleanedUp { succeeded }) => (
            ReleaseDownloadPhase::Finished,
            if *succeeded { vec![ReleaseStep::Finish] } else { vec![ReleaseStep::WarnCleanupFailed, ReleaseStep::Finish] },
        ),
        (ReleaseDownloadPhase::FetchingRelease, _) => (ReleaseDownloadPhase::FetchingRelease, Vec::new()),
        (ReleaseDownloadPhase::CheckingArchive, _) => (ReleaseDownloadPhase::CheckingArchive, Vec::new()),
        (ReleaseDownloadPhase::Downloading, _) => (ReleaseDownloadPhase::Downloading, Vec::new()),
        (ReleaseDownloadPhase::CleaningUp, _) => (ReleaseDownloadPhase::CleaningUp, Vec::new()),
        (ReleaseDownloadPhase::Finished, _) => (ReleaseDownloadPhase::Finished, Vec::new()),
    }
}

/// A fetch downloads the archive only when the cache does not hold it, and hands
/// back the archive's path only once the cache has been cleaned up.
pub proof fn law_download_only_when_missing(phase: ReleaseDownloadPhase, event: ReleaseEvent)
    ensures
        release_download_step(phase, event).1.contains(ReleaseStep::Download)
            ==> phase == ReleaseDownloadPhase::CheckingArchive && event == (ReleaseEvent::ArchiveChecked { exists: false }),
        release_download_step(phase, event).1.contains(ReleaseStep::Finish) ==> phase == ReleaseDownloadPhase::CleaningUp,
{
    let steps = release_download_step(phase, event).1;
    if steps.contains(ReleaseStep::Download) {
        let k = choose|k: int| 0 <= k < steps.len() && steps[k] == ReleaseStep::Download;
    }
    if steps.contains(ReleaseStep::Finish) {
        let k = choose|k: int| 0 <= k < steps.len() && steps[k] == ReleaseStep::Finish;
    }
}

} // verus!
