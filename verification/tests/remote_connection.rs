use mditor_ui::remote_connection::{
    asset_query, cleanup_remote_server_cache, connect, download_remote_server_binary, download_remote_server_release,
    download_response, download_temp_path, get_remote_server_release_asset, get_remote_server_release_url,
    is_success, release_asset_path, release_response, release_version_text, remote_server_archive_path,
    remote_server_platform_dir, same_path, step_release_download, connection_outcome, connection_password, CacheEntry, ConnectRace, ModalEffect, HostIcon, PasswordAnswer, ReleaseAsset, ReleaseChannel,
    ReleaseDownloadPhase, ReleaseError, ReleaseEvent, ReleaseStep, ReleaseVersion, RemoteClientDelegate, RemoteConnectionModal, RemoteConnectionOptions,
    RemoteConnectionPrompt, RemotePlatform, SshConnection, Telemetry,
};

fn path(parts: &[&str]) -> Vec<String> {
    parts.iter().map(|p| p.to_string()).collect()
}

fn ssh(password: Option<&str>, nickname: Option<&str>) -> RemoteConnectionOptions {
    RemoteConnectionOptions::Ssh(SshConnection {
        connection_string: "me@example.org:22".to_string(),
        nickname: nickname.map(|n| n.to_string()),
        password: password.map(|p| p.to_string()),
    })
}

fn version(major: u64, minor: u64, patch: u64) -> ReleaseVersion {
    ReleaseVersion { major, minor, patch, pre: "beta.1".to_string(), build: "abc".to_string() }
}

fn archive(name: &str, modified: Option<u64>) -> CacheEntry {
    CacheEntry { path: path(&["servers", "stable", "linux-x86_64", name]), is_file: true, modified }
}

#[test]
fn prompt_masks_passwords_but_not_yes_no_questions() {
    let mut prompt = RemoteConnectionPrompt::new("me@example.org".to_string(), None, false, false);
    prompt.set_status(Some("Connecting".to_string()));
    prompt.set_prompt("me@example.org's password:".to_string());
    assert!(prompt.editor_masked);
    assert!(prompt.status_message.is_none());
    prompt.set_prompt("Are you sure you want to continue connecting (yes/no)?".to_string());
    assert!(!prompt.editor_masked);
}

#[test]
fn confirming_answers_once_and_shows_progress() {
    let mut prompt = RemoteConnectionPrompt::new("me@example.org".to_string(), None, false, false);
    assert_eq!(prompt.confirm(Some("ignored".to_string())), None);
    prompt.set_prompt("Password:".to_string());
    prompt.editor_text = "secret".to_string();
    assert_eq!(prompt.confirm(Some(prompt.editor_text.clone())), Some("secret".to_string()));
    assert_eq!(prompt.status_message, Some("Connecting".to_string()));
    assert_eq!(prompt.editor_text, "");
    assert_eq!(prompt.confirm(Some("again".to_string())), None);
    let view = prompt.render(true);
    assert_eq!(view.status_line, Some("Connecting\u{2026}".to_string()));
    assert!(!view.capslock_warning);
}

#[test]
fn a_password_that_does_not_convert_is_not_sent() {
    let mut prompt = RemoteConnectionPrompt::new("host".to_string(), None, false, false);
    prompt.set_prompt("Password:".to_string());
    prompt.editor_text = "secret".to_string();
    assert_eq!(prompt.confirm::<String>(None), None);
    assert!(prompt.prompt.is_none());
    assert_eq!(prompt.editor_text, "");
}

#[test]
fn capslock_warning_only_under_a_question() {
    let mut prompt = RemoteConnectionPrompt::new("host".to_string(), None, false, false);
    assert!(!prompt.render(true).capslock_warning);
    prompt.set_prompt("Password:".to_string());
    assert!(prompt.render(true).capslock_warning);
    assert!(!prompt.render(false).capslock_warning);
}

#[test]
fn modal_header_names_the_host() {
    let modal = RemoteConnectionModal::new(&ssh(None, Some("box")), path(&["/srv/notes"]));
    let view = modal.render(false);
    assert_eq!(view.header.main_label, "box");
    assert_eq!(view.header.meta_label, Some("(me@example.org:22)".to_string()));
    assert!(matches!(view.header.icon, HostIcon::Server));
    assert_eq!(view.header.path_labels, path(&["/srv/notes"]));
    assert_eq!(view.cancel_label, "Cancel");

    let wsl = RemoteConnectionModal::new(&RemoteConnectionOptions::Wsl("Ubuntu".to_string()), Vec::new());
    let header = wsl.header().render();
    assert_eq!(header.main_label, "Ubuntu");
    assert_eq!(header.meta_label, None);
    assert!(matches!(header.icon, HostIcon::Linux));

    let docker = RemoteConnectionModal::new(&RemoteConnectionOptions::Docker("dev".to_string()), Vec::new());
    assert!(matches!(docker.header().render().icon, HostIcon::Box));
}

#[test]
fn dismissing_cancels_the_connection_once() {
    let mut modal = RemoteConnectionModal::new(&ssh(None, None), Vec::new());
    assert!(!modal.on_before_dismiss());
    let options = ssh(Some("pw"), None);
    assert_eq!(connection_password(&options), Some("pw".to_string()));
    let delegate = connect(&options, &mut modal.prompt, connection_password(&options));
    assert!(matches!(delegate.ask_password("Password:".to_string()), PasswordAnswer::Known(p) if p == "pw"));
    assert!(matches!(modal.dismiss().as_slice(), [ModalEffect::CancelConnection, ModalEffect::EmitDismiss]));
    assert!(modal.finished && modal.on_before_dismiss());
    assert!(matches!(modal.dismiss().as_slice(), [ModalEffect::EmitDismiss]));
    let mut other = RemoteConnectionModal::new(&ssh(None, None), Vec::new());
    assert!(matches!(other.finished(), ModalEffect::EmitDismiss));
    assert!(other.on_before_dismiss());
    assert!(modal.fade_out_background());
}

#[test]
fn delegate_asks_without_a_known_password() {
    let mut prompt = RemoteConnectionPrompt::new("host".to_string(), None, false, false);
    let delegate = connect(&RemoteConnectionOptions::Wsl("Ubuntu".to_string()), &mut prompt, Some("unused".to_string()));
    assert!(delegate.known_password.is_none());
    let failed: RemoteClientDelegate<String> = connect(&ssh(Some("pw"), None), &mut prompt, None);
    assert!(failed.known_password.is_none());
    assert!(prompt.has_cancellation);
    assert!(matches!(delegate.ask_password("Password:".to_string()), PasswordAnswer::Ask(ref q) if q == "Password:"));
    delegate.set_status(&mut prompt, Some("Starting server"));
    assert_eq!(prompt.status_message, Some("Starting server".to_string()));
    delegate.update_status(&mut prompt, None);
    assert_eq!(prompt.status_message, None);
    let query = RemoteClientDelegate::<String>::new(None).download_server_binary_locally(
        &RemotePlatform { os: "linux".to_string(), arch: "aarch64".to_string() },
        ReleaseChannel::Preview,
        None,
    );
    assert_eq!((query.os.as_str(), query.arch.as_str()), ("linux", "aarch64"));
    assert!(matches!(query.channel, ReleaseChannel::Preview));
}

#[test]
fn release_addresses_drop_prerelease_and_build() {
    assert_eq!(release_version_text(Some(&version(1, 2, 3))), "1.2.3");
    assert_eq!(release_version_text(None), "latest");
    assert_eq!(release_asset_path(&ReleaseChannel::Stable, Some(&version(0, 190, 12))), "/releases/stable/0.190.12/asset");
    assert_eq!(release_asset_path(&ReleaseChannel::Nightly, None), "/releases/nightly/latest/asset");
    assert_eq!(ReleaseChannel::Dev.dev_name(), "dev");
    assert_eq!(ReleaseChannel::Preview.dev_name(), "preview");
}

#[test]
fn release_query_sends_identifiers_only_with_metrics() {
    let telemetry = Telemetry {
        metrics_enabled: false,
        system_id: Some("sys".to_string()),
        metrics_id: Some("met".to_string()),
        is_staff: Some(true),
    };
    let query = asset_query("linux", "x86_64", &telemetry);
    assert_eq!(query.asset, "zed-remote-server");
    assert_eq!((query.os.as_str(), query.arch.as_str()), ("linux", "x86_64"));
    assert_eq!((query.system_id, query.metrics_id, query.is_staff), (None, None, None));

    let telemetry = Telemetry { metrics_enabled: true, ..telemetry };
    let request = get_remote_server_release_asset(&ReleaseChannel::Stable, Some(&version(1, 0, 0)), "macos", "aarch64", &telemetry);
    assert_eq!(request.path, "/releases/stable/1.0.0/asset");
    assert_eq!(request.query.system_id, Some("sys".to_string()));
    assert_eq!(request.query.metrics_id, Some("met".to_string()));
    assert_eq!(request.query.is_staff, Some(true));
}

#[test]
fn responses_are_checked_by_status() {
    assert!(is_success(200) && is_success(299));
    assert!(!is_success(199) && !is_success(300) && !is_success(404));
    assert!(matches!(release_response(200, b"{}".to_vec()), Ok(ref body) if body == b"{}"));
    assert!(matches!(release_response(500, b"down".to_vec()), Err(ReleaseError::FetchFailed { ref body }) if body == b"down"));
    assert!(download_response(204).is_ok());
    assert!(matches!(download_response(403), Err(ReleaseError::DownloadFailed { status: 403 })));
}

#[test]
fn archive_paths() {
    let servers = path(&["home", ".local", "servers"]);
    let dir = remote_server_platform_dir(&servers, &ReleaseChannel::Stable, "linux", "x86_64");
    assert_eq!(dir, path(&["home", ".local", "servers", "stable", "linux-x86_64"]));
    let release = ReleaseAsset { version: "0.190.12".to_string(), url: "https://example.org/a.gz".to_string() };
    let archive = remote_server_archive_path(&dir, &release);
    assert_eq!(archive.last().map(|s| s.as_str()), Some("0.190.12.gz"));
    assert_eq!(download_temp_path(&archive).last().map(|s| s.as_str()), Some("0.190.12.tmp"));
    assert_eq!(download_temp_path(&path(&["dir", ".hidden"])), path(&["dir", ".hidden.tmp"]));
    assert_eq!(download_temp_path(&path(&["plain"])), path(&["plain.tmp"]));
    assert_eq!(download_temp_path(&path(&["a", "b.tar.gz"])), path(&["a", "b.tar.tmp"]));
    assert!(download_temp_path(&Vec::new()).is_empty());
    assert_eq!(download_temp_path(&path(&["a", ".."])), path(&["a", ".."]));
    assert_eq!(download_temp_path(&path(&["/"])), path(&["/"]));
    let download = download_remote_server_binary(&archive, &release);
    assert_eq!(download.url, "https://example.org/a.gz");
    assert_eq!(download.target_path, archive);
    assert_eq!(download.temp_path.last().map(|s| s.as_str()), Some("0.190.12.tmp"));
    assert_eq!(get_remote_server_release_url(&release), Some("https://example.org/a.gz".to_string()));
    assert!(same_path(&archive, &download.target_path));
    assert!(!same_path(&archive, &dir));
}

#[test]
fn release_steps_download_only_when_missing() {
    let (phase, steps) = download_remote_server_release();
    assert!(matches!(phase, ReleaseDownloadPhase::FetchingRelease));
    assert!(matches!(steps.as_slice(), [ReleaseStep::SetStatus("Fetching remote server release"), ReleaseStep::FetchRelease]));

    let (phase, steps) = step_release_download(&phase, &ReleaseEvent::ReleaseFetched);
    assert!(matches!(steps.as_slice(), [ReleaseStep::CreatePlatformDir, ReleaseStep::CheckArchive]));

    let (cached, steps) = step_release_download(&phase, &ReleaseEvent::ArchiveChecked { exists: true });
    assert!(matches!(cached, ReleaseDownloadPhase::CleaningUp));
    assert!(matches!(steps.as_slice(), [ReleaseStep::Cleanup]));

    let (missing, steps) = step_release_download(&phase, &ReleaseEvent::ArchiveChecked { exists: false });
    assert!(matches!(missing, ReleaseDownloadPhase::Downloading));
    assert!(matches!(steps.as_slice(), [ReleaseStep::SetStatus("Downloading remote server"), ReleaseStep::Download]));

    let (cleaning, steps) = step_release_download(&missing, &ReleaseEvent::Downloaded);
    assert!(matches!(steps.as_slice(), [ReleaseStep::Cleanup]));
    let (done, steps) = step_release_download(&cleaning, &ReleaseEvent::CleanedUp { succeeded: false });
    assert!(matches!(done, ReleaseDownloadPhase::Finished));
    assert!(matches!(steps.as_slice(), [ReleaseStep::WarnCleanupFailed, ReleaseStep::Finish]));

    // An event out of turn changes nothing.
    let (same, steps) = step_release_download(&cleaning, &ReleaseEvent::ReleaseFetched);
    assert!(matches!(same, ReleaseDownloadPhase::CleaningUp));
    assert!(steps.is_empty());
}

#[test]
fn cleanup_removes_the_oldest_beyond_the_limit() {
    let keep = path(&["servers", "stable", "linux-x86_64", "5.gz"]);
    let entries = vec![
        archive("1.gz", Some(10)),
        archive("5.gz", Some(50)),
        archive("3.gz", Some(30)),
        CacheEntry { path: path(&["servers", "stable", "linux-x86_64", "tmp"]), is_file: false, modified: Some(5) },
        archive("4.gz", Some(40)),
        archive("2.gz", None),
    ];
    // With a limit of 3, the two newest besides the kept one stay: 4 and 3.
    assert_eq!(cleanup_remote_server_cache(&entries, &keep, 3), vec![0, 5]);
    // A limit of 1 leaves only the kept archive.
    assert_eq!(cleanup_remote_server_cache(&entries, &keep, 1), vec![0, 2, 4, 5]);
    // A limit of 0 turns the cleanup off.
    assert!(cleanup_remote_server_cache(&entries, &keep, 0).is_empty());
    // A large limit removes nothing.
    assert!(cleanup_remote_server_cache(&entries, &keep, 10).is_empty());
}

#[test]
fn cleanup_breaks_ties_by_directory_order() {
    let keep = path(&["none"]);
    let entries = vec![archive("a.gz", Some(7)), archive("b.gz", Some(7)), archive("c.gz", Some(7))];
    assert_eq!(cleanup_remote_server_cache(&entries, &keep, 2), vec![1, 2]);
}

#[test]
fn connection_outcomes() {
    assert_eq!(connection_outcome::<u8, String>(ConnectRace::Cancelled), Ok(None));
    assert_eq!(connection_outcome::<u8, String>(ConnectRace::Finished(Ok(7))), Ok(Some(7)));
    assert_eq!(connection_outcome::<u8, String>(ConnectRace::Finished(Err("refused".to_string()))), Err("refused".to_string()));
}
