use goober_launcher::install::{InstallAction, InstallPhase, Installer};
use goober_launcher::registry::protocol_registration;
use goober_launcher::update::{game_version_url, HashResponse, UpdateAction, UpdateCheck, UpdatePhase};

/// Runs the installer, answering each action with the next outcome, and
/// returns the actions in order (the last one is `Finish` or `Abort`).
fn run_installer(outcomes: &[bool]) -> Vec<InstallAction> {
    let mut m = Installer::new("P\\GooberLauncher.exe".to_string());
    let mut actions = Vec::new();
    let mut next = outcomes.iter();
    loop {
        let a = m.action();
        actions.push(a.clone());
        if matches!(a, InstallAction::Finish | InstallAction::Abort(_)) {
            return actions;
        }
        m.step(*next.next().expect("ran out of outcomes"));
    }
}

fn run_update(check: &mut UpdateCheck, outcomes: &[bool]) -> Vec<UpdateAction> {
    let mut actions = Vec::new();
    let mut next = outcomes.iter();
    loop {
        let a = check.action();
        actions.push(a.clone());
        if a == UpdateAction::Finish {
            return actions;
        }
        check.step(*next.next().expect("ran out of outcomes"));
    }
}

fn hashes(launcher: &str, client: &str) -> HashResponse {
    HashResponse { launcher_hash: launcher.to_string(), client_hash: client.to_string() }
}

#[test]
fn installed_launcher_only_registers_scheme() {
    let actions = run_installer(&[true, true, true, true, true]);
    assert_eq!(
        actions,
        vec![
            InstallAction::CheckDataDir,
            InstallAction::CheckClientDir,
            InstallAction::CheckLauncher,
            InstallAction::CreateSchemeKey("goober-player".to_string()),
            InstallAction::WriteRegistry(protocol_registration("P\\GooberLauncher.exe")),
            InstallAction::Finish,
        ]
    );
}

#[test]
fn fresh_install_copies_downloads_and_registers() {
    // data dir missing, created; client dir missing; exe found and opened;
    // copy ok; announce; recheck: client dir missing; create parent; download;
    // extraction ok; announce; scheme key ok; registry written.
    let actions = run_installer(&[
        false, true, false, true, true, true, true, false, true, true, true, true, true, true,
    ]);
    assert_eq!(
        actions,
        vec![
            InstallAction::CheckDataDir,
            InstallAction::CreateDataDir,
            InstallAction::CheckClientDir,
            InstallAction::LocateExecutable,
            InstallAction::OpenExecutable,
            InstallAction::CopyExecutable,
            InstallAction::LogInfo("Starting installation..".to_string()),
            InstallAction::CheckClientDir,
            InstallAction::CreateClientParentDir,
            InstallAction::DownloadClient("http://setup.goober.biz/GooberClient.zip".to_string()),
            InstallAction::ExtractClient,
            InstallAction::LogInfo("Installation finished..".to_string()),
            InstallAction::CreateSchemeKey("goober-player".to_string()),
            InstallAction::WriteRegistry(protocol_registration("P\\GooberLauncher.exe")),
            InstallAction::Finish,
        ]
    );
}

#[test]
fn failed_copy_aborts_install() {
    let actions = run_installer(&[true, false, true, true, false]);
    assert_eq!(
        actions.last().unwrap(),
        &InstallAction::Abort("Unable to install, make a ticket for help.".to_string())
    );
    assert!(!actions.iter().any(|a| matches!(a, InstallAction::CreateSchemeKey(_))));
}

#[test]
fn failed_extraction_cleans_up_then_registers() {
    let actions = run_installer(&[
        true, true, false, true, true, true, true, true, false, true, true, false, true, true, false, true,
    ]);
    assert_eq!(
        actions,
        vec![
            InstallAction::CheckDataDir,
            InstallAction::CheckClientDir,
            InstallAction::CheckLauncher,
            InstallAction::LocateExecutable,
            InstallAction::OpenExecutable,
            InstallAction::CopyExecutable,
            InstallAction::LogInfo("Starting installation..".to_string()),
            InstallAction::CheckClientDir,
            InstallAction::CheckLauncher,
            InstallAction::CreateClientParentDir,
            InstallAction::DownloadClient("http://setup.goober.biz/GooberClient.zip".to_string()),
            InstallAction::ExtractClient,
            InstallAction::RemoveClientDir,
            InstallAction::ReportExtractionError,
            InstallAction::CreateSchemeKey("goober-player".to_string()),
            InstallAction::ReportRegistryError,
            InstallAction::Finish,
        ]
    );
}

#[test]
fn unreadable_executable_is_reported_and_registration_goes_on() {
    let actions = run_installer(&[true, false, true, false, true, true, true]);
    assert_eq!(
        actions,
        vec![
            InstallAction::CheckDataDir,
            InstallAction::CheckClientDir,
            InstallAction::LocateExecutable,
            InstallAction::OpenExecutable,
            InstallAction::ReportError("executable path couldnt be grabbed".to_string()),
            InstallAction::CreateSchemeKey("goober-player".to_string()),
            InstallAction::WriteRegistry(protocol_registration("P\\GooberLauncher.exe")),
            InstallAction::Finish,
        ]
    );
}

#[test]
fn missing_executable_path_skips_to_registration() {
    let actions = run_installer(&[true, true, false, false, true, true]);
    assert_eq!(actions[3], InstallAction::LocateExecutable);
    assert_eq!(actions[4], InstallAction::CreateSchemeKey("goober-player".to_string()));
}

#[test]
fn every_install_run_ends_within_seventeen_steps() {
    for bits in 0u32..(1 << 17) {
        let mut m = Installer::new(String::new());
        for i in 0..17 {
            m.step(bits & (1 << i) != 0);
        }
        assert!(matches!(m.phase(), InstallPhase::Done | InstallPhase::Aborted));
    }
}

#[test]
fn version_address() {
    assert_eq!(game_version_url(), "http://goober.biz/game/game-version");
}

#[test]
fn untouched_disk_hashes_count_as_current_client() {
    // The launcher passes the placeholder "none" for the client and the data
    // directory copy, as it always did.
    let mut c = UpdateCheck::new(&hashes("L", "C"), "none", "L", "none");
    assert_eq!(c.phase(), UpdatePhase::AnnouncingClientCurrent);
    let actions = run_update(&mut c, &[true, true, true, true, true, true]);
    assert_eq!(
        actions,
        vec![
            UpdateAction::LogInfo("Client is up-to-date!".to_string()),
            UpdateAction::LogInfo("Launcher is up-to-date.".to_string()),
            UpdateAction::LocateExecutable,
            UpdateAction::OpenExecutable,
            UpdateAction::Pause(2),
            UpdateAction::CopyLauncher,
            UpdateAction::Finish,
        ]
    );
}

#[test]
fn outdated_launcher_is_reported_as_error() {
    let mut c = UpdateCheck::new(&hashes("new", "C"), "C", "old", "old");
    let actions = run_update(&mut c, &[true, true]);
    assert_eq!(
        actions,
        vec![
            UpdateAction::LogInfo("Client is up-to-date!".to_string()),
            UpdateAction::LogError("Please re-download the launcher from the site.".to_string()),
            UpdateAction::Finish,
        ]
    );
}

#[test]
fn marked_client_is_reinstalled() {
    let mut c = UpdateCheck::new(&hashes("L", "C"), "TEST", "L", "L");
    let actions = run_update(&mut c, &[true; 10]);
    assert_eq!(
        actions,
        vec![
            UpdateAction::LogInfo("Client is out-of-date or corrupted, redownloading..".to_string()),
            UpdateAction::DownloadArchive("http://setup.goober.biz/GooberClientE.zip".to_string()),
            UpdateAction::RemoveClientDir,
            UpdateAction::LogInfo("Extracting...".to_string()),
            UpdateAction::ExtractClient,
            UpdateAction::LogInfo("Extraction finished!".to_string()),
            UpdateAction::DownloadPlayer("http://goober.biz/2016-RobloxAppE.exe".to_string()),
            UpdateAction::WritePlayer,
            UpdateAction::LogInfo("Installation finished!".to_string()),
            UpdateAction::LogInfo("Launcher is up-to-date.".to_string()),
            UpdateAction::Finish,
        ]
    );
}

#[test]
fn marked_client_matching_published_hash_is_current() {
    let c = UpdateCheck::new(&hashes("L", "TEST"), "TEST", "L", "L");
    assert_eq!(c.phase(), UpdatePhase::AnnouncingClientCurrent);
}

#[test]
fn failed_extraction_during_update() {
    let mut c = UpdateCheck::new(&hashes("L", "C"), "TEST", "L", "L");
    let actions = run_update(&mut c, &[true, true, true, true, false, true, true, true]);
    assert_eq!(
        &actions[4..],
        &[
            UpdateAction::ExtractClient,
            UpdateAction::RemoveClientDir,
            UpdateAction::ReportExtractionError,
            UpdateAction::LogInfo("Launcher is up-to-date.".to_string()),
            UpdateAction::Finish,
        ]
    );
}

#[test]
fn launcher_copy_skipped_when_executable_missing() {
    let mut c = UpdateCheck::new(&hashes("L", "C"), "C", "L", "other");
    let actions = run_update(&mut c, &[true, true, false]);
    assert_eq!(
        actions,
        vec![
            UpdateAction::LogInfo("Client is up-to-date!".to_string()),
            UpdateAction::LogInfo("Launcher is up-to-date.".to_string()),
            UpdateAction::LocateExecutable,
            UpdateAction::Finish,
        ]
    );
}

#[test]
fn every_update_run_ends_within_fourteen_steps() {
    for bits in 0u32..(1 << 14) {
        for disk in ["TEST", "none"] {
            let mut c = UpdateCheck::new(&hashes("L", "C"), disk, "L", "x");
            for i in 0..14 {
                c.step(bits & (1 << i) != 0);
            }
            assert_eq!(c.phase(), UpdatePhase::Done);
        }
    }
}

#[test]
fn running_launcher_check_uses_placeholders() {
    let c = UpdateCheck::for_running_launcher(&hashes("L", "C"), "L");
    assert_eq!(c.phase(), UpdatePhase::AnnouncingClientCurrent);
    let mut c = UpdateCheck::for_running_launcher(&hashes("L", "C"), "L");
    let actions = run_update(&mut c, &[true, true, false]);
    assert_eq!(actions[1], UpdateAction::LogInfo("Launcher is up-to-date.".to_string()));
    assert_eq!(actions[2], UpdateAction::LocateExecutable);
    let mut c = UpdateCheck::for_running_launcher(&hashes("L", "C"), "none");
    let actions = run_update(&mut c, &[true, true]);
    assert_eq!(
        actions,
        vec![
            UpdateAction::LogInfo("Client is up-to-date!".to_string()),
            UpdateAction::LogError("Please re-download the launcher from the site.".to_string()),
            UpdateAction::Finish,
        ]
    );
}

#[test]
fn second_install_repeats_only_the_registration() {
    let first = run_installer(&[false, true, false, true, true, true, true, false, true, true, true, true, true, true]);
    let second = run_installer(&[true, true, true, true, false]);
    let written_first = first.iter().find(|a| matches!(a, InstallAction::WriteRegistry(_))).unwrap();
    assert_eq!(second[4], *written_first);
    assert_eq!(second.len(), 6);
    assert!(!second.iter().any(|a| matches!(
        a,
        InstallAction::CopyExecutable | InstallAction::DownloadClient(_) | InstallAction::ExtractClient
    )));
}
