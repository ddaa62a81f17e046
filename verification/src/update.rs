//! The update check: compares the client and launcher on disk with the hashes
//! published by the server, reinstalls an outdated client, and refreshes the
//! launcher copy in the data directory.
//!
//! Like the installer, the check is a machine that names the next outside
//! action and takes its outcome (`true` for success; actions without an
//! outcome report `true`).

use vstd::prelude::*;

verus! {

/// The hashes that the server publishes for the current release.
#[derive(Debug, Clone, PartialEq, Eq)]
pub struct HashResponse {
    pub launcher_hash: String,
    pub client_hash: String,
}

/// The address of the published hashes.
pub fn game_version_url() -> (res: String)
    ensures
        res@ == "http://goober.biz/game/game-version"@,
{
    String::from_str("http://goober.biz/game/game-version")
}

/// The client counts as up to date when its hash on disk is the published
/// one, or when the hash on disk is anything but the marker `TEST`.
pub open spec fn client_is_current(published: Seq<char>, on_disk: Seq<char>) -> bool {
    published == on_disk || on_disk != "TEST"@
}

/// Where the check stands: each phase waits for the outcome of one action.
#[derive(Debug, Clone, Copy, PartialEq, Eq, Structural)]
pub enum UpdatePhase {
    /// Announce that the client is up to date.
    AnnouncingClientCurrent,
    /// Announce that the client will be downloaded again.
    AnnouncingClientOutdated,
    /// Download the client archive (a failed download is fatal).
    DownloadingClientArchive,
    /// Remove the old client directory.
    RemovingClientDir,
    /// Announce the extraction.
    AnnouncingExtraction,
    /// Extract the archive into the client directory.
    ExtractingClient,
    /// Announce that extraction succeeded.
    AnnouncingExtracted,
    /// Download the client executable (a failed download is fatal).
    DownloadingPlayer,
    /// Write the client executable into the client directory.
    WritingPlayer,
    /// Announce that the client is installed.
    AnnouncingPlayerInstalled,
    /// Remove the client directory after a failed extraction.
    CleaningFailedExtraction,
    /// Tell the user why extraction failed.
    ReportingExtractionError,
    /// Tell the user whether the launcher is up to date.
    ReportingLauncherStatus,
    /// Can the path of the running executable be found?
    LocatingExecutable,
    /// Can the running executable be opened?
    OpeningExecutable,
    /// Wait before copying.
    Pausing,
    /// Copy the running executable over the launcher in the data directory.
    CopyingLauncher,
    /// Nothing left to do.
    Done,
}

/// What the caller does next.
#[derive(Debug, Clone, PartialEq, Eq)]
pub enum UpdateAction {
    /// Log an informational line with this message.
    LogInfo(String),
    /// Log an error line with this message.
    LogError(String),
    /// Download the archive at this address.
    DownloadArchive(String),
    RemoveClientDir,
    ExtractClient,
    /// Download the client executable from this address.
    DownloadPlayer(String),
    WritePlayer,
    /// Print the extraction error on the error stream.
    ReportExtractionError,
    LocateExecutable,
    OpenExecutable,
    /// Wait this many seconds.
    Pause(u64),
    CopyLauncher,
    Finish,
}

/// `UpdateAction` with its strings as character sequences.
pub enum UpdateActionView {
    LogInfo(Seq<char>),
    LogError(Seq<char>),
    DownloadArchive(Seq<char>),
    RemoveClientDir,
    ExtractClient,
    DownloadPlayer(Seq<char>),
    WritePlayer,
    ReportExtractionError,
    LocateExecutable,
    OpenExecutable,
    Pause(u64),
    CopyLauncher,
    Finish,
}

impl View for UpdateAction {
    type V = UpdateActionView;

    open spec fn view(&self) -> UpdateActionView {
        match self {
            UpdateAction::LogInfo(m) => UpdateActionView::LogInfo(m@),
            UpdateAction::LogError(m) => UpdateActionView::LogError(m@),
            UpdateAction::DownloadArchive(u) => UpdateActionView::DownloadArchive(u@),
            UpdateAction::RemoveClientDir => UpdateActionView::RemoveClientDir,
            UpdateAction::ExtractClient => UpdateActionView::ExtractClient,
            UpdateAction::DownloadPlayer(u) => UpdateActionView::DownloadPlayer(u@),
            UpdateAction::WritePlayer => UpdateActionView::WritePlayer,
            UpdateAction::ReportExtractionError => UpdateActionView::ReportExtractionError,
            UpdateAction::LocateExecutable => UpdateActionView::LocateExecutable,
            UpdateAction::OpenExecutable => UpdateActionView::OpenExecutable,
            UpdateAction::Pause(s) => UpdateActionView::Pause(*s),
            UpdateAction::CopyLauncher => UpdateActionView::CopyLauncher,
            UpdateAction::Finish => UpdateActionView::Finish,
        }
    }
}

/// The first phase of a check.
pub open spec fn first_update_phase(client_current: bool) -> UpdatePhase {
    if client_current {
        UpdatePhase::AnnouncingClientCurrent
    } else {
        UpdatePhase::AnnouncingClientOutdated
    }
}

/// The phase that follows `phase` when its action had outcome `ok`; the copy
/// of the launcher in the data directory is refreshed when `copy_stale`.
pub open spec fn next_update_phase(phase: UpdatePhase, ok: bool, copy_stale: bool) -> UpdatePhase {
    match phase {
        UpdatePhase::AnnouncingClientCurrent => UpdatePhase::ReportingLauncherStatus,
        UpdatePhase::AnnouncingClientOutdated => UpdatePhase::DownloadingClientArchive,
        UpdatePhase::DownloadingClientArchive => UpdatePhase::RemovingClientDir,
        UpdatePhase::RemovingClientDir => UpdatePhase::AnnouncingExtraction,
        UpdatePhase::AnnouncingExtraction => UpdatePhase::ExtractingClient,
        UpdatePhase::ExtractingClient => if ok {
            UpdatePhase::AnnouncingExtracted
        } else {
            UpdatePhase::CleaningFailedExtraction
        },
        UpdatePhase::AnnouncingExtracted => UpdatePhase::DownloadingPlayer,
        UpdatePhase::DownloadingPlayer => UpdatePhase::WritingPlayer,
        UpdatePhase::WritingPlayer => UpdatePhase::AnnouncingPlayerInstalled,
        UpdatePhase::AnnouncingPlayerInstalled => UpdatePhase::ReportingLauncherStatus,
        UpdatePhase::CleaningFailedExtraction => UpdatePhase::ReportingExtractionError,
        UpdatePhase::ReportingExtractionError => UpdatePhase::ReportingLauncherStatus,
        UpdatePhase::ReportingLauncherStatus => if copy_stale {
            UpdatePhase::LocatingExecutable
        } else {
            UpdatePhase::Done
        },
        UpdatePhase::LocatingExecutable => if ok {
            UpdatePhase::OpeningExecutable
        } else {
            UpdatePhase::Done
        },
        UpdatePhase::OpeningExecutable => if ok {
            UpdatePhase::Pausing
        } else {
            UpdatePhase::Done
        },
        UpdatePhase::Pausing => UpdatePhase::CopyingLauncher,
        UpdatePhase::CopyingLauncher => UpdatePhase::Done,
        UpdatePhase::Done => UpdatePhase::Done,
    }
}

/// The action that `phase` waits on; the launcher's status line depends on
/// whether it is `launcher_current`.
pub open spec fn update_action_for(phase: UpdatePhase, launcher_current: bool) -> UpdateActionView {
    match phase {
        UpdatePhase::AnnouncingClientCurrent => UpdateActionView::LogInfo("Client is up-to-date!"@),
        UpdatePhase::AnnouncingClientOutdated => UpdateActionView::LogInfo(
            "Client is out-of-date or corrupted, redownloading.."@,
        ),
        UpdatePhase::DownloadingClientArchive => UpdateActionView::DownloadArchive(
            "http://setup.goober.biz/GooberClientE.zip"@,
        ),
        UpdatePhase::RemovingClientDir => UpdateActionView::RemoveClientDir,
        UpdatePhase::AnnouncingExtraction => UpdateActionView::LogInfo("Extracting..."@),
        UpdatePhase::ExtractingClient => UpdateActionView::ExtractClient,
        UpdatePhase::AnnouncingExtracted => UpdateActionView::LogInfo("Extraction finished!"@),
        UpdatePhase::DownloadingPlayer => UpdateActionView::DownloadPlayer(
            "http://goober.biz/2016-RobloxAppE.exe"@,
        ),
        UpdatePhase::WritingPlayer => UpdateActionView::WritePlayer,
        UpdatePhase::AnnouncingPlayerInstalled => UpdateActionView::LogInfo("Installation finished!"@),
        UpdatePhase::CleaningFailedExtraction => UpdateActionView::RemoveClientDir,
        UpdatePhase::ReportingExtractionError => UpdateActionView::ReportExtractionError,
        UpdatePhase::ReportingLauncherStatus => if launcher_current {
            UpdateActionView::LogInfo("Launcher is up-to-date."@)
        } else {
            UpdateActionView::LogError("Please re-download the launcher from the site."@)
        },
        UpdatePhase::LocatingExecutable => UpdateActionView::LocateExecutable,
        UpdatePhase::OpeningExecutable => UpdateActionView::OpenExecutable,
        UpdatePhase::Pausing => UpdateActionView::Pause(2),
        UpdatePhase::CopyingLauncher => UpdateActionView::CopyLauncher,
        UpdatePhase::Done => UpdateActionView::Finish,
    }
}


/// How far a phase is from the end of the check.
pub open spec fn update_rank(phase: UpdatePhase) -> nat {
    match phase {
        UpdatePhase::AnnouncingClientCurrent => 6,
        UpdatePhase::AnnouncingClientOutdated => 14,
        UpdatePhase::DownloadingClientArchive => 13,
        UpdatePhase::RemovingClientDir => 12,
        UpdatePhase::AnnouncingExtraction => 11,
        UpdatePhase::ExtractingClient => 10,
        UpdatePhase::AnnouncingExtracted => 9,
        UpdatePhase::DownloadingPlayer => 8,
        UpdatePhase::WritingPlayer => 7,
        UpdatePhase::AnnouncingPlayerInstalled => 6,
        UpdatePhase::CleaningFailedExtraction => 7,
        UpdatePhase::ReportingExtractionError => 6,
        UpdatePhase::ReportingLauncherStatus => 5,
        UpdatePhase::LocatingExecutable => 4,
        UpdatePhase::OpeningExecutable => 3,
        UpdatePhase::Pausing => 2,
        UpdatePhase::CopyingLauncher => 1,
        UpdatePhase::Done => 0,
    }
}

/// The phase reached from `phase` when the actions have the given outcomes.
pub open spec fn run_update(phase: UpdatePhase, outcomes: Seq<bool>, copy_stale: bool) -> UpdatePhase
    decreases outcomes.len(),
{
    if outcomes.len() == 0 {
        phase
    } else {
        run_update(next_update_phase(phase, outcomes[0], copy_stale), outcomes.drop_first(), copy_stale)
    }
}

/// Each outcome brings an unfinished check closer to its end; a finished
/// check stays finished.
pub proof fn lemma_update_step_progress(phase: UpdatePhase, ok: bool, copy_stale: bool)
    ensures
        phase == UpdatePhase::Done ==> next_update_phase(phase, ok, copy_stale) == phase,
        phase != UpdatePhase::Done ==> update_rank(next_update_phase(phase, ok, copy_stale)) < update_rank(phase),
{
}

/// Every check ends: as many outcomes as the phase's rank (at most 14) lead
/// to `Done`.
pub proof fn lemma_update_terminates(phase: UpdatePhase, outcomes: Seq<bool>, copy_stale: bool)
    requires
        outcomes.len() >= update_rank(phase),
    ensures
        run_update(phase, outcomes, copy_stale) == UpdatePhase::Done,
    decreases outcomes.len(),
{
    if outcomes.len() > 0 {
        lemma_update_step_progress(phase, outcomes[0], copy_stale);
        lemma_update_terminates(next_update_phase(phase, outcomes[0], copy_stale), outcomes.drop_first(), copy_stale);
    }
}

/// A client whose hash on disk is not the marker `TEST` counts as up to date,
/// whatever the server publishes.
pub proof fn lemma_client_current_unless_marked(published: Seq<char>, on_disk: Seq<char>)
    requires
        on_disk != "TEST"@,
    ensures
        client_is_current(published, on_disk),
{
}

/// A client marked `TEST` on disk is out of date unless the server publishes
/// `TEST` as the client's hash.
pub proof fn lemma_marked_client_outdated(published: Seq<char>, on_disk: Seq<char>)
    requires
        on_disk == seq!['T', 'E', 'S', 'T'],
        published != on_disk,
    ensures
        !client_is_current(published, on_disk),
{
    reveal_strlit("TEST");
    assert(on_disk =~= "TEST"@);
}

/// The client is downloaded again only when it is out of date: the archive is
/// fetched only right after the outdated client was announced, and that
/// announcement opens a check only when the client is not current.
pub proof fn lemma_client_download_only_when_outdated(phase: UpdatePhase, ok: bool, copy_stale: bool, client_current: bool)
    ensures
        next_update_phase(phase, ok, copy_stale) == UpdatePhase::DownloadingClientArchive
            ==> phase == UpdatePhase::AnnouncingClientOutdated,
        first_update_phase(client_current) == UpdatePhase::AnnouncingClientOutdated <==> !client_current,
        next_update_phase(phase, ok, copy_stale) != UpdatePhase::AnnouncingClientOutdated,
{
}

/// The launcher copy in the data directory is overwritten only when it is
/// stale and the running executable was found and opened.
pub proof fn lemma_launcher_copy_only_when_stale(phase: UpdatePhase, ok: bool, copy_stale: bool)
    ensures
        next_update_phase(phase, ok, copy_stale) == UpdatePhase::LocatingExecutable
            ==> phase == UpdatePhase::ReportingLauncherStatus && copy_stale,
        next_update_phase(phase, ok, copy_stale) == UpdatePhase::OpeningExecutable
            ==> phase == UpdatePhase::LocatingExecutable && ok,
        next_update_phase(phase, ok, copy_stale) == UpdatePhase::Pausing
            ==> phase == UpdatePhase::OpeningExecutable && ok,
        next_update_phase(phase, ok, copy_stale) == UpdatePhase::CopyingLauncher ==> phase == UpdatePhase::Pausing,
{
}

/// A failed extraction never leads to writing the client executable: after it
/// the client directory is removed and the error reported.
pub proof fn lemma_player_written_only_after_extraction(phase: UpdatePhase, ok: bool, copy_stale: bool)
    ensures
        next_update_phase(phase, ok, copy_stale) == UpdatePhase::AnnouncingExtracted
            ==> phase == UpdatePhase::ExtractingClient && ok,
        next_update_phase(phase, ok, copy_stale) == UpdatePhase::DownloadingPlayer
            ==> phase == UpdatePhase::AnnouncingExtracted,
        phase == UpdatePhase::ExtractingClient && !ok
            ==> next_update_phase(phase, ok, copy_stale) == UpdatePhase::CleaningFailedExtraction,
{
}


/// The run from `phase` with the given outcomes passes through `target`.
pub open spec fn update_visits(phase: UpdatePhase, outcomes: Seq<bool>, copy_stale: bool, target: UpdatePhase) -> bool
    decreases outcomes.len(),
{
    phase == target || (outcomes.len() > 0 && update_visits(
        next_update_phase(phase, outcomes[0], copy_stale),
        outcomes.drop_first(),
        copy_stale,
        target,
    ))
}

/// A check that finds the client current never downloads the client archive,
/// whatever the outcomes of its actions.
pub proof fn lemma_current_client_never_downloaded(outcomes: Seq<bool>, copy_stale: bool)
    ensures
        !update_visits(first_update_phase(true), outcomes, copy_stale, UpdatePhase::DownloadingClientArchive),
{
    lemma_no_download_after(first_update_phase(true), outcomes, copy_stale);
}

proof fn lemma_no_download_after(phase: UpdatePhase, outcomes: Seq<bool>, copy_stale: bool)
    requires
        phase != UpdatePhase::AnnouncingClientOutdated,
        phase != UpdatePhase::DownloadingClientArchive,
    ensures
        !update_visits(phase, outcomes, copy_stale, UpdatePhase::DownloadingClientArchive),
    decreases outcomes.len(),
{
    if outcomes.len() > 0 {
        lemma_no_download_after(next_update_phase(phase, outcomes[0], copy_stale), outcomes.drop_first(), copy_stale);
    }
}

/// The phases that refresh the launcher copy in the data directory.
pub open spec fn is_copy_phase(phase: UpdatePhase) -> bool {
    phase == UpdatePhase::LocatingExecutable || phase == UpdatePhase::OpeningExecutable
        || phase == UpdatePhase::Pausing || phase == UpdatePhase::CopyingLauncher
}

/// When the launcher copy in the data directory matches the launcher on disk,
/// a check never copies the launcher, whatever the outcomes of its actions.
pub proof fn lemma_matching_copy_never_overwritten(phase: UpdatePhase, outcomes: Seq<bool>)
    requires
        !is_copy_phase(phase),
    ensures
        !update_visits(phase, outcomes, false, UpdatePhase::CopyingLauncher),
    decreases outcomes.len(),
{
    if outcomes.len() > 0 {
        lemma_matching_copy_never_overwritten(next_update_phase(phase, outcomes[0], false), outcomes.drop_first());
    }
}


/// Whether the launcher is current changes only the status line: every other
/// phase asks for the same action either way, and the status line is the
/// informational one exactly when the launcher is current.
pub proof fn lemma_launcher_status_only_affects_status_line(phase: UpdatePhase)
    ensures
        phase != UpdatePhase::ReportingLauncherStatus ==> update_action_for(phase, true) == update_action_for(phase, false),
        update_action_for(UpdatePhase::ReportingLauncherStatus, true) is LogInfo,
        update_action_for(UpdatePhase::ReportingLauncherStatus, false) is LogError,
{
}

/// A stale launcher copy is refreshed whenever the running executable is
/// found and opened, whether or not the launcher is current: after the status
/// line the check locates and opens the executable, pauses two seconds and
/// copies it, then finishes.
pub proof fn lemma_stale_copy_refreshed(launcher_current: bool, status_ok: bool, pause_ok: bool, copy_ok: bool)
    ensures
        ({
            let p1 = next_update_phase(UpdatePhase::ReportingLauncherStatus, status_ok, true);
            let p2 = next_update_phase(p1, true, true);
            let p3 = next_update_phase(p2, true, true);
            let p4 = next_update_phase(p3, pause_ok, true);
            &&& update_action_for(p1, launcher_current) == UpdateActionView::LocateExecutable
            &&& update_action_for(p2, launcher_current) == UpdateActionView::OpenExecutable
            &&& update_action_for(p3, launcher_current) == UpdateActionView::Pause(2)
            &&& update_action_for(p4, launcher_current) == UpdateActionView::CopyLauncher
            &&& update_action_for(next_update_phase(p4, copy_ok, true), launcher_current) == UpdateActionView::Finish
        }),
{
}

/// The check's state.
pub struct UpdateCheck {
    phase: UpdatePhase,
    launcher_current: bool,
    copy_stale: bool,
}

impl UpdateCheck {
    /// The current phase.
    pub closed spec fn spec_phase(&self) -> UpdatePhase {
        self.phase
    }

    /// The launcher on disk has the published hash.
    pub closed spec fn spec_launcher_current(&self) -> bool {
        self.launcher_current
    }

    /// The launcher copy in the data directory differs from the one on disk.
    pub closed spec fn spec_copy_stale(&self) -> bool {
        self.copy_stale
    }

    /// Starts a check against the published `hashes`, given the hashes of the
    /// client and the running launcher on disk and of the launcher copy in the
    /// data directory.
    pub fn new(
        hashes: &HashResponse,
        client_hash_on_disk: &str,
        launcher_hash_on_disk: &str,
        launcher_hash_in_data_dir: &str,
    ) -> (res: UpdateCheck)
        ensures
            res.spec_phase() == first_update_phase(
                client_is_current(hashes.client_hash@, client_hash_on_disk@),
            ),
            res.spec_launcher_current() == (hashes.launcher_hash@ == launcher_hash_on_disk@),
            res.spec_copy_stale() == (launcher_hash_on_disk@ != launcher_hash_in_data_dir@),
    {
        let client_on_disk = String::from_str(client_hash_on_disk);
        let launcher_on_disk = String::from_str(launcher_hash_on_disk);
        let launcher_in_data_dir = String::from_str(launcher_hash_in_data_dir);
        let test_marker = String::from_str("TEST");
        let client_current = hashes.client_hash == client_on_disk || !(client_on_disk == test_marker);
        let phase = if client_current {
            UpdatePhase::AnnouncingClientCurrent
        } else {
            UpdatePhase::AnnouncingClientOutdated
        };
        UpdateCheck {
            phase,
            launcher_current: hashes.launcher_hash == launcher_on_disk,
            copy_stale: !(launcher_on_disk == launcher_in_data_dir),
        }
    }

    /// Starts the check as the launcher runs it: the comparisons use the
    /// placeholder `none` for the hash of the client on disk and for that of
    /// the launcher copy in the data directory, and the real hash of the
    /// running launcher. So the client always counts as up to date, and the
    /// copy is refreshed whenever the running launcher's hash is not `none`.
    pub fn for_running_launcher(hashes: &HashResponse, launcher_hash_on_disk: &str) -> (res: UpdateCheck)
        ensures
            res.spec_phase() == UpdatePhase::AnnouncingClientCurrent,
            res.spec_launcher_current() == (hashes.launcher_hash@ == launcher_hash_on_disk@),
            res.spec_copy_stale() == (launcher_hash_on_disk@ != "none"@),
    {
        let res = UpdateCheck::new(hashes, "none", launcher_hash_on_disk, "none");
        proof {
            reveal_strlit("none");
            reveal_strlit("TEST");
            assert("none"@ != "TEST"@) by {
                assert("none"@[0] != "TEST"@[0]);
            }
        }
        res
    }

    /// The current phase.
    pub fn phase(&self) -> (res: UpdatePhase)
        ensures
            res == self.spec_phase(),
    {
        self.phase
    }

    /// The action to carry out now.
    pub fn action(&self) -> (res: UpdateAction)
        ensures
            res@ == update_action_for(self.spec_phase(), self.spec_launcher_current()),
    {
        match self.phase {
            UpdatePhase::AnnouncingClientCurrent => UpdateAction::LogInfo(String::from_str("Client is up-to-date!")),
            UpdatePhase::AnnouncingClientOutdated => UpdateAction::LogInfo(
                String::from_str("Client is out-of-date or corrupted, redownloading.."),
            ),
            UpdatePhase::DownloadingClientArchive => UpdateAction::DownloadArchive(
                String::from_str("http://setup.goober.biz/GooberClientE.zip"),
            ),
            UpdatePhase::RemovingClientDir => UpdateAction::RemoveClientDir,
            UpdatePhase::AnnouncingExtraction => UpdateAction::LogInfo(String::from_str("Extracting...")),
            UpdatePhase::ExtractingClient => UpdateAction::ExtractClient,
            UpdatePhase::AnnouncingExtracted => UpdateAction::LogInfo(String::from_str("Extraction finished!")),
            UpdatePhase::DownloadingPlayer => UpdateAction::DownloadPlayer(
                String::from_str("http://goober.biz/2016-RobloxAppE.exe"),
            ),
            UpdatePhase::WritingPlayer => UpdateAction::WritePlayer,
            UpdatePhase::AnnouncingPlayerInstalled => UpdateAction::LogInfo(
                String::from_str("Installation finished!"),
            ),
            UpdatePhase::CleaningFailedExtraction => UpdateAction::RemoveClientDir,
            UpdatePhase::ReportingExtractionError => UpdateAction::ReportExtractionError,
            UpdatePhase::ReportingLauncherStatus => if self.launcher_current {
                UpdateAction::LogInfo(String::from_str("Launcher is up-to-date."))
            } else {
                UpdateAction::LogError(String::from_str("Please re-download the launcher from the site."))
            },
            UpdatePhase::LocatingExecutable => UpdateAction::LocateExecutable,
            UpdatePhase::OpeningExecutable => UpdateAction::OpenExecutable,
            UpdatePhase::Pausing => UpdateAction::Pause(2),
            UpdatePhase::CopyingLauncher => UpdateAction::CopyLauncher,
            UpdatePhase::Done => UpdateAction::Finish,
        }
    }

    /// Takes the outcome of the current action and moves to the next phase.
    pub fn step(&mut self, ok: bool)
        ensures
            final(self).spec_phase() == next_update_phase(old(self).spec_phase(), ok, old(self).spec_copy_stale()),
            final(self).spec_launcher_current() == old(self).spec_launcher_current(),
            final(self).spec_copy_stale() == old(self).spec_copy_stale(),
    {
        let next = match self.phase {
            UpdatePhase::AnnouncingClientCurrent => UpdatePhase::ReportingLauncherStatus,
            UpdatePhase::AnnouncingClientOutdated => UpdatePhase::DownloadingClientArchive,
            UpdatePhase::DownloadingClientArchive => UpdatePhase::RemovingClientDir,
            UpdatePhase::RemovingClientDir => UpdatePhase::AnnouncingExtraction,
            UpdatePhase::AnnouncingExtraction => UpdatePhase::ExtractingClient,
            UpdatePhase::ExtractingClient => if ok {
                UpdatePhase::AnnouncingExtracted
            } else {
                UpdatePhase::CleaningFailedExtraction
            },
            UpdatePhase::AnnouncingExtracted => UpdatePhase::DownloadingPlayer,
            UpdatePhase::DownloadingPlayer => UpdatePhase::WritingPlayer,
            UpdatePhase::WritingPlayer => UpdatePhase::AnnouncingPlayerInstalled,
            UpdatePhase::AnnouncingPlayerInstalled => UpdatePhase::ReportingLauncherStatus,
            UpdatePhase::CleaningFailedExtraction => UpdatePhase::ReportingExtractionError,
            UpdatePhase::ReportingExtractionError => UpdatePhase::ReportingLauncherStatus,
            UpdatePhase::ReportingLauncherStatus => if self.copy_stale {
                UpdatePhase::LocatingExecutable
            } else {
                UpdatePhase::Done
            },
            UpdatePhase::LocatingExecutable => if ok {
                UpdatePhase::OpeningExecutable
            } else {
                UpdatePhase::Done
            },
            UpdatePhase::OpeningExecutable => if ok {
                UpdatePhase::Pausing
            } else {
                UpdatePhase::Done
            },
            UpdatePhase::Pausing => UpdatePhase::CopyingLauncher,
            UpdatePhase::CopyingLauncher => UpdatePhase::Done,
            UpdatePhase::Done => UpdatePhase::Done,
        };
        self.phase = next;
    }
}

} // verus!
