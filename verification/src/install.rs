//! The installer: copies the launcher into the user's data directory,
//! installs the game client when it is missing, and registers the
//! `goober-player` URI scheme.
//!
//! The installer is a machine that names the next outside action and, once
//! the caller has carried it out, takes its outcome (`true` for success or
//! "present", `false` otherwise; actions without an outcome report `true`).

use vstd::prelude::*;
use crate::registry::{
    RegistryStep, RegistryStepView, protocol_registration, registration_steps, scheme_name, steps_view,
    uri_scheme,
};

verus! {

/// Where the installer stands: each phase waits for the outcome of one action.
#[derive(Debug, Clone, Copy, PartialEq, Eq, Structural)]
pub enum InstallPhase {
    /// Does the launcher's data directory exist?
    CheckingDataDir,
    /// Create the data directory.
    CreatingDataDir,
    /// Does the client directory (`Roblox/2016`) exist?
    CheckingClientDir,
    /// Does the installed launcher executable exist?
    CheckingLauncher,
    /// Can the path of the running executable be found?
    LocatingExecutable,
    /// Can the running executable be opened?
    OpeningExecutable,
    /// Tell the user that the running executable could not be opened.
    ReportingUnreadableExecutable,
    /// Copy the running executable into the data directory.
    CopyingExecutable,
    /// Announce that installation starts.
    AnnouncingInstall,
    /// Second look: does the client directory exist?
    RecheckingClientDir,
    /// Second look: does the installed launcher exist?
    RecheckingLauncher,
    /// Create the parent of the client directory.
    CreatingClientParentDir,
    /// Download the client archive.
    DownloadingClient,
    /// Extract the client archive into the client directory.
    ExtractingClient,
    /// Announce that the client is installed.
    AnnouncingInstalled,
    /// Remove the client directory after a failed extraction.
    RemovingClientDir,
    /// Tell the user why extraction failed.
    ReportingExtractionError,
    /// Create the registry key of the URI scheme.
    CreatingSchemeKey,
    /// Write the scheme's registration below its key.
    WritingRegistry,
    /// Tell the user why the scheme's key could not be created.
    ReportingRegistryError,
    /// Installation failed for good: stop with an error.
    Aborted,
    /// Nothing left to do.
    Done,
}

/// What the caller does next.
#[derive(Debug, Clone, PartialEq, Eq)]
pub enum InstallAction {
    CheckDataDir,
    CreateDataDir,
    CheckClientDir,
    CheckLauncher,
    LocateExecutable,
    OpenExecutable,
    CopyExecutable,
    CreateClientParentDir,
    /// Download the archive at this address (a failed download is fatal).
    DownloadClient(String),
    ExtractClient,
    RemoveClientDir,
    /// Log an informational line with this message.
    LogInfo(String),
    /// Print this message on the error stream.
    ReportError(String),
    /// Print the extraction error on the error stream.
    ReportExtractionError,
    /// Create the registry key of this URI scheme under the user's classes.
    CreateSchemeKey(String),
    /// Print the registry error on the error stream.
    ReportRegistryError,
    /// Carry out these registry steps on the scheme's key.
    WriteRegistry(Vec<RegistryStep>),
    /// Stop with this message.
    Abort(String),
    /// Installation is over.
    Finish,
}

/// `InstallAction` with its strings as character sequences.
pub enum InstallActionView {
    CheckDataDir,
    CreateDataDir,
    CheckClientDir,
    CheckLauncher,
    LocateExecutable,
    OpenExecutable,
    CopyExecutable,
    CreateClientParentDir,
    DownloadClient(Seq<char>),
    ExtractClient,
    RemoveClientDir,
    LogInfo(Seq<char>),
    ReportError(Seq<char>),
    ReportExtractionError,
    CreateSchemeKey(Seq<char>),
    ReportRegistryError,
    WriteRegistry(Seq<RegistryStepView>),
    Abort(Seq<char>),
    Finish,
}

impl View for InstallAction {
    type V = InstallActionView;

    open spec fn view(&self) -> InstallActionView {
        match self {
            InstallAction::CheckDataDir => InstallActionView::CheckDataDir,
            InstallAction::CreateDataDir => InstallActionView::CreateDataDir,
            InstallAction::CheckClientDir => InstallActionView::CheckClientDir,
            InstallAction::CheckLauncher => InstallActionView::CheckLauncher,
            InstallAction::LocateExecutable => InstallActionView::LocateExecutable,
            InstallAction::OpenExecutable => InstallActionView::OpenExecutable,
            InstallAction::CopyExecutable => InstallActionView::CopyExecutable,
            InstallAction::CreateClientParentDir => InstallActionView::CreateClientParentDir,
            InstallAction::DownloadClient(url) => InstallActionView::DownloadClient(url@),
            InstallAction::ExtractClient => InstallActionView::ExtractClient,
            InstallAction::RemoveClientDir => InstallActionView::RemoveClientDir,
            InstallAction::LogInfo(m) => InstallActionView::LogInfo(m@),
            InstallAction::ReportError(m) => InstallActionView::ReportError(m@),
            InstallAction::ReportExtractionError => InstallActionView::ReportExtractionError,
            InstallAction::CreateSchemeKey(s) => InstallActionView::CreateSchemeKey(s@),
            InstallAction::ReportRegistryError => InstallActionView::ReportRegistryError,
            InstallAction::WriteRegistry(steps) => InstallActionView::WriteRegistry(steps_view(steps@)),
            InstallAction::Abort(m) => InstallActionView::Abort(m@),
            InstallAction::Finish => InstallActionView::Finish,
        }
    }
}

/// The phase that follows `phase` when its action had outcome `ok`.
pub open spec fn next_install_phase(phase: InstallPhase, ok: bool) -> InstallPhase {
    match phase {
        InstallPhase::CheckingDataDir => if ok {
            InstallPhase::CheckingClientDir
        } else {
            InstallPhase::CreatingDataDir
        },
        InstallPhase::CreatingDataDir => InstallPhase::CheckingClientDir,
        InstallPhase::CheckingClientDir => if ok {
            InstallPhase::CheckingLauncher
        } else {
            InstallPhase::LocatingExecutable
        },
        InstallPhase::CheckingLauncher => if ok {
            InstallPhase::CreatingSchemeKey
        } else {
            InstallPhase::LocatingExecutable
        },
        InstallPhase::LocatingExecutable => if ok {
            InstallPhase::OpeningExecutable
        } else {
            InstallPhase::CreatingSchemeKey
        },
        InstallPhase::OpeningExecutable => if ok {
            InstallPhase::CopyingExecutable
        } else {
            InstallPhase::ReportingUnreadableExecutable
        },
        InstallPhase::ReportingUnreadableExecutable => InstallPhase::CreatingSchemeKey,
        InstallPhase::CopyingExecutable => if ok {
            InstallPhase::AnnouncingInstall
        } else {
            InstallPhase::Aborted
        },
        InstallPhase::AnnouncingInstall => InstallPhase::RecheckingClientDir,
        InstallPhase::RecheckingClientDir => if ok {
            InstallPhase::RecheckingLauncher
        } else {
            InstallPhase::CreatingClientParentDir
        },
        InstallPhase::RecheckingLauncher => if ok {
            InstallPhase::CreatingSchemeKey
        } else {
            InstallPhase::CreatingClientParentDir
        },
        InstallPhase::CreatingClientParentDir => InstallPhase::DownloadingClient,
        InstallPhase::DownloadingClient => InstallPhase::ExtractingClient,
        InstallPhase::ExtractingClient => if ok {
            InstallPhase::AnnouncingInstalled
        } else {
            InstallPhase::RemovingClientDir
        },
        InstallPhase::AnnouncingInstalled => InstallPhase::CreatingSchemeKey,
        InstallPhase::RemovingClientDir => InstallPhase::ReportingExtractionError,
        InstallPhase::ReportingExtractionError => InstallPhase::CreatingSchemeKey,
        InstallPhase::CreatingSchemeKey => if ok {
            InstallPhase::WritingRegistry
        } else {
            InstallPhase::ReportingRegistryError
        },
        InstallPhase::WritingRegistry => InstallPhase::Done,
        InstallPhase::ReportingRegistryError => InstallPhase::Done,
        InstallPhase::Aborted => InstallPhase::Aborted,
        InstallPhase::Done => InstallPhase::Done,
    }
}

/// The action that `phase` waits on, for an installation whose launcher is to
/// live at `launcher_path`.
pub open spec fn install_action_for(phase: InstallPhase, launcher_path: Seq<char>) -> InstallActionView {
    match phase {
        InstallPhase::CheckingDataDir => InstallActionView::CheckDataDir,
        InstallPhase::CreatingDataDir => InstallActionView::CreateDataDir,
        InstallPhase::CheckingClientDir => InstallActionView::CheckClientDir,
        InstallPhase::CheckingLauncher => InstallActionView::CheckLauncher,
        InstallPhase::LocatingExecutable => InstallActionView::LocateExecutable,
        InstallPhase::OpeningExecutable => InstallActionView::OpenExecutable,
        InstallPhase::ReportingUnreadableExecutable => InstallActionView::ReportError(
            "executable path couldnt be grabbed"@,
        ),
        InstallPhase::CopyingExecutable => InstallActionView::CopyExecutable,
        InstallPhase::AnnouncingInstall => InstallActionView::LogInfo("Starting installation.."@),
        InstallPhase::RecheckingClientDir => InstallActionView::CheckClientDir,
        InstallPhase::RecheckingLauncher => InstallActionView::CheckLauncher,
        InstallPhase::CreatingClientParentDir => InstallActionView::CreateClientParentDir,
        InstallPhase::DownloadingClient => InstallActionView::DownloadClient(
            "http://setup.goober.biz/GooberClient.zip"@,
        ),
        InstallPhase::ExtractingClient => InstallActionView::ExtractClient,
        InstallPhase::AnnouncingInstalled => InstallActionView::LogInfo("Installation finished.."@),
        InstallPhase::RemovingClientDir => InstallActionView::RemoveClientDir,
        InstallPhase::ReportingExtractionError => InstallActionView::ReportExtractionError,
        InstallPhase::CreatingSchemeKey => InstallActionView::CreateSchemeKey(uri_scheme()),
        InstallPhase::WritingRegistry => InstallActionView::WriteRegistry(registration_steps(launcher_path)),
        InstallPhase::ReportingRegistryError => InstallActionView::ReportRegistryError,
        InstallPhase::Aborted => InstallActionView::Abort("Unable to install, make a ticket for help."@),
        InstallPhase::Done => InstallActionView::Finish,
    }
}


/// How far a phase is from the end of the installation.
pub open spec fn install_rank(phase: InstallPhase) -> nat {
    match phase {
        InstallPhase::CheckingDataDir => 17,
        InstallPhase::CreatingDataDir => 16,
        InstallPhase::CheckingClientDir => 15,
        InstallPhase::CheckingLauncher => 14,
        InstallPhase::LocatingExecutable => 13,
        InstallPhase::OpeningExecutable => 12,
        InstallPhase::CopyingExecutable => 11,
        InstallPhase::AnnouncingInstall => 10,
        InstallPhase::RecheckingClientDir => 9,
        InstallPhase::RecheckingLauncher => 8,
        InstallPhase::CreatingClientParentDir => 7,
        InstallPhase::DownloadingClient => 6,
        InstallPhase::ExtractingClient => 5,
        InstallPhase::RemovingClientDir => 4,
        InstallPhase::ReportingExtractionError => 3,
        InstallPhase::AnnouncingInstalled => 3,
        InstallPhase::ReportingUnreadableExecutable => 3,
        InstallPhase::CreatingSchemeKey => 2,
        InstallPhase::WritingRegistry => 1,
        InstallPhase::ReportingRegistryError => 1,
        InstallPhase::Aborted => 0,
        InstallPhase::Done => 0,
    }
}

/// The installation is over, one way or the other.
pub open spec fn install_finished(phase: InstallPhase) -> bool {
    phase == InstallPhase::Aborted || phase == InstallPhase::Done
}

/// The phase reached from `phase` when the actions have the given outcomes,
/// in order.
pub open spec fn run_install(phase: InstallPhase, outcomes: Seq<bool>) -> InstallPhase
    decreases outcomes.len(),
{
    if outcomes.len() == 0 {
        phase
    } else {
        run_install(next_install_phase(phase, outcomes[0]), outcomes.drop_first())
    }
}

/// The run from `phase` with the given outcomes passes through `target`.
pub open spec fn install_visits(phase: InstallPhase, outcomes: Seq<bool>, target: InstallPhase) -> bool
    decreases outcomes.len(),
{
    phase == target || (outcomes.len() > 0 && install_visits(
        next_install_phase(phase, outcomes[0]),
        outcomes.drop_first(),
        target,
    ))
}

/// Each outcome brings an unfinished installation closer to its end, and a
/// finished installation stays as it is.
pub proof fn lemma_install_step_progress(phase: InstallPhase, ok: bool)
    ensures
        install_finished(phase) ==> next_install_phase(phase, ok) == phase,
        !install_finished(phase) ==> install_rank(next_install_phase(phase, ok)) < install_rank(phase),
{
}

/// Every installation ends: from any phase, as many outcomes as its rank (at
/// most 17) lead to a finished phase.
pub proof fn lemma_install_terminates(phase: InstallPhase, outcomes: Seq<bool>)
    requires
        outcomes.len() >= install_rank(phase),
    ensures
        install_finished(run_install(phase, outcomes)),
    decreases outcomes.len(),
{
    if outcomes.len() > 0 {
        lemma_install_step_progress(phase, outcomes[0]);
        lemma_install_terminates(next_install_phase(phase, outcomes[0]), outcomes.drop_first());
    }
}

/// The installation aborts only when copying the launcher into the data
/// directory fails.
pub proof fn lemma_install_aborts_only_on_failed_copy(phase: InstallPhase, ok: bool)
    requires
        phase != InstallPhase::Aborted,
        next_install_phase(phase, ok) == InstallPhase::Aborted,
    ensures
        phase == InstallPhase::CopyingExecutable && !ok,
{
}

/// The launcher is copied into place (and the running executable looked up)
/// only when the client directory or the installed launcher is missing.
pub proof fn lemma_install_only_when_missing(phase: InstallPhase, ok: bool)
    requires
        next_install_phase(phase, ok) == InstallPhase::LocatingExecutable,
    ensures
        phase == InstallPhase::CheckingClientDir || phase == InstallPhase::CheckingLauncher,
        !ok,
{
}

/// The client archive is downloaded only when the second look finds the
/// client directory or the installed launcher missing.
pub proof fn lemma_download_only_when_missing(phase: InstallPhase, ok: bool)
    requires
        next_install_phase(phase, ok) == InstallPhase::CreatingClientParentDir,
    ensures
        phase == InstallPhase::RecheckingClientDir || phase == InstallPhase::RecheckingLauncher,
        !ok,
{
}

proof fn lemma_aborted_stays(outcomes: Seq<bool>)
    ensures
        run_install(InstallPhase::Aborted, outcomes) == InstallPhase::Aborted,
    decreases outcomes.len(),
{
    if outcomes.len() > 0 {
        lemma_aborted_stays(outcomes.drop_first());
    }
}

/// Every installation that does not abort registers the URI scheme: a run
/// that ends in `Done` from a phase before the registration passes through
/// `CreatingSchemeKey`.
pub proof fn lemma_finished_install_registers(phase: InstallPhase, outcomes: Seq<bool>)
    requires
        install_rank(phase) > install_rank(InstallPhase::CreatingSchemeKey),
        run_install(phase, outcomes) == InstallPhase::Done,
    ensures
        install_visits(phase, outcomes, InstallPhase::CreatingSchemeKey),
    decreases outcomes.len(),
{
    if outcomes.len() > 0 {
        let next = next_install_phase(phase, outcomes[0]);
        if next == InstallPhase::Aborted {
            lemma_aborted_stays(outcomes.drop_first());
        } else if next != InstallPhase::CreatingSchemeKey {
            lemma_finished_install_registers(next, outcomes.drop_first());
        }
        assert(install_visits(next, outcomes.drop_first(), InstallPhase::CreatingSchemeKey));
    }
}


/// A run never goes back to a phase further from the end than where it
/// started.
pub proof fn lemma_install_visits_no_earlier_phase(phase: InstallPhase, outcomes: Seq<bool>, target: InstallPhase)
    requires
        install_visits(phase, outcomes, target),
    ensures
        install_rank(target) <= install_rank(phase),
    decreases outcomes.len(),
{
    if phase != target {
        let next = next_install_phase(phase, outcomes[0]);
        lemma_install_step_progress(phase, outcomes[0]);
        lemma_install_visits_no_earlier_phase(next, outcomes.drop_first(), target);
    }
}

/// When the client directory and the installed launcher are both there, the
/// installer goes straight to the registration: it neither copies the
/// launcher nor downloads the client, whatever the later outcomes.
pub proof fn lemma_complete_install_left_alone(outcomes: Seq<bool>)
    ensures
        next_install_phase(InstallPhase::CheckingLauncher, true) == InstallPhase::CreatingSchemeKey,
        !install_visits(InstallPhase::CreatingSchemeKey, outcomes, InstallPhase::CopyingExecutable),
        !install_visits(InstallPhase::CreatingSchemeKey, outcomes, InstallPhase::DownloadingClient),
{
    if install_visits(InstallPhase::CreatingSchemeKey, outcomes, InstallPhase::CopyingExecutable) {
        lemma_install_visits_no_earlier_phase(InstallPhase::CreatingSchemeKey, outcomes, InstallPhase::CopyingExecutable);
    }
    if install_visits(InstallPhase::CreatingSchemeKey, outcomes, InstallPhase::DownloadingClient) {
        lemma_install_visits_no_earlier_phase(InstallPhase::CreatingSchemeKey, outcomes, InstallPhase::DownloadingClient);
    }
}


/// The actions that an installation whose launcher lives at `launcher_path`
/// asks for, from `phase` on, when the actions have the given outcomes in
/// order: one action per phase, up to the finishing action (`Finish` or
/// `Abort`), or up to the first action whose outcome is not given.
pub open spec fn install_trace(phase: InstallPhase, launcher_path: Seq<char>, outcomes: Seq<bool>) -> Seq<InstallActionView>
    decreases outcomes.len(),
{
    if install_finished(phase) || outcomes.len() == 0 {
        seq![install_action_for(phase, launcher_path)]
    } else {
        seq![install_action_for(phase, launcher_path)] + install_trace(
            next_install_phase(phase, outcomes[0]),
            launcher_path,
            outcomes.drop_first(),
        )
    }
}

/// The actions that leave files, downloads and the launcher copy alone:
/// looking, logging, reporting, and the registry.
pub open spec fn leaves_files_alone(action: InstallActionView) -> bool {
    match action {
        InstallActionView::CheckDataDir => true,
        InstallActionView::CheckClientDir => true,
        InstallActionView::CheckLauncher => true,
        InstallActionView::LogInfo(_) => true,
        InstallActionView::ReportError(_) => true,
        InstallActionView::ReportExtractionError => true,
        InstallActionView::CreateSchemeKey(_) => true,
        InstallActionView::ReportRegistryError => true,
        InstallActionView::WriteRegistry(_) => true,
        InstallActionView::Finish => true,
        _ => false,
    }
}

/// The run of an installation that finds everything in place: the data
/// directory, the client directory and the launcher exist, and the scheme's
/// key can be created. It asks for exactly these actions, whatever the
/// outcome of writing the registry: three looks, the scheme's key, the
/// registration for `launcher_path`, and the end.
pub open spec fn complete_install_trace(launcher_path: Seq<char>) -> Seq<InstallActionView> {
    seq![
        InstallActionView::CheckDataDir,
        InstallActionView::CheckClientDir,
        InstallActionView::CheckLauncher,
        InstallActionView::CreateSchemeKey(uri_scheme()),
        InstallActionView::WriteRegistry(registration_steps(launcher_path)),
        InstallActionView::Finish,
    ]
}

/// An installation that finds the data directory, the client directory and
/// the launcher in place, and creates the scheme's key, asks for exactly
/// `complete_install_trace`, whatever the later outcomes: it copies nothing,
/// downloads nothing and only rewrites the registration.
pub proof fn lemma_complete_install_trace(launcher_path: Seq<char>, outcomes: Seq<bool>)
    requires
        outcomes.len() >= 5,
        outcomes[0],
        outcomes[1],
        outcomes[2],
        outcomes[3],
    ensures
        install_trace(InstallPhase::CheckingDataDir, launcher_path, outcomes) == complete_install_trace(launcher_path),
        forall|i: int| 0 <= i < complete_install_trace(launcher_path).len()
            ==> leaves_files_alone(#[trigger] complete_install_trace(launcher_path)[i]),
{
    let o1 = outcomes.drop_first();
    let o2 = o1.drop_first();
    let o3 = o2.drop_first();
    let o4 = o3.drop_first();
    let o5 = o4.drop_first();
    assert(o1[0] == outcomes[1] && o2[0] == outcomes[2] && o3[0] == outcomes[3]);
    let t5 = install_trace(InstallPhase::Done, launcher_path, o5);
    assert(t5 =~= seq![InstallActionView::Finish]);
    let t4 = install_trace(InstallPhase::WritingRegistry, launcher_path, o4);
    assert(t4 =~= seq![InstallActionView::WriteRegistry(registration_steps(launcher_path))] + t5);
    let t3 = install_trace(InstallPhase::CreatingSchemeKey, launcher_path, o3);
    assert(t3 =~= seq![InstallActionView::CreateSchemeKey(uri_scheme())] + t4);
    let t2 = install_trace(InstallPhase::CheckingLauncher, launcher_path, o2);
    assert(t2 =~= seq![InstallActionView::CheckLauncher] + t3);
    let t1 = install_trace(InstallPhase::CheckingClientDir, launcher_path, o1);
    assert(t1 =~= seq![InstallActionView::CheckClientDir] + t2);
    assert(install_trace(InstallPhase::CheckingDataDir, launcher_path, outcomes) =~= seq![
        InstallActionView::CheckDataDir,
    ] + t1);
    assert(install_trace(InstallPhase::CheckingDataDir, launcher_path, outcomes) =~= complete_install_trace(
        launcher_path,
    ));
}

/// Whatever an installation does, the registration it writes is the one for
/// its launcher path.
pub proof fn lemma_trace_registers_launcher_path(
    phase: InstallPhase,
    launcher_path: Seq<char>,
    outcomes: Seq<bool>,
    i: int,
)
    requires
        0 <= i < install_trace(phase, launcher_path, outcomes).len(),
        install_trace(phase, launcher_path, outcomes)[i] is WriteRegistry,
    ensures
        install_trace(phase, launcher_path, outcomes)[i] == InstallActionView::WriteRegistry(
            registration_steps(launcher_path),
        ),
    decreases outcomes.len(),
{
    if !(install_finished(phase) || outcomes.len() == 0) && i > 0 {
        let rest = install_trace(next_install_phase(phase, outcomes[0]), launcher_path, outcomes.drop_first());
        assert(install_trace(phase, launcher_path, outcomes)[i] == rest[i - 1]);
        lemma_trace_registers_launcher_path(
            next_install_phase(phase, outcomes[0]),
            launcher_path,
            outcomes.drop_first(),
            i - 1,
        );
    }
}

/// Installing a second time changes nothing: once a first installation has
/// written the registration (whatever else it did), a second one with the
/// same launcher path that finds the client and the launcher in place and
/// creates the scheme's key copies and downloads nothing, and writes exactly
/// the registration the first one wrote.
pub proof fn lemma_second_install_changes_nothing(
    launcher_path: Seq<char>,
    first: Seq<bool>,
    i: int,
    second: Seq<bool>,
)
    requires
        0 <= i < install_trace(InstallPhase::CheckingDataDir, launcher_path, first).len(),
        install_trace(InstallPhase::CheckingDataDir, launcher_path, first)[i] is WriteRegistry,
        second.len() >= 5,
        second[0],
        second[1],
        second[2],
        second[3],
    ensures
        install_trace(InstallPhase::CheckingDataDir, launcher_path, second) == complete_install_trace(launcher_path),
        forall|j: int| 0 <= j < complete_install_trace(launcher_path).len()
            ==> leaves_files_alone(#[trigger] complete_install_trace(launcher_path)[j]),
        complete_install_trace(launcher_path)[4] == install_trace(
            InstallPhase::CheckingDataDir,
            launcher_path,
            first,
        )[i],
{
    lemma_trace_registers_launcher_path(InstallPhase::CheckingDataDir, launcher_path, first, i);
    lemma_complete_install_trace(launcher_path, second);
}


/// The phases that fetch and unpack the client.
pub open spec fn fetches_client(phase: InstallPhase) -> bool {
    phase == InstallPhase::CreatingClientParentDir || phase == InstallPhase::DownloadingClient
        || phase == InstallPhase::ExtractingClient
}

/// The client is fetched only when a second look finds it or the launcher
/// missing: a run that reaches the download (or the extraction, or the
/// directory created for them) from a phase before them passed through a
/// re-check of the client directory or of the installed launcher whose
/// outcome was `false`. In particular, when both re-checks find everything in
/// place the installer goes on to register the scheme.
pub proof fn lemma_client_fetched_only_after_failed_recheck(phase: InstallPhase, outcomes: Seq<bool>, target: InstallPhase)
    requires
        fetches_client(target),
        !fetches_client(phase),
        install_visits(phase, outcomes, target),
    ensures
        exists|k: int|
            0 <= k < outcomes.len() && !outcomes[k] && (#[trigger] run_install(phase, outcomes.take(k))
                == InstallPhase::RecheckingClientDir || run_install(phase, outcomes.take(k))
                == InstallPhase::RecheckingLauncher),
        next_install_phase(InstallPhase::RecheckingClientDir, true) == InstallPhase::RecheckingLauncher,
        next_install_phase(InstallPhase::RecheckingLauncher, true) == InstallPhase::CreatingSchemeKey,
    decreases outcomes.len(),
{
    let next = next_install_phase(phase, outcomes[0]);
    let rest = outcomes.drop_first();
    if fetches_client(next) {
        assert(run_install(phase, outcomes.take(0)) == phase);
        assert(!outcomes[0]);
    } else {
        lemma_client_fetched_only_after_failed_recheck(next, rest, target);
        let k = choose|k: int|
            0 <= k < rest.len() && !rest[k] && (#[trigger] run_install(next, rest.take(k))
                == InstallPhase::RecheckingClientDir || run_install(next, rest.take(k))
                == InstallPhase::RecheckingLauncher);
        assert(outcomes.take(k + 1).drop_first() =~= rest.take(k));
        assert(outcomes.take(k + 1)[0] == outcomes[0]);
        assert(run_install(phase, outcomes.take(k + 1)) == run_install(next, rest.take(k)));
        assert(outcomes[k + 1] == rest[k]);
    }
}

/// The installer's state.
pub struct Installer {
    phase: InstallPhase,
    launcher_path: String,
}

impl Installer {
    /// The current phase.
    pub closed spec fn spec_phase(&self) -> InstallPhase {
        self.phase
    }

    /// Where the launcher is installed.
    pub closed spec fn spec_launcher_path(&self) -> Seq<char> {
        self.launcher_path@
    }

    /// Starts an installation whose launcher is to live at `launcher_path`.
    pub fn new(launcher_path: String) -> (res: Installer)
        ensures
            res.spec_phase() == InstallPhase::CheckingDataDir,
            res.spec_launcher_path() == launcher_path@,
    {
        Installer { phase: InstallPhase::CheckingDataDir, launcher_path }
    }

    /// The current phase.
    pub fn phase(&self) -> (res: InstallPhase)
        ensures
            res == self.spec_phase(),
    {
        self.phase
    }

    /// The action to carry out now.
    pub fn action(&self) -> (res: InstallAction)
        ensures
            res@ == install_action_for(self.spec_phase(), self.spec_launcher_path()),
    {
        match self.phase {
            InstallPhase::CheckingDataDir => InstallAction::CheckDataDir,
            InstallPhase::CreatingDataDir => InstallAction::CreateDataDir,
            InstallPhase::CheckingClientDir => InstallAction::CheckClientDir,
            InstallPhase::CheckingLauncher => InstallAction::CheckLauncher,
            InstallPhase::LocatingExecutable => InstallAction::LocateExecutable,
            InstallPhase::OpeningExecutable => InstallAction::OpenExecutable,
            InstallPhase::ReportingUnreadableExecutable => InstallAction::ReportError(
                String::from_str("executable path couldnt be grabbed"),
            ),
            InstallPhase::CopyingExecutable => InstallAction::CopyExecutable,
            InstallPhase::AnnouncingInstall => InstallAction::LogInfo(String::from_str("Starting installation..")),
            InstallPhase::RecheckingClientDir => InstallAction::CheckClientDir,
            InstallPhase::RecheckingLauncher => InstallAction::CheckLauncher,
            InstallPhase::CreatingClientParentDir => InstallAction::CreateClientParentDir,
            InstallPhase::DownloadingClient => InstallAction::DownloadClient(
                String::from_str("http://setup.goober.biz/GooberClient.zip"),
            ),
            InstallPhase::ExtractingClient => InstallAction::ExtractClient,
            InstallPhase::AnnouncingInstalled => InstallAction::LogInfo(String::from_str("Installation finished..")),
            InstallPhase::RemovingClientDir => InstallAction::RemoveClientDir,
            InstallPhase::ReportingExtractionError => InstallAction::ReportExtractionError,
            InstallPhase::CreatingSchemeKey => InstallAction::CreateSchemeKey(scheme_name()),
            InstallPhase::WritingRegistry => InstallAction::WriteRegistry(
                protocol_registration(self.launcher_path.as_str()),
            ),
            InstallPhase::ReportingRegistryError => InstallAction::ReportRegistryError,
            InstallPhase::Aborted => InstallAction::Abort(
                String::from_str("Unable to install, make a ticket for help."),
            ),
            InstallPhase::Done => InstallAction::Finish,
        }
    }

    /// Takes the outcome of the current action and moves to the next phase.
    pub fn step(&mut self, ok: bool)
        ensures
            final(self).spec_phase() == next_install_phase(old(self).spec_phase(), ok),
            final(self).spec_launcher_path() == old(self).spec_launcher_path(),
    {
        let next = match self.phase {
            InstallPhase::CheckingDataDir => if ok {
                InstallPhase::CheckingClientDir
            } else {
                InstallPhase::CreatingDataDir
            },
            InstallPhase::CreatingDataDir => InstallPhase::CheckingClientDir,
            InstallPhase::CheckingClientDir => if ok {
                InstallPhase::CheckingLauncher
            } else {
                InstallPhase::LocatingExecutable
            },
            InstallPhase::CheckingLauncher => if ok {
                InstallPhase::CreatingSchemeKey
            } else {
                InstallPhase::LocatingExecutable
            },
            InstallPhase::LocatingExecutable => if ok {
                InstallPhase::OpeningExecutable
            } else {
                InstallPhase::CreatingSchemeKey
            },
            InstallPhase::OpeningExecutable => if ok {
                InstallPhase::CopyingExecutable
            } else {
                InstallPhase::ReportingUnreadableExecutable
            },
            InstallPhase::ReportingUnreadableExecutable => InstallPhase::CreatingSchemeKey,
            InstallPhase::CopyingExecutable => if ok {
                InstallPhase::AnnouncingInstall
            } else {
                InstallPhase::Aborted
            },
            InstallPhase::AnnouncingInstall => InstallPhase::RecheckingClientDir,
            InstallPhase::RecheckingClientDir => if ok {
                InstallPhase::RecheckingLauncher
            } else {
                InstallPhase::CreatingClientParentDir
            },
            InstallPhase::RecheckingLauncher => if ok {
                InstallPhase::CreatingSchemeKey
            } else {
                InstallPhase::CreatingClientParentDir
            },
            InstallPhase::CreatingClientParentDir => InstallPhase::DownloadingClient,
            InstallPhase::DownloadingClient => InstallPhase::ExtractingClient,
            InstallPhase::ExtractingClient => if ok {
                InstallPhase::AnnouncingInstalled
            } else {
                InstallPhase::RemovingClientDir
            },
            InstallPhase::AnnouncingInstalled => InstallPhase::CreatingSchemeKey,
            InstallPhase::RemovingClientDir => InstallPhase::ReportingExtractionError,
            InstallPhase::ReportingExtractionError => InstallPhase::CreatingSchemeKey,
            InstallPhase::CreatingSchemeKey => if ok {
                InstallPhase::WritingRegistry
            } else {
                InstallPhase::ReportingRegistryError
            },
            InstallPhase::WritingRegistry => InstallPhase::Done,
            InstallPhase::ReportingRegistryError => InstallPhase::Done,
            InstallPhase::Aborted => InstallPhase::Aborted,
            InstallPhase::Done => InstallPhase::Done,
        };
        self.phase = next;
    }
}

} // verus!
