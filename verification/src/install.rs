//! The decisions of an offline installation, as a state machine: the caller
//! performs each action it is given (reading files, unpacking, running pip,
//! removing the temporary directory) and reports what came of it; the machine
//! checks the archive's checksum, finds the directory it unpacks into, checks
//! the Python version and builds the pip command.
use vstd::prelude::*;

use crate::config::{ConfigView, SerdeConfig};
use crate::digest::{checksums_agree, hash_matches, hex_lower, sha256_hex, sha256_of};
use crate::names::{
    config_file_path, config_file_path_seq, hash_file_name, hash_file_name_seq, install_arguments,
    install_arguments_seq, install_target_dir, install_target_dir_seq,
};
use crate::text::{text_from_bytes, text_of_bytes, views_of};
use crate::version::{check_python_version, python_check_seq, same_major_minor};

verus! {

/// What the user asked to install.
#[derive(Debug)]
pub struct InstallRequest {
    /// The package archive, such as `ipython.poit`.
    pub poitfile_name: String,
    /// The package version to install, or `null`.
    pub package_version: String,
    /// Whether to install whatever Python the package was made for.
    pub skip_python_version_check: bool,
}

pub struct RequestView {
    pub poitfile_name: Seq<char>,
    pub package_version: Seq<char>,
    pub skip_python_version_check: bool,
}

impl View for InstallRequest {
    type V = RequestView;

    open spec fn view(&self) -> RequestView {
        RequestView {
            poitfile_name: self.poitfile_name@,
            package_version: self.package_version@,
            skip_python_version_check: self.skip_python_version_check,
        }
    }
}

/// Where an installation stands.
#[derive(Debug)]
pub enum InstallStage {
    /// Waiting for the archive and its checksum file.
    CheckingHash,
    /// Waiting for the archive to be unpacked into the directory.
    Unpacking { target_dir: String },
    /// Waiting for the configuration stored in the archive.
    LoadingConfig { target_dir: String },
    /// Waiting for the local Python to report its version.
    CheckingPython { target_dir: String, package_python: String },
    /// Waiting for pip to install the package.
    Installing { target_dir: String },
    /// Waiting for the unpacked directory to be removed; remembers whether
    /// pip installed the package.
    Cleaning { installed: bool },
    /// Done.
    Finished,
    /// Stopped for good.
    Aborted,
}

pub enum InstallStageView {
    CheckingHash,
    Unpacking { target_dir: Seq<char> },
    LoadingConfig { target_dir: Seq<char> },
    CheckingPython { target_dir: Seq<char>, package_python: Seq<char> },
    Installing { target_dir: Seq<char> },
    Cleaning { installed: bool },
    Finished,
    Aborted,
}

impl View for InstallStage {
    type V = InstallStageView;

    open spec fn view(&self) -> InstallStageView {
        match self {
            InstallStage::CheckingHash => InstallStageView::CheckingHash,
            InstallStage::Unpacking { target_dir } => InstallStageView::Unpacking {
                target_dir: target_dir@,
            },
            InstallStage::LoadingConfig { target_dir } => InstallStageView::LoadingConfig {
                target_dir: target_dir@,
            },
            InstallStage::CheckingPython { target_dir, package_python } =>
                InstallStageView::CheckingPython {
                target_dir: target_dir@,
                package_python: package_python@,
            },
            InstallStage::Installing { target_dir } => InstallStageView::Installing {
                target_dir: target_dir@,
            },
            InstallStage::Cleaning { installed } => InstallStageView::Cleaning {
                installed: *installed,
            },
            InstallStage::Finished => InstallStageView::Finished,
            InstallStage::Aborted => InstallStageView::Aborted,
        }
    }
}

/// What the caller reports after performing an action.
#[derive(Debug)]
pub enum InstallEvent {
    /// The archive's bytes and those of its checksum file.
    FilesRead { package_bytes: Vec<u8>, hash_bytes: Vec<u8> },
    /// The archive was unpacked.
    Unpacked,
    /// The configuration stored in the archive.
    ConfigLoaded { config: SerdeConfig },
    /// What `python3 --version` wrote to its standard output.
    PythonReported { stdout: Vec<u8> },
    /// pip ran; `succeeded` tells whether it exited with success.
    Installed { succeeded: bool },
    /// The unpacked directory was removed.
    Cleaned,
}

pub enum InstallEventView {
    FilesRead { package_bytes: Seq<u8>, hash_bytes: Seq<u8> },
    Unpacked,
    ConfigLoaded { config: ConfigView },
    PythonReported { stdout: Seq<u8> },
    Installed { succeeded: bool },
    Cleaned,
}

impl View for InstallEvent {
    type V = InstallEventView;

    open spec fn view(&self) -> InstallEventView {
        match self {
            InstallEvent::FilesRead { package_bytes, hash_bytes } => InstallEventView::FilesRead {
                package_bytes: package_bytes@,
                hash_bytes: hash_bytes@,
            },
            InstallEvent::Unpacked => InstallEventView::Unpacked,
            InstallEvent::ConfigLoaded { config } => InstallEventView::ConfigLoaded {
                config: config@,
            },
            InstallEvent::PythonReported { stdout } => InstallEventView::PythonReported {
                stdout: stdout@,
            },
            InstallEvent::Installed { succeeded } => InstallEventView::Installed {
                succeeded: *succeeded,
            },
            InstallEvent::Cleaned => InstallEventView::Cleaned,
        }
    }
}

/// Why an installation stopped.
#[derive(Debug)]
pub enum InstallRefusal {
    /// The archive's checksum is not the one stored beside it.
    HashMismatch { computed: String, stored: String },
    /// The archive's name holds no `.`, so there is no directory to unpack into.
    BadFileName,
    /// The Python versions could not be read or compared.
    UnreadablePythonVersion,
    /// pip did not install the package; the unpacked directory was removed.
    PipFailed,
    /// The caller reported something the installation was not waiting for.
    UnexpectedEvent,
}

pub enum InstallRefusalView {
    HashMismatch { computed: Seq<char>, stored: Seq<char> },
    BadFileName,
    UnreadablePythonVersion,
    PipFailed,
    UnexpectedEvent,
}

impl View for InstallRefusal {
    type V = InstallRefusalView;

    open spec fn view(&self) -> InstallRefusalView {
        match self {
            InstallRefusal::HashMismatch { computed, stored } => InstallRefusalView::HashMismatch {
                computed: computed@,
                stored: stored@,
            },
            InstallRefusal::BadFileName => InstallRefusalView::BadFileName,
            InstallRefusal::UnreadablePythonVersion => InstallRefusalView::UnreadablePythonVersion,
            InstallRefusal::PipFailed => InstallRefusalView::PipFailed,
            InstallRefusal::UnexpectedEvent => InstallRefusalView::UnexpectedEvent,
        }
    }
}

/// What the caller is to do next.
#[derive(Debug)]
pub enum InstallAction {
    /// Read the archive's bytes and the text of its checksum file.
    ReadFiles { package_file: String, hash_file: String },
    /// Create `target_dir` and unpack the archive into it.
    Unpack { archive: String, target_dir: String },
    /// Read the configuration file at `path`.
    LoadConfig { path: String },
    /// Run `python3 --version`.
    QueryPython,
    /// Run pip with these arguments; first warn that the package was made for
    /// another Python (its version, then the local one) when that is given.
    RunPip { args: Vec<String>, python_mismatch: Option<(String, String)> },
    /// Remove the unpacked directory.
    RemoveDir { dir: String },
    /// The installation is complete.
    Finish,
    /// Stop the installation.
    Abort { reason: InstallRefusal },
    /// Nothing is left to do.
    Idle,
}

pub enum InstallActionView {
    ReadFiles { package_file: Seq<char>, hash_file: Seq<char> },
    Unpack { archive: Seq<char>, target_dir: Seq<char> },
    LoadConfig { path: Seq<char> },
    QueryPython,
    RunPip { args: Seq<Seq<char>>, python_mismatch: Option<(Seq<char>, Seq<char>)> },
    RemoveDir { dir: Seq<char> },
    Finish,
    Abort { reason: InstallRefusalView },
    Idle,
}

impl View for InstallAction {
    type V = InstallActionView;

    open spec fn view(&self) -> InstallActionView {
        match self {
            InstallAction::ReadFiles { package_file, hash_file } => InstallActionView::ReadFiles {
                package_file: package_file@,
                hash_file: hash_file@,
            },
            InstallAction::Unpack { archive, target_dir } => InstallActionView::Unpack {
                archive: archive@,
                target_dir: target_dir@,
            },
            InstallAction::LoadConfig { path } => InstallActionView::LoadConfig { path: path@ },
            InstallAction::QueryPython => InstallActionView::QueryPython,
            InstallAction::RunPip { args, python_mismatch } => InstallActionView::RunPip {
                args: views_of(args@),
                python_mismatch: match python_mismatch {
                    Some(p) => Some((p.0@, p.1@)),
                    None => None,
                },
            },
            InstallAction::RemoveDir { dir } => InstallActionView::RemoveDir { dir: dir@ },
            InstallAction::Finish => InstallActionView::Finish,
            InstallAction::Abort { reason } => InstallActionView::Abort { reason: reason@ },
            InstallAction::Idle => InstallActionView::Idle,
        }
    }
}

/// The first action of an installation: read the archive and the checksum
/// file beside it.
pub open spec fn install_start_spec(req: RequestView) -> InstallActionView {
    InstallActionView::ReadFiles {
        package_file: req.poitfile_name,
        hash_file: hash_file_name_seq(req.poitfile_name),
    }
}

/// The checksum of the archive's bytes, as the checksum file writes it.
pub open spec fn archive_checksum(bytes: Seq<u8>) -> Seq<char> {
    hex_lower(sha256_of(bytes))
}

/// The pip action for the package unpacked into `dir`.
pub open spec fn run_pip_spec(
    req: RequestView,
    dir: Seq<char>,
    mismatch: Option<(Seq<char>, Seq<char>)>,
) -> InstallActionView {
    InstallActionView::RunPip {
        args: install_arguments_seq(dir, req.package_version),
        python_mismatch: mismatch,
    }
}

/// One step of an installation: from the stage it is in and what the caller
/// reports, the next stage and the next action.
pub open spec fn install_step_spec(
    req: RequestView,
    stage: InstallStageView,
    event: InstallEventView,
) -> (InstallStageView, InstallActionView) {
    match stage {
        InstallStageView::Finished => (InstallStageView::Finished, InstallActionView::Idle),
        InstallStageView::Aborted => (InstallStageView::Aborted, InstallActionView::Idle),
        InstallStageView::CheckingHash => match event {
            InstallEventView::FilesRead { package_bytes, hash_bytes } => {
                let computed = archive_checksum(package_bytes);
                let stored_hash = text_of_bytes(hash_bytes);
                if !checksums_agree(computed, stored_hash) {
                    (
                        InstallStageView::Aborted,
                        InstallActionView::Abort {
                            reason: InstallRefusalView::HashMismatch {
                                computed: computed,
                                stored: stored_hash,
                            },
                        },
                    )
                } else {
                    match install_target_dir_seq(req.poitfile_name) {
                        None => (
                            InstallStageView::Aborted,
                            InstallActionView::Abort { reason: InstallRefusalView::BadFileName },
                        ),
                        Some(dir) => (
                            InstallStageView::Unpacking { target_dir: dir },
                            InstallActionView::Unpack {
                                archive: req.poitfile_name,
                                target_dir: dir,
                            },
                        ),
                    }
                }
            },
            _ => unexpected_install_event(),
        },
        InstallStageView::Unpacking { target_dir } => match event {
            InstallEventView::Unpacked => (
                InstallStageView::LoadingConfig { target_dir: target_dir },
                InstallActionView::LoadConfig { path: config_file_path_seq(target_dir) },
            ),
            _ => unexpected_install_event(),
        },
        InstallStageView::LoadingConfig { target_dir } => match event {
            InstallEventView::ConfigLoaded { config } => if req.skip_python_version_check {
                (
                    InstallStageView::Installing { target_dir: target_dir },
                    run_pip_spec(req, target_dir, None),
                )
            } else {
                (
                    InstallStageView::CheckingPython {
                        target_dir: target_dir,
                        package_python: config.python_version,
                    },
                    InstallActionView::QueryPython,
                )
            },
            _ => unexpected_install_event(),
        },
        InstallStageView::CheckingPython { target_dir, package_python } => match event {
            InstallEventView::PythonReported { stdout } => match python_check_seq(
                package_python,
                stdout,
            ) {
                None => (
                    InstallStageView::Aborted,
                    InstallActionView::Abort {
                        reason: InstallRefusalView::UnreadablePythonVersion,
                    },
                ),
                Some((same, local)) => (
                    InstallStageView::Installing { target_dir: target_dir },
                    run_pip_spec(
                        req,
                        target_dir,
                        if same {
                            None
                        } else {
                            Some((package_python, local))
                        },
                    ),
                ),
            },
            _ => unexpected_install_event(),
        },
        InstallStageView::Installing { target_dir } => match event {
            InstallEventView::Installed { succeeded } => (
                InstallStageView::Cleaning { installed: succeeded },
                InstallActionView::RemoveDir { dir: target_dir },
            ),
            _ => unexpected_install_event(),
        },
        InstallStageView::Cleaning { installed } => match event {
            InstallEventView::Cleaned => if installed {
                (InstallStageView::Finished, InstallActionView::Finish)
            } else {
                (
                    InstallStageView::Aborted,
                    InstallActionView::Abort { reason: InstallRefusalView::PipFailed },
                )
            },
            _ => unexpected_install_event(),
        },
    }
}

/// A Python report whose `major.minor` is, character for character, that
/// of the version the package was made for.
pub open spec fn python_matches_package(stage: InstallStageView, event: InstallEventView) -> bool {
    match (stage, event) {
        (
            InstallStageView::CheckingPython { package_python, .. },
            InstallEventView::PythonReported { stdout },
        ) => same_major_minor(package_python, stdout),
        _ => false,
    }
}

/// Whether the action warns that the package was made for another Python.
pub open spec fn warns_of_python_mismatch(action: InstallActionView) -> bool {
    match action {
        InstallActionView::RunPip { python_mismatch, .. } => python_mismatch is Some,
        _ => false,
    }
}

/// An event the installation was not waiting for stops it.
pub open spec fn unexpected_install_event() -> (InstallStageView, InstallActionView) {
    (
        InstallStageView::Aborted,
        InstallActionView::Abort { reason: InstallRefusalView::UnexpectedEvent },
    )
}

/// An installation in progress.
pub struct InstallFlow {
    request: InstallRequest,
    stage: InstallStage,
}

impl InstallFlow {
    /// What the user asked for.
    pub closed spec fn request_view(&self) -> RequestView {
        self.request@
    }

    /// Where the installation stands.
    pub closed spec fn stage_view(&self) -> InstallStageView {
        self.stage@
    }

    /// Starts an installation; the first action reads the archive and its
    /// checksum file.
    pub fn start(request: InstallRequest) -> (res: (InstallFlow, InstallAction))
        ensures
            res.0.request_view() == request@,
            res.0.stage_view() == InstallStageView::CheckingHash,
            res.1@ == install_start_spec(request@),
    {
        let hash_file = hash_file_name(request.poitfile_name.as_str());
        let package_file = request.poitfile_name.clone();
        let flow = InstallFlow { request, stage: InstallStage::CheckingHash };
        (flow, InstallAction::ReadFiles { package_file, hash_file })
    }

    /// Takes in what the caller reports and returns the next action.
    pub fn step(&mut self, event: InstallEvent) -> (act: InstallAction)
        ensures
            final(self).request_view() == old(self).request_view(),
            (final(self).stage_view(), act@) == install_step_spec(
                old(self).request_view(),
                old(self).stage_view(),
                event@,
            ),
            python_matches_package(old(self).stage_view(), event@) ==> !warns_of_python_mismatch(
                act@,
            ),
    {
        let mut stage = InstallStage::Aborted;
        std::mem::swap(&mut stage, &mut self.stage);
        let (next, act) = self.next(stage, event);
        self.stage = next;
        act
    }

    fn next(&self, stage: InstallStage, event: InstallEvent) -> (res: (InstallStage, InstallAction))
        ensures
            (res.0@, res.1@) == install_step_spec(self.request@, stage@, event@),
            python_matches_package(stage@, event@) ==> !warns_of_python_mismatch(res.1@),
    {
        match stage {
            InstallStage::Finished => (InstallStage::Finished, InstallAction::Idle),
            InstallStage::Aborted => (InstallStage::Aborted, InstallAction::Idle),
            InstallStage::CheckingHash => match event {
                InstallEvent::FilesRead { package_bytes, hash_bytes } => {
                    let computed = sha256_hex(package_bytes.as_slice());
                    let stored_hash = text_from_bytes(hash_bytes.as_slice());
                    if !hash_matches(computed.as_str(), stored_hash.as_str()) {
                        (
                            InstallStage::Aborted,
                            InstallAction::Abort {
                                reason: InstallRefusal::HashMismatch {
                                    computed,
                                    stored: stored_hash,
                                },
                            },
                        )
                    } else {
                        match install_target_dir(self.request.poitfile_name.as_str()) {
                            None => (
                                InstallStage::Aborted,
                                InstallAction::Abort { reason: InstallRefusal::BadFileName },
                            ),
                            Some(dir) => {
                                let d2 = dir.clone();
                                (
                                    InstallStage::Unpacking { target_dir: dir },
                                    InstallAction::Unpack {
                                        archive: self.request.poitfile_name.clone(),
                                        target_dir: d2,
                                    },
                                )
                            },
                        }
                    }
                },
                _ => Self::unexpected(),
            },
            InstallStage::Unpacking { target_dir } => match event {
                InstallEvent::Unpacked => {
                    let path = config_file_path(target_dir.as_str());
                    (
                        InstallStage::LoadingConfig { target_dir },
                        InstallAction::LoadConfig { path },
                    )
                },
                _ => Self::unexpected(),
            },
            InstallStage::LoadingConfig { target_dir } => match event {
                InstallEvent::ConfigLoaded { config } => {
                    if self.request.skip_python_version_check {
                        let args = install_arguments(
                            target_dir.as_str(),
                            self.request.package_version.as_str(),
                        );
                        (
                            InstallStage::Installing { target_dir },
                            InstallAction::RunPip { args, python_mismatch: None },
                        )
                    } else {
                        (
                            InstallStage::CheckingPython {
                                target_dir,
                                package_python: config.python_version,
                            },
                            InstallAction::QueryPython,
                        )
                    }
                },
                _ => Self::unexpected(),
            },
            InstallStage::CheckingPython { target_dir, package_python } => match event {
                InstallEvent::PythonReported { stdout } => {
                    match check_python_version(package_python.as_str(), stdout.as_slice()) {
                        None => (
                            InstallStage::Aborted,
                            InstallAction::Abort {
                                reason: InstallRefusal::UnreadablePythonVersion,
                            },
                        ),
                        Some((same, local)) => {
                            let args = install_arguments(
                                target_dir.as_str(),
                                self.request.package_version.as_str(),
                            );
                            let python_mismatch = if same {
                                None
                            } else {
                                Some((package_python, local))
                            };
                            (
                                InstallStage::Installing { target_dir },
                                InstallAction::RunPip { args, python_mismatch },
                            )
                        },
                    }
                },
                _ => Self::unexpected(),
            },
            InstallStage::Installing { target_dir } => match event {
                InstallEvent::Installed { succeeded } => (
                    InstallStage::Cleaning { installed: succeeded },
                    InstallAction::RemoveDir { dir: target_dir },
                ),
                _ => Self::unexpected(),
            },
            InstallStage::Cleaning { installed } => match event {
                InstallEvent::Cleaned => {
                    if installed {
                        (InstallStage::Finished, InstallAction::Finish)
                    } else {
                        (
                            InstallStage::Aborted,
                            InstallAction::Abort { reason: InstallRefusal::PipFailed },
                        )
                    }
                },
                _ => Self::unexpected(),
            },
        }
    }

    fn unexpected() -> (res: (InstallStage, InstallAction))
        ensures
            (res.0@, res.1@) == unexpected_install_event(),
    {
        (InstallStage::Aborted, InstallAction::Abort { reason: InstallRefusal::UnexpectedEvent })
    }
}

} // verus!
