//! The decisions of packing a package with all its dependencies, as a state
//! machine: the caller performs each action (downloading with pip, saving the
//! configuration, compressing, writing the checksum file, removing the
//! temporary directory) and reports what came of it; the machine refuses
//! names that carry a version constraint, records the Python version, names
//! the archive and its checksum file, computes the checksum and stops with a
//! refusal when the checksum file could not be written.
use vstd::prelude::*;

use crate::config::{ConfigView, SerdeConfig};
use crate::digest::sha256_hex;
use crate::install::archive_checksum;
use crate::names::{
    config_name, config_name_str, download_arguments, download_arguments_seq, hash_file_name,
    hash_file_name_seq, package_file_name, package_file_name_seq, package_name_check,
    package_name_ok,
};
use crate::files::{write_to_file, FileWrite};
use crate::text::views_of;
use vstd::utf8::encode_utf8;

verus! {

/// What the user asked to pack.
#[derive(Debug)]
pub struct PackRequest {
    /// The pip package, such as `ipython`.
    pub package_name: String,
    /// The package version to pack, or `null`.
    pub package_version: String,
    /// The Python version to record in the archive's configuration, or `null`.
    pub python_version: String,
}

pub struct PackRequestView {
    pub package_name: Seq<char>,
    pub package_version: Seq<char>,
    pub python_version: Seq<char>,
}

impl View for PackRequest {
    type V = PackRequestView;

    open spec fn view(&self) -> PackRequestView {
        PackRequestView {
            package_name: self.package_name@,
            package_version: self.package_version@,
            python_version: self.python_version@,
        }
    }
}

/// Where packing stands.
#[derive(Clone, Copy, Debug, PartialEq, Eq, Structural)]
pub enum PackStage {
    /// Waiting for the dependencies to be downloaded into the directory.
    Downloading,
    /// Waiting for the configuration to be saved into the directory.
    SavingConfig,
    /// Waiting for the directory to be compressed into the archive.
    Compressing,
    /// Waiting for the archive's bytes.
    Hashing,
    /// Waiting for the checksum file to be written.
    WritingChecksum,
    /// Waiting for the directory to be removed; remembers whether the
    /// checksum file was written.
    Cleaning { checksum_written: bool },
    /// Done.
    Finished,
    /// Stopped for good.
    Aborted,
}

/// What the caller reports after performing an action.
#[derive(Debug)]
pub enum PackEvent {
    /// The dependencies were downloaded and moved into the directory.
    Downloaded,
    /// The configuration was saved into the directory.
    ConfigSaved,
    /// The directory was compressed into the archive.
    Compressed,
    /// The bytes of the archive.
    ArchiveRead { bytes: Vec<u8> },
    /// The checksum file was written (`succeeded`), or writing it failed.
    ChecksumWritten { succeeded: bool },
    /// The directory was removed.
    Cleaned,
}

pub enum PackEventView {
    Downloaded,
    ConfigSaved,
    Compressed,
    ArchiveRead { bytes: Seq<u8> },
    ChecksumWritten { succeeded: bool },
    Cleaned,
}

impl View for PackEvent {
    type V = PackEventView;

    open spec fn view(&self) -> PackEventView {
        match self {
            PackEvent::Downloaded => PackEventView::Downloaded,
            PackEvent::ConfigSaved => PackEventView::ConfigSaved,
            PackEvent::Compressed => PackEventView::Compressed,
            PackEvent::ArchiveRead { bytes } => PackEventView::ArchiveRead { bytes: bytes@ },
            PackEvent::ChecksumWritten { succeeded } => PackEventView::ChecksumWritten {
                succeeded: *succeeded,
            },
            PackEvent::Cleaned => PackEventView::Cleaned,
        }
    }
}

/// Why packing stopped.
#[derive(Clone, Copy, Debug, PartialEq, Eq, Structural)]
pub enum PackRefusal {
    /// The package name carries a version constraint; versions are given
    /// separately. Nothing was done.
    VersionInName,
    /// The checksum file could not be written; the directory was removed.
    ChecksumNotWritten,
    /// The caller reported something packing was not waiting for.
    UnexpectedEvent,
}

/// What the caller is to do next.
#[derive(Debug)]
pub enum PackAction {
    /// Create `dir`, run pip with `args` in the working directory and move
    /// the downloaded wheels into `dir`.
    Download { dir: String, args: Vec<String> },
    /// Save `config` into the file `file` and move it into `dir`.
    SaveConfig { config: SerdeConfig, file: String, dir: String },
    /// Compress `dir` into `archive`.
    Compress { dir: String, archive: String },
    /// Read the bytes of `archive`.
    ReadArchive { archive: String },
    /// Perform the write, which puts the checksum into its file.
    WriteChecksum { write: FileWrite },
    /// Remove the directory.
    RemoveDir { dir: String },
    /// Packing is complete.
    Finish,
    /// Stop packing.
    Abort { reason: PackRefusal },
    /// Nothing is left to do.
    Idle,
}

pub enum PackActionView {
    Download { dir: Seq<char>, args: Seq<Seq<char>> },
    SaveConfig { config: ConfigView, file: Seq<char>, dir: Seq<char> },
    Compress { dir: Seq<char>, archive: Seq<char> },
    ReadArchive { archive: Seq<char> },
    WriteChecksum { path: Seq<char>, bytes: Seq<u8> },
    RemoveDir { dir: Seq<char> },
    Finish,
    Abort { reason: PackRefusal },
    Idle,
}

impl View for PackAction {
    type V = PackActionView;

    open spec fn view(&self) -> PackActionView {
        match self {
            PackAction::Download { dir, args } => PackActionView::Download {
                dir: dir@,
                args: views_of(args@),
            },
            PackAction::SaveConfig { config, file, dir } => PackActionView::SaveConfig {
                config: config@,
                file: file@,
                dir: dir@,
            },
            PackAction::Compress { dir, archive } => PackActionView::Compress {
                dir: dir@,
                archive: archive@,
            },
            PackAction::ReadArchive { archive } => PackActionView::ReadArchive {
                archive: archive@,
            },
            PackAction::WriteChecksum { write } => PackActionView::WriteChecksum {
                path: write.path@,
                bytes: write.bytes@,
            },
            PackAction::RemoveDir { dir } => PackActionView::RemoveDir { dir: dir@ },
            PackAction::Finish => PackActionView::Finish,
            PackAction::Abort { reason } => PackActionView::Abort { reason: *reason },
            PackAction::Idle => PackActionView::Idle,
        }
    }
}

/// The archive a request produces.
pub open spec fn pack_archive(req: PackRequestView) -> Seq<char> {
    package_file_name_seq(req.package_name)
}

/// The first step of packing: a name with a version constraint is refused
/// before anything is done; otherwise the dependencies are downloaded into a
/// directory named after the package.
pub open spec fn pack_start_spec(req: PackRequestView) -> (PackStage, PackActionView) {
    if !package_name_ok(req.package_name) {
        (PackStage::Aborted, PackActionView::Abort { reason: PackRefusal::VersionInName })
    } else {
        (
            PackStage::Downloading,
            PackActionView::Download {
                dir: req.package_name,
                args: download_arguments_seq(req.package_name, req.package_version),
            },
        )
    }
}

/// Saving the configuration that records `python_version`.
pub open spec fn save_config_spec(req: PackRequestView, python_version: Seq<char>) -> PackActionView {
    PackActionView::SaveConfig {
        config: ConfigView { python_version: python_version, package_version: req.package_version },
        file: config_name(),
        dir: req.package_name,
    }
}

/// An event packing was not waiting for stops it.
pub open spec fn unexpected_pack_event() -> (PackStage, PackActionView) {
    (PackStage::Aborted, PackActionView::Abort { reason: PackRefusal::UnexpectedEvent })
}

/// One step of packing: from the stage it is in and what the caller
/// reports, the next stage and the next action.
pub open spec fn pack_step_spec(req: PackRequestView, stage: PackStage, event: PackEventView) -> (
    PackStage,
    PackActionView,
) {
    match stage {
        PackStage::Finished => (PackStage::Finished, PackActionView::Idle),
        PackStage::Aborted => (PackStage::Aborted, PackActionView::Idle),
        PackStage::Downloading => match event {
            PackEventView::Downloaded => (
                PackStage::SavingConfig,
                save_config_spec(req, req.python_version),
            ),
            _ => unexpected_pack_event(),
        },
        PackStage::SavingConfig => match event {
            PackEventView::ConfigSaved => (
                PackStage::Compressing,
                PackActionView::Compress { dir: req.package_name, archive: pack_archive(req) },
            ),
            _ => unexpected_pack_event(),
        },
        PackStage::Compressing => match event {
            PackEventView::Compressed => (
                PackStage::Hashing,
                PackActionView::ReadArchive { archive: pack_archive(req) },
            ),
            _ => unexpected_pack_event(),
        },
        PackStage::Hashing => match event {
            PackEventView::ArchiveRead { bytes } => (
                PackStage::WritingChecksum,
                PackActionView::WriteChecksum {
                    path: hash_file_name_seq(pack_archive(req)),
                    bytes: encode_utf8(archive_checksum(bytes)),
                },
            ),
            _ => unexpected_pack_event(),
        },
        PackStage::WritingChecksum => match event {
            PackEventView::ChecksumWritten { succeeded } => (
                PackStage::Cleaning { checksum_written: succeeded },
                PackActionView::RemoveDir { dir: req.package_name },
            ),
            _ => unexpected_pack_event(),
        },
        PackStage::Cleaning { checksum_written } => match event {
            PackEventView::Cleaned => if checksum_written {
                (PackStage::Finished, PackActionView::Finish)
            } else {
                (
                    PackStage::Aborted,
                    PackActionView::Abort { reason: PackRefusal::ChecksumNotWritten },
                )
            },
            _ => unexpected_pack_event(),
        },
    }
}

/// Packing in progress.
pub struct PackFlow {
    request: PackRequest,
    stage: PackStage,
}

impl PackFlow {
    /// What the user asked for.
    pub closed spec fn request_view(&self) -> PackRequestView {
        self.request@
    }

    /// Where packing stands.
    pub closed spec fn stage_view(&self) -> PackStage {
        self.stage
    }

    /// Starts packing.
    pub fn start(request: PackRequest) -> (res: (PackFlow, PackAction))
        ensures
            res.0.request_view() == request@,
            (res.0.stage_view(), res.1@) == pack_start_spec(request@),
    {
        if !package_name_check(request.package_name.as_str()) {
            (
                PackFlow { request, stage: PackStage::Aborted },
                PackAction::Abort { reason: PackRefusal::VersionInName },
            )
        } else {
            let args = download_arguments(
                request.package_name.as_str(),
                request.package_version.as_str(),
            );
            let dir = request.package_name.clone();
            (PackFlow { request, stage: PackStage::Downloading }, PackAction::Download { dir, args })
        }
    }

    fn save_config(&self, python_version: String) -> (act: PackAction)
        ensures
            act@ == save_config_spec(self.request@, python_version@),
    {
        let config = SerdeConfig {
            python_version,
            package_version: self.request.package_version.clone(),
        };
        PackAction::SaveConfig {
            config,
            file: config_name_str().to_owned(),
            dir: self.request.package_name.clone(),
        }
    }

    fn archive(&self) -> (res: String)
        ensures
            res@ == pack_archive(self.request@),
    {
        package_file_name(self.request.package_name.as_str())
    }

    /// Takes in what the caller reports and returns the next action.
    pub fn step(&mut self, event: PackEvent) -> (act: PackAction)
        ensures
            final(self).request_view() == old(self).request_view(),
            (final(self).stage_view(), act@) == pack_step_spec(
                old(self).request_view(),
                old(self).stage_view(),
                event@,
            ),
    {
        let (next, act) = self.next(event);
        self.stage = next;
        act
    }

    fn next(&self, event: PackEvent) -> (res: (PackStage, PackAction))
        ensures
            (res.0, res.1@) == pack_step_spec(self.request@, self.stage, event@),
    {
        match self.stage {
            PackStage::Finished => (PackStage::Finished, PackAction::Idle),
            PackStage::Aborted => (PackStage::Aborted, PackAction::Idle),
            PackStage::Downloading => match event {
                PackEvent::Downloaded => (
                    PackStage::SavingConfig,
                    self.save_config(self.request.python_version.clone()),
                ),
                _ => Self::unexpected(),
            },
            PackStage::SavingConfig => match event {
                PackEvent::ConfigSaved => (
                    PackStage::Compressing,
                    PackAction::Compress {
                        dir: self.request.package_name.clone(),
                        archive: self.archive(),
                    },
                ),
                _ => Self::unexpected(),
            },
            PackStage::Compressing => match event {
                PackEvent::Compressed => (
                    PackStage::Hashing,
                    PackAction::ReadArchive { archive: self.archive() },
                ),
                _ => Self::unexpected(),
            },
            PackStage::Hashing => match event {
                PackEvent::ArchiveRead { bytes } => {
                    let archive = self.archive();
                    let path = hash_file_name(archive.as_str());
                    let contents = sha256_hex(bytes.as_slice());
                    let write = write_to_file(path.as_str(), contents.as_str());
                    (PackStage::WritingChecksum, PackAction::WriteChecksum { write })
                },
                _ => Self::unexpected(),
            },
            PackStage::WritingChecksum => match event {
                PackEvent::ChecksumWritten { succeeded } => (
                    PackStage::Cleaning { checksum_written: succeeded },
                    PackAction::RemoveDir { dir: self.request.package_name.clone() },
                ),
                _ => Self::unexpected(),
            },
            PackStage::Cleaning { checksum_written } => match event {
                PackEvent::Cleaned => {
                    if checksum_written {
                        (PackStage::Finished, PackAction::Finish)
                    } else {
                        (
                            PackStage::Aborted,
                            PackAction::Abort { reason: PackRefusal::ChecksumNotWritten },
                        )
                    }
                },
                _ => Self::unexpected(),
            },
        }
    }

    fn unexpected() -> (res: (PackStage, PackAction))
        ensures
            (res.0, res.1@) == unexpected_pack_event(),
    {
        (PackStage::Aborted, PackAction::Abort { reason: PackRefusal::UnexpectedEvent })
    }
}

} // verus!
