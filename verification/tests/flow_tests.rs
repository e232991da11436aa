use poit::config::SerdeConfig;
use poit::digest::sha256_hex;
use poit::install::{InstallAction, InstallEvent, InstallFlow, InstallRefusal, InstallRequest};
use poit::pack::{PackAction, PackEvent, PackFlow, PackRefusal, PackRequest};

fn install_request(name: &str, version: &str, skip: bool) -> InstallRequest {
    InstallRequest {
        poitfile_name: name.to_string(),
        package_version: version.to_string(),
        skip_python_version_check: skip,
    }
}

fn pack_request(name: &str, version: &str, python: &str) -> PackRequest {
    PackRequest {
        package_name: name.to_string(),
        package_version: version.to_string(),
        python_version: python.to_string(),
    }
}

fn config(python: &str) -> SerdeConfig {
    SerdeConfig {
        python_version: python.to_string(),
        package_version: "null".to_string(),
    }
}

#[test]
fn install_runs_to_completion() {
    let archive = b"7z archive bytes".to_vec();
    let (mut flow, first) = InstallFlow::start(install_request("ipython.poit", "null", false));
    match first {
        InstallAction::ReadFiles {
            package_file,
            hash_file,
        } => {
            assert_eq!(package_file, "ipython.poit");
            assert_eq!(hash_file, "ipython.poit.sha256");
        }
        other => panic!("unexpected {other:?}"),
    }
    let stored = format!("{}\n", sha256_hex(&archive)).into_bytes();
    match flow.step(InstallEvent::FilesRead {
        package_bytes: archive,
        hash_bytes: stored,
    }) {
        InstallAction::Unpack {
            archive,
            target_dir,
        } => {
            assert_eq!(archive, "ipython.poit");
            assert_eq!(target_dir, "ipython");
        }
        other => panic!("unexpected {other:?}"),
    }
    match flow.step(InstallEvent::Unpacked) {
        InstallAction::LoadConfig { path } => assert_eq!(path, "ipython/config"),
        other => panic!("unexpected {other:?}"),
    }
    assert!(matches!(
        flow.step(InstallEvent::ConfigLoaded {
            config: config("3.11.2")
        }),
        InstallAction::QueryPython
    ));
    match flow.step(InstallEvent::PythonReported {
        stdout: b"Python 3.11.7\n".to_vec(),
    }) {
        InstallAction::RunPip {
            args,
            python_mismatch,
        } => {
            assert_eq!(
                args,
                vec!["install", "--no-index", "--find-links=./ipython/", "ipython"]
            );
            assert!(python_mismatch.is_none());
        }
        other => panic!("unexpected {other:?}"),
    }
    match flow.step(InstallEvent::Installed { succeeded: true }) {
        InstallAction::RemoveDir { dir } => assert_eq!(dir, "ipython"),
        other => panic!("unexpected {other:?}"),
    }
    assert!(matches!(flow.step(InstallEvent::Cleaned), InstallAction::Finish));
    assert!(matches!(flow.step(InstallEvent::Cleaned), InstallAction::Idle));
}

#[test]
fn install_refuses_a_wrong_checksum() {
    let (mut flow, _) = InstallFlow::start(install_request("ipython.poit", "null", false));
    let action = flow.step(InstallEvent::FilesRead {
        package_bytes: b"tampered".to_vec(),
        hash_bytes: sha256_hex(b"as packed").into_bytes(),
    });
    match action {
        InstallAction::Abort {
            reason: InstallRefusal::HashMismatch { computed, stored },
        } => {
            assert_eq!(computed, sha256_hex(b"tampered"));
            assert_eq!(stored, sha256_hex(b"as packed"));
        }
        other => panic!("unexpected {other:?}"),
    }
    // Nothing more happens after the refusal.
    assert!(matches!(flow.step(InstallEvent::Unpacked), InstallAction::Idle));
    assert!(matches!(flow.step(InstallEvent::Installed { succeeded: true }), InstallAction::Idle));
}

#[test]
fn install_refuses_a_name_without_dot() {
    let (mut flow, _) = InstallFlow::start(install_request("ipython", "null", false));
    let bytes = b"x".to_vec();
    let action = flow.step(InstallEvent::FilesRead {
        hash_bytes: sha256_hex(&bytes).into_bytes(),
        package_bytes: bytes,
    });
    assert!(matches!(
        action,
        InstallAction::Abort {
            reason: InstallRefusal::BadFileName
        }
    ));
}

#[test]
fn install_warns_on_another_python_and_pins_version() {
    let bytes = b"x".to_vec();
    let (mut flow, _) = InstallFlow::start(install_request("ipython.poit", "8.26.0", false));
    flow.step(InstallEvent::FilesRead {
        hash_bytes: sha256_hex(&bytes).into_bytes(),
        package_bytes: bytes,
    });
    flow.step(InstallEvent::Unpacked);
    flow.step(InstallEvent::ConfigLoaded {
        config: config("3.10.4"),
    });
    match flow.step(InstallEvent::PythonReported {
        stdout: b"Python 3.12.1\n".to_vec(),
    }) {
        InstallAction::RunPip {
            args,
            python_mismatch,
        } => {
            assert_eq!(args[3], "ipython==8.26.0");
            assert_eq!(
                python_mismatch,
                Some(("3.10.4".to_string(), "3.12.1".to_string()))
            );
        }
        other => panic!("unexpected {other:?}"),
    }
}

#[test]
fn install_skips_the_python_check_on_request() {
    let bytes = b"x".to_vec();
    let (mut flow, _) = InstallFlow::start(install_request("ipython.poit", "null", true));
    flow.step(InstallEvent::FilesRead {
        hash_bytes: sha256_hex(&bytes).into_bytes(),
        package_bytes: bytes,
    });
    flow.step(InstallEvent::Unpacked);
    assert!(matches!(
        flow.step(InstallEvent::ConfigLoaded {
            config: config("null")
        }),
        InstallAction::RunPip {
            python_mismatch: None,
            ..
        }
    ));
}

#[test]
fn install_stops_on_unreadable_python_or_unexpected_report() {
    let bytes = b"x".to_vec();
    let (mut flow, _) = InstallFlow::start(install_request("ipython.poit", "null", false));
    flow.step(InstallEvent::FilesRead {
        hash_bytes: sha256_hex(&bytes).into_bytes(),
        package_bytes: bytes,
    });
    flow.step(InstallEvent::Unpacked);
    flow.step(InstallEvent::ConfigLoaded {
        config: config("null"),
    });
    assert!(matches!(
        flow.step(InstallEvent::PythonReported {
            stdout: b"Python 3.12.1\n".to_vec()
        }),
        InstallAction::Abort {
            reason: InstallRefusal::UnreadablePythonVersion
        }
    ));

    let (mut flow, _) = InstallFlow::start(install_request("ipython.poit", "null", false));
    assert!(matches!(
        flow.step(InstallEvent::Installed { succeeded: true }),
        InstallAction::Abort {
            reason: InstallRefusal::UnexpectedEvent
        }
    ));
}

#[test]
fn pack_refuses_names_with_constraints() {
    let (mut flow, first) = PackFlow::start(pack_request("ipython>=8", "null", "null"));
    assert!(matches!(
        first,
        PackAction::Abort {
            reason: PackRefusal::VersionInName
        }
    ));
    assert!(matches!(flow.step(PackEvent::Downloaded), PackAction::Idle));
}

#[test]
fn pack_runs_to_completion() {
    let (mut flow, first) = PackFlow::start(pack_request("ipython", "null", "null"));
    match first {
        PackAction::Download { dir, args } => {
            assert_eq!(dir, "ipython");
            assert_eq!(args, vec!["download", "ipython"]);
        }
        other => panic!("unexpected {other:?}"),
    }
    match flow.step(PackEvent::Downloaded) {
        PackAction::SaveConfig { config, file, dir } => {
            assert_eq!(config.python_version, "null");
            assert_eq!(config.package_version, "null");
            assert_eq!(file, "config");
            assert_eq!(dir, "ipython");
        }
        other => panic!("unexpected {other:?}"),
    }
    match flow.step(PackEvent::ConfigSaved) {
        PackAction::Compress { dir, archive } => {
            assert_eq!(dir, "ipython");
            assert_eq!(archive, "ipython.poit");
        }
        other => panic!("unexpected {other:?}"),
    }
    match flow.step(PackEvent::Compressed) {
        PackAction::ReadArchive { archive } => assert_eq!(archive, "ipython.poit"),
        other => panic!("unexpected {other:?}"),
    }
    match flow.step(PackEvent::ArchiveRead {
        bytes: b"abc".to_vec(),
    }) {
        PackAction::WriteChecksum { write } => {
            assert_eq!(write.path, "ipython.poit.sha256");
            assert_eq!(
                write.bytes,
                b"ba7816bf8f01cfea414140de5dae2223b00361a396177a9cb410ff61f20015ad".to_vec()
            );
        }
        other => panic!("unexpected {other:?}"),
    }
    match flow.step(PackEvent::ChecksumWritten { succeeded: true }) {
        PackAction::RemoveDir { dir } => assert_eq!(dir, "ipython"),
        other => panic!("unexpected {other:?}"),
    }
    assert!(matches!(flow.step(PackEvent::Cleaned), PackAction::Finish));
    assert!(matches!(flow.step(PackEvent::Cleaned), PackAction::Idle));
}

#[test]
fn pack_records_a_given_python_and_version() {
    let (mut flow, first) = PackFlow::start(pack_request("ipython", "8.26.0", "3.12"));
    match first {
        PackAction::Download { args, .. } => assert_eq!(args, vec!["download", "ipython==8.26.0"]),
        other => panic!("unexpected {other:?}"),
    }
    match flow.step(PackEvent::Downloaded) {
        PackAction::SaveConfig { config, .. } => {
            assert_eq!(config.python_version, "3.12");
            assert_eq!(config.package_version, "8.26.0");
        }
        other => panic!("unexpected {other:?}"),
    }
    match flow.step(PackEvent::ConfigSaved) {
        PackAction::Compress { archive, .. } => assert_eq!(archive, "ipython.poit"),
        other => panic!("unexpected {other:?}"),
    }
    assert!(matches!(
        flow.step(PackEvent::Cleaned),
        PackAction::Abort {
            reason: PackRefusal::UnexpectedEvent
        }
    ));
}

#[test]
fn pack_stops_when_the_checksum_file_is_not_written() {
    let (mut flow, _) = PackFlow::start(pack_request("ipython", "null", "3.11"));
    flow.step(PackEvent::Downloaded);
    flow.step(PackEvent::ConfigSaved);
    flow.step(PackEvent::Compressed);
    flow.step(PackEvent::ArchiveRead {
        bytes: b"abc".to_vec(),
    });
    match flow.step(PackEvent::ChecksumWritten { succeeded: false }) {
        PackAction::RemoveDir { dir } => assert_eq!(dir, "ipython"),
        other => panic!("unexpected {other:?}"),
    }
    assert!(matches!(
        flow.step(PackEvent::Cleaned),
        PackAction::Abort {
            reason: PackRefusal::ChecksumNotWritten
        }
    ));
    assert!(matches!(flow.step(PackEvent::Cleaned), PackAction::Idle));
}

#[test]
fn packed_checksum_lets_the_same_archive_through() {
    let archive_bytes = b"some 7z bytes".to_vec();
    let (mut pack, _) = PackFlow::start(pack_request("ipython", "null", "3.11"));
    pack.step(PackEvent::Downloaded);
    pack.step(PackEvent::ConfigSaved);
    pack.step(PackEvent::Compressed);
    let write = match pack.step(PackEvent::ArchiveRead {
        bytes: archive_bytes.clone(),
    }) {
        PackAction::WriteChecksum { write } => write,
        other => panic!("unexpected {other:?}"),
    };

    let (mut install, first) = InstallFlow::start(install_request("ipython.poit", "null", false));
    match first {
        InstallAction::ReadFiles { hash_file, .. } => assert_eq!(hash_file, write.path),
        other => panic!("unexpected {other:?}"),
    }
    match install.step(InstallEvent::FilesRead {
        package_bytes: archive_bytes,
        hash_bytes: write.bytes.clone(),
    }) {
        InstallAction::Unpack { target_dir, .. } => assert_eq!(target_dir, "ipython"),
        other => panic!("unexpected {other:?}"),
    }

    // A changed archive is refused with the same checksum file.
    let (mut install, _) = InstallFlow::start(install_request("ipython.poit", "null", false));
    assert!(matches!(
        install.step(InstallEvent::FilesRead {
            package_bytes: b"some 7z bytez".to_vec(),
            hash_bytes: write.bytes,
        }),
        InstallAction::Abort {
            reason: InstallRefusal::HashMismatch { .. }
        }
    ));
}

#[test]
fn recorded_python_with_same_major_minor_gives_no_warning() {
    let (mut pack, _) = PackFlow::start(pack_request("ipython", "null", "3.11.2"));
    let recorded = match pack.step(PackEvent::Downloaded) {
        PackAction::SaveConfig { config, .. } => config,
        other => panic!("unexpected {other:?}"),
    };

    let bytes = b"x".to_vec();
    let (mut install, _) = InstallFlow::start(install_request("ipython.poit", "null", false));
    install.step(InstallEvent::FilesRead {
        hash_bytes: sha256_hex(&bytes).into_bytes(),
        package_bytes: bytes,
    });
    install.step(InstallEvent::Unpacked);
    install.step(InstallEvent::ConfigLoaded { config: recorded });
    assert!(matches!(
        install.step(InstallEvent::PythonReported {
            stdout: b"Python 3.11.7\n".to_vec()
        }),
        InstallAction::RunPip {
            python_mismatch: None,
            ..
        }
    ));
}

#[test]
fn install_stops_when_pip_fails() {
    let bytes = b"x".to_vec();
    let (mut flow, _) = InstallFlow::start(install_request("ipython.poit", "8.26.0", true));
    flow.step(InstallEvent::FilesRead {
        hash_bytes: sha256_hex(&bytes).into_bytes(),
        package_bytes: bytes,
    });
    flow.step(InstallEvent::Unpacked);
    flow.step(InstallEvent::ConfigLoaded {
        config: config("3.11"),
    });
    match flow.step(InstallEvent::Installed { succeeded: false }) {
        InstallAction::RemoveDir { dir } => assert_eq!(dir, "ipython"),
        other => panic!("unexpected {other:?}"),
    }
    assert!(matches!(
        flow.step(InstallEvent::Cleaned),
        InstallAction::Abort {
            reason: InstallRefusal::PipFailed
        }
    ));
    assert!(matches!(flow.step(InstallEvent::Cleaned), InstallAction::Idle));
}

#[test]
fn versioned_package_round_trip() {
    let (mut pack, _) = PackFlow::start(pack_request("ipython", "8.26.0", "3.11"));
    pack.step(PackEvent::Downloaded);
    let archive = match pack.step(PackEvent::ConfigSaved) {
        PackAction::Compress { archive, .. } => archive,
        other => panic!("unexpected {other:?}"),
    };
    assert_eq!(archive, "ipython.poit");
    let bytes = b"x".to_vec();
    let (mut install, _) = InstallFlow::start(install_request(&archive, "8.26.0", true));
    match install.step(InstallEvent::FilesRead {
        hash_bytes: sha256_hex(&bytes).into_bytes(),
        package_bytes: bytes,
    }) {
        InstallAction::Unpack { target_dir, .. } => assert_eq!(target_dir, "ipython"),
        other => panic!("unexpected {other:?}"),
    }
    install.step(InstallEvent::Unpacked);
    match install.step(InstallEvent::ConfigLoaded {
        config: config("3.11"),
    }) {
        InstallAction::RunPip { args, .. } => assert_eq!(
            args,
            vec!["install", "--no-index", "--find-links=./ipython/", "ipython==8.26.0"]
        ),
        other => panic!("unexpected {other:?}"),
    }
}
