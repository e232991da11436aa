//! What holds of whole runs of packing and installation, and of a package
//! packed on one machine and installed on another.
use vstd::prelude::*;
use vstd::utf8::{encode_utf8, encode_utf8_decode_utf8, encode_utf8_valid_utf8};

use crate::digest::{checksums_agree, lemma_hex_injective, lemma_hex_trim_stable, sha256_of};
use crate::install::{
    archive_checksum, install_start_spec, install_step_spec, InstallActionView, InstallEventView,
    InstallRefusalView, InstallStageView, RequestView,
};
use crate::names::{
    config_name, hash_file_name_seq, install_target_dir_seq,
    download_arguments_seq, install_arguments_seq, lemma_archive_unpacks_to_name,
    package_file_name_seq, package_suffix,
};
use crate::pack::{
    pack_archive, pack_start_spec, pack_step_spec, PackActionView, PackEventView, PackRequestView,
    PackRefusal, PackStage,
};
use crate::text::{
    lemma_split_append_plain, lemma_split_append_sep, lemma_split_nonempty, text_of_bytes,
};

verus! {

/// The stage an installation reaches after the caller reports `events`, and
/// every action it gave, the first one included.
pub open spec fn install_run(req: RequestView, events: Seq<InstallEventView>) -> (
    InstallStageView,
    Seq<InstallActionView>,
)
    decreases events.len(),
{
    if events.len() == 0 {
        (InstallStageView::CheckingHash, seq![install_start_spec(req)])
    } else {
        let (stage, actions) = install_run(req, events.drop_last());
        let (next, action) = install_step_spec(req, stage, events.last());
        (next, actions.push(action))
    }
}

/// The stage packing reaches after the caller reports `events`, and every
/// action it gave, the first one included.
pub open spec fn pack_run(req: PackRequestView, events: Seq<PackEventView>) -> (
    PackStage,
    Seq<PackActionView>,
)
    decreases events.len(),
{
    if events.len() == 0 {
        let (stage, action) = pack_start_spec(req);
        (stage, seq![action])
    } else {
        let (stage, actions) = pack_run(req, events.drop_last());
        let (next, action) = pack_step_spec(req, stage, events.last());
        (next, actions.push(action))
    }
}

/// The report of an archive whose checksum agrees with its checksum file.
pub open spec fn checksum_accepted(event: InstallEventView) -> bool {
    match event {
        InstallEventView::FilesRead { package_bytes, hash_bytes } => checksums_agree(
            archive_checksum(package_bytes),
            text_of_bytes(hash_bytes),
        ),
        _ => false,
    }
}

/// Work on the archive's contents: anything but reading the archive,
/// stopping and idling.
pub open spec fn works_on_contents(action: InstallActionView) -> bool {
    match action {
        InstallActionView::ReadFiles { .. } => false,
        InstallActionView::Abort { .. } => false,
        InstallActionView::Idle => false,
        _ => true,
    }
}

/// Stages that come after a successful checksum check.
pub open spec fn past_checksum(stage: InstallStageView) -> bool {
    !(stage is CheckingHash) && !(stage is Aborted)
}

/// One action per report, plus the first.
pub proof fn lemma_install_run_len(req: RequestView, events: Seq<InstallEventView>)
    ensures
        install_run(req, events).1.len() == events.len() + 1,
    decreases events.len(),
{
    if events.len() > 0 {
        lemma_install_run_len(req, events.drop_last());
    }
}

proof fn lemma_install_run_checked(req: RequestView, events: Seq<InstallEventView>)
    ensures
        past_checksum(install_run(req, events).0) ==> exists|j: int|
            0 <= j < events.len() && #[trigger] checksum_accepted(events[j]),
        forall|i: int|
            0 <= i < install_run(req, events).1.len() && works_on_contents(
                #[trigger] install_run(req, events).1[i],
            ) ==> exists|j: int| 0 <= j < i && #[trigger] checksum_accepted(events[j]),
    decreases events.len(),
{
    lemma_install_run_len(req, events);
    if events.len() > 0 {
        let prev = events.drop_last();
        lemma_install_run_checked(req, prev);
        lemma_install_run_len(req, prev);
        let (stage, actions) = install_run(req, prev);
        let e = events.last();
        let (next, action) = install_step_spec(req, stage, e);
        let n = prev.len() as int;
        assert(events[n] == e);
        assert forall|j: int| 0 <= j < n implies events[j] == prev[j] by {}
        if past_checksum(stage) {
            let j = choose|j: int| 0 <= j < prev.len() && #[trigger] checksum_accepted(prev[j]);
            assert(checksum_accepted(events[j]));
        }
        if past_checksum(next) || works_on_contents(action) {
            if !past_checksum(stage) {
                assert(checksum_accepted(events[n]));
            }
        }
        let all = install_run(req, events).1;
        assert(all == actions.push(action));
        assert forall|i: int|
            0 <= i < all.len() && works_on_contents(#[trigger] all[i]) implies exists|j: int|
            0 <= j < i && #[trigger] checksum_accepted(events[j]) by {
            if i < actions.len() {
                assert(all[i] == actions[i]);
                let j = choose|j: int| 0 <= j < i && #[trigger] checksum_accepted(prev[j]);
                assert(checksum_accepted(events[j]));
            } else {
                assert(all[i] == action);
                if past_checksum(stage) {
                    let j = choose|j: int|
                        0 <= j < prev.len() && #[trigger] checksum_accepted(prev[j]);
                    assert(checksum_accepted(events[j]));
                } else {
                    assert(checksum_accepted(events[n]));
                }
            }
        }
    }
}

/// An installation unpacks, configures, runs pip or cleans up only after the
/// caller reported an archive whose SHA-256, in lowercase hexadecimal, is the
/// text of its checksum file, white space around that text aside.
pub proof fn law_install_work_needs_checksum(req: RequestView, events: Seq<InstallEventView>, i: int)
    requires
        0 <= i < install_run(req, events).1.len(),
        works_on_contents(install_run(req, events).1[i]),
    ensures
        exists|j: int| 0 <= j < i && #[trigger] checksum_accepted(events[j]),
{
    lemma_install_run_checked(req, events);
}

/// The report that pip installed the package.
pub open spec fn pip_succeeded(event: InstallEventView) -> bool {
    event == (InstallEventView::Installed { succeeded: true })
}

/// Stages that come after pip installed the package.
pub open spec fn past_pip(stage: InstallStageView) -> bool {
    stage == (InstallStageView::Cleaning { installed: true }) || stage is Finished
}

/// The report that the installation is complete.
pub open spec fn after_pip(action: InstallActionView) -> bool {
    action is Finish
}

proof fn lemma_install_run_pip(req: RequestView, events: Seq<InstallEventView>)
    ensures
        past_pip(install_run(req, events).0) ==> exists|j: int|
            0 <= j < events.len() && #[trigger] pip_succeeded(events[j]),
        forall|i: int|
            0 <= i < install_run(req, events).1.len() && after_pip(
                #[trigger] install_run(req, events).1[i],
            ) ==> exists|j: int| 0 <= j < i && #[trigger] pip_succeeded(events[j]),
    decreases events.len(),
{
    lemma_install_run_len(req, events);
    if events.len() > 0 {
        let prev = events.drop_last();
        lemma_install_run_pip(req, prev);
        lemma_install_run_len(req, prev);
        let (stage, actions) = install_run(req, prev);
        let e = events.last();
        let (next, action) = install_step_spec(req, stage, e);
        let n = prev.len() as int;
        assert(events[n] == e);
        assert forall|j: int| 0 <= j < n implies events[j] == prev[j] by {}
        if past_pip(stage) {
            let j = choose|j: int| 0 <= j < prev.len() && #[trigger] pip_succeeded(prev[j]);
            assert(pip_succeeded(events[j]));
        }
        if past_pip(next) || after_pip(action) {
            if !past_pip(stage) {
                assert(pip_succeeded(events[n]));
            }
        }
        let all = install_run(req, events).1;
        assert(all == actions.push(action));
        assert forall|i: int|
            0 <= i < all.len() && after_pip(#[trigger] all[i]) implies exists|j: int|
            0 <= j < i && #[trigger] pip_succeeded(events[j]) by {
            if i < actions.len() {
                assert(all[i] == actions[i]);
                let j = choose|j: int| 0 <= j < i && #[trigger] pip_succeeded(prev[j]);
                assert(pip_succeeded(events[j]));
            } else {
                assert(all[i] == action);
                if past_pip(stage) {
                    let j = choose|j: int| 0 <= j < prev.len() && #[trigger] pip_succeeded(prev[j]);
                    assert(pip_succeeded(events[j]));
                } else {
                    assert(pip_succeeded(events[n]));
                }
            }
        }
    } else {
        assert(install_run(req, events).1 == seq![install_start_spec(req)]);
    }
}

/// An installation reports completion only after the caller reported that
/// pip exited with success.
pub proof fn law_install_finishes_only_after_pip_succeeded(
    req: RequestView,
    events: Seq<InstallEventView>,
    i: int,
)
    requires
        0 <= i < install_run(req, events).1.len(),
        after_pip(install_run(req, events).1[i]),
    ensures
        exists|j: int| 0 <= j < i && #[trigger] pip_succeeded(events[j]),
{
    lemma_install_run_pip(req, events);
}

/// After a failed pip run the unpacked directory is still removed, and then
/// the installation stops with the failure as the reason.
pub proof fn law_install_refuses_failed_pip(req: RequestView, target_dir: Seq<char>)
    ensures
        (install_step_spec(
            req,
            InstallStageView::Installing { target_dir },
            InstallEventView::Installed { succeeded: false },
        ) == (
            InstallStageView::Cleaning { installed: false },
            InstallActionView::RemoveDir { dir: target_dir },
        )),
        (install_step_spec(
            req,
            InstallStageView::Cleaning { installed: false },
            InstallEventView::Cleaned,
        ) == (
            InstallStageView::Aborted,
            InstallActionView::Abort { reason: InstallRefusalView::PipFailed },
        )),
{
}

proof fn lemma_install_abort_final(req: RequestView, events: Seq<InstallEventView>)
    ensures
        (exists|i: int|
            0 <= i < install_run(req, events).1.len() && #[trigger] install_run(
                req,
                events,
            ).1[i] is Abort) ==> install_run(req, events).0 is Aborted,
        forall|i: int, k: int|
            0 <= i < k < install_run(req, events).1.len() && #[trigger] install_run(
                req,
                events,
            ).1[i] is Abort ==> #[trigger] install_run(req, events).1[k] is Idle,
    decreases events.len(),
{
    lemma_install_run_len(req, events);
    if events.len() > 0 {
        let prev = events.drop_last();
        lemma_install_abort_final(req, prev);
        lemma_install_run_len(req, prev);
        let (stage, actions) = install_run(req, prev);
        let (next, action) = install_step_spec(req, stage, events.last());
        let all = install_run(req, events).1;
        assert(all == actions.push(action));
        if exists|i: int| 0 <= i < all.len() && #[trigger] all[i] is Abort {
            let i = choose|i: int| 0 <= i < all.len() && #[trigger] all[i] is Abort;
            if i < actions.len() {
                assert(actions[i] is Abort);
            }
        }
        assert forall|i: int, k: int|
            0 <= i < k < all.len() && #[trigger] all[i] is Abort implies #[trigger] all[k] is Idle by {
            assert(all[i] == actions[i]);
            if k < actions.len() {
                assert(all[k] == actions[k]);
            } else {
                assert(actions[i] is Abort);
            }
        }
    } else {
        assert(install_run(req, events).1 == seq![install_start_spec(req)]);
    }
}

/// Once an installation stops (a checksum that does not match, an archive
/// name without `.`, an unreadable Python version), every later report is
/// answered with nothing to do.
pub proof fn law_install_abort_is_final(
    req: RequestView,
    events: Seq<InstallEventView>,
    i: int,
    k: int,
)
    requires
        0 <= i < k < install_run(req, events).1.len(),
        install_run(req, events).1[i] is Abort,
    ensures
        install_run(req, events).1[k] is Idle,
{
    lemma_install_abort_final(req, events);
}

/// A checksum file that does not match the archive stops the installation
/// with both checksums as the reason, before anything is unpacked.
pub proof fn law_install_refuses_mismatch(req: RequestView, package_bytes: Seq<u8>, hash_bytes: Seq<u8>)
    requires
        !checksums_agree(archive_checksum(package_bytes), text_of_bytes(hash_bytes)),
    ensures
        install_step_spec(
            req,
            InstallStageView::CheckingHash,
            InstallEventView::FilesRead { package_bytes, hash_bytes },
        ) == (
            InstallStageView::Aborted,
            InstallActionView::Abort {
                reason: InstallRefusalView::HashMismatch {
                    computed: archive_checksum(package_bytes),
                    stored: text_of_bytes(hash_bytes),
                },
            },
        ),
{
}

/// Packing a package whose name carries a version constraint does nothing:
/// it stops at once and answers every later report with nothing to do.
pub proof fn law_pack_refuses_constraint_names(req: PackRequestView, events: Seq<PackEventView>, k: int)
    requires
        req.package_name.contains('~') || req.package_name.contains('>')
            || req.package_name.contains('<') || req.package_name.contains('='),
        0 < k < pack_run(req, events).1.len(),
    ensures
        pack_run(req, events).0 == PackStage::Aborted,
        pack_run(req, events).1[0] is Abort,
        pack_run(req, events).1[k] is Idle,
{
    lemma_pack_refused_run(req, events);
}

proof fn lemma_pack_refused_run(req: PackRequestView, events: Seq<PackEventView>)
    requires
        req.package_name.contains('~') || req.package_name.contains('>')
            || req.package_name.contains('<') || req.package_name.contains('='),
    ensures
        pack_run(req, events).0 == PackStage::Aborted,
        pack_run(req, events).1.len() == events.len() + 1,
        pack_run(req, events).1[0] is Abort,
        forall|k: int| 0 < k < pack_run(req, events).1.len() ==> #[trigger] pack_run(req, events).1[k] is Idle,
    decreases events.len(),
{
    if events.len() > 0 {
        let prev = events.drop_last();
        lemma_pack_refused_run(req, prev);
        let (stage, actions) = pack_run(req, prev);
        let (next, action) = pack_step_spec(req, stage, events.last());
        let all = pack_run(req, events).1;
        assert(all == actions.push(action));
        assert forall|k: int| 0 < k < all.len() implies #[trigger] all[k] is Idle by {
            if k < actions.len() {
                assert(all[k] == actions[k]);
            }
        }
    }
}

/// One action per report, plus the first.
pub proof fn lemma_pack_run_len(req: PackRequestView, events: Seq<PackEventView>)
    ensures
        pack_run(req, events).1.len() == events.len() + 1,
    decreases events.len(),
{
    if events.len() > 0 {
        lemma_pack_run_len(req, events.drop_last());
    }
}

/// The action given after the `i`-th report comes from the stage reached by
/// the reports before it.
pub proof fn lemma_pack_run_action(req: PackRequestView, events: Seq<PackEventView>, i: int)
    requires
        1 <= i <= events.len(),
    ensures
        pack_run(req, events).1[i] == pack_step_spec(
            req,
            pack_run(req, events.take(i - 1)).0,
            events[i - 1],
        ).1,
    decreases events.len(),
{
    let prev = events.drop_last();
    lemma_pack_run_len(req, prev);
    if i == events.len() {
        assert(events.take(i - 1) =~= prev);
    } else {
        lemma_pack_run_action(req, prev, i);
        assert(prev.take(i - 1) =~= events.take(i - 1));
        assert(prev[i - 1] == events[i - 1]);
    }
}

/// Every checksum file that packing writes is named after the archive of the
/// request and holds the UTF-8 bytes of the lowercase hexadecimal SHA-256 of
/// the archive bytes reported just before.
pub proof fn law_pack_writes_checksum_of_archive(
    req: PackRequestView,
    events: Seq<PackEventView>,
    i: int,
)
    requires
        0 <= i < pack_run(req, events).1.len(),
        pack_run(req, events).1[i] is WriteChecksum,
    ensures
        i >= 1,
        events[i - 1] is ArchiveRead,
        pack_run(req, events).1[i] == (PackActionView::WriteChecksum {
            path: hash_file_name_seq(pack_archive(req)),
            bytes: encode_utf8(archive_checksum(events[i - 1]->bytes)),
        }),
{
    lemma_pack_run_len(req, events);
    if i == 0 {
        assert(pack_run(req, events).1[0] == pack_start_spec(req).1) by {
            lemma_pack_run_first(req, events);
        }
    } else {
        lemma_pack_run_action(req, events, i);
    }
}

proof fn lemma_pack_run_first(req: PackRequestView, events: Seq<PackEventView>)
    ensures
        pack_run(req, events).1[0] == pack_start_spec(req).1,
    decreases events.len(),
{
    if events.len() > 0 {
        lemma_pack_run_first(req, events.drop_last());
        lemma_pack_run_len(req, events.drop_last());
    }
}

proof fn lemma_pack_abort_final(req: PackRequestView, events: Seq<PackEventView>)
    ensures
        (exists|i: int|
            0 <= i < pack_run(req, events).1.len() && #[trigger] pack_run(req, events).1[i] is Abort)
            ==> pack_run(req, events).0 == PackStage::Aborted,
        forall|i: int, k: int|
            0 <= i < k < pack_run(req, events).1.len() && #[trigger] pack_run(req, events).1[i] is Abort
                ==> #[trigger] pack_run(req, events).1[k] is Idle,
    decreases events.len(),
{
    lemma_pack_run_len(req, events);
    if events.len() > 0 {
        let prev = events.drop_last();
        lemma_pack_abort_final(req, prev);
        lemma_pack_run_len(req, prev);
        let (stage, actions) = pack_run(req, prev);
        let (next, action) = pack_step_spec(req, stage, events.last());
        let all = pack_run(req, events).1;
        assert(all == actions.push(action));
        if exists|i: int| 0 <= i < all.len() && #[trigger] all[i] is Abort {
            let i = choose|i: int| 0 <= i < all.len() && #[trigger] all[i] is Abort;
            if i < actions.len() {
                assert(actions[i] is Abort);
            }
        }
        assert forall|i: int, k: int|
            0 <= i < k < all.len() && #[trigger] all[i] is Abort implies #[trigger] all[k] is Idle by {
            assert(all[i] == actions[i]);
            if k < actions.len() {
                assert(all[k] == actions[k]);
            } else {
                assert(actions[i] is Abort);
            }
        }
    }
}

/// Once packing stops, every later report is answered with nothing to do.
pub proof fn law_pack_abort_is_final(req: PackRequestView, events: Seq<PackEventView>, i: int, k: int)
    requires
        0 <= i < k < pack_run(req, events).1.len(),
        pack_run(req, events).1[i] is Abort,
    ensures
        pack_run(req, events).1[k] is Idle,
{
    lemma_pack_abort_final(req, events);
}

/// An archive name with a `.` always names a directory to unpack into.
proof fn lemma_archive_name_has_dir(name: Seq<char>)
    ensures
        install_target_dir_seq(package_file_name_seq(name)) is Some,
{
    let stem = name;
    let file = package_file_name_seq(name);
    assert(file =~= stem.push('.') + package_suffix());
    lemma_split_append_sep(stem, '.');
    lemma_split_nonempty(stem, '.');
    assert(!package_suffix().contains('.')) by {
        if package_suffix().contains('.') {
            let k = choose|k: int| 0 <= k < package_suffix().len() && package_suffix()[k] == '.';
            assert(package_suffix()[k] == '.');
        }
    }
    lemma_split_append_plain(stem.push('.'), package_suffix(), '.');
}

/// The checksum file packing writes is the one installation reads for the
/// archive packing made, and it lets that archive through the checksum check
/// as long as the archive's bytes are unchanged.
pub proof fn law_packed_checksum_is_accepted(
    pack_req: PackRequestView,
    archive_bytes: Seq<u8>,
    install_req: RequestView,
)
    requires
        install_req.poitfile_name == pack_archive(pack_req),
    ensures
        ({
            let (_, write) = pack_step_spec(
                pack_req,
                PackStage::Hashing,
                PackEventView::ArchiveRead { bytes: archive_bytes },
            );
            let (next, _) = install_step_spec(
                install_req,
                InstallStageView::CheckingHash,
                InstallEventView::FilesRead {
                    package_bytes: archive_bytes,
                    hash_bytes: write->bytes,
                },
            );
            &&& install_start_spec(install_req) == InstallActionView::ReadFiles {
                package_file: pack_archive(pack_req),
                hash_file: write->path,
            }
            &&& next is Unpacking
        }),
{
    let checksum = archive_checksum(archive_bytes);
    encode_utf8_valid_utf8(checksum);
    encode_utf8_decode_utf8(checksum);
    assert(text_of_bytes(encode_utf8(checksum)) == checksum);
    lemma_archive_name_has_dir(pack_req.package_name);
}

/// A checksum file that packing wrote for some archive bytes lets other bytes
/// through the checksum check only if both have the same SHA-256 digest.
pub proof fn law_accepted_checksum_means_same_digest(packed: Seq<u8>, installed: Seq<u8>)
    requires
        checksums_agree(
            archive_checksum(installed),
            text_of_bytes(encode_utf8(archive_checksum(packed))),
        ),
    ensures
        sha256_of(installed) == sha256_of(packed),
{
    let written = archive_checksum(packed);
    encode_utf8_valid_utf8(written);
    encode_utf8_decode_utf8(written);
    lemma_hex_trim_stable(sha256_of(installed));
    lemma_hex_trim_stable(sha256_of(packed));
    lemma_hex_injective(sha256_of(installed), sha256_of(packed));
}

/// A package packed under a name without `.`, with or without a chosen
/// version, unpacks into a directory named after it; installation reads the
/// configuration file that packing saved into that directory, and, given the
/// same version, asks pip for the very requirement that packing downloaded.
pub proof fn law_package_unpacks_where_packed(pack_req: PackRequestView, install_req: RequestView)
    requires
        !pack_req.package_name.contains('.'),
        install_req.poitfile_name == pack_archive(pack_req),
    ensures
        install_target_dir_seq(install_req.poitfile_name) == Some(pack_req.package_name),
        (install_step_spec(
            install_req,
            InstallStageView::Unpacking { target_dir: pack_req.package_name },
            InstallEventView::Unpacked,
        ).1 == InstallActionView::LoadConfig {
            path: pack_req.package_name + seq!['/'] + config_name(),
        }),
        install_req.package_version == pack_req.package_version ==> install_arguments_seq(
            pack_req.package_name,
            install_req.package_version,
        )[3] == download_arguments_seq(pack_req.package_name, pack_req.package_version)[1],
{
    lemma_archive_unpacks_to_name(pack_req.package_name);
}

/// The report that the checksum file was written.
pub open spec fn checksum_written(event: PackEventView) -> bool {
    event == (PackEventView::ChecksumWritten { succeeded: true })
}

proof fn lemma_pack_run_checksum(req: PackRequestView, events: Seq<PackEventView>)
    ensures
        (pack_run(req, events).0 == (PackStage::Cleaning { checksum_written: true }) || pack_run(
            req,
            events,
        ).0 == PackStage::Finished) ==> exists|j: int|
            0 <= j < events.len() && #[trigger] checksum_written(events[j]),
        forall|i: int|
            0 <= i < pack_run(req, events).1.len() && #[trigger] pack_run(req, events).1[i] is Finish
                ==> exists|j: int| 0 <= j < i && #[trigger] checksum_written(events[j]),
    decreases events.len(),
{
    lemma_pack_run_len(req, events);
    if events.len() > 0 {
        let prev = events.drop_last();
        lemma_pack_run_checksum(req, prev);
        lemma_pack_run_len(req, prev);
        let (stage, actions) = pack_run(req, prev);
        let e = events.last();
        let (next, action) = pack_step_spec(req, stage, e);
        let n = prev.len() as int;
        assert(events[n] == e);
        assert forall|j: int| 0 <= j < n implies events[j] == prev[j] by {}
        let done_before = stage == (PackStage::Cleaning { checksum_written: true }) || stage
            == PackStage::Finished;
        if done_before {
            let j = choose|j: int| 0 <= j < prev.len() && #[trigger] checksum_written(prev[j]);
            assert(checksum_written(events[j]));
        }
        if !done_before && (next == (PackStage::Cleaning { checksum_written: true }) || next
            == PackStage::Finished || action is Finish) {
            assert(checksum_written(events[n]));
        }
        let all = pack_run(req, events).1;
        assert(all == actions.push(action));
        assert forall|i: int| 0 <= i < all.len() && #[trigger] all[i] is Finish implies exists|j: int|
            0 <= j < i && #[trigger] checksum_written(events[j]) by {
            if i < actions.len() {
                assert(all[i] == actions[i]);
                let j = choose|j: int| 0 <= j < i && #[trigger] checksum_written(prev[j]);
                assert(checksum_written(events[j]));
            } else {
                assert(all[i] == action);
                if done_before {
                    let j = choose|j: int|
                        0 <= j < prev.len() && #[trigger] checksum_written(prev[j]);
                    assert(checksum_written(events[j]));
                } else {
                    assert(checksum_written(events[n]));
                }
            }
        }
    } else {
        assert(pack_run(req, events).1 == seq![pack_start_spec(req).1]);
    }
}

/// Packing reports completion only after the caller reported that the
/// checksum file was written; when writing it failed, the directory is still
/// removed and packing stops with that failure as the reason.
pub proof fn law_pack_finishes_only_with_checksum_file(
    req: PackRequestView,
    events: Seq<PackEventView>,
    i: int,
)
    requires
        0 <= i < pack_run(req, events).1.len(),
        pack_run(req, events).1[i] is Finish,
    ensures
        exists|j: int| 0 <= j < i && #[trigger] checksum_written(events[j]),
        (pack_step_spec(req, PackStage::WritingChecksum, PackEventView::ChecksumWritten { succeeded: false })
            == (
            PackStage::Cleaning { checksum_written: false },
            PackActionView::RemoveDir { dir: req.package_name },
        )),
        (pack_step_spec(req, PackStage::Cleaning { checksum_written: false }, PackEventView::Cleaned)
            == (PackStage::Aborted, PackActionView::Abort { reason: PackRefusal::ChecksumNotWritten })),
{
    lemma_pack_run_checksum(req, events);
}

} // verus!
