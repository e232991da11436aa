//! What each decision answers, for every input, stated from first
//! principles: the checksum check, the package-name check, the pip
//! requirement, the pip version gate, the Python version check, and what
//! trimming keeps of a text.
use vstd::prelude::*;

use crate::digest::{checksums_agree, hex_digit, hex_lower, lemma_hex_len, lemma_hex_trim_stable, sha256_of};
use crate::install::{
    install_step_spec, InstallActionView, InstallEventView, InstallRefusalView, InstallStageView,
    RequestView,
};
use crate::names::{
    download_arguments_seq, install_arguments_seq, install_target_dir_seq, package_name_ok,
    package_spec_seq,
};
use crate::pack::{pack_start_spec, PackActionView, PackRefusal, PackRequestView, PackStage};
use crate::text::{
    is_white_space, lemma_split_nonempty, split_seq, text_of_bytes, trim_end_seq, trim_seq,
    trim_start_seq,
};
use crate::version::{
    pip_check_seq, python_check_seq, reported_version_seq, version_comparison, VersionOrder,
};

verus! {

/// Where trimming starts: the first character that is not white space.
proof fn lemma_trim_start_index(s: Seq<char>) -> (i: int)
    ensures
        0 <= i <= s.len(),
        trim_start_seq(s) == s.subrange(i, s.len() as int),
        forall|k: int| 0 <= k < i ==> is_white_space(#[trigger] s[k]),
        i < s.len() ==> !is_white_space(s[i]),
    decreases s.len(),
{
    if s.len() > 0 && is_white_space(s[0]) {
        let j = lemma_trim_start_index(s.drop_first());
        assert(s.drop_first().subrange(j, s.drop_first().len() as int) =~= s.subrange(
            j + 1,
            s.len() as int,
        ));
        assert forall|k: int| 0 <= k < j + 1 implies is_white_space(#[trigger] s[k]) by {
            if k > 0 {
                assert(s[k] == s.drop_first()[k - 1]);
            }
        }
        j + 1
    } else {
        assert(s.subrange(0, s.len() as int) =~= s);
        0
    }
}

/// Where trimming ends: after the last character that is not white space.
proof fn lemma_trim_end_index(s: Seq<char>) -> (j: int)
    ensures
        0 <= j <= s.len(),
        trim_end_seq(s) == s.subrange(0, j),
        forall|k: int| j <= k < s.len() ==> is_white_space(#[trigger] s[k]),
        j > 0 ==> !is_white_space(s[j - 1]),
    decreases s.len(),
{
    if s.len() > 0 && is_white_space(s.last()) {
        let j = lemma_trim_end_index(s.drop_last());
        assert(s.drop_last().subrange(0, j) =~= s.subrange(0, j));
        assert forall|k: int| j <= k < s.len() implies is_white_space(#[trigger] s[k]) by {
            if k < s.len() - 1 {
                assert(s[k] == s.drop_last()[k]);
            }
        }
        j
    } else {
        assert(s.subrange(0, s.len() as int) =~= s);
        s.len() as int
    }
}

/// Trimming keeps one contiguous stretch of the text: it starts and ends
/// with characters that are not white space, and everything cut off before
/// and after it is white space.
pub proof fn law_trim_cuts_only_surrounding_white_space(s: Seq<char>) -> (bounds: (int, int))
    ensures
        0 <= bounds.0 <= bounds.1 <= s.len(),
        trim_seq(s) == s.subrange(bounds.0, bounds.1),
        forall|k: int| 0 <= k < bounds.0 ==> is_white_space(#[trigger] s[k]),
        forall|k: int| bounds.1 <= k < s.len() ==> is_white_space(#[trigger] s[k]),
        bounds.0 < bounds.1 ==> !is_white_space(s[bounds.0]) && !is_white_space(s[bounds.1 - 1]),
{
    let i = lemma_trim_start_index(s);
    let rest = s.subrange(i, s.len() as int);
    let j = lemma_trim_end_index(rest);
    assert(rest.subrange(0, j) =~= s.subrange(i, i + j));
    assert forall|k: int| i + j <= k < s.len() implies is_white_space(#[trigger] s[k]) by {
        assert(s[k] == rest[k - i]);
    }
    if j > 0 {
        assert(s[i + j - 1] == rest[j - 1]);
    }
    (i, i + j)
}

/// Two checksum texts agree exactly when they are the same once trimmed.
pub proof fn law_checksums_agree_exactly_when_trimmed_equal(computed: Seq<char>, stored: Seq<char>)
    ensures
        checksums_agree(computed, stored) <==> trim_seq(computed) == trim_seq(stored),
{
}

/// The checksum check lets an archive through exactly when the lowercase
/// hexadecimal SHA-256 of its bytes is the trimmed text of the checksum file;
/// for every other stored text it stops with both texts as the reason.
pub proof fn law_install_accepts_exactly_the_archive_checksum(
    req: RequestView,
    package_bytes: Seq<u8>,
    hash_bytes: Seq<u8>,
)
    ensures
        ({
            let computed = hex_lower(sha256_of(package_bytes));
            let stored = text_of_bytes(hash_bytes);
            let (next, action) = install_step_spec(
                req,
                InstallStageView::CheckingHash,
                InstallEventView::FilesRead { package_bytes, hash_bytes },
            );
            &&& computed != trim_seq(stored) ==> next == InstallStageView::Aborted && action
                == (InstallActionView::Abort {
                reason: InstallRefusalView::HashMismatch { computed, stored },
            })
            &&& computed == trim_seq(stored) ==> match install_target_dir_seq(req.poitfile_name) {
                Some(dir) => next == (InstallStageView::Unpacking { target_dir: dir }),
                None => action == (InstallActionView::Abort {
                    reason: InstallRefusalView::BadFileName,
                }),
            }
        }),
{
    lemma_hex_trim_stable(sha256_of(package_bytes));
}

/// A package name is refused exactly when it holds one of `~`, `>`, `<` and
/// `=`: then packing stops before doing anything; every other name, dots,
/// dashes and underscores included, starts the download into a directory of
/// that name.
pub proof fn law_package_name_refused_exactly_for_constraints(req: PackRequestView)
    ensures
        ({
            let n = req.package_name;
            let constrained = n.contains('~') || n.contains('>') || n.contains('<') || n.contains(
                '=',
            );
            &&& package_name_ok(n) <==> !constrained
            &&& constrained ==> pack_start_spec(req) == (
                PackStage::Aborted,
                PackActionView::Abort { reason: PackRefusal::VersionInName },
            )
            &&& !constrained ==> pack_start_spec(req).0 == PackStage::Downloading
            &&& !constrained ==> (pack_start_spec(req).1 matches PackActionView::Download {
                dir,
                ..
            } && dir == n)
        }),
{
}

/// The pip requirement is the bare name when no version is set (`null`),
/// and otherwise the name, `==` and the version as given, whatever the
/// version looks like; pip downloads and installs exactly that requirement.
pub proof fn law_requirement_pins_the_exact_version(name: Seq<char>, version: Seq<char>)
    ensures
        version == seq!['n', 'u', 'l', 'l'] ==> package_spec_seq(name, version) == name,
        version != seq!['n', 'u', 'l', 'l'] ==> package_spec_seq(name, version) == name + seq![
            '=',
            '=',
        ] + version,
        download_arguments_seq(name, version).len() == 2,
        download_arguments_seq(name, version)[1] == package_spec_seq(name, version),
        install_arguments_seq(name, version).len() == 4,
        install_arguments_seq(name, version)[3] == package_spec_seq(name, version),
{
}

/// The pip gate: without a pip version it fails with an empty version; with
/// one, it passes exactly when `version_compare` finds that version greater
/// than or equal to 21.2, fails when it finds it smaller, and has no answer
/// when the version cannot be compared.
pub proof fn law_pip_gate_passes_exactly_from_21_2(version: Seq<char>)
    ensures
        pip_check_seq(None) == Some((false, Seq::<char>::empty())),
        match version_comparison(version, seq!['2', '1', '.', '2']) {
            Some(VersionOrder::Gt) => pip_check_seq(Some(version)) == Some((true, version)),
            Some(VersionOrder::Eq) => pip_check_seq(Some(version)) == Some((true, version)),
            Some(VersionOrder::Lt) => pip_check_seq(Some(version)) == Some((false, version)),
            Some(_) => pip_check_seq(Some(version)) is Some,
            None => pip_check_seq(Some(version)) is None,
        },
{
}

/// The `major.minor` of a version: its first two `.`-separated parts.
pub open spec fn first_two_parts(v: Seq<char>) -> Seq<char> {
    split_seq(v, '.')[0] + seq!['.'] + split_seq(v, '.')[1]
}

/// The Python check reports agreement exactly when the package's
/// `major.minor` and the local `major.minor` (from the second word of the
/// `python3 --version` output) compare equal; when they compare greater or
/// smaller it reports disagreement, and the local version comes back trimmed.
pub proof fn law_python_check_agrees_exactly_on_equal(package_python: Seq<char>, stdout: Seq<u8>)
    requires
        split_seq(text_of_bytes(stdout), ' ').len() >= 2,
        split_seq(package_python, '.').len() >= 2,
        split_seq(split_seq(text_of_bytes(stdout), ' ')[1], '.').len() >= 2,
    ensures
        ({
            let local = split_seq(text_of_bytes(stdout), ' ')[1];
            match version_comparison(first_two_parts(package_python), first_two_parts(local)) {
                Some(order) => python_check_seq(package_python, stdout) == Some(
                    (order == VersionOrder::Eq, trim_seq(local)),
                ),
                None => python_check_seq(package_python, stdout) is None,
            }
        }),
{
}

/// When the local Python's `major.minor` compares greater or smaller than
/// the package's, pip still runs, with a warning that names the package's
/// Python version and the local one; when they compare equal, without it.
pub proof fn law_python_mismatch_is_warned(
    req: RequestView,
    target_dir: Seq<char>,
    package_python: Seq<char>,
    stdout: Seq<u8>,
)
    requires
        split_seq(text_of_bytes(stdout), ' ').len() >= 2,
        split_seq(package_python, '.').len() >= 2,
        split_seq(split_seq(text_of_bytes(stdout), ' ')[1], '.').len() >= 2,
        version_comparison(
            first_two_parts(package_python),
            first_two_parts(split_seq(text_of_bytes(stdout), ' ')[1]),
        ) is Some,
    ensures
        ({
            let local = split_seq(text_of_bytes(stdout), ' ')[1];
            let order = version_comparison(first_two_parts(package_python), first_two_parts(local))->0;
            install_step_spec(
                req,
                InstallStageView::CheckingPython { target_dir, package_python },
                InstallEventView::PythonReported { stdout },
            ) == (
                InstallStageView::Installing { target_dir },
                InstallActionView::RunPip {
                    args: install_arguments_seq(target_dir, req.package_version),
                    python_mismatch: if order == VersionOrder::Eq {
                        None
                    } else {
                        Some((package_python, trim_seq(local)))
                    },
                },
            )
        }),
{
}

/// The pieces put back together with the separator between each two.
pub open spec fn join_pieces(pieces: Seq<Seq<char>>, sep: char) -> Seq<char>
    decreases pieces.len(),
{
    if pieces.len() <= 1 {
        if pieces.len() == 1 {
            pieces[0]
        } else {
            Seq::<char>::empty()
        }
    } else {
        join_pieces(pieces.drop_last(), sep) + seq![sep] + pieces.last()
    }
}

/// Splitting on a separator loses nothing and finds every separator: the
/// pieces joined with the separator give the text back, and no piece holds
/// the separator.
pub proof fn law_split_pieces_rejoin(s: Seq<char>, sep: char)
    ensures
        split_seq(s, sep).len() >= 1,
        join_pieces(split_seq(s, sep), sep) == s,
        forall|i: int| 0 <= i < split_seq(s, sep).len() ==> !(#[trigger] split_seq(s, sep)[i]).contains(sep),
    decreases s.len(),
{
    lemma_split_nonempty(s, sep);
    if s.len() == 0 {
        assert(split_seq(s, sep)[0] =~= Seq::<char>::empty());
        assert(s =~= Seq::<char>::empty());
    } else {
        let t = s.drop_last();
        let c = s.last();
        law_split_pieces_rejoin(t, sep);
        let prev = split_seq(t, sep);
        let now = split_seq(s, sep);
        assert(t.push(c) =~= s);
        if c == sep {
            assert(now == prev.push(Seq::<char>::empty()));
            assert(now.drop_last() =~= prev);
            assert(join_pieces(now, sep) =~= join_pieces(prev, sep) + seq![sep] + Seq::<char>::empty());
            assert forall|i: int| 0 <= i < now.len() implies !(#[trigger] now[i]).contains(sep) by {
                if i < prev.len() {
                    assert(now[i] == prev[i]);
                } else {
                    assert(now[i] =~= Seq::<char>::empty());
                }
            }
        } else {
            let last = prev.last().push(c);
            assert(now == prev.update(prev.len() - 1, last));
            assert forall|i: int| 0 <= i < now.len() implies !(#[trigger] now[i]).contains(sep) by {
                if i < prev.len() - 1 {
                    assert(now[i] == prev[i]);
                } else {
                    assert(now[i] == last);
                    assert(!prev[prev.len() - 1].contains(sep));
                    if last.contains(sep) {
                        let k = choose|k: int| 0 <= k < last.len() && last[k] == sep;
                        if k < last.len() - 1 {
                            assert(prev.last()[k] == sep);
                        }
                    }
                }
            }
            if prev.len() == 1 {
                assert(now =~= seq![last]);
                assert(join_pieces(prev, sep) == prev[0]);
                assert(join_pieces(now, sep) == now[0]);
            } else {
                assert(now.drop_last() =~= prev.drop_last());
                assert(join_pieces(now, sep) == join_pieces(prev.drop_last(), sep) + seq![sep] + last);
                assert(join_pieces(prev, sep) == join_pieces(prev.drop_last(), sep) + seq![sep]
                    + prev.last());
                assert(join_pieces(now, sep) =~= join_pieces(prev, sep).push(c));
            }
        }
    }
}

/// The value of a lowercase hexadecimal digit.
pub open spec fn digit_value(c: char) -> int {
    if '0' <= c && c <= '9' {
        c as int - '0' as int
    } else {
        c as int - 'a' as int + 10
    }
}

/// The checksum text spells each byte, in order, as two lowercase
/// hexadecimal digits, high one first.
pub proof fn law_hex_spells_each_byte(bytes: Seq<u8>)
    ensures
        hex_lower(bytes).len() == 2 * bytes.len(),
        forall|i: int| 0 <= i < hex_lower(bytes).len() ==> {
            let c = #[trigger] hex_lower(bytes)[i];
            ('0' <= c && c <= '9') || ('a' <= c && c <= 'f')
        },
        forall|i: int|
            0 <= i < bytes.len() ==> digit_value(#[trigger] hex_lower(bytes)[2 * i]) * 16
                + digit_value(hex_lower(bytes)[2 * i + 1]) == bytes[i],
    decreases bytes.len(),
{
    lemma_hex_len(bytes);
    if bytes.len() > 0 {
        let prev = bytes.drop_last();
        law_hex_spells_each_byte(prev);
        lemma_hex_len(prev);
        let b = bytes.last();
        let h = hex_lower(bytes);
        let hp = hex_lower(prev);
        assert(h == hp + seq![hex_digit((b / 16) as int), hex_digit((b % 16) as int)]);
        assert(digit_value(hex_digit((b / 16) as int)) == (b / 16) as int);
        assert(digit_value(hex_digit((b % 16) as int)) == (b % 16) as int);
        assert forall|i: int| 0 <= i < h.len() implies ({
            let c = #[trigger] h[i];
            ('0' <= c && c <= '9') || ('a' <= c && c <= 'f')
        }) by {
            if i < hp.len() {
                assert(h[i] == hp[i]);
            }
        }
        assert forall|i: int| 0 <= i < bytes.len() implies digit_value(#[trigger] h[2 * i]) * 16
            + digit_value(h[2 * i + 1]) == bytes[i] by {
            if i < prev.len() {
                assert(h[2 * i] == hp[2 * i]);
                assert(h[2 * i + 1] == hp[2 * i + 1]);
                assert(bytes[i] == prev[i]);
            }
        }
    }
}

/// The version a tool reports is the second space-separated word of its
/// output, and there is none when the output has no space.
pub proof fn law_reported_version_is_second_word(output: Seq<char>)
    ensures
        split_seq(output, ' ').len() >= 2 ==> reported_version_seq(output) == Some(
            split_seq(output, ' ')[1],
        ),
        split_seq(output, ' ').len() < 2 ==> reported_version_seq(output) is None,
{
}

/// An archive unpacks into the part of its name before the first `.`, and
/// into nothing when its name holds no `.`.
pub proof fn law_target_dir_is_first_dotted_part(name: Seq<char>)
    ensures
        split_seq(name, '.').len() >= 2 ==> install_target_dir_seq(name) == Some(
            split_seq(name, '.')[0],
        ),
        split_seq(name, '.').len() < 2 ==> install_target_dir_seq(name) is None,
{
}

} // verus!
