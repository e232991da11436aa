//! The names a package passes through: the pip requirement, the archive and
//! checksum file names, the directory an archive unpacks into, the
//! configuration file inside it, and the arguments handed to pip.
use vstd::prelude::*;

use crate::text::{
    concat_str, contains_char, lemma_split_first_piece, lemma_split_without_sep, push_str, same_text,
    split_char, split_seq, views_of,
};

verus! {

/// Name of the configuration file stored in every package archive.
pub const DEFAULT_CONFIG_NAME: &'static str = "config";

/// Extension of package archives.
pub const DEFAULT_PACKAGE_SUFFIX: &'static str = "poit";

/// Extension of checksum files.
pub const DEFAULT_SHA256_SUFFIX: &'static str = "sha256";

/// The value an option holds when the user left it out.
pub const UNSET: &'static str = "null";

pub open spec fn unset_marker() -> Seq<char> {
    seq!['n', 'u', 'l', 'l']
}

pub open spec fn config_name() -> Seq<char> {
    seq!['c', 'o', 'n', 'f', 'i', 'g']
}

pub open spec fn package_suffix() -> Seq<char> {
    seq!['p', 'o', 'i', 't']
}

pub open spec fn sha256_suffix() -> Seq<char> {
    seq!['s', 'h', 'a', '2', '5', '6']
}

/// `"=="`, between a package and its version in a pip requirement.
pub open spec fn version_pin() -> Seq<char> {
    seq!['=', '=']
}

/// Whether an option was left unset.
pub fn is_unset(value: &str) -> (res: bool)
    ensures
        res == (value@ == unset_marker()),
{
    proof {
        reveal_strlit("null");
        assert("null"@ =~= unset_marker());
    }
    same_text(value, "null")
}

/// The name of the configuration file.
pub fn config_name_str() -> (res: &'static str)
    ensures
        res@ == config_name(),
{
    proof {
        reveal_strlit("config");
    }
    DEFAULT_CONFIG_NAME
}

/// A package name is accepted when it carries no version constraint, that is
/// none of `~`, `>`, `<` and `=`; versions are given separately.
pub open spec fn package_name_ok(name: Seq<char>) -> bool {
    !name.contains('~') && !name.contains('>') && !name.contains('<') && !name.contains('=')
}

/// Checks that a package name carries no version constraint.
pub fn package_name_check(package_name: &str) -> (res: bool)
    ensures
        res == package_name_ok(package_name@),
{
    !(contains_char(package_name, '~') || contains_char(package_name, '>') || contains_char(
        package_name,
        '<',
    ) || contains_char(package_name, '='))
}

/// The pip requirement: the bare name, or `name==version` when a version is
/// set.
pub open spec fn package_spec_seq(name: Seq<char>, version: Seq<char>) -> Seq<char> {
    if version == unset_marker() {
        name
    } else {
        name + version_pin() + version
    }
}

/// Builds the pip requirement for a package.
pub fn package_spec(package_name: &str, package_version: &str) -> (res: String)
    ensures
        res@ == package_spec_seq(package_name@, package_version@),
{
    if is_unset(package_version) {
        package_name.to_owned()
    } else {
        proof {
            reveal_strlit("==");
        }
        let mut out = concat_str(package_name, "==");
        push_str(&mut out, package_version);
        out
    }
}

/// The archive name: `name.poit`, whatever version was packed; the version
/// is given again when installing.
pub open spec fn package_file_name_seq(name: Seq<char>) -> Seq<char> {
    name + seq!['.'] + package_suffix()
}

/// Builds the archive name for a package.
pub fn package_file_name(package_name: &str) -> (res: String)
    ensures
        res@ == package_file_name_seq(package_name@),
{
    proof {
        reveal_strlit(".");
        reveal_strlit("poit");
    }
    let mut out = package_name.to_owned();
    push_str(&mut out, ".");
    push_str(&mut out, DEFAULT_PACKAGE_SUFFIX);
    out
}

/// The checksum file that goes with an archive: `archive.sha256`.
pub open spec fn hash_file_name_seq(file: Seq<char>) -> Seq<char> {
    file + seq!['.'] + sha256_suffix()
}

/// Builds the checksum file name for an archive.
pub fn hash_file_name(file_name: &str) -> (res: String)
    ensures
        res@ == hash_file_name_seq(file_name@),
{
    proof {
        reveal_strlit(".");
        reveal_strlit("sha256");
    }
    let mut out = concat_str(file_name, ".");
    push_str(&mut out, DEFAULT_SHA256_SUFFIX);
    out
}

/// The directory an archive unpacks into: the part of its name before the
/// first `.`; there is none when the name holds no `.`.
pub open spec fn install_target_dir_seq(file: Seq<char>) -> Option<Seq<char>> {
    let pieces = split_seq(file, '.');
    if pieces.len() >= 2 {
        Some(pieces[0])
    } else {
        None
    }
}

/// Finds the directory an archive unpacks into.
pub fn install_target_dir(poitfile_name: &str) -> (res: Option<String>)
    ensures
        res matches Some(d) ==> install_target_dir_seq(poitfile_name@) == Some(d@),
        res is None ==> install_target_dir_seq(poitfile_name@) is None,
{
    let pieces = split_char(poitfile_name, '.');
    proof {
        assert(pieces@.len() == split_seq(poitfile_name@, '.').len());
    }
    if pieces.len() >= 2 {
        let first = pieces[0].clone();
        proof {
            assert(views_of(pieces@)[0] == pieces@[0]@);
        }
        Some(first)
    } else {
        None
    }
}

/// The configuration file inside an unpacked archive: `dir/config`.
pub open spec fn config_file_path_seq(dir: Seq<char>) -> Seq<char> {
    dir + seq!['/'] + config_name()
}

/// Builds the path of the configuration file inside an unpacked archive.
pub fn config_file_path(target_dir: &str) -> (res: String)
    ensures
        res@ == config_file_path_seq(target_dir@),
{
    proof {
        reveal_strlit("/");
        reveal_strlit("config");
    }
    let mut out = concat_str(target_dir, "/");
    push_str(&mut out, DEFAULT_CONFIG_NAME);
    out
}

pub open spec fn download_word() -> Seq<char> {
    seq!['d', 'o', 'w', 'n', 'l', 'o', 'a', 'd']
}

pub open spec fn install_word() -> Seq<char> {
    seq!['i', 'n', 's', 't', 'a', 'l', 'l']
}

pub open spec fn no_index_flag() -> Seq<char> {
    seq!['-', '-', 'n', 'o', '-', 'i', 'n', 'd', 'e', 'x']
}

pub open spec fn find_links_prefix() -> Seq<char> {
    seq!['-', '-', 'f', 'i', 'n', 'd', '-', 'l', 'i', 'n', 'k', 's', '=', '.', '/']
}

/// `--find-links=./dir/`: pip looks for wheels in the unpacked directory.
pub open spec fn find_links_seq(dir: Seq<char>) -> Seq<char> {
    find_links_prefix() + dir + seq!['/']
}

/// The arguments of `pip` that download a package and its dependencies into
/// the working directory.
pub open spec fn download_arguments_seq(name: Seq<char>, version: Seq<char>) -> Seq<Seq<char>> {
    seq![download_word(), package_spec_seq(name, version)]
}

/// The arguments of `pip` that install a package from an unpacked archive
/// without touching the network.
pub open spec fn install_arguments_seq(dir: Seq<char>, version: Seq<char>) -> Seq<Seq<char>> {
    seq![install_word(), no_index_flag(), find_links_seq(dir), package_spec_seq(dir, version)]
}

/// Builds the arguments of `pip download`.
pub fn download_arguments(package_name: &str, package_version: &str) -> (res: Vec<String>)
    ensures
        views_of(res@) == download_arguments_seq(package_name@, package_version@),
{
    proof {
        reveal_strlit("download");
    }
    let mut args: Vec<String> = Vec::new();
    args.push("download".to_owned());
    args.push(package_spec(package_name, package_version));
    assert(args@[0]@ == download_word());
    assert(views_of(args@) =~= download_arguments_seq(package_name@, package_version@));
    args
}

/// Builds the arguments of `pip install` for the package unpacked into
/// `target_dir`.
pub fn install_arguments(target_dir: &str, package_version: &str) -> (res: Vec<String>)
    ensures
        views_of(res@) == install_arguments_seq(target_dir@, package_version@),
{
    proof {
        reveal_strlit("install");
        reveal_strlit("--no-index");
        reveal_strlit("--find-links=./");
        reveal_strlit("/");
    }
    let mut find_links = concat_str("--find-links=./", target_dir);
    push_str(&mut find_links, "/");
    let mut args: Vec<String> = Vec::new();
    args.push("install".to_owned());
    args.push("--no-index".to_owned());
    args.push(find_links);
    args.push(package_spec(target_dir, package_version));
    assert(args@[0]@ == install_word());
    assert(args@[1]@ == no_index_flag());
    assert(args@[2]@ == find_links_seq(target_dir@));
    assert(views_of(args@) =~= install_arguments_seq(target_dir@, package_version@));
    args
}

/// An archive made for a package unpacks into a directory named after the
/// package, provided the name holds no `.`.
pub proof fn lemma_archive_unpacks_to_name(name: Seq<char>)
    requires
        !name.contains('.'),
    ensures
        install_target_dir_seq(package_file_name_seq(name)) == Some(name),
{
    let file = package_file_name_seq(name);
    assert(file =~= name.push('.') + package_suffix());
    lemma_split_first_piece(name, package_suffix(), '.');
    assert(!package_suffix().contains('.')) by {
        if package_suffix().contains('.') {
            let k = choose|k: int| 0 <= k < package_suffix().len() && package_suffix()[k] == '.';
            assert(package_suffix()[k] == '.');
        }
    }
    lemma_split_without_sep(package_suffix(), '.');
    assert(split_seq(file, '.') =~= seq![name, package_suffix()]);
}

} // verus!
