//! Reading version numbers out of tool output and comparing them: the pip
//! version gate and the check that a package was made for the local Python.
use vstd::prelude::*;

use crate::text::{
    concat_str, text_from_bytes, text_of_bytes, push_str, split_char, split_seq, trim, trim_seq, views_of,
};

verus! {

/// How one version relates to another; one variant for each operator of
/// `version_compare::Cmp`.
#[derive(Clone, Copy, Debug, PartialEq, Eq, Structural)]
pub enum VersionOrder {
    Eq,
    Ne,
    Lt,
    Le,
    Ge,
    Gt,
}

/// What `version_compare::compare` answers for two version strings: `None`
/// when either of them is not a version.
pub uninterp spec fn version_comparison(a: Seq<char>, b: Seq<char>) -> Option<VersionOrder>;

/// `version_compare::compare`: parses both strings as versions and compares
/// the first with the second. Claimed: the answer depends on the two strings
/// alone (named `version_comparison`); as the function's documentation
/// says, it is one of `Lt`, `Eq` and `Gt` whenever both strings parse; and a
/// version compared with the same string is `Eq`, as the documentation of
/// `Version::compare` shows and `compare_iter` gives for equal parts. Which
/// strings parse and how different versions order is not stated.
#[verifier::external_body]
fn compare_versions(a: &str, b: &str) -> (res: Option<VersionOrder>)
    ensures
        res == version_comparison(a@, b@),
        res matches Some(o) ==> (o == VersionOrder::Lt || o == VersionOrder::Eq || o
            == VersionOrder::Gt),
        a@ == b@ ==> (res is Some ==> res == Some(VersionOrder::Eq)),
{
    match version_compare::compare(a, b) {
        Ok(version_compare::Cmp::Eq) => Some(VersionOrder::Eq),
        Ok(version_compare::Cmp::Ne) => Some(VersionOrder::Ne),
        Ok(version_compare::Cmp::Lt) => Some(VersionOrder::Lt),
        Ok(version_compare::Cmp::Le) => Some(VersionOrder::Le),
        Ok(version_compare::Cmp::Ge) => Some(VersionOrder::Ge),
        Ok(version_compare::Cmp::Gt) => Some(VersionOrder::Gt),
        Err(()) => None,
    }
}

/// The version a tool reports on its first line, such as `pip 23.0.1 from
/// ...` or `Python 3.11.2`: the second space-separated word.
pub open spec fn reported_version_seq(output: Seq<char>) -> Option<Seq<char>> {
    let words = split_seq(output, ' ');
    if words.len() >= 2 {
        Some(words[1])
    } else {
        None
    }
}

/// Reads the version out of `pip --version` or `python3 --version` output.
pub fn reported_version(output: &str) -> (res: Option<String>)
    ensures
        res matches Some(v) ==> reported_version_seq(output@) == Some(v@),
        res is None ==> reported_version_seq(output@) is None,
{
    let words = split_char(output, ' ');
    proof {
        assert(words@.len() == split_seq(output@, ' ').len());
    }
    if words.len() >= 2 {
        let w = words[1].clone();
        proof {
            assert(views_of(words@)[1] == words@[1]@);
        }
        Some(w)
    } else {
        None
    }
}

/// Reads the version out of what `pip --version` or `python3 --version`
/// wrote to its standard output.
pub fn reported_version_in(stdout: &[u8]) -> (res: Option<String>)
    ensures
        res matches Some(v) ==> reported_version_seq(text_of_bytes(stdout@)) == Some(v@),
        res is None ==> reported_version_seq(text_of_bytes(stdout@)) is None,
{
    let text = text_from_bytes(stdout);
    reported_version(text.as_str())
}

/// The first two `.`-separated components of a version, joined by `.`:
/// `3.11.2` gives `3.11`; there are none when the version holds no `.`.
pub open spec fn major_minor_seq(version: Seq<char>) -> Option<Seq<char>> {
    let parts = split_seq(version, '.');
    if parts.len() >= 2 {
        Some(parts[0] + seq!['.'] + parts[1])
    } else {
        None
    }
}

/// Cuts a version down to its first two components.
pub fn major_minor(version: &str) -> (res: Option<String>)
    ensures
        res matches Some(v) ==> major_minor_seq(version@) == Some(v@),
        res is None ==> major_minor_seq(version@) is None,
{
    let parts = split_char(version, '.');
    proof {
        assert(parts@.len() == split_seq(version@, '.').len());
    }
    if parts.len() >= 2 {
        proof {
            reveal_strlit(".");
            assert(views_of(parts@)[0] == parts@[0]@);
            assert(views_of(parts@)[1] == parts@[1]@);
        }
        let mut out = concat_str(parts[0].as_str(), ".");
        push_str(&mut out, parts[1].as_str());
        Some(out)
    } else {
        None
    }
}

/// The outcome of the Python check once the two versions are compared:
/// whether they agree, and the local version without surrounding white space.
pub open spec fn python_outcome_seq(order: VersionOrder, local_version: Seq<char>) -> (bool, Seq<char>) {
    (order == VersionOrder::Eq, trim_seq(local_version))
}

/// Turns the comparison of the package's and the local `major.minor` into
/// the outcome of the Python check.
pub fn python_outcome(order: VersionOrder, local_version: &str) -> (res: (bool, String))
    ensures
        res.0 == python_outcome_seq(order, local_version@).0,
        res.1@ == python_outcome_seq(order, local_version@).1,
{
    (order == VersionOrder::Eq, trim(local_version))
}

/// Whether a package made for `package_python` suits the Python that wrote
/// `python_stdout`: both are cut to `major.minor` and compared as versions.
/// `None` where no such answer exists: the output names no version, either
/// version has no `.`, or either `major.minor` is not a version.
pub open spec fn python_check_seq(package_python: Seq<char>, python_stdout: Seq<u8>) -> Option<
    (bool, Seq<char>),
> {
    match reported_version_seq(text_of_bytes(python_stdout)) {
        None => None,
        Some(local) => match (major_minor_seq(package_python), major_minor_seq(local)) {
            (Some(l), Some(r)) => match version_comparison(l, r) {
                Some(order) => Some(python_outcome_seq(order, local)),
                None => None,
            },
            _ => None,
        },
    }
}

/// Whether the Python that wrote `python_stdout` reports a version with the
/// same `major.minor` as `package_python`, character for character.
pub open spec fn same_major_minor(package_python: Seq<char>, python_stdout: Seq<u8>) -> bool {
    match reported_version_seq(text_of_bytes(python_stdout)) {
        Some(local) => major_minor_seq(package_python) is Some && major_minor_seq(package_python)
            == major_minor_seq(local),
        None => false,
    }
}

/// Checks that a package made for `package_python` suits the Python that
/// wrote `python_stdout` (the output of `python3 --version`). Returns
/// whether the two `major.minor` versions are equal, and the local version.
pub fn check_python_version(package_python: &str, python_stdout: &[u8]) -> (res: Option<(bool, String)>)
    ensures
        res matches Some(r) ==> python_check_seq(package_python@, python_stdout@) == Some(
            (r.0, r.1@),
        ),
        res is None ==> python_check_seq(package_python@, python_stdout@) is None,
        res matches Some(r) ==> (same_major_minor(package_python@, python_stdout@) ==> r.0),
{
    let local = match reported_version_in(python_stdout) {
        Some(v) => v,
        None => return None,
    };
    let l = match major_minor(package_python) {
        Some(v) => v,
        None => return None,
    };
    let r = match major_minor(local.as_str()) {
        Some(v) => v,
        None => return None,
    };
    match compare_versions(l.as_str(), r.as_str()) {
        Some(order) => {
            let out = python_outcome(order, local.as_str());
            Some(out)
        },
        None => None,
    }
}

/// The oldest pip that can install from a package archive.
pub open spec fn minimum_pip_version() -> Seq<char> {
    seq!['2', '1', '.', '2']
}

/// The pip gate once the installed version is compared with the minimum:
/// passed when it is the same or newer.
pub open spec fn pip_outcome_seq(order: VersionOrder, version: Seq<char>) -> (bool, Seq<char>) {
    (order == VersionOrder::Gt || order == VersionOrder::Eq, version)
}

/// Turns the comparison of the installed pip with the minimum into the
/// outcome of the pip gate.
pub fn pip_outcome(order: VersionOrder, version: String) -> (res: (bool, String))
    ensures
        res.0 == pip_outcome_seq(order, version@).0,
        res.1@ == pip_outcome_seq(order, version@).1,
{
    (order == VersionOrder::Gt || order == VersionOrder::Eq, version)
}

/// The pip gate: with no pip version it fails with an empty version; with
/// one it passes when that version is at least 21.2. `None` when the version
/// is not a version.
pub open spec fn pip_check_seq(pip_version: Option<Seq<char>>) -> Option<(bool, Seq<char>)> {
    match pip_version {
        None => Some((false, Seq::<char>::empty())),
        Some(v) => match version_comparison(v, minimum_pip_version()) {
            Some(order) => Some(pip_outcome_seq(order, v)),
            None => None,
        },
    }
}

/// Decides whether the installed pip is recent enough.
pub fn pip_version_verdict(pip_version: Option<String>) -> (res: Option<(bool, String)>)
    ensures
        res matches Some(r) ==> pip_check_seq(
            match pip_version {
                Some(v) => Some(v@),
                None => None,
            },
        ) == Some((r.0, r.1@)),
        res is None ==> pip_check_seq(
            match pip_version {
                Some(v) => Some(v@),
                None => None,
            },
        ) is None,
{
    match pip_version {
        None => Some((false, String::new())),
        Some(v) => {
            proof {
                reveal_strlit("21.2");
                assert("21.2"@ =~= minimum_pip_version());
            }
            match compare_versions(v.as_str(), "21.2") {
                Some(order) => Some(pip_outcome(order, v)),
                None => None,
            }
        },
    }
}

} // verus!
