use poit::files::write_to_file;
use poit::names::{
    config_file_path, download_arguments, hash_file_name, install_arguments, install_target_dir,
    is_unset, package_file_name, package_name_check, package_spec, DEFAULT_CONFIG_NAME,
    DEFAULT_PACKAGE_SUFFIX, DEFAULT_SHA256_SUFFIX,
};

#[test]
fn package_name_without_constraint_is_accepted() {
    assert!(package_name_check("ipython"));
    assert!(package_name_check("python-telegram-bot"));
    for bad in ["ipython>=8", "ipython<9", "ipython~=8.0", "ipython==8.26.0"] {
        assert!(!package_name_check(bad));
    }
}

#[test]
fn package_spec_pins_the_version() {
    assert_eq!(package_spec("ipython", "8.26.0"), "ipython==8.26.0");
    assert_eq!(package_spec("ipython", "null"), "ipython");
}

#[test]
fn unset_marker() {
    assert!(is_unset("null"));
    assert!(!is_unset("nul"));
    assert!(!is_unset("8.26.0"));
}

#[test]
fn archive_and_checksum_names() {
    assert_eq!(package_file_name("ipython"), "ipython.poit");
    assert_eq!(hash_file_name("ipython.poit"), "ipython.poit.sha256");
    assert_eq!(DEFAULT_CONFIG_NAME, "config");
    assert_eq!(DEFAULT_PACKAGE_SUFFIX, "poit");
    assert_eq!(DEFAULT_SHA256_SUFFIX, "sha256");
}

#[test]
fn target_dir_is_the_name_before_the_first_dot() {
    assert_eq!(install_target_dir("ipython.poit"), Some("ipython".to_string()));
    assert_eq!(install_target_dir("ipython_8.26.0.poit"), Some("ipython_8".to_string()));
    assert_eq!(install_target_dir("ipython"), None);
    assert_eq!(install_target_dir(".poit"), Some(String::new()));
    assert_eq!(config_file_path("ipython"), "ipython/config");
}

#[test]
fn pip_arguments() {
    assert_eq!(download_arguments("ipython", "null"), vec!["download", "ipython"]);
    assert_eq!(
        download_arguments("ipython", "8.26.0"),
        vec!["download", "ipython==8.26.0"]
    );
    assert_eq!(
        install_arguments("ipython", "null"),
        vec!["install", "--no-index", "--find-links=./ipython/", "ipython"]
    );
    assert_eq!(
        install_arguments("ipython", "8.26.0"),
        vec!["install", "--no-index", "--find-links=./ipython/", "ipython==8.26.0"]
    );
}

#[test]
fn write_describes_utf8_bytes() {
    let w = write_to_file("out.txt", "héllo");
    assert_eq!(w.path, "out.txt");
    assert_eq!(w.bytes, "héllo".as_bytes().to_vec());
}
