use poit::version::{
    check_python_version, major_minor, pip_outcome, pip_version_verdict, python_outcome,
    reported_version, reported_version_in, VersionOrder,
};

#[test]
fn version_is_the_second_word() {
    assert_eq!(
        reported_version("pip 23.0.1 from /usr/lib/python3/dist-packages/pip (python 3.11)\n"),
        Some("23.0.1".to_string())
    );
    assert_eq!(reported_version("Python 3.11.2\n"), Some("3.11.2\n".to_string()));
    assert_eq!(reported_version("pip"), None);
    assert_eq!(reported_version(""), None);
    assert_eq!(reported_version_in(b"Python 3.12.1\n"), Some("3.12.1\n".to_string()));
}

#[test]
fn major_minor_takes_two_components() {
    assert_eq!(major_minor("3.11.2"), Some("3.11".to_string()));
    assert_eq!(major_minor("3.11"), Some("3.11".to_string()));
    assert_eq!(major_minor("3"), None);
}

#[test]
fn python_check_compares_major_minor() {
    assert_eq!(
        check_python_version("3.11.2", b"Python 3.11.4\n"),
        Some((true, "3.11.4".to_string()))
    );
    assert_eq!(
        check_python_version("3.10.1", b"Python 3.11.4\n"),
        Some((false, "3.11.4".to_string()))
    );
    assert_eq!(check_python_version("3.11.2", b"Python\n"), None);
    assert_eq!(check_python_version("null", b"Python 3.11.4\n"), None);
    assert_eq!(check_python_version("abc.def", b"Python 3.11.4\n"), None);
}

#[test]
fn python_outcome_from_order() {
    assert_eq!(python_outcome(VersionOrder::Eq, " 3.9.1\n"), (true, "3.9.1".to_string()));
    assert_eq!(python_outcome(VersionOrder::Lt, "3.9.1"), (false, "3.9.1".to_string()));
}

#[test]
fn pip_gate() {
    assert_eq!(pip_version_verdict(None), Some((false, String::new())));
    assert_eq!(
        pip_version_verdict(Some("23.0.1".to_string())),
        Some((true, "23.0.1".to_string()))
    );
    assert_eq!(
        pip_version_verdict(Some("21.2".to_string())),
        Some((true, "21.2".to_string()))
    );
    assert_eq!(
        pip_version_verdict(Some("21.1.3".to_string())),
        Some((false, "21.1.3".to_string()))
    );
    assert_eq!(
        pip_version_verdict(Some("9.0.1".to_string())),
        Some((false, "9.0.1".to_string()))
    );
    assert_eq!(pip_version_verdict(Some("abc".to_string())), None);
    assert_eq!(pip_outcome(VersionOrder::Gt, "x".to_string()), (true, "x".to_string()));
    assert_eq!(pip_outcome(VersionOrder::Lt, "x".to_string()), (false, "x".to_string()));
}
