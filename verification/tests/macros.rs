use osutil::error::ErrorKind;
use osutil::macros::{keep, names_macro, package_in, required_macros, spec_file, Captured};

fn lines(text: &[&str]) -> Vec<String> {
    text.iter().map(|l| l.to_string()).collect()
}

#[test]
fn macro_names_hold_macro_or_rpm() {
    assert!(names_macro("python-rpm-macros"));
    assert!(names_macro("systemd-rpm-macros"));
    assert!(names_macro("macros"));
    assert!(names_macro("rpm"));
    assert!(names_macro("cargo-packaging-macro"));
    assert!(!names_macro("gcc"));
    assert!(!names_macro("rp-m"));
    assert!(!names_macro(""));
}

#[test]
fn keep_prefers_the_bracketed_name() {
    let both = Captured {
        bracketed: Some("rpm".to_string()),
        plain: Some("other-macros".to_string()),
    };
    assert_eq!(keep(Some(both)), Some("rpm".to_string()));
    let plain = Captured { bracketed: None, plain: Some("rpm-macros".to_string()) };
    assert_eq!(keep(Some(plain)), Some("rpm-macros".to_string()));
}

#[test]
fn keep_drops_what_names_no_macro() {
    let bracketed = Captured { bracketed: Some("glib-2.0".to_string()), plain: Some("rpm".to_string()) };
    assert_eq!(keep(Some(bracketed)), None);
    let plain = Captured { bracketed: None, plain: Some("gcc-c++".to_string()) };
    assert_eq!(keep(Some(plain)), None);
    assert_eq!(keep(Some(Captured { bracketed: None, plain: None })), None);
    assert_eq!(keep(None), None);
}

#[test]
fn package_is_the_directory_up_to_the_first_dot() {
    assert_eq!(package_in("foo.SLE_15"), "foo");
    assert_eq!(package_in("foo"), "foo");
    assert_eq!(package_in("foo.bar.baz"), "foo");
    assert_eq!(package_in(""), "");
}

#[test]
fn spec_file_is_named_after_the_package() {
    assert_eq!(spec_file("foo"), "foo.spec");
    assert_eq!(spec_file(""), ".spec");
}

#[test]
fn required_macros_of_no_lines() {
    assert_eq!(required_macros(&vec![]), Ok(String::new()));
}

#[test]
fn required_macros_keeps_plain_macro_requirements() {
    let found = required_macros(&lines(&[
        "Name: foo",
        "BuildRequires: python-rpm-macros",
        "BuildRequires: gcc-c++",
        "BuildRequires:  systemd-rpm-macros",
        "Requires: rpm-macros",
    ]));
    assert_eq!(found, Ok("python-rpm-macros systemd-rpm-macros".to_string()));
}

#[test]
fn required_macros_reads_bracketed_names() {
    let found = required_macros(&lines(&[
        "BuildRequires: pkgconfig(rpm)",
        "BuildRequires: pkgconfig(glib-2.0)",
        "BuildRequires: user(macro-user)",
    ]));
    assert_eq!(found, Ok("rpm macro-user".to_string()));
}

#[test]
fn required_macros_passes_over_names_without_a_dash() {
    assert_eq!(required_macros(&lines(&["BuildRequires: rpm"])), Ok(String::new()));
}

#[test]
fn build_requires_pattern_compiles() {
    match required_macros(&lines(&["BuildRequires: a-macros >= 1 2"])) {
        Ok(found) => assert_eq!(found, "a-macros >= 1 2"),
        Err(failure) => {
            assert_eq!(failure.kind, ErrorKind::Pattern);
            panic!("{}", failure.message);
        }
    }
}
