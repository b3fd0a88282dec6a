use aur_helper::deps::{dependency_of_line, parse_dependencies, split_lines, trim_field};

#[test]
fn split_lines_at_newlines() {
    assert_eq!(split_lines("a\nb"), vec!["a", "b"]);
    assert_eq!(split_lines("a\nb\n"), vec!["a", "b", ""]);
    assert_eq!(split_lines("one line"), vec!["one line"]);
    assert_eq!(split_lines(""), vec![""]);
    assert_eq!(split_lines("\n\n"), vec!["", "", ""]);
}

#[test]
fn trim_removes_blanks_on_both_ends() {
    assert_eq!(trim_field("  glibc gcc-libs \t"), "glibc gcc-libs");
    assert_eq!(trim_field("none"), "none");
    assert_eq!(trim_field("   "), "");
    assert_eq!(trim_field(""), "");
    assert_eq!(trim_field(" a b "), "a b");
}

#[test]
fn dependency_of_line_picks_the_field() {
    assert_eq!(
        dependency_of_line("Depends On      : glibc  gcc-libs").as_deref(),
        Some("glibc  gcc-libs")
    );
    assert_eq!(dependency_of_line("Depends On").as_deref(), Some(""));
    assert!(dependency_of_line("Version        : 1.0").is_none());
    assert!(dependency_of_line("").is_none());
}

#[test]
fn parse_dependencies_from_info_output() {
    let stdout = "Name            : foo\n\
                  Version         : 1.0-1\n\
                  Depends On      : glibc  bash\n\
                  Optional Deps   : none\n\
                  Depends On      : extra-lib\n\
                  Packager        : somebody\n";
    assert_eq!(parse_dependencies(stdout), vec!["glibc  bash", "extra-lib"]);
}

#[test]
fn parse_dependencies_with_none_present() {
    let stdout = "Name            : foo\nVersion         : 1.0-1\n";
    assert!(parse_dependencies(stdout).is_empty());
}
