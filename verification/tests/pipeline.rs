use nv_helper::artifacts::{dedup_packages, filter_multilib_packages, parse_package_list};
use nv_helper::builder::{builder_argv, BuildMode};
use nv_helper::strutil::{file_name, starts_with, str_contains, str_eq, str_lt, trim};

fn strings(v: &[&str]) -> Vec<String> {
    v.iter().map(|s| s.to_string()).collect()
}

#[test]
fn filter_keeps_native_only_without_multilib() {
    let input = strings(&["pkgA-1.0-x86_64.pkg", "lib32-pkgA-1.0-x86_64.pkg"]);
    let out = filter_multilib_packages(input, false);
    assert_eq!(out, strings(&["pkgA-1.0-x86_64.pkg"]));
}

#[test]
fn filter_keeps_everything_with_multilib() {
    let input = strings(&["pkgA-1.0-x86_64.pkg", "lib32-pkgA-1.0-x86_64.pkg"]);
    let out = filter_multilib_packages(input.clone(), true);
    assert_eq!(out, input);
}

#[test]
fn filter_looks_at_file_name_not_directory() {
    let input = strings(&[
        "/var/cache/nv-helper/pkg/lib32-foo-1.0.pkg",
        "/var/cache/lib32-dir/foo-1.0.pkg",
    ]);
    let out = filter_multilib_packages(input, false);
    assert_eq!(out, strings(&["/var/cache/lib32-dir/foo-1.0.pkg"]));
}

#[test]
fn filter_of_empty_list_is_empty() {
    let out = filter_multilib_packages(Vec::new(), false);
    assert!(out.is_empty());
}

#[test]
fn parse_package_list_splits_trims_and_drops_blanks() {
    let out = parse_package_list("  /a/b.pkg \n\n/c/d.pkg\n");
    assert_eq!(out, strings(&["/a/b.pkg", "/c/d.pkg"]));
}

#[test]
fn parse_package_list_handles_missing_final_newline() {
    let out = parse_package_list("/a/b.pkg\n/c/d.pkg");
    assert_eq!(out, strings(&["/a/b.pkg", "/c/d.pkg"]));
}

#[test]
fn parse_package_list_of_whitespace_is_empty() {
    let out = parse_package_list("   \n\t\n\r\n");
    assert!(out.is_empty());
    assert!(parse_package_list("").is_empty());
}

#[test]
fn dedup_sorts_ascending_and_removes_duplicates() {
    let out = dedup_packages(strings(&["c.pkg", "a.pkg", "b.pkg", "a.pkg", "c.pkg"]));
    assert_eq!(out, strings(&["a.pkg", "b.pkg", "c.pkg"]));
}

#[test]
fn dedup_sorts_even_distinct_input() {
    let out = dedup_packages(strings(&["b", "a"]));
    assert_eq!(out, strings(&["a", "b"]));
    let sorted = strings(&["a", "b"]);
    assert_eq!(dedup_packages(sorted.clone()), sorted);
    assert!(dedup_packages(Vec::new()).is_empty());
}

#[test]
fn str_lt_orders_by_code_point() {
    assert!(str_lt("a", "b"));
    assert!(!str_lt("b", "a"));
    assert!(!str_lt("a", "a"));
    assert!(str_lt("", "a"));
    assert!(str_lt("ab", "abc"));
    assert!(!str_lt("abc", "ab"));
    assert!(str_lt("Z", "a"));
}

#[test]
fn build_argv_switches_identity_and_forces_a_full_rebuild() {
    assert_eq!(
        builder_argv(BuildMode::ForceBuild),
        strings(&[
            "runuser",
            "-u",
            "nvbuild",
            "--",
            "env",
            "PKGDEST=/var/cache/nv-helper/pkg",
            "HOME=/var/lib/nv-helper/home",
            "makepkg",
            "-f",
            "--noconfirm",
            "--needed",
        ])
    );
}

#[test]
fn listing_argv_switches_identity_and_only_lists() {
    assert_eq!(
        builder_argv(BuildMode::ListArtifacts),
        strings(&[
            "runuser",
            "-u",
            "nvbuild",
            "--",
            "env",
            "PKGDEST=/var/cache/nv-helper/pkg",
            "HOME=/var/lib/nv-helper/home",
            "makepkg",
            "--packagelist",
        ])
    );
}

#[test]
fn str_eq_compares_characters() {
    assert!(str_eq("abc", "abc"));
    assert!(!str_eq("abc", "abd"));
    assert!(!str_eq("abc", "ab"));
    assert!(str_eq("", ""));
}

#[test]
fn starts_with_checks_prefix() {
    assert!(starts_with("lib32-foo", "lib32-"));
    assert!(!starts_with("lib-foo", "lib32-"));
    assert!(!starts_with("lib", "lib32-"));
    assert!(starts_with("anything", ""));
}

#[test]
fn str_contains_finds_substrings() {
    assert!(str_contains("nvidia-580xx-utils", "utils"));
    assert!(str_contains("nvidia-580xx-settings", "settings"));
    assert!(!str_contains("nvidia-580xx-utils", "settings"));
    assert!(str_contains("abc", ""));
    assert!(!str_contains("ab", "abc"));
}

#[test]
fn file_name_takes_last_component() {
    assert_eq!(file_name("/a/b/c.pkg"), "c.pkg");
    assert_eq!(file_name("c.pkg"), "c.pkg");
    assert_eq!(file_name("/a/b/"), "");
    assert_eq!(file_name(""), "");
}

#[test]
fn trim_strips_surrounding_whitespace() {
    assert_eq!(trim("  x y \t\r"), "x y");
    assert_eq!(trim("xy"), "xy");
    assert_eq!(trim(" \t "), "");
}
