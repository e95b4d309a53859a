use pksc::paths::{components, join, starts_with};
use pksc::utils::{harden_candidate, harden_path, HardenError};

fn std_components(p: &str) -> Vec<String> {
    std::path::Path::new(p)
        .components()
        .map(|c| c.as_os_str().to_string_lossy().into_owned())
        .collect()
}

#[test]
fn join_relative_inserts_separator() {
    assert_eq!(join("/home/user", "src/main.rs"), "/home/user/src/main.rs");
}

#[test]
fn join_onto_base_with_trailing_separator() {
    assert_eq!(join("/home/user/", "a"), "/home/user/a");
}

#[test]
fn join_absolute_replaces_base() {
    assert_eq!(join("/home/user", "/etc/passwd"), "/etc/passwd");
}

#[test]
fn join_onto_empty_base() {
    assert_eq!(join("", "a/b"), "a/b");
}

#[test]
fn join_agrees_with_std() {
    for (b, p) in [("/a/b", "c"), ("a", "b/c"), ("/", "x"), ("/a/", "/b"), ("x/y", "")] {
        let ours = join(b, p);
        let theirs = std::path::Path::new(b).join(p);
        assert_eq!(ours, theirs.to_string_lossy());
    }
}

#[test]
fn components_of_absolute_path() {
    assert_eq!(components("/usr//lib/./x"), vec!["/", "usr", "lib", "x"]);
}

#[test]
fn components_keep_leading_cur_dir_and_parent_dirs() {
    assert_eq!(components("./a/../b/"), vec![".", "a", "..", "b"]);
}

#[test]
fn components_of_empty_path() {
    assert!(components("").is_empty());
}

#[test]
fn components_agree_with_std() {
    for p in ["/a/b/c", "a/./b", "./x", ".", "/", "a//b/", "../up", "x/.", "/./y", "..", "a/.b/c."] {
        assert_eq!(components(p), std_components(p), "path {p}");
    }
}

#[test]
fn starts_with_whole_components_only() {
    assert!(starts_with("/home/user/project/a", "/home/user/project"));
    assert!(!starts_with("/home/user/projectile", "/home/user/project"));
    assert!(starts_with("/home/user/project", "/home/user/project/"));
    assert!(!starts_with("/home", "/home/user"));
}

#[test]
fn starts_with_agrees_with_std() {
    let cases = [
        ("/a/b/c", "/a/b"),
        ("/a/bc", "/a/b"),
        ("a/b", "a"),
        ("a/b", "/a"),
        ("/a", "/"),
        ("./a", "."),
        ("x", ""),
    ];
    for (c, b) in cases {
        assert_eq!(starts_with(c, b), std::path::Path::new(c).starts_with(b), "{c} under {b}");
    }
}

#[test]
fn harden_candidate_makes_rooted_paths_relative_to_cwd() {
    assert_eq!(harden_candidate("/work", "/etc/passwd"), "/work/etc/passwd");
    assert_eq!(harden_candidate("/work", "src/a.lua"), "/work/src/a.lua");
}

#[test]
fn harden_path_accepts_path_under_root() {
    assert_eq!(
        harden_path("/work/src/a.lua", "/work", "src/a.lua").unwrap(),
        "/work/src/a.lua"
    );
}

#[test]
fn harden_path_refuses_path_outside_root() {
    let err = harden_path("/etc/passwd", "/work", "../../etc/passwd").unwrap_err();
    match &err {
        HardenError::OutsideRoot { path } => assert_eq!(path, "../../etc/passwd"),
    }
    assert_eq!(
        err.message(),
        "File not found \"../../etc/passwd\", files outside of the script directory cannot be accessed"
    );
}

#[test]
fn harden_path_refuses_sibling_with_common_prefix() {
    assert!(harden_path("/workshop/x", "/work", "../workshop/x").is_err());
}

#[test]
fn relative_path_joined_onto_base_stays_under_it() {
    for (b, p) in [("/a/b", "c/d"), ("a", "../x"), (".", "./y"), ("/", "z"), ("x/", ""), ("", "q")] {
        assert!(starts_with(&join(b, p), b), "{p} onto {b}");
    }
}

#[test]
fn candidate_stays_under_cwd() {
    for p in ["/etc/passwd", "a/b", "../up", "/"] {
        assert!(starts_with(&harden_candidate("/work", p), "/work"), "{p}");
    }
    assert_eq!(harden_candidate("/work", "//etc/passwd"), "/etc/passwd");
}
