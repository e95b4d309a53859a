use pksc::builtin::path::{file_kind, LuaPath, PathValue};
use std::path::Path;


#[test]
fn from_lua_reads_a_string() {
    let p = LuaPath::from_lua(PathValue::Text("src/main.lua".to_string())).unwrap();
    assert_eq!(p.0, "src/main.lua");
}

#[test]
fn from_lua_reads_the_abspath_of_a_table() {
    let p = LuaPath::from_lua(PathValue::Table { abspath: "/work/a.txt".to_string() }).unwrap();
    assert_eq!(p.0, "/work/a.txt");
}

#[test]
fn from_lua_refuses_other_values() {
    let e = LuaPath::from_lua(PathValue::Other { kind: "number".to_string() }).unwrap_err();
    assert_eq!(e.from, "number");
    assert_eq!(e.to, "LuaPath");
    assert_eq!(e.message, "expected string");
}

#[test]
fn name_stem_extension_of_a_file() {
    let p = LuaPath("/work/archive.tar.gz".to_string());
    assert_eq!(p.file_name().as_deref(), Some("archive.tar.gz"));
    assert_eq!(p.file_stem().as_deref(), Some("archive.tar"));
    assert_eq!(p.extension().as_deref(), Some("gz"));
    assert_eq!(p.parent().as_deref(), Some("/work"));
}

#[test]
fn dot_file_has_no_extension() {
    let p = LuaPath(".bashrc".to_string());
    assert_eq!(p.file_stem().as_deref(), Some(".bashrc"));
    assert_eq!(p.extension(), None);
}

#[test]
fn root_and_parent_dir_have_no_file_name() {
    assert_eq!(LuaPath("/".to_string()).file_name(), None);
    assert_eq!(LuaPath("a/..".to_string()).file_name(), None);
    assert_eq!(LuaPath("/".to_string()).parent(), None);
}

#[test]
fn path_parts_agree_with_std() {
    let cases = [
        "a/b.c", "/x/y/", "file", "dir/.hidden", "a.b.c", "trailing.", "/", ".", "..", "a/./b.txt", "",
        "x/y/..", "/only",
    ];
    for c in cases {
        let p = LuaPath(c.to_string());
        let s = Path::new(c);
        assert_eq!(p.file_name(), s.file_name().map(|x| x.to_string_lossy().into_owned()), "name of {c}");
        assert_eq!(p.file_stem(), s.file_stem().map(|x| x.to_string_lossy().into_owned()), "stem of {c}");
        assert_eq!(p.extension(), s.extension().map(|x| x.to_string_lossy().into_owned()), "extension of {c}");
        assert_eq!(
            p.parent(),
            s.parent().map(|q| q.to_string_lossy().into_owned()),
            "parent of {c}"
        );
    }
}

#[test]
fn describe_gathers_the_parts() {
    let info = LuaPath("docs/readme.md".to_string()).describe();
    assert_eq!(info.name.as_deref(), Some("readme.md"));
    assert_eq!(info.stem.as_deref(), Some("readme"));
    assert_eq!(info.extension.as_deref(), Some("md"));
    assert_eq!(info.parent.as_deref(), Some("docs"));
    assert_eq!(info.path, "docs/readme.md");
}

#[test]
fn file_kind_names() {
    assert_eq!(file_kind(true, false, false), "file");
    assert_eq!(file_kind(false, true, false), "dir");
    assert_eq!(file_kind(false, false, true), "symlink");
    assert_eq!(file_kind(false, false, false), "unknown");
}
