use pksc::builtin::compress::{
    archive_format, entry_destination, extracted_path, gz_output_path, tar_output_step, top_level_candidate, zip_output_dir,
    ArchiveFormat, CompressError,
};
use pksc::builtin::corelib::{build_arguments, jit_enabled, module_file_name, module_load_error};
use pksc::builtin::curl::{plan_request, FetchOption};
use pksc::builtin::glob::glob_files;
use pksc::builtin::serializer::{serial_format, serialize_step, SerialFormat, SerializeStep, ValueKind};
use pksc::builtin::shell::copy_destination;
use pksc::registry::{register_all, Builtin, Scope};

fn pair(a: &str, b: &str) -> (String, String) {
    (a.to_string(), b.to_string())
}

#[test]
fn archive_formats_by_name() {
    assert_eq!(archive_format("tar").unwrap(), ArchiveFormat::Tar);
    assert_eq!(archive_format("gz").unwrap(), ArchiveFormat::Gz);
    assert_eq!(archive_format("tar_gz").unwrap(), ArchiveFormat::TarGz);
    assert_eq!(archive_format("zip").unwrap(), ArchiveFormat::Zip);
}

#[test]
fn unknown_archive_format() {
    let e = archive_format("rar").unwrap_err();
    assert!(matches!(&e, CompressError::UnknownFormat { name } if name == "rar"));
    assert_eq!(e.message(), "Unknown compression format: rar");
}

#[test]
fn archive_entries_go_under_the_output_directory() {
    assert_eq!(entry_destination("out", "pkg/lib/a.so"), "out/pkg/lib/a.so");
    assert_eq!(top_level_candidate("out", "pkg/lib/a.so").as_deref(), Some("out/pkg"));
    assert_eq!(top_level_candidate("out", ""), None);
}

#[test]
fn gzip_file_unpacks_under_its_stem() {
    assert_eq!(gz_output_path("dl/data.json.gz", "out").unwrap(), "out/data.json");
    let e = gz_output_path("/", "out").unwrap_err();
    assert!(matches!(e, CompressError::InvalidFileName));
    assert_eq!(e.message(), "Invalid file name");
}

#[test]
fn module_names_and_errors() {
    assert_eq!(module_file_name("tasks"), "tasks.lua");
    assert_eq!(module_load_error("tasks"), "Failed to load module 'tasks'");
}

#[test]
fn build_arguments_drop_an_empty_list() {
    assert_eq!(build_arguments(vec![]), None);
    assert_eq!(build_arguments(vec!["x".to_string()]), Some(vec!["x".to_string()]));
}

#[test]
fn jit_is_on_unless_switched_off() {
    assert!(jit_enabled(None));
    assert!(jit_enabled(Some(true)));
    assert!(!jit_enabled(Some(false)));
}

#[test]
fn fetch_options_become_headers_and_queries() {
    let options = vec![
        ("headers".to_string(), FetchOption::Table(vec![pair("Accept", "text/plain")])),
        ("query".to_string(), FetchOption::Table(vec![pair("q", "1"), pair("r", "2")])),
        ("timeout".to_string(), FetchOption::Table(vec![pair("x", "y")])),
        ("headers".to_string(), FetchOption::Other),
        ("headers".to_string(), FetchOption::Table(vec![pair("X-A", "b")])),
    ];
    let plan = plan_request(&options);
    assert_eq!(plan.headers, vec![pair("Accept", "text/plain"), pair("X-A", "b")]);
    assert_eq!(plan.queries, vec![vec![pair("q", "1"), pair("r", "2")]]);
}

#[test]
fn glob_keeps_readable_entries_in_order() {
    let found = Ok(vec![
        Ok("a.txt".to_string()),
        Err("permission denied".to_string()),
        Ok("b/c.txt".to_string()),
    ]);
    let paths: Vec<String> = glob_files(found).unwrap().into_iter().map(|p| p.0).collect();
    assert_eq!(paths, vec!["a.txt", "b/c.txt"]);
}

#[test]
fn glob_passes_on_a_pattern_error() {
    let e = glob_files(Err("Pattern syntax error".to_string())).err().unwrap();
    assert_eq!(e, "Pattern syntax error");
}

#[test]
fn serial_formats_by_name() {
    assert_eq!(serial_format("json").unwrap(), SerialFormat::Json);
    assert_eq!(serial_format("toml").unwrap(), SerialFormat::Toml);
    assert_eq!(serial_format("yaml").unwrap(), SerialFormat::Yaml);
    assert_eq!(serial_format("ini").unwrap(), SerialFormat::Ini);
    let e = serial_format("xml").unwrap_err();
    assert_eq!(e.message(), "Unsupported serialization format");
}

#[test]
fn copy_into_directory_keeps_file_name() {
    assert_eq!(copy_destination("src/a.txt", "dst", true).as_deref(), Some("dst/a.txt"));
    assert_eq!(copy_destination("src/a.txt", "dst/b.txt", false).as_deref(), Some("dst/b.txt"));
    assert_eq!(copy_destination("/", "dst", true), None);
}

#[test]
fn every_builtin_is_registered_once() {
    let all = register_all();
    assert_eq!(all.len(), 32);
    for (i, a) in all.iter().enumerate() {
        for b in &all[i + 1..] {
            assert_ne!(a, b);
        }
    }
}

#[test]
fn builtin_names_are_distinct_within_a_scope() {
    let all = register_all();
    for (i, a) in all.iter().enumerate() {
        for b in &all[i + 1..] {
            if a.scope() == b.scope() {
                assert_ne!(a.name(), b.name(), "{a:?} and {b:?}");
            }
        }
    }
}

#[test]
fn builtin_tables() {
    assert_eq!(Builtin::IoOpen.name(), "open");
    assert_eq!(Builtin::IoOpen.scope(), Scope::Io);
    assert_eq!(Builtin::ReReplaceAll.name(), "replace_all");
    assert_eq!(Builtin::ReReplaceAll.scope(), Scope::Re);
    assert_eq!(Builtin::Iwd.name(), "IWD");
    assert_eq!(Builtin::Iwd.scope(), Scope::Global);
}

#[test]
fn serialize_steps_by_kind() {
    assert_eq!(serialize_step(ValueKind::Table { serializer: true }), SerializeStep::CallAndWalk);
    assert_eq!(serialize_step(ValueKind::Table { serializer: false }), SerializeStep::CopyPairs);
    assert_eq!(serialize_step(ValueKind::UserData { serializer: true }), SerializeStep::CallAndReturn);
    assert_eq!(serialize_step(ValueKind::UserData { serializer: false }), SerializeStep::EmptyTable);
    assert_eq!(serialize_step(ValueKind::Other), SerializeStep::Unchanged);
}

#[test]
fn unpacked_directory_choice() {
    let s = |x: &str| Some(x.to_string());
    assert_eq!(tar_output_step(None, s("out/pkg"), false), None);
    assert_eq!(tar_output_step(None, s("out/pkg"), true), s("out/pkg"));
    assert_eq!(tar_output_step(s("out/a"), s("out/b"), true), s("out/a"));
    assert_eq!(tar_output_step(None, None, true), None);
    assert_eq!(zip_output_dir(0, "out/pkg".to_string(), true), s("out/pkg"));
    assert_eq!(zip_output_dir(1, "out/pkg".to_string(), true), None);
    assert_eq!(zip_output_dir(0, "out/a.txt".to_string(), false), None);
    assert_eq!(extracted_path("out".to_string(), s("out/pkg")), "out/pkg");
    assert_eq!(extracted_path("out".to_string(), None), "out");
}
