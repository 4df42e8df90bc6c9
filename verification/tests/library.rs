use llvm_src::artifacts::Artifacts;
use llvm_src::config::llvm_source_dir;
use llvm_src::paths::join_path_str;
use llvm_src::paths::strip_extension;
use llvm_src::Build;
use llvm_src::BuildError;
use llvm_src::FsEntry;

fn entry(name: &str, is_file: bool) -> FsEntry {
    FsEntry { name: name.to_string(), is_file }
}

#[test]
fn plan_without_host_fails() {
    let mut b = Build::new();
    b.target("x86_64-unknown-linux-gnu");
    b.profile("Release");
    b.out_dir("target");
    assert_eq!(b.plan().err(), Some(BuildError::MissingHost));
}

#[test]
fn plan_without_target_fails() {
    let mut b = Build::new();
    b.host("x86_64-unknown-linux-gnu");
    b.profile("Release");
    b.out_dir("target");
    assert_eq!(b.plan().err(), Some(BuildError::MissingTarget));
}

#[test]
fn plan_without_profile_fails() {
    let mut b = Build::new();
    b.host("x86_64-unknown-linux-gnu");
    b.target("x86_64-unknown-linux-gnu");
    b.out_dir("target");
    assert_eq!(b.plan().err(), Some(BuildError::MissingProfile));
}

#[test]
fn plan_without_out_dir_fails() {
    let mut b = Build::new();
    b.host("x86_64-unknown-linux-gnu");
    b.target("x86_64-unknown-linux-gnu");
    b.profile("Release");
    assert_eq!(b.plan().err(), Some(BuildError::MissingOutDir));
}

#[test]
fn plan_reports_host_first_when_all_unset() {
    let b = Build::new();
    assert_eq!(b.plan().err(), Some(BuildError::MissingHost));
}

#[test]
fn plan_carries_all_four_fields() {
    let mut b = Build::new();
    b.host("aarch64-apple-darwin");
    b.target("x86_64-pc-windows-msvc");
    b.profile("Debug");
    b.out_dir("target");
    let p = b.plan().unwrap();
    assert_eq!(p.host, "aarch64-apple-darwin");
    assert_eq!(p.target, "x86_64-pc-windows-msvc");
    assert_eq!(p.profile, "Debug");
    assert_eq!(p.out_dir, "target/llvm-build");
}

#[test]
fn out_dir_appends_fixed_segment() {
    let mut b = Build::new();
    b.host("h");
    b.target("t");
    b.profile("Release");
    b.out_dir("/tmp/does/not/exist");
    let p = b.plan().unwrap();
    assert_eq!(p.out_dir, "/tmp/does/not/exist/llvm-build");
}

#[test]
fn from_env_applies_fixed_segment_to_out_dir() {
    let b = Build::from_env(
        Some("h".to_string()),
        Some("t".to_string()),
        Some("base".to_string()),
        Some("Release".to_string()),
    );
    let p = b.plan().unwrap();
    assert_eq!(p.out_dir, "base/llvm-build");
}

#[test]
fn from_env_leaves_absent_fields_unset() {
    let b = Build::from_env(Some("h".to_string()), Some("t".to_string()), None, Some("Release".to_string()));
    assert_eq!(b.plan().err(), Some(BuildError::MissingOutDir));
}

#[test]
fn from_env_same_snapshot_yields_identical_configs() {
    let snapshot = (
        Some("x86_64-unknown-linux-gnu".to_string()),
        Some("aarch64-apple-darwin".to_string()),
        Some("out".to_string()),
        Some("Release".to_string()),
    );
    let a = Build::from_env(
        snapshot.0.clone(),
        snapshot.1.clone(),
        snapshot.2.clone(),
        snapshot.3.clone(),
    );
    let b = Build::from_env(snapshot.0, snapshot.1, snapshot.2, snapshot.3);
    let pa = a.plan().unwrap();
    let pb = b.plan().unwrap();
    assert_eq!(pa.host, pb.host);
    assert_eq!(pa.target, pb.target);
    assert_eq!(pa.out_dir, pb.out_dir);
    assert_eq!(pa.profile, pb.profile);
}

#[test]
fn setters_override_environment_values() {
    let mut b = Build::from_env(
        Some("env-host".to_string()),
        Some("env-target".to_string()),
        Some("env-out".to_string()),
        Some("env-profile".to_string()),
    );
    b.host("set-host");
    b.out_dir("set-out");
    let p = b.plan().unwrap();
    assert_eq!(p.host, "set-host");
    assert_eq!(p.target, "env-target");
    assert_eq!(p.out_dir, "set-out/llvm-build");
    assert_eq!(p.profile, "env-profile");
}

#[test]
fn derived_dirs_hang_off_out_dir() {
    let a = Artifacts::from_dir_entries("out/llvm-build", &Vec::new()).unwrap();
    assert_eq!(a.include_dir(), "out/llvm-build/include");
    assert_eq!(a.lib(), "out/llvm-build/lib");
    assert!(a.libs().is_empty());
}

#[test]
fn libs_strip_extensions_and_skip_directories() {
    let entries = vec![
        entry("libFoo.a", true),
        entry("libBar.so", true),
        entry("notes.txt", true),
        entry("CMakeFiles", false),
    ];
    let a = Artifacts::from_dir_entries("out", &entries).unwrap();
    assert_eq!(a.libs(), &["libFoo", "libBar", "notes"]);
}

#[test]
fn directory_without_extension_is_not_an_error() {
    let entries = vec![entry("subdir", false), entry("libz.a", true)];
    let a = Artifacts::from_dir_entries("out", &entries).unwrap();
    assert_eq!(a.libs(), &["libz"]);
}

#[test]
fn file_without_extension_is_an_error() {
    let entries = vec![entry("libFoo.a", true), entry("README", true)];
    let r = Artifacts::from_dir_entries("out", &entries);
    assert_eq!(r.err(), Some(BuildError::UnexpectedArtifactName));
}

#[test]
fn only_the_last_extension_is_stripped() {
    let entries = vec![entry("libc++.so.1", true)];
    let a = Artifacts::from_dir_entries("out", &entries).unwrap();
    assert_eq!(a.libs(), &["libc++.so"]);
}

#[test]
fn strip_extension_on_plain_names() {
    assert_eq!(strip_extension("libFoo.a").as_deref(), Some("libFoo"));
    assert_eq!(strip_extension("a.b.c").as_deref(), Some("a.b"));
    assert_eq!(strip_extension(".hidden").as_deref(), Some(""));
    assert_eq!(strip_extension("README"), None);
    assert_eq!(strip_extension(""), None);
}

#[test]
fn metadata_has_two_lines_plus_one_per_library() {
    let entries = vec![
        entry("libFoo.a", true),
        entry("libBar.so", true),
        entry("notes.txt", true),
    ];
    let a = Artifacts::from_dir_entries("out", &entries).unwrap();
    let lines = a.cargo_metadata_lines();
    assert_eq!(lines.len(), 2 + a.libs().len());
    assert_eq!(
        lines,
        vec![
            "cargo:include=out/include".to_string(),
            "cargo:lib=out/lib".to_string(),
            "cargo:rustc-link-lib=libFoo".to_string(),
            "cargo:rustc-link-lib=libBar".to_string(),
            "cargo:rustc-link-lib=notes".to_string(),
        ]
    );
}

#[test]
fn metadata_of_empty_library_list_is_two_lines() {
    let a = Artifacts::from_dir_entries("o", &Vec::new()).unwrap();
    let lines = a.cargo_metadata_lines();
    assert_eq!(lines, vec!["cargo:include=o/include".to_string(), "cargo:lib=o/lib".to_string()]);
}

#[test]
fn error_messages_name_the_missing_variable() {
    assert_eq!(BuildError::MissingHost.message(), "HOST not set");
    assert_eq!(BuildError::MissingTarget.message(), "TARGET not set");
    assert_eq!(BuildError::MissingProfile.message(), "PROFILE not set");
    assert_eq!(BuildError::MissingOutDir.message(), "OUT_DIR not set");
    assert_eq!(
        BuildError::UnexpectedArtifactName.message(),
        "library file name has no extension"
    );
}

#[test]
fn join_path_inserts_one_separator() {
    assert_eq!(join_path_str("a", "b"), "a/b");
    assert_eq!(join_path_str("", "b"), "/b");
}

#[test]
fn source_dir_is_fixed_below_manifest_dir() {
    assert_eq!(llvm_source_dir("/crates/llvm-src"), "/crates/llvm-src/llvm-15.0.7/llvm");
}
