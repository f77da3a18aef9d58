use vdb_csv_export::paths::fallback_output_path;
use vdb_csv_export::paths::grid_output_path;
use vdb_csv_export::paths::has_vdb_extension;
use vdb_csv_export::paths::is_flat;
use vdb_csv_export::paths::join_path;
use vdb_csv_export::paths::strip_root;

#[test]
fn vdb_extension_is_recognised() {
    assert!(has_vdb_extension("x.vdb"));
    assert!(has_vdb_extension("a/b/x.vdb"));
    assert!(has_vdb_extension("a/x.tar.vdb"));
    assert!(!has_vdb_extension(".vdb"));
    assert!(!has_vdb_extension("a/.vdb"));
    assert!(!has_vdb_extension("x.csv"));
    assert!(!has_vdb_extension("x.vdbx"));
    assert!(!has_vdb_extension("vdb"));
    assert!(!has_vdb_extension(""));
}

#[test]
fn grid_name_replaces_extension() {
    assert_eq!(grid_output_path("out/a/x.vdb", "density"), "out/a/x.density.csv");
    assert_eq!(grid_output_path("x.vdb", "temperature"), "x.temperature.csv");
    assert_eq!(grid_output_path("a/x.tar.vdb", "density"), "a/x.tar.density.csv");
}

#[test]
fn fallback_carries_grid_index() {
    assert_eq!(fallback_output_path("out/a/x.vdb", 0), "out/a/x.0.csv");
    assert_eq!(fallback_output_path("out/a/x.vdb", 17), "out/a/x.17.csv");
}

#[test]
fn join_inserts_separator_when_needed() {
    assert_eq!(join_path("out", "a/b"), "out/a/b");
    assert_eq!(join_path("out/", "a/b"), "out/a/b");
    assert_eq!(join_path("", "a/b"), "a/b");
}

#[test]
fn strip_root_takes_proper_descendants() {
    assert_eq!(strip_root("root/a/x.vdb", "root").as_deref(), Some("a/x.vdb"));
    assert_eq!(strip_root("root/x.vdb", "root/").as_deref(), Some("x.vdb"));
    assert_eq!(strip_root("root/a", ""), Some(String::from("root/a")));
    assert_eq!(strip_root("root", "root"), None);
    assert_eq!(strip_root("rooted/x.vdb", "root"), None);
    assert_eq!(strip_root("other/x.vdb", "root"), None);
}

#[test]
fn flat_paths_have_no_separator() {
    assert!(is_flat("x.vdb"));
    assert!(is_flat(""));
    assert!(!is_flat("a/x.vdb"));
}
