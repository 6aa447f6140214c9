use rustynotes::paths::{
    breadcrumb_segments, config_dir, config_path, export_default_name, file_name_and_parent,
    filename_from_path, join_path, segment_parent_path, stem_from_filename, user_config_path,
};

#[test]
fn file_names_and_stems() {
    assert_eq!(filename_from_path("/notes/week/plan.md"), "plan.md");
    assert_eq!(filename_from_path("plan.md"), "plan.md");
    assert_eq!(filename_from_path("/notes/"), "");
    assert_eq!(stem_from_filename("plan.md"), "plan");
    assert_eq!(stem_from_filename("archive.tar.gz"), "archive.tar");
    assert_eq!(stem_from_filename("README"), "README");
    assert_eq!(export_default_name("/notes/plan.md"), "plan.html");
    assert_eq!(export_default_name("/notes/README"), "README.html");
}

#[test]
fn name_and_parent() {
    assert_eq!(file_name_and_parent("/a/b/c.md"), ("c.md".to_string(), "/a/b".to_string()));
    assert_eq!(file_name_and_parent("c.md"), ("c.md".to_string(), String::new()));
    assert_eq!(file_name_and_parent("/c.md"), ("c.md".to_string(), String::new()));
}

#[test]
fn joining_and_configuration_paths() {
    assert_eq!(join_path("/a", "b"), "/a/b");
    assert_eq!(join_path("/a/", "b"), "/a/b");
    assert_eq!(join_path("", "b"), "b");
    assert_eq!(config_dir(Some("/home/u/.config".into())), "/home/u/.config/rustynotes");
    assert_eq!(config_dir(None), "~/.config/rustynotes");
    assert_eq!(config_path(None), "~/.config/rustynotes/config.json");
    assert!(user_config_path().ends_with("/rustynotes/config.json"));
}

#[test]
fn breadcrumb_paths() {
    assert_eq!(breadcrumb_segments("/notes", "/notes/week/plan.md"), vec!["week", "plan.md"]);
    assert_eq!(breadcrumb_segments("/notes", "/other//x.md"), vec!["other", "x.md"]);
    assert!(breadcrumb_segments("/notes", "").is_empty());
    let segs = vec!["week".to_string(), "day".to_string(), "plan.md".to_string()];
    assert_eq!(segment_parent_path("/notes", &segs, 0), "/notes");
    assert_eq!(segment_parent_path("/notes", &segs, 1), "/notes/week");
    assert_eq!(segment_parent_path("/notes", &segs, 2), "/notes/week/day");
}

#[test]
fn path_keys_compare_as_std_paths_do() {
    let samples = [
        "/a/b", "/a/b/", "/a//b", "/a/./b", "/a/b/.", "a/b", "./a/b", "././a", ".//a", "a/./b", "/./a",
        "/", "//", ".", "./", "", "a", "a/", "..", "../a", "/a/../b", "/a/b/..", ".a", "a/.b", "/x.md",
    ];
    for a in samples {
        for b in samples {
            let same = std::path::Path::new(a) == std::path::Path::new(b);
            assert_eq!(
                rustynotes::paths::path_key_of(a) == rustynotes::paths::path_key_of(b),
                same,
                "{a:?} vs {b:?}"
            );
        }
    }
    assert_eq!(rustynotes::paths::path_key_of("/a//b/"), "/a/b");
    assert_eq!(rustynotes::paths::path_key_of("./x/./y"), "./x/y");
    assert_eq!(rustynotes::paths::path_key_of("./"), ".");
}
