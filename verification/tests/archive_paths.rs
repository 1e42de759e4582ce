use std::io::Read;

use demorunner::archive::{zip_tree_bytes, WalkItem};
use demorunner::envelope::ExecError;
use demorunner::staging::{
    bind_mount, check_path_within, classify_joined, path_join, stage_destination,
};

fn file_item(path: &str, content: &[u8]) -> WalkItem {
    WalkItem { path: path.to_string(), content: Some(content.to_vec()) }
}

fn dir_item(path: &str) -> WalkItem {
    WalkItem { path: path.to_string(), content: None }
}

#[test]
fn archive_round_trip_preserves_names_and_bytes() {
    let items = vec![
        dir_item("/work/run1"),
        file_item("/work/run1/stdout.txt", b"hello\n"),
        dir_item("/work/run1/out"),
        file_item("/work/run1/out/result.png", &[0x89, 0x50, 0x4e, 0x47]),
    ];
    let bytes = zip_tree_bytes("/work/run1", &items).unwrap();
    let mut archive = zip::ZipArchive::new(std::io::Cursor::new(bytes)).unwrap();
    let names: Vec<String> = (0..archive.len())
        .map(|i| archive.by_index(i).unwrap().name().to_string())
        .collect();
    assert_eq!(names, vec!["stdout.txt", "out/", "out/result.png"]);
    {
        let mut f = archive.by_name("stdout.txt").unwrap();
        assert_eq!(f.compression(), zip::CompressionMethod::Stored);
        assert_eq!(f.unix_mode().unwrap() & 0o777, 0o644);
        let mut buf = Vec::new();
        f.read_to_end(&mut buf).unwrap();
        assert_eq!(buf, b"hello\n");
    }
    {
        let mut f = archive.by_name("out/result.png").unwrap();
        let mut buf = Vec::new();
        f.read_to_end(&mut buf).unwrap();
        assert_eq!(buf, vec![0x89, 0x50, 0x4e, 0x47]);
    }
}

#[test]
fn archive_bytes_depend_on_the_entries_alone() {
    let items = vec![dir_item("/w"), file_item("/w/a.txt", b"abc")];
    let first = zip_tree_bytes("/w", &items).unwrap();
    let second = zip_tree_bytes("/w", &items).unwrap();
    assert_eq!(first, second);
    assert_ne!(first, b"abc".to_vec());
}

#[test]
fn archive_of_empty_walk_is_a_valid_empty_archive() {
    let items = vec![dir_item("/work/run1")];
    let bytes = zip_tree_bytes("/work/run1", &items).unwrap();
    let archive = zip::ZipArchive::new(std::io::Cursor::new(bytes)).unwrap();
    assert_eq!(archive.len(), 0);
}

#[test]
fn walk_item_outside_base_is_a_path_escape() {
    let items = vec![file_item("/elsewhere/secret", b"x")];
    let r = zip_tree_bytes("/work/run1", &items);
    assert!(matches!(r, Err(ExecError::PathEscape(_))));
    // a sibling directory with the base as a name prefix is outside too
    let items = vec![file_item("/work/run1evil/file", b"x")];
    let r = zip_tree_bytes("/work/run1", &items);
    assert!(matches!(r, Err(ExecError::PathEscape(_))));
}

#[test]
fn containment_check() {
    assert!(check_path_within("/a/b", "/a/b"));
    assert!(check_path_within("/a/b/c", "/a/b"));
    assert!(!check_path_within("/a/bc", "/a/b"));
    assert!(!check_path_within("/a", "/a/b"));
    assert!(!check_path_within("/x/b/c", "/a/b"));
}

#[test]
fn traversal_attempts_stay_inside_the_staging_directory() {
    let tmp = tempfile::TempDir::new().unwrap();
    let base = tmp.path().to_str().unwrap();
    for name in ["input_0.png", "../../../etc/passwd", "a/../../b", "./x/./y"] {
        let dst = stage_destination(base, name).unwrap();
        assert!(check_path_within(&dst, base), "{dst} left {base}");
    }
    assert_eq!(
        stage_destination(base, "../../../etc/passwd").unwrap(),
        format!("{base}/etc/passwd")
    );
}

#[test]
fn joined_paths_are_sorted_into_the_three_outcomes() {
    assert_eq!(classify_joined("/a/b", Ok("/a/b/c".to_string())), Ok("/a/b/c".to_string()));
    assert_eq!(classify_joined("/a/b", Ok("/a/b".to_string())), Ok("/a/b".to_string()));
    assert_eq!(
        classify_joined("/a/b", Ok("/a/bc".to_string())),
        Err(ExecError::PathEscape("/a/bc".to_string()))
    );
    assert_eq!(
        classify_joined("/a/b", Err("permission denied".to_string())),
        Err(ExecError::IoError("permission denied".to_string()))
    );
}

#[test]
fn join_helpers() {
    assert_eq!(path_join("/tmp/run", "stdout.txt"), "/tmp/run/stdout.txt");
    assert_eq!(bind_mount("/tmp/run", "/workdir"), "/tmp/run:/workdir");
}
