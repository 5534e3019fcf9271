use rattler::digest::Sha256Hash;
use rattler::filesystem::{FileType, IoError, IoErrorKind, Metadata};
use rattler::package::{is_relative_path, PathType, PathsEntry, PathsJson};

fn listed(path: &str) -> PathsEntry {
    PathsEntry {
        relative_path: path.to_string(),
        path_type: PathType::HardLink,
        sha256: None,
        size_in_bytes: None,
    }
}

fn paths_of(declared: &PathsJson) -> Vec<&str> {
    declared
        .paths
        .iter()
        .map(|entry| entry.relative_path.as_str())
        .collect()
}

#[test]
fn relative_paths_stay_inside_the_package() {
    for path in [
        "lib/libz.so",
        "a",
        "a/b/c",
        "./a",
        "a/./b",
        "a//b",
        "a/",
        "a/..",
        "a/../b",
        "a/b/../../c",
        "",
        ".",
        "..a",
        "a..",
        "...",
        "a/.../b",
    ] {
        assert!(is_relative_path(path), "{path:?}");
    }
}

#[test]
fn absolute_and_escaping_paths_are_refused() {
    for path in [
        "/",
        "/etc/passwd",
        "//a",
        "..",
        "../a",
        "a/../..",
        "a/../../b",
        "./..",
        "a/b/../../../c",
        "a/../b/../../c",
    ] {
        assert!(!is_relative_path(path), "{path:?}");
    }
}

#[test]
fn paths_may_hold_any_character() {
    assert!(is_relative_path("share/dépôt/文件.txt"));
    assert!(is_relative_path("a\\..\\..\\b"));
    assert!(!is_relative_path("é/../../x"));
}

#[test]
fn entry_keeps_size_and_digest_for_files_only() {
    let hash = Sha256Hash { bytes: [7; 32] };
    let entry = PathsEntry::new(
        "bin/tool".to_string(),
        PathType::HardLink,
        Some(hash),
        Some(12),
    );
    assert_eq!(
        entry,
        PathsEntry {
            relative_path: "bin/tool".to_string(),
            path_type: PathType::HardLink,
            sha256: Some(hash),
            size_in_bytes: Some(12)
        }
    );
    assert!(entry.is_well_formed());

    let entry = PathsEntry::new(
        "lib/libz.so".to_string(),
        PathType::SoftLink,
        Some(hash),
        Some(12),
    );
    assert_eq!(
        entry,
        PathsEntry {
            relative_path: "lib/libz.so".to_string(),
            path_type: PathType::SoftLink,
            sha256: None,
            size_in_bytes: None
        }
    );
    assert!(entry.is_well_formed());

    let entry = PathsEntry::new("lib".to_string(), PathType::Directory, None, Some(4096));
    assert_eq!(entry.size_in_bytes, None);
    assert!(entry.is_well_formed());
}

#[test]
fn entries_are_well_formed_or_not() {
    let hash = Sha256Hash { bytes: [0; 32] };
    let link_with_digest = PathsEntry {
        relative_path: "l".to_string(),
        path_type: PathType::SoftLink,
        sha256: Some(hash),
        size_in_bytes: None,
    };
    assert!(!link_with_digest.is_well_formed());
    let directory_with_size = PathsEntry {
        relative_path: "d".to_string(),
        path_type: PathType::Directory,
        sha256: None,
        size_in_bytes: Some(0),
    };
    assert!(!directory_with_size.is_well_formed());
    assert!(!listed("../outside").is_well_formed());
    assert!(!listed("/absolute").is_well_formed());
    assert!(listed("inside").is_well_formed());
}

#[test]
fn declared_contents_need_distinct_paths() {
    let declared = PathsJson::new(vec![listed("a"), listed("b"), listed("a/b")]).unwrap();
    assert_eq!(paths_of(&declared), ["a", "b", "a/b"]);
    assert!(declared.is_well_formed());

    let twice = vec![listed("a"), listed("b"), listed("a")];
    assert!(!PathsJson {
        paths: twice.clone()
    }
    .is_well_formed());
    let refused = PathsJson::new(twice).unwrap_err();
    assert_eq!(
        refused,
        IoError {
            kind: IoErrorKind::InvalidData,
            message: "the declared contents are malformed".to_string()
        }
    );

    assert!(PathsJson::new(vec![]).unwrap().is_well_formed());
    assert_eq!(
        PathsJson::new(vec![listed("a"), listed("../b")])
            .unwrap_err()
            .kind,
        IoErrorKind::InvalidData
    );
}

#[test]
fn deprecated_list_gives_one_file_for_each_line() {
    let declared =
        PathsJson::from_deprecated("lib/libz.so.1.2.8\nlib/libz.so\ninclude/zlib.h\n").unwrap();
    assert_eq!(
        declared,
        PathsJson {
            paths: vec![
                listed("lib/libz.so.1.2.8"),
                listed("lib/libz.so"),
                listed("include/zlib.h")
            ]
        }
    );
}

#[test]
fn deprecated_list_ends_lines_as_text_files_do() {
    let lines = |text: &str| -> Vec<String> {
        PathsJson::from_deprecated(text)
            .unwrap()
            .paths
            .into_iter()
            .map(|e| e.relative_path)
            .collect()
    };
    assert_eq!(lines(""), Vec::<String>::new());
    assert_eq!(lines("a"), ["a"]);
    assert_eq!(lines("a\n"), ["a"]);
    assert_eq!(lines("a\nb"), ["a", "b"]);
    assert_eq!(lines("a\r\nb\r\n"), ["a", "b"]);
    assert_eq!(lines("a\r\nb\r"), ["a", "b\r"]);
    assert_eq!(lines("\n"), [""]);
    assert_eq!(lines("a\n\nb\n"), ["a", "", "b"]);
    assert_eq!(lines("\r\n"), [""]);
    assert_eq!(lines("a\rb\n"), ["a\rb"]);
    // The lines are those of the standard library.
    for text in [
        "",
        "a",
        "a\n",
        "a\nb",
        "a\r\nb\r\n",
        "a\r\nb\r",
        "\n",
        "a\n\nb\n",
        "x/y\r\n\r\nz",
    ] {
        let expected: Vec<String> = text.lines().map(String::from).collect();
        assert_eq!(lines(text), expected, "{text:?}");
    }
}

#[test]
fn deprecated_list_with_malformed_paths_is_refused() {
    for text in ["a\nb\na\n", "../a\n", "/a\n", "\n\n"] {
        let refused = PathsJson::from_deprecated(text).unwrap_err();
        assert_eq!(refused.kind, IoErrorKind::InvalidData, "{text:?}");
    }
}

#[test]
fn metadata_tells_the_kind() {
    let metadata = |file_type| Metadata { file_type, len: 1 };
    assert!(metadata(FileType::File).is_file());
    assert!(!metadata(FileType::File).is_dir());
    assert!(!metadata(FileType::File).is_symlink());
    assert!(metadata(FileType::Directory).is_dir());
    assert!(!metadata(FileType::Directory).is_file());
    assert!(metadata(FileType::Symlink).is_symlink());
    assert!(!metadata(FileType::Symlink).is_file());
    assert!(!metadata(FileType::Other).is_file());
    assert!(!metadata(FileType::Other).is_dir());
    assert!(!metadata(FileType::Other).is_symlink());
}

#[test]
fn only_not_found_is_not_found() {
    let error = |kind| IoError {
        kind,
        message: String::new(),
    };
    assert!(error(IoErrorKind::NotFound).is_not_found());
    assert!(!error(IoErrorKind::PermissionDenied).is_not_found());
    assert!(!error(IoErrorKind::InvalidData).is_not_found());
    assert!(!error(IoErrorKind::Other).is_not_found());
}
