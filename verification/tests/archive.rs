use rattler::archive::ArchiveType;
use rattler::text::{find, from_chars, has_suffix, to_chars};

#[test]
fn archive_type_is_told_by_the_ending() {
    assert_eq!(
        ArchiveType::try_from("python-3.10.8-h4a9ceb5_0_cpython.conda"),
        Some(ArchiveType::Conda)
    );
    assert_eq!(
        ArchiveType::try_from("/conda-forge/win-64/python-3.11.0-hcf16a7b_0_cpython.tar.bz2"),
        Some(ArchiveType::TarBz2)
    );
    assert_eq!(ArchiveType::try_from(".conda"), Some(ArchiveType::Conda));
    assert_eq!(ArchiveType::try_from(".tar.bz2"), Some(ArchiveType::TarBz2));
    assert_eq!(
        ArchiveType::try_from("a.tar.bz2.conda"),
        Some(ArchiveType::Conda)
    );
    assert_eq!(
        ArchiveType::try_from("a.conda.tar.bz2"),
        Some(ArchiveType::TarBz2)
    );
}

#[test]
fn other_endings_are_no_archives() {
    for path in [
        "",
        "conda",
        "a.zip",
        "a.tar",
        "a.bz2",
        "a.tar.gz",
        "a.conda/",
        "a.CONDA",
        "a.Tar.Bz2",
        "a.conda ",
        "tar.bz2",
        "a.tar.bz2/b",
    ] {
        assert_eq!(ArchiveType::try_from(path), None, "{path:?}");
    }
}

#[test]
fn text_is_taken_apart_by_characters() {
    assert_eq!(to_chars("a/é"), ['a', '/', 'é']);
    assert_eq!(to_chars(""), Vec::<char>::new());
    let chars = to_chars("lib/libz.so");
    assert_eq!(find(&chars, 0, '/'), 3);
    assert_eq!(find(&chars, 3, '/'), 3);
    assert_eq!(find(&chars, 4, '/'), 11);
    assert_eq!(find(&chars, 11, '/'), 11);
    assert_eq!(from_chars(&chars, 4, 8), "libz");
    assert_eq!(from_chars(&chars, 0, 11), "lib/libz.so");
    assert_eq!(from_chars(&chars, 5, 5), "");
    assert!(has_suffix(&chars, &to_chars(".so")));
    assert!(has_suffix(&chars, &to_chars("")));
    assert!(has_suffix(&chars, &chars));
    assert!(!has_suffix(&chars, &to_chars(".s")));
    assert!(!has_suffix(&chars, &to_chars("xlib/libz.so")));
}
