use belfry_core::errors::Error;
use belfry_core::paths::{
    database_file, join, library_root_resolved, metadata_dir, shows_dir,
};

#[test]
fn library_root_uses_xdg_data_home() {
    assert_eq!(
        library_root_resolved(Some("/tmp/xdg-test"), None).unwrap(),
        "/tmp/xdg-test/belfry",
    );
}

#[test]
fn library_root_falls_back_to_home() {
    assert_eq!(
        library_root_resolved(None, Some("/home/test")).unwrap(),
        "/home/test/.local/share/belfry",
    );
}

#[test]
fn library_root_prefers_xdg_over_home() {
    assert_eq!(
        library_root_resolved(Some("/tmp/xdg"), Some("/home/test")).unwrap(),
        "/tmp/xdg/belfry",
    );
}

#[test]
fn library_root_errors_when_neither_set() {
    assert!(matches!(
        library_root_resolved(None, None),
        Err(Error::NoLibraryPath),
    ));
}

#[test]
fn library_files_sit_under_the_root() {
    assert_eq!(
        database_file(Some("/data"), None).unwrap(),
        "/data/belfry/belfry.db"
    );
    assert_eq!(
        shows_dir(None, Some("/home/u")).unwrap(),
        "/home/u/.local/share/belfry/shows"
    );
    assert_eq!(
        metadata_dir(Some("/x/"), None).unwrap(),
        "/x/belfry/metadata"
    );
    assert!(matches!(database_file(None, None), Err(Error::NoLibraryPath)));
    assert!(matches!(shows_dir(None, None), Err(Error::NoLibraryPath)));
    assert!(matches!(metadata_dir(None, None), Err(Error::NoLibraryPath)));
}

#[test]
fn join_matches_pathbuf_join() {
    for (base, rel) in [("/a", "b"), ("/a/", "b"), ("", "b"), ("a", "b/c"), ("/", "x")] {
        let expected = std::path::PathBuf::from(base).join(rel);
        assert_eq!(join(base, rel), expected.to_str().unwrap());
    }
}
