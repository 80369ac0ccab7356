//! Tests of the traversal engine against a real filesystem.

use flacman_fs::{find_audio_files, find_ext, find_match_all, find_match_one, find_pattern, walk,
    walk_lenient, FsError};

fn touch(dir: &std::path::Path, name: &str) {
    let f = tempfile::NamedTempFile::new_in(dir).unwrap();
    f.persist(dir.join(name)).unwrap();
}

fn path_str(dir: &std::path::Path, name: &str) -> String {
    dir.join(name).to_str().unwrap().to_owned()
}

#[test]
fn test_walkdir_nonexistent() {
    let result = walk("/nonexistent/path/xyz");
    assert!(matches!(result, Err(FsError::PathNotFound(_))));
}

#[test]
fn test_walkdir_file_not_directory() {
    let dir = tempfile::tempdir().unwrap();
    touch(dir.path(), "file.txt");

    let result = walk(&path_str(dir.path(), "file.txt"));
    assert!(matches!(result, Err(FsError::NotADirectory(_))));
}

#[test]
fn test_walk_lenient_nonexistent() {
    let result = walk_lenient("/nonexistent/path/xyz");
    assert!(matches!(result, Err(FsError::PathNotFound(_))));
}

#[test]
fn test_walk_lenient_file_not_directory() {
    let dir = tempfile::tempdir().unwrap();
    touch(dir.path(), "file.txt");

    let result = walk_lenient(&path_str(dir.path(), "file.txt"));
    assert!(matches!(result, Err(FsError::NotADirectory(_))));
}

#[test]
fn test_walk_yields_files_not_directories() {
    let dir = tempfile::tempdir().unwrap();
    touch(dir.path(), "a.txt");
    let sub = tempfile::tempdir_in(dir.path()).unwrap();
    touch(sub.path(), "b.txt");

    let mut w = walk(dir.path().to_str().unwrap()).unwrap();
    let mut seen: Vec<String> = Vec::new();
    while let Some(item) = w.next() {
        seen.push(item.unwrap());
    }
    assert_eq!(seen.len(), 2);
    assert!(seen.iter().any(|p| p.ends_with("a.txt")));
    assert!(seen.iter().any(|p| p.ends_with("b.txt")));
}

#[test]
fn test_walk_lenient_collect() {
    let dir = tempfile::tempdir().unwrap();
    touch(dir.path(), "a.txt");
    touch(dir.path(), "b.txt");

    let mut w = walk_lenient(dir.path().to_str().unwrap()).unwrap();
    let seen = w.collect();
    assert_eq!(seen.len(), 2);
}

#[test]
fn test_find_audio_files() {
    let dir = tempfile::tempdir().unwrap();

    touch(dir.path(), "song.flac");
    touch(dir.path(), "track.mp3");
    touch(dir.path(), "readme.txt");

    let result = find_audio_files(dir.path().to_str().unwrap()).unwrap();
    assert_eq!(result.len(), 2);
    assert!(result.iter().all(|p| !p.ends_with("readme.txt")));
    assert!(result.iter().any(|p| p.ends_with("song.flac")));
    assert!(result.iter().any(|p| p.ends_with("track.mp3")));
}

#[test]
fn test_find_ext() {
    let dir = tempfile::tempdir().unwrap();

    touch(dir.path(), "one.flac");
    touch(dir.path(), "two.FLAC");
    touch(dir.path(), "three.mp3");

    let result = find_ext(dir.path().to_str().unwrap(), "flac").unwrap();
    assert_eq!(result.len(), 2);
    assert!(result.iter().any(|p| p.ends_with("one.flac")));
    assert!(result.iter().any(|p| p.ends_with("two.FLAC")));
}

#[test]
fn test_find_ext_nonexistent_root() {
    let result = find_ext("/nonexistent/path/xyz", "flac");
    assert!(matches!(result, Err(FsError::PathNotFound(_))));
}

#[test]
fn test_find_pattern() {
    let dir = tempfile::tempdir().unwrap();

    touch(dir.path(), "alpha_song.flac");
    touch(dir.path(), "beta_song.flac");
    touch(dir.path(), "gamma.txt");

    let result = find_pattern(dir.path().to_str().unwrap(), "song").unwrap();
    assert_eq!(result.len(), 2);
    let none = find_pattern(dir.path().to_str().unwrap(), "missing_pattern").unwrap();
    assert_eq!(none.len(), 0);
}

#[test]
fn test_find_match_one() {
    let dir = tempfile::tempdir().unwrap();

    touch(dir.path(), "a.flac");
    touch(dir.path(), "b.flac");

    let found = find_match_one(dir.path().to_str().unwrap(), "elsewhere/a.flac").unwrap();
    assert!(found.is_some());
    assert!(found.unwrap().ends_with("a.flac"));

    let missing = find_match_one(dir.path().to_str().unwrap(), "elsewhere/c.flac").unwrap();
    assert!(missing.is_none());
}

#[test]
fn test_find_match_all() {
    let dir = tempfile::tempdir().unwrap();

    touch(dir.path(), "a.flac");
    let sub = tempfile::tempdir_in(dir.path()).unwrap();
    touch(sub.path(), "a.flac");
    touch(dir.path(), "b.flac");

    let found = find_match_all(dir.path().to_str().unwrap(), "elsewhere/a.flac").unwrap();
    assert_eq!(found.len(), 2);
    assert!(found.iter().all(|p| p.ends_with("a.flac")));
}
