use save_sync::paths::{basename, parent};
use save_sync::Archive;

#[test]
fn basename_of_nested_path() {
    assert_eq!(basename("/a/b/c.txt"), Some(String::from("c.txt")));
}

#[test]
fn basename_of_bare_name() {
    assert_eq!(basename("save_file"), Some(String::from("save_file")));
}

#[test]
fn basename_of_trailing_separator_is_none() {
    assert_eq!(basename("/a/b/"), None);
    assert_eq!(basename(""), None);
}

#[test]
fn parent_of_nested_path() {
    assert_eq!(parent("/a/b/c.txt"), Some(String::from("/a/b")));
}

#[test]
fn parent_of_top_level_path() {
    assert_eq!(parent("/a"), Some(String::from("/")));
}

#[test]
fn parent_of_bare_name_is_none() {
    assert_eq!(parent("save_file"), None);
    assert_eq!(parent("/"), None);
}

#[test]
fn get_backup_path_grafts_suffix() {
    let mapped = Archive::get_backup_path(
        "/home/user/Documents/test_game/saves/00.sav",
        "/data/uuid-1/test_game",
    )
    .unwrap();

    assert_eq!(mapped, "/data/uuid-1/test_game/saves/00.sav");
}

#[test]
fn get_backup_path_of_root_itself_is_backup_root() {
    let mapped =
        Archive::get_backup_path("/home/user/test_game", "/data/uuid-1/test_game").unwrap();

    assert_eq!(mapped, "/data/uuid-1/test_game");
}

#[test]
fn get_backup_path_takes_first_anchor_occurrence() {
    // When the anchor name occurs as a component earlier in the path, the
    // first occurrence wins and everything after it becomes the suffix.
    let mapped = Archive::get_backup_path("/game/a/game/f", "/data/u/game").unwrap();

    assert_eq!(mapped, "/data/u/game/a/game/f");
}

#[test]
fn get_backup_path_fails_without_anchor() {
    let result = Archive::get_backup_path("/x/y/z", "/data/u/test_game");

    assert!(matches!(
        result,
        Err(save_sync::archive::ArchiveError::InvalidPath(p)) if p == "/x/y/z"
    ));
}

#[test]
fn get_backup_path_fails_without_backup_basename() {
    let result = Archive::get_backup_path("/x/y/z", "");

    assert!(matches!(result, Err(save_sync::archive::ArchiveError::UnknownFileName(_))));
}

#[test]
fn create_backup_path_joins_uuid_and_basename() {
    let backup = Archive::create_backup_path("/home/user/game", "uuid-123", "/data").unwrap();

    assert_eq!(backup, "/data/uuid-123/game");
}

#[test]
fn create_backup_path_fails_without_basename() {
    let result = Archive::create_backup_path("/", "uuid-123", "/data");

    assert!(matches!(
        result,
        Err(save_sync::archive::ArchiveError::UnknownFileName(p)) if p == "/"
    ));
}
