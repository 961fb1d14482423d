use save_sync::archive::ArchiveError;
use save_sync::change::Type;
use save_sync::config::Config;
use save_sync::models::{File, Save, User};
use save_sync::sync::{CrawlEntry, LiveEntry, SaveOptions, SyncAction, UserResolution};
use save_sync::Archive;

fn test_config() -> Config {
    Config {
        db_location: String::from("/data/saves.db"),
        data_location: String::from("/data"),
        xxhash_seed: 1_912_251_925_143,
        local_username: String::from("Default"),
    }
}

fn tracked_file(id: i32, path: &str, hash: Vec<u8>) -> File {
    File {
        id,
        file_path: String::from(path),
        file_hash: hash,
        save_id: 1,
        created_at: 100,
        modified_at: 100,
    }
}

fn live_file(path: &str, hash: Vec<u8>) -> LiveEntry {
    LiveEntry { path: String::from(path), is_file: true, hash }
}

fn test_save() -> Save {
    Save {
        id: 1,
        friendly_name: String::from("game"),
        save_path: String::from("/home/user/test_game"),
        backup_path: String::from("/data/uuid-1/test_game"),
        uuid: String::from("uuid-1"),
        user_id: 7,
        created_at: 100,
        modified_at: 100,
    }
}

fn digest(config: &Config, data: &[u8]) -> Vec<u8> {
    Archive::file_digest(config, data).unwrap()
}

#[test]
fn diff_reports_exactly_one_update() {
    let config = test_config();
    let h1 = digest(&config, b"unchanged content");
    let h2 = digest(&config, b"old content");
    let h2_new = digest(&config, b"new content");
    let manifest = vec![
        tracked_file(1, "/home/user/test_game/p1", h1.clone()),
        tracked_file(2, "/home/user/test_game/p2", h2),
    ];
    let live = vec![
        live_file("/home/user/test_game/p1", h1),
        live_file("/home/user/test_game/p2", h2_new),
    ];

    let records = Archive::check_save(&manifest, &live);

    assert_eq!(records.len(), 1);
    assert_eq!(records[0].change, Type::Update);
    assert_eq!(records[0].path, "/home/user/test_game/p2");
}

#[test]
fn diff_reports_exactly_one_missing() {
    let config = test_config();
    let h1 = digest(&config, b"one");
    let h2 = digest(&config, b"two");
    let h3 = digest(&config, b"three");
    let manifest = vec![
        tracked_file(1, "/home/user/test_game/p1", h1.clone()),
        tracked_file(2, "/home/user/test_game/p2", h2.clone()),
        tracked_file(3, "/home/user/test_game/p3", h3),
    ];
    let live = vec![
        live_file("/home/user/test_game/p1", h1),
        live_file("/home/user/test_game/p2", h2),
    ];

    let records = Archive::check_save(&manifest, &live);

    assert_eq!(records.len(), 1);
    assert_eq!(records[0].change, Type::Missing);
    assert_eq!(records[0].path, "/home/user/test_game/p3");
}

#[test]
fn diff_reports_exactly_one_new() {
    let config = test_config();
    let h1 = digest(&config, b"one");
    let h4 = digest(&config, b"four");
    let manifest = vec![tracked_file(1, "/home/user/test_game/p1", h1.clone())];
    let live = vec![
        live_file("/home/user/test_game/p1", h1),
        live_file("/home/user/test_game/p4", h4),
    ];

    let records = Archive::check_save(&manifest, &live);

    assert_eq!(records.len(), 1);
    assert_eq!(records[0].change, Type::New);
    assert_eq!(records[0].path, "/home/user/test_game/p4");
}

#[test]
fn diff_of_identical_states_is_empty() {
    let config = test_config();
    let h1 = digest(&config, b"one");
    let manifest = vec![tracked_file(1, "/home/user/test_game/p1", h1.clone())];
    let live = vec![live_file("/home/user/test_game/p1", h1)];

    let records = Archive::check_save(&manifest, &live);

    assert!(records.is_empty());
}

#[test]
fn diff_lists_missing_before_new_and_updated() {
    let config = test_config();
    let h1 = digest(&config, b"one");
    let h2 = digest(&config, b"two");
    let h2_new = digest(&config, b"two changed");
    let h4 = digest(&config, b"four");
    let manifest = vec![
        tracked_file(1, "/home/user/test_game/gone", h1),
        tracked_file(2, "/home/user/test_game/p2", h2),
    ];
    let live = vec![
        live_file("/home/user/test_game/p2", h2_new),
        live_file("/home/user/test_game/p4", h4),
    ];

    let records = Archive::check_save(&manifest, &live);

    assert_eq!(records.len(), 3);
    assert_eq!(records[0].change, Type::Missing);
    assert_eq!(records[0].path, "/home/user/test_game/gone");
    let kinds: Vec<Type> = records.iter().map(|r| r.change).collect();
    assert!(kinds[1..].iter().all(|k| *k != Type::Missing));
}

#[test]
fn diff_skips_directories_in_live_state() {
    let manifest: Vec<File> = vec![];
    let live = vec![LiveEntry {
        path: String::from("/home/user/test_game/sub_dir"),
        is_file: false,
        hash: vec![],
    }];

    let records = Archive::check_save(&manifest, &live);

    assert!(records.is_empty());
}

#[test]
fn old_check_save_splits_new_and_changed() {
    let config = test_config();
    let h1 = digest(&config, b"one");
    let h1_new = digest(&config, b"one changed");
    let h4 = digest(&config, b"four");
    let manifest = vec![tracked_file(1, "/home/user/test_game/p1", h1)];
    let live = vec![
        live_file("/home/user/test_game/p1", h1_new),
        live_file("/home/user/test_game/p4", h4),
    ];

    let (new_files, changed_files) = Archive::old_check_save(&manifest, &live);

    assert_eq!(new_files, vec![String::from("/home/user/test_game/p4")]);
    assert_eq!(changed_files, vec![String::from("/home/user/test_game/p1")]);
}

#[test]
fn create_save_plan_copies_before_any_record() {
    let config = test_config();
    let user = User {
        id: 7,
        username: String::from("player"),
        created_at: 50,
        modified_at: 50,
    };
    let opt = SaveOptions { friendly_name: None };
    let crawl = vec![
        CrawlEntry { path: String::from("/tmp/game/save1.dat"), is_file: true },
        CrawlEntry { path: String::from("/tmp/game/sub"), is_file: false },
    ];

    let plan = Archive::create_save(
        true,
        "/tmp/game",
        &user,
        &opt,
        "uuid-1",
        &config,
        200,
        &crawl,
    )
    .unwrap();

    assert_eq!(plan.len(), 4);
    assert!(matches!(
        &plan[0],
        SyncAction::CopyFile { source, dest }
            if source == "/tmp/game/save1.dat" && dest == "/data/uuid-1/game/save1.dat"
    ));
    assert!(matches!(
        &plan[1],
        SyncAction::EnsureDir { dest } if dest == "/data/uuid-1/game/sub"
    ));
    match &plan[2] {
        SyncAction::RecordSave { save } => {
            assert_eq!(save.friendly_name, "");
            assert_eq!(save.save_path, "/tmp/game");
            assert_eq!(save.backup_path, "/data/uuid-1/game");
            assert!(save.backup_path.ends_with("/game"));
            assert_eq!(save.uuid, "uuid-1");
            assert_eq!(save.user_id, 7);
            assert_eq!(save.created_at, 200);
            assert_eq!(save.modified_at, 200);
        },
        other => panic!("expected a RecordSave action, got {:?}", other),
    }
    assert!(matches!(
        &plan[3],
        SyncAction::RecordFile { path } if path == "/tmp/game/save1.dat"
    ));
}

#[test]
fn create_save_fails_when_root_does_not_exist() {
    let config = test_config();
    let user = User {
        id: 7,
        username: String::from("player"),
        created_at: 50,
        modified_at: 50,
    };
    let opt = SaveOptions { friendly_name: None };
    let crawl: Vec<CrawlEntry> = vec![];

    let result =
        Archive::create_save(false, "/tmp/game", &user, &opt, "uuid-1", &config, 200, &crawl);

    assert!(matches!(result, Err(ArchiveError::InvalidPath(p)) if p == "/tmp/game"));
}

#[test]
fn create_save_keeps_friendly_name() {
    let config = test_config();
    let user = User {
        id: 7,
        username: String::from("player"),
        created_at: 50,
        modified_at: 50,
    };
    let opt = SaveOptions { friendly_name: Some(String::from("my game")) };
    let crawl: Vec<CrawlEntry> = vec![];

    let plan =
        Archive::create_save(true, "/tmp/game", &user, &opt, "uuid-1", &config, 200, &crawl)
            .unwrap();

    assert_eq!(plan.len(), 1);
    match &plan[0] {
        SyncAction::RecordSave { save } => assert_eq!(save.friendly_name, "my game"),
        other => panic!("expected a RecordSave action, got {:?}", other),
    }
}

#[test]
fn update_save_plan_applies_each_change_in_order() {
    let save = test_save();
    let changes = vec![
        save_sync::change::SaveUpdate {
            change: Type::Missing,
            path: String::from("/home/user/test_game/gone"),
        },
        save_sync::change::SaveUpdate {
            change: Type::New,
            path: String::from("/home/user/test_game/fresh"),
        },
        save_sync::change::SaveUpdate {
            change: Type::Update,
            path: String::from("/home/user/test_game/dirty"),
        },
    ];

    let (plan, log) = Archive::update_save(&save, &changes).unwrap();

    assert_eq!(plan.len(), 6);
    assert!(matches!(
        &plan[0],
        SyncAction::DeleteFileRecordByPath { path } if path == "/home/user/test_game/gone"
    ));
    assert!(matches!(
        &plan[1],
        SyncAction::RemoveBackupFile { dest } if dest == "/data/uuid-1/test_game/gone"
    ));
    assert!(matches!(
        &plan[2],
        SyncAction::CopyFile { source, dest }
            if source == "/home/user/test_game/fresh" && dest == "/data/uuid-1/test_game/fresh"
    ));
    assert!(matches!(
        &plan[3],
        SyncAction::RecordFile { path } if path == "/home/user/test_game/fresh"
    ));
    assert!(matches!(
        &plan[4],
        SyncAction::CopyFile { source, dest }
            if source == "/home/user/test_game/dirty" && dest == "/data/uuid-1/test_game/dirty"
    ));
    assert!(matches!(
        &plan[5],
        SyncAction::UpdateFileRecord { path } if path == "/home/user/test_game/dirty"
    ));
    let expected_log = "\nMissing (NOW DELETING!!!): /home/user/test_game/gone\
                        \nNew: /home/user/test_game/fresh\
                        \nUpdated: /home/user/test_game/dirty";
    assert_eq!(log.unwrap(), expected_log);
}

#[test]
fn update_save_with_no_changes_does_nothing() {
    let save = test_save();
    let changes = vec![];

    let (plan, log) = Archive::update_save(&save, &changes).unwrap();

    assert!(plan.is_empty());
    assert!(log.is_none());
}

#[test]
fn delete_save_plan_orders_files_save_then_disk() {
    let config = test_config();
    let save = test_save();
    let files = vec![
        tracked_file(11, "/home/user/test_game/p1", digest(&config, b"one")),
        tracked_file(12, "/home/user/test_game/p2", digest(&config, b"two")),
    ];

    let plan = Archive::delete_save(&save, &files).unwrap();

    assert_eq!(plan.len(), 4);
    assert!(matches!(&plan[0], SyncAction::DeleteFileRecord { id } if *id == 11));
    assert!(matches!(&plan[1], SyncAction::DeleteFileRecord { id } if *id == 12));
    assert!(matches!(&plan[2], SyncAction::DeleteSaveRecord { id } if *id == 1));
    assert!(matches!(
        &plan[3],
        SyncAction::RemoveBackupDir { dest } if dest == "/data/uuid-1"
    ));
}

#[test]
fn delete_save_fails_without_backup_parent() {
    let mut save = test_save();
    save.backup_path = String::from("test_game");
    let files = vec![];

    let result = Archive::delete_save(&save, &files);

    assert!(matches!(result, Err(ArchiveError::UnknownFileName(p)) if p == "test_game"));
}

#[test]
fn create_file_record_carries_digest_and_times() {
    let config = test_config();
    let save = test_save();
    let content: [u8; 32] = rand::random();
    let d = digest(&config, &content);

    let record = Archive::create_file(&save, "/home/user/test_game/save1.dat", &d, 300);

    assert_eq!(record.file_path, "/home/user/test_game/save1.dat");
    assert_eq!(record.file_hash, d);
    assert_eq!(record.save_id, 1);
    assert_eq!(record.created_at, 300);
    assert_eq!(record.modified_at, 300);
}

#[test]
fn update_file_refreshes_digest() {
    let config = test_config();
    let original = tracked_file(21, "/home/user/test_game/p1", digest(&config, b"old"));
    let fresh = digest(&config, b"new");

    let edit =
        Archive::update_file(Some(original), "/home/user/test_game/p1", &fresh, 400).unwrap();

    assert_eq!(edit.id, 21);
    assert_eq!(edit.file_hash, fresh);
    assert_eq!(edit.modified_at, 400);
}

#[test]
fn update_file_fails_for_unknown_path() {
    let config = test_config();
    let fresh = digest(&config, b"new");

    let result = Archive::update_file(None, "/home/user/test_game/p9", &fresh, 400);

    assert!(matches!(
        result,
        Err(ArchiveError::NotFound(p)) if p == "/home/user/test_game/p9"
    ));
}

#[test]
fn local_user_found_by_username_is_kept() {
    let user = User {
        id: 3,
        username: String::from("player"),
        created_at: 10,
        modified_at: 10,
    };

    let resolution =
        save_sync::sync::get_local_user(Some(user.clone()), None, "player", 500).unwrap();

    match resolution {
        UserResolution::Existing(u) => assert_eq!(u.id, 3),
        other => panic!("expected the existing user, got {:?}", other),
    }
}

#[test]
fn local_user_created_on_first_run() {
    let resolution = save_sync::sync::get_local_user(None, None, "player", 500).unwrap();

    match resolution {
        UserResolution::CreateNew(nu) => {
            assert_eq!(nu.username, "player");
            assert_eq!(nu.created_at, 500);
            assert_eq!(nu.modified_at, 500);
        },
        other => panic!("expected a new user, got {:?}", other),
    }
}

#[test]
fn local_user_adopts_single_existing_user() {
    let stored = User {
        id: 9,
        username: String::from("someone_else"),
        created_at: 10,
        modified_at: 10,
    };

    let resolution =
        save_sync::sync::get_local_user(None, Some(vec![stored]), "player", 500).unwrap();

    match resolution {
        UserResolution::AdoptSingle(u) => assert_eq!(u.username, "someone_else"),
        other => panic!("expected adoption of the single user, got {:?}", other),
    }
}

#[test]
fn local_user_with_several_candidates_is_ambiguous() {
    let a = User { id: 1, username: String::from("a"), created_at: 1, modified_at: 1 };
    let b = User { id: 2, username: String::from("b"), created_at: 2, modified_at: 2 };

    let result = save_sync::sync::get_local_user(None, Some(vec![a, b]), "player", 500);

    assert!(matches!(result, Err(ArchiveError::AmbiguousUser)));
}
