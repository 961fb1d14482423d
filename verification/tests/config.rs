use save_sync::config::Config;
use save_sync::ConfigManager;

#[test]
fn config_update_valid_input() {
    let expected_data_location = String::from("new_data_location");
    let expected_xxhash_seed: i64 = rand::random();
    let expected_db_location = String::from("new_db_location");

    let expected = Config {
        data_location: expected_data_location.clone(),
        xxhash_seed: expected_xxhash_seed,
        db_location: expected_db_location.clone(),
        local_username: String::from("SomeUser"),
    };

    let mut config = Config {
        db_location: String::from("old_db"),
        data_location: String::from("old_data"),
        xxhash_seed: 0,
        local_username: String::from("Default"),
    };
    config.update(expected.clone()).unwrap();

    let actual = config.static_config();

    assert_eq!(*actual, expected);
}

#[test]
fn clone_config_copies_every_field() {
    let config = Config {
        db_location: String::from("/data/saves.db"),
        data_location: String::from("/data"),
        xxhash_seed: -7,
        local_username: String::from("player"),
    };

    let copy = config.clone_config();

    assert_eq!(copy, config);
}

#[test]
fn seed_reinterprets_negative_values() {
    let config = Config {
        db_location: String::new(),
        data_location: String::new(),
        xxhash_seed: -1,
        local_username: String::new(),
    };

    assert_eq!(config.seed(), u64::MAX);

    let config = Config { xxhash_seed: 42, ..config };
    assert_eq!(config.seed(), 42);
}

#[test]
fn config_manager_remembers_its_path() {
    let manager = ConfigManager::new("/home/user/.config/settings.toml");

    assert_eq!(manager.config_file_path(), "/home/user/.config/settings.toml");
}
