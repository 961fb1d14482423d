use save_sync::query::{FileQuery, SaveQuery, UserQuery};

#[test]
fn example_save_query() {
    let path = "test_location";
    let actual = SaveQuery::new()
        .with_id(1)
        .with_friendly_name("game1")
        .with_uuid("{uuid}")
        .with_path(path);

    let expected = SaveQuery {
        id: Some(1),
        friendly_name: Some(String::from("game1")),
        uuid: Some(String::from("{uuid}")),
        path: Some(String::from("test_location")),
        user_id: None,
    };

    assert_eq!(actual, expected);
}

#[test]
fn example_file_query() {
    let hash: [u8; 32] = rand::random();

    let actual = FileQuery::new().with_id(943).with_hash(&hash).with_save_id(2);

    let expected = FileQuery {
        id: Some(943),
        path: None,
        hash: Some(hash.to_vec()),
        save_id: Some(2),
    };

    assert_eq!(actual, expected);
}

#[test]
fn example_user_query() {
    let actual = UserQuery::new().with_id(32).with_username("serious_gamer_1");

    let expected = UserQuery { id: Some(32), username: Some(String::from("serious_gamer_1")) };

    assert_eq!(actual, expected);
}
