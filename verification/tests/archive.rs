use save_sync::archive::{ArchiveEntry, ArchiveError};
use save_sync::config::Config;
use save_sync::Archive;

fn test_config() -> Config {
    Config {
        db_location: String::from("/data/saves.db"),
        data_location: String::from("/data"),
        xxhash_seed: 1_912_251_925_143,
        local_username: String::from("Default"),
    }
}

#[test]
fn convert_u64_to_bytes_valid() {
    let expected: Vec<u8> = vec![162, 237, 204, 196, 230, 7, 254, 234];
    let num: u64 = 16932980336685280674;

    let actual = Archive::u64_to_byte_vec(num).unwrap();

    assert_eq!(actual, expected);
}

#[test]
fn calc_hash_matches_reference_hasher() {
    let bytes: [u8; 32] = rand::random();
    let config = test_config();
    let seed = config.xxhash_seed as u64;

    let expected = {
        let mut hasher = twox_hash::XxHash64::with_seed(seed);
        core::hash::Hasher::write(&mut hasher, &bytes);
        core::hash::Hasher::finish(&hasher)
    };

    let actual = Archive::calc_hash(&config, &bytes);

    assert_eq!(actual, expected);
}

#[test]
fn calc_hash_is_deterministic() {
    let bytes: [u8; 32] = rand::random();
    let config = test_config();

    let first = Archive::calc_hash(&config, &bytes);
    let second = Archive::calc_hash(&config, &bytes);

    assert_eq!(first, second);
}

#[test]
fn calc_hash_differs_when_content_mutated() {
    let config = test_config();
    let mut bytes: [u8; 32] = rand::random();
    let original = Archive::calc_hash(&config, &bytes);
    bytes[0] = bytes[0].wrapping_add(1);
    let mutated = Archive::calc_hash(&config, &bytes);

    assert_ne!(original, mutated);
}

#[test]
fn file_digest_is_hash_in_little_endian_bytes() {
    let bytes: [u8; 32] = rand::random();
    let config = test_config();

    let num = Archive::calc_hash(&config, &bytes);
    let expected = Archive::u64_to_byte_vec(num).unwrap();
    let actual = Archive::file_digest(&config, &bytes).unwrap();

    assert_eq!(actual, expected);
    assert_eq!(actual.len(), 8);
}

#[test]
fn compress_and_decompress_entries() {
    let file1_expected = "This file contains some text";
    let file2_expected = "This file contains some different text";
    let entries = vec![
        ArchiveEntry {
            path: String::from("test_dir/file1.txt"),
            data: file1_expected.as_bytes().to_vec(),
        },
        ArchiveEntry {
            path: String::from("test_dir/sub_dir/file2.txt"),
            data: file2_expected.as_bytes().to_vec(),
        },
    ];

    let packed = Archive::compress_entries(&entries).unwrap();
    let unpacked = Archive::decompress_entries(&packed).unwrap();

    assert_eq!(unpacked.len(), 2);
    assert_eq!(unpacked[0].path, "test_dir/file1.txt");
    assert_eq!(unpacked[0].data, file1_expected.as_bytes().to_vec());
    assert_eq!(unpacked[1].path, "test_dir/sub_dir/file2.txt");
    assert_eq!(unpacked[1].data, file2_expected.as_bytes().to_vec());
}

#[test]
fn compress_and_decompress_data() {
    let expected: [u8; 32] = rand::random();

    let packed = Archive::compress_data(&expected).unwrap();
    let actual = Archive::decompress_data(&packed).unwrap();

    assert_ne!(packed, expected.to_vec());
    assert_eq!(actual, expected.to_vec());
}

#[test]
fn compress_entries_rejects_absolute_path() {
    let entries = vec![ArchiveEntry { path: String::from("/etc/passwd"), data: vec![1, 2, 3] }];

    let result = Archive::compress_entries(&entries);

    assert!(matches!(
        result,
        Err(ArchiveError::IllegalPath(p)) if p == "/etc/passwd"
    ));
}

#[test]
fn compress_entries_rejects_dot_dot_component() {
    let entries = vec![ArchiveEntry { path: String::from("a/../b"), data: vec![] }];

    let result = Archive::compress_entries(&entries);

    assert!(matches!(result, Err(ArchiveError::IllegalPath(_))));
}

#[test]
fn error_messages_name_the_offender() {
    let err = ArchiveError::InvalidPath(String::from("/x/y"));
    assert_eq!(err.message(), "/x/y was found to be an invalid path.");

    let err = ArchiveError::UnknownFileName(String::from("/"));
    assert_eq!(err.message(), "Unable to determine the file / path name of /");

    let err = ArchiveError::NotFound(String::from("/x/y"));
    assert_eq!(err.message(), "Unable to retrieve /x/y from the database.");
}

#[test]
fn decompress_data_rejects_garbage() {
    let garbage: [u8; 16] = [0xAB; 16];

    let result = Archive::decompress_data(&garbage);

    assert!(result.is_err());
}
