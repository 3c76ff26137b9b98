use keyfile_store::codec::{decode_from_storage, encode_for_storage};
use keyfile_store::errors::StoreError;
use keyfile_store::store::{lookup_outcome, plan_remove, set_plan, storage_file_name};

#[test]
fn encode_token_scenario() {
    // set("token", "abc123") writes the file token.dat with the base64 of
    // "abc123", and reading it back yields "abc123".
    let (name, content) = set_plan("token", "abc123");
    assert_eq!(name, "token.dat");
    assert_eq!(content, "YWJjMTIz");
    assert_eq!(lookup_outcome(Some(content)), Ok("abc123".to_string()));
}

#[test]
fn round_trip_plain() {
    let enc = encode_for_storage("hello world");
    assert_eq!(decode_from_storage(&enc), Ok("hello world".to_string()));
}

#[test]
fn round_trip_empty_value() {
    let enc = encode_for_storage("");
    assert_eq!(enc, "");
    assert_eq!(decode_from_storage(&enc), Ok(String::new()));
}

#[test]
fn round_trip_non_ascii() {
    let v = "caf\u{e9} \u{2713} \u{1f512}";
    let enc = encode_for_storage(v);
    assert_eq!(decode_from_storage(&enc), Ok(v.to_string()));
}

#[test]
fn encode_matches_base64_crate() {
    // The wrapper must hand back exactly what the STANDARD engine produces,
    // not its input.
    let direct = base64::Engine::encode(&base64::engine::general_purpose::STANDARD, "hello");
    assert_eq!(encode_for_storage("hello"), direct);
    assert_ne!(encode_for_storage("hello"), "hello");
}

#[test]
fn decode_rejects_invalid_base64() {
    // Content that is not base64 is a decode failure, not a silent empty
    // result.
    assert_eq!(
        decode_from_storage("%%% not base64 %%%"),
        Err(StoreError::DecodeError)
    );
}

#[test]
fn decode_rejects_invalid_utf8() {
    // "//79" is the base64 of the bytes 0xff 0xfe 0xfd, which are not UTF-8.
    assert_eq!(decode_from_storage("//79"), Err(StoreError::EncodingError));
}

#[test]
fn lookup_of_missing_key_is_not_found() {
    // get("missing") on a fresh storage directory reads no file at all.
    assert_eq!(lookup_outcome(None), Err(StoreError::NotFoundError));
}

#[test]
fn empty_value_is_distinct_from_missing() {
    // An empty stored value reads back as Ok(""), while an absent file is a
    // not-found failure: the two states stay observable apart.
    let (_, content) = set_plan("token", "");
    assert_eq!(lookup_outcome(Some(content)), Ok(String::new()));
    assert_eq!(lookup_outcome(None), Err(StoreError::NotFoundError));
}

#[test]
fn lookup_of_present_key_decodes() {
    assert_eq!(
        lookup_outcome(Some("YWJjMTIz".to_string())),
        Ok("abc123".to_string())
    );
}

#[test]
fn overwrite_keeps_only_second_value() {
    let (_, first) = set_plan("token", "old value");
    let (name, second) = set_plan("token", "new value");
    assert_eq!(name, "token.dat");
    assert_ne!(first, second);
    assert_eq!(lookup_outcome(Some(second)), Ok("new value".to_string()));
}

#[test]
fn file_name_appends_dat() {
    assert_eq!(storage_file_name("token"), "token.dat");
    assert_eq!(storage_file_name(""), ".dat");
}

#[test]
fn remove_of_missing_file_has_no_work() {
    // remove on a key with no existing file succeeds with nothing to delete.
    assert_eq!(plan_remove("token", false), None);
}

#[test]
fn remove_of_existing_file_names_it() {
    assert_eq!(plan_remove("token", true), Some("token.dat".to_string()));
}

#[test]
fn error_descriptions() {
    assert_eq!(StoreError::NotFoundError.describe(), "key not found");
    assert_eq!(
        StoreError::DecodeError.describe(),
        "stored value is not valid base64"
    );
    assert_eq!(
        StoreError::EncodingError.describe(),
        "stored value is not valid UTF-8"
    );
    assert_eq!(
        StoreError::DirectoryError.describe(),
        "failed to access the storage directory"
    );
    assert_eq!(
        StoreError::WriteError.describe(),
        "failed to write the key's file"
    );
    assert_eq!(
        StoreError::DeleteError.describe(),
        "failed to delete the key's file"
    );
    assert_eq!(StoreError::IoError.describe(), "file operation failed");
}
