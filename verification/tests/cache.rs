use wanikanji::io::{interpret_cache_read, FilesystemCache, IoError};

#[test]
fn new_accepts_an_existing_directory() {
    let cache = FilesystemCache::new(".cache".to_owned(), true).unwrap();
    assert_eq!(cache.cache_dir, ".cache");
}

#[test]
fn new_refuses_a_missing_directory() {
    let r = FilesystemCache::new(".cache".to_owned(), false);
    assert_eq!(r.unwrap_err(), IoError::CacheDirectoryNotFound);
}

#[test]
fn entry_path_places_one_json_file_per_key() {
    let cache = FilesystemCache::new(".cache".to_owned(), true).unwrap();
    assert_eq!(cache.entry_path("kanji"), ".cache/kanji.json");
    assert_eq!(cache.entry_path("vocabulary"), ".cache/vocabulary.json");
}

#[test]
fn absent_entry_reads_as_not_found() {
    // A key never inserted is "not found", not a malformed-file error.
    let r = interpret_cache_read::<Vec<u32>>(None);
    assert_eq!(r, Ok(None));
}

#[test]
fn present_entry_reads_back_its_value() {
    let r = interpret_cache_read(Some(Ok(vec![1u32, 2, 3])));
    assert_eq!(r, Ok(Some(vec![1, 2, 3])));
}

#[test]
fn malformed_entry_reads_as_decoding_error() {
    let r = interpret_cache_read::<Vec<u32>>(Some(Err("expected value at line 1".to_owned())));
    assert_eq!(r, Err(IoError::SerdeError("expected value at line 1".to_owned())));
}
