use xbridge::discovery::list_sync::{
    accept, download_fresh, sha256_hex, sync, verify_and_save, SyncStep, HASH_FILE, LIST_FILE,
    REMOTE_HASH_URL, REMOTE_LIST_URL,
};

const ABC: &str = "ba7816bf8f01cfea414140de5dae2223b00361a396177a9cb410ff61f20015ad";

#[test]
fn the_hash_file_stands_beside_the_list() {
    assert_eq!(LIST_FILE, "xbridge-detectable-list.json");
    assert_eq!(HASH_FILE, "xbridge-detectable-list.json.sha256");
    assert!(REMOTE_LIST_URL.ends_with(LIST_FILE));
    assert!(REMOTE_HASH_URL.ends_with(HASH_FILE));
}

#[test]
fn the_hash_is_sha256_in_hexadecimal() {
    assert_eq!(sha256_hex(b"abc"), ABC);
    assert_eq!(
        sha256_hex(b""),
        "e3b0c44298fc1c149afbf4c8996fb92427ae41e4649b934ca495991b7852b855"
    );
}

#[test]
fn a_list_with_the_published_hash_is_saved() {
    let published = format!("  {ABC}\n");
    let save = verify_and_save(b"abc", &published).ok().unwrap();
    assert_eq!(save.list, b"abc".to_vec());
    assert_eq!(save.hash, ABC);
    assert_eq!(save.directory, None);
    let save = download_fresh(b"abc", &published).ok().unwrap();
    assert_eq!(save.directory, Some(r"C:\windows"));
    assert_eq!((save.list, save.hash.as_str()), (b"abc".to_vec(), ABC));
}

#[test]
fn another_list_is_refused() {
    let published = format!("{ABC}\n");
    let mismatch = download_fresh(b"abd", &published).err().unwrap();
    assert_eq!(mismatch.expected, published);
    assert_eq!(mismatch.actual, sha256_hex(b"abd"));
    assert_eq!(
        mismatch.message(),
        format!("hash mismatch: expected {ABC}\n, got {}", sha256_hex(b"abd"))
    );
    assert!(verify_and_save(b"abc", &ABC.to_uppercase()).is_err());
}

#[test]
fn acceptance_compares_the_two_hashes() {
    assert!(accept(b"x", " 00ff ", "00ff".to_owned()).is_ok());
    assert!(accept(b"x", "00ff", " 00ff".to_owned()).is_err());
}

#[test]
fn white_space_around_the_published_hash_makes_no_difference() {
    for published in [ABC.to_owned(), format!("\t{ABC}\r\n")] {
        assert!(verify_and_save(b"abc", &published).is_ok());
        assert!(verify_and_save(b"abc", published.trim()).is_ok());
        assert!(verify_and_save(b"", &published).is_err());
    }
}

#[test]
fn an_unchanged_hash_needs_no_fetching() {
    assert!(matches!(sync("abc\n", Some("abc")), SyncStep::UpToDate));
    assert!(matches!(sync("abc", Some(" abc\r\n")), SyncStep::UpToDate));
}

#[test]
fn a_new_or_missing_hash_calls_for_the_list() {
    match sync(" abc\n", Some("abd")) {
        SyncStep::Fetch(expected) => assert_eq!(expected, "abc"),
        SyncStep::UpToDate => panic!("the hash has changed"),
    }
    match sync("abc", None) {
        SyncStep::Fetch(expected) => assert_eq!(expected, "abc"),
        SyncStep::UpToDate => panic!("there is no hash"),
    }
}

#[test]
fn a_saved_list_is_not_fetched_again() {
    let published = format!("{ABC}\n");
    let expected = match sync(&published, None) {
        SyncStep::Fetch(expected) => expected,
        SyncStep::UpToDate => panic!("there is no hash"),
    };
    let save = verify_and_save(b"abc", &expected).ok().unwrap();
    assert!(matches!(sync(&published, Some(&save.hash)), SyncStep::UpToDate));
}
