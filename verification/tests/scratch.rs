use printer::error::PrintError;
use printer::temp::TempStore;

#[test]
fn create_returns_full_path_and_stores_decoded_bytes() {
    let mut store = TempStore::new();
    let path = store
        .create("/tmp/", &b"aGk=".to_vec(), &"doc.pdf".to_string())
        .unwrap();
    assert_eq!(path, "/tmp/doc.pdf");
    assert_eq!(store.files.len(), 1);
    assert_eq!(store.files[0].name, "doc.pdf");
    assert_eq!(store.files[0].data, b"hi".to_vec());
}

#[test]
fn create_then_remove_is_a_no_op() {
    let mut store = TempStore::new();
    store
        .create("/tmp/", &b"QUJD".to_vec(), &"keep.txt".to_string())
        .unwrap();
    let before: Vec<(String, Vec<u8>)> = store
        .files
        .iter()
        .map(|f| (f.name.clone(), f.data.clone()))
        .collect();
    store
        .create("/tmp/", &b"QQ==".to_vec(), &"fleeting.txt".to_string())
        .unwrap();
    assert!(store.remove(&"fleeting.txt".to_string()));
    let after: Vec<(String, Vec<u8>)> = store
        .files
        .iter()
        .map(|f| (f.name.clone(), f.data.clone()))
        .collect();
    assert_eq!(before, after);
}

#[test]
fn create_with_invalid_base64_fails_and_leaves_no_file() {
    let mut store = TempStore::new();
    let err = store
        .create("/tmp/", &b"not base64!".to_vec(), &"bad.txt".to_string())
        .unwrap_err();
    assert_eq!(err, PrintError::DecodeError);
    assert_eq!(store.files.len(), 0);
    assert!(!store.remove(&"bad.txt".to_string()));
}

#[test]
fn remove_missing_file_reports_false() {
    let mut store = TempStore::new();
    assert!(!store.remove(&"absent.bin".to_string()));
    store
        .create("/tmp/", &b"QQ==".to_vec(), &"there.bin".to_string())
        .unwrap();
    assert!(!store.remove(&"elsewhere.bin".to_string()));
    assert!(store.remove(&"there.bin".to_string()));
    assert!(!store.remove(&"there.bin".to_string()));
}
