use passmr::kvs::{decode_keys, decode_value, Kvs, KvsError};
use std::path::PathBuf;

fn fresh() -> Kvs {
    match Kvs::open_temporary() {
        Ok(k) => k,
        Err(e) => panic!("cannot open a temporary store: {}", e),
    }
}

#[test]
fn test_insert() {
    let mut kvs = fresh();
    let key = "key";
    let value = "value";
    assert!(kvs.insert(key, value).is_ok());
    assert!(matches!(kvs.get("key"), Ok(Some(v)) if v == "value".to_string()));
}

#[test]
fn get_absent_key_is_none() {
    let kvs = fresh();
    assert!(matches!(kvs.get("nothing"), Ok(None)));
}

#[test]
fn insert_overwrites_value() {
    let mut kvs = fresh();
    assert!(kvs.insert("site", "old").is_ok());
    assert!(kvs.insert("site", "new").is_ok());
    assert!(matches!(kvs.get("site"), Ok(Some(v)) if v == "new"));
    assert!(matches!(kvs.get_key_vec(), Ok(ks) if ks == vec!["site".to_string()]));
}

#[test]
fn delete_then_get_is_none() {
    let mut kvs = fresh();
    assert!(kvs.insert("k", "v").is_ok());
    assert!(kvs.delete("k").is_ok());
    assert!(matches!(kvs.get("k"), Ok(None)));
}

#[test]
fn delete_absent_key_is_no_error() {
    let mut kvs = fresh();
    assert!(kvs.delete("never").is_ok());
    assert!(matches!(kvs.get_key_vec(), Ok(ks) if ks.is_empty()));
}

#[test]
fn key_listing_is_sorted_and_follows_changes() {
    let mut kvs = fresh();
    for k in ["github", "email", "gitlab", "bank"] {
        assert!(kvs.insert(k, "x").is_ok());
    }
    assert!(kvs.delete("email").is_ok());
    assert!(kvs.insert("email", "y").is_ok());
    assert!(kvs.delete("bank").is_ok());
    let keys = match kvs.get_key_vec() {
        Ok(ks) => ks,
        Err(_) => panic!("listing failed"),
    };
    assert_eq!(keys, vec!["email".to_string(), "github".to_string(), "gitlab".to_string()]);
}

#[test]
fn non_ascii_text_round_trips() {
    let mut kvs = fresh();
    assert!(kvs.insert("café", "naïve €").is_ok());
    assert!(matches!(kvs.get("café"), Ok(Some(v)) if v == "naïve €"));
    assert!(matches!(kvs.get_key_vec(), Ok(ks) if ks == vec!["café".to_string()]));
}

#[test]
fn invalid_utf8_value_is_a_decode_error() {
    let path = PathBuf::from("/tmp/passmr_decode_error_store");
    {
        let db = sled::open(&path).unwrap();
        db.insert(b"bad", vec![0xffu8, 0xfe]).unwrap();
        db.insert([0xc3u8, 0x28], b"v".to_vec()).unwrap();
        db.flush().unwrap();
    }
    let kvs = match Kvs::new(&path) {
        Ok(k) => k,
        Err(e) => panic!("cannot open: {}", e),
    };
    assert!(matches!(kvs.get("bad"), Err(KvsError::Decode)));
    assert!(matches!(kvs.get_key_vec(), Err(KvsError::Decode)));
}

#[test]
fn open_at_unusable_path_fails() {
    let path = PathBuf::from("/proc/passmr_cannot_be_here/kvs");
    assert!(Kvs::new(&path).is_err());
}

#[test]
fn decode_value_cases() {
    assert!(matches!(decode_value(None), Ok(None)));
    assert!(matches!(decode_value(Some("pw€".as_bytes().to_vec())), Ok(Some(s)) if s == "pw€"));
    assert!(matches!(decode_value(Some(vec![0xff, 0x00])), Err(KvsError::Decode)));
}

#[test]
fn decode_keys_cases() {
    let raw = vec![b"bank".to_vec(), "café".as_bytes().to_vec()];
    assert!(matches!(decode_keys(raw), Ok(ks) if ks == vec!["bank".to_string(), "café".to_string()]));
    assert!(matches!(decode_keys(Vec::new()), Ok(ks) if ks.is_empty()));
    let bad = vec![b"ok".to_vec(), vec![0xc3, 0x28]];
    assert!(matches!(decode_keys(bad), Err(KvsError::Decode)));
}
