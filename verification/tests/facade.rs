use expiring_cache::contains_key;
use expiring_cache::check_exp_interval;
use expiring_cache::encode;
use expiring_cache::get;
use expiring_cache::get_entry;
use expiring_cache::get_exp;
use expiring_cache::hit_or_failure;
use expiring_cache::insert;
use expiring_cache::insert_encoded;
use expiring_cache::miss_on_failure;
use expiring_cache::policy_of_found;
use expiring_cache::refresh;
use expiring_cache::refresh_entry;
use expiring_cache::remove;
use expiring_cache::setup;
use expiring_cache::try_get;
use expiring_cache::CacheData;
use expiring_cache::CacheError;
use expiring_cache::CacheHandle;
use expiring_cache::Expiration;
use expiring_cache::RemovalCause;
use std::sync::Arc;

#[derive(Debug, Clone, PartialEq)]
struct Config {
    pub path: String,
    pub cache_capacity: u32,
    pub len: usize,
}

impl bincode::Encode for Config {
    fn encode<E: bincode::enc::Encoder>(
        &self,
        encoder: &mut E,
    ) -> Result<(), bincode::error::EncodeError> {
        bincode::Encode::encode(&self.path, encoder)?;
        bincode::Encode::encode(&self.cache_capacity, encoder)?;
        bincode::Encode::encode(&self.len, encoder)?;
        Ok(())
    }
}

impl<C> bincode::Decode<C> for Config {
    fn decode<D: bincode::de::Decoder<Context = C>>(
        decoder: &mut D,
    ) -> Result<Self, bincode::error::DecodeError> {
        let path = bincode::Decode::decode(decoder)?;
        let cache_capacity = bincode::Decode::decode(decoder)?;
        let len = bincode::Decode::decode(decoder)?;
        Ok(Config { path, cache_capacity, len })
    }
}

struct Unencodable;

impl bincode::Encode for Unencodable {
    fn encode<E: bincode::enc::Encoder>(
        &self,
        _encoder: &mut E,
    ) -> Result<(), bincode::error::EncodeError> {
        Err(bincode::error::EncodeError::Other("no encoding"))
    }
}

fn cache_key_expired(key: Arc<String>, value: CacheData, cause: RemovalCause) {
    println!("evicted key-----> {key}. value--> {value:?}. Cause: {cause:?}");
}

fn init() -> CacheHandle {
    let mut handle = CacheHandle::new();
    setup(&mut handle, Some(cache_key_expired), 512).unwrap();
    handle
}

#[test]
fn test_cache_u16() {
    let mut h = init();
    remove(&mut h, "test_cache_get_u1622");
    insert(&mut h, "test_cache_get_u1622", 1000, Expiration::Never).unwrap();
    let v = get::<u32>(&h, "test_cache_get_u1622");
    println!("test_cache_get_u1622-->{:?}", v);
    if let Some((policy, _)) = v {
        assert_eq!(policy, Expiration::Never);
    }
    assert_eq!(get_exp(&h, "test_cache_get_u1622"), Some(Expiration::Never));
}

#[test]
fn test_cache_byte() {
    let mut h = init();
    let b = b"hello world".to_vec();
    insert(&mut h, "test_cache_get_byte", b, Expiration::Never).unwrap();
    let v = get::<Vec<u8>>(&h, "test_cache_get_byte");
    println!("test_cache_get_byte-->{:?}", v);
    assert_eq!(v, Some((Expiration::Never, b"hello world".to_vec())));
}

#[test]
fn test_cache_struct() {
    let mut h = init();
    let b = Config { path: "test".to_string(), cache_capacity: 1024, len: 1024 };
    insert(&mut h, "test_cache_struct", b, Expiration::Never).unwrap();
    let v = get::<Config>(&h, "test_cache_struct");
    println!("test_cache_struct-->{:?}", v);
    assert_eq!(
        v,
        Some((
            Expiration::Never,
            Config { path: "test".to_string(), cache_capacity: 1024, len: 1024 }
        ))
    );
}

#[test]
fn test_cache_get() {
    let mut h = init();

    insert(&mut h, "test_cache_get", "hello world", Expiration::Never).unwrap();
    let v = get::<String>(&h, "test_cache_get");
    println!("test_cache_get--->: {:?}", v);
    assert_eq!(v, Some((Expiration::Never, "hello world".to_string())));

    insert(&mut h, "test_cache_get_bool", true, Expiration::Never).unwrap();
    let v = get::<bool>(&h, "test_cache_get_bool");
    println!("test_cache_get_bool-->{:?}", v);
    assert_eq!(v, Some((Expiration::Never, true)));

    insert(&mut h, "test_cache_get_bool_false", false, Expiration::Never).unwrap();
    let v = get::<bool>(&h, "test_cache_get_bool_false");
    println!("test_cache_get_bool_false-->{:?}", v);
    assert_eq!(v, Some((Expiration::Never, false)));

    insert(&mut h, "test_cache_get_i32", 1000, Expiration::Never).unwrap();
    let v = get::<i32>(&h, "test_cache_get_i32");
    println!("test_cache_get_i32-->{:?}", v);
    assert_eq!(v, Some((Expiration::Never, 1000)));

    insert(&mut h, "test_cache_get_byte", b"hello world".to_vec(), Expiration::Never).unwrap();
    let v = get::<Vec<u8>>(&h, "test_cache_get_byte");
    println!("test_cache_get_byte-->{:?}", v);
    assert_eq!(v, Some((Expiration::Never, b"hello world".to_vec())));
}

#[test]
fn new_handle_is_uninitialized() {
    let h = CacheHandle::new();
    assert!(!h.is_ready());
    assert_eq!(h.max_capacity(), None);
}

#[test]
fn operations_on_an_uninitialized_handle_degrade() {
    let mut h = CacheHandle::new();
    assert_eq!(insert(&mut h, "k", 1u8, Expiration::Never), Err(CacheError::NotInitialized));
    assert_eq!(
        insert_encoded(&mut h, "k", vec![1], Expiration::Never),
        Err(CacheError::NotInitialized)
    );
    assert_eq!(get::<u8>(&h, "k"), None);
    assert_eq!(try_get::<u8>(&h, "k"), Ok(None));
    assert_eq!(get_entry(&h, "k"), None);
    assert_eq!(get_exp(&h, "k"), None);
    assert!(!contains_key(&h, "k"));
    remove(&mut h, "k");
    check_exp_interval(&h);
    assert_eq!(refresh(&mut h, "k"), Err(CacheError::NotInitialized));
    assert_eq!(
        refresh_entry(&mut h, "k", Some((Expiration::Second(1), vec![1]))),
        Err(CacheError::NotInitialized)
    );
    assert!(!h.is_ready());
}

#[test]
fn not_initialized_comes_before_encode_failure() {
    let mut h = CacheHandle::new();
    assert_eq!(insert(&mut h, "k", Unencodable, Expiration::Never), Err(CacheError::NotInitialized));
}

#[test]
fn setup_makes_the_handle_ready_with_its_capacity() {
    let mut h = CacheHandle::new();
    assert_eq!(setup(&mut h, Some(cache_key_expired), 512), Ok(()));
    assert!(h.is_ready());
    assert_eq!(h.max_capacity(), Some(512));
    assert!(!contains_key(&h, "anything"));
}

#[test]
fn setup_without_a_listener() {
    let mut h = CacheHandle::new();
    let none: Option<fn(Arc<String>, CacheData, RemovalCause)> = None;
    assert_eq!(setup(&mut h, none, 16), Ok(()));
    assert_eq!(h.max_capacity(), Some(16));
    insert(&mut h, "k", 5u8, Expiration::Never).unwrap();
    assert_eq!(get::<u8>(&h, "k"), Some((Expiration::Never, 5)));
}

#[test]
fn second_setup_fails_and_changes_nothing() {
    let mut h = init();
    insert(&mut h, "kept", 7u32, Expiration::Never).unwrap();
    assert_eq!(setup(&mut h, Some(cache_key_expired), 3), Err(CacheError::AlreadyInitialized));
    let none: Option<fn(Arc<String>, CacheData, RemovalCause)> = None;
    assert_eq!(setup(&mut h, none, 0), Err(CacheError::AlreadyInitialized));
    assert!(h.is_ready());
    assert_eq!(h.max_capacity(), Some(512));
    assert_eq!(get::<u32>(&h, "kept"), Some((Expiration::Never, 7)));
    insert(&mut h, "later", 8u32, Expiration::Never).unwrap();
    assert_eq!(get::<u32>(&h, "later"), Some((Expiration::Never, 8)));
}

#[test]
fn insert_replaces_the_entry_under_the_key() {
    let mut h = init();
    insert(&mut h, "k", 1u32, Expiration::Never).unwrap();
    insert(&mut h, "k", "two", Expiration::Hour(1)).unwrap();
    assert_eq!(get::<String>(&h, "k"), Some((Expiration::Hour(1), "two".to_string())));
    assert_eq!(get_exp(&h, "k"), Some(Expiration::Hour(1)));
}

#[test]
fn insert_keeps_the_policy_with_the_payload() {
    let mut h = init();
    insert(&mut h, "a", 1u8, Expiration::Millis(60_000)).unwrap();
    insert(&mut h, "b", 2u8, Expiration::Second(60)).unwrap();
    insert(&mut h, "c", 3u8, Expiration::Minute(1)).unwrap();
    insert(&mut h, "d", 4u8, Expiration::Hour(1)).unwrap();
    insert(&mut h, "e", 5u8, Expiration::Never).unwrap();
    assert_eq!(get_exp(&h, "a"), Some(Expiration::Millis(60_000)));
    assert_eq!(get_exp(&h, "b"), Some(Expiration::Second(60)));
    assert_eq!(get_exp(&h, "c"), Some(Expiration::Minute(1)));
    assert_eq!(get_exp(&h, "d"), Some(Expiration::Hour(1)));
    assert_eq!(get_exp(&h, "e"), Some(Expiration::Never));
    assert_eq!(get::<u8>(&h, "c"), Some((Expiration::Minute(1), 3)));
}

#[test]
fn insert_encoded_stores_the_bytes_as_given() {
    let mut h = init();
    assert_eq!(insert_encoded(&mut h, "raw", vec![9, 8, 7], Expiration::Minute(1)), Ok(()));
    assert_eq!(get_entry(&h, "raw"), Some((Expiration::Minute(1), vec![9, 8, 7])));
    assert!(contains_key(&h, "raw"));
}

#[test]
fn insert_stores_what_encode_gives() {
    let mut h = init();
    insert(&mut h, "k", "hello world", Expiration::Second(30)).unwrap();
    let expected = encode(&"hello world").unwrap();
    assert_eq!(get_entry(&h, "k"), Some((Expiration::Second(30), expected)));
}

#[test]
fn encode_failure_aborts_the_insert() {
    let mut h = init();
    insert(&mut h, "k", 1u8, Expiration::Never).unwrap();
    let r = insert(&mut h, "k", Unencodable, Expiration::Second(1));
    assert!(matches!(r, Err(CacheError::EncodeFailure(_))));
    assert_eq!(get::<u8>(&h, "k"), Some((Expiration::Never, 1)));
    let r = insert(&mut h, "fresh", Unencodable, Expiration::Never);
    assert!(matches!(r, Err(CacheError::EncodeFailure(_))));
    assert!(!contains_key(&h, "fresh"));
}

#[test]
fn get_of_a_key_never_written_is_none() {
    let h = init();
    assert_eq!(get::<u32>(&h, "nobody"), None);
    assert_eq!(try_get::<u32>(&h, "nobody"), Ok(None));
    assert_eq!(get_exp(&h, "nobody"), None);
    assert_eq!(get_entry(&h, "nobody"), None);
    assert!(!contains_key(&h, "nobody"));
}

#[test]
fn decode_mismatch_is_a_miss() {
    let mut h = init();
    insert(&mut h, "flag", true, Expiration::Never).unwrap();
    assert_eq!(get::<String>(&h, "flag"), None);
    assert!(matches!(try_get::<String>(&h, "flag"), Err(CacheError::DecodeFailure(_))));
    assert!(contains_key(&h, "flag"));
    assert_eq!(get_exp(&h, "flag"), Some(Expiration::Never));
    assert_eq!(get::<bool>(&h, "flag"), Some((Expiration::Never, true)));
}

#[test]
fn miss_on_failure_folds_errors_into_none() {
    let hit: Result<Option<(Expiration, u8)>, CacheError> = Ok(Some((Expiration::Second(2), 9)));
    assert_eq!(miss_on_failure(hit), Some((Expiration::Second(2), 9)));
    let miss: Result<Option<(Expiration, u8)>, CacheError> = Ok(None);
    assert_eq!(miss_on_failure(miss), None);
    let bad: Result<Option<(Expiration, u8)>, CacheError> =
        Err(CacheError::DecodeFailure("shape".to_string()));
    assert_eq!(miss_on_failure(bad), None);
}

#[test]
fn remove_makes_the_key_absent() {
    let mut h = init();
    insert(&mut h, "k", 1u8, Expiration::Never).unwrap();
    insert(&mut h, "other", 2u8, Expiration::Never).unwrap();
    assert!(contains_key(&h, "k"));
    remove(&mut h, "k");
    assert!(!contains_key(&h, "k"));
    assert_eq!(get::<u8>(&h, "k"), None);
    assert_eq!(get_exp(&h, "k"), None);
    assert_eq!(refresh(&mut h, "k"), Err(CacheError::KeyNotFound));
    assert_eq!(get::<u8>(&h, "other"), Some((Expiration::Never, 2)));
}

#[test]
fn remove_of_an_absent_key_is_a_no_op() {
    let mut h = init();
    insert(&mut h, "k", 1u8, Expiration::Never).unwrap();
    remove(&mut h, "absent");
    remove(&mut h, "absent");
    assert_eq!(get::<u8>(&h, "k"), Some((Expiration::Never, 1)));
}

#[test]
fn refresh_of_an_absent_key_is_key_not_found() {
    let mut h = init();
    assert_eq!(refresh(&mut h, "absent"), Err(CacheError::KeyNotFound));
    insert(&mut h, "present", 1u8, Expiration::Second(30)).unwrap();
    assert_eq!(refresh(&mut h, "absent"), Err(CacheError::KeyNotFound));
    assert_eq!(get::<u8>(&h, "present"), Some((Expiration::Second(30), 1)));
}

#[test]
fn refresh_keeps_policy_and_value() {
    let mut h = init();
    insert(&mut h, "k", "payload", Expiration::Minute(10)).unwrap();
    let before = get_entry(&h, "k");
    assert_eq!(refresh(&mut h, "k"), Ok(()));
    assert_eq!(get_entry(&h, "k"), before);
    assert_eq!(get::<String>(&h, "k"), Some((Expiration::Minute(10), "payload".to_string())));
}

#[test]
fn refresh_of_a_never_entry_succeeds_and_keeps_it() {
    let mut h = init();
    insert(&mut h, "k", 5u64, Expiration::Never).unwrap();
    assert_eq!(refresh(&mut h, "k"), Ok(()));
    assert_eq!(get::<u64>(&h, "k"), Some((Expiration::Never, 5)));
}

#[test]
fn refresh_entry_acts_on_what_was_found() {
    let mut h = init();
    assert_eq!(refresh_entry(&mut h, "k", None), Err(CacheError::KeyNotFound));
    assert!(!contains_key(&h, "k"));
    assert_eq!(refresh_entry(&mut h, "k", Some((Expiration::Never, vec![1]))), Ok(()));
    assert!(!contains_key(&h, "k"));
    assert_eq!(refresh_entry(&mut h, "k", Some((Expiration::Hour(1), vec![2]))), Ok(()));
    assert_eq!(get_entry(&h, "k"), Some((Expiration::Hour(1), vec![2])));
}

#[test]
fn sweep_keeps_live_entries() {
    let mut h = init();
    insert(&mut h, "k", 1u8, Expiration::Hour(1)).unwrap();
    check_exp_interval(&h);
    check_exp_interval(&h);
    assert_eq!(get::<u8>(&h, "k"), Some((Expiration::Hour(1), 1)));
}

#[test]
fn keys_are_told_apart_exactly() {
    let mut h = init();
    insert(&mut h, "key", 1u8, Expiration::Never).unwrap();
    insert(&mut h, "Key", 2u8, Expiration::Never).unwrap();
    insert(&mut h, "", 3u8, Expiration::Never).unwrap();
    assert_eq!(get::<u8>(&h, "key"), Some((Expiration::Never, 1)));
    assert_eq!(get::<u8>(&h, "Key"), Some((Expiration::Never, 2)));
    assert_eq!(get::<u8>(&h, ""), Some((Expiration::Never, 3)));
    assert_eq!(get::<u8>(&h, "key "), None);
}

#[test]
fn a_store_of_capacity_zero_keeps_nothing() {
    let mut h = CacheHandle::new();
    setup(&mut h, Some(cache_key_expired), 0).unwrap();
    assert_eq!(insert(&mut h, "k", 1u8, Expiration::Never), Ok(()));
    assert_eq!(get::<u8>(&h, "k"), None);
    assert!(!contains_key(&h, "k"));
    assert_eq!(refresh(&mut h, "k"), Err(CacheError::KeyNotFound));
}

#[test]
fn policy_of_found_is_the_policy_of_the_entry() {
    assert_eq!(policy_of_found(None), None);
    assert_eq!(policy_of_found(Some((Expiration::Minute(3), vec![1, 2]))), Some(Expiration::Minute(3)));
    assert_eq!(policy_of_found(Some((Expiration::Never, Vec::new()))), Some(Expiration::Never));
}

#[test]
fn hit_or_failure_joins_policy_and_value() {
    assert_eq!(
        hit_or_failure::<u8>(Expiration::Second(2), Ok(9)),
        Ok(Some((Expiration::Second(2), 9)))
    );
    assert_eq!(
        hit_or_failure::<u8>(Expiration::Second(2), Err(CacheError::DecodeFailure("shape".to_string()))),
        Err(CacheError::DecodeFailure("shape".to_string()))
    );
}
