use devenv_provision::cache_key::{
    big_endian_bytes, cache_key_from_hash, get_default_cache_key, hash_text, keep_alphanumerics,
};
use std::collections::hash_map::DefaultHasher;
use std::hash::{Hash, Hasher};

#[test]
fn bytes_come_most_significant_first() {
    assert_eq!(
        big_endian_bytes(0x0102_0304_0506_0708),
        vec![1, 2, 3, 4, 5, 6, 7, 8]
    );
    assert_eq!(big_endian_bytes(0), vec![0; 8]);
    assert_eq!(big_endian_bytes(u64::MAX), vec![0xff; 8]);
    assert_eq!(big_endian_bytes(0xff), vec![0, 0, 0, 0, 0, 0, 0, 0xff]);
    assert_eq!(
        big_endian_bytes(0x8000_0000_0000_0000),
        vec![0x80, 0, 0, 0, 0, 0, 0, 0]
    );
    assert_eq!(
        big_endian_bytes(0x0123_4567_89ab_cdef).as_slice(),
        &0x0123_4567_89ab_cdef_u64.to_be_bytes()[..]
    );
}

#[test]
fn letters_and_digits_stay() {
    assert_eq!(keep_alphanumerics("a+b/c="), "abc");
    assert_eq!(keep_alphanumerics("AZaz09"), "AZaz09");
    assert_eq!(keep_alphanumerics("+/=="), "");
    assert_eq!(keep_alphanumerics(""), "");
    assert_eq!(keep_alphanumerics("é-日_٣"), "é日٣");
}

#[test]
fn key_of_a_hash_is_its_base64_without_signs() {
    assert_eq!(cache_key_from_hash(0), "AAAAAAAAAAA");
    assert_eq!(cache_key_from_hash(u64::MAX), "8");
    assert_eq!(cache_key_from_hash(0x0102_0304_0506_0708), "AQIDBAUGBwg");
    assert_eq!(cache_key_from_hash(0xfbff_bfff_ffff_ffff), "8");
    assert_eq!(cache_key_from_hash(0xfbef_be00_0000_0000), "AAAAAAA");
}

#[test]
fn hash_is_that_of_a_fresh_standard_hasher() {
    let mut hasher = DefaultHasher::new();
    "/srv/app".hash(&mut hasher);
    assert_eq!(hash_text("/srv/app"), hasher.finish());
    assert_eq!(hash_text("/srv/app"), hash_text("/srv/app"));
    assert_ne!(hash_text("/srv/app"), hash_text("/srv/other"));
    assert_ne!(hash_text(""), hash_text("a"));
}

#[test]
fn default_key_follows_the_source_path() {
    let key = get_default_cache_key(Some("/srv/app")).unwrap();
    assert_eq!(key, cache_key_from_hash(hash_text("/srv/app")));
    assert!(!key.is_empty());
    assert!(key.len() <= 11);
    assert!(key.chars().all(|c| c.is_ascii_alphanumeric()));
    assert_eq!(get_default_cache_key(Some("/srv/app")), Some(key));
}

#[test]
fn unresolved_source_has_no_key() {
    assert_eq!(get_default_cache_key(None), None);
}
