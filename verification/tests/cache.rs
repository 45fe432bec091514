use dubs::cache::{Cache, CacheType};

#[test]
fn private_minute_serializes() {
    let cache = Cache {
        max_age: 60,
        cache_type: CacheType::Private,
        no_cache: false,
        must_revalidate: false,
    };
    assert_eq!(cache.to_string(), "max_age=60,private");
}

#[test]
fn every_token_in_its_place() {
    let cache = Cache {
        max_age: 0,
        cache_type: CacheType::Public,
        no_cache: true,
        must_revalidate: true,
    };
    assert_eq!(cache.to_string(), "max_age=0,no-cache,public,must-revalidate");
}

#[test]
fn unset_tokens_leave_no_gap() {
    let cache = Cache {
        max_age: 604800,
        cache_type: CacheType::Public,
        no_cache: true,
        must_revalidate: false,
    };
    assert_eq!(cache.to_string(), "max_age=604800,no-cache,public");
    let cache = Cache {
        max_age: u64::MAX,
        cache_type: CacheType::Private,
        no_cache: false,
        must_revalidate: true,
    };
    assert_eq!(cache.to_string(), "max_age=18446744073709551615,private,must-revalidate");
}

#[test]
fn cache_type_tokens() {
    assert_eq!(CacheType::Public.to_string(), "public");
    assert_eq!(CacheType::Private.to_string(), "private");
}
