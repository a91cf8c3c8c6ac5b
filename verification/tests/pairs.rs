use terminal::backend::pairs::ColorPairCache;

#[test]
fn new_cache_holds_the_reserved_pair() {
    let cache = ColorPairCache::new();
    assert_eq!(cache.len(), 1);
    assert_eq!(cache.get(-1), Some(0));
    assert_eq!(cache.get(0), None);
}

#[test]
fn default_colour_is_answered_with_pair_zero() {
    let mut cache = ColorPairCache::new();
    assert_eq!(cache.get_or_insert(-1), (0, false));
    assert_eq!(cache.len(), 1);
}

#[test]
fn first_new_key_gets_pair_one() {
    let mut cache = ColorPairCache::new();
    assert_eq!(cache.get_or_insert(9), (1, true));
    assert_eq!(cache.get_or_insert(245), (2, true));
    assert_eq!(cache.len(), 3);
    assert_eq!(cache.get(9), Some(1));
    assert_eq!(cache.get(245), Some(2));
}

#[test]
fn same_key_twice_gives_the_same_pair() {
    let mut cache = ColorPairCache::new();
    let first = cache.get_or_insert(42);
    let second = cache.get_or_insert(42);
    assert_eq!(first, (1, true));
    assert_eq!(second, (1, false));
    assert_eq!(cache.len(), 2);
}

#[test]
fn the_256th_key_reuses_pair_255() {
    let mut cache = ColorPairCache::new();
    for key in 0..255i16 {
        assert_eq!(cache.get_or_insert(key), (i32::from(key) + 1, true));
    }
    assert_eq!(cache.len(), 256);
    assert_eq!(cache.get(254), Some(255));
    assert_eq!(cache.get_or_insert(1000), (255, true));
    assert_eq!(cache.len(), 256);
    assert_eq!(cache.get(254), None);
    assert_eq!(cache.get(1000), Some(255));
    assert_eq!(cache.get(253), Some(254));
    assert_eq!(cache.get(-1), Some(0));
}

#[test]
fn a_full_cache_keeps_replacing_its_last_pair() {
    let mut cache = ColorPairCache::new();
    for key in 0..255i16 {
        cache.get_or_insert(key);
    }
    for key in 300..400i16 {
        assert_eq!(cache.get_or_insert(key), (255, true));
        assert_eq!(cache.len(), 256);
        assert_eq!(cache.get(key - 1), None);
    }
    assert_eq!(cache.get_or_insert(254), (255, true));
    assert_eq!(cache.get_or_insert(0), (1, false));
    assert_eq!(cache.get_or_insert(-1), (0, false));
}

#[test]
fn a_hit_in_a_full_cache_changes_nothing() {
    let mut cache = ColorPairCache::new();
    for key in 0..255i16 {
        cache.get_or_insert(key);
    }
    assert_eq!(cache.get_or_insert(17), (18, false));
    assert_eq!(cache.get(254), Some(255));
    assert_eq!(cache.len(), 256);
}

#[test]
fn new_color_pair_index_counts_up_and_then_evicts() {
    let mut cache = ColorPairCache::new();
    assert_eq!(cache.new_color_pair_index(), 1);
    assert_eq!(cache.len(), 1);
    for key in 0..255i16 {
        cache.get_or_insert(key);
    }
    assert_eq!(cache.new_color_pair_index(), 255);
    assert_eq!(cache.len(), 255);
    assert_eq!(cache.get(254), None);
}
