use adbuy_core::campaign_cache::{find_campaign, CampaignCache};
use std::cell::Cell;

#[test]
fn first_lookup_loads_and_later_lookups_use_the_cache() {
    let loads = Cell::new(0);
    let mut cache: CampaignCache<String> = CampaignCache::new();
    assert_eq!(cache.cached(7), None);
    let c = find_campaign(&mut cache, 7, || {
        loads.set(loads.get() + 1);
        "summer sale".to_string()
    });
    assert_eq!(c, "summer sale");
    assert_eq!(loads.get(), 1);
    assert_eq!(cache.cached(7), Some("summer sale".to_string()));
    let again = find_campaign(&mut cache, 7, || {
        loads.set(loads.get() + 1);
        "reloaded".to_string()
    });
    assert_eq!(again, "summer sale");
    assert_eq!(loads.get(), 1);
}

#[test]
fn lookups_keep_other_campaigns() {
    let mut cache: CampaignCache<u32> = CampaignCache::new();
    cache.remember(1, 10);
    let c = find_campaign(&mut cache, 2, || 20);
    assert_eq!(c, 20);
    assert_eq!(cache.cached(1), Some(10));
    assert_eq!(cache.cached(2), Some(20));
    cache.remember(1, 11);
    assert_eq!(cache.cached(1), Some(11));
}
