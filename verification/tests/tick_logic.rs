use ddrs::cache::{decode_cache_file, encode_cache_file};
use ddrs::tick::{
    decide_commit, plan_tick, tick_transition, CacheLookup, ProviderOutcome, TickPlan,
};
use ddrs::{CacheError, IpUpdate};

const V4_DOC: u32 = 0xCB00_7109; // 203.0.113.9

fn changed() -> IpUpdate {
    IpUpdate { v4: Some(V4_DOC), v6: None }
}

#[test]
fn equal_cached_record_plans_no_change() {
    let fetched = changed();
    let plan = plan_tick(&fetched, &CacheLookup::Hit(fetched), false);
    assert_eq!(plan, TickPlan::NoChange);
    // and the tick as a whole leaves the cache alone and calls nobody
    let outcomes = vec![];
    let pre = Some(IpUpdate { v4: Some(1), v6: None });
    let t = tick_transition(&fetched, &CacheLookup::Hit(fetched), false, &pre, &outcomes, 2);
    assert_eq!(t.plan, TickPlan::NoChange);
    assert!(!t.committed);
    assert_eq!(t.cache, pre);
}

#[test]
fn empty_fetch_plans_nothing() {
    let fetched = IpUpdate { v4: None, v6: None };
    let plan = plan_tick(&fetched, &CacheLookup::Miss, false);
    assert_eq!(plan, TickPlan::NoAddress);
}

#[test]
fn cache_miss_plans_publish() {
    let plan = plan_tick(&changed(), &CacheLookup::Miss, false);
    assert_eq!(plan, TickPlan::Publish);
}

#[test]
fn unreadable_cache_is_treated_as_miss() {
    let plan = plan_tick(&changed(), &CacheLookup::Unreadable(CacheError::BadMagic), false);
    assert_eq!(plan, TickPlan::Publish);
}

#[test]
fn different_cached_record_plans_publish() {
    let cached = IpUpdate { v4: Some(7), v6: None };
    let plan = plan_tick(&changed(), &CacheLookup::Hit(cached), false);
    assert_eq!(plan, TickPlan::Publish);
}

#[test]
fn dry_run_suppresses_a_due_update() {
    let fetched = changed();
    let plan = plan_tick(&fetched, &CacheLookup::Miss, true);
    assert_eq!(plan, TickPlan::DryRun);
    // the cache is not written, whatever outcomes are fed in
    let outcomes = vec![ProviderOutcome::Applied(true)];
    let t = tick_transition(&fetched, &CacheLookup::Miss, true, &None, &outcomes, 1);
    assert!(!t.committed);
    assert_eq!(t.cache, None);
}

#[test]
fn dry_run_still_reports_no_change_on_equal_record() {
    let fetched = changed();
    let plan = plan_tick(&fetched, &CacheLookup::Hit(fetched), true);
    assert_eq!(plan, TickPlan::NoChange);
}

#[test]
fn commit_needs_every_provider_to_succeed() {
    let all_good = vec![ProviderOutcome::Applied(true), ProviderOutcome::Applied(false)];
    assert!(decide_commit(&all_good, 2));

    let one_failed = vec![ProviderOutcome::Applied(true), ProviderOutcome::Failed];
    assert!(!decide_commit(&one_failed, 2));

    let one_incomplete = vec![ProviderOutcome::Incomplete, ProviderOutcome::Applied(true)];
    assert!(!decide_commit(&one_incomplete, 2));

    // the barrier: a missing outcome means a task was never joined
    let missing = vec![ProviderOutcome::Applied(true)];
    assert!(!decide_commit(&missing, 2));

    let none: Vec<ProviderOutcome> = vec![];
    assert!(decide_commit(&none, 0));
}

#[test]
fn one_failing_provider_keeps_the_old_cache_and_retries() {
    let fetched = changed();
    let pre = Some(IpUpdate { v4: Some(7), v6: None });
    let lookup = CacheLookup::Hit(IpUpdate { v4: Some(7), v6: None });
    let outcomes = vec![
        ProviderOutcome::Applied(true),
        ProviderOutcome::Failed,
        ProviderOutcome::Applied(true),
    ];
    let t = tick_transition(&fetched, &lookup, false, &pre, &outcomes, 3);
    assert_eq!(t.plan, TickPlan::Publish);
    assert!(!t.committed);
    assert_eq!(t.cache, pre);
    // the next tick with unchanged source data publishes again, to all three
    let again = plan_tick(&fetched, &lookup, false);
    assert_eq!(again, TickPlan::Publish);
}

#[test]
fn scenario_two_ticks_through_the_real_cache() {
    // cache empty, fetch yields v4 203.0.113.9 and no v6
    let fetched = IpUpdate { v4: Some(V4_DOC), v6: None };
    let mut cache_bytes: Option<Vec<u8>> = None;
    let provider_count = 2usize;
    let mut provider_calls = 0usize;

    // first tick
    let lookup = match &cache_bytes {
        None => CacheLookup::Miss,
        Some(bytes) => match decode_cache_file(bytes) {
            Ok(r) => CacheLookup::Hit(r),
            Err(e) => CacheLookup::Unreadable(e),
        },
    };
    let plan = plan_tick(&fetched, &lookup, false);
    assert_eq!(plan, TickPlan::Publish);
    let mut outcomes = Vec::new();
    for _ in 0..provider_count {
        provider_calls += 1;
        outcomes.push(ProviderOutcome::Applied(true));
    }
    if decide_commit(&outcomes, provider_count) {
        cache_bytes = Some(encode_cache_file(&fetched));
    }
    assert_eq!(provider_calls, 2);

    // the cache now returns the committed record
    let stored = decode_cache_file(cache_bytes.as_ref().unwrap()).unwrap();
    assert_eq!(stored, fetched);

    // second tick with an identical fetch triggers zero provider calls
    let lookup = CacheLookup::Hit(stored);
    let plan = plan_tick(&fetched, &lookup, false);
    assert_eq!(plan, TickPlan::NoChange);
    assert_eq!(provider_calls, 2);
}
