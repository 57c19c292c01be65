use twitch_follower_role::error::AppError;
use twitch_follower_role::services::condition_eval::CacheData;
use twitch_follower_role::services::sync::UserSyncEvent;
use twitch_follower_role::services::twitch::{FollowerInfo, SubInfo};
use twitch_follower_role::tasks::refresh_worker::{
    backoff_secs, facts_from, is_twitch_unauthorized, CachedInterval, DueEntry, RefreshCycle, RefreshReply,
    Tokens, FAST_RETRY_SECS, MAX_REFRESH_SECS, MIN_REFRESH_SECS,
};
use twitch_follower_role::tasks::user_sync_worker::{job_for, UserSyncJob};
use twitch_follower_role::time::Timestamp;

fn at(secs: i64) -> Timestamp {
    Timestamp { secs, nanos: 0 }
}

fn entry() -> DueEntry {
    DueEntry { is_active: false, linked_at: at(0), failures: 2 }
}

fn tokens(access: &str) -> Tokens {
    Tokens { access: access.into(), refresh: format!("{access}-refresh") }
}

fn denied<T>() -> Result<T, AppError> {
    Err(AppError::TwitchApi("401 Unauthorized checking follower: {}".into()))
}

fn broken<T>() -> Result<T, AppError> {
    Err(AppError::TwitchApi("Check follower failed: 500 Internal Server Error - ".into()))
}

fn follower() -> Option<FollowerInfo> {
    Some(FollowerInfo { followed_at: at(7) })
}

fn checking() -> RefreshCycle {
    RefreshCycle::PickEntry
        .next(RefreshReply::Entry(Ok(Some(entry()))))
        .next(RefreshReply::Tokens(Ok(Some(tokens("old")))))
}

#[test]
fn interval_follows_the_number_of_entries() {
    let mut interval = CachedInterval::new();
    assert_eq!(interval.value, MIN_REFRESH_SECS);
    let mut at_count = |n: i64| {
        interval.recompute(n);
        interval.value
    };
    assert_eq!(at_count(0), 1800);
    assert_eq!(at_count(3600), 1800);
    assert_eq!(at_count(3602), 1801);
    assert_eq!(at_count(10_001), 5000);
    assert_eq!(at_count(172_800), 86_400);
    assert_eq!(at_count(i64::MAX), MAX_REFRESH_SECS);
    assert!(!CachedInterval::is_stale(299));
    assert!(CachedInterval::is_stale(300));
}

#[test]
fn next_check_depends_on_the_user() {
    let base = CachedInterval { value: 2000 };
    let idle = CacheData { is_following: false, followed_at: None, is_subscribed: false, sub_tier: 0 };
    let subscribed = CacheData { is_subscribed: true, ..idle };
    let next = |active: bool, facts: &CacheData, now: i64| {
        let e = DueEntry { is_active: active, linked_at: at(1000), failures: 0 };
        e.next_fetch_at(facts, &base, at(now)).secs - now
    };
    // A freshly linked user who does not qualify yet is checked again soon.
    assert_eq!(next(false, &idle, 1599), FAST_RETRY_SECS);
    assert_eq!(next(true, &idle, 1599), 90);
    assert_eq!(next(false, &idle, 1600), 12_000);
    assert_eq!(next(true, &idle, 1600), 2000);
    assert_eq!(next(false, &subscribed, 1001), 12_000);
    assert_eq!(next(true, &subscribed, 1001), 2000);
    let soon = entry().next_fetch(&subscribed, &base);
    assert!(soon.secs > 1_700_000_000);
}

#[test]
fn failures_put_an_entry_off_up_to_an_hour() {
    let delays: Vec<i64> = (0..8).map(backoff_secs).collect();
    assert_eq!(delays, [60, 120, 240, 480, 960, 1920, 3600, 3600]);
    assert_eq!(backoff_secs(u32::MAX), 3600);
    // The entry had failed twice before: this is the third failure in a row.
    let state = checking()
        .next(RefreshReply::Follower(Ok(follower())))
        .next(RefreshReply::Subscription(broken()));
    assert!(matches!(state, RefreshCycle::Backoff { failures: 3, seconds: 240, .. }));
    assert!(matches!(state.next(RefreshReply::Done), RefreshCycle::Finished));
}

#[test]
fn refused_tokens_are_recognised() {
    let err = |m: &str| -> Result<(), AppError> { Err(AppError::TwitchApi(m.into())) };
    assert!(is_twitch_unauthorized(&err("status 401")));
    assert!(is_twitch_unauthorized(&err("token expired")));
    assert!(is_twitch_unauthorized(&err("Unauthorized")));
    assert!(!is_twitch_unauthorized(&err("unauthorized")));
    assert!(!is_twitch_unauthorized(&Ok(())));
    let other: Result<(), AppError> = Err(AppError::Internal("401".into()));
    assert!(!is_twitch_unauthorized(&other));
}

#[test]
fn facts_come_from_both_checks() {
    let facts = facts_from(follower(), Some(SubInfo { tier: 3000 }));
    assert!(facts.is_following && facts.is_subscribed);
    assert_eq!(facts.followed_at, Some(at(7)));
    assert_eq!(facts.sub_tier, 3000);
    let none = facts_from(None, None);
    assert!(!none.is_following && !none.is_subscribed && none.followed_at.is_none());
    assert_eq!(none.sub_tier, 0);
}

#[test]
fn cycle_waits_when_nothing_is_due() {
    let idle = RefreshCycle::PickEntry.next(RefreshReply::Entry(Ok(None)));
    assert!(matches!(idle, RefreshCycle::Sleep { seconds: 30 }));
    let trouble = RefreshCycle::PickEntry
        .next(RefreshReply::Entry(Err(AppError::Database("down".into()))));
    assert!(matches!(trouble, RefreshCycle::Sleep { seconds: 5 }));
    let find = || RefreshCycle::FindTokens { entry: entry() };
    assert!(matches!(find().next(RefreshReply::Tokens(Ok(None))), RefreshCycle::Postpone { seconds: 3600 }));
    let failed = find().next(RefreshReply::Tokens(Err(AppError::Database("down".into()))));
    assert!(matches!(failed, RefreshCycle::Finished));
}

#[test]
fn cycle_stores_facts_and_notifies() {
    let state = checking().next(RefreshReply::Follower(Ok(follower())));
    assert!(matches!(
        &state,
        RefreshCycle::CheckSubscription { refreshed: false, permit: true, .. }
    ));
    let state = state.next(RefreshReply::Subscription(Ok(None)));
    match &state {
        RefreshCycle::StoreFacts { facts, .. } => {
            assert!(facts.is_following && !facts.is_subscribed);
        }
        _ => panic!("the facts are stored"),
    }
    let state = state.next(RefreshReply::Stored(true));
    let state = state.next(RefreshReply::User(Some("d1".into())));
    match state {
        RefreshCycle::Notify { event } => {
            assert_eq!(event, UserSyncEvent::UserUpdated { discord_id: "d1".into() });
        }
        _ => panic!("the user is synced"),
    }
    let unknown = RefreshCycle::FindUser.next(RefreshReply::User(None));
    assert!(matches!(unknown, RefreshCycle::Finished));
    let facts = facts_from(None, None);
    let lost = RefreshCycle::StoreFacts { entry: entry(), facts }.next(RefreshReply::Stored(false));
    assert!(matches!(lost, RefreshCycle::Finished));
}

#[test]
fn cycle_refreshes_the_token_once() {
    let state = checking().next(RefreshReply::Follower(denied()));
    assert!(matches!(&state, RefreshCycle::RefreshToken { tokens, .. } if tokens.access == "old"));
    let state = state.next(RefreshReply::Refreshed(Ok(tokens("new"))));
    assert!(matches!(&state, RefreshCycle::SaveTokens { tokens, .. } if tokens.access == "new"));
    let state = state.next(RefreshReply::Done);
    assert!(matches!(
        &state,
        RefreshCycle::CheckFollower { tokens, refreshed: true, .. } if tokens.access == "new"
    ));
    let state = state.next(RefreshReply::Follower(Ok(follower())));
    let state = state.next(RefreshReply::Subscription(denied()));
    // The refresh of this cycle is spent.
    assert!(matches!(state, RefreshCycle::Backoff { .. }));
}

#[test]
fn cycle_refreshes_for_the_subscription_check() {
    let state = checking()
        .next(RefreshReply::Follower(Ok(None)))
        .next(RefreshReply::Subscription(denied()))
        .next(RefreshReply::Refreshed(Ok(tokens("new"))))
        .next(RefreshReply::Done);
    assert!(matches!(
        &state,
        RefreshCycle::CheckSubscription { refreshed: true, permit: false, tokens, .. }
            if tokens.access == "new"
    ));
    let state = state.next(RefreshReply::Subscription(Ok(Some(SubInfo { tier: 1000 }))));
    assert!(matches!(state, RefreshCycle::StoreFacts { .. }));
}

#[test]
fn cycle_goes_on_after_a_failed_refresh() {
    let state = checking()
        .next(RefreshReply::Follower(denied()))
        .next(RefreshReply::Refreshed(Err(AppError::TwitchApi("no".into()))));
    assert!(matches!(&state, RefreshCycle::ClearTokens { .. }));
    let state = state.next(RefreshReply::Done);
    assert!(matches!(
        &state,
        RefreshCycle::CheckSubscription { refreshed: true, permit: true, follower: Err(_), .. }
    ));
    let state = state.next(RefreshReply::Subscription(Ok(None)));
    match state {
        RefreshCycle::Backoff { failure, .. } => assert_eq!(
            failure,
            AppError::TwitchApi("401 Unauthorized checking follower: {}".into())
        ),
        _ => panic!("one check has failed"),
    }
    let state = checking()
        .next(RefreshReply::Follower(Ok(None)))
        .next(RefreshReply::Subscription(denied()))
        .next(RefreshReply::Refreshed(Err(AppError::TwitchApi("no".into()))))
        .next(RefreshReply::Done);
    assert!(matches!(state, RefreshCycle::Backoff { .. }));
}

#[test]
fn cycle_backs_off_without_both_checks() {
    let state = checking()
        .next(RefreshReply::Follower(broken()))
        .next(RefreshReply::Subscription(Ok(None)));
    assert!(matches!(state, RefreshCycle::Backoff { .. }));
    let state = checking()
        .next(RefreshReply::Follower(Ok(None)))
        .next(RefreshReply::Subscription(broken()));
    assert!(matches!(state, RefreshCycle::Backoff { .. }));
    assert!(matches!(checking().next(RefreshReply::Done), RefreshCycle::Finished));
}

#[test]
fn events_become_jobs() {
    let id = || "d1".to_string();
    assert_eq!(
        job_for(UserSyncEvent::UserUpdated { discord_id: id() }),
        UserSyncJob::SyncRoles { discord_id: id() }
    );
    assert_eq!(
        job_for(UserSyncEvent::AccountLinked { discord_id: id() }),
        UserSyncJob::SyncRoles { discord_id: id() }
    );
    assert_eq!(
        job_for(UserSyncEvent::AccountUnlinked { discord_id: id() }),
        UserSyncJob::RemoveAll { discord_id: id() }
    );
}
