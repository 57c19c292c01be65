//! The refresh worker: polls Twitch for the cached relationships whose turn
//! has come, as a fallback to the events that Twitch pushes.
use vstd::arithmetic::power2::{
    lemma2_to64, lemma_pow2_pos, lemma_pow2_strictly_increases, pow2,
};
use vstd::prelude::*;

use crate::error::{error_view, AppError};
use crate::models::condition::{ConditionOperator, ConditionTarget};
use crate::outside::now;
use crate::services::condition_eval::{
    flag_rule, law_flags_are_taken_at_their_word, law_tiers_are_whole_thousands, number_rule,
    rule_matches, CacheData,
};
use crate::services::sync::UserSyncEvent;
use crate::services::twitch::{
    follower_outcome, subscription_outcome, FollowerData, FollowerInfo, HttpReply, SubData,
    SubInfo,
};
use crate::text::{contains, contains_text, law_contained_text, occurs_at};
use crate::time::{law_elapsed_time, Timestamp};

verus! {

/// 30 min floor.
pub const MIN_REFRESH_SECS: i64 = 1800;

/// 24 hour cap.
pub const MAX_REFRESH_SECS: i64 = 86400;

/// The interval is recomputed every 5 minutes.
pub const INTERVAL_CACHE_SECS: u64 = 300;

pub const INACTIVE_MULTIPLIER: i64 = 6;

/// A freshly linked user we don't yet see as following/subscribed is re-checked
/// this often, so a just-made follow/sub, or one Twitch's API was briefly slow
/// to surface, lands the role within a minute or two instead of waiting for the
/// normal (slow) inactive cadence.
pub const FAST_RETRY_SECS: i64 = 90;

/// How long after linking the fast re-check window stays open. After this, a
/// user who still doesn't qualify falls back to the normal cadence so someone
/// who links but never follows/subs stops costing API budget.
pub const FAST_RETRY_WINDOW_SECS: i64 = 600;

/// The wait when no entry is due.
pub const IDLE_SECS: u64 = 30;

/// The wait when the next entry could not be read.
pub const TROUBLE_SECS: u64 = 5;

/// How long an entry is put off for whose channel there is no token: an hour.
pub const POSTPONE_SECS: i64 = 3600;

/// How long an entry is put off after its first failed check.
pub const BACKOFF_START_SECS: i64 = 60;

/// The longest that failed checks put an entry off: an hour.
pub const BACKOFF_CAP_SECS: i64 = 3600;

/// The API calls that each entry costs: the follow and the subscription check.
pub const CALLS_PER_ENTRY: i64 = 2;

/// The API calls that may be made in an hour: 240 a minute.
pub const CALLS_PER_HOUR: i64 = 14400;

// ---------------------------------------------------------------------
// How often
// ---------------------------------------------------------------------

/// The number brought between the two bounds.
pub open spec fn clamped(n: int, low: int, high: int) -> int {
    if n < low {
        low
    } else if n > high {
        high
    } else {
        n
    }
}

/// The seconds in which all entries can be checked once within the budget of
/// API calls, between the floor and the cap.
pub open spec fn base_interval(cache_count: int) -> int {
    if cache_count <= 0 {
        MIN_REFRESH_SECS as int
    } else {
        clamped(
            cache_count * CALLS_PER_ENTRY * 3600 / CALLS_PER_HOUR as int,
            MIN_REFRESH_SECS as int,
            MAX_REFRESH_SECS as int,
        )
    }
}

/// The refresh interval, which is kept for a while once it was computed.
pub struct CachedInterval {
    pub value: i64,
}

impl CachedInterval {
    /// The interval lies between the floor and the cap.
    pub open spec fn wf(self) -> bool {
        MIN_REFRESH_SECS <= self.value <= MAX_REFRESH_SECS
    }

    pub fn new() -> (r: CachedInterval)
        ensures
            r.wf(),
            r.value == MIN_REFRESH_SECS,
    {
        CachedInterval { value: MIN_REFRESH_SECS }
    }

    /// Whether the interval is to be computed anew, so many whole seconds after
    /// it was computed.
    pub fn is_stale(elapsed_secs: u64) -> (r: bool)
        ensures
            r == (elapsed_secs >= INTERVAL_CACHE_SECS),
    {
        elapsed_secs >= INTERVAL_CACHE_SECS
    }

    /// Compute the interval for that many cache entries.
    pub fn recompute(&mut self, cache_count: i64)
        ensures
            final(self).wf(),
            final(self).value == base_interval(cache_count as int),
    {
        let wanted: i128 = if cache_count <= 0 {
            MIN_REFRESH_SECS as i128
        } else {
            (cache_count as i128 * 2 * 3600) / 14400
        };
        self.value = if wanted < MIN_REFRESH_SECS as i128 {
            MIN_REFRESH_SECS
        } else if wanted > MAX_REFRESH_SECS as i128 {
            MAX_REFRESH_SECS
        } else {
            wanted as i64
        };
    }
}

/// The seconds for which a failed check puts an entry off that had failed so
/// many times before: a minute, doubled with every failure, up to an hour.
pub open spec fn backoff_delay(failures: nat) -> int {
    if BACKOFF_START_SECS * pow2(failures) < BACKOFF_CAP_SECS {
        BACKOFF_START_SECS * pow2(failures)
    } else {
        BACKOFF_CAP_SECS as int
    }
}

/// The seconds for which a failed check puts an entry off that had failed so
/// many times before.
pub fn backoff_secs(failures: u32) -> (r: i64)
    ensures
        r == backoff_delay(failures as nat),
        r == if failures < 6 {
            60 * pow2(failures as nat)
        } else {
            3600
        },
{
    proof {
        lemma2_to64();
        if failures > 6 {
            lemma_pow2_strictly_increases(6, failures as nat);
        }
    }
    match failures {
        0 => 60,
        1 => 120,
        2 => 240,
        3 => 480,
        4 => 960,
        5 => 1920,
        _ => BACKOFF_CAP_SECS,
    }
}

/// The more checks have failed, the longer an entry is put off, but never for
/// more than an hour.
pub proof fn law_backoff_grows_to_an_hour(fewer: nat, more: nat)
    requires
        fewer <= more,
    ensures
        BACKOFF_START_SECS <= backoff_delay(fewer) <= backoff_delay(more) <= BACKOFF_CAP_SECS,
{
    lemma_pow2_pos(fewer);
    if fewer < more {
        lemma_pow2_strictly_increases(fewer, more);
    }
}

/// A cache entry whose turn has come.
#[derive(Debug, Clone, Copy)]
pub struct DueEntry {
    /// The user holds a role through this plugin.
    pub is_active: bool,
    /// When the user linked their account.
    pub linked_at: Timestamp,
    /// How many checks of the entry have failed in a row.
    pub failures: u32,
}

/// The seconds until the entry is due again. A freshly linked user who neither
/// follows nor subscribes stays on the fast cadence for a while.
pub open spec fn interval_for(
    entry: DueEntry,
    facts: CacheData,
    base: int,
    now: Timestamp,
) -> int {
    if !facts.is_following && !facts.is_subscribed && now.seconds_since_spec(entry.linked_at)
        < FAST_RETRY_WINDOW_SECS {
        FAST_RETRY_SECS as int
    } else if entry.is_active {
        base
    } else {
        base * INACTIVE_MULTIPLIER
    }
}

impl DueEntry {
    /// When the entry is due again, by the clock.
    pub fn next_fetch(&self, facts: &CacheData, base: &CachedInterval) -> (r: Timestamp)
        requires
            base.wf(),
        ensures
            exists|now: Timestamp|
                now.in_calendar() && now.is_plain() && r.secs == now.secs + #[trigger] interval_for(
                    *self,
                    *facts,
                    base.value as int,
                    now,
                ) && r.nanos == now.nanos,
    {
        let instant = now();
        self.next_fetch_at(facts, base, instant)
    }

    /// When the entry is due again, if it was checked at that instant.
    pub fn next_fetch_at(
        &self,
        facts: &CacheData,
        base: &CachedInterval,
        instant: Timestamp,
    ) -> (r: Timestamp)
        requires
            base.wf(),
            instant.in_calendar(),
        ensures
            r.secs == instant.secs + interval_for(*self, *facts, base.value as int, instant),
            r.nanos == instant.nanos,
    {
        let fresh = instant.seconds_since(self.linked_at) < FAST_RETRY_WINDOW_SECS as i128;
        let interval: i64 = if !facts.is_following && !facts.is_subscribed && fresh {
            FAST_RETRY_SECS
        } else if self.is_active {
            base.value
        } else {
            base.value * INACTIVE_MULTIPLIER
        };
        instant.plus_seconds(interval)
    }
}

/// Every entry is checked again after at least a minute and a half and at most
/// six days.
pub proof fn law_interval_is_bounded(
    entry: DueEntry,
    facts: CacheData,
    base: CachedInterval,
    now: Timestamp,
)
    requires
        base.wf(),
    ensures
        FAST_RETRY_SECS <= interval_for(entry, facts, base.value as int, now) <= MAX_REFRESH_SECS
            * INACTIVE_MULTIPLIER,
{
}

/// More entries never shorten the interval.
pub proof fn law_interval_grows_with_entries(fewer: int, more: int)
    requires
        fewer <= more,
    ensures
        base_interval(fewer) <= base_interval(more),
{
}

// ---------------------------------------------------------------------
// One cycle
// ---------------------------------------------------------------------

/// The result is an error that says the token is not valid any more.
pub open spec fn unauthorized<T>(result: Result<T, AppError>) -> bool {
    result matches Err(AppError::TwitchApi(msg)) && (contains_text(msg@, "401"@) || contains_text(
        msg@,
        "expired"@,
    ) || contains_text(msg@, "Unauthorized"@))
}

/// Check if a Twitch API result is a 401 Unauthorized error.
pub fn is_twitch_unauthorized<T>(result: &Result<T, AppError>) -> (r: bool)
    ensures
        r == unauthorized(*result),
{
    match result {
        Err(AppError::TwitchApi(msg)) => {
            contains(msg.as_str(), "401") || contains(msg.as_str(), "expired") || contains(
                msg.as_str(),
                "Unauthorized",
            )
        },
        _ => false,
    }
}

/// The broadcaster's tokens.
#[derive(Debug)]
pub struct Tokens {
    pub access: String,
    pub refresh: String,
}

/// Which check the token was refused in.
pub enum CheckStage {
    Follower,
    /// In the subscription check, with what the follower check gave.
    Subscription { follower: Result<Option<FollowerInfo>, AppError> },
}

/// The course of one cycle. Each state names the work that is to be done in it.
pub enum RefreshCycle {
    /// Wait for the rate limiter, then pick the entry that is due first.
    PickEntry,
    Sleep { seconds: u64 },
    /// Read the tokens of the entry's broadcaster.
    FindTokens { entry: DueEntry },
    /// Without a token nothing can be checked: put the entry off by so many
    /// seconds.
    Postpone { seconds: i64 },
    CheckFollower { entry: DueEntry, tokens: Tokens, refreshed: bool },
    /// Wait for the rate limiter where `permit` says so, then check.
    CheckSubscription {
        entry: DueEntry,
        tokens: Tokens,
        refreshed: bool,
        permit: bool,
        follower: Result<Option<FollowerInfo>, AppError>,
    },
    /// Ask Twitch for new tokens.
    RefreshToken { entry: DueEntry, tokens: Tokens, stage: CheckStage, failure: AppError },
    /// Store the new tokens.
    SaveTokens { entry: DueEntry, tokens: Tokens, stage: CheckStage },
    /// The tokens are of no use any more: remove them.
    ClearTokens { entry: DueEntry, tokens: Tokens, stage: CheckStage, failure: AppError },
    /// Write the facts and the time of the next check into the cache.
    StoreFacts { entry: DueEntry, facts: CacheData },
    /// Leave the facts as they are, count one failed check more, which makes
    /// `failures`, and put the entry off by so many seconds.
    Backoff { failures: u32, seconds: i64, failure: AppError },
    /// Look up the Discord user behind the entry.
    FindUser,
    /// Have the user's roles synced.
    Notify { event: UserSyncEvent },
    Finished,
}

/// What came of the work of a [`RefreshCycle`].
pub enum RefreshReply {
    /// The entry that is due first, if one is; an error of the database.
    Entry(Result<Option<DueEntry>, AppError>),
    Tokens(Result<Option<Tokens>, AppError>),
    Follower(Result<Option<FollowerInfo>, AppError>),
    Subscription(Result<Option<SubInfo>, AppError>),
    Refreshed(Result<Tokens, AppError>),
    /// Whether the cache took the facts.
    Stored(bool),
    User(Option<String>),
    Done,
}

/// The facts that the two checks give.
pub open spec fn checked_facts(follower: Option<FollowerInfo>, sub: Option<SubInfo>) -> CacheData {
    CacheData {
        is_following: follower is Some,
        followed_at: match follower {
            Some(f) => Some(f.followed_at),
            None => None,
        },
        is_subscribed: sub is Some,
        sub_tier: match sub {
            Some(s) => s.tier,
            None => 0,
        },
    }
}

/// The facts that the two checks give.
pub fn facts_from(follower: Option<FollowerInfo>, sub: Option<SubInfo>) -> (r: CacheData)
    ensures
        r == checked_facts(follower, sub),
{
    let followed_at = match follower {
        Some(f) => Some(f.followed_at),
        None => None,
    };
    let sub_tier: i32 = match sub {
        Some(s) => s.tier,
        None => 0,
    };
    CacheData {
        is_following: follower.is_some(),
        followed_at,
        is_subscribed: sub.is_some(),
        sub_tier,
    }
}

/// The number of failures after one more; it stays at the largest number.
pub open spec fn one_more(failures: u32) -> u32 {
    if failures < u32::MAX {
        (failures + 1) as u32
    } else {
        failures
    }
}

/// What follows a failed check of the entry.
pub open spec fn backed_off(entry: DueEntry, failure: AppError) -> RefreshCycle {
    RefreshCycle::Backoff {
        failures: one_more(entry.failures),
        seconds: backoff_delay(entry.failures as nat) as i64,
        failure,
    }
}

/// What both checks come to: facts only where both succeeded.
pub open spec fn concluded(
    entry: DueEntry,
    follower: Result<Option<FollowerInfo>, AppError>,
    sub: Result<Option<SubInfo>, AppError>,
) -> RefreshCycle {
    match (follower, sub) {
        (Ok(f), Ok(s)) => RefreshCycle::StoreFacts { entry, facts: checked_facts(f, s) },
        (Err(failure), _) => backed_off(entry, failure),
        (_, Err(failure)) => backed_off(entry, failure),
    }
}

fn back_off(entry: DueEntry, failure: AppError) -> (r: RefreshCycle)
    ensures
        r == backed_off(entry, failure),
{
    let failures: u32 = if entry.failures < u32::MAX {
        entry.failures + 1
    } else {
        entry.failures
    };
    RefreshCycle::Backoff { failures, seconds: backoff_secs(entry.failures), failure }
}

fn conclude(
    entry: DueEntry,
    follower: Result<Option<FollowerInfo>, AppError>,
    sub: Result<Option<SubInfo>, AppError>,
) -> (r: RefreshCycle)
    ensures
        r == concluded(entry, follower, sub),
{
    match (follower, sub) {
        (Ok(f), Ok(s)) => RefreshCycle::StoreFacts { entry, facts: facts_from(f, s) },
        (Err(failure), _) => back_off(entry, failure),
        (_, Err(failure)) => back_off(entry, failure),
    }
}

impl RefreshCycle {
    /// The state that follows. What a state does not wait for ends the cycle.
    pub open spec fn followed_by(self, reply: RefreshReply) -> RefreshCycle {
        match (self, reply) {
            (RefreshCycle::PickEntry, RefreshReply::Entry(Ok(Some(entry)))) =>
                RefreshCycle::FindTokens { entry },
            (RefreshCycle::PickEntry, RefreshReply::Entry(Ok(None))) => RefreshCycle::Sleep {
                seconds: IDLE_SECS,
            },
            (RefreshCycle::PickEntry, RefreshReply::Entry(Err(_))) => RefreshCycle::Sleep {
                seconds: TROUBLE_SECS,
            },
            (RefreshCycle::FindTokens { entry }, RefreshReply::Tokens(Ok(Some(tokens)))) =>
                RefreshCycle::CheckFollower { entry, tokens, refreshed: false },
            (RefreshCycle::FindTokens { .. }, RefreshReply::Tokens(Ok(None))) =>
                RefreshCycle::Postpone { seconds: POSTPONE_SECS },
            (
                RefreshCycle::CheckFollower { entry, tokens, refreshed },
                RefreshReply::Follower(follower),
            ) => if unauthorized(follower) && !refreshed {
                RefreshCycle::RefreshToken {
                    entry,
                    tokens,
                    stage: CheckStage::Follower,
                    failure: follower->Err_0,
                }
            } else {
                RefreshCycle::CheckSubscription { entry, tokens, refreshed, permit: true, follower }
            },
            (
                RefreshCycle::CheckSubscription { entry, tokens, refreshed, follower, .. },
                RefreshReply::Subscription(sub),
            ) => if unauthorized(sub) && !refreshed {
                RefreshCycle::RefreshToken {
                    entry,
                    tokens,
                    stage: CheckStage::Subscription { follower },
                    failure: sub->Err_0,
                }
            } else {
                concluded(entry, follower, sub)
            },
            (
                RefreshCycle::RefreshToken { entry, stage, .. },
                RefreshReply::Refreshed(Ok(tokens)),
            ) => RefreshCycle::SaveTokens { entry, tokens, stage },
            (
                RefreshCycle::RefreshToken { entry, tokens, stage, failure },
                RefreshReply::Refreshed(Err(_)),
            ) => RefreshCycle::ClearTokens { entry, tokens, stage, failure },
            (RefreshCycle::SaveTokens { entry, tokens, stage }, RefreshReply::Done) => match stage {
                CheckStage::Follower => RefreshCycle::CheckFollower {
                    entry,
                    tokens,
                    refreshed: true,
                },
                CheckStage::Subscription { follower } => RefreshCycle::CheckSubscription {
                    entry,
                    tokens,
                    refreshed: true,
                    permit: false,
                    follower,
                },
            },
            (RefreshCycle::ClearTokens { entry, tokens, stage, failure }, RefreshReply::Done) =>
                match stage {
                    CheckStage::Follower => RefreshCycle::CheckSubscription {
                        entry,
                        tokens,
                        refreshed: true,
                        permit: true,
                        follower: Err(failure),
                    },
                    CheckStage::Subscription { follower } => concluded(
                        entry,
                        follower,
                        Err(failure),
                    ),
                },
            (RefreshCycle::StoreFacts { .. }, RefreshReply::Stored(true)) => RefreshCycle::FindUser,
            (RefreshCycle::FindUser, RefreshReply::User(Some(discord_id))) => RefreshCycle::Notify {
                event: UserSyncEvent::UserUpdated { discord_id },
            },
            _ => RefreshCycle::Finished,
        }
    }

    /// The state that follows.
    pub fn next(self, reply: RefreshReply) -> (r: RefreshCycle)
        ensures
            r == self.followed_by(reply),
    {
        match (self, reply) {
            (RefreshCycle::PickEntry, RefreshReply::Entry(Ok(Some(entry)))) => {
                RefreshCycle::FindTokens { entry }
            },
            (RefreshCycle::PickEntry, RefreshReply::Entry(Ok(None))) => {
                RefreshCycle::Sleep { seconds: IDLE_SECS }
            },
            (RefreshCycle::PickEntry, RefreshReply::Entry(Err(_))) => {
                RefreshCycle::Sleep { seconds: TROUBLE_SECS }
            },
            (RefreshCycle::FindTokens { entry }, RefreshReply::Tokens(Ok(Some(tokens)))) => {
                RefreshCycle::CheckFollower { entry, tokens, refreshed: false }
            },
            (RefreshCycle::FindTokens { .. }, RefreshReply::Tokens(Ok(None))) => {
                RefreshCycle::Postpone { seconds: POSTPONE_SECS }
            },
            (
                RefreshCycle::CheckFollower { entry, tokens, refreshed },
                RefreshReply::Follower(follower),
            ) => {
                let renew = !refreshed && is_twitch_unauthorized(&follower);
                match follower {
                    Err(failure) if renew => RefreshCycle::RefreshToken {
                        entry,
                        tokens,
                        stage: CheckStage::Follower,
                        failure,
                    },
                    follower => RefreshCycle::CheckSubscription {
                        entry,
                        tokens,
                        refreshed,
                        permit: true,
                        follower,
                    },
                }
            },
            (
                RefreshCycle::CheckSubscription { entry, tokens, refreshed, follower, .. },
                RefreshReply::Subscription(sub),
            ) => {
                let renew = !refreshed && is_twitch_unauthorized(&sub);
                match sub {
                    Err(failure) if renew => RefreshCycle::RefreshToken {
                        entry,
                        tokens,
                        stage: CheckStage::Subscription { follower },
                        failure,
                    },
                    sub => conclude(entry, follower, sub),
                }
            },
            (
                RefreshCycle::RefreshToken { entry, stage, .. },
                RefreshReply::Refreshed(Ok(tokens)),
            ) => RefreshCycle::SaveTokens { entry, tokens, stage },
            (
                RefreshCycle::RefreshToken { entry, tokens, stage, failure },
                RefreshReply::Refreshed(Err(_)),
            ) => RefreshCycle::ClearTokens { entry, tokens, stage, failure },
            (RefreshCycle::SaveTokens { entry, tokens, stage }, RefreshReply::Done) => match stage {
                CheckStage::Follower => RefreshCycle::CheckFollower {
                    entry,
                    tokens,
                    refreshed: true,
                },
                CheckStage::Subscription { follower } => RefreshCycle::CheckSubscription {
                    entry,
                    tokens,
                    refreshed: true,
                    permit: false,
                    follower,
                },
            },
            (RefreshCycle::ClearTokens { entry, tokens, stage, failure }, RefreshReply::Done) => {
                match stage {
                    CheckStage::Follower => RefreshCycle::CheckSubscription {
                        entry,
                        tokens,
                        refreshed: true,
                        permit: true,
                        follower: Err(failure),
                    },
                    CheckStage::Subscription { follower } => conclude(
                        entry,
                        follower,
                        Err(failure),
                    ),
                }
            },
            (RefreshCycle::StoreFacts { .. }, RefreshReply::Stored(true)) => RefreshCycle::FindUser,
            (RefreshCycle::FindUser, RefreshReply::User(Some(discord_id))) => {
                RefreshCycle::Notify { event: UserSyncEvent::UserUpdated { discord_id } }
            },
            _ => RefreshCycle::Finished,
        }
    }

    /// The token refresh of this cycle lies behind.
    pub open spec fn refresh_spent(self) -> bool {
        match self {
            RefreshCycle::PickEntry | RefreshCycle::FindTokens { .. } => false,
            RefreshCycle::CheckFollower { refreshed, .. } => refreshed,
            RefreshCycle::CheckSubscription { refreshed, .. } => refreshed,
            _ => true,
        }
    }

    /// An upper bound for the states that may still follow.
    pub open spec fn states_left(self) -> nat {
        match self {
            RefreshCycle::PickEntry => 14,
            RefreshCycle::FindTokens { .. } => 13,
            RefreshCycle::CheckFollower { refreshed, .. } => if refreshed {
                9
            } else {
                12
            },
            RefreshCycle::RefreshToken { stage, .. } => if stage is Follower {
                11
            } else {
                7
            },
            RefreshCycle::SaveTokens { stage, .. } => if stage is Follower {
                10
            } else {
                6
            },
            RefreshCycle::ClearTokens { stage, .. } => if stage is Follower {
                10
            } else {
                6
            },
            RefreshCycle::CheckSubscription { refreshed, .. } => if refreshed {
                5
            } else {
                8
            },
            RefreshCycle::StoreFacts { .. } => 4,
            RefreshCycle::FindUser => 3,
            RefreshCycle::Sleep { .. }
            | RefreshCycle::Postpone { .. }
            | RefreshCycle::Backoff { .. }
            | RefreshCycle::Notify { .. } => 1,
            RefreshCycle::Finished => 0,
        }
    }
}

/// How often a run of the cycle asks Twitch for new tokens.
pub open spec fn token_refreshes(state: RefreshCycle, replies: Seq<RefreshReply>) -> nat
    decreases replies.len(),
{
    if replies.len() == 0 {
        0
    } else {
        let rest = token_refreshes(state.followed_by(replies[0]), replies.drop_first());
        if state is RefreshToken {
            rest + 1
        } else {
            rest
        }
    }
}

proof fn lemma_spent_stays_spent(state: RefreshCycle, replies: Seq<RefreshReply>)
    requires
        state.refresh_spent(),
    ensures
        token_refreshes(state, replies) == if state is RefreshToken && replies.len() > 0 {
            1nat
        } else {
            0nat
        },
    decreases replies.len(),
{
    if replies.len() > 0 {
        lemma_spent_stays_spent(state.followed_by(replies[0]), replies.drop_first());
    }
}

/// Whatever Twitch answers, a cycle asks for new tokens at most once.
pub proof fn law_one_token_refresh_per_cycle(state: RefreshCycle, replies: Seq<RefreshReply>)
    ensures
        token_refreshes(state, replies) <= 1,
    decreases replies.len(),
{
    if state.refresh_spent() {
        lemma_spent_stays_spent(state, replies);
    } else if replies.len() > 0 {
        law_one_token_refresh_per_cycle(state.followed_by(replies[0]), replies.drop_first());
    }
}

/// Facts are only written when both checks succeeded, and they are what the
/// two checks gave.
pub proof fn law_facts_need_both_checks(state: RefreshCycle, reply: RefreshReply)
    requires
        state.followed_by(reply) is StoreFacts,
    ensures
        state matches RefreshCycle::CheckSubscription { follower: Ok(f), .. }
            && reply matches RefreshReply::Subscription(Ok(s))
            && state.followed_by(reply)->StoreFacts_facts == checked_facts(f, s),
{
}

/// A cycle in which a check has failed for good leaves the facts alone and has
/// nobody synced: it only notes one failure more and puts the entry off, the
/// longer the more checks had failed before.
pub proof fn law_failed_checks_back_off(
    entry: DueEntry,
    follower: Result<Option<FollowerInfo>, AppError>,
    sub: Result<Option<SubInfo>, AppError>,
    reply: RefreshReply,
)
    requires
        follower is Err || sub is Err,
    ensures
        concluded(entry, follower, sub) matches RefreshCycle::Backoff { failures, seconds, failure }
            && failures == one_more(entry.failures) && seconds == backoff_delay(
            entry.failures as nat,
        ) && (if follower is Err {
            failure == follower->Err_0
        } else {
            failure == sub->Err_0
        }),
        concluded(entry, follower, sub).followed_by(reply) is Finished,
{
    law_backoff_grows_to_an_hour(entry.failures as nat, entry.failures as nat);
}

/// Every cycle ends: each step brings it closer.
pub proof fn law_cycle_ends(state: RefreshCycle, reply: RefreshReply)
    requires
        !(state is Finished),
    ensures
        state.followed_by(reply).states_left() < state.states_left(),
{
}

/// A check that Twitch refuses with status 401 leads to new tokens.
pub proof fn law_refused_token_is_recognised(
    line: String,
    body: String,
    follower: Result<Option<FollowerInfo>, AppError>,
    sub: Result<Option<SubInfo>, AppError>,
)
    requires
        error_view(follower) == follower_outcome(
            HttpReply::<Vec<FollowerData>>::Refused { status: 401, line, body },
        ),
        error_view(sub) == subscription_outcome(
            HttpReply::<Vec<SubData>>::Refused { status: 401, line, body },
        ),
    ensures
        unauthorized(follower),
        unauthorized(sub),
{
    reveal_strlit("401");
    reveal_strlit("401 Unauthorized checking follower: ");
    reveal_strlit("401 Unauthorized checking subscription: ");
    let a = "401 Unauthorized checking follower: "@ + body@;
    let b = "401 Unauthorized checking subscription: "@ + body@;
    assert(a.subrange(0, 3) =~= "401"@);
    assert(b.subrange(0, 3) =~= "401"@);
    assert(occurs_at(a, "401"@, 0));
    assert(occurs_at(b, "401"@, 0));
}

/// What is known of the subscription depends on the subscription check alone,
/// and what is known of the follow on the follower check alone: a viewer counts
/// as a subscriber exactly when a subscription was found, at its tier, whether or
/// not they follow, and as a follower exactly when a follow was found, since its
/// date, whether or not they subscribe.
pub proof fn law_checks_are_independent(
    entry: DueEntry,
    tokens: Tokens,
    refreshed: bool,
    permit: bool,
    follower: Option<FollowerInfo>,
    sub: Option<SubInfo>,
)
    ensures
        (RefreshCycle::CheckSubscription {
            entry,
            tokens,
            refreshed,
            permit,
            follower: Ok(follower),
        }).followed_by(
            RefreshReply::Subscription(Ok(sub)),
        ) matches RefreshCycle::StoreFacts { entry: of, facts } && of == entry && (match sub {
            Some(s) => facts.is_subscribed && facts.sub_tier == s.tier,
            None => !facts.is_subscribed && facts.sub_tier == 0,
        }) && (match follower {
            Some(f) => facts.is_following && facts.followed_at == Some(f.followed_at),
            None => !facts.is_following && facts.followed_at is None,
        }),
        match sub {
            Some(s) => checked_facts(follower, sub).is_subscribed && checked_facts(
                follower,
                sub,
            ).sub_tier == s.tier,
            None => !checked_facts(follower, sub).is_subscribed && checked_facts(
                follower,
                sub,
            ).sub_tier == 0,
        },
        match follower {
            Some(f) => checked_facts(follower, sub).is_following && checked_facts(
                follower,
                sub,
            ).followed_at == Some(f.followed_at),
            None => !checked_facts(follower, sub).is_following && checked_facts(
                follower,
                sub,
            ).followed_at is None,
        },
{
}

/// After a check, rules see what Twitch said: who was found to subscribe meets
/// the rule for subscribers and the rule for their tier and no other tier, who
/// was found to follow meets the rule for followers.
pub proof fn law_rules_see_what_was_checked(
    follower: Option<FollowerInfo>,
    sub: Option<SubInfo>,
    tier: i64,
    now: Timestamp,
)
    ensures
        ({
            let facts = checked_facts(follower, sub);
            &&& rule_matches(flag_rule(ConditionTarget::IsFollower, true), facts, now) == (
            follower is Some)
            &&& rule_matches(flag_rule(ConditionTarget::IsSubscriber, true), facts, now) == (
            sub is Some)
            &&& sub is Some && 0 <= sub->0.tier ==> rule_matches(
                number_rule(ConditionTarget::SubTier, ConditionOperator::Eq, tier),
                facts,
                now,
            ) == (1000 * tier <= sub->0.tier < 1000 * (tier + 1))
            &&& sub is None ==> rule_matches(
                number_rule(ConditionTarget::SubTier, ConditionOperator::Eq, tier),
                facts,
                now,
            ) == (tier == 0)
        }),
{
    let facts = checked_facts(follower, sub);
    law_flags_are_taken_at_their_word(true, facts, now);
    if facts.sub_tier >= 0 {
        law_tiers_are_whole_thousands(tier, tier, facts, facts.sub_tier as int / 1000, now);
    }
}

/// The interval in numbers: half an hour for up to 3600 entries, a day from
/// 172800 on, and in between the time in which two calls for each entry keep
/// within 14400 calls an hour, in whole seconds.
pub proof fn law_interval_keeps_the_budget(count: int)
    ensures
        count <= 3600 ==> base_interval(count) == 1800,
        count >= 172_800 ==> base_interval(count) == 86_400,
        3600 <= count <= 172_800 ==> base_interval(count) * 14_400 <= count * 2 * 3600 < (
        base_interval(count) + 1) * 14_400,
{
}

/// The first failed check puts an entry off by a minute, and each further one by
/// twice as long as the one before, up to an hour.
pub proof fn law_backoff_doubles(failures: nat)
    ensures
        backoff_delay(0) == 60,
        backoff_delay(failures + 1) == if 2 * backoff_delay(failures) < 3600 {
            2 * backoff_delay(failures)
        } else {
            3600
        },
{
    lemma2_to64();
    vstd::arithmetic::power2::lemma_pow2_unfold(failures + 1);
}

/// When an entry is due again. A user who neither follows nor subscribes and
/// linked less than ten minutes ago is checked again after 90 seconds. Everyone
/// else waits for the interval where they hold a role, and for six times as long
/// where they do not.
pub proof fn law_when_entries_are_due(
    entry: DueEntry,
    facts: CacheData,
    base: int,
    now: Timestamp,
)
    requires
        now.is_plain(),
        entry.linked_at.is_plain(),
    ensures
        ({
            let waited = (now.secs - entry.linked_at.secs) * 1_000_000_000 + (now.nanos
                - entry.linked_at.nanos);
            let due = interval_for(entry, facts, base, now);
            &&& !facts.is_following && !facts.is_subscribed && waited < 600_000_000_000 ==> due == 90
            &&& (facts.is_following || facts.is_subscribed || waited >= 600_000_000_000)
                && entry.is_active ==> due == base
            &&& (facts.is_following || facts.is_subscribed || waited >= 600_000_000_000)
                && !entry.is_active ==> due == 6 * base
        }),
{
    law_elapsed_time(now, entry.linked_at);
}

/// In a cycle in which everything goes well, the entry that was picked is checked
/// with the tokens that were found, what both checks gave is stored, and the user
/// is synced.
pub proof fn law_smooth_cycle(
    entry: DueEntry,
    tokens: Tokens,
    follower: Option<FollowerInfo>,
    sub: Option<SubInfo>,
    discord_id: String,
)
    ensures
        ({
            let s1 = RefreshCycle::PickEntry.followed_by(RefreshReply::Entry(Ok(Some(entry))));
            let s2 = s1.followed_by(RefreshReply::Tokens(Ok(Some(tokens))));
            let s3 = s2.followed_by(RefreshReply::Follower(Ok(follower)));
            let s4 = s3.followed_by(RefreshReply::Subscription(Ok(sub)));
            let s5 = s4.followed_by(RefreshReply::Stored(true));
            let s6 = s5.followed_by(RefreshReply::User(Some(discord_id)));
            &&& s1 == RefreshCycle::FindTokens { entry }
            &&& s2 matches RefreshCycle::CheckFollower { entry: e, tokens: t, .. } && e == entry && t
                == tokens
            &&& s3 matches RefreshCycle::CheckSubscription { entry: e, tokens: t, permit, .. } && e
                == entry && t == tokens && permit
            &&& s4 matches RefreshCycle::StoreFacts { entry: e, facts } && e == entry
                && facts.is_following == (follower is Some) && facts.is_subscribed == (sub is Some)
            &&& s5 is FindUser
            &&& s6 matches RefreshCycle::Notify { event: UserSyncEvent::UserUpdated { discord_id: d } }
                && d == discord_id
            &&& s6.followed_by(RefreshReply::Done) is Finished
        }),
{
}

/// A check that Twitch refuses for the token is made again with the tokens that
/// the refresh gave, after they were saved; a follower check that had succeeded
/// is not made again.
pub proof fn law_refused_checks_are_repeated_with_new_tokens(
    entry: DueEntry,
    old_tokens: Tokens,
    new_tokens: Tokens,
    permit: bool,
    follower: Result<Option<FollowerInfo>, AppError>,
    sub: Result<Option<SubInfo>, AppError>,
)
    ensures
        unauthorized(follower) ==> ({
            let asked = (RefreshCycle::CheckFollower {
                entry,
                tokens: old_tokens,
                refreshed: false,
            }).followed_by(RefreshReply::Follower(follower));
            let saved = asked.followed_by(RefreshReply::Refreshed(Ok(new_tokens)));
            &&& asked matches RefreshCycle::RefreshToken { tokens, .. } && tokens == old_tokens
            &&& saved matches RefreshCycle::SaveTokens { tokens, .. } && tokens == new_tokens
            &&& saved.followed_by(RefreshReply::Done) == (RefreshCycle::CheckFollower {
                entry,
                tokens: new_tokens,
                refreshed: true,
            })
        }),
        unauthorized(sub) ==> ({
            let asked = (RefreshCycle::CheckSubscription {
                entry,
                tokens: old_tokens,
                refreshed: false,
                permit,
                follower,
            }).followed_by(RefreshReply::Subscription(sub));
            let saved = asked.followed_by(RefreshReply::Refreshed(Ok(new_tokens)));
            &&& asked matches RefreshCycle::RefreshToken { tokens, .. } && tokens == old_tokens
            &&& saved matches RefreshCycle::SaveTokens { tokens, .. } && tokens == new_tokens
            &&& saved.followed_by(
                RefreshReply::Done,
            ) matches RefreshCycle::CheckSubscription {
                entry: e,
                tokens,
                refreshed,
                follower: f,
                ..
            } && e == entry && tokens == new_tokens && refreshed && f == follower
        }),
{
}

/// A refresh that fails clears the tokens, and the cycle then fails with what
/// Twitch had refused the check with: no facts are stored.
pub proof fn law_failed_refresh_clears_the_tokens(
    entry: DueEntry,
    tokens: Tokens,
    follower: Result<Option<FollowerInfo>, AppError>,
    refusal: AppError,
    failure: AppError,
    sub: Result<Option<SubInfo>, AppError>,
)
    ensures
        ({
            let cleared = (RefreshCycle::RefreshToken {
                entry,
                tokens,
                stage: CheckStage::Follower,
                failure: refusal,
            }).followed_by(RefreshReply::Refreshed(Err(failure)));
            let on = cleared.followed_by(RefreshReply::Done);
            &&& cleared is ClearTokens
            &&& on is CheckSubscription
            &&& on.followed_by(
                RefreshReply::Subscription(sub),
            ) matches RefreshCycle::Backoff { failure: f, .. } && f == refusal
        }),
        ({
            let cleared = (RefreshCycle::RefreshToken {
                entry,
                tokens,
                stage: CheckStage::Subscription { follower },
                failure: refusal,
            }).followed_by(RefreshReply::Refreshed(Err(failure)));
            &&& cleared is ClearTokens
            &&& cleared.followed_by(RefreshReply::Done) is Backoff
        }),
{
}

/// The waits in numbers, and that nothing is checked without tokens: an hour for
/// an entry whose channel has none, half a minute where nothing is due, five
/// seconds where the next entry could not be read.
pub proof fn law_waits(entry: DueEntry, e: AppError)
    ensures
        (RefreshCycle::FindTokens { entry }).followed_by(RefreshReply::Tokens(Ok(None))) == (
        RefreshCycle::Postpone { seconds: 3600 }),
        RefreshCycle::PickEntry.followed_by(RefreshReply::Entry(Ok(None))) == (RefreshCycle::Sleep {
            seconds: 30,
        }),
        RefreshCycle::PickEntry.followed_by(RefreshReply::Entry(Err(e))) == (RefreshCycle::Sleep {
            seconds: 5,
        }),
        (RefreshCycle::FindTokens { entry }).followed_by(RefreshReply::Tokens(Err(e))) is Finished,
{
}

/// Only an error of Twitch says that a token is not valid any more, and only one
/// whose text holds "401", "expired" or "Unauthorized".
pub proof fn law_only_refused_tokens_are_renewed(
    result: Result<Option<FollowerInfo>, AppError>,
    text: String,
    before: Seq<char>,
    after: Seq<char>,
)
    ensures
        unauthorized(result) ==> result matches Err(AppError::TwitchApi(_)),
        text@ == before + "401"@ + after || text@ == before + "expired"@ + after || text@ == before
            + "Unauthorized"@ + after ==> unauthorized(
            Err::<Option<FollowerInfo>, AppError>(AppError::TwitchApi(text)),
        ),
        !contains_text(text@, "401"@) && !contains_text(text@, "expired"@) && !contains_text(
            text@,
            "Unauthorized"@,
        ) ==> !unauthorized(Err::<Option<FollowerInfo>, AppError>(AppError::TwitchApi(text))),
{
    law_contained_text(before, "401"@, after);
    law_contained_text(before, "expired"@, after);
    law_contained_text(before, "Unauthorized"@, after);
}

/// A failed check counts as one more, and the interval is kept for five minutes.
pub proof fn law_counts_and_times(failures: u32)
    ensures
        failures < u32::MAX ==> one_more(failures) == failures + 1,
        one_more(u32::MAX) == u32::MAX,
        INTERVAL_CACHE_SECS == 300,
{
}

/// Nobody is synced whose facts could not be stored or whose Discord user is not
/// known.
pub proof fn law_only_stored_facts_are_synced(entry: DueEntry, facts: CacheData)
    ensures
        (RefreshCycle::StoreFacts { entry, facts }).followed_by(RefreshReply::Stored(false))
            is Finished,
        RefreshCycle::FindUser.followed_by(RefreshReply::User(None)) is Finished,
{
}

} // verus!
