//! Condition evaluation in memory.
//!
//! Decides for a single (viewer, role link) pair. The bulk path for a whole
//! role link uses [`crate::services::rule_sql`] instead, which pushes the same
//! predicates down into Postgres; the two must agree.
use vstd::prelude::*;

use crate::json::JsonModel;
use crate::models::condition::{Condition, ConditionModel, ConditionOperator, ConditionTarget};
use crate::models::rule::{ConditionGroup, RuleModel, RuleTree};
use crate::outside::now;
use crate::time::{law_elapsed_time, quotient, Timestamp};

verus! {

/// A viewer's relationship to one connected channel, as cached. `sub_tier` is
/// Twitch's raw tier scale (1000 / 2000 / 3000; 0 when not subscribed).
#[derive(Debug, Clone, Copy)]
pub struct CacheData {
    pub is_following: bool,
    pub followed_at: Option<Timestamp>,
    pub is_subscribed: bool,
    pub sub_tier: i32,
}

/// The facts of a viewer of whom nothing is known.
pub open spec fn no_facts() -> CacheData {
    CacheData { is_following: false, followed_at: None, is_subscribed: false, sub_tier: 0 }
}

/// The tier on the friendly 1/2/3 scale (0 when not subscribed).
pub open spec fn tier_of(facts: CacheData) -> int {
    quotient(facts.sub_tier as int, 1000)
}

/// The whole days for which the viewer has followed at the instant `now`.
pub open spec fn follow_days(facts: CacheData, now: Timestamp) -> Option<int> {
    match facts.followed_at {
        Some(t) => Some(now.days_since_spec(t)),
        None => None,
    }
}

/// The condition holds of a boolean fact.
pub open spec fn bool_matches(c: ConditionModel, actual: bool) -> bool {
    c.operator is Eq && c.value.as_bool() == Some(actual)
}

/// The condition holds of an integer fact. An unknown fact meets no condition.
pub open spec fn int_matches(c: ConditionModel, actual: Option<int>) -> bool {
    match (actual, c.value.as_i64()) {
        (Some(a), Some(n)) => match c.operator {
            ConditionOperator::Eq => a == n,
            ConditionOperator::Neq => a != n,
            ConditionOperator::Gt => a > n,
            ConditionOperator::Gte => a >= n,
            ConditionOperator::Lt => a < n,
            ConditionOperator::Lte => a <= n,
            ConditionOperator::Between => match c.end_i64() {
                Some(end) => n <= a <= end,
                None => false,
            },
        },
        _ => false,
    }
}

/// The condition holds of a viewer who has followed for `days` whole days.
pub open spec fn condition_holds(c: ConditionModel, facts: CacheData, days: Option<int>) -> bool {
    match c.target {
        ConditionTarget::IsFollower => bool_matches(c, facts.is_following),
        ConditionTarget::IsSubscriber => bool_matches(c, facts.is_subscribed),
        ConditionTarget::FollowAgeDays => int_matches(c, days),
        ConditionTarget::SubTier => int_matches(c, Some(tier_of(facts))),
    }
}

/// A group is met when it has conditions and all of them hold.
pub open spec fn group_holds(
    group: Seq<ConditionModel>,
    facts: CacheData,
    days: Option<int>,
) -> bool {
    group.len() > 0 && forall|j: int|
        0 <= j < group.len() ==> condition_holds(#[trigger] group[j], facts, days)
}

/// A rule is met when it grants to anyone or one of its groups is met.
pub open spec fn rule_holds(tree: RuleModel, facts: CacheData, days: Option<int>) -> bool {
    tree.grant_on_any_relation || exists|i: int|
        0 <= i < tree.groups.len() && group_holds(#[trigger] tree.groups[i], facts, days)
}

/// The rule is met by the viewer at the instant `now`.
pub open spec fn rule_matches(tree: RuleModel, facts: CacheData, now: Timestamp) -> bool {
    rule_holds(tree, facts, follow_days(facts, now))
}

/// Evaluate the rule tree against a viewer's cached facts, by the clock.
///
/// - `grant_on_any_relation = true` is met by everyone.
/// - Otherwise a tree without groups is met by nobody.
/// - Otherwise any group may match (OR), and a group matches when it has
///   conditions and all of them do (AND).
pub fn evaluate(tree: &RuleTree, facts: &CacheData) -> (r: bool)
    ensures
        exists|now: Timestamp|
            now.in_calendar() && now.is_plain() && r == #[trigger] rule_matches(tree@, *facts, now),
        tree@.grant_on_any_relation ==> r,
        tree@.is_unconfigured() ==> !r,
        facts.followed_at is None || !tree@.reads_follow_age() ==> forall|now: Timestamp|
            r == #[trigger] rule_matches(tree@, *facts, now),
{
    let instant = now();
    let r = evaluate_at(tree, facts, instant);
    proof {
        if facts.followed_at is None || !tree@.reads_follow_age() {
            assert forall|other: Timestamp| r == #[trigger] rule_matches(tree@, *facts, other) by {
                if facts.followed_at is Some {
                    lemma_age_unread(
                        tree@,
                        *facts,
                        follow_days(*facts, instant),
                        follow_days(*facts, other),
                    );
                }
            }
        }
    }
    r
}

/// A rule without follow-age conditions does not depend on the follow age.
pub proof fn lemma_age_unread(tree: RuleModel, facts: CacheData, a: Option<int>, b: Option<int>)
    requires
        !tree.reads_follow_age(),
    ensures
        rule_holds(tree, facts, a) == rule_holds(tree, facts, b),
{
    assert forall|i: int| 0 <= i < tree.groups.len() implies group_holds(
        #[trigger] tree.groups[i],
        facts,
        a,
    ) == group_holds(tree.groups[i], facts, b) by {
        let group = tree.groups[i];
        assert forall|j: int| 0 <= j < group.len() implies condition_holds(
            #[trigger] group[j],
            facts,
            a,
        ) == condition_holds(group[j], facts, b) by {
            assert(!(tree.groups[i][j].target is FollowAgeDays));
        }
    }
    if rule_holds(tree, facts, a) && !tree.grant_on_any_relation {
        let i = choose|i: int|
            0 <= i < tree.groups.len() && group_holds(#[trigger] tree.groups[i], facts, a);
        assert(group_holds(tree.groups[i], facts, b));
    }
    if rule_holds(tree, facts, b) && !tree.grant_on_any_relation {
        let i = choose|i: int|
            0 <= i < tree.groups.len() && group_holds(#[trigger] tree.groups[i], facts, b);
        assert(group_holds(tree.groups[i], facts, a));
    }
}

/// Evaluate the rule tree against a viewer's cached facts at a given instant.
pub fn evaluate_at(tree: &RuleTree, facts: &CacheData, instant: Timestamp) -> (r: bool)
    ensures
        r == rule_matches(tree@, *facts, instant),
{
    if tree.grant_on_any_relation {
        return true;
    }
    let days = days_since(facts.followed_at, instant);
    let ghost age = follow_days(*facts, instant);
    let mut i: usize = 0;
    while i < tree.groups.len()
        invariant
            i <= tree.groups@.len(),
            tree@.groups.len() == tree.groups@.len(),
            age == follow_days(*facts, instant),
            match days {
                Some(d) => age == Some(d as int),
                None => age is None,
            },
            forall|k: int| 0 <= k < i ==> !group_holds(#[trigger] tree@.groups[k], *facts, age),
        decreases tree.groups@.len() - i,
    {
        assert(tree@.groups[i as int] == tree.groups@[i as int]@);
        if evaluate_group(&tree.groups[i], facts, days) {
            return true;
        }
        i = i + 1;
    }
    false
}

fn evaluate_group(group: &ConditionGroup, facts: &CacheData, days: Option<i64>) -> (r: bool)
    ensures
        r == group_holds(
            group@,
            *facts,
            match days {
                Some(d) => Some(d as int),
                None => None,
            },
        ),
{
    let ghost age: Option<int> = match days {
        Some(d) => Some(d as int),
        None => None,
    };
    if group.conditions.len() == 0 {
        return false;
    }
    let mut j: usize = 0;
    while j < group.conditions.len()
        invariant
            j <= group.conditions@.len(),
            age == (match days {
                Some(d) => Some(d as int),
                None => None::<int>,
            }),
            forall|k: int| 0 <= k < j ==> condition_holds(#[trigger] group@[k], *facts, age),
        decreases group.conditions@.len() - j,
    {
        assert(group@[j as int] == group.conditions@[j as int]@);
        if !evaluate_single(&group.conditions[j], facts, days) {
            assert(!condition_holds(group@[j as int], *facts, age));
            return false;
        }
        j = j + 1;
    }
    true
}

/// Tier on the friendly 1/2/3 scale (0 when not subscribed).
fn tier(facts: &CacheData) -> (r: i64)
    ensures
        r == tier_of(*facts),
{
    let raw: i64 = facts.sub_tier as i64;
    if raw < 0 {
        0 - (0 - raw) / 1000
    } else {
        raw / 1000
    }
}

fn days_since(ts: Option<Timestamp>, instant: Timestamp) -> (r: Option<i64>)
    ensures
        match (r, ts) {
            (Some(d), Some(t)) => d == instant.days_since_spec(t),
            (None, None) => true,
            _ => false,
        },
{
    match ts {
        Some(t) => Some(instant.days_since(t)),
        None => None,
    }
}

fn evaluate_single(c: &Condition, f: &CacheData, days: Option<i64>) -> (r: bool)
    ensures
        r == condition_holds(
            c@,
            *f,
            match days {
                Some(d) => Some(d as int),
                None => None,
            },
        ),
{
    match c.target {
        ConditionTarget::IsFollower => bool_match(c, f.is_following),
        ConditionTarget::IsSubscriber => bool_match(c, f.is_subscribed),
        ConditionTarget::FollowAgeDays => int_match(c, days),
        ConditionTarget::SubTier => int_match(c, Some(tier(f))),
    }
}

fn bool_match(c: &Condition, actual: bool) -> (r: bool)
    ensures
        r == bool_matches(c@, actual),
{
    if !matches!(c.operator, ConditionOperator::Eq) {
        return false;
    }
    match c.value.as_bool() {
        Some(v) => v == actual,
        None => false,
    }
}

fn int_match(c: &Condition, actual: Option<i64>) -> (r: bool)
    ensures
        r == int_matches(
            c@,
            match actual {
                Some(a) => Some(a as int),
                None => None,
            },
        ),
{
    // Missing data meets no condition.
    let a: i64 = match actual {
        Some(a) => a,
        None => {
            return false;
        },
    };
    let n: i64 = match c.value.as_i64() {
        Some(n) => n,
        None => {
            return false;
        },
    };
    match c.operator {
        ConditionOperator::Eq => a == n,
        ConditionOperator::Neq => a != n,
        ConditionOperator::Gt => a > n,
        ConditionOperator::Gte => a >= n,
        ConditionOperator::Lt => a < n,
        ConditionOperator::Lte => a <= n,
        ConditionOperator::Between => match &c.value_end {
            Some(end) => match end.as_i64() {
                Some(hi) => a >= n && a <= hi,
                None => false,
            },
            None => false,
        },
    }
}

/// An unconfigured role link grants the role to nobody.
pub proof fn law_unconfigured_grants_nobody(tree: RuleModel, facts: CacheData, now: Timestamp)
    requires
        tree.is_unconfigured(),
    ensures
        !rule_matches(tree, facts, now),
{
}

/// A rule that grants on any relation is met by everyone.
pub proof fn law_grant_on_any_matches_everyone(tree: RuleModel, facts: CacheData, now: Timestamp)
    requires
        tree.grant_on_any_relation,
    ensures
        rule_matches(tree, facts, now),
{
}

/// A viewer whose follow date is unknown meets no follow-age condition.
pub proof fn law_unknown_follow_age_fails_closed(
    c: ConditionModel,
    facts: CacheData,
    now: Timestamp,
)
    requires
        c.target is FollowAgeDays,
        facts.followed_at is None,
    ensures
        !condition_holds(c, facts, follow_days(facts, now)),
{
}

/// More groups never take the role away: a rule that extends another by
/// further groups is met by everyone who meets the shorter one.
pub proof fn law_groups_only_widen(
    tree: RuleModel,
    more: Seq<Seq<ConditionModel>>,
    facts: CacheData,
    now: Timestamp,
)
    requires
        rule_matches(tree, facts, now),
    ensures
        rule_matches(
            (RuleModel {
                grant_on_any_relation: tree.grant_on_any_relation,
                groups: tree.groups + more,
            }),
            facts,
            now,
        ),
{
    if !tree.grant_on_any_relation {
        let days = follow_days(facts, now);
        let i = choose|i: int|
            0 <= i < tree.groups.len() && group_holds(#[trigger] tree.groups[i], facts, days);
        let wider = RuleModel {
            grant_on_any_relation: tree.grant_on_any_relation,
            groups: tree.groups + more,
        };
        assert(wider.groups[i] == tree.groups[i]);
    }
}

// ---------------------------------------------------------------------
// What rules mean
// ---------------------------------------------------------------------

/// The rule that consists of one condition.
pub open spec fn one_condition(c: ConditionModel) -> RuleModel {
    RuleModel { grant_on_any_relation: false, groups: seq![seq![c]] }
}

/// The rule that consists of these groups.
pub open spec fn rule_of(groups: Seq<Seq<ConditionModel>>) -> RuleModel {
    RuleModel { grant_on_any_relation: false, groups }
}

/// The rule that compares a number with `n`.
pub open spec fn number_rule(
    target: ConditionTarget,
    operator: ConditionOperator,
    n: i64,
) -> RuleModel {
    one_condition(
        ConditionModel { target, operator, value: JsonModel::Int(n), value_end: None },
    )
}

/// The rule that asks for a number from `low` to `high`.
pub open spec fn range_rule(target: ConditionTarget, low: i64, high: i64) -> RuleModel {
    one_condition(
        ConditionModel {
            target,
            operator: ConditionOperator::Between,
            value: JsonModel::Int(low),
            value_end: Some(JsonModel::Int(high)),
        },
    )
}

/// The rule that asks for a truth value.
pub open spec fn flag_rule(target: ConditionTarget, wanted: bool) -> RuleModel {
    one_condition(
        ConditionModel {
            target,
            operator: ConditionOperator::Eq,
            value: JsonModel::Bool(wanted),
            value_end: None,
        },
    )
}

pub proof fn lemma_one_condition(c: ConditionModel, facts: CacheData, days: Option<int>)
    ensures
        rule_holds(one_condition(c), facts, days) == condition_holds(c, facts, days),
{
    let tree = one_condition(c);
    assert(tree.groups[0][0] == c);
    if condition_holds(c, facts, days) {
        assert(group_holds(tree.groups[0], facts, days));
    }
}

/// A follow-age condition compares the whole days that have passed since the
/// follow date. With `elapsed` nanoseconds between the two instants, more than
/// `n` days have passed when it reaches `n + 1` days, fewer than `n` when it
/// stays below `n` days.
pub proof fn law_follow_age_goes_by_elapsed_time(
    n: i64,
    high: i64,
    facts: CacheData,
    followed: Timestamp,
    now: Timestamp,
)
    requires
        facts.followed_at == Some(followed),
    ensures
        ({
            let elapsed = now.nanos_since(followed);
            let age = ConditionTarget::FollowAgeDays;
            &&& rule_matches(number_rule(age, ConditionOperator::Gt, n), facts, now) == (elapsed
                >= (n + 1) * 86_400_000_000_000)
            &&& rule_matches(number_rule(age, ConditionOperator::Gte, n), facts, now) == (elapsed
                >= n * 86_400_000_000_000)
            &&& rule_matches(number_rule(age, ConditionOperator::Lt, n), facts, now) == (elapsed
                < n * 86_400_000_000_000)
            &&& rule_matches(number_rule(age, ConditionOperator::Lte, n), facts, now) == (elapsed
                < (n + 1) * 86_400_000_000_000)
            &&& rule_matches(number_rule(age, ConditionOperator::Eq, n), facts, now) == (n
                * 86_400_000_000_000 <= elapsed < (n + 1) * 86_400_000_000_000)
            &&& rule_matches(number_rule(age, ConditionOperator::Neq, n), facts, now) == !(n
                * 86_400_000_000_000 <= elapsed < (n + 1) * 86_400_000_000_000)
            &&& rule_matches(range_rule(age, n, high), facts, now) == (n * 86_400_000_000_000
                <= elapsed < (high + 1) * 86_400_000_000_000)
        }),
{
    let days = follow_days(facts, now);
    assert(days == Some(now.nanos_since(followed) / 86_400_000_000_000));
    lemma_number_rules(ConditionTarget::FollowAgeDays, n, high, facts, days);
}

/// Outside of leap seconds the time that has passed is the difference of the two
/// instants, so that a follow-age condition is decided by their seconds and
/// nanoseconds alone.
pub proof fn law_follow_age_counts_whole_days(
    n: i64,
    high: i64,
    facts: CacheData,
    followed: Timestamp,
    now: Timestamp,
)
    requires
        facts.followed_at == Some(followed),
        followed.nanos < 1_000_000_000,
        now.nanos < 1_000_000_000,
    ensures
        ({
            let elapsed = (now.secs - followed.secs) * 1_000_000_000 + (now.nanos - followed.nanos);
            let age = ConditionTarget::FollowAgeDays;
            &&& rule_matches(number_rule(age, ConditionOperator::Gt, n), facts, now) == (elapsed
                >= (n + 1) * 86_400_000_000_000)
            &&& rule_matches(number_rule(age, ConditionOperator::Gte, n), facts, now) == (elapsed
                >= n * 86_400_000_000_000)
            &&& rule_matches(number_rule(age, ConditionOperator::Lt, n), facts, now) == (elapsed
                < n * 86_400_000_000_000)
            &&& rule_matches(number_rule(age, ConditionOperator::Lte, n), facts, now) == (elapsed
                < (n + 1) * 86_400_000_000_000)
            &&& rule_matches(number_rule(age, ConditionOperator::Eq, n), facts, now) == (n
                * 86_400_000_000_000 <= elapsed < (n + 1) * 86_400_000_000_000)
            &&& rule_matches(number_rule(age, ConditionOperator::Neq, n), facts, now) == !(n
                * 86_400_000_000_000 <= elapsed < (n + 1) * 86_400_000_000_000)
            &&& rule_matches(range_rule(age, n, high), facts, now) == (n * 86_400_000_000_000 <= elapsed
                < (high + 1) * 86_400_000_000_000)
        }),
{
    law_elapsed_time(now, followed);
    law_follow_age_goes_by_elapsed_time(n, high, facts, followed, now);
}

proof fn lemma_number_rules(
    target: ConditionTarget,
    n: i64,
    high: i64,
    facts: CacheData,
    days: Option<int>,
)
    ensures
        forall|op: ConditionOperator|
            rule_holds(#[trigger] number_rule(target, op, n), facts, days) == condition_holds(
                number_rule(target, op, n).groups[0][0],
                facts,
                days,
            ),
        rule_holds(range_rule(target, n, high), facts, days) == condition_holds(
            range_rule(target, n, high).groups[0][0],
            facts,
            days,
        ),
{
    assert forall|op: ConditionOperator|
        rule_holds(#[trigger] number_rule(target, op, n), facts, days) == condition_holds(
            number_rule(target, op, n).groups[0][0],
            facts,
            days,
        ) by {
        lemma_one_condition(number_rule(target, op, n).groups[0][0], facts, days);
    }
    lemma_one_condition(range_rule(target, n, high).groups[0][0], facts, days);
}

/// Having followed for longer never loses a condition that asks for more days
/// and never gains one that asks for fewer.
pub proof fn law_following_longer(n: i64, facts: CacheData, earlier: Timestamp, later: Timestamp)
    requires
        facts.followed_at matches Some(t) ==> t.is_plain(),
        earlier.is_plain(),
        later.is_plain(),
        earlier.secs < later.secs || (earlier.secs == later.secs && earlier.nanos <= later.nanos),
    ensures
        ({
            let gt = number_rule(ConditionTarget::FollowAgeDays, ConditionOperator::Gt, n);
            let gte = number_rule(ConditionTarget::FollowAgeDays, ConditionOperator::Gte, n);
            let lt = number_rule(ConditionTarget::FollowAgeDays, ConditionOperator::Lt, n);
            let lte = number_rule(ConditionTarget::FollowAgeDays, ConditionOperator::Lte, n);
            &&& rule_matches(gt, facts, earlier) ==> rule_matches(gt, facts, later)
            &&& rule_matches(gte, facts, earlier) ==> rule_matches(gte, facts, later)
            &&& rule_matches(lt, facts, later) ==> rule_matches(lt, facts, earlier)
            &&& rule_matches(lte, facts, later) ==> rule_matches(lte, facts, earlier)
        }),
{
    match facts.followed_at {
        Some(t) => {
            law_follow_age_counts_whole_days(n, n, facts, t, earlier);
            law_follow_age_counts_whole_days(n, n, facts, t, later);
        },
        None => {
            lemma_number_rules(ConditionTarget::FollowAgeDays, n, n, facts, None);
        },
    }
}

/// A tier condition compares the raw tier in whole thousands. A viewer with a
/// raw tier from `1000 * tier` to below `1000 * (tier + 1)` has that tier.
pub proof fn law_tiers_are_whole_thousands(
    n: i64,
    high: i64,
    facts: CacheData,
    tier: int,
    now: Timestamp,
)
    requires
        0 <= tier,
        1000 * tier <= facts.sub_tier < 1000 * (tier + 1),
    ensures
        ({
            let t = ConditionTarget::SubTier;
            &&& rule_matches(number_rule(t, ConditionOperator::Gt, n), facts, now) == (tier > n)
            &&& rule_matches(number_rule(t, ConditionOperator::Gte, n), facts, now) == (tier >= n)
            &&& rule_matches(number_rule(t, ConditionOperator::Lt, n), facts, now) == (tier < n)
            &&& rule_matches(number_rule(t, ConditionOperator::Lte, n), facts, now) == (tier <= n)
            &&& rule_matches(number_rule(t, ConditionOperator::Eq, n), facts, now) == (tier == n)
            &&& rule_matches(number_rule(t, ConditionOperator::Neq, n), facts, now) == (tier != n)
            &&& rule_matches(range_rule(t, n, high), facts, now) == (n <= tier <= high)
        }),
{
    lemma_number_rules(ConditionTarget::SubTier, n, high, facts, follow_days(facts, now));
}

/// A raw tier below zero is rounded towards zero as well.
pub proof fn law_negative_tiers_round_towards_zero(
    n: i64,
    facts: CacheData,
    tier: int,
    now: Timestamp,
)
    requires
        tier <= 0,
        1000 * (tier - 1) < facts.sub_tier <= 1000 * tier,
    ensures
        rule_matches(number_rule(ConditionTarget::SubTier, ConditionOperator::Eq, n), facts, now)
            == (tier == n),
        rule_matches(number_rule(ConditionTarget::SubTier, ConditionOperator::Gt, n), facts, now)
            == (tier > n),
        rule_matches(number_rule(ConditionTarget::SubTier, ConditionOperator::Lt, n), facts, now)
            == (tier < n),
{
    lemma_number_rules(ConditionTarget::SubTier, n, n, facts, follow_days(facts, now));
}

/// A condition on a truth value is met by exactly the viewers of whom that
/// value is known.
pub proof fn law_flags_are_taken_at_their_word(wanted: bool, facts: CacheData, now: Timestamp)
    ensures
        rule_matches(flag_rule(ConditionTarget::IsFollower, wanted), facts, now) == (
        facts.is_following == wanted),
        rule_matches(flag_rule(ConditionTarget::IsSubscriber, wanted), facts, now) == (
        facts.is_subscribed == wanted),
{
    let days = follow_days(facts, now);
    lemma_one_condition(
        flag_rule(ConditionTarget::IsFollower, wanted).groups[0][0],
        facts,
        days,
    );
    lemma_one_condition(
        flag_rule(ConditionTarget::IsSubscriber, wanted).groups[0][0],
        facts,
        days,
    );
}

/// On every number that is known, "greater" is the opposite of "less or equal",
/// "less" of "greater or equal" and "not equal" of "equal"; a range is both of
/// its bounds.
pub proof fn law_comparisons_are_opposites(
    target: ConditionTarget,
    n: i64,
    high: i64,
    facts: CacheData,
    now: Timestamp,
)
    requires
        target is SubTier || (target is FollowAgeDays && facts.followed_at is Some),
    ensures
        rule_matches(number_rule(target, ConditionOperator::Gt, n), facts, now) == !rule_matches(
            number_rule(target, ConditionOperator::Lte, n),
            facts,
            now,
        ),
        rule_matches(number_rule(target, ConditionOperator::Lt, n), facts, now) == !rule_matches(
            number_rule(target, ConditionOperator::Gte, n),
            facts,
            now,
        ),
        rule_matches(number_rule(target, ConditionOperator::Neq, n), facts, now) == !rule_matches(
            number_rule(target, ConditionOperator::Eq, n),
            facts,
            now,
        ),
        rule_matches(range_rule(target, n, high), facts, now) == (rule_matches(
            number_rule(target, ConditionOperator::Gte, n),
            facts,
            now,
        ) && rule_matches(number_rule(target, ConditionOperator::Lte, high), facts, now)),
        rule_matches(number_rule(target, ConditionOperator::Eq, n), facts, now) == (rule_matches(
            number_rule(target, ConditionOperator::Gte, n),
            facts,
            now,
        ) && rule_matches(number_rule(target, ConditionOperator::Lte, n), facts, now)),
{
    let days = follow_days(facts, now);
    lemma_number_rules(target, n, high, facts, days);
    lemma_number_rules(target, high, high, facts, days);
}

/// A condition is met by nobody whose operator does not fit its target, or that
/// lacks a value of the target's kind.
pub proof fn law_misfits_match_nobody(c: ConditionModel, facts: CacheData, now: Timestamp)
    requires
        match c.target {
            ConditionTarget::IsFollower | ConditionTarget::IsSubscriber => !(c.operator is Eq)
                || !(c.value is Bool),
            ConditionTarget::FollowAgeDays | ConditionTarget::SubTier => !(c.value is Int) || (
            c.operator is Between && !(c.value_end matches Some(end) && end is Int)),
        },
    ensures
        !rule_matches(one_condition(c), facts, now),
{
    lemma_one_condition(c, facts, follow_days(facts, now));
}

/// Groups are alternatives: a rule is met exactly when one of its two parts is.
pub proof fn law_groups_are_alternatives(
    a: Seq<Seq<ConditionModel>>,
    b: Seq<Seq<ConditionModel>>,
    facts: CacheData,
    now: Timestamp,
)
    ensures
        rule_matches(rule_of(a + b), facts, now) == (rule_matches(rule_of(a), facts, now)
            || rule_matches(rule_of(b), facts, now)),
{
    let days = follow_days(facts, now);
    let both = a + b;
    if rule_matches(rule_of(both), facts, now) {
        let i = choose|i: int|
            0 <= i < both.len() && group_holds(#[trigger] rule_of(both).groups[i], facts, days);
        if i < a.len() {
            assert(group_holds(rule_of(a).groups[i], facts, days));
        } else {
            assert(group_holds(rule_of(b).groups[i - a.len()], facts, days));
        }
    }
    if rule_matches(rule_of(a), facts, now) {
        let i = choose|i: int|
            0 <= i < a.len() && group_holds(#[trigger] rule_of(a).groups[i], facts, days);
        assert(group_holds(rule_of(both).groups[i], facts, days));
    }
    if rule_matches(rule_of(b), facts, now) {
        let i = choose|i: int|
            0 <= i < b.len() && group_holds(#[trigger] rule_of(b).groups[i], facts, days);
        assert(both[a.len() + i] == b[i]);
        assert(group_holds(rule_of(both).groups[a.len() + i], facts, days));
    }
}

/// In a group every condition counts: it is met exactly when its two parts are.
/// A group without conditions is met by nobody.
pub proof fn law_conditions_all_count(
    a: Seq<ConditionModel>,
    b: Seq<ConditionModel>,
    facts: CacheData,
    now: Timestamp,
)
    ensures
        a.len() > 0 && b.len() > 0 ==> rule_matches(rule_of(seq![a + b]), facts, now) == (
        rule_matches(rule_of(seq![a]), facts, now) && rule_matches(rule_of(seq![b]), facts, now)),
        !rule_matches(rule_of(seq![Seq::<ConditionModel>::empty()]), facts, now),
        !rule_matches(rule_of(Seq::empty()), facts, now),
{
    let days = follow_days(facts, now);
    let both = a + b;
    lemma_one_group(a, facts, days);
    lemma_one_group(b, facts, days);
    lemma_one_group(both, facts, days);
    if group_holds(both, facts, days) {
        assert forall|j: int| 0 <= j < a.len() implies condition_holds(
            #[trigger] a[j],
            facts,
            days,
        ) by {
            assert(condition_holds(both[j], facts, days));
        }
        assert forall|j: int| 0 <= j < b.len() implies condition_holds(
            #[trigger] b[j],
            facts,
            days,
        ) by {
            assert(condition_holds(both[a.len() + j], facts, days));
        }
    }
}

proof fn lemma_one_group(group: Seq<ConditionModel>, facts: CacheData, days: Option<int>)
    ensures
        rule_holds(rule_of(seq![group]), facts, days) == group_holds(group, facts, days),
{
    assert(rule_of(seq![group]).groups[0] == group);
}

} // verus!
