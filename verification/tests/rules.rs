use chrono::{Duration, Utc};
use twitch_follower_role::error::AppError;
use twitch_follower_role::json::JsonValue;
use twitch_follower_role::models::condition::{
    Condition, ConditionOperator, ConditionTarget, TargetKind,
};
use twitch_follower_role::models::rule::{
    ConditionGroup, RuleTree, MAX_CONDITIONS_PER_GROUP, MAX_GROUPS,
};
use twitch_follower_role::services::condition_eval::{evaluate, evaluate_at, CacheData};
use twitch_follower_role::services::rule_sql::{build_rule_where, target_expr, Bind};
use twitch_follower_role::services::rule_validator::{
    parse_rule_tree, validate_condition, ConditionGroupInput, ConditionInput, RuleTreeBody,
};
use twitch_follower_role::time::Timestamp;

fn number(n: i64) -> JsonValue {
    JsonValue::Int(n)
}

fn boolean(b: bool) -> JsonValue {
    JsonValue::Bool(b)
}

fn c(target: ConditionTarget, operator: ConditionOperator, value: JsonValue) -> Condition {
    Condition { target, operator, value, value_end: None }
}

fn one_group(conditions: Vec<Condition>) -> RuleTree {
    RuleTree { grant_on_any_relation: false, groups: vec![ConditionGroup { conditions }] }
}

fn or_groups(groups: Vec<Vec<Condition>>) -> RuleTree {
    RuleTree {
        grant_on_any_relation: false,
        groups: groups.into_iter().map(|conditions| ConditionGroup { conditions }).collect(),
    }
}

fn facts() -> CacheData {
    CacheData { is_following: false, followed_at: None, is_subscribed: false, sub_tier: 0 }
}

fn days_ago(days: i64) -> Option<Timestamp> {
    let t = Utc::now() - Duration::days(days);
    Some(Timestamp { secs: t.timestamp(), nanos: t.timestamp_subsec_nanos() })
}

// --- models ---

#[test]
fn deserializes_migration_backfill_shape() {
    let condition = |target: &str, operator: &str, value: JsonValue| {
        JsonValue::object()
            .with("target", JsonValue::text(target))
            .with("operator", JsonValue::text(operator))
            .with("value", value)
    };
    let conditions = JsonValue::array()
        .item(condition("is_follower", "eq", boolean(true)))
        .item(condition("follow_age_days", "gte", number(30)))
        .item(condition("is_subscriber", "eq", boolean(true)))
        .item(condition("sub_tier", "gte", number(2)));
    let raw = JsonValue::object()
        .with("grant_on_any_relation", boolean(false))
        .with("groups", JsonValue::array().item(JsonValue::object().with("conditions", conditions)));
    let tree = RuleTree::from_json(&raw).expect("migration shape must parse");
    assert!(!tree.grant_on_any_relation);
    assert_eq!(tree.groups.len(), 1);
    let cs = &tree.groups[0].conditions;
    assert_eq!(cs.len(), 4);
    assert_eq!(cs[0].target, ConditionTarget::IsFollower);
    assert_eq!(cs[0].operator, ConditionOperator::Eq);
    assert_eq!(cs[1].target, ConditionTarget::FollowAgeDays);
    assert_eq!(cs[1].value.as_i64(), Some(30));
    assert_eq!(cs[3].target, ConditionTarget::SubTier);
    assert_eq!(cs[3].operator, ConditionOperator::Gte);
    assert_eq!(cs[3].value.as_i64(), Some(2));
}

#[test]
fn deserializes_unconfigured_shape() {
    let raw = JsonValue::object()
        .with("grant_on_any_relation", boolean(false))
        .with("groups", JsonValue::array());
    let tree = RuleTree::from_json(&raw).unwrap();
    assert!(!tree.grant_on_any_relation);
    assert!(tree.groups.is_empty());
}

#[test]
fn stored_rules_read_back() {
    let mut between = c(ConditionTarget::FollowAgeDays, ConditionOperator::Between, number(30));
    between.value_end = Some(number(90));
    let tree = or_groups(vec![
        vec![c(ConditionTarget::IsFollower, ConditionOperator::Eq, boolean(true)), between],
        vec![c(ConditionTarget::SubTier, ConditionOperator::Neq, number(1))],
    ]);
    let document = tree.to_json();
    let again = RuleTree::from_json(&document).unwrap();
    assert_eq!(again.to_json(), document);
    assert_eq!(again.groups.len(), 2);
    assert_eq!(again.groups[0].conditions[1].value_end, Some(number(90)));
    assert_eq!(again.groups[1].conditions[0].operator, ConditionOperator::Neq);
    // The end of a range is left out of the document where there is none.
    let first = document.get("groups").unwrap().clone();
    if let JsonValue::Array(groups) = first {
        if let Some(JsonValue::Array(conditions)) = groups[0].get("conditions") {
            assert!(conditions[0].get("value_end").is_none());
            assert!(conditions[1].get("value_end").is_some());
        } else {
            panic!("a group holds its conditions");
        }
    } else {
        panic!("a rule holds its groups");
    }
}

#[test]
fn stored_rules_are_read_leniently() {
    // Missing fields have their defaults, other keys are passed over.
    let tree = RuleTree::from_json(&JsonValue::object().with("other", number(1))).unwrap();
    assert!(!tree.grant_on_any_relation);
    assert!(tree.groups.is_empty());
    let group = RuleTree::from_json(
        &JsonValue::object().with("groups", JsonValue::array().item(JsonValue::object())),
    )
    .unwrap();
    assert_eq!(group.groups[0].conditions.len(), 0);
    // A record may be an array of its fields.
    let array = JsonValue::array().item(boolean(true)).item(JsonValue::array());
    assert!(RuleTree::from_json(&array).unwrap().grant_on_any_relation);
    // A name may be the only key of an object, with null.
    let condition = JsonValue::object()
        .with("target", JsonValue::object().with("sub_tier", JsonValue::Null))
        .with("operator", JsonValue::text("eq"))
        .with("value", number(2))
        .with("value_end", JsonValue::Null);
    let doc = JsonValue::object().with(
        "groups",
        JsonValue::array().item(
            JsonValue::object().with("conditions", JsonValue::array().item(condition)),
        ),
    );
    let tree = RuleTree::from_json(&doc).unwrap();
    assert_eq!(tree.groups[0].conditions[0].target, ConditionTarget::SubTier);
    assert!(tree.groups[0].conditions[0].value_end.is_none());
}

#[test]
fn unreadable_rules_are_unconfigured() {
    let wrong_grant = JsonValue::object().with("grant_on_any_relation", number(1));
    let wrong_groups = JsonValue::object().with("groups", JsonValue::Null);
    let too_long = JsonValue::array().item(boolean(true)).item(JsonValue::array()).item(number(1));
    let no_value = JsonValue::object().with(
        "groups",
        JsonValue::array().item(JsonValue::object().with(
            "conditions",
            JsonValue::array().item(
                JsonValue::object()
                    .with("target", JsonValue::text("sub_tier"))
                    .with("operator", JsonValue::text("eq")),
            ),
        )),
    );
    for doc in [JsonValue::Null, number(3), wrong_grant, wrong_groups, too_long, no_value] {
        assert!(RuleTree::from_json(&doc).is_none());
        let tree = RuleTree::from_stored(&doc);
        assert!(!tree.grant_on_any_relation);
        assert!(tree.groups.is_empty());
        assert!(!evaluate(&tree, &facts()));
    }
}

#[test]
fn keys_name_targets_and_operators() {
    for t in [
        ConditionTarget::IsFollower,
        ConditionTarget::FollowAgeDays,
        ConditionTarget::IsSubscriber,
        ConditionTarget::SubTier,
    ] {
        assert_eq!(ConditionTarget::from_key(t.as_str()), Some(t));
    }
    assert_eq!(ConditionTarget::from_key("is_Follower"), None);
    for op in [
        ConditionOperator::Eq,
        ConditionOperator::Neq,
        ConditionOperator::Gt,
        ConditionOperator::Gte,
        ConditionOperator::Lt,
        ConditionOperator::Lte,
        ConditionOperator::Between,
    ] {
        assert_eq!(ConditionOperator::from_key(op.as_str()), Some(op));
        assert!(op.valid_for(TargetKind::Int));
        assert_eq!(op.valid_for(TargetKind::Bool), op == ConditionOperator::Eq);
    }
    assert_eq!(ConditionOperator::from_key(""), None);
    assert_eq!(ConditionTarget::SubTier.kind(), TargetKind::Int);
    assert_eq!(ConditionTarget::IsSubscriber.kind(), TargetKind::Bool);
}

// --- evaluation in memory ---

#[test]
fn unconfigured_grants_nobody() {
    assert!(!evaluate(&RuleTree::default(), &facts()));
}

#[test]
fn grant_on_any_short_circuits_true() {
    let t = RuleTree { grant_on_any_relation: true, groups: vec![] };
    assert!(evaluate(&t, &facts()));
}

#[test]
fn empty_group_is_false_defensive() {
    let t = RuleTree {
        grant_on_any_relation: false,
        groups: vec![ConditionGroup { conditions: vec![] }],
    };
    assert!(!evaluate(&t, &facts()));
}

#[test]
fn and_all_conditions_required() {
    let t = one_group(vec![
        c(ConditionTarget::IsSubscriber, ConditionOperator::Eq, boolean(true)),
        c(ConditionTarget::SubTier, ConditionOperator::Gte, number(2)),
    ]);
    let mut f = facts();
    f.is_subscribed = true;
    f.sub_tier = 3000;
    assert!(evaluate(&t, &f));
    f.sub_tier = 1000;
    assert!(!evaluate(&t, &f));
}

#[test]
fn or_any_group_satisfies() {
    // (follower AND followed >=30d) OR (subscriber tier >=2)
    let t = or_groups(vec![
        vec![
            c(ConditionTarget::IsFollower, ConditionOperator::Eq, boolean(true)),
            c(ConditionTarget::FollowAgeDays, ConditionOperator::Gte, number(30)),
        ],
        vec![c(ConditionTarget::SubTier, ConditionOperator::Gte, number(2))],
    ]);

    let mut f = facts();
    f.is_following = true;
    f.followed_at = days_ago(45);
    assert!(evaluate(&t, &f));

    // follow path fails (too recent); sub path matches
    f.followed_at = days_ago(5);
    f.is_subscribed = true;
    f.sub_tier = 2000;
    assert!(evaluate(&t, &f));

    // both fail
    f.sub_tier = 1000;
    assert!(!evaluate(&t, &f));
}

#[test]
fn follow_age_missing_fails_closed() {
    let t = one_group(vec![c(ConditionTarget::FollowAgeDays, ConditionOperator::Gte, number(0))]);
    let f = facts(); // followed_at = None
    assert!(!evaluate(&t, &f));
}

#[test]
fn tier_scale_division() {
    let t = one_group(vec![c(ConditionTarget::SubTier, ConditionOperator::Eq, number(3))]);
    let mut f = facts();
    f.is_subscribed = true;
    f.sub_tier = 3000;
    assert!(evaluate(&t, &f));
    f.sub_tier = 2000;
    assert!(!evaluate(&t, &f));
}

#[test]
fn between_inclusive_on_follow_age() {
    let mut cond = c(ConditionTarget::FollowAgeDays, ConditionOperator::Between, number(30));
    cond.value_end = Some(number(90));
    let t = one_group(vec![cond]);
    let mut f = facts();
    f.followed_at = days_ago(60);
    assert!(evaluate(&t, &f));
    f.followed_at = days_ago(120);
    assert!(!evaluate(&t, &f));
}

#[test]
fn follow_age_counts_whole_days() {
    let t = one_group(vec![c(ConditionTarget::FollowAgeDays, ConditionOperator::Eq, number(2))]);
    let mut f = facts();
    f.followed_at = Some(Timestamp { secs: 1_000_000, nanos: 500 });
    let at = |secs: i64, nanos: u32| Timestamp { secs, nanos };
    assert!(!evaluate_at(&t, &f, at(1_000_000 + 2 * 86_400, 499)));
    assert!(evaluate_at(&t, &f, at(1_000_000 + 2 * 86_400, 500)));
    assert!(evaluate_at(&t, &f, at(1_000_000 + 3 * 86_400, 499)));
    assert!(!evaluate_at(&t, &f, at(1_000_000 + 3 * 86_400, 500)));
}

#[test]
fn follow_age_of_a_future_date_is_negative() {
    // Half a day ahead is a day short of nothing, as in the query.
    let now = Timestamp { secs: 1_000_000, nanos: 0 };
    let mut f = facts();
    f.followed_at = Some(Timestamp { secs: 1_000_000 + 43_200, nanos: 0 });
    let holds = |op: ConditionOperator, n: i64| {
        evaluate_at(&one_group(vec![c(ConditionTarget::FollowAgeDays, op, number(n))]), &f, now)
    };
    assert!(holds(ConditionOperator::Eq, -1));
    assert!(!holds(ConditionOperator::Eq, 0));
    assert!(!holds(ConditionOperator::Gte, 0));
}

#[test]
fn every_operator_compares_the_tier() {
    let mut f = facts();
    f.sub_tier = 2000;
    let holds = |op: ConditionOperator, n: i64| {
        let mut cond = c(ConditionTarget::SubTier, op, number(n));
        if op == ConditionOperator::Between {
            cond.value_end = Some(number(2));
        }
        evaluate(&one_group(vec![cond]), &f)
    };
    assert!(holds(ConditionOperator::Eq, 2) && !holds(ConditionOperator::Eq, 3));
    assert!(holds(ConditionOperator::Neq, 3) && !holds(ConditionOperator::Neq, 2));
    assert!(holds(ConditionOperator::Gt, 1) && !holds(ConditionOperator::Gt, 2));
    assert!(holds(ConditionOperator::Gte, 2) && !holds(ConditionOperator::Gte, 3));
    assert!(holds(ConditionOperator::Lt, 3) && !holds(ConditionOperator::Lt, 2));
    assert!(holds(ConditionOperator::Lte, 2) && !holds(ConditionOperator::Lte, 1));
    assert!(holds(ConditionOperator::Between, 1) && !holds(ConditionOperator::Between, 3));
    // A range without an end and a value of another kind match nobody.
    let open = c(ConditionTarget::SubTier, ConditionOperator::Between, number(1));
    assert!(!evaluate(&one_group(vec![open]), &f));
    let text = c(ConditionTarget::SubTier, ConditionOperator::Eq, JsonValue::text("2"));
    assert!(!evaluate(&one_group(vec![text]), &f));
}

#[test]
fn further_groups_only_widen() {
    let narrow = vec![c(ConditionTarget::IsFollower, ConditionOperator::Eq, boolean(true))];
    let other = vec![c(ConditionTarget::SubTier, ConditionOperator::Eq, number(3))];
    let mut f = facts();
    f.is_following = true;
    let again = vec![c(ConditionTarget::IsFollower, ConditionOperator::Eq, boolean(true))];
    assert!(evaluate(&or_groups(vec![narrow]), &f));
    assert!(evaluate(&or_groups(vec![again, other]), &f));
}

// --- SQL ---

#[test]
fn grant_on_any_is_true() {
    let t = RuleTree { grant_on_any_relation: true, groups: vec![] };
    let (sql, binds) = build_rule_where(&t, 2);
    assert_eq!(sql, "TRUE");
    assert!(binds.is_empty());
}

#[test]
fn unconfigured_empty_is_false() {
    let t = RuleTree::default();
    let (sql, _) = build_rule_where(&t, 2);
    assert_eq!(sql, "FALSE");
}

#[test]
fn single_group_ands() {
    let t = one_group(vec![
        c(ConditionTarget::IsSubscriber, ConditionOperator::Eq, boolean(true)),
        c(ConditionTarget::SubTier, ConditionOperator::Gte, number(2)),
    ]);
    let (sql, binds) = build_rule_where(&t, 2);
    assert!(sql.contains(" AND "));
    assert!(sql.contains("COALESCE(ucc.is_subscribed, false) = $3"));
    assert!(sql.contains(">= $4"));
    assert_eq!(binds.len(), 2);
    assert!(matches!(binds[0], Bind::Bool(true)));
    assert!(matches!(binds[1], Bind::Int(2)));
}

#[test]
fn multi_group_ors() {
    let t = or_groups(vec![
        vec![c(ConditionTarget::IsSubscriber, ConditionOperator::Eq, boolean(true))],
        vec![c(ConditionTarget::IsFollower, ConditionOperator::Eq, boolean(true))],
    ]);
    let (sql, binds) = build_rule_where(&t, 2);
    assert!(sql.contains(" OR "));
    assert_eq!(binds.len(), 2);
}

#[test]
fn between_emits_two_binds() {
    let mut cond = c(ConditionTarget::FollowAgeDays, ConditionOperator::Between, number(30));
    cond.value_end = Some(number(90));
    let t = one_group(vec![cond]);
    let (sql, binds) = build_rule_where(&t, 0);
    assert!(sql.contains(">= $1") && sql.contains("<= $2"));
    assert_eq!(binds.len(), 2);
}

#[test]
fn conditions_without_their_values_select_nobody() {
    let tier_two = CacheData { is_subscribed: true, sub_tier: 2000, ..facts() };
    let check = |cond: Condition, sql: &str, binds: &[Bind]| {
        let t = one_group(vec![cond]);
        let (clause, bound) = build_rule_where(&t, 0);
        assert_eq!(clause, sql);
        assert_eq!(bound, binds);
        assert!(!evaluate(&t, &tier_two));
        assert!(!evaluate(&t, &facts()));
    };
    // A bound value is never NULL, so no row passes.
    let none = "(($1 IS NULL))";
    let zero = [Bind::Int(0)];
    let tier = ConditionTarget::SubTier;
    // Nothing lies between one and zero.
    let empty = [Bind::Int(1), Bind::Int(0)];
    let range = "(((((COALESCE(ucc.sub_tier, 0) / 1000)) >= $1 AND \
                 ((COALESCE(ucc.sub_tier, 0) / 1000)) <= $2)))";
    let mut open = c(tier, ConditionOperator::Between, number(2));
    check(open.clone(), range, &empty);
    open.value_end = Some(JsonValue::text("3"));
    check(open.clone(), range, &empty);
    open.target = ConditionTarget::IsFollower;
    check(open, "((($1 IS NULL AND $2 IS NULL)))", &empty);
    check(c(tier, ConditionOperator::Gte, JsonValue::Null), none, &zero);
    check(c(tier, ConditionOperator::Neq, JsonValue::text("1")), none, &zero);
    check(c(tier, ConditionOperator::Eq, boolean(true)), none, &zero);
    let follower = ConditionTarget::IsFollower;
    check(c(follower, ConditionOperator::Neq, boolean(true)), none, &zero);
    check(c(follower, ConditionOperator::Eq, number(0)), none, &zero);
    // The conditions after it keep their numbers.
    let t = one_group(vec![
        c(tier, ConditionOperator::Gte, JsonValue::Null),
        c(tier, ConditionOperator::Lt, number(3)),
    ]);
    let (sql, binds) = build_rule_where(&t, 2);
    assert_eq!(sql, "(($3 IS NULL AND ((COALESCE(ucc.sub_tier, 0) / 1000)) < $4))");
    assert_eq!(binds, [Bind::Int(0), Bind::Int(3)]);
}

#[test]
fn values_stay_out_of_the_text() {
    let rule = |follows: bool, tier: i64, low: i64, high: Option<i64>| {
        let mut range = c(ConditionTarget::FollowAgeDays, ConditionOperator::Between, number(low));
        range.value_end = high.map(number);
        or_groups(vec![
            vec![
                c(ConditionTarget::IsFollower, ConditionOperator::Eq, boolean(follows)),
                c(ConditionTarget::SubTier, ConditionOperator::Gte, number(tier)),
            ],
            vec![range],
        ])
    };
    let (sql, binds) = build_rule_where(&rule(true, 2, 30, Some(90)), 3);
    let (other, others) = build_rule_where(&rule(false, i64::MIN, -1, None), 3);
    assert_eq!(sql, other);
    assert_eq!(binds, [Bind::Bool(true), Bind::Int(2), Bind::Int(30), Bind::Int(90)]);
    assert_eq!(others, [Bind::Bool(false), Bind::Int(i64::MIN), Bind::Int(1), Bind::Int(0)]);
}

#[test]
fn clause_text_is_exact() {
    let t = or_groups(vec![
        vec![
            c(ConditionTarget::IsFollower, ConditionOperator::Eq, boolean(true)),
            c(ConditionTarget::SubTier, ConditionOperator::Gt, number(1)),
        ],
        vec![c(ConditionTarget::FollowAgeDays, ConditionOperator::Lte, number(7))],
    ]);
    let (sql, binds) = build_rule_where(&t, 8);
    assert_eq!(
        sql,
        "((COALESCE(ucc.is_following, false) = $9 AND \
         ((COALESCE(ucc.sub_tier, 0) / 1000)) > $10) OR \
         ((FLOOR(EXTRACT(EPOCH FROM (now() - ucc.followed_at)) / 86400)) <= $11))"
    );
    assert_eq!(binds.len(), 3);
    assert!(matches!(binds[1], Bind::Int(1)));
    assert_eq!(target_expr(ConditionTarget::IsFollower), "COALESCE(ucc.is_following, false)");
}

// --- validation ---

fn input(target: &str, operator: &str, value: JsonValue) -> ConditionInput {
    ConditionInput { target: target.into(), operator: operator.into(), value, value_end: None }
}

fn one_input_group(conditions: Vec<ConditionInput>) -> RuleTreeBody {
    RuleTreeBody { grant_on_any_relation: false, groups: vec![ConditionGroupInput { conditions }] }
}

fn refusal(body: RuleTreeBody) -> String {
    match parse_rule_tree(body) {
        Err(AppError::BadRequest(message)) => message,
        _ => panic!("the payload must be refused"),
    }
}

#[test]
fn grant_on_any_no_groups_ok() {
    let body = RuleTreeBody { grant_on_any_relation: true, groups: vec![] };
    let parsed = parse_rule_tree(body).unwrap();
    assert!(parsed.rule_tree.grant_on_any_relation);
    assert!(parsed.rule_tree.groups.is_empty());
}

#[test]
fn rejects_no_groups_no_grant() {
    let body = RuleTreeBody { grant_on_any_relation: false, groups: vec![] };
    assert!(matches!(parse_rule_tree(body), Err(AppError::BadRequest(_))));
}

#[test]
fn rejects_unknown_target() {
    let body = one_input_group(vec![input("not_a_target", "eq", boolean(true))]);
    assert!(matches!(parse_rule_tree(body), Err(AppError::BadRequest(_))));
}

#[test]
fn rejects_operator_target_mismatch() {
    // gt against a bool is nonsense
    let body = one_input_group(vec![input("is_follower", "gt", number(0))]);
    assert!(matches!(parse_rule_tree(body), Err(AppError::BadRequest(_))));
}

#[test]
fn rejects_empty_group() {
    let body = RuleTreeBody {
        grant_on_any_relation: false,
        groups: vec![ConditionGroupInput { conditions: vec![] }],
    };
    assert!(matches!(parse_rule_tree(body), Err(AppError::BadRequest(_))));
}

#[test]
fn bool_coerces_from_string() {
    let body = one_input_group(vec![input("is_subscriber", "eq", JsonValue::text("true"))]);
    let parsed = parse_rule_tree(body).unwrap();
    assert_eq!(parsed.rule_tree.groups[0].conditions[0].value, JsonValue::Bool(true));
}

#[test]
fn int_coerces_from_string() {
    let body = one_input_group(vec![input("follow_age_days", "gte", JsonValue::text("30"))]);
    let parsed = parse_rule_tree(body).unwrap();
    assert_eq!(parsed.rule_tree.groups[0].conditions[0].value, number(30));
}

#[test]
fn sub_tier_out_of_range_rejected() {
    let body = one_input_group(vec![input("sub_tier", "gte", number(4))]);
    assert!(matches!(parse_rule_tree(body), Err(AppError::BadRequest(_))));
}

#[test]
fn negative_follow_age_rejected() {
    let body = one_input_group(vec![input("follow_age_days", "gte", number(-5))]);
    assert!(matches!(parse_rule_tree(body), Err(AppError::BadRequest(_))));
}

#[test]
fn between_requires_value_end() {
    let body = RuleTreeBody {
        grant_on_any_relation: false,
        groups: vec![ConditionGroupInput {
            conditions: vec![ConditionInput {
                target: "follow_age_days".into(),
                operator: "between".into(),
                value: number(30),
                value_end: None,
            }],
        }],
    };
    assert!(matches!(parse_rule_tree(body), Err(AppError::BadRequest(_))));
}

#[test]
fn between_with_value_end_ok() {
    let body = RuleTreeBody {
        grant_on_any_relation: false,
        groups: vec![ConditionGroupInput {
            conditions: vec![ConditionInput {
                target: "follow_age_days".into(),
                operator: "between".into(),
                value: number(30),
                value_end: Some(number(90)),
            }],
        }],
    };
    let parsed = parse_rule_tree(body).unwrap();
    assert_eq!(parsed.rule_tree.groups[0].conditions[0].value_end, Some(number(90)));
}

#[test]
fn caps_max_groups() {
    let mut groups = Vec::new();
    for _ in 0..(MAX_GROUPS + 1) {
        groups.push(ConditionGroupInput {
            conditions: vec![input("is_follower", "eq", boolean(true))],
        });
    }
    let body = RuleTreeBody { grant_on_any_relation: false, groups };
    assert!(matches!(parse_rule_tree(body), Err(AppError::BadRequest(_))));
}

#[test]
fn refusals_say_what_is_wrong() {
    let two = |second: ConditionInput| {
        one_input_group(vec![input(" is_follower ", "eq", boolean(true)), second])
    };
    assert_eq!(
        refusal(two(input("followers", "eq", boolean(true)))),
        "Group #1, condition #2: unknown target 'followers'."
    );
    assert_eq!(
        refusal(two(input("is_follower", "is", boolean(true)))),
        "Group #1, condition #2: unknown operator 'is'."
    );
    assert_eq!(
        refusal(two(input("is_follower", "gt", number(0)))),
        "Group #1, condition #2: operator 'gt' is not valid for 'is_follower'."
    );
    assert_eq!(
        refusal(two(input("is_follower", "eq", JsonValue::text("maybe")))),
        "Group #1, condition #2: boolean value required (got \"maybe\")."
    );
    assert_eq!(
        refusal(two(input("sub_tier", "eq", boolean(true)))),
        "Group #1, condition #2: whole-number value required (got true)."
    );
    assert_eq!(
        refusal(two(input("sub_tier", "eq", number(0)))),
        "Group #1, condition #2: sub tier must be 1, 2, or 3."
    );
    assert_eq!(
        refusal(two(input("follow_age_days", "eq", number(-1)))),
        "Group #1, condition #2: days must be 0 or greater."
    );
    assert_eq!(
        refusal(two(input("sub_tier", "between", number(1)))),
        "Group #1, condition #2: \"between\" needs both a min and a max value."
    );
    assert_eq!(
        refusal(RuleTreeBody {
            grant_on_any_relation: false,
            groups: vec![ConditionGroupInput { conditions: vec![] }],
        }),
        "Group #1: add at least one condition (or remove the group)."
    );
    let many = (0..MAX_CONDITIONS_PER_GROUP + 1)
        .map(|_| input("is_follower", "eq", boolean(true)))
        .collect();
    assert_eq!(refusal(one_input_group(many)), "Group #1: at most 8 conditions per group.");
    let objects = JsonValue::object().with("a", JsonValue::array().item(number(1)).item(JsonValue::Null));
    assert_eq!(
        refusal(one_input_group(vec![input("sub_tier", "eq", objects)])),
        "Group #1, condition #1: whole-number value required (got {\"a\":[1,null]})."
    );
}

#[test]
fn conditions_are_accepted_with_just_their_values() {
    let mut range = input(" sub_tier ", "between\t", JsonValue::text(" 1 "));
    range.value_end = Some(number(3));
    let cond = validate_condition(1, 1, &range).ok().unwrap();
    assert_eq!(cond.target, ConditionTarget::SubTier);
    assert_eq!(cond.operator, ConditionOperator::Between);
    assert_eq!((cond.value, cond.value_end), (number(1), Some(number(3))));
    // The end of anything but a range is dropped unread.
    let mut plain = input("sub_tier", "gte", number(2));
    plain.value_end = Some(JsonValue::text("x"));
    assert_eq!(validate_condition(1, 1, &plain).ok().unwrap().value_end, None);
    let open = input("sub_tier", "between", number(2));
    assert!(matches!(
        validate_condition(2, 3, &open),
        Err(AppError::BadRequest(m))
            if m == "Group #2, condition #3: \"between\" needs both a min and a max value."
    ));
}

#[test]
fn refused_numbers_are_shown_as_written() {
    let float = |text: &str| JsonValue::Float { text: text.into(), whole: 0 };
    let shown = |v: JsonValue| refusal(one_input_group(vec![input("is_follower", "eq", v)]));
    let message =
        |v: &str| format!("Group #1, condition #1: boolean value required (got {v}).");
    assert_eq!(shown(float("0.10000000000000005")), message("0.10000000000000005"));
    // So are those within an array.
    let list = JsonValue::array().item(float("0.10000000000000005")).item(number(1));
    assert_eq!(shown(list), message("[0.10000000000000005,1]"));
}

#[test]
fn accepted_rules_are_stable_and_kept() {
    let body = one_input_group(vec![
        input(" is_subscriber", "eq ", JsonValue::text(" YES ")),
        input("sub_tier", "gte", JsonValue::Float { text: "2.75".into(), whole: 2 }),
    ]);
    let tree = parse_rule_tree(body).unwrap().rule_tree;
    assert_eq!(tree.groups[0].conditions[0].value, boolean(true));
    assert_eq!(tree.groups[0].conditions[1].value, number(2));
    let again = parse_rule_tree(one_input_group(vec![
        input("is_subscriber", "eq", boolean(true)),
        input("sub_tier", "gte", number(2)),
    ]))
    .unwrap()
    .rule_tree;
    assert_eq!(again.to_json(), tree.to_json());
    assert_eq!(RuleTree::from_stored(&tree.to_json()).to_json(), tree.to_json());
}

#[test]
fn groups_of_a_granting_payload_are_dropped() {
    let body = RuleTreeBody {
        grant_on_any_relation: true,
        groups: vec![ConditionGroupInput { conditions: vec![input("nonsense", "eq", number(1))] }],
    };
    let tree = parse_rule_tree(body).unwrap().rule_tree;
    assert!(tree.grant_on_any_relation);
    assert!(tree.groups.is_empty());
}
