//! SQL WHERE-clause builder for the bulk sync of a role link.
//!
//! Pushes the same DNF semantics as [`crate::services::condition_eval`] down
//! into Postgres, so that viewers are filtered by the database instead of in
//! memory.
//!
//! The clause refers to one alias that the query around it provides: `ucc`,
//! the cache of viewer facts, LEFT JOINed, so its columns may be NULL. A viewer
//! without a row there is treated as one of whom nothing is known, and a
//! condition that is not well typed is met by nobody.
use vstd::prelude::*;

use crate::json::JsonModel;
use crate::models::condition::{
    Condition, ConditionModel, ConditionOperator, ConditionTarget, TargetKind,
};
use crate::models::rule::{ConditionGroup, RuleModel, RuleTree};
use crate::services::condition_eval::{
    condition_holds, flag_rule, follow_days, group_holds, lemma_one_condition, no_facts,
    number_rule, one_condition, range_rule, rule_holds, rule_matches, rule_of, CacheData,
};
use crate::text::{decimal, decimal_text};
use crate::time::{quotient, Timestamp};

verus! {

/// A value bound to a parameter of the query.
#[derive(Debug, Clone, Copy, PartialEq, Eq, Structural)]
pub enum Bind {
    Bool(bool),
    Int(i64),
}

// ---------------------------------------------------------------------
// The clause as a term
// ---------------------------------------------------------------------

/// A comparison between a target and a bound parameter.
pub enum SqlComparison {
    Eq,
    Neq,
    Gt,
    Gte,
    Lt,
    Lte,
}

/// What one condition becomes. Parameters are named by their number.
pub enum SqlTest {
    /// The target equals the parameter, which is a boolean.
    BoolEq { target: ConditionTarget, param: nat },
    /// The target compares with the parameter, which is an integer.
    Compare { target: ConditionTarget, comparison: SqlComparison, param: nat },
    /// The target lies between the two parameters.
    Range { target: ConditionTarget, low: nat, high: nat },
    /// The parameter is NULL, which no bound value is: no row passes.
    IsNull { param: nat },
    /// Both parameters are NULL, which no bound value is: no row passes.
    BothNull { low: nat, high: nat },
}

/// What a rule becomes.
pub enum SqlClause {
    True,
    False,
    /// One of the groups, in which every test counts. An empty group is false.
    AnyOf(Seq<Seq<SqlTest>>),
}

/// The values that a condition binds, in order: two for a range, else one. A
/// condition that is not well typed binds the ends of an empty range, or a zero
/// that is compared with nothing.
pub open spec fn condition_binds(c: ConditionModel) -> Seq<Bind> {
    if !c.well_typed() {
        if c.operator is Between {
            seq![Bind::Int(1), Bind::Int(0)]
        } else {
            seq![Bind::Int(0)]
        }
    } else {
        match c.value {
            JsonModel::Bool(b) => seq![Bind::Bool(b)],
            value => if c.operator is Between {
                seq![Bind::Int(value->Int_0), Bind::Int(c.end_i64()->0)]
            } else {
                seq![Bind::Int(value->Int_0)]
            },
        }
    }
}

/// The comparison that an operator makes with one parameter.
pub open spec fn comparison_of(operator: ConditionOperator) -> SqlComparison {
    match operator {
        ConditionOperator::Eq => SqlComparison::Eq,
        ConditionOperator::Neq => SqlComparison::Neq,
        ConditionOperator::Gt => SqlComparison::Gt,
        ConditionOperator::Gte => SqlComparison::Gte,
        ConditionOperator::Lt => SqlComparison::Lt,
        ConditionOperator::Lte | ConditionOperator::Between => SqlComparison::Lte,
    }
}

/// The test of a condition whose first parameter has the number `param`. No row
/// passes the test of one that is not well typed.
pub open spec fn condition_test(c: ConditionModel, param: nat) -> SqlTest {
    let target = c.target;
    if target.spec_kind() is Int && c.operator is Between {
        SqlTest::Range { target, low: param, high: param + 1 }
    } else if c.well_typed() {
        if target.spec_kind() is Bool {
            SqlTest::BoolEq { target, param }
        } else {
            SqlTest::Compare { target, comparison: comparison_of(c.operator), param }
        }
    } else if c.operator is Between {
        SqlTest::BothNull { low: param, high: param + 1 }
    } else {
        SqlTest::IsNull { param }
    }
}

pub open spec fn group_binds(group: Seq<ConditionModel>) -> Seq<Bind>
    decreases group.len(),
{
    if group.len() == 0 {
        Seq::empty()
    } else {
        group_binds(group.drop_last()) + condition_binds(group.last())
    }
}

/// The tests of a group whose first parameter has the number `param`.
pub open spec fn group_tests(group: Seq<ConditionModel>, param: nat) -> Seq<SqlTest>
    decreases group.len(),
{
    if group.len() == 0 {
        Seq::empty()
    } else {
        group_tests(group.drop_last(), param).push(
            condition_test(group.last(), param + group_binds(group.drop_last()).len()),
        )
    }
}

/// The values that the groups of a rule bind, in order.
pub open spec fn groups_binds(groups: Seq<Seq<ConditionModel>>) -> Seq<Bind>
    decreases groups.len(),
{
    if groups.len() == 0 {
        Seq::empty()
    } else {
        groups_binds(groups.drop_last()) + group_binds(groups.last())
    }
}

/// The tests of the groups whose first parameter has the number `param`.
pub open spec fn groups_tests(groups: Seq<Seq<ConditionModel>>, param: nat) -> Seq<Seq<SqlTest>>
    decreases groups.len(),
{
    if groups.len() == 0 {
        Seq::empty()
    } else {
        groups_tests(groups.drop_last(), param).push(
            group_tests(groups.last(), param + groups_binds(groups.drop_last()).len()),
        )
    }
}

/// The clause of a rule whose parameters are numbered from `offset + 1` on.
pub open spec fn rule_clause(tree: RuleModel, offset: nat) -> SqlClause {
    if tree.grant_on_any_relation {
        SqlClause::True
    } else if tree.groups.len() == 0 {
        SqlClause::False
    } else {
        SqlClause::AnyOf(groups_tests(tree.groups, offset + 1))
    }
}

/// The values that a rule binds: none where its clause is a constant.
pub open spec fn rule_binds(tree: RuleModel) -> Seq<Bind> {
    if tree.grant_on_any_relation {
        Seq::empty()
    } else {
        groups_binds(tree.groups)
    }
}

// ---------------------------------------------------------------------
// The clause as text
// ---------------------------------------------------------------------

/// The SQL expression for a target. Booleans COALESCE to false and the tier
/// divides a column COALESCEd to 0, so they are never NULL; the follow age is
/// NULL where the follow date is.
pub open spec fn target_sql(target: ConditionTarget) -> Seq<char> {
    match target {
        ConditionTarget::IsFollower => "COALESCE(ucc.is_following, false)"@,
        ConditionTarget::FollowAgeDays =>
            "FLOOR(EXTRACT(EPOCH FROM (now() - ucc.followed_at)) / 86400)"@,
        ConditionTarget::IsSubscriber => "COALESCE(ucc.is_subscribed, false)"@,
        ConditionTarget::SubTier => "(COALESCE(ucc.sub_tier, 0) / 1000)"@,
    }
}

pub open spec fn comparison_sql(comparison: SqlComparison) -> Seq<char> {
    match comparison {
        SqlComparison::Eq => ") = $"@,
        SqlComparison::Neq => ") <> $"@,
        SqlComparison::Gt => ") > $"@,
        SqlComparison::Gte => ") >= $"@,
        SqlComparison::Lt => ") < $"@,
        SqlComparison::Lte => ") <= $"@,
    }
}

pub open spec fn test_sql(test: SqlTest) -> Seq<char> {
    match test {
        SqlTest::BoolEq { target, param } => target_sql(target) + " = $"@ + decimal(param),
        SqlTest::Compare { target, comparison, param } => "("@ + target_sql(target)
            + comparison_sql(comparison) + decimal(param),
        SqlTest::Range { target, low, high } => "(("@ + target_sql(target) + ") >= $"@ + decimal(
            low,
        ) + " AND ("@ + target_sql(target) + ") <= $"@ + decimal(high) + ")"@,
        SqlTest::IsNull { param } => "$"@ + decimal(param) + " IS NULL"@,
        SqlTest::BothNull { low, high } => "($"@ + decimal(low) + " IS NULL AND $"@ + decimal(high)
            + " IS NULL)"@,
    }
}

/// The tests of a group, joined by AND.
pub open spec fn conjunction_sql(tests: Seq<SqlTest>) -> Seq<char>
    decreases tests.len(),
{
    if tests.len() == 0 {
        Seq::empty()
    } else if tests.len() == 1 {
        test_sql(tests[0])
    } else {
        conjunction_sql(tests.drop_last()) + " AND "@ + test_sql(tests.last())
    }
}

pub open spec fn group_sql(tests: Seq<SqlTest>) -> Seq<char> {
    if tests.len() == 0 {
        "FALSE"@
    } else {
        "("@ + conjunction_sql(tests) + ")"@
    }
}

/// The groups of a rule, joined by OR.
pub open spec fn disjunction_sql(groups: Seq<Seq<SqlTest>>) -> Seq<char>
    decreases groups.len(),
{
    if groups.len() == 0 {
        Seq::empty()
    } else if groups.len() == 1 {
        group_sql(groups[0])
    } else {
        disjunction_sql(groups.drop_last()) + " OR "@ + group_sql(groups.last())
    }
}

/// The text of a clause.
pub open spec fn clause_sql(clause: SqlClause) -> Seq<char> {
    match clause {
        SqlClause::True => "TRUE"@,
        SqlClause::False => "FALSE"@,
        SqlClause::AnyOf(groups) => "("@ + disjunction_sql(groups) + ")"@,
    }
}

// ---------------------------------------------------------------------
// The clause as a predicate
// ---------------------------------------------------------------------

/// A row of the query: the columns of the cache, NULL where there is no row.
pub struct SqlRow {
    pub is_following: Option<bool>,
    pub followed_at: Option<Timestamp>,
    pub is_subscribed: Option<bool>,
    pub sub_tier: Option<i32>,
}

/// A value that an expression may take.
pub enum SqlValue {
    Null,
    Bool(bool),
    Int(int),
}

/// The row of a viewer with these facts in the cache.
pub open spec fn row_of(facts: CacheData) -> SqlRow {
    SqlRow {
        is_following: Some(facts.is_following),
        followed_at: facts.followed_at,
        is_subscribed: Some(facts.is_subscribed),
        sub_tier: Some(facts.sub_tier),
    }
}

/// The row of a viewer without an entry in the cache.
pub open spec fn missing_row() -> SqlRow {
    SqlRow { is_following: None, followed_at: None, is_subscribed: None, sub_tier: None }
}

/// The facts that a row stands for: false and 0 for what is NULL.
pub open spec fn row_facts(row: SqlRow) -> CacheData {
    CacheData {
        is_following: row.is_following.unwrap_or(false),
        followed_at: row.followed_at,
        is_subscribed: row.is_subscribed.unwrap_or(false),
        sub_tier: row.sub_tier.unwrap_or(0),
    }
}

/// The days since the follow date, rounded down.
pub open spec fn floor_days(followed_at: Option<Timestamp>, now: Timestamp) -> Option<int> {
    match followed_at {
        Some(t) => Some((now.total_nanos() - t.total_nanos()) / 86_400_000_000_000),
        None => None,
    }
}

/// The value of a target's expression.
pub open spec fn target_value(target: ConditionTarget, row: SqlRow, now: Timestamp) -> SqlValue {
    match target {
        ConditionTarget::IsFollower => SqlValue::Bool(row.is_following.unwrap_or(false)),
        ConditionTarget::IsSubscriber => SqlValue::Bool(row.is_subscribed.unwrap_or(false)),
        ConditionTarget::SubTier => SqlValue::Int(
            quotient(row.sub_tier.unwrap_or(0) as int, 1000),
        ),
        ConditionTarget::FollowAgeDays => match floor_days(row.followed_at, now) {
            Some(d) => SqlValue::Int(d),
            None => SqlValue::Null,
        },
    }
}

/// The truth of a comparison; unknown where a side is NULL. Values of different
/// types are not compared (see [`law_tests_compare_like_with_like`]).
pub open spec fn compare(value: SqlValue, comparison: SqlComparison, bind: Bind) -> Option<bool> {
    match (value, bind) {
        (SqlValue::Int(a), Bind::Int(n)) => Some(
            match comparison {
                SqlComparison::Eq => a == n,
                SqlComparison::Neq => a != n,
                SqlComparison::Gt => a > n,
                SqlComparison::Gte => a >= n,
                SqlComparison::Lt => a < n,
                SqlComparison::Lte => a <= n,
            },
        ),
        (SqlValue::Bool(a), Bind::Bool(b)) => match comparison {
            SqlComparison::Eq => Some(a == b),
            _ => None,
        },
        _ => None,
    }
}

/// Conjunction in SQL: false outweighs unknown, unknown outweighs true.
pub open spec fn sql_and(a: Option<bool>, b: Option<bool>) -> Option<bool> {
    if a == Some(false) || b == Some(false) {
        Some(false)
    } else if a == Some(true) && b == Some(true) {
        Some(true)
    } else {
        None
    }
}

/// Disjunction in SQL: true outweighs unknown, unknown outweighs false.
pub open spec fn sql_or(a: Option<bool>, b: Option<bool>) -> Option<bool> {
    if a == Some(true) || b == Some(true) {
        Some(true)
    } else if a == Some(false) && b == Some(false) {
        Some(false)
    } else {
        None
    }
}

/// The truth of a test, where parameter `p` is bound to `binds[p - first]`.
pub open spec fn test_value(
    test: SqlTest,
    binds: Seq<Bind>,
    first: nat,
    row: SqlRow,
    now: Timestamp,
) -> Option<bool> {
    match test {
        SqlTest::BoolEq { target, param } => compare(
            target_value(target, row, now),
            SqlComparison::Eq,
            binds[param - first],
        ),
        SqlTest::Compare { target, comparison, param } => compare(
            target_value(target, row, now),
            comparison,
            binds[param - first],
        ),
        SqlTest::Range { target, low, high } => sql_and(
            compare(target_value(target, row, now), SqlComparison::Gte, binds[low - first]),
            compare(target_value(target, row, now), SqlComparison::Lte, binds[high - first]),
        ),
        SqlTest::IsNull { .. } | SqlTest::BothNull { .. } => Some(false),
    }
}

pub open spec fn conjunction_value(
    tests: Seq<SqlTest>,
    binds: Seq<Bind>,
    first: nat,
    row: SqlRow,
    now: Timestamp,
) -> Option<bool>
    decreases tests.len(),
{
    if tests.len() == 0 {
        Some(true)
    } else {
        sql_and(
            conjunction_value(tests.drop_last(), binds, first, row, now),
            test_value(tests.last(), binds, first, row, now),
        )
    }
}

pub open spec fn group_value(
    tests: Seq<SqlTest>,
    binds: Seq<Bind>,
    first: nat,
    row: SqlRow,
    now: Timestamp,
) -> Option<bool> {
    if tests.len() == 0 {
        Some(false)
    } else {
        conjunction_value(tests, binds, first, row, now)
    }
}

pub open spec fn disjunction_value(
    groups: Seq<Seq<SqlTest>>,
    binds: Seq<Bind>,
    first: nat,
    row: SqlRow,
    now: Timestamp,
) -> Option<bool>
    decreases groups.len(),
{
    if groups.len() == 0 {
        Some(false)
    } else {
        sql_or(
            disjunction_value(groups.drop_last(), binds, first, row, now),
            group_value(groups.last(), binds, first, row, now),
        )
    }
}

/// The truth of a clause on a row. The query keeps the row where it is true.
pub open spec fn clause_value(
    clause: SqlClause,
    binds: Seq<Bind>,
    offset: nat,
    row: SqlRow,
    now: Timestamp,
) -> Option<bool> {
    match clause {
        SqlClause::True => Some(true),
        SqlClause::False => Some(false),
        SqlClause::AnyOf(groups) => disjunction_value(groups, binds, offset + 1, row, now),
    }
}

// ---------------------------------------------------------------------
// Building the text
// ---------------------------------------------------------------------

/// Returns the clause and the values to bind. Parameters are numbered from
/// `bind_offset + 1` on. An unconfigured rule gives FALSE (match nobody), one
/// that grants on any relation gives TRUE.
pub fn build_rule_where(tree: &RuleTree, bind_offset: usize) -> (r: (String, Vec<Bind>))
    ensures
        r.0@ == clause_sql(rule_clause(tree@, bind_offset as nat)),
        r.1@ == rule_binds(tree@),
{
    if tree.grant_on_any_relation {
        return ("TRUE".to_owned(), Vec::new());
    }
    if tree.groups.len() == 0 {
        assert(tree@.groups =~= Seq::empty());
        return ("FALSE".to_owned(), Vec::new());
    }
    let ghost all = tree@.groups;
    let ghost first: nat = (bind_offset + 1) as nat;
    let mut binds: Vec<Bind> = Vec::new();
    let mut groups_text = String::new();
    let mut i: usize = 0;
    while i < tree.groups.len()
        invariant
            i <= tree.groups@.len(),
            all == tree@.groups,
            all.len() == tree.groups@.len(),
            first == bind_offset + 1,
            binds@ == groups_binds(all.take(i as int)),
            groups_text@ == disjunction_sql(groups_tests(all.take(i as int), first)),
        decreases tree.groups@.len() - i,
    {
        let ghost before = all.take(i as int);
        let ghost after = all.take(i + 1);
        proof {
            assert(after.drop_last() =~= before);
            assert(after.last() == tree.groups@[i as int]@);
            lemma_tests_len(before, first);
            lemma_tests_len(after, first);
            assert(groups_tests(after, first).drop_last() =~= groups_tests(before, first));
        }
        if i > 0 {
            groups_text.append(" OR ");
        }
        let group_text = build_group(&tree.groups[i], bind_offset, &mut binds);
        groups_text.append(group_text.as_str());
        proof {
            if i == 0 {
                assert(before =~= Seq::empty());
                assert(groups_text@ =~= group_text@);
            }
        }
        i = i + 1;
    }
    assert(all.take(i as int) =~= all);
    let mut out = "(".to_owned();
    out.append(groups_text.as_str());
    out.append(")");
    (out, binds)
}

fn build_group(group: &ConditionGroup, bind_offset: usize, binds: &mut Vec<Bind>) -> (r: String)
    ensures
        r@ == group_sql(group_tests(group@, (bind_offset + old(binds)@.len() + 1) as nat)),
        final(binds)@ == old(binds)@ + group_binds(group@),
{
    let ghost all = group@;
    let ghost first: nat = (bind_offset + old(binds)@.len() + 1) as nat;
    let ghost earlier = old(binds)@;
    if group.conditions.len() == 0 {
        assert(all =~= Seq::empty());
        assert(binds@ + group_binds(all) =~= binds@);
        return "FALSE".to_owned();
    }
    let mut tests_text = String::new();
    let mut j: usize = 0;
    assert(earlier + group_binds(all.take(0)) =~= earlier);
    while j < group.conditions.len()
        invariant
            j <= group.conditions@.len(),
            all == group@,
            all.len() == group.conditions@.len(),
            first == bind_offset + earlier.len() + 1,
            binds@ == earlier + group_binds(all.take(j as int)),
            tests_text@ == conjunction_sql(group_tests(all.take(j as int), first)),
        decreases group.conditions@.len() - j,
    {
        let ghost before = all.take(j as int);
        let ghost after = all.take(j + 1);
        proof {
            assert(after.drop_last() =~= before);
            assert(after.last() == group.conditions@[j as int]@);
            lemma_group_tests_len(before, first);
            lemma_group_tests_len(after, first);
            assert(group_tests(after, first).drop_last() =~= group_tests(before, first));
        }
        if j > 0 {
            tests_text.append(" AND ");
        }
        let test_text = build_condition(&group.conditions[j], bind_offset, binds);
        tests_text.append(test_text.as_str());
        proof {
            if j == 0 {
                assert(before =~= Seq::empty());
                assert(tests_text@ =~= test_text@);
            }
            assert(earlier + group_binds(before) + condition_binds(after.last()) =~= earlier
                + group_binds(after));
        }
        j = j + 1;
    }
    assert(all.take(j as int) =~= all);
    proof {
        lemma_group_tests_len(all, first);
    }
    let mut out = "(".to_owned();
    out.append(tests_text.as_str());
    out.append(")");
    out
}

/// The SQL expression for a target.
pub fn target_expr(target: ConditionTarget) -> (r: &'static str)
    ensures
        r@ == target_sql(target),
{
    match target {
        ConditionTarget::IsFollower => "COALESCE(ucc.is_following, false)",
        ConditionTarget::FollowAgeDays =>
            "FLOOR(EXTRACT(EPOCH FROM (now() - ucc.followed_at)) / 86400)",
        ConditionTarget::IsSubscriber => "COALESCE(ucc.is_subscribed, false)",
        ConditionTarget::SubTier => "(COALESCE(ucc.sub_tier, 0) / 1000)",
    }
}

fn comparison_text(target: ConditionTarget, comparison: &str, param: u128) -> (r: String)
    ensures
        r@ == "("@ + target_sql(target) + comparison@ + decimal(param as nat),
{
    let mut out = "(".to_owned();
    out.append(target_expr(target));
    out.append(comparison);
    out.append(decimal_text(param).as_str());
    out
}

fn range_text(target: ConditionTarget, param: u128) -> (r: String)
    requires
        param < u128::MAX,
    ensures
        r@ == test_sql(SqlTest::Range { target, low: param as nat, high: (param + 1) as nat }),
{
    let mut out = "((".to_owned();
    out.append(target_expr(target));
    out.append(") >= $");
    out.append(decimal_text(param).as_str());
    out.append(" AND (");
    out.append(target_expr(target));
    out.append(") <= $");
    out.append(decimal_text(param + 1).as_str());
    out.append(")");
    out
}

/// A test that no row passes, for a condition that does not fit its target.
fn never_text(range: bool, param: u128) -> (r: String)
    requires
        param < u128::MAX,
    ensures
        r@ == test_sql(
            if range {
                SqlTest::BothNull { low: param as nat, high: (param + 1) as nat }
            } else {
                SqlTest::IsNull { param: param as nat }
            },
        ),
{
    if range {
        let mut out = "($".to_owned();
        out.append(decimal_text(param).as_str());
        out.append(" IS NULL AND $");
        out.append(decimal_text(param + 1).as_str());
        out.append(" IS NULL)");
        out
    } else {
        let mut out = "$".to_owned();
        out.append(decimal_text(param).as_str());
        out.append(" IS NULL");
        out
    }
}

fn build_condition(c: &Condition, bind_offset: usize, binds: &mut Vec<Bind>) -> (r: String)
    ensures
        r@ == test_sql(condition_test(c@, (bind_offset + old(binds)@.len() + 1) as nat)),
        final(binds)@ == old(binds)@ + condition_binds(c@),
{
    let ghost earlier = old(binds)@;
    let param: u128 = bind_offset as u128 + binds.len() as u128 + 1;
    let value = c.value.as_i64();
    let numeric = matches!(c.target.kind(), TargetKind::Int);
    if matches!(c.operator, ConditionOperator::Between) {
        let end = match &c.value_end {
            Some(v) => v.as_i64(),
            None => None,
        };
        let (low, high): (i64, i64) = match (value, end) {
            (Some(low), Some(high)) if numeric => (low, high),
            _ => (1, 0),
        };
        binds.push(Bind::Int(low));
        binds.push(Bind::Int(high));
        assert(binds@ =~= earlier + condition_binds(c@));
        return if numeric {
            range_text(c.target, param)
        } else {
            never_text(true, param)
        };
    }
    if numeric {
        let n: i64 = match value {
            Some(n) => n,
            None => {
                binds.push(Bind::Int(0));
                assert(binds@ =~= earlier + condition_binds(c@));
                return never_text(false, param);
            },
        };
        binds.push(Bind::Int(n));
        assert(binds@ =~= earlier + condition_binds(c@));
        match c.operator {
            ConditionOperator::Eq => comparison_text(c.target, ") = $", param),
            // Plain <>, so that a NULL follow age is not matched.
            ConditionOperator::Neq => comparison_text(c.target, ") <> $", param),
            ConditionOperator::Gt => comparison_text(c.target, ") > $", param),
            ConditionOperator::Gte => comparison_text(c.target, ") >= $", param),
            ConditionOperator::Lt => comparison_text(c.target, ") < $", param),
            _ => comparison_text(c.target, ") <= $", param),
        }
    } else {
        match c.value.as_bool() {
            Some(b) if matches!(c.operator, ConditionOperator::Eq) => {
                binds.push(Bind::Bool(b));
                assert(binds@ =~= earlier + condition_binds(c@));
                let mut out = target_expr(c.target).to_owned();
                out.append(" = $");
                out.append(decimal_text(param).as_str());
                out
            },
            _ => {
                binds.push(Bind::Int(0));
                assert(binds@ =~= earlier + condition_binds(c@));
                never_text(false, param)
            },
        }
    }
}

proof fn lemma_group_tests_len(group: Seq<ConditionModel>, param: nat)
    ensures
        group_tests(group, param).len() == group.len(),
    decreases group.len(),
{
    if group.len() > 0 {
        lemma_group_tests_len(group.drop_last(), param);
    }
}

proof fn lemma_tests_len(groups: Seq<Seq<ConditionModel>>, param: nat)
    ensures
        groups_tests(groups, param).len() == groups.len(),
    decreases groups.len(),
{
    if groups.len() > 0 {
        lemma_tests_len(groups.drop_last(), param);
    }
}

// ---------------------------------------------------------------------
// Agreement with the evaluation in memory
// ---------------------------------------------------------------------

/// A condition whose parameters start at `param` is true of a row exactly when
/// it holds of the row's facts.
proof fn lemma_condition_agrees(
    c: ConditionModel,
    param: nat,
    binds: Seq<Bind>,
    first: nat,
    row: SqlRow,
    now: Timestamp,
)
    requires
        first <= param,
        param - first + condition_binds(c).len() <= binds.len(),
        binds.subrange(param - first, param - first + condition_binds(c).len()) == condition_binds(
            c,
        ),
    ensures
        (test_value(condition_test(c, param), binds, first, row, now) == Some(true))
            == condition_holds(c, row_facts(row), floor_days(row.followed_at, now)),
{
    let own = condition_binds(c);
    let at = param - first;
    let part = binds.subrange(at, at + own.len());
    assert(part[0] == binds[at]);
    assert(own[0] == binds[at]);
    if c.operator is Between {
        assert(part[1] == binds[at + 1]);
        assert(own[1] == binds[at + 1]);
    }
}

proof fn lemma_group_agrees(
    group: Seq<ConditionModel>,
    param: nat,
    binds: Seq<Bind>,
    first: nat,
    row: SqlRow,
    now: Timestamp,
)
    requires
        first <= param,
        param - first + group_binds(group).len() <= binds.len(),
        binds.subrange(param - first, param - first + group_binds(group).len()) == group_binds(
            group,
        ),
    ensures
        (conjunction_value(group_tests(group, param), binds, first, row, now) == Some(true)) == (
        forall|j: int|
            0 <= j < group.len() ==> condition_holds(
                #[trigger] group[j],
                row_facts(row),
                floor_days(row.followed_at, now),
            )),
    decreases group.len(),
{
    if group.len() > 0 {
        let rest = group.drop_last();
        let at = param - first;
        let whole = binds.subrange(at, at + group_binds(group).len());
        let split = group_binds(rest).len() as int;
        assert(binds.subrange(at, at + split) =~= whole.subrange(0, split));
        assert(whole.subrange(0, split) =~= group_binds(rest));
        assert(binds.subrange(
            at + split,
            at + split + condition_binds(group.last()).len(),
        ) =~= whole.subrange(split, split + condition_binds(group.last()).len()));
        assert(whole.subrange(split, split + condition_binds(group.last()).len())
            =~= condition_binds(group.last()));
        lemma_group_agrees(rest, param, binds, first, row, now);
        lemma_condition_agrees(group.last(), (param + split) as nat, binds, first, row, now);
        let tests = group_tests(group, param);
        assert(tests.drop_last() =~= group_tests(rest, param));
        assert(forall|j: int| 0 <= j < rest.len() ==> rest[j] == #[trigger] group[j]);
        let facts = row_facts(row);
        let days = floor_days(row.followed_at, now);
        if conjunction_value(tests, binds, first, row, now) == Some(true) {
            assert forall|j: int| 0 <= j < group.len() implies condition_holds(
                #[trigger] group[j],
                facts,
                days,
            ) by {
                if j < rest.len() {
                    assert(condition_holds(rest[j], facts, days));
                }
            }
        }
        if forall|j: int|
            0 <= j < group.len() ==> condition_holds(#[trigger] group[j], facts, days) {
            assert forall|j: int| 0 <= j < rest.len() implies condition_holds(
                #[trigger] rest[j],
                facts,
                days,
            ) by {
                assert(condition_holds(group[j], facts, days));
            }
            assert(condition_holds(group[group.len() - 1], facts, days));
        }
    }
}

proof fn lemma_groups_agree(
    groups: Seq<Seq<ConditionModel>>,
    binds: Seq<Bind>,
    first: nat,
    row: SqlRow,
    now: Timestamp,
)
    requires
        groups_binds(groups).is_prefix_of(binds),
    ensures
        (disjunction_value(groups_tests(groups, first), binds, first, row, now) == Some(true)) == (
        exists|i: int|
            0 <= i < groups.len() && group_holds(
                #[trigger] groups[i],
                row_facts(row),
                floor_days(row.followed_at, now),
            )),
    decreases groups.len(),
{
    if groups.len() > 0 {
        let rest = groups.drop_last();
        let last = groups.last();
        let split = groups_binds(rest).len() as int;
        assert(groups_binds(rest).is_prefix_of(binds));
        lemma_groups_agree(rest, binds, first, row, now);
        let whole = groups_binds(groups);
        let own = group_binds(last);
        assert forall|k: int| 0 <= k < own.len() implies binds.subrange(split, split + own.len())[k]
            == own[k] by {
            assert(binds.subrange(0, whole.len() as int)[split + k] == whole[split + k]);
        }
        assert(binds.subrange(split, split + own.len()) =~= own);
        lemma_group_agrees(last, (first + split) as nat, binds, first, row, now);
        lemma_group_tests_len(last, (first + split) as nat);
        let tests = groups_tests(groups, first);
        assert(tests.drop_last() =~= groups_tests(rest, first));
        let facts = row_facts(row);
        let days = floor_days(row.followed_at, now);
        if exists|i: int| 0 <= i < groups.len() && group_holds(#[trigger] groups[i], facts, days) {
            let i = choose|i: int|
                0 <= i < groups.len() && group_holds(#[trigger] groups[i], facts, days);
            if i < rest.len() {
                assert(group_holds(rest[i], facts, days));
            }
        }
        if disjunction_value(tests, binds, first, row, now) == Some(true) {
            if group_value(tests.last(), binds, first, row, now) == Some(true) {
                assert(group_holds(groups[groups.len() - 1], facts, days));
            } else {
                let i = choose|i: int|
                    0 <= i < rest.len() && group_holds(#[trigger] rest[i], facts, days);
                assert(group_holds(groups[i], facts, days));
            }
        }
    }
}

/// Booleans are only compared with booleans and integers with integers, so the
/// clause of a rule is one that the database takes.
pub proof fn law_tests_compare_like_with_like(c: ConditionModel, param: nat)
    ensures
        match condition_test(c, param) {
            SqlTest::BoolEq { target, .. } => target.spec_kind() is Bool && condition_binds(c).len()
                == 1 && condition_binds(c)[0] is Bool,
            SqlTest::Compare { target, .. } => target.spec_kind() is Int && condition_binds(c).len()
                == 1 && condition_binds(c)[0] is Int,
            SqlTest::Range { target, .. } => target.spec_kind() is Int && condition_binds(c).len()
                == 2 && condition_binds(c)[0] is Int && condition_binds(c)[1] is Int,
            SqlTest::IsNull { .. } => condition_binds(c).len() == 1,
            SqlTest::BothNull { .. } => condition_binds(c).len() == 2,
        },
{
}

/// Two conditions differ in nothing but their values. A truth value and a number
/// are of different kinds.
pub open spec fn same_shape(a: ConditionModel, b: ConditionModel) -> bool {
    &&& a.target == b.target
    &&& a.operator == b.operator
    &&& a.value is Bool == b.value is Bool
    &&& a.value is Int == b.value is Int
}

/// Two groups differ in nothing but the values of their conditions.
pub open spec fn same_group_shape(a: Seq<ConditionModel>, b: Seq<ConditionModel>) -> bool {
    &&& a.len() == b.len()
    &&& forall|j: int| 0 <= j < a.len() ==> same_shape(#[trigger] a[j], b[j])
}

proof fn lemma_same_group_tests(a: Seq<ConditionModel>, b: Seq<ConditionModel>, param: nat)
    requires
        same_group_shape(a, b),
    ensures
        group_tests(a, param) == group_tests(b, param),
        group_binds(a).len() == group_binds(b).len(),
    decreases a.len(),
{
    if a.len() > 0 {
        assert(same_shape(a[a.len() - 1], b[b.len() - 1]));
        assert forall|j: int| 0 <= j < a.drop_last().len() implies same_shape(
            #[trigger] a.drop_last()[j],
            b.drop_last()[j],
        ) by {
            assert(same_shape(a[j], b[j]));
        }
        lemma_same_group_tests(a.drop_last(), b.drop_last(), param);
    }
}

proof fn lemma_same_tests(a: Seq<Seq<ConditionModel>>, b: Seq<Seq<ConditionModel>>, param: nat)
    requires
        a.len() == b.len(),
        forall|i: int| 0 <= i < a.len() ==> same_group_shape(#[trigger] a[i], b[i]),
    ensures
        groups_tests(a, param) == groups_tests(b, param),
        groups_binds(a).len() == groups_binds(b).len(),
    decreases a.len(),
{
    if a.len() > 0 {
        assert(same_group_shape(a[a.len() - 1], b[b.len() - 1]));
        assert forall|i: int| 0 <= i < a.drop_last().len() implies same_group_shape(
            #[trigger] a.drop_last()[i],
            b.drop_last()[i],
        ) by {
            assert(same_group_shape(a[i], b[i]));
        }
        lemma_same_tests(a.drop_last(), b.drop_last(), param);
        lemma_same_group_tests(
            a.last(),
            b.last(),
            param + groups_binds(a.drop_last()).len(),
        );
    }
}

/// No value of a rule reaches the text of its clause: rules that differ in
/// nothing but their values, kind for kind, have the same clause and bind as many
/// values.
pub proof fn law_values_stay_out_of_the_text(a: RuleModel, b: RuleModel, offset: nat)
    requires
        a.grant_on_any_relation == b.grant_on_any_relation,
        a.groups.len() == b.groups.len(),
        forall|i: int| 0 <= i < a.groups.len() ==> same_group_shape(#[trigger] a.groups[i], b.groups[i]),
    ensures
        clause_sql(rule_clause(a, offset)) == clause_sql(rule_clause(b, offset)),
        rule_binds(a).len() == rule_binds(b).len(),
{
    lemma_same_tests(a.groups, b.groups, offset + 1);
}

/// The query keeps a row exactly when the row's facts meet the rule, the
/// follow age taken in days rounded down.
pub proof fn law_clause_selects_rule(tree: RuleModel, offset: nat, row: SqlRow, now: Timestamp)
    ensures
        (clause_value(rule_clause(tree, offset), rule_binds(tree), offset, row, now) == Some(true))
            == rule_holds(tree, row_facts(row), floor_days(row.followed_at, now)),
{
    if !tree.grant_on_any_relation {
        lemma_groups_agree(tree.groups, groups_binds(tree.groups), offset + 1, row, now);
    }
}

/// The query and the evaluation in memory agree on every rule and every row,
/// outside of leap seconds, which the database does not know.
pub proof fn law_clause_agrees_with_evaluation(
    tree: RuleModel,
    offset: nat,
    row: SqlRow,
    now: Timestamp,
)
    requires
        now.is_plain(),
        row.followed_at matches Some(t) ==> t.is_plain(),
    ensures
        (clause_value(rule_clause(tree, offset), rule_binds(tree), offset, row, now) == Some(true))
            == rule_matches(tree, row_facts(row), now),
{
    law_clause_selects_rule(tree, offset, row, now);
    assert(floor_days(row.followed_at, now) == follow_days(row_facts(row), now));
}

/// A viewer without a row in the cache is treated as one of whom nothing is
/// known.
pub proof fn law_missing_row_is_no_facts(tree: RuleModel, offset: nat, now: Timestamp)
    ensures
        row_facts(missing_row()) == no_facts(),
        (clause_value(rule_clause(tree, offset), rule_binds(tree), offset, missing_row(), now)
            == Some(true)) == rule_holds(tree, no_facts(), None),
{
    law_clause_selects_rule(tree, offset, missing_row(), now);
}

/// The facts of a cached row are the facts it was made of.
pub proof fn law_row_keeps_facts(facts: CacheData)
    ensures
        row_facts(row_of(facts)) == facts,
{
}

/// An unconfigured rule selects no row, whatever is bound.
pub proof fn law_unconfigured_selects_nobody(
    tree: RuleModel,
    offset: nat,
    binds: Seq<Bind>,
    row: SqlRow,
    now: Timestamp,
)
    requires
        tree.is_unconfigured(),
    ensures
        clause_value(rule_clause(tree, offset), binds, offset, row, now) == Some(false),
{
}

// ---------------------------------------------------------------------
// What the text says
// ---------------------------------------------------------------------

/// The text of a rule's clause.
pub open spec fn rule_text(tree: RuleModel, offset: nat) -> Seq<char> {
    clause_sql(rule_clause(tree, offset))
}

/// The query keeps the row.
pub open spec fn keeps(tree: RuleModel, offset: nat, row: SqlRow, now: Timestamp) -> bool {
    clause_value(rule_clause(tree, offset), rule_binds(tree), offset, row, now) == Some(true)
}

proof fn lemma_text_of_one(c: ConditionModel, offset: nat)
    ensures
        rule_text(one_condition(c), offset) == "("@ + ("("@ + test_sql(condition_test(c, offset + 1))
            + ")"@) + ")"@,
        rule_binds(one_condition(c)) == condition_binds(c),
{
    let group = seq![c];
    let groups = seq![group];
    let p = offset + 1;
    assert(groups.drop_last() =~= Seq::empty());
    assert(group.drop_last() =~= Seq::empty());
    assert(groups.last() == group && group.last() == c);
    reveal_with_fuel(group_tests, 2);
    reveal_with_fuel(groups_tests, 2);
    reveal_with_fuel(group_binds, 2);
    reveal_with_fuel(groups_binds, 2);
    assert(group_binds(group) =~= condition_binds(c));
    assert(groups_binds(groups) =~= condition_binds(c));
    assert(group_tests(group, p) =~= seq![condition_test(c, p)]);
    assert(groups_tests(groups, p) =~= seq![group_tests(group, p)]);
}

/// The text of a condition on the tier has the sign of its own operator between
/// the tier's expression and the parameter, the parameter is bound to the number
/// of the condition, and the query keeps the rows whose tier is in that relation
/// to the number.
#[verifier::spinoff_prover]
pub proof fn law_tier_clauses_say_what_they_keep(
    n: i64,
    high: i64,
    offset: nat,
    row: SqlRow,
    tier: int,
    now: Timestamp,
)
    requires
        0 <= tier,
        row.sub_tier matches Some(raw) && 1000 * tier <= raw < 1000 * (tier + 1),
    ensures
        ({
            let left = "((((COALESCE(ucc.sub_tier, 0) / 1000)) "@;
            let end = decimal(offset + 1) + "))"@;
            let eq = number_rule(ConditionTarget::SubTier, ConditionOperator::Eq, n);
            let neq = number_rule(ConditionTarget::SubTier, ConditionOperator::Neq, n);
            let gt = number_rule(ConditionTarget::SubTier, ConditionOperator::Gt, n);
            let gte = number_rule(ConditionTarget::SubTier, ConditionOperator::Gte, n);
            let lt = number_rule(ConditionTarget::SubTier, ConditionOperator::Lt, n);
            let lte = number_rule(ConditionTarget::SubTier, ConditionOperator::Lte, n);
            let range = range_rule(ConditionTarget::SubTier, n, high);
            &&& rule_text(eq, offset) == left + "= $"@ + end
            &&& keeps(eq, offset, row, now) == (tier == n)
            &&& rule_text(neq, offset) == left + "<> $"@ + end
            &&& keeps(neq, offset, row, now) == (tier != n)
            &&& rule_text(gt, offset) == left + "> $"@ + end
            &&& keeps(gt, offset, row, now) == (tier > n)
            &&& rule_text(gte, offset) == left + ">= $"@ + end
            &&& keeps(gte, offset, row, now) == (tier >= n)
            &&& rule_text(lt, offset) == left + "< $"@ + end
            &&& keeps(lt, offset, row, now) == (tier < n)
            &&& rule_text(lte, offset) == left + "<= $"@ + end
            &&& keeps(lte, offset, row, now) == (tier <= n)
            &&& rule_binds(eq) == seq![Bind::Int(n)]
            &&& rule_binds(neq) == seq![Bind::Int(n)]
            &&& rule_binds(gt) == seq![Bind::Int(n)]
            &&& rule_binds(gte) == seq![Bind::Int(n)]
            &&& rule_binds(lt) == seq![Bind::Int(n)]
            &&& rule_binds(lte) == seq![Bind::Int(n)]
            &&& rule_text(range, offset) == "(((((COALESCE(ucc.sub_tier, 0) / 1000)) >= $"@
                + decimal(offset + 1) + " AND ((COALESCE(ucc.sub_tier, 0) / 1000)) <= $"@ + decimal(
                offset + 2,
            ) + ")))"@
            &&& keeps(range, offset, row, now) == (n <= tier <= high)
            &&& rule_binds(range) == seq![Bind::Int(n), Bind::Int(high)]
        }),
{
    let t = ConditionTarget::SubTier;
    lemma_tier_literals();
    lemma_number_texts(t, n, offset);
    lemma_range_text(t, n, high, offset);
    lemma_kept_numbers(t, n, high, offset, row, now);
    assert(tier == quotient(row.sub_tier->0 as int, 1000));
}

/// The text of a condition on the follow age has the sign of its own operator
/// between the age's expression and the parameter, the parameter is bound to the
/// number of the condition, and the query keeps the rows whose age in whole days
/// is in that relation to the number.
#[verifier::spinoff_prover]
pub proof fn law_age_clauses_say_what_they_keep(
    n: i64,
    high: i64,
    offset: nat,
    row: SqlRow,
    followed: Timestamp,
    days: int,
    now: Timestamp,
)
    requires
        row.followed_at == Some(followed),
        ({
            let elapsed = (now.secs - followed.secs) * 1_000_000_000 + (now.nanos - followed.nanos);
            days * 86_400_000_000_000 <= elapsed < (days + 1) * 86_400_000_000_000
        }),
    ensures
        ({
            let left = "(((FLOOR(EXTRACT(EPOCH FROM (now() - ucc.followed_at)) / 86400)) "@;
            let end = decimal(offset + 1) + "))"@;
            let eq = number_rule(ConditionTarget::FollowAgeDays, ConditionOperator::Eq, n);
            let neq = number_rule(ConditionTarget::FollowAgeDays, ConditionOperator::Neq, n);
            let gt = number_rule(ConditionTarget::FollowAgeDays, ConditionOperator::Gt, n);
            let gte = number_rule(ConditionTarget::FollowAgeDays, ConditionOperator::Gte, n);
            let lt = number_rule(ConditionTarget::FollowAgeDays, ConditionOperator::Lt, n);
            let lte = number_rule(ConditionTarget::FollowAgeDays, ConditionOperator::Lte, n);
            let range = range_rule(ConditionTarget::FollowAgeDays, n, high);
            &&& rule_text(eq, offset) == left + "= $"@ + end
            &&& keeps(eq, offset, row, now) == (days == n)
            &&& rule_text(neq, offset) == left + "<> $"@ + end
            &&& keeps(neq, offset, row, now) == (days != n)
            &&& rule_text(gt, offset) == left + "> $"@ + end
            &&& keeps(gt, offset, row, now) == (days > n)
            &&& rule_text(gte, offset) == left + ">= $"@ + end
            &&& keeps(gte, offset, row, now) == (days >= n)
            &&& rule_text(lt, offset) == left + "< $"@ + end
            &&& keeps(lt, offset, row, now) == (days < n)
            &&& rule_text(lte, offset) == left + "<= $"@ + end
            &&& keeps(lte, offset, row, now) == (days <= n)
            &&& rule_binds(eq) == seq![Bind::Int(n)]
            &&& rule_binds(neq) == seq![Bind::Int(n)]
            &&& rule_binds(gt) == seq![Bind::Int(n)]
            &&& rule_binds(gte) == seq![Bind::Int(n)]
            &&& rule_binds(lt) == seq![Bind::Int(n)]
            &&& rule_binds(lte) == seq![Bind::Int(n)]
            &&& rule_text(range, offset)
                == "((((FLOOR(EXTRACT(EPOCH FROM (now() - ucc.followed_at)) / 86400)) >= $"@
                + decimal(offset + 1)
                + " AND (FLOOR(EXTRACT(EPOCH FROM (now() - ucc.followed_at)) / 86400)) <= $"@
                + decimal(offset + 2) + ")))"@
            &&& keeps(range, offset, row, now) == (n <= days <= high)
            &&& rule_binds(range) == seq![Bind::Int(n), Bind::Int(high)]
        }),
{
    let t = ConditionTarget::FollowAgeDays;
    lemma_age_literals();
    lemma_number_texts(t, n, offset);
    lemma_range_text(t, n, high, offset);
    lemma_kept_numbers(t, n, high, offset, row, now);
    assert(floor_days(row.followed_at, now) == Some(days));
}

proof fn lemma_tier_literals()
    ensures
        "((((COALESCE(ucc.sub_tier, 0) / 1000)) "@ == "((("@ + target_sql(ConditionTarget::SubTier) + ") "@,
        "(((((COALESCE(ucc.sub_tier, 0) / 1000)) >= $"@ == "(((("@ + target_sql(ConditionTarget::SubTier) + ") >= $"@,
        " AND ((COALESCE(ucc.sub_tier, 0) / 1000)) <= $"@ == " AND ("@ + target_sql(ConditionTarget::SubTier) + ") <= $"@,
{
    let expr = "(COALESCE(ucc.sub_tier, 0) / 1000)"@;
    reveal_strlit("((((COALESCE(ucc.sub_tier, 0) / 1000)) ");
    reveal_strlit("(((((COALESCE(ucc.sub_tier, 0) / 1000)) >= $");
    reveal_strlit(" AND ((COALESCE(ucc.sub_tier, 0) / 1000)) <= $");
    reveal_strlit("(COALESCE(ucc.sub_tier, 0) / 1000)");
    reveal_strlit("(((");
    reveal_strlit("((((");
    reveal_strlit(") ");
    reveal_strlit(") >= $");
    reveal_strlit(" AND (");
    reveal_strlit(") <= $");
    assert("((((COALESCE(ucc.sub_tier, 0) / 1000)) "@ =~= "((("@ + expr + ") "@);
    assert("(((((COALESCE(ucc.sub_tier, 0) / 1000)) >= $"@ =~= "(((("@ + expr + ") >= $"@);
    assert(" AND ((COALESCE(ucc.sub_tier, 0) / 1000)) <= $"@ =~= " AND ("@ + expr + ") <= $"@);
}

proof fn lemma_age_literals()
    ensures
        "(((FLOOR(EXTRACT(EPOCH FROM (now() - ucc.followed_at)) / 86400)) "@ == "((("@ + target_sql(ConditionTarget::FollowAgeDays) + ") "@,
        "((((FLOOR(EXTRACT(EPOCH FROM (now() - ucc.followed_at)) / 86400)) >= $"@ == "(((("@ + target_sql(ConditionTarget::FollowAgeDays) + ") >= $"@,
        " AND (FLOOR(EXTRACT(EPOCH FROM (now() - ucc.followed_at)) / 86400)) <= $"@ == " AND ("@ + target_sql(ConditionTarget::FollowAgeDays) + ") <= $"@,
{
    let expr = "FLOOR(EXTRACT(EPOCH FROM (now() - ucc.followed_at)) / 86400)"@;
    reveal_strlit("(((FLOOR(EXTRACT(EPOCH FROM (now() - ucc.followed_at)) / 86400)) ");
    reveal_strlit("((((FLOOR(EXTRACT(EPOCH FROM (now() - ucc.followed_at)) / 86400)) >= $");
    reveal_strlit(" AND (FLOOR(EXTRACT(EPOCH FROM (now() - ucc.followed_at)) / 86400)) <= $");
    reveal_strlit("FLOOR(EXTRACT(EPOCH FROM (now() - ucc.followed_at)) / 86400)");
    reveal_strlit("(((");
    reveal_strlit("((((");
    reveal_strlit(") ");
    reveal_strlit(") >= $");
    reveal_strlit(" AND (");
    reveal_strlit(") <= $");
    assert("(((FLOOR(EXTRACT(EPOCH FROM (now() - ucc.followed_at)) / 86400)) "@ =~= "((("@ + expr + ") "@);
    assert("((((FLOOR(EXTRACT(EPOCH FROM (now() - ucc.followed_at)) / 86400)) >= $"@ =~= "(((("@ + expr + ") >= $"@);
    assert(" AND (FLOOR(EXTRACT(EPOCH FROM (now() - ucc.followed_at)) / 86400)) <= $"@ =~= " AND ("@ + expr + ") <= $"@);
}

proof fn lemma_add_associates(a: Seq<char>, b: Seq<char>, c: Seq<char>)
    ensures
        a + (b + c) == (a + b) + c,
{
    assert(a + (b + c) =~= (a + b) + c);
}

/// Two brackets around what begins with a third one.
proof fn lemma_brackets(open: Seq<char>, e: Seq<char>, rest: Seq<char>, close: Seq<char>)
    ensures
        open + (open + ((open + e) + rest) + close) + close == ((open + open + open) + e) + (rest + (
        close + close)),
{
    lemma_add_associates(open, (open + ((open + e) + rest)), close);
    lemma_add_associates(open, open, (open + e) + rest);
    lemma_add_associates(open + open, open + e, rest);
    lemma_add_associates(open + open, open, e);
    let whole = ((open + open + open) + e) + rest;
    assert(open + (open + ((open + e) + rest)) == whole);
    lemma_add_associates(whole, close, close);
    lemma_add_associates((open + open + open) + e, rest, close + close);
}

proof fn lemma_number_text(
    target: ConditionTarget,
    operator: ConditionOperator,
    sign: Seq<char>,
    n: i64,
    offset: nat,
)
    requires
        target.spec_kind() is Int,
        !(operator is Between),
        comparison_sql(comparison_of(operator)) == ") "@ + sign,
    ensures
        rule_text(number_rule(target, operator, n), offset) == "((("@ + target_sql(target) + ") "@
            + sign + (decimal(offset + 1) + "))"@),
        rule_binds(number_rule(target, operator, n)) == seq![Bind::Int(n)],
{
    let open = "("@;
    let close = ")"@;
    let e = target_sql(target);
    let p = decimal(offset + 1);
    assert("((("@ == open + open + open && "))"@ == close + close) by {
        reveal_strlit("(");
        reveal_strlit(")");
        reveal_strlit("))");
        reveal_strlit("(((");
        assert("((("@ =~= open + open + open);
        assert("))"@ =~= close + close);
    }
    lemma_text_of_one(number_rule(target, operator, n).groups[0][0], offset);
    let compared = ") "@ + sign;
    lemma_add_associates(open + e, compared, p);
    lemma_brackets(open, e, compared + p, close);
    lemma_add_associates(compared, p, close + close);
    lemma_add_associates("((("@ + e, compared, p + (close + close));
    lemma_add_associates("((("@ + e, ") "@, sign);
}

proof fn lemma_number_texts(target: ConditionTarget, n: i64, offset: nat)
    requires
        target.spec_kind() is Int,
    ensures
        ({
            let left = "((("@ + target_sql(target) + ") "@;
            let end = decimal(offset + 1) + "))"@;
            &&& rule_text(number_rule(target, ConditionOperator::Eq, n), offset) == left + "= $"@
                + end
            &&& rule_text(number_rule(target, ConditionOperator::Neq, n), offset) == left + "<> $"@
                + end
            &&& rule_text(number_rule(target, ConditionOperator::Gt, n), offset) == left + "> $"@
                + end
            &&& rule_text(number_rule(target, ConditionOperator::Gte, n), offset) == left + ">= $"@
                + end
            &&& rule_text(number_rule(target, ConditionOperator::Lt, n), offset) == left + "< $"@
                + end
            &&& rule_text(number_rule(target, ConditionOperator::Lte, n), offset) == left + "<= $"@
                + end
        }),
        rule_binds(number_rule(target, ConditionOperator::Eq, n)) == seq![Bind::Int(n)],
        rule_binds(number_rule(target, ConditionOperator::Neq, n)) == seq![Bind::Int(n)],
        rule_binds(number_rule(target, ConditionOperator::Gt, n)) == seq![Bind::Int(n)],
        rule_binds(number_rule(target, ConditionOperator::Gte, n)) == seq![Bind::Int(n)],
        rule_binds(number_rule(target, ConditionOperator::Lt, n)) == seq![Bind::Int(n)],
        rule_binds(number_rule(target, ConditionOperator::Lte, n)) == seq![Bind::Int(n)],
{
    assert(") = $"@ == ") "@ + "= $"@ && ") <> $"@ == ") "@ + "<> $"@ && ") > $"@ == ") "@ + "> $"@
        && ") >= $"@ == ") "@ + ">= $"@ && ") < $"@ == ") "@ + "< $"@ && ") <= $"@ == ") "@
        + "<= $"@) by {
        reveal_strlit(") ");
        reveal_strlit("= $");
        reveal_strlit("<> $");
        reveal_strlit("> $");
        reveal_strlit(">= $");
        reveal_strlit("< $");
        reveal_strlit("<= $");
        reveal_strlit(") = $");
        reveal_strlit(") <> $");
        reveal_strlit(") > $");
        reveal_strlit(") >= $");
        reveal_strlit(") < $");
        reveal_strlit(") <= $");
        assert(") = $"@ =~= ") "@ + "= $"@);
        assert(") <> $"@ =~= ") "@ + "<> $"@);
        assert(") > $"@ =~= ") "@ + "> $"@);
        assert(") >= $"@ =~= ") "@ + ">= $"@);
        assert(") < $"@ =~= ") "@ + "< $"@);
        assert(") <= $"@ =~= ") "@ + "<= $"@);
    }
    lemma_number_text(target, ConditionOperator::Eq, "= $"@, n, offset);
    lemma_number_text(target, ConditionOperator::Neq, "<> $"@, n, offset);
    lemma_number_text(target, ConditionOperator::Gt, "> $"@, n, offset);
    lemma_number_text(target, ConditionOperator::Gte, ">= $"@, n, offset);
    lemma_number_text(target, ConditionOperator::Lt, "< $"@, n, offset);
    lemma_number_text(target, ConditionOperator::Lte, "<= $"@, n, offset);
}

proof fn lemma_range_text(target: ConditionTarget, n: i64, high: i64, offset: nat)
    requires
        target.spec_kind() is Int,
    ensures
        rule_text(range_rule(target, n, high), offset) == "(((("@ + target_sql(target) + ") >= $"@
            + decimal(offset + 1) + (" AND ("@ + target_sql(target) + ") <= $"@) + decimal(
            offset + 2,
        ) + ")))"@,
        rule_binds(range_rule(target, n, high)) == seq![Bind::Int(n), Bind::Int(high)],
{
    let open = "("@;
    let close = ")"@;
    let e = target_sql(target);
    let p = decimal(offset + 1);
    let q = decimal(offset + 2);
    assert("(("@ == open + open && "(((("@ == open + open + open + open && ")))"@ == close + close
        + close) by {
        reveal_strlit("(");
        reveal_strlit("((");
        reveal_strlit("((((");
        reveal_strlit(")");
        reveal_strlit(")))");
        assert("(("@ =~= open + open);
        assert("(((("@ =~= open + open + open + open);
        assert(")))"@ =~= close + close + close);
    }
    lemma_text_of_one(range_rule(target, n, high).groups[0][0], offset);
    assert(offset + 1 + 1 == offset + 2);
    // ((e) >= $p AND (e) <= $q)
    let test = "(("@ + e + ") >= $"@ + p + " AND ("@ + e + ") <= $"@ + q + close;
    let front = "(("@ + e + ") >= $"@ + p;
    let middle = " AND ("@ + e + ") <= $"@;
    lemma_add_associates(front, " AND ("@, e);
    lemma_add_associates(front, " AND ("@ + e, ") <= $"@);
    assert(test == front + middle + q + close);
    // The open brackets in front.
    lemma_add_associates(open, open, test);
    let oo = open + open;
    lemma_add_associates(oo, front + middle + q, close);
    lemma_add_associates(oo, front + middle, q);
    lemma_add_associates(oo, front, middle);
    lemma_add_associates(oo, "(("@ + e + ") >= $"@, p);
    lemma_add_associates(oo, "(("@ + e, ") >= $"@);
    lemma_add_associates(oo, "(("@, e);
    lemma_add_associates(oo, open, open);
    // The closing ones at the end.
    lemma_add_associates(open, open + test, close);
    let inner = "(((("@ + e + ") >= $"@ + p + middle + q;
    lemma_add_associates(inner, close, close);
    lemma_add_associates(inner, close + close, close);
}

proof fn lemma_kept_numbers(
    target: ConditionTarget,
    n: i64,
    high: i64,
    offset: nat,
    row: SqlRow,
    now: Timestamp,
)
    ensures
        forall|op: ConditionOperator|
            keeps(#[trigger] number_rule(target, op, n), offset, row, now) == condition_holds(
                number_rule(target, op, n).groups[0][0],
                row_facts(row),
                floor_days(row.followed_at, now),
            ),
        keeps(range_rule(target, n, high), offset, row, now) == condition_holds(
            range_rule(target, n, high).groups[0][0],
            row_facts(row),
            floor_days(row.followed_at, now),
        ),
{
    let facts = row_facts(row);
    let days = floor_days(row.followed_at, now);
    assert forall|op: ConditionOperator|
        keeps(#[trigger] number_rule(target, op, n), offset, row, now) == condition_holds(
            number_rule(target, op, n).groups[0][0],
            facts,
            days,
        ) by {
        law_clause_selects_rule(number_rule(target, op, n), offset, row, now);
        lemma_one_condition(number_rule(target, op, n).groups[0][0], facts, days);
    }
    law_clause_selects_rule(range_rule(target, n, high), offset, row, now);
    lemma_one_condition(range_rule(target, n, high).groups[0][0], facts, days);
}

/// The text of a condition on a truth value names the column of its own target,
/// and the query keeps the rows that have the wanted value there, NULL taken for
/// false.
pub proof fn law_flag_clauses_say_what_they_keep(
    wanted: bool,
    offset: nat,
    row: SqlRow,
    now: Timestamp,
)
    ensures
        ({
            let follows = flag_rule(ConditionTarget::IsFollower, wanted);
            let subscribes = flag_rule(ConditionTarget::IsSubscriber, wanted);
            &&& rule_text(follows, offset) == "((COALESCE(ucc.is_following, false) = $"@ + decimal(
                offset + 1,
            ) + "))"@
            &&& rule_binds(follows) == seq![Bind::Bool(wanted)]
            &&& keeps(follows, offset, row, now) == (wanted == (row.is_following == Some(true)))
            &&& rule_text(subscribes, offset) == "((COALESCE(ucc.is_subscribed, false) = $"@
                + decimal(offset + 1) + "))"@
            &&& rule_binds(subscribes) == seq![Bind::Bool(wanted)]
            &&& keeps(subscribes, offset, row, now) == (wanted == (row.is_subscribed == Some(
                true,
            )))
        }),
{
    reveal_strlit("(");
    reveal_strlit(")");
    reveal_strlit("))");
    reveal_strlit(" = $");
    reveal_strlit("COALESCE(ucc.is_following, false)");
    reveal_strlit("((COALESCE(ucc.is_following, false) = $");
    reveal_strlit("COALESCE(ucc.is_subscribed, false)");
    reveal_strlit("((COALESCE(ucc.is_subscribed, false) = $");
    let follows = flag_rule(ConditionTarget::IsFollower, wanted);
    let subscribes = flag_rule(ConditionTarget::IsSubscriber, wanted);
    lemma_text_of_one(follows.groups[0][0], offset);
    lemma_text_of_one(subscribes.groups[0][0], offset);
    assert("((COALESCE(ucc.is_following, false) = $"@ =~= "("@ + "("@
        + "COALESCE(ucc.is_following, false)"@ + " = $"@);
    assert("((COALESCE(ucc.is_subscribed, false) = $"@ =~= "("@ + "("@
        + "COALESCE(ucc.is_subscribed, false)"@ + " = $"@);
    assert(rule_text(follows, offset) =~= "((COALESCE(ucc.is_following, false) = $"@ + decimal(
        offset + 1,
    ) + "))"@);
    assert(rule_text(subscribes, offset) =~= "((COALESCE(ucc.is_subscribed, false) = $"@ + decimal(
        offset + 1,
    ) + "))"@);
    let facts = row_facts(row);
    let days = floor_days(row.followed_at, now);
    law_clause_selects_rule(follows, offset, row, now);
    law_clause_selects_rule(subscribes, offset, row, now);
    lemma_one_condition(follows.groups[0][0], facts, days);
    lemma_one_condition(subscribes.groups[0][0], facts, days);
}

proof fn lemma_group_append(a: Seq<ConditionModel>, b: Seq<ConditionModel>, param: nat)
    ensures
        group_binds(a + b) == group_binds(a) + group_binds(b),
        group_tests(a + b, param) == group_tests(a, param) + group_tests(
            b,
            param + group_binds(a).len(),
        ),
    decreases b.len(),
{
    if b.len() == 0 {
        assert(a + b =~= a);
        assert(group_binds(a) + group_binds(b) =~= group_binds(a));
        assert(group_tests(a, param) + group_tests(b, param + group_binds(a).len())
            =~= group_tests(a, param));
    } else {
        lemma_group_append(a, b.drop_last(), param);
        assert((a + b).drop_last() =~= a + b.drop_last());
        assert(group_binds(a + b) =~= group_binds(a) + group_binds(b));
        assert(group_tests(a + b, param) =~= group_tests(a, param) + group_tests(
            b,
            param + group_binds(a).len(),
        ));
    }
}

proof fn lemma_groups_append(
    a: Seq<Seq<ConditionModel>>,
    b: Seq<Seq<ConditionModel>>,
    param: nat,
)
    ensures
        groups_binds(a + b) == groups_binds(a) + groups_binds(b),
        groups_tests(a + b, param) == groups_tests(a, param) + groups_tests(
            b,
            param + groups_binds(a).len(),
        ),
    decreases b.len(),
{
    if b.len() == 0 {
        assert(a + b =~= a);
        assert(groups_binds(a) + groups_binds(b) =~= groups_binds(a));
        assert(groups_tests(a, param) + groups_tests(b, param + groups_binds(a).len())
            =~= groups_tests(a, param));
    } else {
        lemma_groups_append(a, b.drop_last(), param);
        assert((a + b).drop_last() =~= a + b.drop_last());
        assert(groups_binds(a + b) =~= groups_binds(a) + groups_binds(b));
        assert(groups_tests(a + b, param) =~= groups_tests(a, param) + groups_tests(
            b,
            param + groups_binds(a).len(),
        ));
    }
}

proof fn lemma_conjunction_append(a: Seq<SqlTest>, b: Seq<SqlTest>)
    requires
        a.len() > 0,
        b.len() > 0,
    ensures
        conjunction_sql(a + b) == conjunction_sql(a) + " AND "@ + conjunction_sql(b),
    decreases b.len(),
{
    assert((a + b).drop_last() =~= a + b.drop_last());
    assert((a + b).last() == b.last());
    if b.len() == 1 {
        assert(a + b.drop_last() =~= a);
    } else {
        lemma_conjunction_append(a, b.drop_last());
        let front = conjunction_sql(a) + " AND "@;
        lemma_add_associates(front, conjunction_sql(b.drop_last()), " AND "@);
        lemma_add_associates(front, conjunction_sql(b.drop_last()) + " AND "@, test_sql(b.last()));
    }
}

proof fn lemma_disjunction_append(a: Seq<Seq<SqlTest>>, b: Seq<Seq<SqlTest>>)
    requires
        a.len() > 0,
        b.len() > 0,
    ensures
        disjunction_sql(a + b) == disjunction_sql(a) + " OR "@ + disjunction_sql(b),
    decreases b.len(),
{
    assert((a + b).drop_last() =~= a + b.drop_last());
    assert((a + b).last() == b.last());
    if b.len() == 1 {
        assert(a + b.drop_last() =~= a);
    } else {
        lemma_disjunction_append(a, b.drop_last());
        let front = disjunction_sql(a) + " OR "@;
        lemma_add_associates(front, disjunction_sql(b.drop_last()), " OR "@);
        lemma_add_associates(front, disjunction_sql(b.drop_last()) + " OR "@, group_sql(b.last()));
    }
}

/// The clause of a rule in two parts is the clauses of the parts with OR between
/// them, in one pair of brackets, the parameters of the second part numbered on
/// from those of the first. The values are bound in the same order.
pub proof fn law_groups_are_joined_by_or(
    a: Seq<Seq<ConditionModel>>,
    b: Seq<Seq<ConditionModel>>,
    offset: nat,
)
    requires
        a.len() > 0,
        b.len() > 0,
    ensures
        ({
            let first = rule_text(rule_of(a), offset);
            let second = rule_text(rule_of(b), offset + rule_binds(rule_of(a)).len());
            rule_text(rule_of(a + b), offset) == first.drop_last() + " OR "@ + second.drop_first()
        }),
        rule_binds(rule_of(a + b)) == rule_binds(rule_of(a)) + rule_binds(rule_of(b)),
{
    let param = offset + 1;
    let shift = groups_binds(a).len();
    lemma_groups_append(a, b, param);
    lemma_tests_len(a, param);
    lemma_tests_len(b, param + shift);
    let x = groups_tests(a, param);
    let y = groups_tests(b, param + shift);
    lemma_disjunction_append(x, y);
    reveal_strlit("(");
    reveal_strlit(")");
    let first = rule_text(rule_of(a), offset);
    let second = rule_text(rule_of(b), offset + shift);
    assert(offset + shift + 1 == param + shift);
    assert(first == "("@ + disjunction_sql(x) + ")"@);
    assert(second == "("@ + disjunction_sql(y) + ")"@);
    assert(first.drop_last() =~= "("@ + disjunction_sql(x));
    assert(second.drop_first() =~= disjunction_sql(y) + ")"@);
    let dx = disjunction_sql(x);
    let dy = disjunction_sql(y);
    lemma_add_associates("("@, dx + " OR "@, dy);
    lemma_add_associates("("@, dx, " OR "@);
    lemma_add_associates("("@ + dx + " OR "@, dy, ")"@);
}

proof fn lemma_text_of_group(group: Seq<ConditionModel>, offset: nat)
    requires
        group.len() > 0,
    ensures
        rule_text(rule_of(seq![group]), offset) == "(("@ + conjunction_sql(
            group_tests(group, offset + 1),
        ) + "))"@,
        rule_binds(rule_of(seq![group])) == group_binds(group),
{
    let groups = seq![group];
    let param = offset + 1;
    assert(groups.drop_last() =~= Seq::empty());
    assert(groups.last() == group);
    reveal_with_fuel(groups_tests, 2);
    reveal_with_fuel(groups_binds, 2);
    assert(groups_binds(groups) =~= group_binds(group));
    assert(groups_tests(groups, param) =~= seq![group_tests(group, param)]);
    lemma_group_tests_len(group, param);
    let inner = conjunction_sql(group_tests(group, param));
    reveal_strlit("(");
    reveal_strlit(")");
    reveal_strlit("((");
    reveal_strlit("))");
    assert("(("@ =~= "("@ + "("@);
    assert("))"@ =~= ")"@ + ")"@);
    lemma_add_associates("("@, "("@ + inner, ")"@);
    lemma_add_associates("("@, "("@, inner);
    lemma_add_associates("(("@ + inner, ")"@, ")"@);
}

/// The clause of a group in two parts is the clauses of the parts with AND
/// between them, in the same brackets, the parameters of the second part numbered
/// on from those of the first. The values are bound in the same order.
pub proof fn law_conditions_are_joined_by_and(
    a: Seq<ConditionModel>,
    b: Seq<ConditionModel>,
    offset: nat,
)
    requires
        a.len() > 0,
        b.len() > 0,
    ensures
        ({
            let first = rule_text(rule_of(seq![a]), offset);
            let second = rule_text(rule_of(seq![b]), offset + rule_binds(rule_of(seq![a])).len());
            rule_text(rule_of(seq![a + b]), offset) == first.take(first.len() - 2) + " AND "@
                + second.skip(2)
        }),
        rule_binds(rule_of(seq![a + b])) == rule_binds(rule_of(seq![a])) + rule_binds(
            rule_of(seq![b]),
        ),
{
    let param = offset + 1;
    let shift = group_binds(a).len();
    lemma_group_append(a, b, param);
    lemma_group_tests_len(a, param);
    lemma_group_tests_len(b, param + shift);
    lemma_text_of_group(a, offset);
    lemma_text_of_group(b, offset + shift);
    lemma_text_of_group(a + b, offset);
    let x = group_tests(a, param);
    let y = group_tests(b, param + shift);
    assert(offset + shift + 1 == param + shift);
    lemma_conjunction_append(x, y);
    reveal_strlit("((");
    reveal_strlit("))");
    let cx = conjunction_sql(x);
    let cy = conjunction_sql(y);
    let first = rule_text(rule_of(seq![a]), offset);
    let second = rule_text(rule_of(seq![b]), offset + shift);
    assert(first.take(first.len() - 2) =~= "(("@ + cx);
    assert(second.skip(2) =~= cy + "))"@);
    lemma_add_associates("(("@, cx + " AND "@, cy);
    lemma_add_associates("(("@, cx, " AND "@);
    lemma_add_associates("(("@ + cx + " AND "@, cy, "))"@);
}

/// The clauses that need no values: TRUE for a rule that grants on any relation,
/// FALSE for one without groups, and FALSE in place of a group without
/// conditions.
pub proof fn law_constant_clauses(tree: RuleModel, offset: nat)
    ensures
        tree.grant_on_any_relation ==> rule_text(tree, offset) == "TRUE"@ && rule_binds(tree).len()
            == 0,
        tree.is_unconfigured() ==> rule_text(tree, offset) == "FALSE"@ && rule_binds(tree).len()
            == 0,
        rule_text(rule_of(seq![Seq::<ConditionModel>::empty()]), offset) == "(FALSE)"@,
        rule_binds(rule_of(seq![Seq::<ConditionModel>::empty()])).len() == 0,
{
    let group = Seq::<ConditionModel>::empty();
    let groups = seq![group];
    let param = offset + 1;
    assert(groups.drop_last() =~= Seq::empty());
    assert(groups.last() == group);
    reveal_with_fuel(groups_tests, 2);
    reveal_with_fuel(groups_binds, 2);
    assert(groups_tests(groups, param) =~= seq![group_tests(group, param)]);
    reveal_strlit("(");
    reveal_strlit(")");
    reveal_strlit("FALSE");
    reveal_strlit("(FALSE)");
    assert("(FALSE)"@ =~= "("@ + "FALSE"@ + ")"@);
}

/// Two pairs of brackets around a text.
proof fn lemma_two_brackets(open: Seq<char>, test: Seq<char>, close: Seq<char>)
    ensures
        open + (open + test + close) + close == (open + open + test) + (close + close),
{
    lemma_add_associates(open, open + test, close);
    lemma_add_associates(open, open, test);
    lemma_add_associates(open + open + test, close, close);
}

proof fn lemma_null_text(p: Seq<char>)
    ensures
        "("@ + ("("@ + ("$"@ + p + " IS NULL"@) + ")"@) + ")"@ == "(($"@ + p + " IS NULL))"@,
{
    let oo = "("@ + "("@;
    let cc = ")"@ + ")"@;
    assert("(($"@ == oo + "$"@ && " IS NULL))"@ == " IS NULL"@ + cc) by {
        reveal_strlit("(");
        reveal_strlit(")");
        reveal_strlit("$");
        reveal_strlit("(($");
        reveal_strlit(" IS NULL");
        reveal_strlit(" IS NULL))");
        assert("(($"@ =~= oo + "$"@);
        assert(" IS NULL))"@ =~= " IS NULL"@ + cc);
    }
    lemma_two_brackets("("@, "$"@ + p + " IS NULL"@, ")"@);
    lemma_add_associates(oo, "$"@ + p, " IS NULL"@);
    lemma_add_associates(oo, "$"@, p);
    lemma_add_associates("(($"@ + p, " IS NULL"@, cc);
}

proof fn lemma_both_null_text(p: Seq<char>, q: Seq<char>)
    ensures
        "("@ + ("("@ + ("($"@ + p + " IS NULL AND $"@ + q + " IS NULL)"@) + ")"@) + ")"@ == "((($"@
            + p + " IS NULL AND $"@ + q + " IS NULL)))"@,
{
    let oo = "("@ + "("@;
    let cc = ")"@ + ")"@;
    let middle = " IS NULL AND $"@;
    assert("((($"@ == oo + "($"@ && " IS NULL)))"@ == " IS NULL)"@ + cc) by {
        reveal_strlit("(");
        reveal_strlit(")");
        reveal_strlit("($");
        reveal_strlit("((($");
        reveal_strlit(" IS NULL)");
        reveal_strlit(" IS NULL)))");
        assert("((($"@ =~= oo + "($"@);
        assert(" IS NULL)))"@ =~= " IS NULL)"@ + cc);
    }
    lemma_two_brackets("("@, "($"@ + p + middle + q + " IS NULL)"@, ")"@);
    lemma_add_associates(oo, "($"@ + p + middle + q, " IS NULL)"@);
    lemma_add_associates(oo, "($"@ + p + middle, q);
    lemma_add_associates(oo, "($"@ + p, middle);
    lemma_add_associates(oo, "($"@, p);
    lemma_add_associates("((($"@ + p + middle + q, " IS NULL)"@, cc);
}

/// The clause of a condition that does not fit its target asks for a parameter
/// that is NULL, which the values bound there are not.
pub proof fn law_misfits_ask_for_null(c: ConditionModel, offset: nat, row: SqlRow, now: Timestamp)
    requires
        match c.target {
            ConditionTarget::IsFollower | ConditionTarget::IsSubscriber => !(c.operator is Eq)
                || !(c.value is Bool),
            ConditionTarget::FollowAgeDays | ConditionTarget::SubTier => !(c.operator is Between)
                && !(c.value is Int),
        },
    ensures
        !(c.operator is Between) ==> rule_text(one_condition(c), offset) == "(($"@ + decimal(
            offset + 1,
        ) + " IS NULL))"@ && rule_binds(one_condition(c)).len() == 1,
        c.operator is Between ==> rule_text(one_condition(c), offset) == "((($"@ + decimal(
            offset + 1,
        ) + " IS NULL AND $"@ + decimal(offset + 2) + " IS NULL)))"@ && rule_binds(
            one_condition(c),
        ).len() == 2,
        !keeps(one_condition(c), offset, row, now),
{
    lemma_text_of_one(c, offset);
    law_clause_selects_rule(one_condition(c), offset, row, now);
    lemma_one_condition(c, row_facts(row), floor_days(row.followed_at, now));
    assert(offset + 1 + 1 == offset + 2);
    if c.operator is Between {
        lemma_both_null_text(decimal(offset + 1), decimal(offset + 2));
    } else {
        lemma_null_text(decimal(offset + 1));
    }
}

/// Different comparisons have different signs, so that the text tells which one
/// is made.
pub proof fn law_signs_differ(a: SqlComparison, b: SqlComparison)
    ensures
        comparison_sql(a) == comparison_sql(b) <==> a == b,
{
    reveal_strlit(") = $");
    reveal_strlit(") <> $");
    reveal_strlit(") > $");
    reveal_strlit(") >= $");
    reveal_strlit(") < $");
    reveal_strlit(") <= $");
    assert(") = $"@.len() == 5 && ") > $"@.len() == 5 && ") < $"@.len() == 5);
    assert(") <> $"@.len() == 6 && ") >= $"@.len() == 6 && ") <= $"@.len() == 6);
    assert(") = $"@[2] == '=' && ") > $"@[2] == '>' && ") < $"@[2] == '<');
    assert(") <> $"@[2] == '<' && ") <> $"@[3] == '>');
    assert(") >= $"@[2] == '>' && ") <= $"@[2] == '<' && ") <= $"@[3] == '=');
}

} // verus!
