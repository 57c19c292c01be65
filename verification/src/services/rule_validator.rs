//! Parse and validate the rule-tree payload that the rule-builder UI sends.
//!
//! Gives a clean [`RuleTree`] ready to be stored. The channel that a relation
//! rule checks against is the broadcaster connected to the role link, not part
//! of this payload.
use vstd::prelude::*;

use crate::error::AppError;
use crate::json::{JsonModel, JsonValue};
use crate::models::condition::{
    law_operator_keys, law_operator_names, law_target_keys, law_target_names, opt_model, Condition, ConditionModel, ConditionOperator,
    ConditionTarget, TargetKind,
};
use crate::models::rule::{
    group_model, groups_model, ConditionGroup, RuleModel, RuleTree, MAX_CONDITIONS_PER_GROUP,
    MAX_GROUPS,
};
use crate::models::stored::{ends_are_values, law_stored_rule_reads_back, rule_in, rule_json};
use crate::outside::{json_compact, json_text};
use crate::services::condition_eval::{
    flag_rule, law_flags_are_taken_at_their_word, number_rule, range_rule, rule_matches, CacheData,
};
use crate::text::{
    all_digits, all_white, ascii_lower, ascii_lower_char, decimal, integer_of,
    integer_text, integer_within, is_white_space, law_integer_text_reads_back,
    law_padding_is_trimmed, law_trimming_takes_the_ends, parse_within, str_eq, to_ascii_lower,
    trim, trimmed, usize_text,
};
use crate::time::Timestamp;

verus! {

#[derive(Debug)]
pub struct RuleTreeBody {
    pub grant_on_any_relation: bool,
    pub groups: Vec<ConditionGroupInput>,
}

#[derive(Debug)]
pub struct ConditionGroupInput {
    pub conditions: Vec<ConditionInput>,
}

#[derive(Debug)]
pub struct ConditionInput {
    pub target: String,
    pub operator: String,
    pub value: JsonValue,
    pub value_end: Option<JsonValue>,
}

pub struct ParsedRule {
    pub rule_tree: RuleTree,
}

/// What a [`ConditionInput`] says.
pub struct InputModel {
    pub target: Seq<char>,
    pub operator: Seq<char>,
    pub value: JsonModel,
    pub value_end: Option<JsonModel>,
}

/// What a [`RuleTreeBody`] says.
pub struct BodyModel {
    pub grant_on_any_relation: bool,
    pub groups: Seq<Seq<InputModel>>,
}

impl View for ConditionInput {
    type V = InputModel;

    open spec fn view(&self) -> InputModel {
        InputModel {
            target: self.target@,
            operator: self.operator@,
            value: self.value@,
            value_end: opt_model(self.value_end),
        }
    }
}

impl View for ConditionGroupInput {
    type V = Seq<InputModel>;

    open spec fn view(&self) -> Seq<InputModel> {
        self.conditions@.map_values(|c: ConditionInput| c@)
    }
}

impl View for RuleTreeBody {
    type V = BodyModel;

    open spec fn view(&self) -> BodyModel {
        BodyModel {
            grant_on_any_relation: self.grant_on_any_relation,
            groups: self.groups@.map_values(|g: ConditionGroupInput| g@),
        }
    }
}

// ---------------------------------------------------------------------
// What the payload stands for
// ---------------------------------------------------------------------

/// The place of a condition in the payload, as messages name it.
pub open spec fn place(group_num: nat, cond_num: nat) -> Seq<char> {
    "Group #"@ + decimal(group_num) + ", condition #"@ + decimal(cond_num)
}

/// The boolean that a text stands for.
pub open spec fn bool_word(t: Seq<char>) -> Option<bool> {
    let word = ascii_lower(trimmed(t));
    if word == "true"@ || word == "1"@ || word == "yes"@ {
        Some(true)
    } else if word == "false"@ || word == "0"@ || word == "no"@ {
        Some(false)
    } else {
        None
    }
}

/// The boolean that a value stands for.
pub open spec fn bool_of(raw: JsonModel) -> Option<bool> {
    match raw {
        JsonModel::Bool(b) => Some(b),
        JsonModel::Text(t) => bool_word(t),
        _ => None,
    }
}

/// The whole number that a value stands for: a number rounded towards zero and
/// brought into the range of `i64`, or a text in decimal notation.
pub open spec fn int_of(raw: JsonModel) -> Option<int> {
    match raw {
        JsonModel::Int(n) => Some(n as int),
        JsonModel::Large(_) => Some(i64::MAX as int),
        JsonModel::Float { text, whole } => Some(whole as int),
        JsonModel::Text(t) => integer_within(trimmed(t), i64::MIN as int, i64::MAX as int),
        _ => None,
    }
}

/// A refused value as the message shows it: a number with a fraction as it was
/// written, anything else in its compact form.
pub open spec fn shown(raw: JsonModel) -> Seq<char> {
    match raw {
        JsonModel::Float { text, .. } => text,
        _ => json_compact(raw),
    }
}

/// A number makes sense for the target: a tier is 1, 2 or 3, and nobody has
/// followed for fewer than no days.
pub open spec fn in_range(target: ConditionTarget, n: int) -> bool {
    &&& target is SubTier ==> 1 <= n <= 3
    &&& target is FollowAgeDays ==> n >= 0
}

/// The value in its stored form, or the message that refuses it.
pub open spec fn normalized(
    at: Seq<char>,
    target: ConditionTarget,
    raw: JsonModel,
) -> Result<JsonModel, Seq<char>> {
    match target.spec_kind() {
        TargetKind::Bool => match bool_of(raw) {
            Some(b) => Ok(JsonModel::Bool(b)),
            None => Err(at + ": boolean value required (got "@ + shown(raw) + ")."@),
        },
        TargetKind::Int => match int_of(raw) {
            None => Err(at + ": whole-number value required (got "@ + shown(raw) + ")."@),
            Some(n) => if target is SubTier && !in_range(target, n) {
                Err(at + ": sub tier must be 1, 2, or 3."@)
            } else if target is FollowAgeDays && !in_range(target, n) {
                Err(at + ": days must be 0 or greater."@)
            } else {
                Ok(JsonModel::Int(n as i64))
            },
        },
    }
}

/// The condition that an input stands for, or the message that refuses it.
pub open spec fn validated(
    group_num: nat,
    cond_num: nat,
    raw: InputModel,
) -> Result<ConditionModel, Seq<char>> {
    let at = place(group_num, cond_num);
    match ConditionTarget::with_key(trimmed(raw.target)) {
        None => Err(at + ": unknown target '"@ + raw.target + "'."@),
        Some(target) => match ConditionOperator::with_key(trimmed(raw.operator)) {
            None => Err(at + ": unknown operator '"@ + raw.operator + "'."@),
            Some(operator) => if !operator.fits(target.spec_kind()) {
                Err(
                    at + ": operator '"@ + operator.key() + "' is not valid for '"@ + target.key()
                        + "'."@,
                )
            } else {
                match normalized(at, target, raw.value) {
                    Err(e) => Err(e),
                    Ok(value) => if operator is Between {
                        match raw.value_end {
                            None => Err(at + ": \"between\" needs both a min and a max value."@),
                            Some(end) => match normalized(at, target, end) {
                                Err(e) => Err(e),
                                Ok(end) => Ok(
                                    ConditionModel {
                                        target,
                                        operator,
                                        value,
                                        value_end: Some(end),
                                    },
                                ),
                            },
                        }
                    } else {
                        Ok(ConditionModel { target, operator, value, value_end: None })
                    },
                }
            },
        },
    }
}

/// The first `n` conditions of a group, or the first message that refuses one.
pub open spec fn validated_conditions(
    group_num: nat,
    group: Seq<InputModel>,
    n: nat,
) -> Result<Seq<ConditionModel>, Seq<char>>
    decreases n,
{
    if n == 0 {
        Ok(Seq::empty())
    } else {
        match validated_conditions(group_num, group, (n - 1) as nat) {
            Err(e) => Err(e),
            Ok(conditions) => match validated(group_num, n, group[n - 1]) {
                Err(e) => Err(e),
                Ok(c) => Ok(conditions.push(c)),
            },
        }
    }
}

/// A group, or the first message that refuses it.
pub open spec fn validated_group(group_num: nat, group: Seq<InputModel>) -> Result<
    Seq<ConditionModel>,
    Seq<char>,
> {
    if group.len() == 0 {
        Err(
            "Group #"@ + decimal(group_num)
                + ": add at least one condition (or remove the group)."@,
        )
    } else if group.len() > MAX_CONDITIONS_PER_GROUP {
        Err(
            "Group #"@ + decimal(group_num) + ": at most "@ + decimal(
                MAX_CONDITIONS_PER_GROUP as nat,
            ) + " conditions per group."@,
        )
    } else {
        validated_conditions(group_num, group, group.len())
    }
}

/// The first `n` groups, or the first message that refuses one.
pub open spec fn validated_groups(groups: Seq<Seq<InputModel>>, n: nat) -> Result<
    Seq<Seq<ConditionModel>>,
    Seq<char>,
>
    decreases n,
{
    if n == 0 {
        Ok(Seq::empty())
    } else {
        match validated_groups(groups, (n - 1) as nat) {
            Err(e) => Err(e),
            Ok(done) => match validated_group(n, groups[n - 1]) {
                Err(e) => Err(e),
                Ok(g) => Ok(done.push(g)),
            },
        }
    }
}

/// The rule that a payload stands for, or the message that refuses it. A
/// payload that grants on any relation needs no groups, and its groups are
/// dropped unread.
pub open spec fn parsed_rule(body: BodyModel) -> Result<RuleModel, Seq<char>> {
    if body.grant_on_any_relation {
        Ok(RuleModel { grant_on_any_relation: true, groups: Seq::empty() })
    } else if body.groups.len() == 0 {
        Err("Add at least one rule group, or pick \"anyone who linked their Twitch\"."@)
    } else if body.groups.len() > MAX_GROUPS {
        Err("At most "@ + decimal(MAX_GROUPS as nat) + " OR-groups per role."@)
    } else {
        match validated_groups(body.groups, body.groups.len()) {
            Err(e) => Err(e),
            Ok(groups) => Ok(RuleModel { grant_on_any_relation: false, groups }),
        }
    }
}

// ---------------------------------------------------------------------
// Parsing
// ---------------------------------------------------------------------

pub fn parse_rule_tree(body: RuleTreeBody) -> (r: Result<ParsedRule, AppError>)
    ensures
        match r {
            Ok(p) => parsed_rule(body@) == Ok::<RuleModel, Seq<char>>(p.rule_tree@),
            Err(e) => e@ is BadRequest && parsed_rule(body@) == Err::<RuleModel, Seq<char>>(
                e@->BadRequest_0,
            ),
        },
{
    if body.grant_on_any_relation {
        let rule_tree = RuleTree { grant_on_any_relation: true, groups: Vec::new() };
        assert(rule_tree@ =~= (RuleModel { grant_on_any_relation: true, groups: Seq::empty() }));
        return Ok(ParsedRule { rule_tree });
    }
    if body.groups.len() == 0 {
        return Err(
            AppError::BadRequest(
                "Add at least one rule group, or pick \"anyone who linked their Twitch\".".to_owned(),
            ),
        );
    }
    if body.groups.len() > MAX_GROUPS {
        let mut message = "At most ".to_owned();
        message.append(usize_text(MAX_GROUPS).as_str());
        message.append(" OR-groups per role.");
        return Err(AppError::BadRequest(message));
    }
    let ghost all = body@.groups;
    let mut groups: Vec<ConditionGroup> = Vec::with_capacity(body.groups.len());
    let mut i: usize = 0;
    assert(groups_model(groups@) =~= Seq::empty());
    while i < body.groups.len()
        invariant
            i <= body.groups@.len() <= MAX_GROUPS,
            all == body@.groups,
            all.len() == body.groups@.len(),
            !body.grant_on_any_relation,
            all.len() > 0,
            validated_groups(all, i as nat) == Ok::<Seq<Seq<ConditionModel>>, Seq<char>>(
                groups_model(groups@),
            ),
        decreases body.groups@.len() - i,
    {
        assert(all[i as int] == body.groups@[i as int]@);
        match validate_group(i + 1, &body.groups[i]) {
            Err(e) => {
                proof {
                    lemma_group_error_surfaces(all, (i + 1) as nat, all.len());
                }
                return Err(e);
            },
            Ok(group) => {
                let ghost before = groups@;
                groups.push(group);
                assert(groups_model(groups@) =~= groups_model(before).push(group@));
            },
        }
        i = i + 1;
    }
    let rule_tree = RuleTree { grant_on_any_relation: false, groups };
    Ok(ParsedRule { rule_tree })
}

proof fn lemma_group_error_surfaces(groups: Seq<Seq<InputModel>>, k: nat, n: nat)
    requires
        k <= n,
        validated_groups(groups, k) is Err,
    ensures
        validated_groups(groups, n) == validated_groups(groups, k),
    decreases n - k,
{
    if k < n {
        lemma_group_error_surfaces(groups, k, (n - 1) as nat);
    }
}

proof fn lemma_condition_error_surfaces(
    group_num: nat,
    group: Seq<InputModel>,
    k: nat,
    n: nat,
)
    requires
        k <= n,
        validated_conditions(group_num, group, k) is Err,
    ensures
        validated_conditions(group_num, group, n) == validated_conditions(group_num, group, k),
    decreases n - k,
{
    if k < n {
        lemma_condition_error_surfaces(group_num, group, k, (n - 1) as nat);
    }
}

fn validate_group(group_num: usize, raw: &ConditionGroupInput) -> (r: Result<
    ConditionGroup,
    AppError,
>)
    ensures
        match r {
            Ok(g) => validated_group(group_num as nat, raw@) == Ok::<
                Seq<ConditionModel>,
                Seq<char>,
            >(g@),
            Err(e) => e@ is BadRequest && validated_group(group_num as nat, raw@) == Err::<
                Seq<ConditionModel>,
                Seq<char>,
            >(e@->BadRequest_0),
        },
{
    let ghost all = raw@;
    let count: usize = raw.conditions.len();
    if count == 0 {
        let mut message = "Group #".to_owned();
        message.append(usize_text(group_num).as_str());
        message.append(": add at least one condition (or remove the group).");
        return Err(AppError::BadRequest(message));
    }
    if count > MAX_CONDITIONS_PER_GROUP {
        let mut message = "Group #".to_owned();
        message.append(usize_text(group_num).as_str());
        message.append(": at most ");
        message.append(usize_text(MAX_CONDITIONS_PER_GROUP).as_str());
        message.append(" conditions per group.");
        return Err(AppError::BadRequest(message));
    }
    let mut conditions: Vec<Condition> = Vec::with_capacity(count);
    let mut j: usize = 0;
    assert(group_model(conditions@) =~= Seq::empty());
    while j < count
        invariant
            j <= count,
            count == raw.conditions@.len(),
            count <= MAX_CONDITIONS_PER_GROUP,
            all == raw@,
            all.len() == count,
            validated_group(group_num as nat, all) == validated_conditions(
                group_num as nat,
                all,
                all.len(),
            ),
            validated_conditions(group_num as nat, all, j as nat) == Ok::<
                Seq<ConditionModel>,
                Seq<char>,
            >(group_model(conditions@)),
        decreases count - j,
    {
        assert(all[j as int] == raw.conditions@[j as int]@);
        match validate_condition(group_num, j + 1, &raw.conditions[j]) {
            Err(e) => {
                proof {
                    lemma_condition_error_surfaces(
                        group_num as nat,
                        all,
                        (j + 1) as nat,
                        all.len(),
                    );
                }
                return Err(e);
            },
            Ok(c) => {
                let ghost before = conditions@;
                conditions.push(c);
                assert(group_model(conditions@) =~= group_model(before).push(c@));
            },
        }
        j = j + 1;
    }
    Ok(ConditionGroup { conditions })
}

fn place_text(group_num: usize, cond_num: usize) -> (r: String)
    ensures
        r@ == place(group_num as nat, cond_num as nat),
{
    let mut out = "Group #".to_owned();
    out.append(usize_text(group_num).as_str());
    out.append(", condition #");
    out.append(usize_text(cond_num).as_str());
    out
}

/// The condition that an input stands for, at its place in the payload.
pub fn validate_condition(group_num: usize, cond_num: usize, raw: &ConditionInput) -> (r: Result<
    Condition,
    AppError,
>)
    ensures
        match r {
            Ok(c) => validated(group_num as nat, cond_num as nat, raw@) == Ok::<
                ConditionModel,
                Seq<char>,
            >(c@),
            Err(e) => e@ is BadRequest && validated(group_num as nat, cond_num as nat, raw@)
                == Err::<ConditionModel, Seq<char>>(e@->BadRequest_0),
        },
{
    let at = place_text(group_num, cond_num);
    let target = match ConditionTarget::from_key(trim(raw.target.as_str()).as_str()) {
        Some(t) => t,
        None => {
            let mut message = at;
            message.append(": unknown target '");
            message.append(raw.target.as_str());
            message.append("'.");
            return Err(AppError::BadRequest(message));
        },
    };
    let operator = match ConditionOperator::from_key(trim(raw.operator.as_str()).as_str()) {
        Some(op) => op,
        None => {
            let mut message = at;
            message.append(": unknown operator '");
            message.append(raw.operator.as_str());
            message.append("'.");
            return Err(AppError::BadRequest(message));
        },
    };
    if !operator.valid_for(target.kind()) {
        let mut message = at;
        message.append(": operator '");
        message.append(operator.as_str());
        message.append("' is not valid for '");
        message.append(target.as_str());
        message.append("'.");
        return Err(AppError::BadRequest(message));
    }
    let value = match normalize_value(at.as_str(), target, &raw.value) {
        Ok(v) => v,
        Err(message) => {
            return Err(AppError::BadRequest(message));
        },
    };
    if matches!(operator, ConditionOperator::Between) {
        match &raw.value_end {
            Some(end) => match normalize_value(at.as_str(), target, end) {
                Ok(end) => Ok(Condition { target, operator, value, value_end: Some(end) }),
                Err(message) => Err(AppError::BadRequest(message)),
            },
            None => {
                let mut message = at;
                message.append(": \"between\" needs both a min and a max value.");
                Err(AppError::BadRequest(message))
            },
        }
    } else {
        Ok(Condition { target, operator, value, value_end: None })
    }
}

fn bool_value(raw: &JsonValue) -> (r: Option<bool>)
    ensures
        r == bool_of(raw@),
{
    match raw {
        JsonValue::Bool(b) => Some(*b),
        JsonValue::Text(t) => {
            let word = to_ascii_lower(trim(t.as_str()).as_str());
            if str_eq(word.as_str(), "true") || str_eq(word.as_str(), "1") || str_eq(
                word.as_str(),
                "yes",
            ) {
                Some(true)
            } else if str_eq(word.as_str(), "false") || str_eq(word.as_str(), "0") || str_eq(
                word.as_str(),
                "no",
            ) {
                Some(false)
            } else {
                None
            }
        },
        _ => None,
    }
}

fn int_value(raw: &JsonValue) -> (r: Option<i64>)
    ensures
        match r {
            Some(n) => int_of(raw@) == Some(n as int),
            None => int_of(raw@) is None,
        },
{
    match raw {
        JsonValue::Int(n) => Some(*n),
        JsonValue::Large(_) => Some(i64::MAX),
        JsonValue::Float { whole, .. } => Some(*whole),
        JsonValue::Text(t) => parse_within(trim(t.as_str()).as_str(), i64::MIN, i64::MAX),
        _ => None,
    }
}

fn shown_text(raw: &JsonValue) -> (r: String)
    ensures
        r@ == shown(raw@),
{
    match raw {
        JsonValue::Float { text, .. } => text.clone(),
        _ => json_text(raw),
    }
}

fn normalize_value(at: &str, target: ConditionTarget, raw: &JsonValue) -> (r: Result<
    JsonValue,
    String,
>)
    ensures
        match r {
            Ok(v) => normalized(at@, target, raw@) == Ok::<JsonModel, Seq<char>>(v@),
            Err(m) => normalized(at@, target, raw@) == Err::<JsonModel, Seq<char>>(m@),
        },
{
    match target.kind() {
        TargetKind::Bool => match bool_value(raw) {
            Some(b) => Ok(JsonValue::Bool(b)),
            None => {
                let mut message = at.to_owned();
                message.append(": boolean value required (got ");
                message.append(shown_text(raw).as_str());
                message.append(").");
                Err(message)
            },
        },
        TargetKind::Int => match int_value(raw) {
            None => {
                let mut message = at.to_owned();
                message.append(": whole-number value required (got ");
                message.append(shown_text(raw).as_str());
                message.append(").");
                Err(message)
            },
            Some(n) => {
                // A tier or an age out of range is refused here, so that a typo
                // surfaces as a clear error instead of a rule that silently
                // matches nobody.
                if matches!(target, ConditionTarget::SubTier) && (n < 1 || n > 3) {
                    let mut message = at.to_owned();
                    message.append(": sub tier must be 1, 2, or 3.");
                    return Err(message);
                }
                if matches!(target, ConditionTarget::FollowAgeDays) && n < 0 {
                    let mut message = at.to_owned();
                    message.append(": days must be 0 or greater.");
                    return Err(message);
                }
                Ok(JsonValue::Int(n))
            },
        },
    }
}

// ---------------------------------------------------------------------
// What an accepted rule is like
// ---------------------------------------------------------------------

/// A condition in its stored form: well typed, its numbers in range, and with
/// an upper end only where it is a range.
pub open spec fn acceptable(c: ConditionModel) -> bool {
    &&& c.well_typed()
    &&& c.value matches JsonModel::Int(n) ==> in_range(c.target, n as int)
    &&& c.operator is Between ==> (c.value_end matches Some(JsonModel::Int(n)) && in_range(
        c.target,
        n as int,
    ))
    &&& !(c.operator is Between) ==> c.value_end is None
}

/// A rule in its stored form: it grants on any relation and has no groups, or
/// it has as many groups and conditions as are allowed, all acceptable.
pub open spec fn acceptable_rule(tree: RuleModel) -> bool {
    if tree.grant_on_any_relation {
        tree.groups.len() == 0
    } else {
        &&& 1 <= tree.groups.len() <= MAX_GROUPS
        &&& forall|i: int|
            0 <= i < tree.groups.len() ==> 1 <= (#[trigger] tree.groups[i]).len()
                <= MAX_CONDITIONS_PER_GROUP
        &&& forall|i: int, j: int|
            0 <= i < tree.groups.len() && 0 <= j < tree.groups[i].len() ==> acceptable(
                #[trigger] tree.groups[i][j],
            )
    }
}

/// A condition is accepted exactly when its target and its operator are known,
/// white space around them aside, the operator fits the target, and each value
/// that is read can be brought into its stored form: both ends of a range, else
/// the one value. It then holds just these.
pub proof fn law_accepted_conditions_exactly(
    group_num: nat,
    cond_num: nat,
    raw: InputModel,
    c: ConditionModel,
)
    ensures
        validated(group_num, cond_num, raw) == Ok::<ConditionModel, Seq<char>>(c) <==> {
            let at = place(group_num, cond_num);
            &&& ConditionTarget::with_key(trimmed(raw.target)) == Some(c.target)
            &&& ConditionOperator::with_key(trimmed(raw.operator)) == Some(c.operator)
            &&& c.operator.fits(c.target.spec_kind())
            &&& normalized(at, c.target, raw.value) == Ok::<JsonModel, Seq<char>>(c.value)
            &&& if c.operator is Between {
                c.value_end matches Some(end) && raw.value_end matches Some(given) && normalized(
                    at,
                    c.target,
                    given,
                ) == Ok::<JsonModel, Seq<char>>(end)
            } else {
                c.value_end is None
            }
        },
{
}

proof fn lemma_validated_is_acceptable(group_num: nat, cond_num: nat, raw: InputModel)
    ensures
        validated(group_num, cond_num, raw) matches Ok(c) ==> acceptable(c),
{
}

proof fn lemma_conditions_are_acceptable(group_num: nat, group: Seq<InputModel>, n: nat)
    ensures
        validated_conditions(group_num, group, n) matches Ok(cs) ==> cs.len() == n && forall|j: int|
            0 <= j < n ==> acceptable(#[trigger] cs[j]),
    decreases n,
{
    if n > 0 {
        lemma_conditions_are_acceptable(group_num, group, (n - 1) as nat);
        lemma_validated_is_acceptable(group_num, n, group[n - 1]);
    }
}

proof fn lemma_groups_are_acceptable(groups: Seq<Seq<InputModel>>, n: nat)
    ensures
        validated_groups(groups, n) matches Ok(gs) ==> {
            &&& gs.len() == n
            &&& forall|i: int|
                0 <= i < n ==> 1 <= (#[trigger] gs[i]).len() <= MAX_CONDITIONS_PER_GROUP
            &&& forall|i: int, j: int|
                0 <= i < n && 0 <= j < gs[i].len() ==> acceptable(#[trigger] gs[i][j])
        },
    decreases n,
{
    if n > 0 {
        lemma_groups_are_acceptable(groups, (n - 1) as nat);
        lemma_conditions_are_acceptable(n, groups[n - 1], groups[n - 1].len());
        if let Ok(gs) = validated_groups(groups, n) {
            let before = validated_groups(groups, (n - 1) as nat)->Ok_0;
            assert forall|i: int, j: int| 0 <= i < n && 0 <= j < gs[i].len() implies acceptable(
                #[trigger] gs[i][j],
            ) by {
                if i < n - 1 {
                    assert(gs[i] == before[i]);
                    assert(acceptable(before[i][j]));
                }
            }
        }
    }
}

/// Whatever payload is accepted, the rule it gives is in its stored form and
/// grants on any relation exactly when the payload does.
pub proof fn law_accepted_rules_are_acceptable(body: BodyModel)
    ensures
        parsed_rule(body) matches Ok(tree) ==> acceptable_rule(tree)
            && tree.grant_on_any_relation == body.grant_on_any_relation
            && (tree.grant_on_any_relation || tree.well_typed()),
{
    lemma_groups_are_acceptable(body.groups, body.groups.len());
    if let Ok(tree) = parsed_rule(body) {
        if !tree.grant_on_any_relation {
            assert forall|i: int, j: int|
                0 <= i < tree.groups.len() && 0 <= j < tree.groups[i].len() implies (
            #[trigger] tree.groups[i][j]).well_typed() by {
                assert(acceptable(tree.groups[i][j]));
            }
        }
    }
}

/// The payload that spells out a condition.
pub open spec fn input_of(c: ConditionModel) -> InputModel {
    InputModel {
        target: c.target.key(),
        operator: c.operator.key(),
        value: c.value,
        value_end: c.value_end,
    }
}

/// The payload that spells out a rule.
pub open spec fn body_of(tree: RuleModel) -> BodyModel {
    BodyModel {
        grant_on_any_relation: tree.grant_on_any_relation,
        groups: tree.groups.map_values(
            |g: Seq<ConditionModel>| g.map_values(|c: ConditionModel| input_of(c)),
        ),
    }
}

proof fn lemma_trimmed_word(s: Seq<char>)
    requires
        s.len() > 0,
        !is_white_space(s[0]),
        !is_white_space(s.last()),
    ensures
        trimmed(s) == s,
{
}

proof fn lemma_target_key_reads_back(t: ConditionTarget)
    ensures
        ConditionTarget::with_key(trimmed(t.key())) == Some(t),
{
    reveal_strlit("is_follower");
    reveal_strlit("follow_age_days");
    reveal_strlit("is_subscriber");
    reveal_strlit("sub_tier");
    lemma_trimmed_word(t.key());
    law_target_keys(t.key(), t);
}

proof fn lemma_operator_key_reads_back(op: ConditionOperator)
    ensures
        ConditionOperator::with_key(trimmed(op.key())) == Some(op),
{
    reveal_strlit("eq");
    reveal_strlit("neq");
    reveal_strlit("gt");
    reveal_strlit("gte");
    reveal_strlit("lt");
    reveal_strlit("lte");
    reveal_strlit("between");
    lemma_trimmed_word(op.key());
    law_operator_keys(op.key(), op);
}

proof fn lemma_conditions_read_back(group_num: nat, group: Seq<ConditionModel>, n: nat)
    requires
        n <= group.len(),
        forall|j: int| 0 <= j < group.len() ==> acceptable(#[trigger] group[j]),
    ensures
        validated_conditions(
            group_num,
            group.map_values(|c: ConditionModel| input_of(c)),
            n,
        ) == Ok::<Seq<ConditionModel>, Seq<char>>(group.take(n as int)),
    decreases n,
{
    let inputs = group.map_values(|c: ConditionModel| input_of(c));
    if n > 0 {
        lemma_conditions_read_back(group_num, group, (n - 1) as nat);
        let c = group[n - 1];
        assert(acceptable(c));
        assert(inputs[n - 1] == input_of(c));
        lemma_target_key_reads_back(c.target);
        lemma_operator_key_reads_back(c.operator);
        assert(group.take(n as int) =~= group.take(n - 1).push(c));
    } else {
        assert(group.take(0) =~= Seq::empty());
    }
}

proof fn lemma_groups_read_back(groups: Seq<Seq<ConditionModel>>, n: nat)
    requires
        n <= groups.len(),
        forall|i: int|
            0 <= i < groups.len() ==> 1 <= (#[trigger] groups[i]).len()
                <= MAX_CONDITIONS_PER_GROUP,
        forall|i: int, j: int|
            0 <= i < groups.len() && 0 <= j < groups[i].len() ==> acceptable(
                #[trigger] groups[i][j],
            ),
    ensures
        validated_groups(
            groups.map_values(
                |g: Seq<ConditionModel>| g.map_values(|c: ConditionModel| input_of(c)),
            ),
            n,
        ) == Ok::<Seq<Seq<ConditionModel>>, Seq<char>>(groups.take(n as int)),
    decreases n,
{
    if n > 0 {
        lemma_groups_read_back(groups, (n - 1) as nat);
        let g = groups[n - 1];
        assert forall|j: int| 0 <= j < g.len() implies acceptable(#[trigger] g[j]) by {
            assert(acceptable(groups[n - 1][j]));
        }
        lemma_conditions_read_back(n, g, g.len());
        assert(g.take(g.len() as int) =~= g);
        assert(groups.take(n as int) =~= groups.take(n - 1).push(g));
    } else {
        assert(groups.take(0) =~= Seq::empty());
    }
}

/// Sending an accepted rule again gives the same rule.
pub proof fn law_accepted_rules_are_stable(tree: RuleModel)
    requires
        acceptable_rule(tree),
    ensures
        parsed_rule(body_of(tree)) == Ok::<RuleModel, Seq<char>>(tree),
{
    if tree.grant_on_any_relation {
        assert(tree.groups =~= Seq::empty());
    } else {
        lemma_groups_read_back(tree.groups, tree.groups.len());
        assert(tree.groups.take(tree.groups.len() as int) =~= tree.groups);
    }
}

/// Every accepted rule is read back from its document as it was saved.
pub proof fn law_accepted_rules_are_kept(body: BodyModel, tree: RuleModel)
    requires
        parsed_rule(body) == Ok::<RuleModel, Seq<char>>(tree),
    ensures
        rule_in(rule_json(tree)) == Some(tree),
{
    law_accepted_rules_are_acceptable(body);
    assert(ends_are_values(tree)) by {
        assert forall|i: int, j: int|
            0 <= i < tree.groups.len() && 0 <= j < tree.groups[i].len() implies (
        #[trigger] tree.groups[i][j]).value_end != Some(JsonModel::Null) by {
            assert(acceptable(tree.groups[i][j]));
        }
    }
    law_stored_rule_reads_back(tree);
}

// ---------------------------------------------------------------------
// What a payload comes to
// ---------------------------------------------------------------------

/// The same text, the case of ASCII letters aside. `word` is in lower case.
pub open spec fn same_letters(s: Seq<char>, word: Seq<char>) -> bool {
    s.len() == word.len() && forall|k: int|
        0 <= k < word.len() ==> (#[trigger] s[k] == word[k] || ('a' <= word[k] && word[k] <= 'z'
            && s[k] as u32 + 32 == word[k] as u32))
}

/// The text is `word`, white space around it and the case of its letters aside.
pub open spec fn spells(t: Seq<char>, word: Seq<char>) -> bool {
    exists|i: int, j: int|
        0 <= i <= j <= t.len() && all_white(t.take(i)) && all_white(t.skip(j)) && same_letters(
            #[trigger] t.subrange(i, j),
            word,
        )
}

proof fn lemma_spelled_word(t: Seq<char>, word: Seq<char>)
    requires
        word.len() > 0,
        forall|k: int|
            0 <= k < word.len() ==> ('a' <= #[trigger] word[k] && word[k] <= 'z') || ('0' <= word[k]
                && word[k] <= '9'),
    ensures
        spells(t, word) == (ascii_lower(trimmed(t)) == word),
{
    if ascii_lower(trimmed(t)) == word {
        law_trimming_takes_the_ends(t);
        let (i, j) = choose|i: int, j: int|
            0 <= i <= j <= t.len() && trimmed(t) == #[trigger] t.subrange(i, j) && all_white(
                t.take(i),
            ) && all_white(t.skip(j));
        let s = t.subrange(i, j);
        assert forall|k: int| 0 <= k < word.len() implies (#[trigger] s[k] == word[k] || ('a'
            <= word[k] && word[k] <= 'z' && s[k] as u32 + 32 == word[k] as u32)) by {
            assert(ascii_lower(s)[k] == ascii_lower_char(s[k]));
        }
        assert(same_letters(t.subrange(i, j), word));
    }
    if spells(t, word) {
        let (i, j) = choose|i: int, j: int|
            0 <= i <= j <= t.len() && all_white(t.take(i)) && all_white(t.skip(j)) && same_letters(
                #[trigger] t.subrange(i, j),
                word,
            );
        let s = t.subrange(i, j);
        assert(t =~= t.take(i) + s + t.skip(j));
        assert(s[0] == word[0] || s[0] as u32 + 32 == word[0] as u32);
        assert(s[s.len() - 1] == word[s.len() - 1] || s[s.len() - 1] as u32 + 32 == word[s.len() - 1] as u32);
        law_padding_is_trimmed(t.take(i), s, t.skip(j));
        assert forall|k: int| 0 <= k < word.len() implies ascii_lower(s)[k] == word[k] by {
            assert(s[k] == word[k] || s[k] as u32 + 32 == word[k] as u32);
        }
        assert(ascii_lower(s) =~= word);
    }
}

proof fn lemma_bool_words(t: Seq<char>)
    ensures
        spells(t, "true"@) == (ascii_lower(trimmed(t)) == "true"@),
        spells(t, "1"@) == (ascii_lower(trimmed(t)) == "1"@),
        spells(t, "yes"@) == (ascii_lower(trimmed(t)) == "yes"@),
        spells(t, "false"@) == (ascii_lower(trimmed(t)) == "false"@),
        spells(t, "0"@) == (ascii_lower(trimmed(t)) == "0"@),
        spells(t, "no"@) == (ascii_lower(trimmed(t)) == "no"@),
        "true"@ != "false"@ && "true"@ != "0"@ && "true"@ != "no"@,
        "1"@ != "false"@ && "1"@ != "0"@ && "1"@ != "no"@,
        "yes"@ != "false"@ && "yes"@ != "0"@ && "yes"@ != "no"@,
{
    reveal_strlit("true");
    reveal_strlit("1");
    reveal_strlit("yes");
    reveal_strlit("false");
    reveal_strlit("0");
    reveal_strlit("no");
    lemma_spelled_word(t, "true"@);
    lemma_spelled_word(t, "1"@);
    lemma_spelled_word(t, "yes"@);
    lemma_spelled_word(t, "false"@);
    lemma_spelled_word(t, "0"@);
    lemma_spelled_word(t, "no"@);
    assert("true"@.len() == 4 && "1"@.len() == 1 && "yes"@.len() == 3 && "false"@.len() == 5
        && "0"@.len() == 1 && "no"@.len() == 2);
    assert("1"@[0] != "0"@[0]);
}

/// A truth value is stored as what it is, and a text as the truth value that it
/// spells: true for "true", "1" and "yes", false for "false", "0" and "no", white
/// space around and the case of letters aside. Everything else is refused.
pub proof fn law_truth_values_are_stored_as_spelled(
    at: Seq<char>,
    target: ConditionTarget,
    raw: JsonModel,
    t: Seq<char>,
    b: bool,
)
    requires
        target is IsFollower || target is IsSubscriber,
    ensures
        normalized(at, target, JsonModel::Bool(b)) == Ok::<JsonModel, Seq<char>>(
            JsonModel::Bool(b),
        ),
        normalized(at, target, JsonModel::Text(t)) == Ok::<JsonModel, Seq<char>>(
            JsonModel::Bool(true),
        ) <==> spells(t, "true"@) || spells(t, "1"@) || spells(t, "yes"@),
        normalized(at, target, JsonModel::Text(t)) == Ok::<JsonModel, Seq<char>>(
            JsonModel::Bool(false),
        ) <==> spells(t, "false"@) || spells(t, "0"@) || spells(t, "no"@),
        normalized(at, target, JsonModel::Text(t)) is Err <==> !spells(t, "true"@) && !spells(
            t,
            "1"@,
        ) && !spells(t, "yes"@) && !spells(t, "false"@) && !spells(t, "0"@) && !spells(t, "no"@),
        !(raw is Bool) && !(raw is Text) ==> normalized(at, target, raw) is Err,
{
    lemma_bool_words(t);
}

/// A number is stored as it is where it makes sense: a tier from 1 to 3, days
/// from 0 on. One above the range of 64 bits counts as the largest, one with a
/// fraction as its whole part. Everything else is refused.
pub proof fn law_numbers_are_stored_as_given(
    at: Seq<char>,
    target: ConditionTarget,
    raw: JsonModel,
    n: i64,
    large: u64,
    text: Seq<char>,
)
    requires
        target is FollowAgeDays || target is SubTier,
    ensures
        target is SubTier ==> (normalized(at, target, JsonModel::Int(n)) == Ok::<
            JsonModel,
            Seq<char>,
        >(JsonModel::Int(n)) <==> n == 1 || n == 2 || n == 3),
        target is FollowAgeDays ==> (normalized(at, target, JsonModel::Int(n)) == Ok::<
            JsonModel,
            Seq<char>,
        >(JsonModel::Int(n)) <==> n >= 0),
        normalized(at, target, JsonModel::Int(n)) is Err <==> normalized(
            at,
            target,
            JsonModel::Int(n),
        ) != Ok::<JsonModel, Seq<char>>(JsonModel::Int(n)),
        normalized(at, target, JsonModel::Float { text, whole: n }) == normalized(
            at,
            target,
            JsonModel::Int(n),
        ),
        target is FollowAgeDays ==> normalized(at, target, JsonModel::Large(large)) == Ok::<
            JsonModel,
            Seq<char>,
        >(JsonModel::Int(0x7fff_ffff_ffff_ffff)),
        target is SubTier ==> normalized(at, target, JsonModel::Large(large)) is Err,
        raw is Null || raw is Bool || raw is Array || raw is Object ==> normalized(at, target, raw)
            is Err,
{
}

/// A number that comes as a text is read as the number it spells, white space
/// around it aside: the decimal notation of a number stands for that number, with
/// or without a plus sign. A text that is anything but a sign and digits is
/// refused, and so is a number that does not fit in 64 bits.
pub proof fn law_number_texts_are_read(
    at: Seq<char>,
    target: ConditionTarget,
    left: Seq<char>,
    n: i64,
    right: Seq<char>,
    t: Seq<char>,
)
    requires
        target is FollowAgeDays || target is SubTier,
        all_white(left),
        all_white(right),
    ensures
        normalized(at, target, JsonModel::Text(left + integer_text(n as int) + right)) is Ok
            == normalized(at, target, JsonModel::Int(n)) is Ok,
        normalized(at, target, JsonModel::Text(left + integer_text(n as int) + right)) matches Ok(v)
            ==> v == JsonModel::Int(n),
        normalized(at, target, JsonModel::Text(t)) matches Ok(v) ==> v matches JsonModel::Int(m)
            && integer_of(trimmed(t)) == Some(m as int),
        integer_of(trimmed(t)) is None ==> normalized(at, target, JsonModel::Text(t)) is Err,
        integer_of(trimmed(t)) matches Some(m) && !(i64::MIN <= m <= i64::MAX) ==> normalized(
            at,
            target,
            JsonModel::Text(t),
        ) is Err,
{
    let word = integer_text(n as int);
    law_integer_text_reads_back(n as int);
    lemma_number_is_no_space(n as int);
    law_padding_is_trimmed(left, word, right);
}

proof fn lemma_number_is_no_space(n: int)
    ensures
        integer_text(n).len() > 0,
        !is_white_space(integer_text(n)[0]),
        !is_white_space(integer_text(n).last()),
{
    law_integer_text_reads_back(n);
    let s = integer_text(n);
    if s[0] == '-' {
        let body = s.drop_first();
        assert(all_digits(body) && body.len() > 0);
        assert(s.last() == body[body.len() - 1]);
    } else {
        if s[0] == '+' {
            assert(decimal(n as nat) == s);
        }
        assert(integer_of(s) is Some);
    }
}

/// The payload has one condition.
pub open spec fn one_input(c: InputModel) -> BodyModel {
    BodyModel { grant_on_any_relation: false, groups: seq![seq![c]] }
}

proof fn lemma_one_input(c: InputModel)
    ensures
        parsed_rule(one_input(c)) == match validated(1, 1, c) {
            Ok(m) => Ok::<RuleModel, Seq<char>>(
                RuleModel { grant_on_any_relation: false, groups: seq![seq![m]] },
            ),
            Err(e) => Err(e),
        },
{
    let group = seq![c];
    let groups = seq![group];
    reveal_with_fuel(validated_conditions, 2);
    reveal_with_fuel(validated_groups, 2);
    assert(groups[0] == group && group[0] == c);
    if let Ok(m) = validated(1, 1, c) {
        assert(Seq::<ConditionModel>::empty().push(m) =~= seq![m]);
        assert(Seq::<Seq<ConditionModel>>::empty().push(seq![m]) =~= seq![seq![m]]);
    }
}

/// The rule that the rule builder sends for a truth value is kept as the rule
/// about that very fact: "is_follower" asks whether a viewer follows,
/// "is_subscriber" whether they subscribe, and the viewers who meet it are those
/// of whom the value that was sent is true.
pub proof fn law_flag_payloads_mean_what_they_say(
    c: InputModel,
    wanted: bool,
    facts: CacheData,
    now: Timestamp,
)
    requires
        trimmed(c.target) == "is_follower"@ || trimmed(c.target) == "is_subscriber"@,
        trimmed(c.operator) == "eq"@,
        c.value == JsonModel::Bool(wanted) || (c.value matches JsonModel::Text(t) && (if wanted {
            spells(t, "true"@) || spells(t, "1"@) || spells(t, "yes"@)
        } else {
            spells(t, "false"@) || spells(t, "0"@) || spells(t, "no"@)
        })),
    ensures
        parsed_rule(one_input(c)) matches Ok(tree) && rule_matches(tree, facts, now) == (wanted == (
        if trimmed(c.target) == "is_follower"@ {
            facts.is_following
        } else {
            facts.is_subscribed
        })),
{
    lemma_one_input(c);
    law_target_names(c.target);
    law_operator_names(c.operator, ConditionOperator::Eq);
    if let JsonModel::Text(t) = c.value {
        lemma_bool_words(t);
    }
    law_flags_are_taken_at_their_word(wanted, facts, now);
    if trimmed(c.target) == "is_follower"@ {
        assert(parsed_rule(one_input(c)) == Ok::<RuleModel, Seq<char>>(
            flag_rule(ConditionTarget::IsFollower, wanted),
        ));
    } else {
        law_target_keys("is_subscriber"@, ConditionTarget::IsFollower);
        assert(parsed_rule(one_input(c)) == Ok::<RuleModel, Seq<char>>(
            flag_rule(ConditionTarget::IsSubscriber, wanted),
        ));
    }
}

/// The rule that the rule builder sends for a number is kept as the comparison of
/// that very number by the operator of that name, where the number makes sense
/// for the target.
pub proof fn law_number_payloads_mean_what_they_say(
    c: InputModel,
    target: ConditionTarget,
    n: i64,
    high: i64,
)
    requires
        trimmed(c.target) == "follow_age_days"@ && target is FollowAgeDays && 0 <= n && 0 <= high
            || trimmed(c.target) == "sub_tier"@ && target is SubTier && 1 <= n <= 3 && 1 <= high
            <= 3,
        c.value == JsonModel::Int(n),
    ensures
        trimmed(c.operator) == "eq"@ ==> parsed_rule(one_input(c)) == Ok::<RuleModel, Seq<char>>(
            number_rule(target, ConditionOperator::Eq, n),
        ),
        trimmed(c.operator) == "neq"@ ==> parsed_rule(one_input(c)) == Ok::<RuleModel, Seq<char>>(
            number_rule(target, ConditionOperator::Neq, n),
        ),
        trimmed(c.operator) == "gt"@ ==> parsed_rule(one_input(c)) == Ok::<RuleModel, Seq<char>>(
            number_rule(target, ConditionOperator::Gt, n),
        ),
        trimmed(c.operator) == "gte"@ ==> parsed_rule(one_input(c)) == Ok::<RuleModel, Seq<char>>(
            number_rule(target, ConditionOperator::Gte, n),
        ),
        trimmed(c.operator) == "lt"@ ==> parsed_rule(one_input(c)) == Ok::<RuleModel, Seq<char>>(
            number_rule(target, ConditionOperator::Lt, n),
        ),
        trimmed(c.operator) == "lte"@ ==> parsed_rule(one_input(c)) == Ok::<RuleModel, Seq<char>>(
            number_rule(target, ConditionOperator::Lte, n),
        ),
        trimmed(c.operator) == "between"@ && c.value_end == Some(JsonModel::Int(high))
            ==> parsed_rule(one_input(c)) == Ok::<RuleModel, Seq<char>>(
            range_rule(target, n, high),
        ),
        trimmed(c.operator) == "between"@ && c.value_end is None ==> parsed_rule(one_input(c))
            is Err,
{
    lemma_one_input(c);
    law_target_names(c.target);
    law_operator_names(c.operator, ConditionOperator::Eq);
}

proof fn lemma_conditions_shape(group_num: nat, group: Seq<InputModel>, n: nat)
    requires
        n <= group.len(),
    ensures
        match validated_conditions(group_num, group, n) {
            Ok(cs) => cs.len() == n && forall|j: int|
                0 <= j < n ==> validated(group_num, (j + 1) as nat, group[j]) == Ok::<
                    ConditionModel,
                    Seq<char>,
                >(#[trigger] cs[j]),
            Err(e) => exists|j: int|
                0 <= j < n && #[trigger] validated(group_num, (j + 1) as nat, group[j]) == Err::<
                    ConditionModel,
                    Seq<char>,
                >(e) && forall|k: int|
                    0 <= k < j ==> #[trigger] validated(group_num, (k + 1) as nat, group[k]) is Ok,
        },
    decreases n,
{
    if n > 0 {
        lemma_conditions_shape(group_num, group, (n - 1) as nat);
        if let Ok(before) = validated_conditions(group_num, group, (n - 1) as nat) {
            if let Err(e) = validated(group_num, n, group[n - 1]) {
                assert forall|k: int| 0 <= k < n - 1 implies #[trigger] validated(
                    group_num,
                    (k + 1) as nat,
                    group[k],
                ) is Ok by {
                    assert(validated(group_num, (k + 1) as nat, group[k]) == Ok::<
                        ConditionModel,
                        Seq<char>,
                    >(before[k]));
                }
                assert(validated(group_num, ((n - 1) + 1) as nat, group[n - 1]) == Err::<
                    ConditionModel,
                    Seq<char>,
                >(e));
            }
        }
    }
}

proof fn lemma_groups_shape(groups: Seq<Seq<InputModel>>, n: nat)
    requires
        n <= groups.len(),
    ensures
        match validated_groups(groups, n) {
            Ok(gs) => gs.len() == n && forall|i: int|
                0 <= i < n ==> validated_group((i + 1) as nat, groups[i]) == Ok::<
                    Seq<ConditionModel>,
                    Seq<char>,
                >(#[trigger] gs[i]),
            Err(e) => exists|i: int|
                0 <= i < n && #[trigger] validated_group((i + 1) as nat, groups[i]) == Err::<
                    Seq<ConditionModel>,
                    Seq<char>,
                >(e) && forall|k: int|
                    0 <= k < i ==> #[trigger] validated_group((k + 1) as nat, groups[k]) is Ok,
        },
    decreases n,
{
    if n > 0 {
        lemma_groups_shape(groups, (n - 1) as nat);
        if let Ok(before) = validated_groups(groups, (n - 1) as nat) {
            if let Err(e) = validated_group(n, groups[n - 1]) {
                assert forall|k: int| 0 <= k < n - 1 implies #[trigger] validated_group(
                    (k + 1) as nat,
                    groups[k],
                ) is Ok by {
                    assert(validated_group((k + 1) as nat, groups[k]) == Ok::<
                        Seq<ConditionModel>,
                        Seq<char>,
                    >(before[k]));
                }
                assert(validated_group(((n - 1) + 1) as nat, groups[n - 1]) == Err::<
                    Seq<ConditionModel>,
                    Seq<char>,
                >(e));
            }
        }
    }
}

/// An accepted payload keeps its shape: as many groups, in each as many
/// conditions, and each condition what was made of the one at its place. Only a
/// payload of one to eight groups with one to eight conditions each is accepted,
/// unless it grants on any relation, which makes a rule without groups.
pub proof fn law_accepted_rules_keep_their_shape(body: BodyModel, tree: RuleModel, i: int, j: int)
    requires
        parsed_rule(body) == Ok::<RuleModel, Seq<char>>(tree),
    ensures
        tree.grant_on_any_relation == body.grant_on_any_relation,
        body.grant_on_any_relation ==> tree.groups.len() == 0,
        !body.grant_on_any_relation ==> {
            &&& 1 <= body.groups.len() <= 8
            &&& tree.groups.len() == body.groups.len()
            &&& 0 <= i < body.groups.len() ==> {
                &&& 1 <= body.groups[i].len() <= 8
                &&& tree.groups[i].len() == body.groups[i].len()
                &&& 0 <= j < body.groups[i].len() ==> validated(
                    (i + 1) as nat,
                    (j + 1) as nat,
                    body.groups[i][j],
                ) == Ok::<ConditionModel, Seq<char>>(tree.groups[i][j])
            }
        },
{
    if !body.grant_on_any_relation {
        lemma_groups_shape(body.groups, body.groups.len());
        if 0 <= i < body.groups.len() {
            assert(validated_group((i + 1) as nat, body.groups[i]) == Ok::<
                Seq<ConditionModel>,
                Seq<char>,
            >(tree.groups[i]));
            lemma_conditions_shape((i + 1) as nat, body.groups[i], body.groups[i].len());
        }
    }
}

/// The condition at this place is the first of the payload that cannot be
/// accepted, and this is said of it.
pub open spec fn first_fault(body: BodyModel, i: int, j: int, e: Seq<char>) -> bool {
    &&& 0 <= i < body.groups.len()
    &&& 0 <= j < body.groups[i].len()
    &&& validated((i + 1) as nat, (j + 1) as nat, body.groups[i][j]) == Err::<
        ConditionModel,
        Seq<char>,
    >(e)
    &&& forall|k: int, l: int|
        0 <= k < body.groups.len() && 0 <= l < body.groups[k].len() && (k < i || (k == i && l < j))
            ==> #[trigger] validated((k + 1) as nat, (l + 1) as nat, body.groups[k][l]) is Ok
}

/// A payload of the right size is refused only for one of its conditions, the
/// first that cannot be accepted, and with what is said of that one; where every
/// condition can be accepted, the payload is.
pub proof fn law_refusals_name_the_first_fault(body: BodyModel)
    requires
        !body.grant_on_any_relation,
        1 <= body.groups.len() <= 8,
        forall|i: int| 0 <= i < body.groups.len() ==> 1 <= (#[trigger] body.groups[i]).len() <= 8,
    ensures
        parsed_rule(body) matches Err(e) ==> exists|i: int, j: int| #[trigger]
            first_fault(body, i, j, e),
        (forall|i: int, j: int|
            0 <= i < body.groups.len() && 0 <= j < body.groups[i].len() ==> #[trigger] validated(
                (i + 1) as nat,
                (j + 1) as nat,
                body.groups[i][j],
            ) is Ok) ==> parsed_rule(body) is Ok,
{
    lemma_groups_shape(body.groups, body.groups.len());
    if let Err(e) = parsed_rule(body) {
        let i = choose|i: int|
            0 <= i < body.groups.len() && #[trigger] validated_group((i + 1) as nat, body.groups[i])
                == Err::<Seq<ConditionModel>, Seq<char>>(e) && forall|k: int|
                0 <= k < i ==> #[trigger] validated_group((k + 1) as nat, body.groups[k]) is Ok;
        lemma_conditions_shape((i + 1) as nat, body.groups[i], body.groups[i].len());
        let j = choose|j: int|
            0 <= j < body.groups[i].len() && #[trigger] validated(
                (i + 1) as nat,
                (j + 1) as nat,
                body.groups[i][j],
            ) == Err::<ConditionModel, Seq<char>>(e) && forall|k: int|
                0 <= k < j ==> #[trigger] validated(
                    (i + 1) as nat,
                    (k + 1) as nat,
                    body.groups[i][k],
                ) is Ok;
        assert forall|k: int, l: int|
            0 <= k < body.groups.len() && 0 <= l < body.groups[k].len() && (k < i || (k == i && l
                < j)) implies #[trigger] validated(
            (k + 1) as nat,
            (l + 1) as nat,
            body.groups[k][l],
        ) is Ok by {
            if k < i {
                assert(validated_group((k + 1) as nat, body.groups[k]) is Ok);
                lemma_conditions_shape((k + 1) as nat, body.groups[k], body.groups[k].len());
                let cs = validated_conditions(
                    (k + 1) as nat,
                    body.groups[k],
                    body.groups[k].len(),
                )->Ok_0;
                assert(validated((k + 1) as nat, (l + 1) as nat, body.groups[k][l]) == Ok::<
                    ConditionModel,
                    Seq<char>,
                >(cs[l]));
            }
        }
        assert(first_fault(body, i, j, e));
    }
}

/// The refusals that need no look at a condition.
pub proof fn law_refused_sizes(body: BodyModel)
    requires
        !body.grant_on_any_relation,
    ensures
        body.groups.len() == 0 ==> parsed_rule(body) == Err::<RuleModel, Seq<char>>(
            "Add at least one rule group, or pick \"anyone who linked their Twitch\"."@,
        ),
        body.groups.len() > 8 ==> parsed_rule(body) == Err::<RuleModel, Seq<char>>(
            "At most 8 OR-groups per role."@,
        ),
        1 <= body.groups.len() <= 8 && body.groups[0].len() == 0 ==> parsed_rule(body) == Err::<
            RuleModel,
            Seq<char>,
        >("Group #1: add at least one condition (or remove the group)."@),
        1 <= body.groups.len() <= 8 && body.groups[0].len() > 8 ==> parsed_rule(body) == Err::<
            RuleModel,
            Seq<char>,
        >("Group #1: at most 8 conditions per group."@),
{
    reveal_strlit("At most ");
    reveal_strlit(" OR-groups per role.");
    reveal_strlit("At most 8 OR-groups per role.");
    assert("At most "@ + decimal(8) + " OR-groups per role."@ =~= "At most 8 OR-groups per role."@);
    if 1 <= body.groups.len() <= 8 {
        reveal_strlit("Group #");
        reveal_strlit(": add at least one condition (or remove the group).");
        reveal_strlit("Group #1: add at least one condition (or remove the group).");
        reveal_strlit(": at most ");
        reveal_strlit(" conditions per group.");
        reveal_strlit("Group #1: at most 8 conditions per group.");
        assert("Group #"@ + decimal(1) + ": add at least one condition (or remove the group)."@
            =~= "Group #1: add at least one condition (or remove the group)."@);
        assert("Group #"@ + decimal(1) + ": at most "@ + decimal(8) + " conditions per group."@
            =~= "Group #1: at most 8 conditions per group."@);
        reveal_with_fuel(validated_groups, 2);
        if body.groups[0].len() == 0 || body.groups[0].len() > 8 {
            lemma_group_error_surfaces(body.groups, 1, body.groups.len());
        }
    }
}

/// What is said of a condition that is refused, and where it stands: an unknown
/// target or operator as it was written, an operator that does not fit, a value
/// of the wrong kind or out of range, a range without its end.
pub proof fn law_what_is_said_of_a_refused_condition(
    g: nat,
    n: nat,
    raw: InputModel,
    t: ConditionTarget,
    op: ConditionOperator,
)
    ensures
        ({
            let at = "Group #"@ + decimal(g) + ", condition #"@ + decimal(n);
            let target = ConditionTarget::with_key(trimmed(raw.target));
            let operator = ConditionOperator::with_key(trimmed(raw.operator));
            &&& target is None ==> validated(g, n, raw) == Err::<ConditionModel, Seq<char>>(
                at + ": unknown target '"@ + raw.target + "'."@,
            )
            &&& target is Some && operator is None ==> validated(g, n, raw) == Err::<
                ConditionModel,
                Seq<char>,
            >(at + ": unknown operator '"@ + raw.operator + "'."@)
            &&& target == Some(t) && operator == Some(op) && (t is IsFollower || t is IsSubscriber)
                && !(op is Eq) ==> validated(g, n, raw) == Err::<ConditionModel, Seq<char>>(
                at + ": operator '"@ + op.key() + "' is not valid for '"@ + t.key() + "'."@,
            )
            &&& target == Some(t) && operator == Some(op) && (t is IsFollower || t is IsSubscriber)
                && op is Eq && (raw.value is Null || raw.value is Int || raw.value is Large
                || raw.value is Array || raw.value is Object) ==> validated(g, n, raw) == Err::<
                ConditionModel,
                Seq<char>,
            >(at + ": boolean value required (got "@ + json_compact(raw.value) + ")."@)
            &&& target == Some(t) && operator == Some(op) && (t is IsFollower || t is IsSubscriber)
                && op is Eq && raw.value is Float ==> validated(g, n, raw) == Err::<
                ConditionModel,
                Seq<char>,
            >(at + ": boolean value required (got "@ + raw.value->text + ")."@)
            &&& target == Some(t) && operator is Some && (t is FollowAgeDays || t is SubTier) && (
            raw.value is Null || raw.value is Bool || raw.value is Array || raw.value is Object)
                ==> validated(g, n, raw) == Err::<ConditionModel, Seq<char>>(
                at + ": whole-number value required (got "@ + json_compact(raw.value) + ")."@,
            )
            &&& target == Some(ConditionTarget::SubTier) && operator is Some && (
            raw.value matches JsonModel::Int(k) && (k < 1 || k > 3)) ==> validated(g, n, raw)
                == Err::<ConditionModel, Seq<char>>(at + ": sub tier must be 1, 2, or 3."@)
            &&& target == Some(ConditionTarget::FollowAgeDays) && operator is Some && (
            raw.value matches JsonModel::Int(k) && k < 0) ==> validated(g, n, raw) == Err::<
                ConditionModel,
                Seq<char>,
            >(at + ": days must be 0 or greater."@)
            &&& target == Some(ConditionTarget::FollowAgeDays) && operator == Some(
                ConditionOperator::Between,
            ) && (raw.value matches JsonModel::Int(k) && k >= 0) && raw.value_end is None
                ==> validated(g, n, raw) == Err::<ConditionModel, Seq<char>>(
                at + ": \"between\" needs both a min and a max value."@,
            )
        }),
{
}

} // verus!
