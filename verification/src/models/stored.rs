//! How a rule tree is stored: the JSON document of a role link's rule.
//!
//! A record is an object with the field names as keys, or an array with the
//! fields in order. Keys that no field has are passed over.
use vstd::prelude::*;

use crate::json::{
    json_object, lemma_member_of_push, lemma_with, member, JsonModel, JsonValue,
};
use crate::models::condition::{
    law_operator_keys, law_target_keys, Condition, ConditionModel, ConditionOperator,
    ConditionTarget,
};
use crate::models::rule::{
    group_model, groups_model, unconfigured, ConditionGroup, RuleModel, RuleTree,
};
use crate::text::str_eq;

verus! {

// ---------------------------------------------------------------------
// What a document stands for
// ---------------------------------------------------------------------

/// The document can hold a record of that many fields.
pub open spec fn is_record(doc: JsonModel, fields: nat) -> bool {
    match doc {
        JsonModel::Object(_) => true,
        JsonModel::Array(items) => items.len() <= fields,
        _ => false,
    }
}

/// The field of a record: by its key in an object, by its place in an array.
pub open spec fn field(doc: JsonModel, place: int, key: Seq<char>) -> Option<JsonModel> {
    match doc {
        JsonModel::Object(members) => member(members, key),
        JsonModel::Array(items) => if place < items.len() {
            Some(items[place])
        } else {
            None
        },
        _ => None,
    }
}

/// The name that a document gives: a text, or an object whose only key it is,
/// with null as its value.
pub open spec fn name_in(doc: JsonModel) -> Option<Seq<char>> {
    match doc {
        JsonModel::Text(t) => Some(t),
        JsonModel::Object(members) => if members.len() > 0 && members.last().1 is Null && (forall|
            i: int,
        |
            0 <= i < members.len() ==> (#[trigger] members[i]).0 == members.last().0) {
            Some(members.last().0)
        } else {
            None
        },
        _ => None,
    }
}

pub open spec fn target_in(doc: JsonModel) -> Option<ConditionTarget> {
    match name_in(doc) {
        Some(name) => ConditionTarget::with_key(name),
        None => None,
    }
}

pub open spec fn operator_in(doc: JsonModel) -> Option<ConditionOperator> {
    match name_in(doc) {
        Some(name) => ConditionOperator::with_key(name),
        None => None,
    }
}

/// The value that an optional field holds: null counts as none.
pub open spec fn optional_in(doc: Option<JsonModel>) -> Option<JsonModel> {
    match doc {
        Some(JsonModel::Null) => None,
        other => other,
    }
}

pub open spec fn condition_in(doc: JsonModel) -> Option<ConditionModel> {
    if !is_record(doc, 4) {
        None
    } else {
        match (
            field(doc, 0, "target"@),
            field(doc, 1, "operator"@),
            field(doc, 2, "value"@),
        ) {
            (Some(target), Some(operator), Some(value)) => match (
                target_in(target),
                operator_in(operator),
            ) {
                (Some(target), Some(operator)) => Some(
                    ConditionModel {
                        target,
                        operator,
                        value,
                        value_end: optional_in(field(doc, 3, "value_end"@)),
                    },
                ),
                _ => None,
            },
            _ => None,
        }
    }
}

/// The conditions that the documents hold, where each of them holds one.
pub open spec fn conditions_in(docs: Seq<JsonModel>) -> Option<Seq<ConditionModel>>
    decreases docs.len(),
{
    if docs.len() == 0 {
        Some(Seq::empty())
    } else {
        match (conditions_in(docs.drop_last()), condition_in(docs.last())) {
            (Some(before), Some(c)) => Some(before.push(c)),
            _ => None,
        }
    }
}

/// The conditions of a group; a group without the field has none.
pub open spec fn group_in(doc: JsonModel) -> Option<Seq<ConditionModel>> {
    if !is_record(doc, 1) {
        None
    } else {
        match field(doc, 0, "conditions"@) {
            Some(JsonModel::Array(docs)) => conditions_in(docs),
            Some(_) => None,
            None => Some(Seq::empty()),
        }
    }
}

/// The groups that the documents hold, where each of them holds one.
pub open spec fn groups_in(docs: Seq<JsonModel>) -> Option<Seq<Seq<ConditionModel>>>
    decreases docs.len(),
{
    if docs.len() == 0 {
        Some(Seq::empty())
    } else {
        match (groups_in(docs.drop_last()), group_in(docs.last())) {
            (Some(before), Some(g)) => Some(before.push(g)),
            _ => None,
        }
    }
}

/// The rule that a document holds; nothing where it does not hold one. A
/// missing field is read as "grants to nobody" and as "no groups".
pub open spec fn rule_in(doc: JsonModel) -> Option<RuleModel> {
    if !is_record(doc, 2) {
        None
    } else {
        let grant = match field(doc, 0, "grant_on_any_relation"@) {
            Some(JsonModel::Bool(b)) => Some(b),
            Some(_) => None,
            None => Some(false),
        };
        let groups = match field(doc, 1, "groups"@) {
            Some(JsonModel::Array(docs)) => groups_in(docs),
            Some(_) => None,
            None => Some(Seq::empty()),
        };
        match (grant, groups) {
            (Some(grant_on_any_relation), Some(groups)) => Some(
                RuleModel { grant_on_any_relation, groups },
            ),
            _ => None,
        }
    }
}

/// The rule of a role link: what its document holds, or the rule that grants
/// to nobody where it holds none.
pub open spec fn stored_rule(doc: JsonModel) -> RuleModel {
    match rule_in(doc) {
        Some(rule) => rule,
        None => unconfigured(),
    }
}

// ---------------------------------------------------------------------
// The document of a rule
// ---------------------------------------------------------------------

pub open spec fn condition_json(c: ConditionModel) -> JsonModel {
    let doc = json_object().with("target"@, JsonModel::Text(c.target.key())).with(
        "operator"@,
        JsonModel::Text(c.operator.key()),
    ).with("value"@, c.value);
    match c.value_end {
        Some(end) => doc.with("value_end"@, end),
        None => doc,
    }
}

pub open spec fn group_json(group: Seq<ConditionModel>) -> JsonModel {
    json_object().with(
        "conditions"@,
        JsonModel::Array(group.map_values(|c: ConditionModel| condition_json(c))),
    )
}

pub open spec fn groups_json(groups: Seq<Seq<ConditionModel>>) -> JsonModel {
    JsonModel::Array(groups.map_values(|g: Seq<ConditionModel>| group_json(g)))
}

pub open spec fn rule_json(rule: RuleModel) -> JsonModel {
    json_object().with("grant_on_any_relation"@, JsonModel::Bool(rule.grant_on_any_relation)).with(
        "groups"@,
        groups_json(rule.groups),
    )
}

// ---------------------------------------------------------------------
// Reading and writing
// ---------------------------------------------------------------------

/// The field of a record.
fn field_of<'a>(doc: &'a JsonValue, place: usize, key: &str) -> (r: Option<&'a JsonValue>)
    ensures
        match r {
            Some(v) => field(doc@, place as int, key@) == Some(v@),
            None => field(doc@, place as int, key@) is None,
        },
{
    match doc {
        JsonValue::Object(_) => doc.get(key),
        JsonValue::Array(items) => if place < items.len() {
            Some(&items[place])
        } else {
            None
        },
        _ => None,
    }
}

fn record(doc: &JsonValue, fields: usize) -> (r: bool)
    ensures
        r == is_record(doc@, fields as nat),
{
    match doc {
        JsonValue::Object(_) => true,
        JsonValue::Array(items) => items.len() <= fields,
        _ => false,
    }
}

fn name_of(doc: &JsonValue) -> (r: Option<&str>)
    ensures
        match r {
            Some(t) => name_in(doc@) == Some(t@),
            None => name_in(doc@) is None,
        },
{
    match doc {
        JsonValue::Text(t) => Some(t.as_str()),
        JsonValue::Object(members) => {
            if members.len() == 0 {
                return None;
            }
            let ghost all = doc@->Object_0;
            let n: usize = members.len();
            assert(all[n - 1] == (members@[n - 1].0@, members@[n - 1].1@));
            if !matches!(members[n - 1].1, JsonValue::Null) {
                return None;
            }
            let mut i: usize = 0;
            while i < n
                invariant
                    i <= n,
                    n == members@.len(),
                    n > 0,
                    doc@ == JsonModel::Object(all),
                    all.len() == n,
                    forall|j: int|
                        0 <= j < n ==> (#[trigger] all[j]) == (members@[j].0@, members@[j].1@),
                    forall|j: int| 0 <= j < i ==> (#[trigger] all[j]).0 == all.last().0,
                decreases n - i,
            {
                assert(all[i as int].0 == members@[i as int].0@);
                if !str_eq(members[i].0.as_str(), members[n - 1].0.as_str()) {
                    return None;
                }
                i = i + 1;
            }
            Some(members[n - 1].0.as_str())
        },
        _ => None,
    }
}

fn read_condition(doc: &JsonValue) -> (r: Option<Condition>)
    ensures
        match r {
            Some(c) => condition_in(doc@) == Some(c@),
            None => condition_in(doc@) is None,
        },
{
    if !record(doc, 4) {
        return None;
    }
    let (target, operator, value) = match (
        field_of(doc, 0, "target"),
        field_of(doc, 1, "operator"),
        field_of(doc, 2, "value"),
    ) {
        (Some(t), Some(o), Some(v)) => (t, o, v),
        _ => {
            return None;
        },
    };
    let target = match name_of(target) {
        Some(name) => match ConditionTarget::from_key(name) {
            Some(t) => t,
            None => {
                return None;
            },
        },
        None => {
            return None;
        },
    };
    let operator = match name_of(operator) {
        Some(name) => match ConditionOperator::from_key(name) {
            Some(o) => o,
            None => {
                return None;
            },
        },
        None => {
            return None;
        },
    };
    let value_end = match field_of(doc, 3, "value_end") {
        Some(JsonValue::Null) => None,
        Some(end) => Some(end.clone()),
        None => None,
    };
    Some(Condition { target, operator, value: value.clone(), value_end })
}

fn read_group(doc: &JsonValue) -> (r: Option<ConditionGroup>)
    ensures
        match r {
            Some(g) => group_in(doc@) == Some(g@),
            None => group_in(doc@) is None,
        },
{
    if !record(doc, 1) {
        return None;
    }
    match field_of(doc, 0, "conditions") {
        Some(JsonValue::Array(items)) => {
            let ghost docs = field(doc@, 0, "conditions"@)->0->Array_0;
            let mut conditions: Vec<Condition> = Vec::new();
            let mut i: usize = 0;
            proof {
                assert(docs.take(0) =~= Seq::empty());
                assert(group_model(conditions@) =~= Seq::empty());
            }
            while i < items.len()
                invariant
                    i <= items@.len(),
                    docs.len() == items@.len(),
                    is_record(doc@, 1),
                    field(doc@, 0, "conditions"@) == Some(JsonModel::Array(docs)),
                    forall|j: int| 0 <= j < docs.len() ==> (#[trigger] docs[j]) == items@[j]@,
                    conditions_in(docs.take(i as int)) == Some(group_model(conditions@)),
                decreases items@.len() - i,
            {
                proof {
                    assert(docs.take(i + 1).drop_last() =~= docs.take(i as int));
                    assert(docs.take(i + 1).last() == items@[i as int]@);
                }
                let ghost before = conditions@;
                match read_condition(&items[i]) {
                    Some(c) => {
                        conditions.push(c);
                        assert(group_model(conditions@) =~= group_model(before).push(c@));
                    },
                    None => {
                        proof {
                            lemma_conditions_all_or_nothing(docs, i + 1);
                        }
                        return None;
                    },
                }
                i = i + 1;
            }
            assert(docs.take(i as int) =~= docs);
            Some(ConditionGroup { conditions })
        },
        Some(_) => None,
        None => Some(ConditionGroup::default()),
    }
}

/// Where a beginning of the documents does not hold conditions, neither do all.
proof fn lemma_conditions_all_or_nothing(docs: Seq<JsonModel>, n: int)
    requires
        0 <= n <= docs.len(),
        conditions_in(docs.take(n)) is None,
    ensures
        conditions_in(docs) is None,
    decreases docs.len(),
{
    if n == docs.len() {
        assert(docs.take(n) =~= docs);
    } else {
        assert(docs.drop_last().take(n) =~= docs.take(n));
        lemma_conditions_all_or_nothing(docs.drop_last(), n);
    }
}

proof fn lemma_groups_all_or_nothing(docs: Seq<JsonModel>, n: int)
    requires
        0 <= n <= docs.len(),
        groups_in(docs.take(n)) is None,
    ensures
        groups_in(docs) is None,
    decreases docs.len(),
{
    if n == docs.len() {
        assert(docs.take(n) =~= docs);
    } else {
        assert(docs.drop_last().take(n) =~= docs.take(n));
        lemma_groups_all_or_nothing(docs.drop_last(), n);
    }
}

impl RuleTree {
    /// The rule that a document holds; nothing where it does not hold one.
    pub fn from_json(doc: &JsonValue) -> (r: Option<RuleTree>)
        ensures
            match r {
                Some(t) => rule_in(doc@) == Some(t@),
                None => rule_in(doc@) is None,
            },
    {
        if !record(doc, 2) {
            return None;
        }
        let grant_on_any_relation: bool = match field_of(doc, 0, "grant_on_any_relation") {
            Some(JsonValue::Bool(b)) => *b,
            Some(_) => {
                return None;
            },
            None => false,
        };
        let mut groups: Vec<ConditionGroup> = Vec::new();
        match field_of(doc, 1, "groups") {
            Some(JsonValue::Array(items)) => {
                let ghost docs = field(doc@, 1, "groups"@)->0->Array_0;
                let mut i: usize = 0;
                proof {
                    assert(docs.take(0) =~= Seq::empty());
                    assert(groups_model(groups@) =~= Seq::empty());
                }
                while i < items.len()
                    invariant
                        i <= items@.len(),
                        docs.len() == items@.len(),
                        field(doc@, 1, "groups"@) == Some(JsonModel::Array(docs)),
                        forall|j: int| 0 <= j < docs.len() ==> (#[trigger] docs[j]) == items@[j]@,
                        groups_in(docs.take(i as int)) == Some(groups_model(groups@)),
                    decreases items@.len() - i,
                {
                    proof {
                        assert(docs.take(i + 1).drop_last() =~= docs.take(i as int));
                        assert(docs.take(i + 1).last() == items@[i as int]@);
                    }
                    let ghost before = groups@;
                    match read_group(&items[i]) {
                        Some(g) => {
                            groups.push(g);
                            assert(groups_model(groups@) =~= groups_model(before).push(g@));
                        },
                        None => {
                            proof {
                                lemma_groups_all_or_nothing(docs, i + 1);
                            }
                            return None;
                        },
                    }
                    i = i + 1;
                }
                assert(docs.take(i as int) =~= docs);
            },
            Some(_) => {
                return None;
            },
            None => {
                assert(groups_model(groups@) =~= Seq::empty());
            },
        }
        Some(RuleTree { grant_on_any_relation, groups })
    }

    /// The rule of a role link: what its document holds, or the rule that
    /// grants to nobody where it holds none.
    pub fn from_stored(doc: &JsonValue) -> (r: RuleTree)
        ensures
            r@ == stored_rule(doc@),
    {
        match RuleTree::from_json(doc) {
            Some(tree) => tree,
            None => RuleTree::default(),
        }
    }

    /// The groups as a document.
    pub fn groups_to_json(&self) -> (r: JsonValue)
        ensures
            r@ == groups_json(self@.groups),
    {
        let mut docs = JsonValue::array();
        let mut i: usize = 0;
        let ghost all = groups_json(self@.groups)->Array_0;
        assert(docs@->Array_0 =~= all.take(0));
        while i < self.groups.len()
            invariant
                i <= self.groups@.len(),
                all == groups_json(self@.groups)->Array_0,
                all.len() == self.groups@.len(),
                docs@ == JsonModel::Array(all.take(i as int)),
            decreases self.groups@.len() - i,
        {
            assert(self@.groups[i as int] == self.groups@[i as int]@);
            docs = docs.item(write_group(&self.groups[i]));
            assert(all.take(i as int).push(all[i as int]) =~= all.take(i + 1));
            i = i + 1;
        }
        assert(all.take(i as int) =~= all);
        docs
    }

    /// The document of the rule.
    pub fn to_json(&self) -> (r: JsonValue)
        ensures
            r@ == rule_json(self@),
    {
        JsonValue::object().with(
            "grant_on_any_relation",
            JsonValue::Bool(self.grant_on_any_relation),
        ).with("groups", self.groups_to_json())
    }
}

fn write_condition(c: &Condition) -> (r: JsonValue)
    ensures
        r@ == condition_json(c@),
{
    let doc = JsonValue::object().with("target", JsonValue::text(c.target.as_str())).with(
        "operator",
        JsonValue::text(c.operator.as_str()),
    ).with("value", c.value.clone());
    match &c.value_end {
        Some(end) => doc.with("value_end", end.clone()),
        None => doc,
    }
}

fn write_group(group: &ConditionGroup) -> (r: JsonValue)
    ensures
        r@ == group_json(group@),
{
    let mut docs = JsonValue::array();
    let mut i: usize = 0;
    let ghost all = group@.map_values(|c: ConditionModel| condition_json(c));
    assert(docs@->Array_0 =~= all.take(0));
    while i < group.conditions.len()
        invariant
            i <= group.conditions@.len(),
            all == group@.map_values(|c: ConditionModel| condition_json(c)),
            all.len() == group.conditions@.len(),
            docs@ == JsonModel::Array(all.take(i as int)),
        decreases group.conditions@.len() - i,
    {
        assert(group@[i as int] == group.conditions@[i as int]@);
        docs = docs.item(write_condition(&group.conditions[i]));
        assert(all.take(i as int).push(all[i as int]) =~= all.take(i + 1));
        i = i + 1;
    }
    assert(all.take(i as int) =~= all);
    JsonValue::object().with("conditions", docs)
}

// ---------------------------------------------------------------------
// Laws
// ---------------------------------------------------------------------

/// No end of a range is written as null, which would be read as no end.
pub open spec fn ends_are_values(rule: RuleModel) -> bool {
    forall|i: int, j: int|
        0 <= i < rule.groups.len() && 0 <= j < rule.groups[i].len() ==> (
        #[trigger] rule.groups[i][j]).value_end != Some(JsonModel::Null)
}

proof fn lemma_condition_reads_back(c: ConditionModel)
    requires
        c.value_end != Some(JsonModel::Null),
    ensures
        condition_in(condition_json(c)) == Some(c),
{
    reveal_strlit("target");
    reveal_strlit("operator");
    reveal_strlit("value");
    reveal_strlit("value_end");
    assert("target"@.len() == 6 && "operator"@.len() == 8 && "value"@.len() == 5
        && "value_end"@.len() == 9);
    let m0 = Seq::<(Seq<char>, JsonModel)>::empty();
    let target = JsonModel::Text(c.target.key());
    let operator = JsonModel::Text(c.operator.key());
    let m1 = m0.push(("target"@, target));
    let m2 = m1.push(("operator"@, operator));
    let m3 = m2.push(("value"@, c.value));
    assert forall|k: Seq<char>| #[trigger] member(m3, k) == if k == "value"@ {
        Some(c.value)
    } else if k == "operator"@ {
        Some(operator)
    } else if k == "target"@ {
        Some(target)
    } else {
        None
    } by {
        lemma_member_of_push(m0, "target"@, target, k);
        lemma_member_of_push(m1, "operator"@, operator, k);
        lemma_member_of_push(m2, "value"@, c.value, k);
    }
    if let Some(end) = c.value_end {
        assert forall|k: Seq<char>| #[trigger]
            member(m3.push(("value_end"@, end)), k) == if k == "value_end"@ {
            Some(end)
        } else {
            member(m3, k)
        } by {
            lemma_member_of_push(m3, "value_end"@, end, k);
        }
    }
    law_target_keys(c.target.key(), c.target);
    law_operator_keys(c.operator.key(), c.operator);
}

proof fn lemma_conditions_read_back(group: Seq<ConditionModel>)
    requires
        forall|j: int|
            0 <= j < group.len() ==> (#[trigger] group[j]).value_end != Some(JsonModel::Null),
    ensures
        conditions_in(group.map_values(|c: ConditionModel| condition_json(c))) == Some(group),
    decreases group.len(),
{
    let docs = group.map_values(|c: ConditionModel| condition_json(c));
    if group.len() > 0 {
        let before = group.drop_last();
        assert forall|j: int| 0 <= j < before.len() implies (#[trigger] before[j]).value_end
            != Some(JsonModel::Null) by {
            assert(before[j] == group[j]);
        }
        lemma_conditions_read_back(before);
        assert(docs.drop_last() =~= before.map_values(|c: ConditionModel| condition_json(c)));
        assert(group.last() == group[group.len() - 1]);
        lemma_condition_reads_back(group.last());
        assert(before.push(group.last()) =~= group);
    } else {
        assert(docs =~= Seq::empty());
        assert(group =~= Seq::empty());
    }
}

proof fn lemma_groups_read_back(groups: Seq<Seq<ConditionModel>>)
    requires
        forall|i: int, j: int|
            0 <= i < groups.len() && 0 <= j < groups[i].len() ==> (
            #[trigger] groups[i][j]).value_end != Some(JsonModel::Null),
    ensures
        groups_in(groups.map_values(|g: Seq<ConditionModel>| group_json(g))) == Some(groups),
    decreases groups.len(),
{
    let docs = groups.map_values(|g: Seq<ConditionModel>| group_json(g));
    if groups.len() > 0 {
        let before = groups.drop_last();
        let last = groups.last();
        assert forall|i: int, j: int| 0 <= i < before.len() && 0 <= j < before[i].len() implies (
        #[trigger] before[i][j]).value_end != Some(JsonModel::Null) by {
            assert(before[i] == groups[i]);
            assert(groups[i][j].value_end != Some(JsonModel::Null));
        }
        lemma_groups_read_back(before);
        assert(docs.drop_last() =~= before.map_values(|g: Seq<ConditionModel>| group_json(g)));
        assert forall|j: int| 0 <= j < last.len() implies (#[trigger] last[j]).value_end != Some(
            JsonModel::Null,
        ) by {
            assert(last[j] == groups[groups.len() - 1][j]);
        }
        lemma_conditions_read_back(last);
        lemma_member_of_push(
            Seq::empty(),
            "conditions"@,
            JsonModel::Array(last.map_values(|c: ConditionModel| condition_json(c))),
            "conditions"@,
        );
        assert(group_in(group_json(last)) == Some(last));
        assert(before.push(last) =~= groups);
    } else {
        assert(docs =~= Seq::empty());
        assert(groups =~= Seq::empty());
    }
}

/// Reading the document that was written of a rule gives back the rule.
pub proof fn law_stored_rule_reads_back(rule: RuleModel)
    requires
        ends_are_values(rule),
    ensures
        rule_in(rule_json(rule)) == Some(rule),
        stored_rule(rule_json(rule)) == rule,
{
    reveal_strlit("grant_on_any_relation");
    reveal_strlit("groups");
    assert("grant_on_any_relation"@.len() == 21 && "groups"@.len() == 6);
    let m0 = Seq::<(Seq<char>, JsonModel)>::empty();
    let grant = JsonModel::Bool(rule.grant_on_any_relation);
    let m1 = m0.push(("grant_on_any_relation"@, grant));
    lemma_member_of_push(m0, "grant_on_any_relation"@, grant, "grant_on_any_relation"@);
    lemma_member_of_push(m1, "groups"@, groups_json(rule.groups), "grant_on_any_relation"@);
    lemma_member_of_push(m1, "groups"@, groups_json(rule.groups), "groups"@);
    lemma_groups_read_back(rule.groups);
}

/// A document that does not hold a rule grants to nobody.
pub proof fn law_unreadable_rule_is_unconfigured(doc: JsonModel)
    requires
        rule_in(doc) is None,
    ensures
        stored_rule(doc).is_unconfigured(),
{
}

/// The document of a condition names its target and its operator by their keys
/// and holds its value, and the end of its range where it has one.
pub proof fn law_condition_documents(c: ConditionModel)
    ensures
        condition_json(c).get("target"@) == Some(JsonModel::Text(c.target.key())),
        condition_json(c).get("operator"@) == Some(JsonModel::Text(c.operator.key())),
        condition_json(c).get("value"@) == Some(c.value),
        condition_json(c).get("value_end"@) == c.value_end,
{
    reveal_strlit("target");
    reveal_strlit("operator");
    reveal_strlit("value");
    assert("target"@.len() == 6 && "operator"@.len() == 8 && "value"@.len() == 5);
    let d0 = json_object();
    let v1 = JsonModel::Text(c.target.key());
    let d1 = d0.with("target"@, v1);
    lemma_with(d0, "target"@, v1);
    let v2 = JsonModel::Text(c.operator.key());
    let d2 = d1.with("operator"@, v2);
    lemma_with(d1, "operator"@, v2);
    let v3 = c.value;
    let d3 = d2.with("value"@, v3);
    lemma_with(d2, "value"@, v3);
    reveal_strlit("value_end");
    assert("value_end"@.len() == 9);
    if let Some(end) = c.value_end {
        lemma_with(d3, "value_end"@, end);
        assert(condition_json(c) == d3.with("value_end"@, end));
    } else {
        assert(condition_json(c) == d3);
    }
}

/// The document of a rule says whether it grants on any relation and holds its
/// groups in order, each with its conditions in order.
pub proof fn law_rule_documents(rule: RuleModel, i: int, j: int)
    requires
        0 <= i < rule.groups.len(),
        0 <= j < rule.groups[i].len(),
    ensures
        rule_json(rule).get("grant_on_any_relation"@) == Some(
            JsonModel::Bool(rule.grant_on_any_relation),
        ),
        rule_json(rule).get("groups"@) matches Some(JsonModel::Array(groups)) && groups.len()
            == rule.groups.len() && (groups[i].get("conditions"@) matches Some(
            JsonModel::Array(conditions),
        ) && conditions.len() == rule.groups[i].len() && conditions[j] == condition_json(
            rule.groups[i][j],
        )),
{
    reveal_strlit("grant_on_any_relation");
    reveal_strlit("groups");
    assert("grant_on_any_relation"@.len() == 21 && "groups"@.len() == 6);
    let d0 = json_object();
    let v1 = JsonModel::Bool(rule.grant_on_any_relation);
    let d1 = d0.with("grant_on_any_relation"@, v1);
    lemma_with(d0, "grant_on_any_relation"@, v1);
    let v2 = groups_json(rule.groups);
    let d2 = d1.with("groups"@, v2);
    lemma_with(d1, "groups"@, v2);
    assert(rule_json(rule) == d2);
    let group = rule.groups[i];
    let conditions = JsonModel::Array(group.map_values(|c: ConditionModel| condition_json(c)));
    lemma_with(d0, "conditions"@, conditions);
    assert(group_json(group) == d0.with("conditions"@, conditions));
}

/// A condition is read of an object by its keys: the target and the operator by
/// their names, the value as it stands, and the end of a range where there is
/// one that is not null. Without one of the first three there is no condition.
pub proof fn law_conditions_are_read_by_their_keys(
    doc: JsonModel,
    target: ConditionTarget,
    operator: ConditionOperator,
    value: JsonModel,
)
    requires
        doc is Object,
    ensures
        doc.get("target"@) == Some(JsonModel::Text(target.key())) && doc.get("operator"@) == Some(
            JsonModel::Text(operator.key()),
        ) && doc.get("value"@) == Some(value) ==> condition_in(doc) == Some(
            ConditionModel {
                target,
                operator,
                value,
                value_end: match doc.get("value_end"@) {
                    Some(end) => if end is Null {
                        None
                    } else {
                        Some(end)
                    },
                    None => None,
                },
            },
        ),
        doc.get("target"@) is None || doc.get("operator"@) is None || doc.get("value"@) is None
            ==> condition_in(doc) is None,
{
    law_target_keys(target.key(), target);
    law_operator_keys(operator.key(), operator);
}

/// A rule is read of an object by its keys. Without the first it does not grant
/// on any relation, without the second it has no groups; what is not an object or
/// an array is no rule.
pub proof fn law_rules_are_read_by_their_keys(doc: JsonModel, b: bool)
    ensures
        doc is Object && doc.get("grant_on_any_relation"@) == Some(JsonModel::Bool(b)) && doc.get(
            "groups"@,
        ) is None ==> rule_in(doc) == Some(
            RuleModel { grant_on_any_relation: b, groups: Seq::empty() },
        ),
        doc is Object && doc.get("grant_on_any_relation"@) is None && doc.get("groups"@) is None
            ==> rule_in(doc) == Some(unconfigured()),
        !(doc is Object) && !(doc is Array) ==> rule_in(doc) is None && stored_rule(
            doc,
        ).is_unconfigured(),
{
}

/// A condition may also be written as an array with its fields in order.
pub proof fn law_conditions_are_read_in_order(
    target: ConditionTarget,
    operator: ConditionOperator,
    value: JsonModel,
    end: JsonModel,
)
    requires
        !(end is Null),
    ensures
        condition_in(
            JsonModel::Array(
                seq![JsonModel::Text(target.key()), JsonModel::Text(operator.key()), value],
            ),
        ) == Some(ConditionModel { target, operator, value, value_end: None }),
        condition_in(
            JsonModel::Array(
                seq![JsonModel::Text(target.key()), JsonModel::Text(operator.key()), value, end],
            ),
        ) == Some(ConditionModel { target, operator, value, value_end: Some(end) }),
{
    law_target_keys(target.key(), target);
    law_operator_keys(operator.key(), operator);
}

/// A list of conditions is read all or not at all: where each document holds a
/// condition, these are the conditions, in order; where one does not, there are
/// none.
pub proof fn law_conditions_are_read_all_or_not_at_all(
    docs: Seq<JsonModel>,
    group: Seq<ConditionModel>,
)
    ensures
        conditions_in(docs) == Some(group) <==> group.len() == docs.len() && forall|i: int|
            0 <= i < docs.len() ==> condition_in(#[trigger] docs[i]) == Some(group[i]),
        conditions_in(docs) is None <==> exists|i: int|
            0 <= i < docs.len() && condition_in(#[trigger] docs[i]) is None,
    decreases docs.len(),
{
    if docs.len() == 0 {
        if group.len() == 0 {
            assert(group =~= Seq::empty());
        }
    } else {
        let before = docs.drop_last();
        let last = docs.len() - 1;
        law_conditions_are_read_all_or_not_at_all(
            before,
            if group.len() > 0 {
                group.drop_last()
            } else {
                group
            },
        );
        assert(docs[last] == docs.last());
        assert(forall|i: int| 0 <= i < before.len() ==> before[i] == #[trigger] docs[i]);
        if conditions_in(before) is None {
            let i = choose|i: int| 0 <= i < before.len() && condition_in(#[trigger] before[i]) is None;
            assert(condition_in(docs[i]) is None);
        }
        if group.len() == docs.len() && (forall|i: int|
            0 <= i < docs.len() ==> condition_in(#[trigger] docs[i]) == Some(group[i])) {
            let shorter = group.drop_last();
            assert forall|i: int| 0 <= i < before.len() implies condition_in(#[trigger] before[i])
                == Some(shorter[i]) by {
                assert(condition_in(docs[i]) == Some(group[i]));
            }
            assert(shorter.push(group.last()) =~= group);
        }
        if conditions_in(docs) == Some(group) {
            let done = conditions_in(before)->0;
            assert(group.drop_last() =~= done);
            assert forall|i: int| 0 <= i < docs.len() implies condition_in(#[trigger] docs[i])
                == Some(group[i]) by {
                if i < before.len() {
                    assert(condition_in(before[i]) == Some(group.drop_last()[i]));
                }
            }
        }
    }
}

/// A list of groups is read all or not at all.
pub proof fn law_groups_are_read_all_or_not_at_all(
    docs: Seq<JsonModel>,
    groups: Seq<Seq<ConditionModel>>,
)
    ensures
        groups_in(docs) == Some(groups) <==> groups.len() == docs.len() && forall|i: int|
            0 <= i < docs.len() ==> group_in(#[trigger] docs[i]) == Some(groups[i]),
        groups_in(docs) is None <==> exists|i: int|
            0 <= i < docs.len() && group_in(#[trigger] docs[i]) is None,
    decreases docs.len(),
{
    if docs.len() == 0 {
        if groups.len() == 0 {
            assert(groups =~= Seq::empty());
        }
    } else {
        let before = docs.drop_last();
        let last = docs.len() - 1;
        law_groups_are_read_all_or_not_at_all(
            before,
            if groups.len() > 0 {
                groups.drop_last()
            } else {
                groups
            },
        );
        assert(docs[last] == docs.last());
        assert(forall|i: int| 0 <= i < before.len() ==> before[i] == #[trigger] docs[i]);
        if groups_in(before) is None {
            let i = choose|i: int| 0 <= i < before.len() && group_in(#[trigger] before[i]) is None;
            assert(group_in(docs[i]) is None);
        }
        if groups.len() == docs.len() && (forall|i: int|
            0 <= i < docs.len() ==> group_in(#[trigger] docs[i]) == Some(groups[i])) {
            let shorter = groups.drop_last();
            assert forall|i: int| 0 <= i < before.len() implies group_in(#[trigger] before[i])
                == Some(shorter[i]) by {
                assert(group_in(docs[i]) == Some(groups[i]));
            }
            assert(shorter.push(groups.last()) =~= groups);
        }
        if groups_in(docs) == Some(groups) {
            let done = groups_in(before)->0;
            assert(groups.drop_last() =~= done);
            assert forall|i: int| 0 <= i < docs.len() implies group_in(#[trigger] docs[i])
                == Some(groups[i]) by {
                if i < before.len() {
                    assert(group_in(before[i]) == Some(groups.drop_last()[i]));
                }
            }
        }
    }
}

/// One condition that cannot be read spoils the whole rule: it then grants to
/// nobody. A rule that can be read has just the groups that are written.
pub proof fn law_one_fault_spoils_the_rule(
    doc: JsonModel,
    docs: Seq<JsonModel>,
    conditions: Seq<JsonModel>,
    i: int,
    j: int,
)
    requires
        doc is Object,
        doc.get("groups"@) == Some(JsonModel::Array(docs)),
    ensures
        rule_in(doc) matches Some(rule) ==> rule.groups.len() == docs.len() && (0 <= i < docs.len()
            ==> group_in(docs[i]) == Some(rule.groups[i])),
        0 <= i < docs.len() && docs[i] is Object && docs[i].get("conditions"@) == Some(
            JsonModel::Array(conditions),
        ) && 0 <= j < conditions.len() && condition_in(conditions[j]) is None ==> rule_in(doc)
            is None && stored_rule(doc).is_unconfigured(),
        0 <= i < docs.len() && docs[i] is Object && docs[i].get("conditions"@) == Some(
            JsonModel::Array(conditions),
        ) && 0 <= j < conditions.len() ==> (rule_in(doc) matches Some(rule) ==> rule.groups[i].len()
            == conditions.len() && condition_in(conditions[j]) == Some(rule.groups[i][j])),
        doc.get("grant_on_any_relation"@) matches Some(JsonModel::Bool(b)) ==> (rule_in(
            doc,
        ) matches Some(rule) ==> rule.grant_on_any_relation == b),
        doc.get("grant_on_any_relation"@) is None ==> (rule_in(doc) matches Some(rule)
            ==> !rule.grant_on_any_relation),
{
    match groups_in(docs) {
        Some(groups) => {
            law_groups_are_read_all_or_not_at_all(docs, groups);
            if 0 <= i < docs.len() {
                assert(group_in(docs[i]) == Some(groups[i]));
                if docs[i] is Object && docs[i].get("conditions"@) == Some(
                    JsonModel::Array(conditions),
                ) && 0 <= j < conditions.len() {
                    law_conditions_are_read_all_or_not_at_all(conditions, groups[i]);
                    assert(condition_in(conditions[j]) == Some(groups[i][j]));
                }
            }
        },
        None => {},
    }
}

/// What has a name: a text, which is the name, or an object of one member that is
/// null, whose key it is. A record is an object or an array that is not too long.
pub proof fn law_names_and_records(t: Seq<char>, value: JsonModel, doc: JsonModel, n: nat)
    ensures
        name_in(JsonModel::Text(t)) == Some(t),
        name_in(JsonModel::Object(seq![(t, JsonModel::Null)])) == Some(t),
        !(value is Null) ==> name_in(JsonModel::Object(seq![(t, value)])) is None,
        !(doc is Text) && !(doc is Object) ==> name_in(doc) is None,
        is_record(doc, n) <==> doc is Object || (doc matches JsonModel::Array(items) && items.len()
            <= n),
{
}

} // verus!
