//! The rule tree: OR of AND-groups (DNF).
//!
//! Two levels keep validation, translation to SQL and the rule-builder UI
//! simple while still expressing every boolean rule (any boolean expression
//! has a DNF form).
//!
//! Invariant: an unconfigured role link grants the role to nobody.
//! `grant_on_any_relation = false` and no groups means "match nobody".
use vstd::prelude::*;

use crate::models::condition::{Condition, ConditionModel};

verus! {

/// Maximum top-level groups. Generous: a 3-tier role hierarchy with an
/// "OR catch-all" still fits comfortably.
pub const MAX_GROUPS: usize = 8;

/// Maximum conditions per group. Twitch only has four facts, so a group can
/// never need more than four distinct conditions; 8 leaves slack for
/// duplicated bounds (e.g. follow_age between two values).
pub const MAX_CONDITIONS_PER_GROUP: usize = 8;

#[derive(Debug, Clone)]
pub struct RuleTree {
    pub grant_on_any_relation: bool,
    pub groups: Vec<ConditionGroup>,
}

#[derive(Debug, Clone)]
pub struct ConditionGroup {
    pub conditions: Vec<Condition>,
}

/// What a [`RuleTree`] says: the conditions of each group.
#[verifier::ext_equal]
pub struct RuleModel {
    pub grant_on_any_relation: bool,
    pub groups: Seq<Seq<ConditionModel>>,
}

/// The conditions of a group, in order.
pub open spec fn group_model(conditions: Seq<Condition>) -> Seq<ConditionModel> {
    conditions.map_values(|c: Condition| c@)
}

/// The groups of a tree, in order.
pub open spec fn groups_model(groups: Seq<ConditionGroup>) -> Seq<Seq<ConditionModel>> {
    groups.map_values(|g: ConditionGroup| g@)
}

impl View for ConditionGroup {
    type V = Seq<ConditionModel>;

    open spec fn view(&self) -> Seq<ConditionModel> {
        group_model(self.conditions@)
    }
}

impl View for RuleTree {
    type V = RuleModel;

    open spec fn view(&self) -> RuleModel {
        RuleModel {
            grant_on_any_relation: self.grant_on_any_relation,
            groups: groups_model(self.groups@),
        }
    }
}

/// The tree of a role link that nobody has configured.
pub open spec fn unconfigured() -> RuleModel {
    RuleModel { grant_on_any_relation: false, groups: Seq::empty() }
}

impl RuleModel {
    /// The rule matches nobody, whatever is known of a viewer: it neither
    /// grants to anyone nor has a group.
    pub open spec fn is_unconfigured(self) -> bool {
        !self.grant_on_any_relation && self.groups.len() == 0
    }

    /// Every condition reads values of its target's kind.
    pub open spec fn well_typed(self) -> bool {
        forall|i: int, j: int|
            0 <= i < self.groups.len() && 0 <= j < self.groups[i].len() ==> (
            #[trigger] self.groups[i][j]).well_typed()
    }

    /// Some condition asks how long ago the viewer followed.
    pub open spec fn reads_follow_age(self) -> bool {
        exists|i: int, j: int|
            0 <= i < self.groups.len() && 0 <= j < self.groups[i].len() && (
            #[trigger] self.groups[i][j]).target is FollowAgeDays
    }
}

impl Default for RuleTree {
    fn default() -> (r: RuleTree)
        ensures
            r@ == unconfigured(),
    {
        let r = RuleTree { grant_on_any_relation: false, groups: Vec::new() };
        assert(r@ =~= unconfigured());
        r
    }
}

impl Default for ConditionGroup {
    fn default() -> (r: ConditionGroup)
        ensures
            r@ == Seq::<ConditionModel>::empty(),
    {
        let r = ConditionGroup { conditions: Vec::new() };
        assert(r@ =~= Seq::<ConditionModel>::empty());
        r
    }
}

} // verus!
