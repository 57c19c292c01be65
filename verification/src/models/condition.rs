//! Condition target / operator types used in the rule tree.
//!
//! - `ConditionTarget` names a fact that is known of a (viewer, channel) pair.
//! - `ConditionOperator` names a comparison.
//! - Which operators fit which targets is decided by each target's `kind()`.
//!
//! Twitch exposes four facts (follow and subscription status), so the catalog
//! is small; the rule tree built from them still lets admins express any
//! OR-of-AND combination.
use vstd::prelude::*;

use crate::json::{JsonModel, JsonValue};
use crate::text::str_eq;

verus! {

/// What kind of data a target produces. Decides which operators are valid and
/// how a literal value is read.
#[derive(Debug, Clone, Copy, PartialEq, Eq, Structural)]
pub enum TargetKind {
    Bool,
    Int,
}

#[derive(Debug, Clone, Copy, PartialEq, Eq, Structural)]
pub enum ConditionTarget {
    /// Currently follows the connected channel.
    IsFollower,
    /// Whole days since the viewer first followed.
    FollowAgeDays,
    /// Has an active paid subscription right now.
    IsSubscriber,
    /// Subscription tier: 1, 2, or 3 (0 when not subscribed).
    SubTier,
}

impl ConditionTarget {
    /// The name of the target in a rule.
    pub open spec fn key(self) -> Seq<char> {
        match self {
            ConditionTarget::IsFollower => "is_follower"@,
            ConditionTarget::FollowAgeDays => "follow_age_days"@,
            ConditionTarget::IsSubscriber => "is_subscriber"@,
            ConditionTarget::SubTier => "sub_tier"@,
        }
    }

    pub open spec fn spec_kind(self) -> TargetKind {
        match self {
            ConditionTarget::IsFollower | ConditionTarget::IsSubscriber => TargetKind::Bool,
            ConditionTarget::FollowAgeDays | ConditionTarget::SubTier => TargetKind::Int,
        }
    }

    /// The target of that name, if there is one.
    pub open spec fn with_key(s: Seq<char>) -> Option<ConditionTarget> {
        if s == "is_follower"@ {
            Some(ConditionTarget::IsFollower)
        } else if s == "follow_age_days"@ {
            Some(ConditionTarget::FollowAgeDays)
        } else if s == "is_subscriber"@ {
            Some(ConditionTarget::IsSubscriber)
        } else if s == "sub_tier"@ {
            Some(ConditionTarget::SubTier)
        } else {
            None
        }
    }

    pub fn kind(self) -> (r: TargetKind)
        ensures
            r == self.spec_kind(),
    {
        match self {
            ConditionTarget::IsFollower | ConditionTarget::IsSubscriber => TargetKind::Bool,
            ConditionTarget::FollowAgeDays | ConditionTarget::SubTier => TargetKind::Int,
        }
    }

    pub fn as_str(self) -> (r: &'static str)
        ensures
            r@ == self.key(),
    {
        match self {
            ConditionTarget::IsFollower => "is_follower",
            ConditionTarget::FollowAgeDays => "follow_age_days",
            ConditionTarget::IsSubscriber => "is_subscriber",
            ConditionTarget::SubTier => "sub_tier",
        }
    }

    pub fn from_key(s: &str) -> (r: Option<ConditionTarget>)
        ensures
            r == ConditionTarget::with_key(s@),
    {
        if str_eq(s, "is_follower") {
            Some(ConditionTarget::IsFollower)
        } else if str_eq(s, "follow_age_days") {
            Some(ConditionTarget::FollowAgeDays)
        } else if str_eq(s, "is_subscriber") {
            Some(ConditionTarget::IsSubscriber)
        } else if str_eq(s, "sub_tier") {
            Some(ConditionTarget::SubTier)
        } else {
            None
        }
    }
}

/// A text names a target exactly when it is the target's key.
pub proof fn law_target_keys(s: Seq<char>, t: ConditionTarget)
    ensures
        ConditionTarget::with_key(s) == Some(t) <==> s == t.key(),
{
    reveal_strlit("is_follower");
    reveal_strlit("follow_age_days");
    reveal_strlit("is_subscriber");
    reveal_strlit("sub_tier");
    assert("is_follower"@.len() == 11);
    assert("follow_age_days"@.len() == 15);
    assert("is_subscriber"@.len() == 13);
    assert("sub_tier"@.len() == 8);
}

#[derive(Debug, Clone, Copy, PartialEq, Eq, Structural)]
pub enum ConditionOperator {
    Eq,
    Neq,
    Gt,
    Gte,
    Lt,
    Lte,
    Between,
}

impl ConditionOperator {
    /// The name of the operator in a rule.
    pub open spec fn key(self) -> Seq<char> {
        match self {
            ConditionOperator::Eq => "eq"@,
            ConditionOperator::Neq => "neq"@,
            ConditionOperator::Gt => "gt"@,
            ConditionOperator::Gte => "gte"@,
            ConditionOperator::Lt => "lt"@,
            ConditionOperator::Lte => "lte"@,
            ConditionOperator::Between => "between"@,
        }
    }

    /// The operator of that name, if there is one.
    pub open spec fn with_key(s: Seq<char>) -> Option<ConditionOperator> {
        if s == "eq"@ {
            Some(ConditionOperator::Eq)
        } else if s == "neq"@ {
            Some(ConditionOperator::Neq)
        } else if s == "gt"@ {
            Some(ConditionOperator::Gt)
        } else if s == "gte"@ {
            Some(ConditionOperator::Gte)
        } else if s == "lt"@ {
            Some(ConditionOperator::Lt)
        } else if s == "lte"@ {
            Some(ConditionOperator::Lte)
        } else if s == "between"@ {
            Some(ConditionOperator::Between)
        } else {
            None
        }
    }

    /// The operator makes a meaningful predicate on targets of that kind:
    /// equality on booleans, every comparison on integers.
    pub open spec fn fits(self, kind: TargetKind) -> bool {
        kind is Int || self is Eq
    }

    pub fn as_str(self) -> (r: &'static str)
        ensures
            r@ == self.key(),
    {
        match self {
            ConditionOperator::Eq => "eq",
            ConditionOperator::Neq => "neq",
            ConditionOperator::Gt => "gt",
            ConditionOperator::Gte => "gte",
            ConditionOperator::Lt => "lt",
            ConditionOperator::Lte => "lte",
            ConditionOperator::Between => "between",
        }
    }

    pub fn from_key(s: &str) -> (r: Option<ConditionOperator>)
        ensures
            r == ConditionOperator::with_key(s@),
    {
        if str_eq(s, "eq") {
            Some(ConditionOperator::Eq)
        } else if str_eq(s, "neq") {
            Some(ConditionOperator::Neq)
        } else if str_eq(s, "gt") {
            Some(ConditionOperator::Gt)
        } else if str_eq(s, "gte") {
            Some(ConditionOperator::Gte)
        } else if str_eq(s, "lt") {
            Some(ConditionOperator::Lt)
        } else if str_eq(s, "lte") {
            Some(ConditionOperator::Lte)
        } else if str_eq(s, "between") {
            Some(ConditionOperator::Between)
        } else {
            None
        }
    }

    /// Operators that produce a meaningful predicate on each target kind.
    pub fn valid_for(self, kind: TargetKind) -> (r: bool)
        ensures
            r == self.fits(kind),
    {
        match kind {
            TargetKind::Bool => matches!(self, ConditionOperator::Eq),
            TargetKind::Int => true,
        }
    }
}

/// A text names an operator exactly when it is the operator's key.
pub proof fn law_operator_keys(s: Seq<char>, op: ConditionOperator)
    ensures
        ConditionOperator::with_key(s) == Some(op) <==> s == op.key(),
{
    reveal_strlit("eq");
    reveal_strlit("neq");
    reveal_strlit("gt");
    reveal_strlit("gte");
    reveal_strlit("lt");
    reveal_strlit("lte");
    reveal_strlit("between");
    assert("eq"@.len() == 2 && "eq"@[0] == 'e');
    assert("neq"@.len() == 3 && "neq"@[0] == 'n');
    assert("gt"@.len() == 2 && "gt"@[0] == 'g');
    assert("gte"@.len() == 3 && "gte"@[0] == 'g');
    assert("lt"@.len() == 2 && "lt"@[0] == 'l');
    assert("lte"@.len() == 3 && "lte"@[0] == 'l');
    assert("between"@.len() == 7);
}

/// A single condition row inside an AND-group.
#[derive(Debug, Clone)]
pub struct Condition {
    pub target: ConditionTarget,
    pub operator: ConditionOperator,
    pub value: JsonValue,
    pub value_end: Option<JsonValue>,
}

/// What a [`Condition`] says.
pub struct ConditionModel {
    pub target: ConditionTarget,
    pub operator: ConditionOperator,
    pub value: JsonModel,
    pub value_end: Option<JsonModel>,
}

/// The document behind an optional value.
pub open spec fn opt_model(v: Option<JsonValue>) -> Option<JsonModel> {
    match v {
        Some(v) => Some(v@),
        None => None,
    }
}

impl View for Condition {
    type V = ConditionModel;

    open spec fn view(&self) -> ConditionModel {
        ConditionModel {
            target: self.target,
            operator: self.operator,
            value: self.value@,
            value_end: opt_model(self.value_end),
        }
    }
}

impl ConditionModel {
    /// The integer at the upper end of a range.
    pub open spec fn end_i64(self) -> Option<i64> {
        match self.value_end {
            Some(v) => v.as_i64(),
            None => None,
        }
    }

    /// The operator fits the target, and each value that the operator reads is
    /// there and of the target's kind.
    pub open spec fn well_typed(self) -> bool {
        &&& self.operator.fits(self.target.spec_kind())
        &&& match self.target.spec_kind() {
            TargetKind::Bool => self.value is Bool,
            TargetKind::Int => self.value is Int,
        }
        &&& self.operator is Between ==> self.end_i64() is Some
    }
}

/// The requirements that the plain settings form offers, all of which must be
/// met.
#[derive(Debug, Clone, Copy, PartialEq, Eq)]
pub struct TwitchConditions {
    pub require_follower: bool,
    pub min_follow_days: i64,
    pub require_subscriber: bool,
    pub min_sub_tier: i32,
}

/// The names of the targets, and the kinds of data they produce: whether someone
/// follows or subscribes is a truth value, the follow age and the tier are
/// numbers.
pub proof fn law_target_names(s: Seq<char>)
    ensures
        ConditionTarget::with_key("is_follower"@) == Some(ConditionTarget::IsFollower),
        ConditionTarget::with_key("follow_age_days"@) == Some(ConditionTarget::FollowAgeDays),
        ConditionTarget::with_key("is_subscriber"@) == Some(ConditionTarget::IsSubscriber),
        ConditionTarget::with_key("sub_tier"@) == Some(ConditionTarget::SubTier),
        s != "is_follower"@ && s != "follow_age_days"@ && s != "is_subscriber"@ && s != "sub_tier"@
            ==> ConditionTarget::with_key(s) is None,
        ConditionTarget::IsFollower.spec_kind() is Bool,
        ConditionTarget::IsSubscriber.spec_kind() is Bool,
        ConditionTarget::FollowAgeDays.spec_kind() is Int,
        ConditionTarget::SubTier.spec_kind() is Int,
{
    law_target_keys("is_follower"@, ConditionTarget::IsFollower);
    law_target_keys("follow_age_days"@, ConditionTarget::FollowAgeDays);
    law_target_keys("is_subscriber"@, ConditionTarget::IsSubscriber);
    law_target_keys("sub_tier"@, ConditionTarget::SubTier);
}

/// The names of the operators, and what they fit: numbers take every operator,
/// truth values only equality.
pub proof fn law_operator_names(s: Seq<char>, op: ConditionOperator)
    ensures
        ConditionOperator::with_key("eq"@) == Some(ConditionOperator::Eq),
        ConditionOperator::with_key("neq"@) == Some(ConditionOperator::Neq),
        ConditionOperator::with_key("gt"@) == Some(ConditionOperator::Gt),
        ConditionOperator::with_key("gte"@) == Some(ConditionOperator::Gte),
        ConditionOperator::with_key("lt"@) == Some(ConditionOperator::Lt),
        ConditionOperator::with_key("lte"@) == Some(ConditionOperator::Lte),
        ConditionOperator::with_key("between"@) == Some(ConditionOperator::Between),
        s != "eq"@ && s != "neq"@ && s != "gt"@ && s != "gte"@ && s != "lt"@ && s != "lte"@ && s
            != "between"@ ==> ConditionOperator::with_key(s) is None,
        op.fits(TargetKind::Int),
        op.fits(TargetKind::Bool) == (op == ConditionOperator::Eq),
{
    law_operator_keys("eq"@, ConditionOperator::Eq);
    law_operator_keys("neq"@, ConditionOperator::Neq);
    law_operator_keys("gt"@, ConditionOperator::Gt);
    law_operator_keys("gte"@, ConditionOperator::Gte);
    law_operator_keys("lt"@, ConditionOperator::Lt);
    law_operator_keys("lte"@, ConditionOperator::Lte);
    law_operator_keys("between"@, ConditionOperator::Between);
}

} // verus!
