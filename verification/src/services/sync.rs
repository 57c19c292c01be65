//! Keeping the role assignments in step with the rules.
//!
//! Two paths lead to the same assignments: one user across all guilds, by
//! evaluating each rule in memory, and one role link across all users, by
//! pushing its rule down into a query.
use vstd::prelude::*;

use crate::config::texts;
use crate::error::AppError;
use crate::json::{opt_view, JsonModel, JsonValue};
use crate::models::rule::{RuleModel, RuleTree};
use crate::models::stored::stored_rule;
use crate::outside::now;
use crate::services::condition_eval::{evaluate_at, no_facts, rule_matches, CacheData};
use crate::services::rule_sql::{
    build_rule_where, clause_sql, clause_value, law_clause_agrees_with_evaluation, missing_row,
    row_facts, row_of, rule_binds, rule_clause, rule_text, Bind, SqlRow,
};
use crate::text::{decimal, decimal_text, str_eq};
use crate::time::Timestamp;

verus! {

/// Events sent to the user sync worker (lightweight, per-user).
#[derive(Debug, Clone, PartialEq)]
pub enum UserSyncEvent {
    UserUpdated { discord_id: String },
    AccountLinked { discord_id: String },
    AccountUnlinked { discord_id: String },
}

/// Events sent to the config sync worker (heavy, per-role-link).
#[derive(Debug, Clone, PartialEq)]
pub struct ConfigSyncEvent {
    pub guild_id: String,
    pub role_id: String,
}

/// The user limit that is taken when RoleLogic does not tell it.
pub const DEFAULT_USER_LIMIT: usize = 100;

// ---------------------------------------------------------------------
// Who qualifies
// ---------------------------------------------------------------------

/// The facts, or those of a viewer of whom nothing is known.
pub open spec fn known_facts(facts: Option<CacheData>) -> CacheData {
    match facts {
        Some(f) => f,
        None => no_facts(),
    }
}

/// The facts behind an optional reference.
pub open spec fn facts_behind(facts: Option<&CacheData>) -> Option<CacheData> {
    match facts {
        Some(f) => Some(*f),
        None => None,
    }
}

/// A viewer qualifies for a role link at the instant `now`. A rule that grants
/// on any relation needs no channel; every other one grants to nobody without.
pub open spec fn qualifies_by(
    rule: RuleModel,
    connected: bool,
    facts: Option<CacheData>,
    now: Timestamp,
) -> bool {
    rule.grant_on_any_relation || (connected && rule_matches(rule, known_facts(facts), now))
}

/// The facts of a viewer with no cache row yet: all false or unknown, so that
/// channel-scoped conditions fail closed.
pub fn default_facts() -> (r: CacheData)
    ensures
        r == no_facts(),
{
    CacheData { is_following: false, followed_at: None, is_subscribed: false, sub_tier: 0 }
}

/// Whether a viewer qualifies for one role link, given the link's rule tree,
/// its connected broadcaster (if any), and the viewer's cached facts, by the
/// clock.
pub fn qualifies(
    tree: &RuleTree,
    broadcaster_id: Option<&str>,
    facts: Option<&CacheData>,
) -> (r: bool)
    ensures
        exists|now: Timestamp|
            now.in_calendar() && now.is_plain() && r == #[trigger] qualifies_by(
                tree@,
                broadcaster_id is Some,
                facts_behind(facts),
                now,
            ),
        tree@.grant_on_any_relation ==> r,
        !tree@.grant_on_any_relation && (broadcaster_id is None || tree@.is_unconfigured()) ==> !r,
{
    qualifies_at(tree, broadcaster_id.is_some(), facts, now())
}

/// Whether a viewer qualifies for one role link at a given instant.
pub fn qualifies_at(
    tree: &RuleTree,
    connected: bool,
    facts: Option<&CacheData>,
    instant: Timestamp,
) -> (r: bool)
    ensures
        r == qualifies_by(tree@, connected, facts_behind(facts), instant),
{
    if tree.grant_on_any_relation {
        return true;
    }
    if !connected || tree.groups.len() == 0 {
        assert(connected ==> tree@.is_unconfigured());
        return false;
    }
    match facts {
        Some(f) => evaluate_at(tree, f, instant),
        None => evaluate_at(tree, &default_facts(), instant),
    }
}

// ---------------------------------------------------------------------
// One user, all guilds
// ---------------------------------------------------------------------

/// A role link in one of the user's guilds.
#[derive(Debug)]
pub struct RoleLink {
    pub guild_id: String,
    pub role_id: String,
    pub api_token: String,
    pub rule_tree: JsonValue,
    pub broadcaster_id: Option<String>,
}

/// What is cached of the user's relationship to one channel.
#[derive(Debug)]
pub struct CacheRow {
    pub broadcaster_id: String,
    pub facts: CacheData,
}

/// A change of the user's roles.
#[derive(Debug, PartialEq)]
pub enum SyncAction {
    Add { guild_id: String, role_id: String, api_token: String },
    Remove { guild_id: String, role_id: String, api_token: String },
}

/// What a [`RoleLink`] says.
pub struct LinkModel {
    pub guild_id: Seq<char>,
    pub role_id: Seq<char>,
    pub api_token: Seq<char>,
    pub rule_tree: JsonModel,
    pub broadcaster_id: Option<Seq<char>>,
}

/// What a [`SyncAction`] says.
pub enum ActionModel {
    Add { guild_id: Seq<char>, role_id: Seq<char>, api_token: Seq<char> },
    Remove { guild_id: Seq<char>, role_id: Seq<char>, api_token: Seq<char> },
}

impl View for RoleLink {
    type V = LinkModel;

    open spec fn view(&self) -> LinkModel {
        LinkModel {
            guild_id: self.guild_id@,
            role_id: self.role_id@,
            api_token: self.api_token@,
            rule_tree: self.rule_tree@,
            broadcaster_id: opt_view(self.broadcaster_id),
        }
    }
}

impl View for SyncAction {
    type V = ActionModel;

    open spec fn view(&self) -> ActionModel {
        match *self {
            SyncAction::Add { guild_id, role_id, api_token } => ActionModel::Add {
                guild_id: guild_id@,
                role_id: role_id@,
                api_token: api_token@,
            },
            SyncAction::Remove { guild_id, role_id, api_token } => ActionModel::Remove {
                guild_id: guild_id@,
                role_id: role_id@,
                api_token: api_token@,
            },
        }
    }
}

pub open spec fn links_model(links: Seq<RoleLink>) -> Seq<LinkModel> {
    links.map_values(|l: RoleLink| l@)
}

pub open spec fn actions_model(actions: Seq<SyncAction>) -> Seq<ActionModel> {
    actions.map_values(|a: SyncAction| a@)
}

/// The channels and the facts of the cached rows, in order.
pub open spec fn rows_model(rows: Seq<CacheRow>) -> Seq<(Seq<char>, CacheData)> {
    rows.map_values(|r: CacheRow| (r.broadcaster_id@, r.facts))
}

/// The guild and the role of each assignment.
pub open spec fn keys_model(keys: Seq<(String, String)>) -> Seq<(Seq<char>, Seq<char>)> {
    keys.map_values(|k: (String, String)| (k.0@, k.1@))
}

/// The facts that are cached for a channel: those of its last row.
pub open spec fn facts_of(rows: Seq<(Seq<char>, CacheData)>, channel: Seq<char>) -> Option<
    CacheData,
>
    decreases rows.len(),
{
    if rows.len() == 0 {
        None
    } else if rows.last().0 == channel {
        Some(rows.last().1)
    } else {
        facts_of(rows.drop_last(), channel)
    }
}

impl LinkModel {
    /// The guild and the role.
    pub open spec fn key(self) -> (Seq<char>, Seq<char>) {
        (self.guild_id, self.role_id)
    }

    /// The user with these cached rows qualifies for the link.
    pub open spec fn qualifies(self, rows: Seq<(Seq<char>, CacheData)>, now: Timestamp) -> bool {
        qualifies_by(
            stored_rule(self.rule_tree),
            self.broadcaster_id is Some,
            match self.broadcaster_id {
                Some(channel) => facts_of(rows, channel),
                None => None,
            },
            now,
        )
    }

    /// The change that the link asks for: none where the assignment is right.
    pub open spec fn action(
        self,
        rows: Seq<(Seq<char>, CacheData)>,
        assigned: Set<(Seq<char>, Seq<char>)>,
        now: Timestamp,
    ) -> Option<ActionModel> {
        if self.qualifies(rows, now) && !assigned.contains(self.key()) {
            Some(
                ActionModel::Add {
                    guild_id: self.guild_id,
                    role_id: self.role_id,
                    api_token: self.api_token,
                },
            )
        } else if !self.qualifies(rows, now) && assigned.contains(self.key()) {
            Some(
                ActionModel::Remove {
                    guild_id: self.guild_id,
                    role_id: self.role_id,
                    api_token: self.api_token,
                },
            )
        } else {
            None
        }
    }
}

/// The changes that the links ask for, in their order.
pub open spec fn planned(
    links: Seq<LinkModel>,
    rows: Seq<(Seq<char>, CacheData)>,
    assigned: Set<(Seq<char>, Seq<char>)>,
    now: Timestamp,
) -> Seq<ActionModel>
    decreases links.len(),
{
    if links.len() == 0 {
        Seq::empty()
    } else {
        let before = planned(links.drop_last(), rows, assigned, now);
        match links.last().action(rows, assigned, now) {
            Some(action) => before.push(action),
            None => before,
        }
    }
}

fn find_facts<'a>(rows: &'a Vec<CacheRow>, channel: &str) -> (r: Option<&'a CacheData>)
    ensures
        match r {
            Some(f) => facts_of(rows_model(rows@), channel@) == Some(*f),
            None => facts_of(rows_model(rows@), channel@) is None,
        },
{
    let ghost all = rows_model(rows@);
    let mut n: usize = rows.len();
    assert(all.take(n as int) =~= all);
    while n > 0
        invariant
            n <= rows@.len(),
            all == rows_model(rows@),
            facts_of(all.take(n as int), channel@) == facts_of(all, channel@),
        decreases n,
    {
        proof {
            assert(all.take(n as int).drop_last() =~= all.take(n - 1));
            assert(all.take(n as int).last() == all[n - 1]);
        }
        if str_eq(rows[n - 1].broadcaster_id.as_str(), channel) {
            return Some(&rows[n - 1].facts);
        }
        n = n - 1;
    }
    None
}

fn is_assigned(assigned: &Vec<(String, String)>, guild_id: &str, role_id: &str) -> (r: bool)
    ensures
        r == keys_model(assigned@).to_set().contains((guild_id@, role_id@)),
{
    let ghost keys = keys_model(assigned@);
    let mut i: usize = 0;
    while i < assigned.len()
        invariant
            i <= assigned@.len(),
            keys == keys_model(assigned@),
            forall|j: int| 0 <= j < i ==> (#[trigger] keys[j]) != (guild_id@, role_id@),
        decreases assigned@.len() - i,
    {
        assert(keys[i as int] == (assigned@[i as int].0@, assigned@[i as int].1@));
        if str_eq(assigned[i].0.as_str(), guild_id) && str_eq(assigned[i].1.as_str(), role_id) {
            assert(keys.contains((guild_id@, role_id@)));
            return true;
        }
        i = i + 1;
    }
    assert(!keys.contains((guild_id@, role_id@)));
    false
}

/// The changes that bring one user's roles in line with the rules of all role
/// links in the user's guilds, at a given instant.
pub fn plan_user_sync(
    links: &Vec<RoleLink>,
    rows: &Vec<CacheRow>,
    assigned: &Vec<(String, String)>,
    instant: Timestamp,
) -> (r: Vec<SyncAction>)
    ensures
        actions_model(r@) == planned(
            links_model(links@),
            rows_model(rows@),
            keys_model(assigned@).to_set(),
            instant,
        ),
{
    let ghost all = links_model(links@);
    let ghost held = keys_model(assigned@).to_set();
    let mut actions: Vec<SyncAction> = Vec::new();
    let mut i: usize = 0;
    proof {
        assert(all.take(0) =~= Seq::empty());
        assert(actions_model(actions@) =~= Seq::empty());
    }
    while i < links.len()
        invariant
            i <= links@.len(),
            all == links_model(links@),
            held == keys_model(assigned@).to_set(),
            actions_model(actions@) == planned(
                all.take(i as int),
                rows_model(rows@),
                held,
                instant,
            ),
        decreases links@.len() - i,
    {
        let link = &links[i];
        proof {
            assert(all.take(i + 1).drop_last() =~= all.take(i as int));
            assert(all.take(i + 1).last() == link@);
        }
        let tree = RuleTree::from_stored(&link.rule_tree);
        let facts = match &link.broadcaster_id {
            Some(channel) => find_facts(rows, channel.as_str()),
            None => None,
        };
        let wanted = qualifies_at(&tree, link.broadcaster_id.is_some(), facts, instant);
        let present = is_assigned(assigned, link.guild_id.as_str(), link.role_id.as_str());
        let ghost before = actions@;
        if wanted && !present {
            actions.push(
                SyncAction::Add {
                    guild_id: link.guild_id.clone(),
                    role_id: link.role_id.clone(),
                    api_token: link.api_token.clone(),
                },
            );
            assert(actions_model(actions@) =~= actions_model(before).push(actions@.last()@));
        } else if !wanted && present {
            actions.push(
                SyncAction::Remove {
                    guild_id: link.guild_id.clone(),
                    role_id: link.role_id.clone(),
                    api_token: link.api_token.clone(),
                },
            );
            assert(actions_model(actions@) =~= actions_model(before).push(actions@.last()@));
        }
        i = i + 1;
    }
    assert(all.take(i as int) =~= all);
    actions
}

/// The course of bringing one user's roles up to date. Each state names the
/// work that is to be done in it.
pub enum UserSync {
    /// Look up the Twitch account that the user has linked.
    FindAccount,
    /// Ask for the guilds that the user is in.
    FetchGuilds { twitch_user_id: String },
    /// Read all role links of these guilds.
    FetchLinks { twitch_user_id: String, guild_ids: Vec<String> },
    /// Read the cached facts of the account, for all channels.
    FetchCache { twitch_user_id: String, links: Vec<RoleLink> },
    /// Read which roles the user is assigned.
    FetchAssignments { links: Vec<RoleLink>, rows: Vec<CacheRow> },
    /// Carry out the changes, in any order.
    Apply { actions: Vec<SyncAction> },
    Finished,
}

/// What came of the work of a [`UserSync`].
pub enum UserSyncReply {
    Account(Option<String>),
    Guilds(Vec<String>),
    Links(Vec<RoleLink>),
    Cache(Vec<CacheRow>),
    Assignments(Vec<(String, String)>),
    Applied,
}

impl UserSync {
    /// `r` is the next state. A user without a linked account, without guilds,
    /// whose guilds have no role links, or whose roles are right needs nothing
    /// more; neither does one whose work was answered by something else.
    pub open spec fn leads_to(self, reply: UserSyncReply, now: Timestamp, r: UserSync) -> bool {
        match (self, reply) {
            (UserSync::FindAccount, UserSyncReply::Account(Some(twitch_user_id))) => r
                == (UserSync::FetchGuilds { twitch_user_id }),
            (UserSync::FetchGuilds { twitch_user_id }, UserSyncReply::Guilds(guild_ids)) => r
                == if guild_ids@.len() == 0 {
                UserSync::Finished
            } else {
                UserSync::FetchLinks { twitch_user_id, guild_ids }
            },
            (UserSync::FetchLinks { twitch_user_id, .. }, UserSyncReply::Links(links)) => r
                == if links@.len() == 0 {
                UserSync::Finished
            } else {
                UserSync::FetchCache { twitch_user_id, links }
            },
            (UserSync::FetchCache { links, .. }, UserSyncReply::Cache(rows)) => r
                == (UserSync::FetchAssignments { links, rows }),
            (
                UserSync::FetchAssignments { links, rows },
                UserSyncReply::Assignments(assigned),
            ) => {
                let plan = planned(
                    links_model(links@),
                    rows_model(rows@),
                    keys_model(assigned@).to_set(),
                    now,
                );
                if plan.len() == 0 {
                    r is Finished
                } else {
                    r matches UserSync::Apply { actions } && actions_model(actions@) == plan
                }
            },
            _ => r is Finished,
        }
    }

    /// The next state, at a given instant.
    pub fn next_at(self, reply: UserSyncReply, instant: Timestamp) -> (r: UserSync)
        ensures
            self.leads_to(reply, instant, r),
    {
        match (self, reply) {
            (UserSync::FindAccount, UserSyncReply::Account(Some(twitch_user_id))) => {
                UserSync::FetchGuilds { twitch_user_id }
            },
            (UserSync::FetchGuilds { twitch_user_id }, UserSyncReply::Guilds(guild_ids)) => {
                if guild_ids.len() == 0 {
                    UserSync::Finished
                } else {
                    UserSync::FetchLinks { twitch_user_id, guild_ids }
                }
            },
            (UserSync::FetchLinks { twitch_user_id, .. }, UserSyncReply::Links(links)) => {
                if links.len() == 0 {
                    UserSync::Finished
                } else {
                    UserSync::FetchCache { twitch_user_id, links }
                }
            },
            (UserSync::FetchCache { links, .. }, UserSyncReply::Cache(rows)) => {
                UserSync::FetchAssignments { links, rows }
            },
            (
                UserSync::FetchAssignments { links, rows },
                UserSyncReply::Assignments(assigned),
            ) => {
                let actions = plan_user_sync(&links, &rows, &assigned, instant);
                assert(actions_model(actions@).len() == actions@.len());
                if actions.len() == 0 {
                    UserSync::Finished
                } else {
                    UserSync::Apply { actions }
                }
            },
            _ => UserSync::Finished,
        }
    }

    /// The next state, by the clock.
    pub fn next(self, reply: UserSyncReply) -> (r: UserSync)
        ensures
            exists|now: Timestamp|
                now.in_calendar() && now.is_plain() && #[trigger] self.leads_to(reply, now, r),
    {
        let instant = now();
        let r = self.next_at(reply, instant);
        assert(self.leads_to(reply, instant, r));
        r
    }
}

/// What is to be done after RoleLogic has answered a change.
#[derive(Debug, Clone, Copy, PartialEq, Eq, Structural)]
pub enum Followup {
    /// Enter the assignment into the local mirror.
    RecordAssignment,
    /// Take the assignment out of the local mirror.
    EraseAssignment,
    /// RoleLogic does not know the role link any more: remove it.
    DropLink,
    /// The change failed; it is tried again with the next sync.
    Nothing,
}

/// What follows a change that RoleLogic has answered: `done` where it was
/// accepted.
pub open spec fn followup(result: Result<(), AppError>, done: Followup) -> Followup {
    match result {
        Ok(_) => done,
        Err(AppError::RoleLinkNotFound) => Followup::DropLink,
        Err(_) => Followup::Nothing,
    }
}

/// The mirror changes only with what RoleLogic has accepted, a role link is
/// dropped only where RoleLogic does not know it, and any other failure leaves
/// everything as it is.
pub proof fn law_followups(result: Result<(), AppError>, done: Followup)
    requires
        done == Followup::RecordAssignment || done == Followup::EraseAssignment || done
            == Followup::Nothing,
    ensures
        result is Ok ==> followup(result, done) == done,
        followup(result, done) == Followup::DropLink <==> result == Err::<(), AppError>(
            AppError::RoleLinkNotFound,
        ),
        result is Err && result->Err_0 != AppError::RoleLinkNotFound ==> followup(result, done)
            == Followup::Nothing,
{
}

/// What follows adding the user to a role. The mirror only ever records what
/// RoleLogic has accepted.
pub fn after_add(result: &Result<(), AppError>) -> (r: Followup)
    ensures
        r == followup(*result, Followup::RecordAssignment),
{
    match result {
        Ok(_) => Followup::RecordAssignment,
        Err(AppError::RoleLinkNotFound) => Followup::DropLink,
        Err(_) => Followup::Nothing,
    }
}

/// What follows removing the user from a role.
pub fn after_remove(result: &Result<(), AppError>) -> (r: Followup)
    ensures
        r == followup(*result, Followup::EraseAssignment),
{
    match result {
        Ok(_) => Followup::EraseAssignment,
        Err(AppError::RoleLinkNotFound) => Followup::DropLink,
        Err(_) => Followup::Nothing,
    }
}

/// What follows removing an unlinked user from one of their roles. All of the
/// user's assignments leave the mirror afterwards, whatever RoleLogic said.
pub fn after_unlink_removal(result: &Result<(), AppError>) -> (r: Followup)
    ensures
        r == followup(*result, Followup::Nothing),
{
    match result {
        Err(AppError::RoleLinkNotFound) => Followup::DropLink,
        _ => Followup::Nothing,
    }
}

// ---------------------------------------------------------------------
// Laws of the plan
// ---------------------------------------------------------------------

/// No two role links stand for the same guild and role.
pub open spec fn keys_distinct(links: Seq<LinkModel>) -> bool {
    forall|i: int, j: int|
        0 <= i < j < links.len() ==> (#[trigger] links[i]).key() != (#[trigger] links[j]).key()
}

/// The assignments after a change was carried out.
pub open spec fn applied_one(
    assigned: Set<(Seq<char>, Seq<char>)>,
    action: ActionModel,
) -> Set<(Seq<char>, Seq<char>)> {
    match action {
        ActionModel::Add { guild_id, role_id, .. } => assigned.insert((guild_id, role_id)),
        ActionModel::Remove { guild_id, role_id, .. } => assigned.remove((guild_id, role_id)),
    }
}

/// The assignments after all changes were carried out.
pub open spec fn applied(
    assigned: Set<(Seq<char>, Seq<char>)>,
    actions: Seq<ActionModel>,
) -> Set<(Seq<char>, Seq<char>)>
    decreases actions.len(),
{
    if actions.len() == 0 {
        assigned
    } else {
        applied_one(applied(assigned, actions.drop_last()), actions.last())
    }
}

/// Carrying out the plan leaves the user with exactly the roles that they
/// qualify for among the links, and with every other role as it was.
pub proof fn law_plan_reaches_the_rules(
    links: Seq<LinkModel>,
    rows: Seq<(Seq<char>, CacheData)>,
    assigned: Set<(Seq<char>, Seq<char>)>,
    now: Timestamp,
)
    requires
        keys_distinct(links),
    ensures
        forall|i: int|
            0 <= i < links.len() ==> applied(assigned, planned(links, rows, assigned, now)).contains(
                (#[trigger] links[i]).key(),
            ) == links[i].qualifies(rows, now),
        forall|key: (Seq<char>, Seq<char>)|
            (forall|i: int| 0 <= i < links.len() ==> (#[trigger] links[i]).key() != key)
                ==> #[trigger] applied(assigned, planned(links, rows, assigned, now)).contains(key)
                == assigned.contains(key),
    decreases links.len(),
{
    if links.len() > 0 {
        let before = links.drop_last();
        let last = links.last();
        let plan = planned(links, rows, assigned, now);
        let shorter = planned(before, rows, assigned, now);
        assert forall|i: int, j: int| 0 <= i < j < before.len() implies (
        #[trigger] before[i]).key() != (#[trigger] before[j]).key() by {
            assert(before[i] == links[i] && before[j] == links[j]);
        }
        law_plan_reaches_the_rules(before, rows, assigned, now);
        let held = applied(assigned, shorter);
        assert forall|i: int| 0 <= i < before.len() implies (#[trigger] before[i]).key()
            != last.key() by {
            assert(before[i] == links[i]);
            assert(links[links.len() - 1] == last);
        }
        assert(held.contains(last.key()) == assigned.contains(last.key()));
        match last.action(rows, assigned, now) {
            Some(action) => {
                assert(plan.last() == action);
                assert(plan.drop_last() =~= shorter);
            },
            None => {},
        }
        assert forall|i: int| 0 <= i < links.len() implies applied(assigned, plan).contains(
            (#[trigger] links[i]).key(),
        ) == links[i].qualifies(rows, now) by {
            if i < before.len() {
                assert(before[i] == links[i]);
                assert(before[i].key() != last.key());
            } else {
                assert(links[i] == last);
            }
        }
        assert forall|key: (Seq<char>, Seq<char>)|
            (forall|i: int| 0 <= i < links.len() ==> (#[trigger] links[i]).key() != key) implies
            #[trigger] applied(assigned, plan).contains(key) == assigned.contains(key) by {
            assert forall|i: int| 0 <= i < before.len() implies (#[trigger] before[i]).key()
                != key by {
                assert(before[i] == links[i]);
            }
            assert(links[links.len() - 1].key() != key);
        }
    }
}

/// Where every role is right the plan is empty.
pub proof fn law_right_roles_need_no_plan(
    links: Seq<LinkModel>,
    rows: Seq<(Seq<char>, CacheData)>,
    assigned: Set<(Seq<char>, Seq<char>)>,
    now: Timestamp,
)
    requires
        forall|i: int|
            0 <= i < links.len() ==> assigned.contains((#[trigger] links[i]).key())
                == links[i].qualifies(rows, now),
    ensures
        planned(links, rows, assigned, now) == Seq::<ActionModel>::empty(),
    decreases links.len(),
{
    if links.len() > 0 {
        let before = links.drop_last();
        assert forall|i: int| 0 <= i < before.len() implies assigned.contains(
            (#[trigger] before[i]).key(),
        ) == before[i].qualifies(rows, now) by {
            assert(before[i] == links[i]);
        }
        law_right_roles_need_no_plan(before, rows, assigned, now);
        assert(links[links.len() - 1] == links.last());
    }
}

/// A second plan made right after the first was carried out is empty.
pub proof fn law_planning_is_idempotent(
    links: Seq<LinkModel>,
    rows: Seq<(Seq<char>, CacheData)>,
    assigned: Set<(Seq<char>, Seq<char>)>,
    now: Timestamp,
)
    requires
        keys_distinct(links),
    ensures
        planned(links, rows, applied(assigned, planned(links, rows, assigned, now)), now) == Seq::<
            ActionModel,
        >::empty(),
{
    law_plan_reaches_the_rules(links, rows, assigned, now);
    law_right_roles_need_no_plan(
        links,
        rows,
        applied(assigned, planned(links, rows, assigned, now)),
        now,
    );
}

/// Without a connected channel, only a rule that grants on any relation gives
/// the role to anyone.
pub proof fn law_no_channel_grants_nobody(
    rule: RuleModel,
    facts: Option<CacheData>,
    now: Timestamp,
)
    requires
        !rule.grant_on_any_relation,
    ensures
        !qualifies_by(rule, false, facts, now),
{
}

// ---------------------------------------------------------------------
// One role link, all users
// ---------------------------------------------------------------------

/// The rule grants to nobody: it has no groups or no channel to check against.
pub open spec fn grants_nobody(rule: RuleModel, connected: bool) -> bool {
    !rule.grant_on_any_relation && (rule.groups.len() == 0 || !connected)
}

/// The query for the members of a guild who meet a channel-scoped rule.
pub open spec fn members_sql(rule: RuleModel) -> Seq<char> {
    "SELECT la.discord_id FROM linked_accounts la LEFT JOIN user_channel_cache ucc ON ucc.twitch_user_id = la.twitch_user_id AND ucc.broadcaster_id = $1 WHERE la.discord_id = ANY($2::text[]) AND ("@
        + clause_sql(rule_clause(rule, 2)) + ") ORDER BY la.linked_at ASC LIMIT $"@ + decimal(
        2 + rule_binds(rule).len() + 1,
    )
}

/// The query for the linked members of a guild.
pub const LINKED_MEMBERS_SQL: &'static str = "SELECT la.discord_id FROM linked_accounts la WHERE la.discord_id = ANY($1::text[]) ORDER BY la.linked_at ASC LIMIT $2";

/// How the qualifying users are selected.
#[derive(Debug)]
pub enum MemberQuery {
    /// By [`LINKED_MEMBERS_SQL`]: the member ids and the limit are bound.
    Linked,
    /// The channel, the member ids, the values and the limit are bound in this
    /// order.
    ByRule { sql: String, broadcaster_id: String, binds: Vec<Bind> },
}

/// The stored part of a role link that the sync reads.
#[derive(Debug)]
pub struct LinkRow {
    pub api_token: String,
    pub rule_tree: JsonValue,
    pub broadcaster_id: Option<String>,
}

/// The course of re-evaluating all users for one role link. Each state names
/// the work that is to be done in it.
pub enum RoleLinkSync {
    /// Read the role link.
    FindLink,
    /// Ask for the members of the guild.
    FetchMembers { api_token: String, tree: RuleTree, broadcaster_id: Option<String> },
    /// Ask RoleLogic how many users the role link may have.
    FetchLimit {
        api_token: String,
        tree: RuleTree,
        broadcaster_id: Option<String>,
        member_ids: Vec<String>,
    },
    /// Select the qualifying users among the members, up to the limit.
    SelectUsers { api_token: String, query: MemberQuery, member_ids: Vec<String>, limit: usize },
    /// Replace the user list on RoleLogic.
    Upload { api_token: String, user_ids: Vec<String> },
    /// Replace the user list on RoleLogic by an empty one.
    UploadNobody { api_token: String },
    /// Replace the assignments in the local mirror.
    ReplaceMirror { user_ids: Vec<String> },
    /// Take all assignments of the role link out of the local mirror.
    EraseMirror,
    /// RoleLogic does not know the role link any more: remove it.
    DropLink,
    Failed(AppError),
    Finished,
}

/// What came of the work of a [`RoleLinkSync`].
pub enum RoleLinkReply {
    Link(Option<LinkRow>),
    Members(Vec<String>),
    Limit(Result<usize, AppError>),
    Users(Vec<String>),
    Uploaded(Result<(), AppError>),
    Done,
}

/// The query selects the users who meet the rule.
pub open spec fn query_for(
    query: MemberQuery,
    rule: RuleModel,
    broadcaster_id: Option<String>,
) -> bool {
    if rule.grant_on_any_relation {
        query is Linked
    } else {
        query matches MemberQuery::ByRule { sql, broadcaster_id: channel, binds } && sql@
            == members_sql(rule) && broadcaster_id == Some(channel) && binds@ == rule_binds(rule)
    }
}

impl RoleLinkSync {
    /// A rule is only evaluated for members where it can grant to somebody.
    pub open spec fn wf(self) -> bool {
        match self {
            RoleLinkSync::FetchMembers { tree, broadcaster_id, .. } => !grants_nobody(
                tree@,
                broadcaster_id is Some,
            ),
            RoleLinkSync::FetchLimit { tree, broadcaster_id, member_ids, .. } => !grants_nobody(
                tree@,
                broadcaster_id is Some,
            ) && member_ids@.len() > 0,
            _ => true,
        }
    }

    /// `r` is the next state. What a state does not wait for ends the course.
    pub open spec fn leads_to(self, reply: RoleLinkReply, r: RoleLinkSync) -> bool {
        match (self, reply) {
            (RoleLinkSync::FindLink, RoleLinkReply::Link(Some(link))) => {
                let rule = stored_rule(link.rule_tree@);
                if grants_nobody(rule, link.broadcaster_id is Some) {
                    r == (RoleLinkSync::UploadNobody { api_token: link.api_token })
                } else {
                    r matches RoleLinkSync::FetchMembers { api_token, tree, broadcaster_id }
                        && api_token == link.api_token && tree@ == rule && broadcaster_id
                        == link.broadcaster_id
                }
            },
            (
                RoleLinkSync::FetchMembers { api_token, tree, broadcaster_id },
                RoleLinkReply::Members(member_ids),
            ) => r == if member_ids@.len() == 0 {
                RoleLinkSync::UploadNobody { api_token }
            } else {
                RoleLinkSync::FetchLimit { api_token, tree, broadcaster_id, member_ids }
            },
            (
                RoleLinkSync::FetchLimit { api_token, tree, broadcaster_id, member_ids },
                RoleLinkReply::Limit(answer),
            ) => if answer == Err::<usize, AppError>(AppError::RoleLinkNotFound) {
                r is DropLink
            } else {
                r matches RoleLinkSync::SelectUsers {
                    api_token: token,
                    query,
                    member_ids: ids,
                    limit,
                } && token == api_token && query_for(query, tree@, broadcaster_id) && ids
                    == member_ids && limit == (match answer {
                    Ok(n) => n,
                    Err(_) => DEFAULT_USER_LIMIT,
                })
            },
            (
                RoleLinkSync::SelectUsers { api_token, .. },
                RoleLinkReply::Users(user_ids),
            ) => r == (RoleLinkSync::Upload { api_token, user_ids }),
            (RoleLinkSync::Upload { user_ids, .. }, RoleLinkReply::Uploaded(answer)) => r
                == match answer {
                Ok(_) => RoleLinkSync::ReplaceMirror { user_ids },
                Err(AppError::RoleLinkNotFound) => RoleLinkSync::DropLink,
                Err(e) => RoleLinkSync::Failed(e),
            },
            (RoleLinkSync::UploadNobody { .. }, RoleLinkReply::Uploaded(answer)) => r
                == match answer {
                Ok(_) => RoleLinkSync::EraseMirror,
                Err(AppError::RoleLinkNotFound) => RoleLinkSync::DropLink,
                Err(e) => RoleLinkSync::Failed(e),
            },
            _ => r is Finished,
        }
    }

    /// The next state.
    pub fn next(self, reply: RoleLinkReply) -> (r: RoleLinkSync)
        requires
            self.wf(),
        ensures
            r.wf(),
            self.leads_to(reply, r),
    {
        match (self, reply) {
            (RoleLinkSync::FindLink, RoleLinkReply::Link(Some(link))) => {
                let tree = RuleTree::from_stored(&link.rule_tree);
                assert(tree@.groups.len() == tree.groups@.len());
                if !tree.grant_on_any_relation && (tree.groups.len() == 0
                    || link.broadcaster_id.is_none()) {
                    RoleLinkSync::UploadNobody { api_token: link.api_token }
                } else {
                    RoleLinkSync::FetchMembers {
                        api_token: link.api_token,
                        tree,
                        broadcaster_id: link.broadcaster_id,
                    }
                }
            },
            (
                RoleLinkSync::FetchMembers { api_token, tree, broadcaster_id },
                RoleLinkReply::Members(member_ids),
            ) => {
                if member_ids.len() == 0 {
                    RoleLinkSync::UploadNobody { api_token }
                } else {
                    RoleLinkSync::FetchLimit { api_token, tree, broadcaster_id, member_ids }
                }
            },
            (
                RoleLinkSync::FetchLimit { api_token, tree, broadcaster_id, member_ids },
                RoleLinkReply::Limit(answer),
            ) => {
                let limit: usize = match answer {
                    Ok(n) => n,
                    Err(AppError::RoleLinkNotFound) => {
                        return RoleLinkSync::DropLink;
                    },
                    Err(_) => DEFAULT_USER_LIMIT,
                };
                let query = match broadcaster_id {
                    Some(channel) if !tree.grant_on_any_relation => {
                        let (sql, binds) = members_query(&tree);
                        MemberQuery::ByRule { sql, broadcaster_id: channel, binds }
                    },
                    _ => MemberQuery::Linked,
                };
                RoleLinkSync::SelectUsers { api_token, query, member_ids, limit }
            },
            (RoleLinkSync::SelectUsers { api_token, .. }, RoleLinkReply::Users(user_ids)) => {
                RoleLinkSync::Upload { api_token, user_ids }
            },
            (RoleLinkSync::Upload { user_ids, .. }, RoleLinkReply::Uploaded(answer)) => {
                match answer {
                    Ok(_) => RoleLinkSync::ReplaceMirror { user_ids },
                    Err(AppError::RoleLinkNotFound) => RoleLinkSync::DropLink,
                    Err(e) => RoleLinkSync::Failed(e),
                }
            },
            (RoleLinkSync::UploadNobody { .. }, RoleLinkReply::Uploaded(answer)) => {
                match answer {
                    Ok(_) => RoleLinkSync::EraseMirror,
                    Err(AppError::RoleLinkNotFound) => RoleLinkSync::DropLink,
                    Err(e) => RoleLinkSync::Failed(e),
                }
            },
            _ => RoleLinkSync::Finished,
        }
    }
}

/// The query for the members of a guild who meet a channel-scoped rule, and
/// the values that are bound after the channel and the member ids.
pub fn members_query(tree: &RuleTree) -> (r: (String, Vec<Bind>))
    ensures
        r.0@ == members_sql(tree@),
        r.1@ == rule_binds(tree@),
{
    let (rule_where, binds) = build_rule_where(tree, 2);
    let limit_idx: u128 = 2 + binds.len() as u128 + 1;
    let mut sql = "SELECT la.discord_id FROM linked_accounts la LEFT JOIN user_channel_cache ucc ON ucc.twitch_user_id = la.twitch_user_id AND ucc.broadcaster_id = $1 WHERE la.discord_id = ANY($2::text[]) AND (".to_owned();
    sql.append(rule_where.as_str());
    sql.append(") ORDER BY la.linked_at ASC LIMIT $");
    sql.append(decimal_text(limit_idx).as_str());
    (sql, binds)
}

/// The row that the query joins for a member: what is cached, or nothing.
pub open spec fn joined_row(facts: Option<CacheData>) -> SqlRow {
    match facts {
        Some(f) => row_of(f),
        None => missing_row(),
    }
}

/// The two paths agree: the query for a role link keeps a member exactly when
/// that member qualifies by the evaluation in memory (outside of leap seconds,
/// which the database does not know).
pub proof fn law_both_paths_agree(rule: RuleModel, facts: Option<CacheData>, now: Timestamp)
    requires
        now.is_plain(),
        known_facts(facts).followed_at matches Some(t) ==> t.is_plain(),
    ensures
        (clause_value(rule_clause(rule, 2), rule_binds(rule), 2, joined_row(facts), now) == Some(
            true,
        )) == qualifies_by(rule, true, facts, now),
{
    law_clause_agrees_with_evaluation(rule, 2, joined_row(facts), now);
    assert(row_facts(joined_row(facts)) == known_facts(facts));
}

/// The local mirror only ever follows a user list that RoleLogic has taken: it
/// is replaced by the same users, or erased where the list was empty.
pub proof fn law_mirror_follows_the_upload(
    state: RoleLinkSync,
    reply: RoleLinkReply,
    r: RoleLinkSync,
)
    requires
        state.leads_to(reply, r),
        r is ReplaceMirror || r is EraseMirror,
    ensures
        reply matches RoleLinkReply::Uploaded(Ok(_)),
        r matches RoleLinkSync::ReplaceMirror { user_ids } ==> (
        state matches RoleLinkSync::Upload { user_ids: uploaded, .. } && uploaded == user_ids),
        r is EraseMirror ==> state is UploadNobody,
{
}

/// A role link whose rule grants to nobody gets an empty user list.
pub proof fn law_nobody_rules_clear_the_role(link: LinkRow, r: RoleLinkSync)
    requires
        grants_nobody(stored_rule(link.rule_tree@), link.broadcaster_id is Some),
        RoleLinkSync::FindLink.leads_to(RoleLinkReply::Link(Some(link)), r),
    ensures
        r is UploadNobody,
{
}

/// Nobody qualifies for a role link whose user list is cleared because its rule
/// grants to nobody.
pub proof fn law_nobody_means_nobody(
    rule: RuleModel,
    connected: bool,
    facts: Option<CacheData>,
    now: Timestamp,
)
    requires
        grants_nobody(rule, connected),
    ensures
        !qualifies_by(rule, connected, facts, now),
{
}

// ---------------------------------------------------------------------
// The whole course for one role link
// ---------------------------------------------------------------------

/// A linked account: when it was linked, and what is cached of it, by channel.
pub struct Account {
    pub discord_id: Seq<char>,
    pub linked_at: Timestamp,
    pub rows: Seq<(Seq<char>, CacheData)>,
}

/// The accounts with these numbers are the first `limit` of those to keep, the
/// ones linked longest ago first, and the ids are theirs.
pub open spec fn picked(
    accounts: Seq<Account>,
    keep: spec_fn(Account) -> bool,
    limit: nat,
    ids: Seq<Seq<char>>,
    picks: Seq<int>,
) -> bool {
    &&& picks.len() == ids.len()
    &&& picks.len() <= limit
    &&& forall|i: int|
        0 <= i < picks.len() ==> 0 <= #[trigger] picks[i] < accounts.len() && keep(
            accounts[picks[i]],
        ) && ids[i] == accounts[picks[i]].discord_id
    &&& forall|i: int, j: int|
        0 <= i < j < picks.len() ==> (#[trigger] picks[i]) != (#[trigger] picks[j])
            && accounts[picks[i]].linked_at.total_nanos()
            <= accounts[picks[j]].linked_at.total_nanos()
    &&& forall|k: int|
        0 <= k < accounts.len() && keep(#[trigger] accounts[k]) && !picks.contains(k)
            ==> picks.len() == limit && forall|i: int|
            0 <= i < picks.len() ==> accounts[#[trigger] picks[i]].linked_at.total_nanos()
                <= accounts[k].linked_at.total_nanos()
}

/// The ids are those of the first `limit` accounts to keep, the ones linked
/// longest ago first. Which of two accounts comes first that were linked at the
/// same instant is left open.
pub open spec fn first_linked(
    accounts: Seq<Account>,
    keep: spec_fn(Account) -> bool,
    limit: nat,
    ids: Seq<Seq<char>>,
) -> bool {
    exists|picks: Seq<int>| #[trigger] picked(accounts, keep, limit, ids, picks)
}

/// What the sync of a role link finds: the link, the members of its guild, what
/// RoleLogic says of the limit, and the linked accounts, at the instant `now`.
pub struct SyncWorld {
    pub link: LinkRow,
    pub members: Vec<String>,
    pub limit: Result<usize, AppError>,
    pub accounts: Seq<Account>,
    pub now: Timestamp,
}

impl SyncWorld {
    pub open spec fn rule(self) -> RuleModel {
        stored_rule(self.link.rule_tree@)
    }

    /// How many users the role link may have.
    pub open spec fn user_limit(self) -> usize {
        match self.limit {
            Ok(n) => n,
            Err(_) => DEFAULT_USER_LIMIT,
        }
    }

    /// What is cached of the account's relationship to the connected channel.
    pub open spec fn facts(self, a: Account) -> Option<CacheData> {
        match self.link.broadcaster_id {
            Some(channel) => facts_of(a.rows, channel@),
            None => None,
        }
    }

    /// The account belongs to a member who qualifies for the role link.
    pub open spec fn entitled(self, a: Account) -> bool {
        texts(self.members@).contains(a.discord_id) && qualifies_by(
            self.rule(),
            self.link.broadcaster_id is Some,
            self.facts(a),
            self.now,
        )
    }

    /// The ids are those of the entitled, as many as the limit allows, the ones
    /// linked longest ago first.
    pub open spec fn right_list(self, ids: Seq<Seq<char>>) -> bool {
        first_linked(
            self.accounts,
            |a: Account| self.entitled(a),
            self.user_limit() as nat,
            ids,
        )
    }

    /// No instant lies within a leap second.
    pub open spec fn is_plain(self) -> bool {
        &&& self.now.is_plain()
        &&& forall|k: int|
            0 <= k < self.accounts.len() ==> (known_facts(
                self.facts(#[trigger] self.accounts[k]),
            ).followed_at matches Some(t) ==> t.is_plain())
    }

    /// The ids are what the database answers to the query.
    pub open spec fn selects(self, query: MemberQuery, limit: usize, ids: Seq<Seq<char>>) -> bool {
        match query {
            MemberQuery::Linked => first_linked(
                self.accounts,
                |a: Account| texts(self.members@).contains(a.discord_id),
                limit as nat,
                ids,
            ),
            MemberQuery::ByRule { sql, broadcaster_id, binds } => sql@ == members_sql(self.rule())
                ==> first_linked(
                self.accounts,
                |a: Account|
                    texts(self.members@).contains(a.discord_id) && clause_value(
                        rule_clause(self.rule(), 2),
                        binds@,
                        2,
                        joined_row(facts_of(a.rows, broadcaster_id@)),
                        self.now,
                    ) == Some(true),
                limit as nat,
                ids,
            ),
        }
    }

    /// The reply is what comes of the work of the state where everything that
    /// is read is there and RoleLogic takes the user list.
    pub open spec fn answers(self, state: RoleLinkSync, reply: RoleLinkReply) -> bool {
        match state {
            RoleLinkSync::FindLink => reply == RoleLinkReply::Link(Some(self.link)),
            RoleLinkSync::FetchMembers { .. } => reply == RoleLinkReply::Members(self.members),
            RoleLinkSync::FetchLimit { .. } => reply == RoleLinkReply::Limit(self.limit),
            RoleLinkSync::SelectUsers { query, limit, .. } =>
                reply matches RoleLinkReply::Users(ids) && self.selects(query, limit, texts(ids@)),
            RoleLinkSync::Upload { .. } | RoleLinkSync::UploadNobody { .. } =>
                reply matches RoleLinkReply::Uploaded(Ok(_)),
            _ => reply is Done,
        }
    }

    /// The states are those of a course in this world, from its beginning on.
    pub open spec fn is_course(
        self,
        states: Seq<RoleLinkSync>,
        replies: Seq<RoleLinkReply>,
    ) -> bool {
        &&& states.len() == replies.len() + 1
        &&& states[0] is FindLink
        &&& forall|i: int|
            0 <= i < replies.len() ==> self.answers(states[i], #[trigger] replies[i])
                && states[i].leads_to(replies[i], states[i + 1])
    }

    /// What holds of every state of a course.
    pub open spec fn on_course(self, state: RoleLinkSync) -> bool {
        match state {
            RoleLinkSync::FindLink => true,
            RoleLinkSync::FetchMembers { tree, broadcaster_id, .. } => tree@ == self.rule()
                && broadcaster_id == self.link.broadcaster_id && !grants_nobody(
                self.rule(),
                broadcaster_id is Some,
            ),
            RoleLinkSync::FetchLimit { tree, broadcaster_id, member_ids, .. } => tree@
                == self.rule() && broadcaster_id == self.link.broadcaster_id && !grants_nobody(
                self.rule(),
                broadcaster_id is Some,
            ) && member_ids == self.members,
            RoleLinkSync::SelectUsers { query, limit, .. } => query_for(
                query,
                self.rule(),
                self.link.broadcaster_id,
            ) && limit == self.user_limit(),
            _ => (uploaded(state) matches Some(ids) ==> self.right_list(ids)) && (mirror_of(
                state,
            ) matches Some(ids) ==> self.right_list(ids)),
        }
    }
}

/// The user list that RoleLogic is sent in a state.
pub open spec fn uploaded(state: RoleLinkSync) -> Option<Seq<Seq<char>>> {
    match state {
        RoleLinkSync::Upload { user_ids, .. } => Some(texts(user_ids@)),
        RoleLinkSync::UploadNobody { .. } => Some(Seq::empty()),
        _ => None,
    }
}

/// The users that the role link gets in the local mirror in a state.
pub open spec fn mirror_of(state: RoleLinkSync) -> Option<Seq<Seq<char>>> {
    match state {
        RoleLinkSync::ReplaceMirror { user_ids } => Some(texts(user_ids@)),
        RoleLinkSync::EraseMirror => Some(Seq::empty()),
        _ => None,
    }
}

/// The local mirror, of guilds, roles and users, after the work of a state.
pub open spec fn mirrored(
    mirror: Set<(Seq<char>, Seq<char>, Seq<char>)>,
    guild_id: Seq<char>,
    role_id: Seq<char>,
    state: RoleLinkSync,
) -> Set<(Seq<char>, Seq<char>, Seq<char>)> {
    match mirror_of(state) {
        Some(ids) => mirror.filter(
            |x: (Seq<char>, Seq<char>, Seq<char>)| x.0 != guild_id || x.1 != role_id,
        ) + ids.map_values(|id: Seq<char>| (guild_id, role_id, id)).to_set(),
        None => mirror,
    }
}

proof fn lemma_same_picks(
    accounts: Seq<Account>,
    a: spec_fn(Account) -> bool,
    b: spec_fn(Account) -> bool,
    limit: nat,
    ids: Seq<Seq<char>>,
)
    requires
        first_linked(accounts, a, limit, ids),
        forall|k: int| 0 <= k < accounts.len() ==> a(#[trigger] accounts[k]) == b(accounts[k]),
    ensures
        first_linked(accounts, b, limit, ids),
{
    let picks = choose|picks: Seq<int>| #[trigger] picked(accounts, a, limit, ids, picks);
    assert(picked(accounts, b, limit, ids, picks));
}

/// The query of the course selects the right list.
proof fn lemma_selected_is_right(
    world: SyncWorld,
    query: MemberQuery,
    ids: Seq<Seq<char>>,
)
    requires
        world.is_plain(),
        query_for(query, world.rule(), world.link.broadcaster_id),
        world.selects(query, world.user_limit(), ids),
    ensures
        world.right_list(ids),
{
    let right = |a: Account| world.entitled(a);
    match query {
        MemberQuery::Linked => {
            let keep = |a: Account| texts(world.members@).contains(a.discord_id);
            assert forall|k: int| 0 <= k < world.accounts.len() implies keep(
                #[trigger] world.accounts[k],
            ) == right(world.accounts[k]) by {}
            lemma_same_picks(world.accounts, keep, right, world.user_limit() as nat, ids);
        },
        MemberQuery::ByRule { sql, broadcaster_id, binds } => {
            let keep = |a: Account|
                texts(world.members@).contains(a.discord_id) && clause_value(
                    rule_clause(world.rule(), 2),
                    binds@,
                    2,
                    joined_row(facts_of(a.rows, broadcaster_id@)),
                    world.now,
                ) == Some(true);
            assert forall|k: int| 0 <= k < world.accounts.len() implies keep(
                #[trigger] world.accounts[k],
            ) == right(world.accounts[k]) by {
                law_both_paths_agree(world.rule(), world.facts(world.accounts[k]), world.now);
            }
            lemma_same_picks(world.accounts, keep, right, world.user_limit() as nat, ids);
        },
    }
}

/// Where nobody is entitled, nobody is the right list.
proof fn lemma_nobody_is_right(world: SyncWorld)
    requires
        forall|k: int|
            0 <= k < world.accounts.len() ==> !world.entitled(#[trigger] world.accounts[k]),
    ensures
        world.right_list(Seq::empty()),
{
    assert(picked(
        world.accounts,
        |a: Account| world.entitled(a),
        world.user_limit() as nat,
        Seq::empty(),
        Seq::empty(),
    ));
}

proof fn lemma_course_stays_on_course(
    world: SyncWorld,
    state: RoleLinkSync,
    reply: RoleLinkReply,
    r: RoleLinkSync,
)
    requires
        world.is_plain(),
        world.on_course(state),
        world.answers(state, reply),
        state.leads_to(reply, r),
    ensures
        world.on_course(r),
{
    match state {
        RoleLinkSync::FindLink => {
            if grants_nobody(world.rule(), world.link.broadcaster_id is Some) {
                lemma_nobody_is_right(world);
            }
        },
        RoleLinkSync::FetchMembers { .. } => {
            if world.members@.len() == 0 {
                assert(texts(world.members@).len() == 0);
                lemma_nobody_is_right(world);
            }
        },
        RoleLinkSync::SelectUsers { query, .. } => {
            lemma_selected_is_right(world, query, texts(reply->Users_0@));
        },
        _ => {},
    }
}

/// In every course of a role link's sync, the user list that RoleLogic is sent
/// holds exactly the members who qualify, by the same measure as in the sync of
/// one user: as many as the limit allows, the ones linked longest ago first. So
/// does the local mirror.
pub proof fn law_bulk_sync_sends_the_entitled(
    world: SyncWorld,
    states: Seq<RoleLinkSync>,
    replies: Seq<RoleLinkReply>,
    i: int,
)
    requires
        world.is_plain(),
        world.is_course(states, replies),
        0 <= i < states.len(),
    ensures
        world.on_course(states[i]),
        uploaded(states[i]) matches Some(ids) ==> world.right_list(ids),
        mirror_of(states[i]) matches Some(ids) ==> world.right_list(ids),
    decreases i,
{
    if i > 0 {
        law_bulk_sync_sends_the_entitled(world, states, replies, i - 1);
        assert(world.answers(states[i - 1], replies[i - 1]));
        lemma_course_stays_on_course(world, states[i - 1], replies[i - 1], states[i]);
    }
}

/// The course has sent a list and mirrors it in this state: the role link's
/// assignments become that list, those of every other role link stay.
pub open spec fn mirrors_the_list(
    world: SyncWorld,
    states: Seq<RoleLinkSync>,
    i: int,
    mirror: Set<(Seq<char>, Seq<char>, Seq<char>)>,
    guild_id: Seq<char>,
    role_id: Seq<char>,
) -> bool {
    &&& 0 < i < states.len()
    &&& uploaded(states[i - 1]) matches Some(ids)
    &&& world.right_list(ids)
    &&& forall|id: Seq<char>| #[trigger]
        mirrored(mirror, guild_id, role_id, states[i]).contains((guild_id, role_id, id))
            == ids.contains(id)
    &&& forall|x: (Seq<char>, Seq<char>, Seq<char>)|
        x.0 != guild_id || x.1 != role_id ==> #[trigger] mirrored(
            mirror,
            guild_id,
            role_id,
            states[i],
        ).contains(x) == mirror.contains(x)
}

/// The sync of a role link that RoleLogic knows comes to its end: the right list
/// is sent and then mirrored, and nothing fails.
pub proof fn law_bulk_sync_reaches_the_rules(
    world: SyncWorld,
    states: Seq<RoleLinkSync>,
    replies: Seq<RoleLinkReply>,
    mirror: Set<(Seq<char>, Seq<char>, Seq<char>)>,
    guild_id: Seq<char>,
    role_id: Seq<char>,
)
    requires
        world.is_plain(),
        world.is_course(states, replies),
        world.limit != Err::<usize, AppError>(AppError::RoleLinkNotFound),
        replies.len() >= 5,
    ensures
        exists|i: int| #[trigger]
            mirrors_the_list(world, states, i, mirror, guild_id, role_id),
        forall|i: int| 0 <= i < states.len() ==> !(#[trigger] states[i] is Failed),
{
    assert(world.answers(states[0], replies[0]));
    assert(world.answers(states[1], replies[1]));
    assert(world.answers(states[2], replies[2]));
    assert(world.answers(states[3], replies[3]));
    assert(world.answers(states[4], replies[4]));
    let i: int = if states[1] is UploadNobody {
        2
    } else if states[2] is UploadNobody {
        3
    } else {
        5
    };
    law_bulk_sync_sends_the_entitled(world, states, replies, i - 1);
    let ids = uploaded(states[i - 1])->0;
    lemma_mirrored(mirror, guild_id, role_id, states[i], ids);
    assert(mirrors_the_list(world, states, i, mirror, guild_id, role_id));
    assert forall|k: int| 0 <= k < states.len() implies !(#[trigger] states[k] is Failed) by {
        lemma_nothing_fails(world, states, replies, k);
    }
}

proof fn lemma_nothing_fails(
    world: SyncWorld,
    states: Seq<RoleLinkSync>,
    replies: Seq<RoleLinkReply>,
    k: int,
)
    requires
        world.is_course(states, replies),
        0 <= k < states.len(),
    ensures
        !(states[k] is Failed),
    decreases k,
{
    if k > 0 {
        lemma_nothing_fails(world, states, replies, k - 1);
        assert(world.answers(states[k - 1], replies[k - 1]));
    }
}

proof fn lemma_mirrored(
    mirror: Set<(Seq<char>, Seq<char>, Seq<char>)>,
    guild_id: Seq<char>,
    role_id: Seq<char>,
    state: RoleLinkSync,
    ids: Seq<Seq<char>>,
)
    requires
        mirror_of(state) == Some(ids),
    ensures
        forall|id: Seq<char>| #[trigger]
            mirrored(mirror, guild_id, role_id, state).contains((guild_id, role_id, id))
                == ids.contains(id),
        forall|x: (Seq<char>, Seq<char>, Seq<char>)|
            x.0 != guild_id || x.1 != role_id ==> #[trigger] mirrored(
                mirror,
                guild_id,
                role_id,
                state,
            ).contains(x) == mirror.contains(x),
{
    let rows = ids.map_values(|id: Seq<char>| (guild_id, role_id, id));
    assert forall|id: Seq<char>| #[trigger]
        mirrored(mirror, guild_id, role_id, state).contains((guild_id, role_id, id))
            == ids.contains(id) by {
        if ids.contains(id) {
            let j = choose|j: int| 0 <= j < ids.len() && ids[j] == id;
            assert(rows[j] == (guild_id, role_id, id));
            assert(rows.contains((guild_id, role_id, id)));
        }
        if rows.contains((guild_id, role_id, id)) {
            let j = choose|j: int| 0 <= j < rows.len() && rows[j] == (guild_id, role_id, id);
            assert(ids[j] == id);
        }
    }
    assert forall|x: (Seq<char>, Seq<char>, Seq<char>)|
        x.0 != guild_id || x.1 != role_id implies #[trigger] mirrored(
        mirror,
        guild_id,
        role_id,
        state,
    ).contains(x) == mirror.contains(x) by {
        assert(!rows.contains(x));
    }
}

// ---------------------------------------------------------------------
// Who gets which role
// ---------------------------------------------------------------------

/// A rule that grants on any relation is for everyone, channel or not. Every
/// other rule is for those who meet it on the connected channel, and for nobody
/// while none is connected. A viewer with nothing in the cache counts as one who
/// neither follows nor subscribes.
pub proof fn law_who_qualifies(
    rule: RuleModel,
    connected: bool,
    facts: Option<CacheData>,
    now: Timestamp,
)
    ensures
        rule.grant_on_any_relation ==> qualifies_by(rule, connected, facts, now),
        !rule.grant_on_any_relation && !connected ==> !qualifies_by(rule, connected, facts, now),
        !rule.grant_on_any_relation && connected && facts is Some ==> qualifies_by(
            rule,
            connected,
            facts,
            now,
        ) == rule_matches(rule, facts->0, now),
        !rule.grant_on_any_relation && connected && facts is None ==> qualifies_by(
            rule,
            connected,
            facts,
            now,
        ) == rule_matches(
            rule,
            (CacheData { is_following: false, followed_at: None, is_subscribed: false, sub_tier: 0 }),
            now,
        ),
{
}

/// The facts of a channel are those of its own row, whatever the rows of other
/// channels say; where a channel has no row there are none.
pub proof fn law_facts_are_of_the_channel(
    rows: Seq<(Seq<char>, CacheData)>,
    channel: Seq<char>,
    at: int,
)
    ensures
        0 <= at < rows.len() && rows[at].0 == channel && (forall|k: int|
            at < k < rows.len() ==> (#[trigger] rows[k]).0 != channel) ==> facts_of(rows, channel)
            == Some(rows[at].1),
        (forall|k: int| 0 <= k < rows.len() ==> (#[trigger] rows[k]).0 != channel) ==> facts_of(
            rows,
            channel,
        ) is None,
    decreases rows.len(),
{
    if rows.len() > 0 {
        let before = rows.drop_last();
        law_facts_are_of_the_channel(before, channel, at);
        if 0 <= at < rows.len() - 1 && rows[at].0 == channel && (forall|k: int|
            at < k < rows.len() ==> (#[trigger] rows[k]).0 != channel) {
            assert(rows[rows.len() - 1].0 != channel);
            assert forall|k: int| at < k < before.len() implies (#[trigger] before[k]).0
                != channel by {
                assert(before[k] == rows[k]);
            }
        }
        if forall|k: int| 0 <= k < rows.len() ==> (#[trigger] rows[k]).0 != channel {
            assert(rows[rows.len() - 1].0 != channel);
            assert forall|k: int| 0 <= k < before.len() implies (#[trigger] before[k]).0
                != channel by {
                assert(before[k] == rows[k]);
            }
        }
    }
}

/// A user qualifies for a role link by the rule that the link stores and by what
/// is cached for the link's own channel.
pub proof fn law_links_go_by_their_own_channel(
    link: LinkModel,
    rows: Seq<(Seq<char>, CacheData)>,
    at: int,
    now: Timestamp,
)
    ensures
        ({
            let rule = stored_rule(link.rule_tree);
            &&& rule.grant_on_any_relation ==> link.qualifies(rows, now)
            &&& !rule.grant_on_any_relation && link.broadcaster_id is None ==> !link.qualifies(
                rows,
                now,
            )
            &&& !rule.grant_on_any_relation && link.broadcaster_id is Some && 0 <= at < rows.len()
                && rows[at].0 == link.broadcaster_id->0 && (forall|k: int|
                at < k < rows.len() ==> (#[trigger] rows[k]).0 != link.broadcaster_id->0)
                ==> link.qualifies(rows, now) == rule_matches(rule, rows[at].1, now)
            &&& !rule.grant_on_any_relation && link.broadcaster_id is Some && (forall|k: int|
                0 <= k < rows.len() ==> (#[trigger] rows[k]).0 != link.broadcaster_id->0)
                ==> link.qualifies(rows, now) == rule_matches(
                rule,
                (CacheData {
                    is_following: false,
                    followed_at: None,
                    is_subscribed: false,
                    sub_tier: 0,
                }),
                now,
            )
        }),
{
    if link.broadcaster_id is Some {
        law_facts_are_of_the_channel(rows, link.broadcaster_id->0, at);
    }
}

/// Every change of a plan is for one of the links, with that link's guild, role
/// and key: the role is given where the user qualifies and does not have it, and
/// taken where they have it and do not qualify.
pub proof fn law_changes_belong_to_links(
    links: Seq<LinkModel>,
    rows: Seq<(Seq<char>, CacheData)>,
    assigned: Set<(Seq<char>, Seq<char>)>,
    now: Timestamp,
    k: int,
)
    requires
        0 <= k < planned(links, rows, assigned, now).len(),
    ensures
        exists|i: int|
            0 <= i < links.len() && ({
                let link = #[trigger] links[i];
                let held = assigned.contains((link.guild_id, link.role_id));
                match planned(links, rows, assigned, now)[k] {
                    ActionModel::Add { guild_id, role_id, api_token } => guild_id == link.guild_id
                        && role_id == link.role_id && api_token == link.api_token && !held
                        && link.qualifies(rows, now),
                    ActionModel::Remove { guild_id, role_id, api_token } => guild_id
                        == link.guild_id && role_id == link.role_id && api_token == link.api_token
                        && held && !link.qualifies(rows, now),
                }
            }),
    decreases links.len(),
{
    if links.len() > 0 {
        let before = links.drop_last();
        let shorter = planned(before, rows, assigned, now);
        if k < shorter.len() {
            law_changes_belong_to_links(before, rows, assigned, now, k);
            let i = choose|i: int|
                0 <= i < before.len() && ({
                    let link = #[trigger] before[i];
                    let held = assigned.contains((link.guild_id, link.role_id));
                    match shorter[k] {
                        ActionModel::Add { guild_id, role_id, api_token } => guild_id
                            == link.guild_id && role_id == link.role_id && api_token
                            == link.api_token && !held && link.qualifies(rows, now),
                        ActionModel::Remove { guild_id, role_id, api_token } => guild_id
                            == link.guild_id && role_id == link.role_id && api_token
                            == link.api_token && held && !link.qualifies(rows, now),
                    }
                });
            assert(links[i] == before[i]);
            assert(planned(links, rows, assigned, now)[k] == shorter[k]);
        } else {
            assert(links[links.len() - 1] == links.last());
        }
    }
}

/// A user with a linked account, in guilds with role links, whose roles are not
/// all right, gets just the changes of the plan that is made of these links, of
/// what is cached, and of the roles they have.
pub proof fn law_user_sync_comes_to_the_plan(
    twitch_user_id: String,
    guild_ids: Vec<String>,
    links: Vec<RoleLink>,
    rows: Vec<CacheRow>,
    assigned: Vec<(String, String)>,
    now: Timestamp,
    states: Seq<UserSync>,
)
    requires
        guild_ids@.len() > 0,
        links@.len() > 0,
        states.len() == 6,
        states[0] is FindAccount,
        states[0].leads_to(UserSyncReply::Account(Some(twitch_user_id)), now, states[1]),
        states[1].leads_to(UserSyncReply::Guilds(guild_ids), now, states[2]),
        states[2].leads_to(UserSyncReply::Links(links), now, states[3]),
        states[3].leads_to(UserSyncReply::Cache(rows), now, states[4]),
        states[4].leads_to(UserSyncReply::Assignments(assigned), now, states[5]),
    ensures
        states[1] matches UserSync::FetchGuilds { twitch_user_id: id } && id == twitch_user_id,
        states[2] matches UserSync::FetchLinks { twitch_user_id: id, guild_ids: ids } && id
            == twitch_user_id && ids == guild_ids,
        states[3] matches UserSync::FetchCache { twitch_user_id: id, .. } && id == twitch_user_id,
        states[4] is FetchAssignments,
        ({
            let plan = planned(
                links_model(links@),
                rows_model(rows@),
                keys_model(assigned@).to_set(),
                now,
            );
            if plan.len() == 0 {
                states[5] is Finished
            } else {
                states[5] matches UserSync::Apply { actions } && actions_model(actions@) == plan
            }
        }),
{
}

/// A user without a linked account is left alone, and so is one without guilds
/// or whose guilds have no role links.
pub proof fn law_nothing_to_sync(
    twitch_user_id: String,
    guild_ids: Vec<String>,
    none: Vec<String>,
    no_links: Vec<RoleLink>,
    now: Timestamp,
    r: UserSync,
)
    requires
        none@.len() == 0,
        no_links@.len() == 0,
        UserSync::FindAccount.leads_to(UserSyncReply::Account(None), now, r) || (
        UserSync::FetchGuilds { twitch_user_id }).leads_to(UserSyncReply::Guilds(none), now, r) || (
        UserSync::FetchLinks { twitch_user_id, guild_ids }).leads_to(
            UserSyncReply::Links(no_links),
            now,
            r,
        ),
    ensures
        r is Finished,
{
}

/// The query for a rule selects the members' Discord ids among the linked
/// accounts, with what is cached for the channel beside them, where the rule's
/// clause holds, the ones linked longest ago first, up to the limit. The channel
/// is the first parameter, the members the second, the rule's values follow, the
/// limit comes last.
pub proof fn law_query_for_a_rule(rule: RuleModel)
    ensures
        members_sql(rule)
            == "SELECT la.discord_id FROM linked_accounts la LEFT JOIN user_channel_cache ucc ON ucc.twitch_user_id = la.twitch_user_id AND ucc.broadcaster_id = $1 WHERE la.discord_id = ANY($2::text[]) AND ("@
            + rule_text(rule, 2) + ") ORDER BY la.linked_at ASC LIMIT $"@ + decimal(
            rule_binds(rule).len() + 3,
        ),
        LINKED_MEMBERS_SQL@
            == "SELECT la.discord_id FROM linked_accounts la WHERE la.discord_id = ANY($1::text[]) ORDER BY la.linked_at ASC LIMIT $2"@,
{
    assert(2 + rule_binds(rule).len() + 1 == rule_binds(rule).len() + 3);
}

/// The limit of a role link is what RoleLogic says, and 100 where it says
/// nothing.
pub proof fn law_user_limits(
    api_token: String,
    tree: RuleTree,
    broadcaster_id: Option<String>,
    member_ids: Vec<String>,
    answer: Result<usize, AppError>,
    r: RoleLinkSync,
)
    requires
        (RoleLinkSync::FetchLimit { api_token, tree, broadcaster_id, member_ids }).leads_to(
            RoleLinkReply::Limit(answer),
            r,
        ),
    ensures
        answer != Err::<usize, AppError>(AppError::RoleLinkNotFound) ==> (
        r matches RoleLinkSync::SelectUsers { limit, member_ids: ids, api_token: key, .. } && limit
            == (if answer is Ok {
            answer->Ok_0
        } else {
            100
        }) && ids == member_ids && key == api_token),
        answer == Err::<usize, AppError>(AppError::RoleLinkNotFound) ==> r is DropLink,
{
}

/// The key that RoleLogic is asked with in a state.
pub open spec fn key_in(state: RoleLinkSync) -> Option<String> {
    match state {
        RoleLinkSync::FetchMembers { api_token, .. } => Some(api_token),
        RoleLinkSync::FetchLimit { api_token, .. } => Some(api_token),
        RoleLinkSync::SelectUsers { api_token, .. } => Some(api_token),
        RoleLinkSync::Upload { api_token, .. } => Some(api_token),
        RoleLinkSync::UploadNobody { api_token } => Some(api_token),
        _ => None,
    }
}

/// In every course, RoleLogic is asked with the key of the role link, and the
/// users are selected among the members of the guild.
pub proof fn law_bulk_sync_uses_the_links_key(
    world: SyncWorld,
    states: Seq<RoleLinkSync>,
    replies: Seq<RoleLinkReply>,
    i: int,
)
    requires
        world.is_course(states, replies),
        0 <= i < states.len(),
    ensures
        key_in(states[i]) matches Some(key) ==> key == world.link.api_token,
        states[i] matches RoleLinkSync::FetchLimit { member_ids, .. } ==> member_ids
            == world.members,
        states[i] matches RoleLinkSync::SelectUsers { member_ids, .. } ==> member_ids
            == world.members,
    decreases i,
{
    if i > 0 {
        law_bulk_sync_uses_the_links_key(world, states, replies, i - 1);
        assert(world.answers(states[i - 1], replies[i - 1]));
    }
}

/// A role link that RoleLogic does not know any more is dropped; any other
/// failure of an upload is passed on and leaves the local mirror as it is.
pub proof fn law_failed_uploads(
    api_token: String,
    user_ids: Vec<String>,
    e: AppError,
    r: RoleLinkSync,
)
    requires
        (RoleLinkSync::Upload { api_token, user_ids }).leads_to(RoleLinkReply::Uploaded(Err(e)), r)
            || (RoleLinkSync::UploadNobody { api_token }).leads_to(
            RoleLinkReply::Uploaded(Err(e)),
            r,
        ),
    ensures
        e is RoleLinkNotFound ==> r is DropLink,
        !(e is RoleLinkNotFound) ==> r == RoleLinkSync::Failed(e),
        mirror_of(r) is None,
{
}

/// What users are sent to RoleLogic is what they are: the list that was selected.
pub proof fn law_the_selected_are_sent(
    api_token: String,
    query: MemberQuery,
    member_ids: Vec<String>,
    limit: usize,
    user_ids: Vec<String>,
    r: RoleLinkSync,
    after: RoleLinkSync,
)
    requires
        (RoleLinkSync::SelectUsers { api_token, query, member_ids, limit }).leads_to(
            RoleLinkReply::Users(user_ids),
            r,
        ),
        r.leads_to(RoleLinkReply::Uploaded(Ok(())), after),
    ensures
        r == (RoleLinkSync::Upload { api_token, user_ids }),
        after == (RoleLinkSync::ReplaceMirror { user_ids }),
{
}

} // verus!
