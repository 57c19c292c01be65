//! Public "all users" listing: every linked member with their relationship to
//! a Twitch channel connected to this guild.
//!
//! Gated by the guild's view permission:
//!   * `disabled`: nobody
//!   * `managers`: Manage-Server only
//!   * `members`: any member of the guild
use vstd::prelude::*;

use crate::error::{error_view, AppError, ErrorModel};
use crate::json::{
    json_count, json_object, lemma_with, opt_view, optional_text, JsonModel, JsonValue,
};
use crate::outside::{rfc3339_text, to_rfc3339};
use crate::text::{replace_all, replaced, str_eq};
use crate::time::{quotient, Timestamp};

verus! {

/// The permission of a guild that has not set one.
pub const DEFAULT_VIEW_PERMISSION: &'static str = "managers";

/// The page that lists the users.
pub fn users_page(template: &str, base_url: &str, guild_id: &str) -> (r: String)
    ensures
        r@ == replaced(
            replaced(template@, "{{BASE_URL}}"@, base_url@),
            "{{GUILD_ID}}"@,
            guild_id@,
        ),
{
    proof {
        reveal_strlit("{{BASE_URL}}");
        reveal_strlit("{{GUILD_ID}}");
    }
    let based = replace_all(template, "{{BASE_URL}}", base_url);
    replace_all(based.as_str(), "{{GUILD_ID}}", guild_id)
}

// ---------------------------------------------------------------------
// Who may see the list
// ---------------------------------------------------------------------

/// The guild's view permission.
pub open spec fn permission_of(stored: Option<Seq<char>>) -> Seq<char> {
    match stored {
        Some(p) => p,
        None => DEFAULT_VIEW_PERMISSION@,
    }
}

/// The guild's view permission.
pub fn view_permission(stored: Option<String>) -> (r: String)
    ensures
        r@ == permission_of(opt_view(stored)),
{
    match stored {
        Some(p) => p,
        None => DEFAULT_VIEW_PERMISSION.to_owned(),
    }
}

/// Why a caller may not see the list, if they may not.
pub open spec fn view_refusal(permission: Seq<char>, is_member: bool, is_manager: bool) -> Option<
    Seq<char>,
> {
    if permission == "disabled"@ {
        Some("The user list is disabled for this server."@)
    } else if !is_member {
        Some("You're not a member of this server."@)
    } else if permission == "managers"@ && !is_manager {
        Some("This list is visible to server managers only."@)
    } else {
        None
    }
}

/// Refuses the list of a guild that has disabled it, before anything is asked
/// about the caller.
pub fn require_enabled(permission: &str) -> (r: Result<(), AppError>)
    ensures
        error_view(r) == if permission@ == "disabled"@ {
            Err::<(), ErrorModel>(
                ErrorModel::Forbidden("The user list is disabled for this server."@),
            )
        } else {
            Ok::<(), ErrorModel>(())
        },
{
    if str_eq(permission, "disabled") {
        Err(AppError::Forbidden("The user list is disabled for this server.".to_owned()))
    } else {
        Ok(())
    }
}

/// Refuses the list to a caller whom the permission does not let see it.
pub fn require_viewer(permission: &str, is_member: bool, is_manager: bool) -> (r: Result<
    (),
    AppError,
>)
    ensures
        error_view(r) == match view_refusal(permission@, is_member, is_manager) {
            Some(reason) => Err::<(), ErrorModel>(ErrorModel::Forbidden(reason)),
            None => Ok::<(), ErrorModel>(()),
        },
{
    if str_eq(permission, "disabled") {
        return Err(AppError::Forbidden("The user list is disabled for this server.".to_owned()));
    }
    if !is_member {
        return Err(AppError::Forbidden("You're not a member of this server.".to_owned()));
    }
    if str_eq(permission, "managers") && !is_manager {
        return Err(
            AppError::Forbidden("This list is visible to server managers only.".to_owned()),
        );
    }
    Ok(())
}

/// Nobody from outside the guild sees its list, and a guild that has set
/// nothing shows it to its managers only.
pub proof fn law_list_is_kept_to_the_guild(permission: Option<Seq<char>>, is_manager: bool)
    ensures
        view_refusal(permission_of(permission), false, is_manager) is Some,
        permission is None ==> (view_refusal(permission_of(permission), true, is_manager) is None
            == is_manager),
{
    reveal_strlit("managers");
    reveal_strlit("disabled");
    assert("managers"@[0] == 'm' && "disabled"@[0] == 'd');
}

// ---------------------------------------------------------------------
// The list
// ---------------------------------------------------------------------

/// A linked member: the account, and the relationship to the guild's channels
/// taken together.
#[derive(Debug)]
pub struct UserRow {
    pub discord_id: String,
    pub discord_name: Option<String>,
    pub username: String,
    pub is_follower: bool,
    pub is_subscriber: bool,
    /// On Twitch's raw tier scale.
    pub sub_tier: i32,
    pub followed_at: Option<Timestamp>,
    pub linked_at: Timestamp,
}

impl UserRow {
    /// The dates are ones that the calendar has.
    pub open spec fn wf(self) -> bool {
        &&& self.linked_at.in_calendar()
        &&& self.followed_at matches Some(t) ==> t.in_calendar()
    }
}

/// What the list says of a member, the tier on the friendly 1/2/3 scale (0 when
/// not subscribed).
pub open spec fn user_json(row: UserRow) -> JsonModel {
    json_object().with("discord_id"@, JsonModel::Text(row.discord_id@)).with(
        "discord_name"@,
        optional_text(opt_view(row.discord_name)),
    ).with("username"@, JsonModel::Text(row.username@)).with(
        "is_follower"@,
        JsonModel::Bool(row.is_follower),
    ).with("is_subscriber"@, JsonModel::Bool(row.is_subscriber)).with(
        "sub_tier"@,
        JsonModel::Int(quotient(row.sub_tier as int, 1000) as i64),
    ).with(
        "followed_at"@,
        match row.followed_at {
            Some(t) => JsonModel::Text(rfc3339_text(t)),
            None => JsonModel::Null,
        },
    ).with("linked_at"@, JsonModel::Text(rfc3339_text(row.linked_at)))
}

pub open spec fn users_json(rows: Seq<UserRow>) -> JsonModel {
    JsonModel::Array(rows.map_values(|row: UserRow| user_json(row)))
}

fn user_entry(row: &UserRow) -> (r: JsonValue)
    requires
        row.wf(),
    ensures
        r@ == user_json(*row),
{
    let raw: i64 = row.sub_tier as i64;
    let tier: i64 = if raw < 0 {
        0 - (0 - raw) / 1000
    } else {
        raw / 1000
    };
    let followed_at = match row.followed_at {
        Some(t) => JsonValue::Text(to_rfc3339(t)),
        None => JsonValue::Null,
    };
    JsonValue::object().with("discord_id", JsonValue::text(row.discord_id.as_str())).with(
        "discord_name",
        JsonValue::opt_text(&row.discord_name),
    ).with("username", JsonValue::text(row.username.as_str())).with(
        "is_follower",
        JsonValue::Bool(row.is_follower),
    ).with("is_subscriber", JsonValue::Bool(row.is_subscriber)).with(
        "sub_tier",
        JsonValue::Int(tier),
    ).with("followed_at", followed_at).with(
        "linked_at",
        JsonValue::Text(to_rfc3339(row.linked_at)),
    )
}

/// The list of a guild's linked members.
pub open spec fn list_json(
    guild_id: Seq<char>,
    guild_name: Option<Seq<char>>,
    rows: Seq<UserRow>,
) -> JsonModel {
    json_object().with("guild_id"@, JsonModel::Text(guild_id)).with(
        "guild_name"@,
        optional_text(guild_name),
    ).with("count"@, json_count(rows.len())).with("users"@, users_json(rows))
}

/// The list of a guild's linked members.
pub fn users_data(guild_id: &str, guild_name: &Option<String>, rows: &Vec<UserRow>) -> (r:
    JsonValue)
    requires
        forall|i: int| 0 <= i < rows@.len() ==> (#[trigger] rows@[i]).wf(),
    ensures
        r@ == list_json(guild_id@, opt_view(*guild_name), rows@),
{
    let ghost all = users_json(rows@)->Array_0;
    let mut users = JsonValue::array();
    let mut i: usize = 0;
    assert(users@->Array_0 =~= all.take(0));
    while i < rows.len()
        invariant
            i <= rows@.len(),
            all == users_json(rows@)->Array_0,
            all.len() == rows@.len(),
            users@ == JsonModel::Array(all.take(i as int)),
            forall|k: int| 0 <= k < rows@.len() ==> (#[trigger] rows@[k]).wf(),
        decreases rows@.len() - i,
    {
        users = users.item(user_entry(&rows[i]));
        assert(all.take(i as int).push(all[i as int]) =~= all.take(i + 1));
        i = i + 1;
    }
    assert(all.take(i as int) =~= all);
    JsonValue::object().with("guild_id", JsonValue::text(guild_id)).with(
        "guild_name",
        JsonValue::opt_text(guild_name),
    ).with("count", JsonValue::count(rows.len())).with("users", users)
}

/// Each key of a member's entry gives what the row says under that name. The
/// tier is the raw one in whole thousands.
pub proof fn law_entries_say_what_the_rows_say(row: UserRow)
    ensures
        user_json(row).get("discord_id"@) == Some(JsonModel::Text(row.discord_id@)),
        user_json(row).get("username"@) == Some(JsonModel::Text(row.username@)),
        user_json(row).get("is_follower"@) == Some(JsonModel::Bool(row.is_follower)),
        user_json(row).get("is_subscriber"@) == Some(JsonModel::Bool(row.is_subscriber)),
        match row.discord_name {
            Some(name) => user_json(row).get("discord_name"@) == Some(JsonModel::Text(name@)),
            None => user_json(row).get("discord_name"@) == Some(JsonModel::Null),
        },
        match row.followed_at {
            Some(t) => user_json(row).get("followed_at"@) == Some(
                JsonModel::Text(rfc3339_text(t)),
            ),
            None => user_json(row).get("followed_at"@) == Some(JsonModel::Null),
        },
        user_json(row).get("linked_at"@) == Some(JsonModel::Text(rfc3339_text(row.linked_at))),
        user_json(row).get("sub_tier"@) matches Some(JsonModel::Int(tier)) && (if row.sub_tier
            >= 0 {
            1000 * tier <= row.sub_tier < 1000 * (tier + 1)
        } else {
            1000 * (tier - 1) < row.sub_tier <= 1000 * tier
        }),
{
    reveal_strlit("discord_id");
    reveal_strlit("discord_name");
    reveal_strlit("username");
    reveal_strlit("is_follower");
    reveal_strlit("is_subscriber");
    reveal_strlit("sub_tier");
    reveal_strlit("followed_at");
    reveal_strlit("linked_at");
    assert("discord_id"@.len() == 10 && "discord_name"@.len() == 12 && "username"@.len() == 8
        && "is_follower"@.len() == 11 && "is_subscriber"@.len() == 13 && "sub_tier"@.len() == 8
        && "followed_at"@.len() == 11 && "linked_at"@.len() == 9);
    assert("username"@[0] != "sub_tier"@[0]);
    assert("is_follower"@[0] != "followed_at"@[0]);
    let d0 = json_object();
    let v1 = JsonModel::Text(row.discord_id@);
    let d1 = d0.with("discord_id"@, v1);
    lemma_with(d0, "discord_id"@, v1);
    let v2 = optional_text(opt_view(row.discord_name));
    let d2 = d1.with("discord_name"@, v2);
    lemma_with(d1, "discord_name"@, v2);
    let v3 = JsonModel::Text(row.username@);
    let d3 = d2.with("username"@, v3);
    lemma_with(d2, "username"@, v3);
    let v4 = JsonModel::Bool(row.is_follower);
    let d4 = d3.with("is_follower"@, v4);
    lemma_with(d3, "is_follower"@, v4);
    let v5 = JsonModel::Bool(row.is_subscriber);
    let d5 = d4.with("is_subscriber"@, v5);
    lemma_with(d4, "is_subscriber"@, v5);
    let v6 = JsonModel::Int(quotient(row.sub_tier as int, 1000) as i64);
    let d6 = d5.with("sub_tier"@, v6);
    lemma_with(d5, "sub_tier"@, v6);
    let v7 = match row.followed_at {
        Some(t) => JsonModel::Text(rfc3339_text(t)),
        None => JsonModel::Null,
    };
    let d7 = d6.with("followed_at"@, v7);
    lemma_with(d6, "followed_at"@, v7);
    let v8 = JsonModel::Text(rfc3339_text(row.linked_at));
    let d8 = d7.with("linked_at"@, v8);
    lemma_with(d7, "linked_at"@, v8);
    assert(user_json(row) == d8);
}

/// The list names the guild, counts the members, and holds one entry for each
/// row, in order.
pub proof fn law_list_holds_every_row(
    guild_id: Seq<char>,
    guild_name: Option<Seq<char>>,
    rows: Seq<UserRow>,
    i: int,
)
    requires
        0 <= i < rows.len() <= i64::MAX,
    ensures
        ({
            let doc = list_json(guild_id, guild_name, rows);
            &&& doc.get("guild_id"@) == Some(JsonModel::Text(guild_id))
            &&& doc.get("guild_name"@) == Some(
                match guild_name {
                    Some(name) => JsonModel::Text(name),
                    None => JsonModel::Null,
                },
            )
            &&& doc.get("count"@) == Some(JsonModel::Int(rows.len() as i64))
            &&& doc.get("users"@) matches Some(JsonModel::Array(users)) && users.len() == rows.len()
                && users[i].get("username"@) == Some(JsonModel::Text(rows[i].username@))
                && users[i].get("is_follower"@) == Some(JsonModel::Bool(rows[i].is_follower))
                && users[i].get("is_subscriber"@) == Some(JsonModel::Bool(rows[i].is_subscriber))
        }),
{
    reveal_strlit("guild_id");
    reveal_strlit("guild_name");
    reveal_strlit("count");
    reveal_strlit("users");
    assert("guild_id"@.len() == 8 && "guild_name"@.len() == 10 && "count"@.len() == 5
        && "users"@.len() == 5);
    assert("count"@[0] != "users"@[0]);
    let d0 = json_object();
    let v1 = JsonModel::Text(guild_id);
    let d1 = d0.with("guild_id"@, v1);
    lemma_with(d0, "guild_id"@, v1);
    let v2 = optional_text(guild_name);
    let d2 = d1.with("guild_name"@, v2);
    lemma_with(d1, "guild_name"@, v2);
    let v3 = json_count(rows.len());
    let d3 = d2.with("count"@, v3);
    lemma_with(d2, "count"@, v3);
    let v4 = users_json(rows);
    let d4 = d3.with("users"@, v4);
    lemma_with(d3, "users"@, v4);
    assert(list_json(guild_id, guild_name, rows) == d4);
    law_entries_say_what_the_rows_say(rows[i]);
}

/// A list without rows counts nobody.
pub proof fn law_empty_list(guild_id: Seq<char>, guild_name: Option<Seq<char>>)
    ensures
        list_json(guild_id, guild_name, Seq::empty()).get("count"@) == Some(JsonModel::Int(0)),
        list_json(guild_id, guild_name, Seq::empty()).get("users"@) == Some(
            JsonModel::Array(Seq::empty()),
        ),
{
    let rows = Seq::<UserRow>::empty();
    reveal_strlit("guild_id");
    reveal_strlit("guild_name");
    reveal_strlit("count");
    reveal_strlit("users");
    assert("guild_id"@.len() == 8 && "guild_name"@.len() == 10 && "count"@.len() == 5
        && "users"@.len() == 5);
    assert("count"@[0] != "users"@[0]);
    let d0 = json_object();
    let v1 = JsonModel::Text(guild_id);
    let d1 = d0.with("guild_id"@, v1);
    lemma_with(d0, "guild_id"@, v1);
    let v2 = optional_text(guild_name);
    let d2 = d1.with("guild_name"@, v2);
    lemma_with(d1, "guild_name"@, v2);
    let v3 = json_count(rows.len());
    let d3 = d2.with("count"@, v3);
    lemma_with(d2, "count"@, v3);
    let v4 = users_json(rows);
    let d4 = d3.with("users"@, v4);
    lemma_with(d3, "users"@, v4);
    assert(list_json(guild_id, guild_name, rows) == d4);
    assert(users_json(rows)->Array_0 =~= Seq::empty());
}

/// Who sees the list: a member of the guild, unless it is disabled or kept to
/// the managers, of whom the caller is none. Everyone else is told the first
/// reason that holds.
pub proof fn law_who_sees_the_list(permission: Seq<char>, is_member: bool, is_manager: bool)
    ensures
        view_refusal(permission, is_member, is_manager) is None <==> is_member && permission
            != "disabled"@ && (permission == "managers"@ ==> is_manager),
        permission == "disabled"@ ==> view_refusal(permission, is_member, is_manager) == Some(
            "The user list is disabled for this server."@,
        ),
        permission != "disabled"@ && !is_member ==> view_refusal(permission, is_member, is_manager)
            == Some("You're not a member of this server."@),
        permission == "managers"@ && is_member && !is_manager ==> view_refusal(
            permission,
            is_member,
            is_manager,
        ) == Some("This list is visible to server managers only."@),
        permission_of(None) == "managers"@,
        permission_of(Some(permission)) == permission,
{
    reveal_strlit("managers");
    reveal_strlit("disabled");
    assert("managers"@[0] == 'm' && "disabled"@[0] == 'd');
}

// ---------------------------------------------------------------------
// The way to the list
// ---------------------------------------------------------------------

/// What a caller is in a guild.
#[derive(Debug, Clone, Copy, PartialEq, Eq)]
pub struct Standing {
    pub is_member: bool,
    pub is_manager: bool,
}

/// The course of asking for a guild's list. Each state names the work that is to
/// be done in it.
pub enum UsersFlow {
    /// Read the permission that the guild has set.
    FindPermission,
    /// Ask what the caller is in the guild.
    CheckCaller { permission: String },
    /// Ask for the members of the guild and its name.
    FetchMembers,
    /// Read the linked accounts of the members.
    FetchRows { member_ids: Vec<String>, guild_name: Option<String> },
    /// Answer with the list.
    Listed(JsonValue),
    Failed(AppError),
}

/// What came of the work of a [`UsersFlow`].
pub enum UsersReply {
    Permission(Result<Option<String>, AppError>),
    Caller(Result<Standing, AppError>),
    Members(Result<(Vec<String>, Option<String>), AppError>),
    Rows(Result<Vec<UserRow>, AppError>),
}

impl UsersReply {
    /// The dates are ones that the calendar has.
    pub open spec fn wf(self) -> bool {
        self matches UsersReply::Rows(Ok(rows)) ==> forall|i: int|
            0 <= i < rows@.len() ==> (#[trigger] rows@[i]).wf()
    }
}

impl UsersFlow {
    /// `r` is the next state. What a state does not wait for leaves it as it
    /// is.
    pub open spec fn leads_to(self, guild_id: Seq<char>, reply: UsersReply, r: UsersFlow) -> bool {
        match (self, reply) {
            (UsersFlow::FindPermission, UsersReply::Permission(Ok(stored))) => {
                let wanted = permission_of(opt_view(stored));
                if wanted == "disabled"@ {
                    r matches UsersFlow::Failed(e) && e@ == ErrorModel::Forbidden(
                        "The user list is disabled for this server."@,
                    )
                } else {
                    r matches UsersFlow::CheckCaller { permission } && permission@ == wanted
                }
            },
            (UsersFlow::CheckCaller { permission }, UsersReply::Caller(Ok(standing))) =>
                match view_refusal(permission@, standing.is_member, standing.is_manager) {
                    Some(reason) => r matches UsersFlow::Failed(e) && e@ == ErrorModel::Forbidden(
                        reason,
                    ),
                    None => r is FetchMembers,
                },
            (UsersFlow::FetchMembers, UsersReply::Members(Ok((member_ids, guild_name)))) => r == (
            UsersFlow::FetchRows { member_ids, guild_name }),
            (UsersFlow::FetchRows { guild_name, .. }, UsersReply::Rows(Ok(rows))) =>
                r matches UsersFlow::Listed(doc) && doc@ == list_json(
                    guild_id,
                    opt_view(guild_name),
                    rows@,
                ),
            (UsersFlow::FindPermission, UsersReply::Permission(Err(e))) => r
                == UsersFlow::Failed(e),
            (UsersFlow::CheckCaller { .. }, UsersReply::Caller(Err(e))) => r
                == UsersFlow::Failed(e),
            (UsersFlow::FetchMembers, UsersReply::Members(Err(e))) => r == UsersFlow::Failed(e),
            (UsersFlow::FetchRows { .. }, UsersReply::Rows(Err(e))) => r == UsersFlow::Failed(e),
            _ => r == self,
        }
    }

    /// The next state.
    pub fn next(self, guild_id: &str, reply: UsersReply) -> (r: UsersFlow)
        requires
            reply.wf(),
        ensures
            self.leads_to(guild_id@, reply, r),
    {
        match (self, reply) {
            (UsersFlow::FindPermission, UsersReply::Permission(Ok(stored))) => {
                let permission = view_permission(stored);
                match require_enabled(permission.as_str()) {
                    Ok(_) => UsersFlow::CheckCaller { permission },
                    Err(e) => UsersFlow::Failed(e),
                }
            },
            (UsersFlow::CheckCaller { permission }, UsersReply::Caller(Ok(standing))) => {
                match require_viewer(
                    permission.as_str(),
                    standing.is_member,
                    standing.is_manager,
                ) {
                    Ok(_) => UsersFlow::FetchMembers,
                    Err(e) => UsersFlow::Failed(e),
                }
            },
            (UsersFlow::FetchMembers, UsersReply::Members(Ok((member_ids, guild_name)))) => {
                UsersFlow::FetchRows { member_ids, guild_name }
            },
            (UsersFlow::FetchRows { guild_name, .. }, UsersReply::Rows(Ok(rows))) => {
                UsersFlow::Listed(users_data(guild_id, &guild_name, &rows))
            },
            (UsersFlow::FindPermission, UsersReply::Permission(Err(e))) => UsersFlow::Failed(e),
            (UsersFlow::CheckCaller { .. }, UsersReply::Caller(Err(e))) => UsersFlow::Failed(e),
            (UsersFlow::FetchMembers, UsersReply::Members(Err(e))) => UsersFlow::Failed(e),
            (UsersFlow::FetchRows { .. }, UsersReply::Rows(Err(e))) => UsersFlow::Failed(e),
            (state, _) => state,
        }
    }

    /// The caller has been found to be one who may see the list.
    pub open spec fn is_beyond_the_checks(self) -> bool {
        self is FetchMembers || self is FetchRows || self is Listed
    }
}

/// The states are those of a course for the guild, from its beginning on.
pub open spec fn is_users_course(
    guild_id: Seq<char>,
    states: Seq<UsersFlow>,
    replies: Seq<UsersReply>,
) -> bool {
    &&& states.len() == replies.len() + 1
    &&& states[0] is FindPermission
    &&& forall|i: int|
        0 <= i < replies.len() ==> states[i].leads_to(guild_id, #[trigger] replies[i], states[i + 1])
}

/// The reply tells that this is the guild's permission.
pub open spec fn tells_permission(reply: UsersReply, permission: Seq<char>) -> bool {
    reply matches UsersReply::Permission(Ok(stored)) && permission_of(opt_view(stored))
        == permission
}

/// Two replies before this one tell the guild's permission and a caller whom it
/// lets see the list.
pub open spec fn was_let_in(replies: Seq<UsersReply>, before: int) -> bool {
    exists|j: int, k: int, permission: Seq<char>|
        0 <= j < k < before && #[trigger] tells_permission(replies[j], permission) && lets_in(
            #[trigger] replies[k],
            permission,
        )
}

/// The reply tells of a caller whom the permission lets see the list.
pub open spec fn lets_in(reply: UsersReply, permission: Seq<char>) -> bool {
    reply matches UsersReply::Caller(Ok(standing)) && view_refusal(
        permission,
        standing.is_member,
        standing.is_manager,
    ) is None
}

/// In every course, members are asked for, rows read and the list answered only
/// after the guild's permission and the caller's standing have let the caller
/// see the list.
pub proof fn law_list_needs_the_permission(
    guild_id: Seq<char>,
    states: Seq<UsersFlow>,
    replies: Seq<UsersReply>,
    i: int,
)
    requires
        is_users_course(guild_id, states, replies),
        0 <= i < states.len(),
    ensures
        states[i].is_beyond_the_checks() ==> was_let_in(replies, i),
        states[i] matches UsersFlow::CheckCaller { permission } ==> exists|j: int|
            0 <= j < i && #[trigger] tells_permission(replies[j], permission@),
    decreases i,
{
    if i > 0 {
        law_list_needs_the_permission(guild_id, states, replies, i - 1);
        let before = states[i - 1];
        let reply = replies[i - 1];
        assert(before.leads_to(guild_id, reply, states[i]));
        if before.is_beyond_the_checks() {
            let (j, k, permission) = choose|j: int, k: int, permission: Seq<char>|
                0 <= j < k < i - 1 && #[trigger] tells_permission(replies[j], permission)
                    && lets_in(#[trigger] replies[k], permission);
            assert(0 <= j < k < i && tells_permission(replies[j], permission) && lets_in(
                replies[k],
                permission,
            ));
        } else if before is CheckCaller {
            let permission = before->CheckCaller_permission@;
            let j = choose|j: int|
                0 <= j < i - 1 && #[trigger] tells_permission(replies[j], permission);
            assert(tells_permission(replies[j], permission));
            if states[i].is_beyond_the_checks() {
                assert(0 <= j < i - 1 && lets_in(replies[i - 1], permission));
            }
        } else if before is FindPermission {
            if let UsersFlow::CheckCaller { permission } = states[i] {
                assert(tells_permission(replies[i - 1], permission@));
            }
        }
    }
}

/// A caller whom the permission does not let see the list is told why and gets
/// no list, whatever comes after.
pub proof fn law_refused_callers_get_no_list(
    guild_id: Seq<char>,
    permission: String,
    standing: Standing,
    r: UsersFlow,
    reply: UsersReply,
    after: UsersFlow,
)
    requires
        view_refusal(permission@, standing.is_member, standing.is_manager) is Some,
        (UsersFlow::CheckCaller { permission }).leads_to(
            guild_id,
            UsersReply::Caller(Ok(standing)),
            r,
        ),
        r.leads_to(guild_id, reply, after),
    ensures
        r matches UsersFlow::Failed(e) && e@ == ErrorModel::Forbidden(
            view_refusal(permission@, standing.is_member, standing.is_manager)->0,
        ),
        after == r,
{
}

/// Listing in order: for a caller who may see the list, the members are asked
/// for, the rows of just these members are read, and the list of these rows is
/// answered for this guild.
pub proof fn law_smooth_listing(
    guild_id: Seq<char>,
    stored: Option<String>,
    standing: Standing,
    member_ids: Vec<String>,
    guild_name: Option<String>,
    rows: Vec<UserRow>,
    states: Seq<UsersFlow>,
)
    requires
        ({
            let permission = match stored {
                Some(p) => p@,
                None => "managers"@,
            };
            &&& permission != "disabled"@
            &&& standing.is_member
            &&& permission == "managers"@ ==> standing.is_manager
        }),
        states.len() == 5,
        states[0] is FindPermission,
        states[0].leads_to(guild_id, UsersReply::Permission(Ok(stored)), states[1]),
        states[1].leads_to(guild_id, UsersReply::Caller(Ok(standing)), states[2]),
        states[2].leads_to(guild_id, UsersReply::Members(Ok((member_ids, guild_name))), states[3]),
        states[3].leads_to(guild_id, UsersReply::Rows(Ok(rows)), states[4]),
    ensures
        states[2] is FetchMembers,
        states[3] == (UsersFlow::FetchRows { member_ids, guild_name }),
        states[4] matches UsersFlow::Listed(doc) && doc@ == list_json(
            guild_id,
            opt_view(guild_name),
            rows@,
        ),
{
}

/// Every failure on the way is passed on.
pub proof fn law_listing_fails_with_the_cause(
    guild_id: Seq<char>,
    permission: String,
    member_ids: Vec<String>,
    guild_name: Option<String>,
    e: AppError,
    r: UsersFlow,
)
    requires
        UsersFlow::FindPermission.leads_to(guild_id, UsersReply::Permission(Err(e)), r) || (
        UsersFlow::CheckCaller { permission }).leads_to(guild_id, UsersReply::Caller(Err(e)), r)
            || UsersFlow::FetchMembers.leads_to(guild_id, UsersReply::Members(Err(e)), r) || (
        UsersFlow::FetchRows { member_ids, guild_name }).leads_to(
            guild_id,
            UsersReply::Rows(Err(e)),
            r,
        ),
    ensures
        r == UsersFlow::Failed(e),
{
}

// ---------------------------------------------------------------------
// Setting the permission
// ---------------------------------------------------------------------

#[derive(Debug)]
pub struct ViewPermBody {
    pub view_permission: String,
}

/// There is such a permission.
pub open spec fn is_permission(p: Seq<char>) -> bool {
    p == "disabled"@ || p == "managers"@ || p == "members"@
}

/// What a request is answered that has set a permission.
pub open spec fn permission_json(permission: Seq<char>) -> JsonModel {
    json_object().with("success"@, JsonModel::Bool(true)).with(
        "view_permission"@,
        JsonModel::Text(permission),
    )
}

/// The three permissions can be set, and nothing else; the answer says what was
/// set. Set to "disabled" the list is seen by nobody, set to "managers" by
/// managers among the members, set to "members" by every member.
pub proof fn law_permissions_that_can_be_set(p: Seq<char>, is_member: bool, is_manager: bool)
    ensures
        is_permission(p) <==> p == "disabled"@ || p == "managers"@ || p == "members"@,
        permission_json(p).get("success"@) == Some(JsonModel::Bool(true)),
        permission_json(p).get("view_permission"@) == Some(JsonModel::Text(p)),
        view_refusal("disabled"@, is_member, is_manager) is Some,
        view_refusal("managers"@, is_member, is_manager) is None == (is_member && is_manager),
        view_refusal("members"@, is_member, is_manager) is None == is_member,
{
    reveal_strlit("disabled");
    reveal_strlit("managers");
    reveal_strlit("members");
    assert("disabled"@.len() == 8 && "managers"@.len() == 8 && "members"@.len() == 7);
    assert("disabled"@[0] != "managers"@[0]);
    reveal_strlit("success");
    reveal_strlit("view_permission");
    assert("success"@.len() == 7 && "view_permission"@.len() == 15);
    let d0 = json_object();
    let v1 = JsonModel::Bool(true);
    let d1 = d0.with("success"@, v1);
    lemma_with(d0, "success"@, v1);
    let v2 = JsonModel::Text(p);
    let d2 = d1.with("view_permission"@, v2);
    lemma_with(d1, "view_permission"@, v2);
    assert(permission_json(p) == d2);
}

/// The permission to be stored, with the answer to the request.
pub fn set_view_permission(body: ViewPermBody) -> (r: Result<(String, JsonValue), AppError>)
    ensures
        match r {
            Ok((permission, reply)) => {
                &&& is_permission(body.view_permission@)
                &&& permission == body.view_permission
                &&& reply@ == permission_json(body.view_permission@)
            },
            Err(e) => !is_permission(body.view_permission@) && e@ == ErrorModel::BadRequest(
                "Unknown view_permission '"@ + body.view_permission@
                    + "' (expected disabled|managers|members)."@,
            ),
        },
{
    let permission = body.view_permission;
    if str_eq(permission.as_str(), "disabled") || str_eq(permission.as_str(), "managers") || str_eq(
        permission.as_str(),
        "members",
    ) {
        let reply = JsonValue::object().with("success", JsonValue::Bool(true)).with(
            "view_permission",
            JsonValue::text(permission.as_str()),
        );
        Ok((permission, reply))
    } else {
        let mut message = "Unknown view_permission '".to_owned();
        message.append(permission.as_str());
        message.append("' (expected disabled|managers|members).");
        Err(AppError::BadRequest(message))
    }
}

} // verus!
