//! The pages on which members link their Twitch account.
use vstd::prelude::*;
use vstd::utf8::encode_utf8;

use crate::config::AppConfig;
use crate::error::{AppError, ErrorModel};
use crate::json::{
    json_object, lemma_member_of_push, lemma_with, opt_view, optional_text, JsonModel, JsonValue,
};
use crate::models::condition::opt_model;
use crate::outside::{now, percent_encode, percent_encoded};
use crate::routes::broadcaster::OauthStart;
use crate::routes::oauth::{
    after_steps, authorize_address, authorize_url, law_states_work_once, never_issued,
    new_state_token, taken, usable, IssuedState, StateStep,
};
use crate::routes::verify_page::{
    AFTER_CHANNELS, AFTER_FAVICON, AFTER_GUILD_LINK, AFTER_LOGIN_LINK, AFTER_LOGOUT,
    AFTER_REFRESH, AFTER_STATUS, AFTER_TWITCH_LINK, AFTER_UNLINK, PAGE_TOP,
};
use crate::services::condition_eval::CacheData;
use crate::services::sync::UserSyncEvent;
use crate::services::twitch::{FollowerInfo, SubInfo, TwitchUser};
use crate::tasks::refresh_worker::{checked_facts, facts_from, FAST_RETRY_SECS};
use crate::tasks::user_sync_worker::{job_of, UserSyncJob};
use crate::text::{all_digits, chars_of, is_digit, str_eq};
use crate::time::Timestamp;

verus! {

/// The cookie that carries the shared Discord session.
pub const SESSION_COOKIE: &'static str = "rl_session";

/// How far ahead to schedule the next background refresh after the inline check
/// done at link time, when the user already qualifies (follows/subs). Matches
/// the worker's 30-min floor so we don't immediately re-spend API budget.
pub const INITIAL_RECHECK_SECS: i64 = 1800;

/// Per-user floor between member-triggered re-checks, in seconds. The refresh
/// worker already rate-limits Twitch API calls; this just stops a page reload
/// loop from re-forcing a check the worker only just completed.
pub const REFRESH_COOLDOWN_SECS: u32 = 60;

#[derive(Debug)]
pub struct CallbackQuery {
    pub code: String,
    pub state: String,
}

#[derive(Debug)]
pub struct VerifyChannelsQuery {
    pub guild: Option<String>,
}

#[derive(Debug)]
pub struct TwitchLoginQuery {
    pub guild: Option<String>,
}

/// The Discord id and the display name of the session, which must be valid.
pub fn get_session(verified: Option<(String, String)>) -> (r: Result<(String, String), AppError>)
    ensures
        match (r, verified) {
            (Ok(session), Some(v)) => session == v,
            (Err(e), None) => e@ is Unauthorized,
            _ => false,
        },
{
    match verified {
        Some(session) => Ok(session),
        None => Err(AppError::Unauthorized),
    }
}

/// The verification page of the plugin at that base URL.
pub fn render_verify_page(base_url: &str) -> (r: String)
    ensures
        r@ == PAGE_TOP@ + base_url@ + AFTER_FAVICON@ + base_url@ + AFTER_LOGIN_LINK@ + base_url@
            + AFTER_TWITCH_LINK@ + base_url@ + AFTER_GUILD_LINK@ + base_url@ + AFTER_CHANNELS@
            + base_url@ + AFTER_STATUS@ + base_url@ + AFTER_REFRESH@ + base_url@ + AFTER_UNLINK@
            + base_url@ + AFTER_LOGOUT@,
{
    let mut page = PAGE_TOP.to_owned();
    page.append(base_url);
    page.append(AFTER_FAVICON);
    page.append(base_url);
    page.append(AFTER_LOGIN_LINK);
    page.append(base_url);
    page.append(AFTER_TWITCH_LINK);
    page.append(base_url);
    page.append(AFTER_GUILD_LINK);
    page.append(base_url);
    page.append(AFTER_CHANNELS);
    page.append(base_url);
    page.append(AFTER_STATUS);
    page.append(base_url);
    page.append(AFTER_REFRESH);
    page.append(base_url);
    page.append(AFTER_UNLINK);
    page.append(base_url);
    page.append(AFTER_LOGOUT);
    page
}

/// Where a member is sent to sign in with Discord.
pub fn login() -> (r: String)
    ensures
        r@ == "/auth/login?return_to="@ + percent_encoded(
            encode_utf8("/twitch-follower-role/verify"@),
        ),
{
    let mut url = "/auth/login?return_to=".to_owned();
    url.append(percent_encode("/twitch-follower-role/verify").as_str());
    url
}

/// What the page is told of a member: nothing without a session.
pub open spec fn status_json(
    session: Option<(String, String)>,
    twitch_login: Option<String>,
) -> JsonModel {
    match session {
        Some((discord_id, display_name)) => json_object().with(
            "discord_id"@,
            JsonModel::Text(discord_id@),
        ).with("discord_name"@, JsonModel::Text(display_name@)).with(
            "twitch_login"@,
            optional_text(opt_view(twitch_login)),
        ),
        None => json_object().with("discord_id"@, JsonModel::Null).with(
            "discord_name"@,
            JsonModel::Null,
        ).with("twitch_login"@, JsonModel::Null),
    }
}

/// What the page is told of a member.
pub fn status(session: &Option<(String, String)>, twitch_login: &Option<String>) -> (r: JsonValue)
    ensures
        r@ == status_json(*session, *twitch_login),
{
    match session {
        Some((discord_id, display_name)) => JsonValue::object().with(
            "discord_id",
            JsonValue::text(discord_id.as_str()),
        ).with("discord_name", JsonValue::text(display_name.as_str())).with(
            "twitch_login",
            JsonValue::opt_text(twitch_login),
        ),
        None => JsonValue::object().with("discord_id", JsonValue::Null).with(
            "discord_name",
            JsonValue::Null,
        ).with("twitch_login", JsonValue::Null),
    }
}

// ---------------------------------------------------------------------
// The guild that a page was opened for
// ---------------------------------------------------------------------

/// A Discord snowflake: 5 to 25 decimal digits.
pub open spec fn is_snowflake(s: Seq<char>) -> bool {
    5 <= s.len() <= 25 && all_digits(s)
}

/// The guild that a query names, where it names one.
pub open spec fn guild_named(guild: Option<Seq<char>>) -> Option<Seq<char>> {
    match guild {
        Some(g) => if is_snowflake(g) {
            Some(g)
        } else {
            None
        },
        None => None,
    }
}

fn snowflake(s: &str) -> (r: bool)
    ensures
        r == is_snowflake(s@),
{
    let chars = chars_of(s);
    if chars.len() < 5 || chars.len() > 25 {
        return false;
    }
    let mut i: usize = 0;
    while i < chars.len()
        invariant
            i <= chars@.len(),
            chars@ == s@,
            forall|j: int| 0 <= j < i ==> is_digit(#[trigger] s@[j]),
        decreases chars@.len() - i,
    {
        let c = chars[i];
        if !(c >= '0' && c <= '9') {
            assert(!is_digit(s@[i as int]));
            return false;
        }
        i = i + 1;
    }
    true
}

/// The guild that a query names, where it names one.
pub fn guild_in(guild: Option<String>) -> (r: Option<String>)
    ensures
        opt_view(r) == guild_named(opt_view(guild)),
{
    match guild {
        Some(g) => if snowflake(g.as_str()) {
            Some(g)
        } else {
            None
        },
        None => None,
    }
}

/// The guild whose channels are asked for. An invalid or missing one has none,
/// so nothing needs to be looked up for it.
pub fn verify_channels(query: VerifyChannelsQuery) -> (r: Option<String>)
    ensures
        opt_view(r) == guild_named(opt_view(query.guild)),
{
    guild_in(query.guild)
}

/// The channels of a guild, by their logins.
pub open spec fn channels_json(logins: Seq<String>) -> JsonModel {
    json_object().with(
        "channels"@,
        JsonModel::Array(
            logins.map_values(
                |login: String| json_object().with("login"@, JsonModel::Text(login@)),
            ),
        ),
    )
}

/// The channels of a guild, by their logins.
pub fn channels_reply(logins: &Vec<String>) -> (r: JsonValue)
    ensures
        r@ == channels_json(logins@),
{
    let ghost all = logins@.map_values(
        |login: String| json_object().with("login"@, JsonModel::Text(login@)),
    );
    let mut channels = JsonValue::array();
    let mut i: usize = 0;
    assert(channels@->Array_0 =~= all.take(0));
    while i < logins.len()
        invariant
            i <= logins@.len(),
            all == logins@.map_values(
                |login: String| json_object().with("login"@, JsonModel::Text(login@)),
            ),
            channels@ == JsonModel::Array(all.take(i as int)),
        decreases logins@.len() - i,
    {
        channels = channels.item(
            JsonValue::object().with("login", JsonValue::text(logins[i].as_str())),
        );
        assert(all.take(i as int).push(all[i as int]) =~= all.take(i + 1));
        i = i + 1;
    }
    assert(all.take(i as int) =~= all);
    JsonValue::object().with("channels", channels)
}

// ---------------------------------------------------------------------
// Linking an account
// ---------------------------------------------------------------------

/// What is remembered of a member who was sent to Twitch.
pub open spec fn member_data(discord_id: Seq<char>, guild_id: Option<Seq<char>>) -> JsonModel {
    json_object().with("type"@, JsonModel::Text("twitch_user"@)).with(
        "discord_id"@,
        JsonModel::Text(discord_id),
    ).with("guild_id"@, optional_text(guild_id))
}

impl OauthStart {
    /// The start of a member's flow, with the guild whose page they come from.
    pub open spec fn for_member(
        self,
        config: AppConfig,
        discord_id: Seq<char>,
        guild_id: Option<Seq<char>>,
    ) -> bool {
        &&& self.redirect_data@ == member_data(discord_id, guild_id)
        &&& self.url@ == authorize_address(
            config.twitch_client_id@,
            config.base_url@ + "/verify/twitch/callback"@,
            Seq::empty(),
            self.state@,
        )
    }
}

/// Start a member's flow, under a given state.
pub fn start_member(
    config: &AppConfig,
    discord_id: &str,
    guild_id: &Option<String>,
    state: String,
) -> (r: OauthStart)
    ensures
        r.for_member(*config, discord_id@, opt_view(*guild_id)),
        r.state == state,
{
    proof {
        reveal_strlit("");
        assert(""@ =~= Seq::<char>::empty());
    }
    let redirect_data = JsonValue::object().with("type", JsonValue::text("twitch_user")).with(
        "discord_id",
        JsonValue::text(discord_id),
    ).with("guild_id", JsonValue::opt_text(guild_id));
    let redirect_uri = config.twitch_user_oauth_redirect_uri();
    let url = authorize_url(
        config.twitch_client_id.as_str(),
        redirect_uri.as_str(),
        "",
        state.as_str(),
    );
    OauthStart { state, redirect_data, url }
}

/// Send a member to Twitch. The guild is carried through the round trip, so
/// that the member lands back on the guild's page.
pub fn twitch_login(config: &AppConfig, discord_id: &str, query: TwitchLoginQuery) -> (r:
    OauthStart)
    ensures
        r.has_token(),
        r.for_member(*config, discord_id@, guild_named(opt_view(query.guild))),
{
    let guild_id = guild_in(query.guild);
    start_member(config, discord_id, &guild_id, new_state_token())
}

/// The account that is to be linked.
#[derive(Debug)]
pub struct LinkRequest {
    pub discord_id: String,
    pub guild_id: Option<String>,
    /// The member's Discord name, where it is known.
    pub discord_name: Option<String>,
}

/// Who a member is who comes back from Twitch, and from which guild's page
/// they came.
pub open spec fn member_for(data: Option<JsonModel>) -> Result<
    (Seq<char>, Option<Seq<char>>),
    ErrorModel,
> {
    match data {
        None => Err(ErrorModel::BadRequest("Invalid or expired OAuth state"@)),
        Some(doc) => match doc.text_at("discord_id"@) {
            None => Err(ErrorModel::Internal("Missing discord_id in state"@)),
            Some(discord_id) => Ok((discord_id, doc.text_at("guild_id"@))),
        },
    }
}

/// The display name of the session, if it is this user's session.
pub open spec fn own_name(session: Option<(String, String)>, discord_id: Seq<char>) -> Option<
    Seq<char>,
> {
    match session {
        Some((id, name)) => if id@ == discord_id {
            Some(name@)
        } else {
            None
        },
        None => None,
    }
}

/// The account that a member comes back to link, by what was stored under the
/// state they bring. Their name is taken from the session only where that is
/// theirs.
pub fn link_request(data: &Option<JsonValue>, session: Option<(String, String)>) -> (r: Result<
    LinkRequest,
    AppError,
>)
    ensures
        match r {
            Ok(link) => member_for(opt_model(*data)) == Ok::<
                (Seq<char>, Option<Seq<char>>),
                ErrorModel,
            >((link.discord_id@, opt_view(link.guild_id))) && opt_view(link.discord_name)
                == own_name(session, link.discord_id@),
            Err(e) => member_for(opt_model(*data)) == Err::<
                (Seq<char>, Option<Seq<char>>),
                ErrorModel,
            >(e@),
        },
{
    let data = match data {
        Some(d) => d,
        None => {
            return Err(AppError::BadRequest("Invalid or expired OAuth state".to_owned()));
        },
    };
    let discord_id = match data.text_at("discord_id") {
        Some(t) => t,
        None => {
            return Err(AppError::Internal("Missing discord_id in state".to_owned()));
        },
    };
    let guild_id = data.text_at("guild_id");
    let discord_name = match session {
        Some((id, name)) => if str_eq(id.as_str(), discord_id.as_str()) {
            Some(name)
        } else {
            None
        },
        None => None,
    };
    Ok(LinkRequest { discord_id, guild_id, discord_name })
}

/// A member who comes back is the one who left, on the page they left.
pub proof fn law_member_survives_the_round_trip(
    discord_id: Seq<char>,
    guild_id: Option<Seq<char>>,
)
    ensures
        member_for(Some(member_data(discord_id, guild_id))) == Ok::<
            (Seq<char>, Option<Seq<char>>),
            ErrorModel,
        >((discord_id, guild_id)),
{
    reveal_strlit("type");
    reveal_strlit("discord_id");
    reveal_strlit("guild_id");
    assert("type"@.len() == 4 && "discord_id"@.len() == 10 && "guild_id"@.len() == 8);
    let m0 = Seq::<(Seq<char>, JsonModel)>::empty();
    let m1 = m0.push(("type"@, JsonModel::Text("twitch_user"@)));
    let m2 = m1.push(("discord_id"@, JsonModel::Text(discord_id)));
    lemma_member_of_push(m1, "discord_id"@, JsonModel::Text(discord_id), "discord_id"@);
    lemma_member_of_push(m2, "guild_id"@, optional_text(guild_id), "discord_id"@);
    lemma_member_of_push(m2, "guild_id"@, optional_text(guild_id), "guild_id"@);
}

/// A channel that the member may follow, with a token to ask about it.
#[derive(Debug)]
pub struct ChannelToken {
    pub broadcaster_id: String,
    pub access_token: String,
}

/// The course of linking an account. Each state names the work that is to be
/// done in it.
pub enum LinkFlow {
    /// Exchange the code for a token.
    ExchangeCode { link: LinkRequest },
    /// Ask whom the token belongs to.
    FetchUser { link: LinkRequest, access_token: String },
    /// Look up the Discord user that the Twitch account is linked to.
    FindOwner { link: LinkRequest, user: TwitchUser },
    /// The account is linked already: note its login, and the name if known.
    RefreshLink { link: LinkRequest, user: TwitchUser },
    /// Link the account in place of any other one the member has linked.
    ReplaceLink { link: LinkRequest, user: TwitchUser },
    /// Make cache rows for all channels in the member's guilds.
    PopulateCache { link: LinkRequest, user: TwitchUser },
    /// Read those channels, with a token for each.
    FindChannels { link: LinkRequest, user: TwitchUser },
    /// Check the follow and the subscription to the channel with this number,
    /// each after waiting for the rate limiter.
    CheckChannel {
        link: LinkRequest,
        user: TwitchUser,
        channels: Vec<ChannelToken>,
        index: usize,
        known: bool,
    },
    /// Write the facts and the time of the next check into the cache.
    StoreFacts {
        link: LinkRequest,
        user: TwitchUser,
        channels: Vec<ChannelToken>,
        index: usize,
        known: bool,
        facts: CacheData,
    },
    /// Sync the member's roles at once, so that they are there when the page
    /// reloads.
    SyncNow { link: LinkRequest },
    /// Leave the sync of the member's roles to the worker.
    QueueSync { link: LinkRequest },
    /// Send the member back to the verification page.
    Linked { guild_id: Option<String> },
    Failed(AppError),
}

/// What came of the work of a [`LinkFlow`].
pub enum LinkReply {
    Tokens(Result<(String, Option<String>), AppError>),
    User(Result<TwitchUser, AppError>),
    Owner(Result<Option<String>, AppError>),
    Channels(Vec<ChannelToken>),
    Checked {
        follower: Result<Option<FollowerInfo>, AppError>,
        sub: Result<Option<SubInfo>, AppError>,
    },
    /// Whether the cache took the facts.
    Stored(bool),
    /// Whether the roles were synced.
    Synced(bool),
    Done(Result<(), AppError>),
}

/// Go on with the channel after this one; after the last one, sync at once if
/// the status at some channel is known.
pub open spec fn after_channel(
    link: LinkRequest,
    user: TwitchUser,
    channels: Vec<ChannelToken>,
    index: usize,
    known: bool,
) -> LinkFlow {
    if index + 1 < channels@.len() {
        LinkFlow::CheckChannel { link, user, channels, index: (index + 1) as usize, known }
    } else if known {
        LinkFlow::SyncNow { link }
    } else {
        LinkFlow::QueueSync { link }
    }
}

fn next_channel(
    link: LinkRequest,
    user: TwitchUser,
    channels: Vec<ChannelToken>,
    index: usize,
    known: bool,
) -> (r: LinkFlow)
    ensures
        r == after_channel(link, user, channels, index, known),
{
    if index < channels.len() && index + 1 < channels.len() {
        LinkFlow::CheckChannel { link, user, channels, index: index + 1, known }
    } else if known {
        LinkFlow::SyncNow { link }
    } else {
        LinkFlow::QueueSync { link }
    }
}

impl LinkFlow {
    /// `self` is where the linking begins for a member who comes back, by what
    /// was stored under the state they bring.
    pub open spec fn starts(
        self,
        data: Option<JsonModel>,
        session: Option<(String, String)>,
    ) -> bool {
        match member_for(data) {
            Ok((discord_id, guild_id)) => self matches LinkFlow::ExchangeCode { link }
                && link.discord_id@ == discord_id && opt_view(link.guild_id) == guild_id
                && opt_view(link.discord_name) == own_name(session, discord_id),
            Err(error) => self matches LinkFlow::Failed(e) && e@ == error,
        }
    }

    /// Begin to link the account of a member who comes back.
    pub fn start(data: &Option<JsonValue>, session: Option<(String, String)>) -> (r: LinkFlow)
        ensures
            r.starts(opt_model(*data), session),
    {
        match link_request(data, session) {
            Ok(link) => LinkFlow::ExchangeCode { link },
            Err(e) => LinkFlow::Failed(e),
        }
    }

    /// `r` is the next state. What a state does not wait for leaves it as it
    /// is.
    pub open spec fn leads_to(self, reply: LinkReply, r: LinkFlow) -> bool {
        match (self, reply) {
            (LinkFlow::ExchangeCode { link }, LinkReply::Tokens(tokens)) => r == match tokens {
                Ok((access_token, _)) => LinkFlow::FetchUser { link, access_token },
                Err(e) => LinkFlow::Failed(e),
            },
            (LinkFlow::FetchUser { link, .. }, LinkReply::User(user)) => r == match user {
                Ok(user) => LinkFlow::FindOwner { link, user },
                Err(e) => LinkFlow::Failed(e),
            },
            (LinkFlow::FindOwner { link, user }, LinkReply::Owner(owner)) => match owner {
                Ok(Some(discord_id)) => if discord_id@ == link.discord_id@ {
                    r == (LinkFlow::RefreshLink { link, user })
                } else {
                    r matches LinkFlow::Failed(e) && e@ == ErrorModel::BadRequest(
                        "This Twitch account is already linked to another Discord user"@,
                    )
                },
                Ok(None) => r == (LinkFlow::ReplaceLink { link, user }),
                Err(e) => r == LinkFlow::Failed(e),
            },
            (LinkFlow::RefreshLink { link, user }, LinkReply::Done(done)) => r == match done {
                Ok(_) => LinkFlow::PopulateCache { link, user },
                Err(e) => LinkFlow::Failed(e),
            },
            (LinkFlow::ReplaceLink { link, user }, LinkReply::Done(done)) => r == match done {
                Ok(_) => LinkFlow::PopulateCache { link, user },
                Err(e) => LinkFlow::Failed(e),
            },
            (LinkFlow::PopulateCache { link, user }, LinkReply::Done(done)) => r == match done {
                Ok(_) => LinkFlow::FindChannels { link, user },
                Err(e) => LinkFlow::Failed(e),
            },
            (LinkFlow::FindChannels { link, user }, LinkReply::Channels(channels)) => r
                == if channels@.len() == 0 {
                LinkFlow::QueueSync { link }
            } else {
                LinkFlow::CheckChannel { link, user, channels, index: 0, known: false }
            },
            (
                LinkFlow::CheckChannel { link, user, channels, index, known },
                LinkReply::Checked { follower, sub },
            ) => r == match (follower, sub) {
                (Ok(f), Ok(s)) => LinkFlow::StoreFacts {
                    link,
                    user,
                    channels,
                    index,
                    known,
                    facts: checked_facts(f, s),
                },
                _ => after_channel(link, user, channels, index, known),
            },
            (
                LinkFlow::StoreFacts { link, user, channels, index, known, .. },
                LinkReply::Stored(stored),
            ) => r == after_channel(link, user, channels, index, known || stored),
            (LinkFlow::SyncNow { link }, LinkReply::Synced(synced)) => r == if synced {
                LinkFlow::Linked { guild_id: link.guild_id }
            } else {
                LinkFlow::QueueSync { link }
            },
            (LinkFlow::QueueSync { link }, LinkReply::Done(_)) => r == (LinkFlow::Linked {
                guild_id: link.guild_id,
            }),
            _ => r == self,
        }
    }

    /// The next state.
    pub fn next(self, reply: LinkReply) -> (r: LinkFlow)
        ensures
            self.leads_to(reply, r),
    {
        match (self, reply) {
            (LinkFlow::ExchangeCode { link }, LinkReply::Tokens(tokens)) => match tokens {
                Ok((access_token, _)) => LinkFlow::FetchUser { link, access_token },
                Err(e) => LinkFlow::Failed(e),
            },
            (LinkFlow::FetchUser { link, .. }, LinkReply::User(user)) => match user {
                Ok(user) => LinkFlow::FindOwner { link, user },
                Err(e) => LinkFlow::Failed(e),
            },
            (LinkFlow::FindOwner { link, user }, LinkReply::Owner(owner)) => match owner {
                Ok(Some(discord_id)) => {
                    if str_eq(discord_id.as_str(), link.discord_id.as_str()) {
                        LinkFlow::RefreshLink { link, user }
                    } else {
                        LinkFlow::Failed(
                            AppError::BadRequest(
                                "This Twitch account is already linked to another Discord user".to_owned(),
                            ),
                        )
                    }
                },
                Ok(None) => LinkFlow::ReplaceLink { link, user },
                Err(e) => LinkFlow::Failed(e),
            },
            (LinkFlow::RefreshLink { link, user }, LinkReply::Done(done)) => match done {
                Ok(_) => LinkFlow::PopulateCache { link, user },
                Err(e) => LinkFlow::Failed(e),
            },
            (LinkFlow::ReplaceLink { link, user }, LinkReply::Done(done)) => match done {
                Ok(_) => LinkFlow::PopulateCache { link, user },
                Err(e) => LinkFlow::Failed(e),
            },
            (LinkFlow::PopulateCache { link, user }, LinkReply::Done(done)) => match done {
                Ok(_) => LinkFlow::FindChannels { link, user },
                Err(e) => LinkFlow::Failed(e),
            },
            (LinkFlow::FindChannels { link, user }, LinkReply::Channels(channels)) => {
                if channels.len() == 0 {
                    LinkFlow::QueueSync { link }
                } else {
                    LinkFlow::CheckChannel { link, user, channels, index: 0, known: false }
                }
            },
            (
                LinkFlow::CheckChannel { link, user, channels, index, known },
                LinkReply::Checked { follower, sub },
            ) => match (follower, sub) {
                (Ok(f), Ok(s)) => LinkFlow::StoreFacts {
                    link,
                    user,
                    channels,
                    index,
                    known,
                    facts: facts_from(f, s),
                },
                _ => next_channel(link, user, channels, index, known),
            },
            (
                LinkFlow::StoreFacts { link, user, channels, index, known, .. },
                LinkReply::Stored(stored),
            ) => next_channel(link, user, channels, index, known || stored),
            (LinkFlow::SyncNow { link }, LinkReply::Synced(synced)) => {
                if synced {
                    LinkFlow::Linked { guild_id: link.guild_id }
                } else {
                    LinkFlow::QueueSync { link }
                }
            },
            (LinkFlow::QueueSync { link }, LinkReply::Done(_)) => {
                LinkFlow::Linked { guild_id: link.guild_id }
            },
            (state, _) => state,
        }
    }
}

/// A member who comes back with a state that is unknown, expired or used is
/// refused at once: no code is exchanged and nothing is written.
pub proof fn law_unusable_states_link_nothing(
    states: Map<Seq<char>, IssuedState>,
    token: Seq<char>,
    now: Timestamp,
    session: Option<(String, String)>,
    start: LinkFlow,
    reply: LinkReply,
    r: LinkFlow,
)
    requires
        !usable(states, token, now),
        start.starts(taken(states, token, now).1, session),
        start.leads_to(reply, r),
    ensures
        start matches LinkFlow::Failed(e) && e@ == ErrorModel::BadRequest(
            "Invalid or expired OAuth state"@,
        ),
        r == start,
{
}

/// A state links at most one account: whoever comes back with it a second time
/// is refused at once, whatever befell the stored states in between.
pub proof fn law_states_link_once(
    states: Map<Seq<char>, IssuedState>,
    token: Seq<char>,
    first: Timestamp,
    steps: Seq<StateStep>,
    second: Timestamp,
    session: Option<(String, String)>,
    start: LinkFlow,
    reply: LinkReply,
    r: LinkFlow,
)
    requires
        taken(states, token, first).1 is Some,
        never_issued(token, steps),
        start.starts(
            taken(after_steps(taken(states, token, first).0, steps), token, second).1,
            session,
        ),
        start.leads_to(reply, r),
    ensures
        start matches LinkFlow::Failed(e) && e@ == ErrorModel::BadRequest(
            "Invalid or expired OAuth state"@,
        ),
        r == start,
{
    law_states_work_once(states, token, first, steps, second);
}

/// An account that is linked to another Discord user stays with that user: a
/// link is only written where the account is free or the member's own.
pub proof fn law_linked_accounts_stay_with_their_owner(
    state: LinkFlow,
    reply: LinkReply,
    r: LinkFlow,
)
    requires
        state is FindOwner,
        state.leads_to(reply, r),
        r is RefreshLink || r is ReplaceLink,
    ensures
        reply matches LinkReply::Owner(Ok(owner)) && (owner matches Some(id) ==> id@
            == state->FindOwner_link.discord_id@),
{
}

/// Nobody is told that they are linked before their roles were synced or the
/// sync was left to the worker.
pub proof fn law_linking_leads_to_a_sync(state: LinkFlow, reply: LinkReply, r: LinkFlow)
    requires
        state.leads_to(reply, r),
        r is Linked,
    ensures
        state is Linked || state is QueueSync || (state is SyncNow && reply
            == LinkReply::Synced(true)),
{
}

/// Once the last channel was checked, roles are synced at once exactly when the
/// facts of some channel were written; else the sync is left to the worker.
pub proof fn law_sync_at_once_needs_known_facts(state: LinkFlow, reply: LinkReply, r: LinkFlow)
    requires
        state is CheckChannel || state is StoreFacts,
        state.leads_to(reply, r),
        !(r is CheckChannel || r is StoreFacts),
    ensures
        r is SyncNow || r is QueueSync,
        r is SyncNow == match state {
            LinkFlow::CheckChannel { known, .. } => known,
            LinkFlow::StoreFacts { known, .. } => known || reply == LinkReply::Stored(true),
            _ => false,
        },
{
}

/// The seconds until the worker checks a freshly linked member again.
pub open spec fn recheck_secs(facts: CacheData) -> int {
    if facts.is_following || facts.is_subscribed {
        INITIAL_RECHECK_SECS as int
    } else {
        FAST_RETRY_SECS as int
    }
}

/// When the worker checks a freshly linked member again, by the clock.
pub fn first_recheck(facts: &CacheData) -> (r: Timestamp)
    ensures
        exists|now: Timestamp| #[trigger]
            now.in_calendar() && now.is_plain() && r.secs == now.secs + recheck_secs(*facts)
                && r.nanos == now.nanos,
{
    let instant = now();
    first_recheck_at(facts, instant)
}

/// When the worker checks a member again who was linked at that instant.
pub fn first_recheck_at(facts: &CacheData, instant: Timestamp) -> (r: Timestamp)
    requires
        instant.in_calendar(),
    ensures
        r.secs == instant.secs + recheck_secs(*facts),
        r.nanos == instant.nanos,
{
    if facts.is_following || facts.is_subscribed {
        instant.plus_seconds(INITIAL_RECHECK_SECS)
    } else {
        instant.plus_seconds(FAST_RETRY_SECS)
    }
}

/// The page that a linked member is sent back to.
pub open spec fn page_after_linking(guild_id: Option<Seq<char>>) -> Seq<char> {
    match guild_id {
        Some(g) => "/twitch-follower-role/verify?guild="@ + g,
        None => "/twitch-follower-role/verify"@,
    }
}

/// A linked member is sent back to the page of the guild they came from, or to
/// the plain one.
pub proof fn law_page_after_linking(g: Seq<char>)
    ensures
        page_after_linking(Some(g)) == page_after_linking(None) + "?guild="@ + g,
        page_after_linking(None) == "/twitch-follower-role/verify"@,
        SESSION_COOKIE@ == "rl_session"@,
        REFRESH_COOLDOWN_SECS == 60,
{
    reveal_strlit("/twitch-follower-role/verify");
    reveal_strlit("?guild=");
    reveal_strlit("/twitch-follower-role/verify?guild=");
    assert("/twitch-follower-role/verify?guild="@ =~= "/twitch-follower-role/verify"@
        + "?guild="@);
}

/// The page that a linked member is sent back to.
pub fn linked_page(guild_id: &Option<String>) -> (r: String)
    ensures
        r@ == page_after_linking(opt_view(*guild_id)),
{
    match guild_id {
        Some(g) => {
            let mut page = "/twitch-follower-role/verify?guild=".to_owned();
            page.append(g.as_str());
            page
        },
        None => "/twitch-follower-role/verify".to_owned(),
    }
}

/// The event that has a member's roles synced after linking.
pub fn linked_event(discord_id: String) -> (r: UserSyncEvent)
    ensures
        r == (UserSyncEvent::AccountLinked { discord_id }),
{
    UserSyncEvent::AccountLinked { discord_id }
}

/// What follows unlinking: an event where an account was unlinked.
pub open spec fn unlinked_event(discord_id: String, rows_affected: u64) -> Option<UserSyncEvent> {
    if rows_affected > 0 {
        Some(UserSyncEvent::AccountUnlinked { discord_id })
    } else {
        None
    }
}

/// A member who had an account linked, and only such a member, has their roles
/// taken away when they unlink it.
pub proof fn law_unlinking(discord_id: String, rows: u64)
    ensures
        rows == 0 ==> unlinked_event(discord_id, rows) is None,
        rows > 0 ==> (unlinked_event(discord_id, rows) matches Some(event) && job_of(event) == (
        UserSyncJob::RemoveAll { discord_id })),
{
}

/// The event that has a member's roles taken away, where an account was
/// unlinked.
pub fn unlink(discord_id: String, rows_affected: u64) -> (r: Option<UserSyncEvent>)
    ensures
        r == unlinked_event(discord_id, rows_affected),
{
    if rows_affected > 0 {
        Some(UserSyncEvent::AccountUnlinked { discord_id })
    } else {
        None
    }
}

/// Whether a member-triggered re-check brought any check forward.
pub fn refresh(rows_affected: u64) -> (r: JsonValue)
    ensures
        r@ == json_object().with("refreshed"@, JsonModel::Bool(rows_affected > 0)),
{
    JsonValue::object().with("refreshed", JsonValue::Bool(rows_affected > 0))
}

/// The page is told the member's own id and name and the login of the account
/// they have linked, null where they have none; without a session it is told
/// nothing of anyone.
pub proof fn law_status_is_the_members_own(
    session: Option<(String, String)>,
    twitch_login: Option<String>,
)
    ensures
        ({
            let doc = status_json(session, twitch_login);
            match session {
                Some((id, name)) => {
                    &&& doc.get("discord_id"@) == Some(JsonModel::Text(id@))
                    &&& doc.get("discord_name"@) == Some(JsonModel::Text(name@))
                    &&& doc.get("twitch_login"@) == Some(
                        match twitch_login {
                            Some(login) => JsonModel::Text(login@),
                            None => JsonModel::Null,
                        },
                    )
                },
                None => {
                    &&& doc.get("discord_id"@) == Some(JsonModel::Null)
                    &&& doc.get("discord_name"@) == Some(JsonModel::Null)
                    &&& doc.get("twitch_login"@) == Some(JsonModel::Null)
                },
            }
        }),
{
    if let Some((id, name)) = session {
        reveal_strlit("discord_id");
        reveal_strlit("discord_name");
        reveal_strlit("twitch_login");
        assert("discord_id"@.len() == 10 && "discord_name"@.len() == 12
            && "twitch_login"@.len() == 12);
        assert("discord_name"@[0] != "twitch_login"@[0]);
        let d0 = json_object();
        let v1 = JsonModel::Text(id@);
        let d1 = d0.with("discord_id"@, v1);
        lemma_with(d0, "discord_id"@, v1);
        let v2 = JsonModel::Text(name@);
        let d2 = d1.with("discord_name"@, v2);
        lemma_with(d1, "discord_name"@, v2);
        let v3 = optional_text(opt_view(twitch_login));
        let d3 = d2.with("twitch_login"@, v3);
        lemma_with(d2, "twitch_login"@, v3);
        assert(status_json(session, twitch_login) == d3);
    } else {
        reveal_strlit("discord_id");
        reveal_strlit("discord_name");
        reveal_strlit("twitch_login");
        assert("discord_id"@.len() == 10 && "discord_name"@.len() == 12
            && "twitch_login"@.len() == 12);
        assert("discord_name"@[0] != "twitch_login"@[0]);
        let d0 = json_object();
        let v1 = JsonModel::Null;
        let d1 = d0.with("discord_id"@, v1);
        lemma_with(d0, "discord_id"@, v1);
        let v2 = JsonModel::Null;
        let d2 = d1.with("discord_name"@, v2);
        lemma_with(d1, "discord_name"@, v2);
        let v3 = JsonModel::Null;
        let d3 = d2.with("twitch_login"@, v3);
        lemma_with(d2, "twitch_login"@, v3);
        assert(status_json(session, twitch_login) == d3);
    }
}

/// A query names a guild exactly when its value has 5 to 25 characters, all of
/// them decimal digits, and then it names just that one.
pub proof fn law_which_guilds_are_named(g: Seq<char>, i: int)
    ensures
        g.len() < 5 || g.len() > 25 ==> guild_named(Some(g)) is None,
        0 <= i < g.len() && !('0' <= g[i] && g[i] <= '9') ==> guild_named(Some(g)) is None,
        guild_named(Some(g)) is None ==> g.len() < 5 || g.len() > 25 || exists|k: int|
            0 <= k < g.len() && !('0' <= #[trigger] g[k] && g[k] <= '9'),
        guild_named(Some(g)) matches Some(named) ==> named == g,
        guild_named(None) is None,
{
    if 5 <= g.len() <= 25 && guild_named(Some(g)) is None {
        let k = choose|k: int| 0 <= k < g.len() && !is_digit(#[trigger] g[k]);
        assert(!('0' <= g[k] && g[k] <= '9'));
    }
}

/// The channels are answered one by one, in order, each by its login.
pub proof fn law_channels_are_listed(logins: Seq<String>, i: int)
    requires
        0 <= i < logins.len(),
    ensures
        channels_json(logins).get("channels"@) matches Some(JsonModel::Array(channels))
            && channels.len() == logins.len() && channels[i].get("login"@) == Some(
            JsonModel::Text(logins[i]@),
        ),
{
    let channels = JsonModel::Array(
        logins.map_values(|login: String| json_object().with("login"@, JsonModel::Text(login@))),
    );
    lemma_with(json_object(), "channels"@, channels);
    lemma_with(json_object(), "login"@, JsonModel::Text(logins[i]@));
    assert(channels_json(logins) == json_object().with("channels"@, channels));
}

/// A name is taken from a session only where the session is the member's own.
pub proof fn law_names_are_the_members_own(id: String, name: String, discord_id: Seq<char>)
    ensures
        id@ == discord_id ==> own_name(Some((id, name)), discord_id) == Some(name@),
        id@ != discord_id ==> own_name(Some((id, name)), discord_id) is None,
        own_name(None, discord_id) is None,
{
}

/// The member that a course is about.
pub open spec fn link_in(state: LinkFlow) -> Option<LinkRequest> {
    match state {
        LinkFlow::ExchangeCode { link } => Some(link),
        LinkFlow::FetchUser { link, .. } => Some(link),
        LinkFlow::FindOwner { link, .. } => Some(link),
        LinkFlow::RefreshLink { link, .. } => Some(link),
        LinkFlow::ReplaceLink { link, .. } => Some(link),
        LinkFlow::PopulateCache { link, .. } => Some(link),
        LinkFlow::FindChannels { link, .. } => Some(link),
        LinkFlow::CheckChannel { link, .. } => Some(link),
        LinkFlow::StoreFacts { link, .. } => Some(link),
        LinkFlow::SyncNow { link } => Some(link),
        LinkFlow::QueueSync { link } => Some(link),
        _ => None,
    }
}

/// The Twitch account that a course has found.
pub open spec fn user_in(state: LinkFlow) -> Option<TwitchUser> {
    match state {
        LinkFlow::FindOwner { user, .. } => Some(user),
        LinkFlow::RefreshLink { user, .. } => Some(user),
        LinkFlow::ReplaceLink { user, .. } => Some(user),
        LinkFlow::PopulateCache { user, .. } => Some(user),
        LinkFlow::FindChannels { user, .. } => Some(user),
        LinkFlow::CheckChannel { user, .. } => Some(user),
        LinkFlow::StoreFacts { user, .. } => Some(user),
        _ => None,
    }
}

/// A course stays with the member and the account it is about, and the member
/// ends on the page of the guild they came from.
pub proof fn law_linking_stays_with_the_member(state: LinkFlow, reply: LinkReply, r: LinkFlow)
    requires
        state.leads_to(reply, r),
    ensures
        link_in(state) is Some && link_in(r) is Some ==> link_in(r) == link_in(state),
        user_in(state) is Some && user_in(r) is Some ==> user_in(r) == user_in(state),
        link_in(state) matches Some(link) ==> (r matches LinkFlow::Linked { guild_id } ==> guild_id
            == link.guild_id),
{
}

/// Linking in order: the code gives a token, the token an account, and where the
/// account is free it is linked to the member, where it is the member's own it is
/// brought up to date; then the cache is filled and the channels are looked up.
pub proof fn law_smooth_linking(
    link: LinkRequest,
    access_token: String,
    refresh_token: Option<String>,
    user: TwitchUser,
    owner: Option<String>,
    states: Seq<LinkFlow>,
)
    requires
        states.len() == 6,
        states[0] == (LinkFlow::ExchangeCode { link }),
        states[0].leads_to(LinkReply::Tokens(Ok((access_token, refresh_token))), states[1]),
        states[1].leads_to(LinkReply::User(Ok(user)), states[2]),
        states[2].leads_to(LinkReply::Owner(Ok(owner)), states[3]),
        states[3].leads_to(LinkReply::Done(Ok(())), states[4]),
        states[4].leads_to(LinkReply::Done(Ok(())), states[5]),
        owner matches Some(id) ==> id@ == link.discord_id@,
    ensures
        states[1] == (LinkFlow::FetchUser { link, access_token }),
        states[2] == (LinkFlow::FindOwner { link, user }),
        states[3] == if owner is Some {
            LinkFlow::RefreshLink { link, user }
        } else {
            LinkFlow::ReplaceLink { link, user }
        },
        states[4] == (LinkFlow::PopulateCache { link, user }),
        states[5] == (LinkFlow::FindChannels { link, user }),
{
}

/// A channel whose two checks both succeed gets the facts that they gave: the
/// subscription by the subscription check, the follow by the follower check. One
/// of which a check failed is left for the worker, and the next one is checked.
pub proof fn law_channels_are_checked_one_by_one(
    link: LinkRequest,
    user: TwitchUser,
    channels: Vec<ChannelToken>,
    index: usize,
    known: bool,
    follower: Result<Option<FollowerInfo>, AppError>,
    sub: Result<Option<SubInfo>, AppError>,
    r: LinkFlow,
)
    requires
        (LinkFlow::CheckChannel { link, user, channels, index, known }).leads_to(
            LinkReply::Checked { follower, sub },
            r,
        ),
    ensures
        follower is Ok && sub is Ok ==> (r matches LinkFlow::StoreFacts {
            channels: c,
            index: i,
            facts,
            ..
        } && c == channels && i == index && facts.is_following == (follower->Ok_0 is Some)
            && facts.is_subscribed == (sub->Ok_0 is Some) && (follower->Ok_0 matches Some(f)
            ==> facts.followed_at == Some(f.followed_at)) && (sub->Ok_0 matches Some(s)
            ==> facts.sub_tier == s.tier) && (follower->Ok_0 is None ==> facts.followed_at is None)
            && (sub->Ok_0 is None ==> facts.sub_tier == 0)),
        (follower is Err || sub is Err) && index + 1 < channels@.len() ==> (
        r matches LinkFlow::CheckChannel { channels: c, index: i, known: k, .. } && c == channels && i
            == (index + 1) as usize && k == known),
        (follower is Err || sub is Err) && index + 1 >= channels@.len() ==> if known {
            r is SyncNow
        } else {
            r is QueueSync
        },
{
}

/// The first channel is checked first, and after facts were stored comes the
/// next.
pub proof fn law_every_channel_has_its_turn(
    link: LinkRequest,
    user: TwitchUser,
    channels: Vec<ChannelToken>,
    index: usize,
    known: bool,
    facts: CacheData,
    stored: bool,
    first: LinkFlow,
    r: LinkFlow,
)
    requires
        (LinkFlow::FindChannels { link, user }).leads_to(LinkReply::Channels(channels), first),
        (LinkFlow::StoreFacts { link, user, channels, index, known, facts }).leads_to(
            LinkReply::Stored(stored),
            r,
        ),
    ensures
        channels@.len() == 0 ==> first is QueueSync,
        channels@.len() > 0 ==> first == (LinkFlow::CheckChannel {
            link,
            user,
            channels,
            index: 0,
            known: false,
        }),
        index + 1 < channels@.len() ==> r == (LinkFlow::CheckChannel {
            link,
            user,
            channels,
            index: (index + 1) as usize,
            known: known || stored,
        }),
        index + 1 >= channels@.len() ==> if known || stored {
            r is SyncNow
        } else {
            r is QueueSync
        },
{
}

/// Every failure before the account is linked ends the course with that failure,
/// and so does a failure to write it.
pub proof fn law_linking_fails_with_the_cause(
    link: LinkRequest,
    user: TwitchUser,
    access_token: String,
    e: AppError,
    r: LinkFlow,
)
    requires
        (LinkFlow::ExchangeCode { link }).leads_to(LinkReply::Tokens(Err(e)), r) || (
        LinkFlow::FetchUser { link, access_token }).leads_to(LinkReply::User(Err(e)), r) || (
        LinkFlow::FindOwner { link, user }).leads_to(LinkReply::Owner(Err(e)), r) || (
        LinkFlow::RefreshLink { link, user }).leads_to(LinkReply::Done(Err(e)), r) || (
        LinkFlow::ReplaceLink { link, user }).leads_to(LinkReply::Done(Err(e)), r) || (
        LinkFlow::PopulateCache { link, user }).leads_to(LinkReply::Done(Err(e)), r),
    ensures
        r == LinkFlow::Failed(e),
{
}

/// A freshly linked member who follows or subscribes is checked again after half
/// an hour, anyone else after a minute and a half.
pub proof fn law_first_rechecks(facts: CacheData)
    ensures
        facts.is_following || facts.is_subscribed ==> recheck_secs(facts) == 1800,
        !facts.is_following && !facts.is_subscribed ==> recheck_secs(facts) == 90,
{
}

/// What is remembered of a member who was sent to Twitch.
pub proof fn law_what_is_remembered_of_a_member(
    discord_id: Seq<char>,
    guild_id: Option<Seq<char>>,
)
    ensures
        member_data(discord_id, guild_id).get("type"@) == Some(JsonModel::Text("twitch_user"@)),
        member_data(discord_id, guild_id).get("discord_id"@) == Some(JsonModel::Text(discord_id)),
        member_data(discord_id, guild_id).get("guild_id"@) == Some(
            match guild_id {
                Some(g) => JsonModel::Text(g),
                None => JsonModel::Null,
            },
        ),
{
    reveal_strlit("type");
    reveal_strlit("discord_id");
    reveal_strlit("guild_id");
    assert("type"@.len() == 4 && "discord_id"@.len() == 10 && "guild_id"@.len() == 8);
    let d0 = json_object();
    let v1 = JsonModel::Text("twitch_user"@);
    let d1 = d0.with("type"@, v1);
    lemma_with(d0, "type"@, v1);
    let v2 = JsonModel::Text(discord_id);
    let d2 = d1.with("discord_id"@, v2);
    lemma_with(d1, "discord_id"@, v2);
    let v3 = optional_text(guild_id);
    let d3 = d2.with("guild_id"@, v3);
    lemma_with(d2, "guild_id"@, v3);
    assert(member_data(discord_id, guild_id) == d3);
}

/// A member who comes back is known by what was stored under their state: the
/// Discord id must be there, the guild may be.
pub proof fn law_who_comes_back(doc: JsonModel, id: Seq<char>, guild: Seq<char>)
    ensures
        doc.get("discord_id"@) == Some(JsonModel::Text(id)) && doc.get("guild_id"@) == Some(
            JsonModel::Text(guild),
        ) ==> member_for(Some(doc)) == Ok::<(Seq<char>, Option<Seq<char>>), ErrorModel>(
            (id, Some(guild)),
        ),
        doc.get("discord_id"@) == Some(JsonModel::Text(id)) && doc.get("guild_id"@) is None
            ==> member_for(Some(doc)) == Ok::<(Seq<char>, Option<Seq<char>>), ErrorModel>(
            (id, None),
        ),
        doc.get("discord_id"@) is None ==> member_for(Some(doc)) matches Err(
            ErrorModel::Internal(_),
        ),
        member_for(None) matches Err(ErrorModel::BadRequest(_)),
{
}

} // verus!
