//! Connecting a channel: the broadcaster's consent, the webhook subscriptions
//! of a connected channel, and what is left to clean up behind one.
use vstd::prelude::*;

use crate::config::AppConfig;
use crate::error::{AppError, ErrorModel};
use crate::json::{json_object, lemma_member_of_push, lemma_with, JsonModel, JsonValue};
use crate::models::condition::opt_model;
use crate::routes::oauth::{
    after_steps, authorize_address, authorize_url, is_token_char, law_states_work_once,
    never_issued, new_state_token, taken, usable, IssuedState, StateStep, STATE_TOKEN_LENGTH,
};
use crate::services::sync::ConfigSyncEvent;
use crate::services::twitch::{EventSubSubscription, TwitchUser};
use crate::text::{html_escape, html_escaped, replace_all, replaced};
use crate::time::Timestamp;

verus! {

/// The scopes that a broadcaster grants, as the plain connect link asks for
/// them.
pub const CONNECT_SCOPES: &'static str = "moderator%3Aread%3Afollowers+channel%3Aread%3Asubscriptions";

#[derive(Debug)]
pub struct ConnectQuery {
    pub guild_id: String,
    pub role_id: String,
}

#[derive(Debug)]
pub struct ConnectCallbackQuery {
    pub code: String,
    pub state: String,
}

/// What starts an OAuth flow: the data to store under the state for
/// [`crate::routes::oauth::STATE_LIFETIME_SECS`], and the address to send the
/// browser to.
#[derive(Debug)]
pub struct OauthStart {
    pub state: String,
    pub redirect_data: JsonValue,
    pub url: String,
}

/// What is remembered of a broadcaster who was sent to Twitch.
pub open spec fn broadcaster_data(guild_id: Seq<char>, role_id: Seq<char>) -> JsonModel {
    json_object().with("type"@, JsonModel::Text("broadcaster"@)).with(
        "guild_id"@,
        JsonModel::Text(guild_id),
    ).with("role_id"@, JsonModel::Text(role_id))
}

impl OauthStart {
    /// The start of a broadcaster's flow for this role link.
    pub open spec fn for_broadcaster(
        self,
        config: AppConfig,
        guild_id: Seq<char>,
        role_id: Seq<char>,
        scope: Seq<char>,
    ) -> bool {
        &&& self.redirect_data@ == broadcaster_data(guild_id, role_id)
        &&& self.url@ == authorize_address(
            config.twitch_client_id@,
            config.base_url@ + "/connect/callback"@,
            scope,
            self.state@,
        )
    }

    /// The state has the form of a state token.
    pub open spec fn has_token(self) -> bool {
        &&& self.state@.len() == STATE_TOKEN_LENGTH
        &&& forall|i: int| 0 <= i < self.state@.len() ==> is_token_char(#[trigger] self.state@[i])
    }
}

/// Start the flow for a role link, under a given state.
pub fn start_broadcaster(
    config: &AppConfig,
    guild_id: &str,
    role_id: &str,
    scope: &str,
    state: String,
) -> (r: OauthStart)
    ensures
        r.for_broadcaster(*config, guild_id@, role_id@, scope@),
        r.state == state,
{
    let redirect_data = JsonValue::object().with("type", JsonValue::text("broadcaster")).with(
        "guild_id",
        JsonValue::text(guild_id),
    ).with("role_id", JsonValue::text(role_id));
    let redirect_uri = config.broadcaster_oauth_redirect_uri();
    let url = authorize_url(
        config.twitch_client_id.as_str(),
        redirect_uri.as_str(),
        scope,
        state.as_str(),
    );
    OauthStart { state, redirect_data, url }
}

/// Start broadcaster Twitch OAuth flow. The channel owner visits this address
/// to authorize the plugin. `exists` says whether there is such a role link.
pub fn connect(config: &AppConfig, query: &ConnectQuery, exists: bool) -> (r: Result<
    OauthStart,
    AppError,
>)
    ensures
        match r {
            Ok(start) => exists && start.has_token() && start.for_broadcaster(
                *config,
                query.guild_id@,
                query.role_id@,
                CONNECT_SCOPES@,
            ),
            Err(e) => !exists && e@ == ErrorModel::NotFound("Role link not found"@),
        },
{
    if !exists {
        return Err(AppError::NotFound("Role link not found".to_owned()));
    }
    Ok(
        start_broadcaster(
            config,
            query.guild_id.as_str(),
            query.role_id.as_str(),
            CONNECT_SCOPES,
            new_state_token(),
        ),
    )
}

// ---------------------------------------------------------------------
// The way back
// ---------------------------------------------------------------------

/// The role link that a broadcaster comes back for.
pub open spec fn connection_for(data: Option<JsonModel>) -> Result<
    (Seq<char>, Seq<char>),
    ErrorModel,
> {
    match data {
        None => Err(ErrorModel::BadRequest("Invalid or expired OAuth state"@)),
        Some(doc) => match (doc.text_at("guild_id"@), doc.text_at("role_id"@)) {
            (None, _) => Err(ErrorModel::Internal("Missing guild_id in state"@)),
            (_, None) => Err(ErrorModel::Internal("Missing role_id in state"@)),
            (Some(guild_id), Some(role_id)) => Ok((guild_id, role_id)),
        },
    }
}

/// The role link that a broadcaster comes back for, by what was stored under
/// the state they bring.
pub fn connection_request(data: &Option<JsonValue>) -> (r: Result<ConnectQuery, AppError>)
    ensures
        match r {
            Ok(q) => connection_for(opt_model(*data)) == Ok::<(Seq<char>, Seq<char>), ErrorModel>(
                (q.guild_id@, q.role_id@),
            ),
            Err(e) => connection_for(opt_model(*data)) == Err::<
                (Seq<char>, Seq<char>),
                ErrorModel,
            >(e@),
        },
{
    let data = match data {
        Some(d) => d,
        None => {
            return Err(AppError::BadRequest("Invalid or expired OAuth state".to_owned()));
        },
    };
    let guild_id = match data.text_at("guild_id") {
        Some(t) => t,
        None => {
            return Err(AppError::Internal("Missing guild_id in state".to_owned()));
        },
    };
    let role_id = match data.text_at("role_id") {
        Some(t) => t,
        None => {
            return Err(AppError::Internal("Missing role_id in state".to_owned()));
        },
    };
    Ok(ConnectQuery { guild_id, role_id })
}

/// A broadcaster who comes back is known by the role link they left for.
pub proof fn law_connection_survives_the_round_trip(guild_id: Seq<char>, role_id: Seq<char>)
    ensures
        connection_for(Some(broadcaster_data(guild_id, role_id))) == Ok::<
            (Seq<char>, Seq<char>),
            ErrorModel,
        >((guild_id, role_id)),
{
    reveal_strlit("type");
    reveal_strlit("guild_id");
    reveal_strlit("role_id");
    assert("type"@.len() == 4 && "guild_id"@.len() == 8 && "role_id"@.len() == 7);
    let m0 = Seq::<(Seq<char>, JsonModel)>::empty();
    let kind = JsonModel::Text("broadcaster"@);
    let m1 = m0.push(("type"@, kind));
    let m2 = m1.push(("guild_id"@, JsonModel::Text(guild_id)));
    lemma_member_of_push(m1, "guild_id"@, JsonModel::Text(guild_id), "guild_id"@);
    lemma_member_of_push(m2, "role_id"@, JsonModel::Text(role_id), "guild_id"@);
    lemma_member_of_push(m2, "role_id"@, JsonModel::Text(role_id), "role_id"@);
}

/// The course of connecting a channel once its broadcaster has come back. Each
/// state names the work that is to be done in it.
pub enum ConnectFlow {
    /// Exchange the code for tokens.
    ExchangeCode { link: ConnectQuery },
    /// Ask whom the token belongs to.
    FetchUser { link: ConnectQuery, access_token: String, refresh_token: String },
    /// Store the channel and its tokens on the role link.
    StoreChannel {
        link: ConnectQuery,
        access_token: String,
        refresh_token: String,
        broadcaster: TwitchUser,
    },
    /// Make cache rows for all linked members of the guild.
    PopulateCache { link: ConnectQuery, broadcaster: TwitchUser },
    /// Create the webhook subscriptions in the background and have the role
    /// link synced after that; answer with the page.
    Connected { link: ConnectQuery, broadcaster: TwitchUser },
    Failed(AppError),
}

/// What came of the work of a [`ConnectFlow`].
pub enum ConnectReply {
    Tokens(Result<(String, Option<String>), AppError>),
    User(Result<TwitchUser, AppError>),
    Done(Result<(), AppError>),
}

impl ConnectFlow {
    /// `self` is where the connecting begins for a broadcaster who comes back,
    /// by what was stored under the state they bring.
    pub open spec fn starts(self, data: Option<JsonModel>) -> bool {
        match connection_for(data) {
            Ok((guild_id, role_id)) => self matches ConnectFlow::ExchangeCode { link }
                && link.guild_id@ == guild_id && link.role_id@ == role_id,
            Err(error) => self matches ConnectFlow::Failed(e) && e@ == error,
        }
    }

    /// Begin to connect the channel of a broadcaster who comes back.
    pub fn start(data: &Option<JsonValue>) -> (r: ConnectFlow)
        ensures
            r.starts(opt_model(*data)),
    {
        match connection_request(data) {
            Ok(link) => ConnectFlow::ExchangeCode { link },
            Err(e) => ConnectFlow::Failed(e),
        }
    }

    /// `r` is the next state. A broadcaster for whom Twitch gives no refresh
    /// token is not connected, and any failure ends the course.
    pub open spec fn leads_to(self, reply: ConnectReply, r: ConnectFlow) -> bool {
        match (self, reply) {
            (
                ConnectFlow::ExchangeCode { link },
                ConnectReply::Tokens(Ok((access_token, Some(refresh_token)))),
            ) => r == (ConnectFlow::FetchUser { link, access_token, refresh_token }),
            (ConnectFlow::ExchangeCode { .. }, ConnectReply::Tokens(Ok((_, None)))) =>
                r matches ConnectFlow::Failed(e) && e@ == ErrorModel::TwitchApi(
                    "No refresh token returned for broadcaster"@,
                ),
            (ConnectFlow::ExchangeCode { .. }, ConnectReply::Tokens(Err(e))) => r
                == ConnectFlow::Failed(e),
            (
                ConnectFlow::FetchUser { link, access_token, refresh_token },
                ConnectReply::User(Ok(broadcaster)),
            ) => r == (ConnectFlow::StoreChannel {
                link,
                access_token,
                refresh_token,
                broadcaster,
            }),
            (ConnectFlow::FetchUser { .. }, ConnectReply::User(Err(e))) => r
                == ConnectFlow::Failed(e),
            (
                ConnectFlow::StoreChannel { link, broadcaster, .. },
                ConnectReply::Done(Ok(_)),
            ) => r == (ConnectFlow::PopulateCache { link, broadcaster }),
            (
                ConnectFlow::PopulateCache { link, broadcaster },
                ConnectReply::Done(Ok(_)),
            ) => r == (ConnectFlow::Connected { link, broadcaster }),
            (ConnectFlow::StoreChannel { .. }, ConnectReply::Done(Err(e))) => r
                == ConnectFlow::Failed(e),
            (ConnectFlow::PopulateCache { .. }, ConnectReply::Done(Err(e))) => r
                == ConnectFlow::Failed(e),
            _ => r == self,
        }
    }

    /// The next state. What a state does not wait for leaves it as it is.
    pub fn next(self, reply: ConnectReply) -> (r: ConnectFlow)
        ensures
            self.leads_to(reply, r),
    {
        match (self, reply) {
            (ConnectFlow::ExchangeCode { link }, ConnectReply::Tokens(tokens)) => match tokens {
                Ok((access_token, Some(refresh_token))) => ConnectFlow::FetchUser {
                    link,
                    access_token,
                    refresh_token,
                },
                Ok((_, None)) => ConnectFlow::Failed(
                    AppError::TwitchApi("No refresh token returned for broadcaster".to_owned()),
                ),
                Err(e) => ConnectFlow::Failed(e),
            },
            (
                ConnectFlow::FetchUser { link, access_token, refresh_token },
                ConnectReply::User(user),
            ) => match user {
                Ok(broadcaster) => ConnectFlow::StoreChannel {
                    link,
                    access_token,
                    refresh_token,
                    broadcaster,
                },
                Err(e) => ConnectFlow::Failed(e),
            },
            (ConnectFlow::StoreChannel { link, broadcaster, .. }, ConnectReply::Done(Ok(_))) => {
                ConnectFlow::PopulateCache { link, broadcaster }
            },
            (ConnectFlow::PopulateCache { link, broadcaster }, ConnectReply::Done(Ok(_))) => {
                ConnectFlow::Connected { link, broadcaster }
            },
            (ConnectFlow::StoreChannel { .. }, ConnectReply::Done(Err(e))) => {
                ConnectFlow::Failed(e)
            },
            (ConnectFlow::PopulateCache { .. }, ConnectReply::Done(Err(e))) => {
                ConnectFlow::Failed(e)
            },
            (state, _) => state,
        }
    }
}

/// A broadcaster who comes back with a state that is unknown, expired or used is
/// refused at once: no code is exchanged and nothing is written.
pub proof fn law_unusable_states_connect_nothing(
    states: Map<Seq<char>, IssuedState>,
    token: Seq<char>,
    now: Timestamp,
    start: ConnectFlow,
    reply: ConnectReply,
    r: ConnectFlow,
)
    requires
        !usable(states, token, now),
        start.starts(taken(states, token, now).1),
        start.leads_to(reply, r),
    ensures
        start matches ConnectFlow::Failed(e) && e@ == ErrorModel::BadRequest(
            "Invalid or expired OAuth state"@,
        ),
        r == start,
{
}

/// A state connects at most one channel: whoever comes back with it a second
/// time is refused at once, whatever befell the stored states in between.
pub proof fn law_states_connect_once(
    states: Map<Seq<char>, IssuedState>,
    token: Seq<char>,
    first: Timestamp,
    steps: Seq<StateStep>,
    second: Timestamp,
    start: ConnectFlow,
    reply: ConnectReply,
    r: ConnectFlow,
)
    requires
        taken(states, token, first).1 is Some,
        never_issued(token, steps),
        start.starts(taken(after_steps(taken(states, token, first).0, steps), token, second).1),
        start.leads_to(reply, r),
    ensures
        start matches ConnectFlow::Failed(e) && e@ == ErrorModel::BadRequest(
            "Invalid or expired OAuth state"@,
        ),
        r == start,
{
    law_states_work_once(states, token, first, steps, second);
}

/// A channel is only connected with tokens that can be renewed.
pub proof fn law_stored_channels_have_refresh_tokens(
    state: ConnectFlow,
    reply: ConnectReply,
    r: ConnectFlow,
)
    requires
        state is ExchangeCode,
        state.leads_to(reply, r),
        !(r is ExchangeCode),
        !(r is Failed),
    ensures
        r matches ConnectFlow::FetchUser { refresh_token, .. }
            && reply matches ConnectReply::Tokens(Ok((_, Some(given)))) && refresh_token == given,
{
}

/// The page that tells the broadcaster of the success. It tries to close
/// itself; the page that opened it shows the new channel on its own.
pub fn done_page(template: &str, base_url: &str, login: &str, guild_id: &str) -> (r: String)
    ensures
        r@ == replaced(
            replaced(
                replaced(template@, "{{BASE_URL}}"@, base_url@),
                "{{TWITCH_LOGIN}}"@,
                html_escaped(login@),
            ),
            "{{GUILD_ID}}"@,
            guild_id@,
        ),
{
    proof {
        reveal_strlit("{{BASE_URL}}");
        reveal_strlit("{{TWITCH_LOGIN}}");
        reveal_strlit("{{GUILD_ID}}");
    }
    let login_safe = html_escape(login);
    let based = replace_all(template, "{{BASE_URL}}", base_url);
    let named = replace_all(based.as_str(), "{{TWITCH_LOGIN}}", login_safe.as_str());
    replace_all(named.as_str(), "{{GUILD_ID}}", guild_id)
}

/// The event that has the role link synced after its channel was connected.
pub fn connected_event(link: ConnectQuery) -> (r: ConfigSyncEvent)
    ensures
        r.guild_id == link.guild_id,
        r.role_id == link.role_id,
{
    ConfigSyncEvent { guild_id: link.guild_id, role_id: link.role_id }
}

// ---------------------------------------------------------------------
// Cleaning up
// ---------------------------------------------------------------------

/// The course of cleaning up behind a broadcaster whom a role link does not
/// refer to any more. Each state names the work that is to be done in it;
/// nothing that fails stops the course.
#[derive(Debug)]
pub enum OrphanCleanup {
    /// Ask whether some role link still refers to the broadcaster.
    CheckReferences,
    /// Delete the webhook subscriptions that are stored, noting their ids.
    DeleteSubscriptions,
    /// Get a token for deleting them at Twitch too.
    FetchAppToken { subscription_ids: Vec<String> },
    /// Delete them at Twitch.
    DeleteAtTwitch { subscription_ids: Vec<String>, app_token: String },
    /// Delete the cached relationships to the channel.
    DropCache,
    Finished,
}

/// What came of the work of an [`OrphanCleanup`].
pub enum CleanupReply {
    /// `None` where it could not be found out.
    Referenced(Option<bool>),
    Deleted(Vec<String>),
    AppToken(Option<String>),
    Done,
}

impl OrphanCleanup {
    /// The state that follows. A broadcaster of whom it cannot be found out
    /// whether they are referred to is left alone.
    pub open spec fn followed_by(self, reply: CleanupReply) -> OrphanCleanup {
        match (self, reply) {
            (OrphanCleanup::CheckReferences, CleanupReply::Referenced(Some(false))) =>
                OrphanCleanup::DeleteSubscriptions,
            (OrphanCleanup::DeleteSubscriptions, CleanupReply::Deleted(subscription_ids)) =>
                if subscription_ids@.len() == 0 {
                    OrphanCleanup::DropCache
                } else {
                    OrphanCleanup::FetchAppToken { subscription_ids }
                },
            (
                OrphanCleanup::FetchAppToken { subscription_ids },
                CleanupReply::AppToken(Some(app_token)),
            ) => OrphanCleanup::DeleteAtTwitch { subscription_ids, app_token },
            (OrphanCleanup::FetchAppToken { .. }, _) => OrphanCleanup::DropCache,
            (OrphanCleanup::DeleteAtTwitch { .. }, _) => OrphanCleanup::DropCache,
            (OrphanCleanup::DeleteSubscriptions, _) => OrphanCleanup::DropCache,
            _ => OrphanCleanup::Finished,
        }
    }

    /// The state that follows.
    pub fn next(self, reply: CleanupReply) -> (r: OrphanCleanup)
        ensures
            r == self.followed_by(reply),
    {
        match (self, reply) {
            (OrphanCleanup::CheckReferences, CleanupReply::Referenced(Some(false))) => {
                OrphanCleanup::DeleteSubscriptions
            },
            (OrphanCleanup::DeleteSubscriptions, CleanupReply::Deleted(subscription_ids)) => {
                if subscription_ids.len() == 0 {
                    OrphanCleanup::DropCache
                } else {
                    OrphanCleanup::FetchAppToken { subscription_ids }
                }
            },
            (
                OrphanCleanup::FetchAppToken { subscription_ids },
                CleanupReply::AppToken(Some(app_token)),
            ) => OrphanCleanup::DeleteAtTwitch { subscription_ids, app_token },
            (OrphanCleanup::FetchAppToken { .. }, _) => OrphanCleanup::DropCache,
            (OrphanCleanup::DeleteAtTwitch { .. }, _) => OrphanCleanup::DropCache,
            (OrphanCleanup::DeleteSubscriptions, _) => OrphanCleanup::DropCache,
            _ => OrphanCleanup::Finished,
        }
    }
}

/// A broadcaster whom a role link still refers to keeps everything.
pub proof fn law_referenced_broadcasters_are_kept(referenced: Option<bool>)
    requires
        referenced != Some(false),
    ensures
        OrphanCleanup::CheckReferences.followed_by(CleanupReply::Referenced(referenced))
            is Finished,
{
}

/// The states that a run of the cleanup passes through, the first one left
/// out.
pub open spec fn cleanup_run(state: OrphanCleanup, replies: Seq<CleanupReply>) -> Seq<OrphanCleanup>
    decreases replies.len(),
{
    if replies.len() == 0 {
        Seq::empty()
    } else {
        let next = state.followed_by(replies[0]);
        seq![next] + cleanup_run(next, replies.drop_first())
    }
}

/// Once the broadcaster is found to be an orphan the cache is dropped,
/// whatever becomes of the subscriptions.
pub proof fn law_orphans_lose_their_cache(replies: Seq<CleanupReply>)
    requires
        replies.len() >= 3,
    ensures
        cleanup_run(OrphanCleanup::DeleteSubscriptions, replies).contains(
            OrphanCleanup::DropCache,
        ),
{
    let start = OrphanCleanup::DeleteSubscriptions;
    let run = cleanup_run(start, replies);
    let first = start.followed_by(replies[0]);
    let rest = replies.drop_first();
    let second = first.followed_by(rest[0]);
    let last = rest.drop_first();
    let third = second.followed_by(last[0]);
    reveal_with_fuel(cleanup_run, 4);
    assert(cleanup_run(first, rest)[0] == second);
    assert(cleanup_run(second, last)[0] == third);
    assert(run[0] == first);
    assert(run[1] == second);
    assert(run[2] == third);
}

// ---------------------------------------------------------------------
// Webhook subscriptions
// ---------------------------------------------------------------------

/// A kind of event that Twitch is asked to report.
#[derive(Debug)]
pub struct EventSubRequest {
    pub event_type: &'static str,
    pub version: &'static str,
    pub condition: JsonValue,
}

/// What a [`EventSubRequest`] says.
pub struct RequestModel {
    pub event_type: Seq<char>,
    pub version: Seq<char>,
    pub condition: JsonModel,
}

impl View for EventSubRequest {
    type V = RequestModel;

    open spec fn view(&self) -> RequestModel {
        RequestModel {
            event_type: self.event_type@,
            version: self.version@,
            condition: self.condition@,
        }
    }
}

/// The events of a channel, by its broadcaster.
pub open spec fn of_channel(broadcaster_id: Seq<char>) -> JsonModel {
    json_object().with("broadcaster_user_id"@, JsonModel::Text(broadcaster_id))
}

/// What is subscribed to for a channel: follows, which need the broadcaster as
/// the moderator too, subscriptions, and their end.
pub open spec fn channel_events(broadcaster_id: Seq<char>) -> Seq<RequestModel> {
    seq![
        RequestModel {
            event_type: "channel.follow"@,
            version: "2"@,
            condition: of_channel(broadcaster_id).with(
                "moderator_user_id"@,
                JsonModel::Text(broadcaster_id),
            ),
        },
        RequestModel {
            event_type: "channel.subscribe"@,
            version: "1"@,
            condition: of_channel(broadcaster_id),
        },
        RequestModel {
            event_type: "channel.subscription.end"@,
            version: "1"@,
            condition: of_channel(broadcaster_id),
        },
    ]
}

/// What is subscribed to for a channel.
pub fn eventsub_requests(broadcaster_id: &str) -> (r: Vec<EventSubRequest>)
    ensures
        r@.map_values(|q: EventSubRequest| q@) == channel_events(broadcaster_id@),
        r@.len() == CHANNEL_EVENTS,
{
    let follow = EventSubRequest {
        event_type: "channel.follow",
        version: "2",
        condition: JsonValue::object().with(
            "broadcaster_user_id",
            JsonValue::text(broadcaster_id),
        ).with("moderator_user_id", JsonValue::text(broadcaster_id)),
    };
    let subscribe = EventSubRequest {
        event_type: "channel.subscribe",
        version: "1",
        condition: JsonValue::object().with("broadcaster_user_id", JsonValue::text(broadcaster_id)),
    };
    let end = EventSubRequest {
        event_type: "channel.subscription.end",
        version: "1",
        condition: JsonValue::object().with("broadcaster_user_id", JsonValue::text(broadcaster_id)),
    };
    let mut requests: Vec<EventSubRequest> = Vec::new();
    requests.push(follow);
    requests.push(subscribe);
    requests.push(end);
    assert(requests@.map_values(|q: EventSubRequest| q@) =~= channel_events(broadcaster_id@));
    requests
}

/// Where Twitch is to report the events.
pub fn callback_url(base_url: &str) -> (r: String)
    ensures
        r@ == base_url@ + "/webhooks/twitch"@,
{
    let mut url = base_url.to_owned();
    url.append("/webhooks/twitch");
    url
}

/// The course of creating the webhook subscriptions of a channel, one after
/// the other. Each state names the work that is to be done in it.
pub enum EventSubSetup {
    /// Get a token for the application.
    FetchAppToken,
    /// Ask whether the subscription with this number exists already.
    Check { index: usize, app_token: String },
    /// Create it at Twitch.
    Create { index: usize, app_token: String },
    /// Store what Twitch made.
    Store { index: usize, app_token: String, subscription: EventSubSubscription },
    Failed(AppError),
    Finished,
}

/// What came of the work of an [`EventSubSetup`].
pub enum SetupReply {
    AppToken(Result<String, AppError>),
    /// `None` where it could not be found out.
    Exists(Option<bool>),
    Created(Result<EventSubSubscription, AppError>),
    Done,
}

/// The number of events that are subscribed to.
pub const CHANNEL_EVENTS: usize = 3;

/// Go on with the subscription after this one.
pub open spec fn after_event(index: usize, app_token: String) -> EventSubSetup {
    if index + 1 < CHANNEL_EVENTS {
        EventSubSetup::Check { index: (index + 1) as usize, app_token }
    } else {
        EventSubSetup::Finished
    }
}

fn go_on(index: usize, app_token: String) -> (r: EventSubSetup)
    ensures
        r == after_event(index, app_token),
{
    if index < CHANNEL_EVENTS - 1 {
        EventSubSetup::Check { index: index + 1, app_token }
    } else {
        EventSubSetup::Finished
    }
}

impl EventSubSetup {
    /// The state that follows. A subscription that exists is skipped, and one
    /// that fails does not keep the others from being made.
    pub open spec fn followed_by(self, reply: SetupReply) -> EventSubSetup {
        match (self, reply) {
            (EventSubSetup::FetchAppToken, SetupReply::AppToken(Ok(app_token))) =>
                EventSubSetup::Check { index: 0, app_token },
            (EventSubSetup::FetchAppToken, SetupReply::AppToken(Err(e))) => EventSubSetup::Failed(
                e,
            ),
            (EventSubSetup::Check { index, app_token }, SetupReply::Exists(exists)) => if exists
                == Some(true) {
                after_event(index, app_token)
            } else {
                EventSubSetup::Create { index, app_token }
            },
            (EventSubSetup::Create { index, app_token }, SetupReply::Created(Ok(subscription))) =>
                EventSubSetup::Store { index, app_token, subscription },
            (EventSubSetup::Create { index, app_token }, SetupReply::Created(Err(_))) =>
                after_event(index, app_token),
            (EventSubSetup::Store { index, app_token, .. }, SetupReply::Done) => after_event(
                index,
                app_token,
            ),
            _ => EventSubSetup::Finished,
        }
    }

    /// The state that follows.
    pub fn next(self, reply: SetupReply) -> (r: EventSubSetup)
        ensures
            r == self.followed_by(reply),
    {
        match (self, reply) {
            (EventSubSetup::FetchAppToken, SetupReply::AppToken(token)) => match token {
                Ok(app_token) => EventSubSetup::Check { index: 0, app_token },
                Err(e) => EventSubSetup::Failed(e),
            },
            (EventSubSetup::Check { index, app_token }, SetupReply::Exists(exists)) => {
                match exists {
                    Some(true) => go_on(index, app_token),
                    _ => EventSubSetup::Create { index, app_token },
                }
            },
            (EventSubSetup::Create { index, app_token }, SetupReply::Created(created)) => {
                match created {
                    Ok(subscription) => EventSubSetup::Store { index, app_token, subscription },
                    Err(_) => go_on(index, app_token),
                }
            },
            (EventSubSetup::Store { index, app_token, .. }, SetupReply::Done) => {
                go_on(index, app_token)
            },
            _ => EventSubSetup::Finished,
        }
    }
}

/// Whether an event exists, was made or failed, the setup goes on with the
/// next one.
pub proof fn law_one_failure_does_not_stop_the_setup(
    index: usize,
    app_token: String,
    subscription: EventSubSubscription,
    failure: AppError,
)
    ensures
        (EventSubSetup::Check { index, app_token }).followed_by(SetupReply::Exists(Some(true)))
            == after_event(index, app_token),
        (EventSubSetup::Store { index, app_token, subscription }).followed_by(SetupReply::Done)
            == after_event(index, app_token),
        (EventSubSetup::Create { index, app_token }).followed_by(SetupReply::Created(Err(failure)))
            == after_event(index, app_token),
        index + 1 < CHANNEL_EVENTS ==> after_event(index, app_token) is Check,
{
}

/// What is remembered of a broadcaster who was sent to Twitch.
pub proof fn law_what_is_remembered_of_a_broadcaster(guild_id: Seq<char>, role_id: Seq<char>)
    ensures
        broadcaster_data(guild_id, role_id).get("type"@) == Some(JsonModel::Text("broadcaster"@)),
        broadcaster_data(guild_id, role_id).get("guild_id"@) == Some(JsonModel::Text(guild_id)),
        broadcaster_data(guild_id, role_id).get("role_id"@) == Some(JsonModel::Text(role_id)),
{
    reveal_strlit("type");
    reveal_strlit("guild_id");
    reveal_strlit("role_id");
    assert("type"@.len() == 4 && "guild_id"@.len() == 8 && "role_id"@.len() == 7);
    let d0 = json_object();
    let v1 = JsonModel::Text("broadcaster"@);
    let d1 = d0.with("type"@, v1);
    lemma_with(d0, "type"@, v1);
    let v2 = JsonModel::Text(guild_id);
    let d2 = d1.with("guild_id"@, v2);
    lemma_with(d1, "guild_id"@, v2);
    let v3 = JsonModel::Text(role_id);
    let d3 = d2.with("role_id"@, v3);
    lemma_with(d2, "role_id"@, v3);
    assert(broadcaster_data(guild_id, role_id) == d3);
}

/// Connecting in order: the code gives tokens, the access token gives the
/// channel, the channel is stored with just these tokens on the role link that
/// the broadcaster left for, and then it is connected.
pub proof fn law_smooth_connecting(
    link: ConnectQuery,
    access_token: String,
    refresh_token: String,
    broadcaster: TwitchUser,
    states: Seq<ConnectFlow>,
)
    requires
        states.len() == 5,
        states[0] == (ConnectFlow::ExchangeCode { link }),
        states[0].leads_to(
            ConnectReply::Tokens(Ok((access_token, Some(refresh_token)))),
            states[1],
        ),
        states[1].leads_to(ConnectReply::User(Ok(broadcaster)), states[2]),
        states[2].leads_to(ConnectReply::Done(Ok(())), states[3]),
        states[3].leads_to(ConnectReply::Done(Ok(())), states[4]),
    ensures
        states[1] == (ConnectFlow::FetchUser { link, access_token, refresh_token }),
        states[2] == (ConnectFlow::StoreChannel { link, access_token, refresh_token, broadcaster }),
        states[3] == (ConnectFlow::PopulateCache { link, broadcaster }),
        states[4] == (ConnectFlow::Connected { link, broadcaster }),
{
}

/// Every failure on the way ends the course with that failure; a reply without a
/// refresh token is one.
pub proof fn law_connecting_fails_with_the_cause(
    link: ConnectQuery,
    access_token: String,
    refresh_token: String,
    broadcaster: TwitchUser,
    e: AppError,
    r: ConnectFlow,
    without: ConnectFlow,
)
    requires
        (ConnectFlow::ExchangeCode { link }).leads_to(ConnectReply::Tokens(Err(e)), r) || (
        ConnectFlow::FetchUser { link, access_token, refresh_token }).leads_to(
            ConnectReply::User(Err(e)),
            r,
        ) || (ConnectFlow::StoreChannel { link, access_token, refresh_token, broadcaster }).leads_to(
            ConnectReply::Done(Err(e)),
            r,
        ) || (ConnectFlow::PopulateCache { link, broadcaster }).leads_to(
            ConnectReply::Done(Err(e)),
            r,
        ),
        (ConnectFlow::ExchangeCode { link }).leads_to(
            ConnectReply::Tokens(Ok((access_token, None))),
            without,
        ),
    ensures
        r == ConnectFlow::Failed(e),
        without matches ConnectFlow::Failed(f) && f@ == ErrorModel::TwitchApi(
            "No refresh token returned for broadcaster"@,
        ),
{
}

/// What Twitch is asked to report of a channel: its follows, its subscriptions
/// and their end, each of this channel, the follows with the broadcaster as the
/// moderator.
pub proof fn law_what_is_reported_of_a_channel(broadcaster_id: Seq<char>, i: int)
    requires
        0 <= i < 3,
    ensures
        channel_events(broadcaster_id).len() == 3,
        channel_events(broadcaster_id)[0].event_type == "channel.follow"@,
        channel_events(broadcaster_id)[0].version == "2"@,
        channel_events(broadcaster_id)[1].event_type == "channel.subscribe"@,
        channel_events(broadcaster_id)[1].version == "1"@,
        channel_events(broadcaster_id)[2].event_type == "channel.subscription.end"@,
        channel_events(broadcaster_id)[2].version == "1"@,
        channel_events(broadcaster_id)[i].condition.get("broadcaster_user_id"@) == Some(
            JsonModel::Text(broadcaster_id),
        ),
        channel_events(broadcaster_id)[0].condition.get("moderator_user_id"@) == Some(
            JsonModel::Text(broadcaster_id),
        ),
        i > 0 ==> channel_events(broadcaster_id)[i].condition.get("moderator_user_id"@) is None,
{
    reveal_strlit("broadcaster_user_id");
    reveal_strlit("moderator_user_id");
    assert("broadcaster_user_id"@.len() == 19 && "moderator_user_id"@.len() == 17);
    let d0 = json_object();
    let v1 = JsonModel::Text(broadcaster_id);
    let d1 = d0.with("broadcaster_user_id"@, v1);
    lemma_with(d0, "broadcaster_user_id"@, v1);
    let v2 = JsonModel::Text(broadcaster_id);
    let d2 = d1.with("moderator_user_id"@, v2);
    lemma_with(d1, "moderator_user_id"@, v2);
    assert(of_channel(broadcaster_id) == d1);
    assert(channel_events(broadcaster_id)[0].condition == d2);
}

/// The setup goes through the three events in order, with the token it got: one
/// that exists is passed over, one that does not is made and stored, and after
/// the third it is finished.
pub proof fn law_setup_goes_through_all_events(
    index: usize,
    app_token: String,
    subscription: EventSubSubscription,
    failure: AppError,
)
    requires
        index < 3,
    ensures
        EventSubSetup::FetchAppToken.followed_by(SetupReply::AppToken(Ok(app_token))) == (
        EventSubSetup::Check { index: 0, app_token }),
        EventSubSetup::FetchAppToken.followed_by(SetupReply::AppToken(Err(failure)))
            == EventSubSetup::Failed(failure),
        (EventSubSetup::Check { index, app_token }).followed_by(SetupReply::Exists(Some(false))) == (
        EventSubSetup::Create { index, app_token }),
        (EventSubSetup::Check { index, app_token }).followed_by(SetupReply::Exists(None)) == (
        EventSubSetup::Create { index, app_token }),
        (EventSubSetup::Create { index, app_token }).followed_by(
            SetupReply::Created(Ok(subscription)),
        ) == (EventSubSetup::Store { index, app_token, subscription }),
        (EventSubSetup::Check { index, app_token }).followed_by(SetupReply::Exists(Some(true)))
            == if index < 2 {
            EventSubSetup::Check { index: (index + 1) as usize, app_token }
        } else {
            EventSubSetup::Finished
        },
        (EventSubSetup::Store { index, app_token, subscription }).followed_by(SetupReply::Done)
            == if index < 2 {
            EventSubSetup::Check { index: (index + 1) as usize, app_token }
        } else {
            EventSubSetup::Finished
        },
        (EventSubSetup::Create { index, app_token }).followed_by(SetupReply::Created(Err(failure)))
            == if index < 2 {
            EventSubSetup::Check { index: (index + 1) as usize, app_token }
        } else {
            EventSubSetup::Finished
        },
{
}

/// The cleanup behind a broadcaster to whom nothing refers any more: the stored
/// subscriptions are deleted, the same ones at Twitch with the token that was
/// got, and then the cache is dropped.
pub proof fn law_smooth_cleanup(subscription_ids: Vec<String>, none: Vec<String>, app_token: String)
    requires
        subscription_ids@.len() > 0,
        none@.len() == 0,
    ensures
        OrphanCleanup::CheckReferences.followed_by(CleanupReply::Referenced(Some(false)))
            is DeleteSubscriptions,
        OrphanCleanup::DeleteSubscriptions.followed_by(CleanupReply::Deleted(subscription_ids)) == (
        OrphanCleanup::FetchAppToken { subscription_ids }),
        OrphanCleanup::DeleteSubscriptions.followed_by(CleanupReply::Deleted(none)) is DropCache,
        (OrphanCleanup::FetchAppToken { subscription_ids }).followed_by(
            CleanupReply::AppToken(Some(app_token)),
        ) == (OrphanCleanup::DeleteAtTwitch { subscription_ids, app_token }),
        (OrphanCleanup::DeleteAtTwitch { subscription_ids, app_token }).followed_by(
            CleanupReply::Done,
        ) is DropCache,
        OrphanCleanup::DropCache.followed_by(CleanupReply::Done) is Finished,
{
}

/// The scopes that a broadcaster is asked for let the plugin read followers and
/// subscriptions.
pub proof fn law_scopes_of_a_broadcaster()
    ensures
        CONNECT_SCOPES@ == "moderator%3Aread%3Afollowers+channel%3Aread%3Asubscriptions"@,
{
}

/// A broadcaster who comes back is known by what was stored under their state:
/// both the guild and the role must be there.
pub proof fn law_what_a_broadcaster_comes_back_for(
    doc: JsonModel,
    guild_id: Seq<char>,
    role_id: Seq<char>,
)
    ensures
        doc.get("guild_id"@) == Some(JsonModel::Text(guild_id)) && doc.get("role_id"@) == Some(
            JsonModel::Text(role_id),
        ) ==> connection_for(Some(doc)) == Ok::<(Seq<char>, Seq<char>), ErrorModel>(
            (guild_id, role_id),
        ),
        doc.get("guild_id"@) is None || doc.get("role_id"@) is None ==> connection_for(
            Some(doc),
        ) matches Err(ErrorModel::Internal(_)),
        connection_for(None) matches Err(ErrorModel::BadRequest(_)),
{
}

} // verus!
