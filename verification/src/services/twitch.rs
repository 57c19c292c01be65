//! What is said to Twitch and what its replies mean.
use vstd::prelude::*;
use vstd::utf8::encode_utf8;

use crate::error::{error_view, AppError, ErrorModel};
use crate::json::{json_object, JsonModel, JsonValue};
use crate::outside::{
    hex_encode, hex_lower, hmac_sha256, hmac_sha256_tag, now, parse_rfc3339, rfc3339_instant,
};
use crate::text::{
    integer_of, integer_text, integer_within, law_integer_text_reads_back, parse_within, str_eq,
};
use crate::time::Timestamp;

verus! {

#[derive(Debug)]
pub struct TwitchUser {
    pub id: String,
    pub login: String,
    pub display_name: String,
}

#[derive(Debug, Clone, Copy, PartialEq, Eq)]
pub struct FollowerInfo {
    pub followed_at: Timestamp,
}

#[derive(Debug, Clone, Copy, PartialEq, Eq)]
pub struct SubInfo {
    pub tier: i32,
}

/// The tokens that an OAuth request gives.
#[derive(Debug)]
pub struct TwitchTokenResponse {
    pub access_token: String,
    pub refresh_token: Option<String>,
}

/// A follower in a list of followers.
#[derive(Debug)]
pub struct FollowerData {
    pub followed_at: String,
}

/// A subscriber in a list of subscribers.
#[derive(Debug)]
pub struct SubData {
    pub tier: String,
}

#[derive(Debug)]
pub struct EventSubSubscription {
    pub id: String,
    pub status: String,
}

/// How a request to Twitch ended whose status is not looked at.
pub enum PlainReply<T> {
    /// No response came; what went wrong.
    Unsent(String),
    /// The body of the response is not what was asked for; what is wrong.
    Unreadable(String),
    /// What the response holds.
    Data(T),
}

/// How a request to Twitch ended.
pub enum HttpReply<T> {
    /// No response came; what went wrong.
    Unsent(String),
    /// The response has a status other than success: its code, the code with
    /// its reason, and the body.
    Refused { status: u16, line: String, body: String },
    /// The body of the response is not what was asked for; what is wrong.
    Unreadable(String),
    /// What the response holds.
    Data(T),
}

/// The credentials of the application and the shared secret of its webhooks.
pub struct TwitchClient {
    pub client_id: String,
    pub client_secret: String,
    pub eventsub_secret: String,
}

/// The fields of a form or of a query, by their names.
pub open spec fn fields_view(fields: Seq<(&'static str, String)>) -> Seq<(Seq<char>, Seq<char>)> {
    fields.map_values(|f: (&'static str, String)| (f.0@, f.1@))
}

pub open spec fn twitch_error<T>(prefix: Seq<char>, rest: Seq<char>) -> Result<T, ErrorModel> {
    Err(ErrorModel::TwitchApi(prefix + rest))
}

fn failure(prefix: &str, rest: &str) -> (r: AppError)
    ensures
        r@ == ErrorModel::TwitchApi(prefix@ + rest@),
{
    let mut message = prefix.to_owned();
    message.append(rest);
    AppError::TwitchApi(message)
}

/// What a refusal is reported as: the prefix, the status and the body.
fn refusal(prefix: &str, line: &str, body: &str) -> (r: AppError)
    ensures
        r@ == ErrorModel::TwitchApi(prefix@ + line@ + " - "@ + body@),
{
    let mut message = prefix.to_owned();
    message.append(line);
    message.append(" - ");
    message.append(body);
    AppError::TwitchApi(message)
}

impl TwitchClient {
    pub fn new(client_id: &str, client_secret: &str, eventsub_secret: &str) -> (r: TwitchClient)
        ensures
            r.client_id@ == client_id@,
            r.client_secret@ == client_secret@,
            r.eventsub_secret@ == eventsub_secret@,
    {
        TwitchClient {
            client_id: client_id.to_owned(),
            client_secret: client_secret.to_owned(),
            eventsub_secret: eventsub_secret.to_owned(),
        }
    }

    // --- OAuth ---

    /// The form that asks for an app access token (client credentials grant).
    pub fn app_token_form(&self) -> (r: Vec<(&'static str, String)>)
        ensures
            fields_view(r@) == seq![
                ("client_id"@, self.client_id@),
                ("client_secret"@, self.client_secret@),
                ("grant_type"@, "client_credentials"@),
            ],
    {
        let mut form: Vec<(&'static str, String)> = Vec::new();
        form.push(("client_id", self.client_id.clone()));
        form.push(("client_secret", self.client_secret.clone()));
        form.push(("grant_type", "client_credentials".to_owned()));
        assert(fields_view(form@) =~= seq![
            ("client_id"@, self.client_id@),
            ("client_secret"@, self.client_secret@),
            ("grant_type"@, "client_credentials"@),
        ]);
        form
    }

    /// The app access token that the reply gives.
    pub fn get_app_access_token(reply: PlainReply<TwitchTokenResponse>) -> (r: Result<
        String,
        AppError,
    >)
        ensures
            match reply {
                PlainReply::Unsent(e) => error_view(r) == twitch_error::<String>(
                    "App token request failed: "@,
                    e@,
                ),
                PlainReply::Unreadable(e) => error_view(r) == twitch_error::<String>(
                    "App token parse failed: "@,
                    e@,
                ),
                PlainReply::Data(tokens) => r == Ok::<String, AppError>(tokens.access_token),
            },
    {
        match reply {
            PlainReply::Unsent(e) => Err(failure("App token request failed: ", e.as_str())),
            PlainReply::Unreadable(e) => Err(failure("App token parse failed: ", e.as_str())),
            PlainReply::Data(tokens) => Ok(tokens.access_token),
        }
    }

    /// The form that exchanges an OAuth authorization code for tokens.
    pub fn exchange_form(&self, code: &str, redirect_uri: &str) -> (r: Vec<(&'static str, String)>)
        ensures
            fields_view(r@) == seq![
                ("client_id"@, self.client_id@),
                ("client_secret"@, self.client_secret@),
                ("code"@, code@),
                ("grant_type"@, "authorization_code"@),
                ("redirect_uri"@, redirect_uri@),
            ],
    {
        let mut form: Vec<(&'static str, String)> = Vec::new();
        form.push(("client_id", self.client_id.clone()));
        form.push(("client_secret", self.client_secret.clone()));
        form.push(("code", code.to_owned()));
        form.push(("grant_type", "authorization_code".to_owned()));
        form.push(("redirect_uri", redirect_uri.to_owned()));
        assert(fields_view(form@) =~= seq![
            ("client_id"@, self.client_id@),
            ("client_secret"@, self.client_secret@),
            ("code"@, code@),
            ("grant_type"@, "authorization_code"@),
            ("redirect_uri"@, redirect_uri@),
        ]);
        form
    }

    /// The access token and, where there is one, the refresh token that the
    /// reply to an exchange gives.
    pub fn exchange_code(reply: PlainReply<TwitchTokenResponse>) -> (r: Result<
        (String, Option<String>),
        AppError,
    >)
        ensures
            match reply {
                PlainReply::Unsent(e) => error_view(r) == twitch_error::<(String, Option<String>)>(
                    "Token exchange failed: "@,
                    e@,
                ),
                PlainReply::Unreadable(e) => error_view(r) == twitch_error::<
                    (String, Option<String>),
                >("Token exchange parse failed: "@, e@),
                PlainReply::Data(tokens) => r == Ok::<(String, Option<String>), AppError>(
                    (tokens.access_token, tokens.refresh_token),
                ),
            },
    {
        match reply {
            PlainReply::Unsent(e) => Err(failure("Token exchange failed: ", e.as_str())),
            PlainReply::Unreadable(e) => Err(failure("Token exchange parse failed: ", e.as_str())),
            PlainReply::Data(tokens) => Ok((tokens.access_token, tokens.refresh_token)),
        }
    }

    /// The form that renews the tokens of a user or a broadcaster.
    pub fn refresh_form(&self, refresh_token: &str) -> (r: Vec<(&'static str, String)>)
        ensures
            fields_view(r@) == seq![
                ("client_id"@, self.client_id@),
                ("client_secret"@, self.client_secret@),
                ("grant_type"@, "refresh_token"@),
                ("refresh_token"@, refresh_token@),
            ],
    {
        let mut form: Vec<(&'static str, String)> = Vec::new();
        form.push(("client_id", self.client_id.clone()));
        form.push(("client_secret", self.client_secret.clone()));
        form.push(("grant_type", "refresh_token".to_owned()));
        form.push(("refresh_token", refresh_token.to_owned()));
        assert(fields_view(form@) =~= seq![
            ("client_id"@, self.client_id@),
            ("client_secret"@, self.client_secret@),
            ("grant_type"@, "refresh_token"@),
            ("refresh_token"@, refresh_token@),
        ]);
        form
    }

    /// The new access token and the new refresh token. A reply without a
    /// refresh token is an error.
    pub fn refresh_token(reply: PlainReply<TwitchTokenResponse>) -> (r: Result<
        (String, String),
        AppError,
    >)
        ensures
            match reply {
                PlainReply::Unsent(e) => error_view(r) == twitch_error::<(String, String)>(
                    "Token refresh failed: "@,
                    e@,
                ),
                PlainReply::Unreadable(e) => error_view(r) == twitch_error::<(String, String)>(
                    "Token refresh parse failed: "@,
                    e@,
                ),
                PlainReply::Data(tokens) => match tokens.refresh_token {
                    Some(t) => r == Ok::<(String, String), AppError>((tokens.access_token, t)),
                    None => error_view(r) == Err::<(String, String), ErrorModel>(
                        ErrorModel::TwitchApi("Token refresh returned no refresh_token"@),
                    ),
                },
            },
    {
        match reply {
            PlainReply::Unsent(e) => Err(failure("Token refresh failed: ", e.as_str())),
            PlainReply::Unreadable(e) => Err(failure("Token refresh parse failed: ", e.as_str())),
            PlainReply::Data(tokens) => match tokens.refresh_token {
                Some(t) => Ok((tokens.access_token, t)),
                None => Err(
                    AppError::TwitchApi("Token refresh returned no refresh_token".to_owned()),
                ),
            },
        }
    }

    // --- Helix API ---

    /// The value of the header that carries an access token.
    pub fn bearer(access_token: &str) -> (r: String)
        ensures
            r@ == "Bearer "@ + access_token@,
    {
        let mut out = "Bearer ".to_owned();
        out.append(access_token);
        out
    }

    /// The query that asks for one viewer's relationship to a broadcaster.
    pub fn viewer_query(broadcaster_id: &str, user_id: &str) -> (r: Vec<(&'static str, String)>)
        ensures
            fields_view(r@) == seq![
                ("broadcaster_id"@, broadcaster_id@),
                ("user_id"@, user_id@),
            ],
    {
        let mut query: Vec<(&'static str, String)> = Vec::new();
        query.push(("broadcaster_id", broadcaster_id.to_owned()));
        query.push(("user_id", user_id.to_owned()));
        assert(fields_view(query@) =~= seq![
            ("broadcaster_id"@, broadcaster_id@),
            ("user_id"@, user_id@),
        ]);
        query
    }

    /// The user whom the token belongs to: the first of the reply.
    pub fn get_user_by_token(reply: PlainReply<Vec<TwitchUser>>) -> (r: Result<
        TwitchUser,
        AppError,
    >)
        ensures
            match reply {
                PlainReply::Unsent(e) => error_view(r) == twitch_error::<TwitchUser>(
                    "Get user failed: "@,
                    e@,
                ),
                PlainReply::Unreadable(e) => error_view(r) == twitch_error::<TwitchUser>(
                    "Get user parse failed: "@,
                    e@,
                ),
                PlainReply::Data(users) => if users@.len() > 0 {
                    r == Ok::<TwitchUser, AppError>(users@[0])
                } else {
                    error_view(r) == Err::<TwitchUser, ErrorModel>(
                        ErrorModel::TwitchApi("No user data returned"@),
                    )
                },
            },
    {
        match reply {
            PlainReply::Unsent(e) => Err(failure("Get user failed: ", e.as_str())),
            PlainReply::Unreadable(e) => Err(failure("Get user parse failed: ", e.as_str())),
            PlainReply::Data(users) => {
                let mut users = users;
                if users.len() > 0 {
                    Ok(users.swap_remove(0))
                } else {
                    Err(AppError::TwitchApi("No user data returned".to_owned()))
                }
            },
        }
    }

    /// Whether a user follows a broadcaster, and since when. The reply comes
    /// from a request made with a broadcaster token that may read followers.
    pub fn check_follower(reply: HttpReply<Vec<FollowerData>>) -> (r: Result<
        Option<FollowerInfo>,
        AppError,
    >)
        ensures
            error_view(r) == follower_outcome(reply),
    {
        match reply {
            HttpReply::Unsent(e) => Err(failure("Check follower failed: ", e.as_str())),
            HttpReply::Refused { status, line, body } => if status == 401 {
                Err(failure("401 Unauthorized checking follower: ", body.as_str()))
            } else {
                Err(refusal("Check follower failed: ", line.as_str(), body.as_str()))
            },
            HttpReply::Unreadable(e) => Err(failure("Check follower parse failed: ", e.as_str())),
            HttpReply::Data(data) => if data.len() > 0 {
                match parse_rfc3339(data[0].followed_at.as_str()) {
                    Ok(followed_at) => Ok(Some(FollowerInfo { followed_at })),
                    Err(e) => Err(failure("Failed to parse followed_at: ", e.as_str())),
                }
            } else {
                Ok(None)
            },
        }
    }

    /// Whether a user is subscribed to a broadcaster, and at which tier. A
    /// reply of "not found" means not subscribed, and a tier that is no number
    /// counts as 0.
    pub fn check_subscription(reply: HttpReply<Vec<SubData>>) -> (r: Result<
        Option<SubInfo>,
        AppError,
    >)
        ensures
            error_view(r) == subscription_outcome(reply),
    {
        match reply {
            HttpReply::Unsent(e) => Err(failure("Check subscription failed: ", e.as_str())),
            HttpReply::Refused { status, line, body } => if status == 401 {
                Err(failure("401 Unauthorized checking subscription: ", body.as_str()))
            } else if status == 404 {
                Ok(None)
            } else {
                Err(refusal("Check subscription failed: ", line.as_str(), body.as_str()))
            },
            HttpReply::Unreadable(e) => Err(
                failure("Check subscription parse failed: ", e.as_str()),
            ),
            HttpReply::Data(data) => if data.len() > 0 {
                Ok(Some(SubInfo { tier: parse_tier(data[0].tier.as_str()) }))
            } else {
                Ok(None)
            },
        }
    }

    // --- EventSub ---

    /// The body of a request that creates a webhook subscription.
    pub fn eventsub_body(
        &self,
        event_type: &str,
        version: &str,
        condition: JsonValue,
        callback_url: &str,
    ) -> (r: JsonValue)
        ensures
            r@ == json_object().with("type"@, JsonModel::Text(event_type@)).with(
                "version"@,
                JsonModel::Text(version@),
            ).with("condition"@, condition@).with(
                "transport"@,
                json_object().with("method"@, JsonModel::Text("webhook"@)).with(
                    "callback"@,
                    JsonModel::Text(callback_url@),
                ).with("secret"@, JsonModel::Text(self.eventsub_secret@)),
            ),
    {
        let transport = JsonValue::object().with("method", JsonValue::text("webhook")).with(
            "callback",
            JsonValue::text(callback_url),
        ).with("secret", JsonValue::text(self.eventsub_secret.as_str()));
        JsonValue::object().with("type", JsonValue::text(event_type)).with(
            "version",
            JsonValue::text(version),
        ).with("condition", condition).with("transport", transport)
    }

    /// The subscription that the reply to such a request gives: the first one.
    pub fn create_eventsub_subscription(reply: HttpReply<Vec<EventSubSubscription>>) -> (r: Result<
        EventSubSubscription,
        AppError,
    >)
        ensures
            match reply {
                HttpReply::Unsent(e) => error_view(r) == twitch_error::<EventSubSubscription>(
                    "Create EventSub subscription failed: "@,
                    e@,
                ),
                HttpReply::Refused { status, line, body } => error_view(r) == Err::<
                    EventSubSubscription,
                    ErrorModel,
                >(
                    ErrorModel::TwitchApi(
                        "Create EventSub subscription failed: "@ + line@ + " - "@ + body@,
                    ),
                ),
                HttpReply::Unreadable(e) => error_view(r) == twitch_error::<EventSubSubscription>(
                    "EventSub response parse failed: "@,
                    e@,
                ),
                HttpReply::Data(subs) => if subs@.len() > 0 {
                    r == Ok::<EventSubSubscription, AppError>(subs@[0])
                } else {
                    error_view(r) == Err::<EventSubSubscription, ErrorModel>(
                        ErrorModel::TwitchApi("No subscription data returned"@),
                    )
                },
            },
    {
        match reply {
            HttpReply::Unsent(e) => Err(
                failure("Create EventSub subscription failed: ", e.as_str()),
            ),
            HttpReply::Refused { line, body, .. } => Err(
                refusal("Create EventSub subscription failed: ", line.as_str(), body.as_str()),
            ),
            HttpReply::Unreadable(e) => Err(
                failure("EventSub response parse failed: ", e.as_str()),
            ),
            HttpReply::Data(subs) => {
                let mut subs = subs;
                if subs.len() > 0 {
                    Ok(subs.swap_remove(0))
                } else {
                    Err(AppError::TwitchApi("No subscription data returned".to_owned()))
                }
            },
        }
    }

    /// The query that names the webhook subscription to delete.
    pub fn deletion_query(subscription_id: &str) -> (r: Vec<(&'static str, String)>)
        ensures
            fields_view(r@) == seq![("id"@, subscription_id@)],
    {
        let mut query: Vec<(&'static str, String)> = Vec::new();
        query.push(("id", subscription_id.to_owned()));
        assert(fields_view(query@) =~= seq![("id"@, subscription_id@)]);
        query
    }

    /// What the reply to a deletion means: any response will do, whatever its
    /// status.
    pub fn delete_eventsub_subscription(reply: PlainReply<()>) -> (r: Result<(), AppError>)
        ensures
            error_view(r) == match reply {
                PlainReply::Unsent(e) => twitch_error::<()>(
                    "Delete EventSub subscription failed: "@,
                    e@,
                ),
                _ => Ok::<(), ErrorModel>(()),
            },
    {
        match reply {
            PlainReply::Unsent(e) => Err(
                failure("Delete EventSub subscription failed: ", e.as_str()),
            ),
            _ => Ok(()),
        }
    }

    /// Verify the HMAC signature of an incoming EventSub webhook request, by
    /// the clock: whether the signature is valid and the timestamp lies within
    /// 10 minutes of now.
    pub fn verify_eventsub_signature(
        message_id: &str,
        timestamp: &str,
        body: &[u8],
        secret: &str,
        signature_header: &str,
    ) -> (r: bool)
        ensures
            exists|now: Timestamp|
                now.in_calendar() && now.is_plain() && r == #[trigger] signature_accepted(
                    message_id@,
                    timestamp@,
                    body@,
                    secret@,
                    signature_header@,
                    now,
                ),
            rfc3339_instant(timestamp@) is Err ==> !r,
            !signature_matches(message_id@, timestamp@, body@, secret@, signature_header@) ==> !r,
    {
        let instant = now();
        verify_signature_at(message_id, timestamp, body, secret, signature_header, instant)
    }
}

/// What the reply to a follower request means.
pub open spec fn follower_outcome(reply: HttpReply<Vec<FollowerData>>) -> Result<
    Option<FollowerInfo>,
    ErrorModel,
> {
    match reply {
        HttpReply::Unsent(e) => twitch_error("Check follower failed: "@, e@),
        HttpReply::Refused { status, line, body } => if status == 401 {
            twitch_error("401 Unauthorized checking follower: "@, body@)
        } else {
            Err(ErrorModel::TwitchApi("Check follower failed: "@ + line@ + " - "@ + body@))
        },
        HttpReply::Unreadable(e) => twitch_error("Check follower parse failed: "@, e@),
        HttpReply::Data(data) => if data@.len() > 0 {
            match rfc3339_instant(data@[0].followed_at@) {
                Ok(followed_at) => Ok(Some(FollowerInfo { followed_at })),
                Err(e) => twitch_error("Failed to parse followed_at: "@, e),
            }
        } else {
            Ok(None)
        },
    }
}

/// The tier that a text stands for: 0 where it is no number.
pub open spec fn tier_value(text: Seq<char>) -> i32 {
    match integer_within(text, i32::MIN as int, i32::MAX as int) {
        Some(n) => n as i32,
        None => 0,
    }
}

/// What the reply to a subscription request means.
pub open spec fn subscription_outcome(reply: HttpReply<Vec<SubData>>) -> Result<
    Option<SubInfo>,
    ErrorModel,
> {
    match reply {
        HttpReply::Unsent(e) => twitch_error("Check subscription failed: "@, e@),
        HttpReply::Refused { status, line, body } => if status == 401 {
            twitch_error("401 Unauthorized checking subscription: "@, body@)
        } else if status == 404 {
            Ok(None)
        } else {
            Err(ErrorModel::TwitchApi("Check subscription failed: "@ + line@ + " - "@ + body@))
        },
        HttpReply::Unreadable(e) => twitch_error("Check subscription parse failed: "@, e@),
        HttpReply::Data(data) => if data@.len() > 0 {
            Ok(Some(SubInfo { tier: tier_value(data@[0].tier@) }))
        } else {
            Ok(None)
        },
    }
}

/// The tier that a text stands for: 0 where it is no number.
pub fn parse_tier(text: &str) -> (r: i32)
    ensures
        r == tier_value(text@),
{
    match parse_within(text, i32::MIN as i64, i32::MAX as i64) {
        Some(n) => n as i32,
        None => 0,
    }
}

// ---------------------------------------------------------------------
// EventSub signatures
// ---------------------------------------------------------------------

/// A message may be ten minutes old, or ahead of the clock by as much.
pub const MAX_MESSAGE_AGE_NANOS: i128 = 600_000_000_000;

/// The message that is signed: its id, its timestamp and its body.
pub open spec fn signed_message(message_id: Seq<char>, timestamp: Seq<char>, body: Seq<u8>) -> Seq<
    u8,
> {
    encode_utf8(message_id) + encode_utf8(timestamp) + body
}

/// The header that the holder of the secret sends with a message.
pub open spec fn expected_signature(
    message_id: Seq<char>,
    timestamp: Seq<char>,
    body: Seq<u8>,
    secret: Seq<char>,
) -> Seq<char> {
    "sha256="@ + hex_lower(
        hmac_sha256_tag(encode_utf8(secret), signed_message(message_id, timestamp, body)),
    )
}

/// The header is the one that belongs to the message.
pub open spec fn signature_matches(
    message_id: Seq<char>,
    timestamp: Seq<char>,
    body: Seq<u8>,
    secret: Seq<char>,
    header: Seq<char>,
) -> bool {
    header == expected_signature(message_id, timestamp, body, secret)
}

/// The timestamp names an instant within ten minutes of `now`.
pub open spec fn is_recent(timestamp: Seq<char>, now: Timestamp) -> bool {
    rfc3339_instant(timestamp) matches Ok(t) && -MAX_MESSAGE_AGE_NANOS <= now.nanos_since(t)
        <= MAX_MESSAGE_AGE_NANOS
}

/// The message is recent and carries its signature.
pub open spec fn signature_accepted(
    message_id: Seq<char>,
    timestamp: Seq<char>,
    body: Seq<u8>,
    secret: Seq<char>,
    header: Seq<char>,
    now: Timestamp,
) -> bool {
    is_recent(timestamp, now) && signature_matches(message_id, timestamp, body, secret, header)
}

/// Verify the HMAC signature of a webhook request at a given instant.
pub fn verify_signature_at(
    message_id: &str,
    timestamp: &str,
    body: &[u8],
    secret: &str,
    signature_header: &str,
    instant: Timestamp,
) -> (r: bool)
    ensures
        r == signature_accepted(
            message_id@,
            timestamp@,
            body@,
            secret@,
            signature_header@,
            instant,
        ),
{
    match parse_rfc3339(timestamp) {
        Ok(t) => {
            let age = instant.elapsed_nanos(t);
            if age > MAX_MESSAGE_AGE_NANOS || age < -MAX_MESSAGE_AGE_NANOS {
                return false;
            }
        },
        Err(_) => {
            return false;
        },
    }
    let mut message: Vec<u8> = Vec::new();
    message.extend_from_slice(message_id.as_bytes());
    message.extend_from_slice(timestamp.as_bytes());
    message.extend_from_slice(body);
    assert(message@ =~= signed_message(message_id@, timestamp@, body@));
    let mut expected = "sha256=".to_owned();
    let tag = hmac_sha256(secret.as_bytes(), message.as_slice());
    expected.append(hex_encode(tag.as_slice()).as_str());
    str_eq(signature_header, expected.as_str())
}

/// A message is accepted with one signature only.
pub proof fn law_one_signature_per_message(
    message_id: Seq<char>,
    timestamp: Seq<char>,
    body: Seq<u8>,
    secret: Seq<char>,
    a: Seq<char>,
    b: Seq<char>,
    now: Timestamp,
    later: Timestamp,
)
    requires
        signature_accepted(message_id, timestamp, body, secret, a, now),
        signature_accepted(message_id, timestamp, body, secret, b, later),
    ensures
        a == b,
{
}

/// What the holder of the secret sends is accepted while it is recent, and
/// never once it is not.
pub proof fn law_own_signature_is_accepted_while_recent(
    message_id: Seq<char>,
    timestamp: Seq<char>,
    body: Seq<u8>,
    secret: Seq<char>,
    now: Timestamp,
)
    ensures
        signature_accepted(
            message_id,
            timestamp,
            body,
            secret,
            expected_signature(message_id, timestamp, body, secret),
            now,
        ) == is_recent(timestamp, now),
{
}

/// A viewer counts as not following only where Twitch answered with a list that
/// is empty. The first of a list says since when they follow. Every other ending
/// of the request is an error: no answer, any refusal, an unreadable body or
/// date.
pub proof fn law_follower_replies(reply: HttpReply<Vec<FollowerData>>)
    ensures
        follower_outcome(reply) == Ok::<Option<FollowerInfo>, ErrorModel>(None) <==> (
        reply is Data && reply->Data_0@.len() == 0),
        reply is Data && reply->Data_0@.len() > 0 ==> match rfc3339_instant(
            reply->Data_0@[0].followed_at@,
        ) {
            Ok(t) => follower_outcome(reply) == Ok::<Option<FollowerInfo>, ErrorModel>(
                Some(FollowerInfo { followed_at: t }),
            ),
            Err(_) => follower_outcome(reply) is Err,
        },
        !(reply is Data) ==> follower_outcome(reply) matches Err(ErrorModel::TwitchApi(_)),
{
}

/// A viewer counts as not subscribed only where Twitch answered with an empty
/// list or with "not found". The first of a list says at which tier they
/// subscribe. Every other ending of the request is an error.
pub proof fn law_subscription_replies(reply: HttpReply<Vec<SubData>>, tier: i32)
    ensures
        subscription_outcome(reply) == Ok::<Option<SubInfo>, ErrorModel>(None) <==> (
        reply is Data && reply->Data_0@.len() == 0) || (reply is Refused && reply->status == 404),
        reply is Data && reply->Data_0@.len() > 0 && reply->Data_0@[0].tier@ == integer_text(
            tier as int,
        ) ==> subscription_outcome(reply) == Ok::<Option<SubInfo>, ErrorModel>(
            Some(SubInfo { tier }),
        ),
        reply is Data && reply->Data_0@.len() > 0 && integer_of(reply->Data_0@[0].tier@) is None
            ==> subscription_outcome(reply) == Ok::<Option<SubInfo>, ErrorModel>(
            Some(SubInfo { tier: 0 }),
        ),
        subscription_outcome(reply) is Err <==> reply is Unsent || reply is Unreadable || (
        reply is Refused && reply->status != 404),
{
    law_integer_text_reads_back(tier as int);
}

/// A tier that Twitch names by its number is that number.
pub proof fn law_tiers_are_read(tier: i32)
    ensures
        tier_value(integer_text(tier as int)) == tier,
{
    law_integer_text_reads_back(tier as int);
}

/// A webhook message is accepted exactly when its timestamp lies no more than
/// 600 seconds before or after the clock and its header is "sha256=" with the
/// HMAC, under the shared secret, of its id, its timestamp and its body in this
/// order.
pub proof fn law_what_makes_a_signature(
    message_id: Seq<char>,
    timestamp: Seq<char>,
    body: Seq<u8>,
    secret: Seq<char>,
    header: Seq<char>,
    now: Timestamp,
)
    ensures
        signature_accepted(message_id, timestamp, body, secret, header, now) <==> (rfc3339_instant(
            timestamp,
        ) matches Ok(t) && -600_000_000_000 <= now.nanos_since(t) <= 600_000_000_000) && header
            == "sha256="@ + hex_lower(
            hmac_sha256_tag(
                encode_utf8(secret),
                encode_utf8(message_id) + encode_utf8(timestamp) + body,
            ),
        ),
{
}

/// Another secret, message or header is accepted only where it gives the very
/// same code.
pub proof fn law_signatures_bind_the_message(
    id: Seq<char>,
    timestamp: Seq<char>,
    body: Seq<u8>,
    secret: Seq<char>,
    other_body: Seq<u8>,
    other_secret: Seq<char>,
    header: Seq<char>,
    now: Timestamp,
)
    requires
        signature_accepted(id, timestamp, body, secret, header, now),
    ensures
        signature_accepted(id, timestamp, other_body, other_secret, header, now) <==> "sha256="@
            + hex_lower(
            hmac_sha256_tag(
                encode_utf8(other_secret),
                encode_utf8(id) + encode_utf8(timestamp) + other_body,
            ),
        ) == header,
{
}

} // verus!
