//! The EventSub webhook: Twitch reports follows and subscriptions here.
use vstd::prelude::*;

use crate::json::{JsonModel, JsonValue};
use crate::outside::{json_document, now, parse_json, parse_rfc3339, rfc3339_instant};
use crate::services::twitch::{
    law_tiers_are_read, parse_tier, signature_accepted, tier_value, verify_signature_at,
};
use crate::text::{integer_of, integer_text, str_eq};
use crate::time::Timestamp;

verus! {

/// The headers of a message that are read; `None` where one is missing or is
/// not text.
#[derive(Debug)]
pub struct WebhookHeaders {
    pub message_id: Option<String>,
    pub timestamp: Option<String>,
    pub signature: Option<String>,
    pub message_type: Option<String>,
}

/// What a message asks for, and how it is answered.
#[derive(Debug, PartialEq)]
pub enum WebhookOutcome {
    /// Answer with this status and do nothing.
    Status(u16),
    /// Answer with the challenge, as plain text.
    Challenge(String),
    /// Note that the user follows the channel, sync the user, answer 204.
    /// Without a follow date the one that is known stays.
    Followed { user_id: String, broadcaster_id: String, followed_at: Option<Timestamp> },
    /// Note the subscription, sync the user, answer 204.
    Subscribed { user_id: String, broadcaster_id: String, tier: i32 },
    /// Note the end of the subscription, sync the user, answer 204.
    SubscriptionEnded { user_id: String, broadcaster_id: String },
    /// Forget the revoked webhook subscription, answer 204.
    Revoked { subscription_id: String },
}

/// What a [`WebhookOutcome`] says.
pub enum OutcomeModel {
    Status(u16),
    Challenge(Seq<char>),
    Followed {
        user_id: Seq<char>,
        broadcaster_id: Seq<char>,
        followed_at: Option<Timestamp>,
    },
    Subscribed { user_id: Seq<char>, broadcaster_id: Seq<char>, tier: i32 },
    SubscriptionEnded { user_id: Seq<char>, broadcaster_id: Seq<char> },
    Revoked { subscription_id: Seq<char> },
}

impl View for WebhookOutcome {
    type V = OutcomeModel;

    open spec fn view(&self) -> OutcomeModel {
        match *self {
            WebhookOutcome::Status(code) => OutcomeModel::Status(code),
            WebhookOutcome::Challenge(text) => OutcomeModel::Challenge(text@),
            WebhookOutcome::Followed { user_id, broadcaster_id, followed_at } =>
                OutcomeModel::Followed {
                    user_id: user_id@,
                    broadcaster_id: broadcaster_id@,
                    followed_at,
                },
            WebhookOutcome::Subscribed { user_id, broadcaster_id, tier } =>
                OutcomeModel::Subscribed {
                    user_id: user_id@,
                    broadcaster_id: broadcaster_id@,
                    tier,
                },
            WebhookOutcome::SubscriptionEnded { user_id, broadcaster_id } =>
                OutcomeModel::SubscriptionEnded {
                    user_id: user_id@,
                    broadcaster_id: broadcaster_id@,
                },
            WebhookOutcome::Revoked { subscription_id } => OutcomeModel::Revoked {
                subscription_id: subscription_id@,
            },
        }
    }
}

impl OutcomeModel {
    /// The status of the answer.
    pub open spec fn status(self) -> u16 {
        match self {
            OutcomeModel::Status(code) => code,
            OutcomeModel::Challenge(_) => 200,
            _ => 204,
        }
    }

    /// The message changes what is stored.
    pub open spec fn changes_something(self) -> bool {
        !(self is Status || self is Challenge)
    }
}

/// The text at a key, empty where there is none.
pub open spec fn text_or_empty(doc: JsonModel, key: Seq<char>) -> Seq<char> {
    match doc.text_at(key) {
        Some(t) => t,
        None => Seq::empty(),
    }
}

/// The document at a key, null where there is none.
pub open spec fn at_or_null(doc: JsonModel, key: Seq<char>) -> JsonModel {
    match doc.get(key) {
        Some(v) => v,
        None => JsonModel::Null,
    }
}

/// The user and the channel of an event.
pub open spec fn parties(event: JsonModel) -> Option<(Seq<char>, Seq<char>)> {
    match (event.text_at("user_id"@), event.text_at("broadcaster_user_id"@)) {
        (Some(user_id), Some(broadcaster_id)) => Some((user_id, broadcaster_id)),
        _ => None,
    }
}

/// When the user followed: nothing where the event does not name an instant.
pub open spec fn followed_at_of(event: JsonModel) -> Option<Timestamp> {
    match rfc3339_instant(text_or_empty(event, "followed_at"@)) {
        Ok(t) => Some(t),
        Err(_) => None,
    }
}

/// The tier of an event, 0 where it names none.
pub open spec fn tier_of_event(event: JsonModel) -> i32 {
    match event.text_at("tier"@) {
        Some(t) => tier_value(t),
        None => 0,
    }
}

/// What a notification asks for. Events of other kinds, and events that do not
/// say whom they are about, are answered and passed over.
pub open spec fn notified(payload: JsonModel) -> OutcomeModel {
    let kind = text_or_empty(at_or_null(payload, "subscription"@), "type"@);
    let event = at_or_null(payload, "event"@);
    match parties(event) {
        None => OutcomeModel::Status(204),
        Some((user_id, broadcaster_id)) => if kind == "channel.follow"@ {
            OutcomeModel::Followed { user_id, broadcaster_id, followed_at: followed_at_of(event) }
        } else if kind == "channel.subscribe"@ {
            OutcomeModel::Subscribed { user_id, broadcaster_id, tier: tier_of_event(event) }
        } else if kind == "channel.subscription.end"@ {
            OutcomeModel::SubscriptionEnded { user_id, broadcaster_id }
        } else {
            OutcomeModel::Status(204)
        },
    }
}

/// What a message with a valid signature asks for.
pub open spec fn dispatched(message_type: Seq<char>, payload: JsonModel) -> OutcomeModel {
    if message_type == "webhook_callback_verification"@ {
        OutcomeModel::Challenge(text_or_empty(payload, "challenge"@))
    } else if message_type == "notification"@ {
        notified(payload)
    } else if message_type == "revocation"@ {
        OutcomeModel::Revoked {
            subscription_id: text_or_empty(at_or_null(payload, "subscription"@), "id"@),
        }
    } else {
        OutcomeModel::Status(400)
    }
}

/// What a message asks for. One without its headers is a bad request, one
/// without a valid recent signature is forbidden, and one that is not JSON is
/// a bad request.
pub open spec fn outcome_of(
    headers: WebhookHeaders,
    body: Seq<u8>,
    secret: Seq<char>,
    now: Timestamp,
) -> OutcomeModel {
    match (headers.message_id, headers.timestamp, headers.signature, headers.message_type) {
        (Some(message_id), Some(timestamp), Some(signature), Some(message_type)) => {
            if !signature_accepted(message_id@, timestamp@, body, secret, signature@, now) {
                OutcomeModel::Status(403)
            } else {
                match json_document(body) {
                    Some(payload) => dispatched(message_type@, payload),
                    None => OutcomeModel::Status(400),
                }
            }
        },
        _ => OutcomeModel::Status(400),
    }
}

fn get_text(doc: &JsonValue, key: &str) -> (r: String)
    ensures
        r@ == text_or_empty(doc@, key@),
{
    match doc.text_at(key) {
        Some(t) => t,
        None => String::new(),
    }
}

/// What a notification asks for.
fn notification(payload: &JsonValue) -> (r: WebhookOutcome)
    ensures
        r@ == notified(payload@),
{
    let nothing = JsonValue::Null;
    let subscription = match payload.get("subscription") {
        Some(v) => v,
        None => &nothing,
    };
    let event = match payload.get("event") {
        Some(v) => v,
        None => &nothing,
    };
    let kind = get_text(subscription, "type");
    let (user_id, broadcaster_id) = match (
        event.text_at("user_id"),
        event.text_at("broadcaster_user_id"),
    ) {
        (Some(user_id), Some(broadcaster_id)) => (user_id, broadcaster_id),
        _ => {
            return WebhookOutcome::Status(204);
        },
    };
    if str_eq(kind.as_str(), "channel.follow") {
        let followed_at = match parse_rfc3339(get_text(event, "followed_at").as_str()) {
            Ok(t) => Some(t),
            Err(_) => None,
        };
        WebhookOutcome::Followed { user_id, broadcaster_id, followed_at }
    } else if str_eq(kind.as_str(), "channel.subscribe") {
        let tier: i32 = match event.text_at("tier") {
            Some(t) => parse_tier(t.as_str()),
            None => 0,
        };
        WebhookOutcome::Subscribed { user_id, broadcaster_id, tier }
    } else if str_eq(kind.as_str(), "channel.subscription.end") {
        WebhookOutcome::SubscriptionEnded { user_id, broadcaster_id }
    } else {
        WebhookOutcome::Status(204)
    }
}

/// What a message with a valid signature asks for.
pub fn dispatch(message_type: &str, payload: &JsonValue) -> (r: WebhookOutcome)
    ensures
        r@ == dispatched(message_type@, payload@),
{
    if str_eq(message_type, "webhook_callback_verification") {
        WebhookOutcome::Challenge(get_text(payload, "challenge"))
    } else if str_eq(message_type, "notification") {
        notification(payload)
    } else if str_eq(message_type, "revocation") {
        let nothing = JsonValue::Null;
        let subscription = match payload.get("subscription") {
            Some(v) => v,
            None => &nothing,
        };
        WebhookOutcome::Revoked { subscription_id: get_text(subscription, "id") }
    } else {
        WebhookOutcome::Status(400)
    }
}

/// Handle incoming Twitch EventSub webhook events, at a given instant:
/// verification challenges, notifications (follow/sub/unsub), revocations.
pub fn handle_at(headers: &WebhookHeaders, body: &[u8], secret: &str, instant: Timestamp) -> (r:
    WebhookOutcome)
    ensures
        r@ == outcome_of(*headers, body@, secret@, instant),
{
    let (message_id, timestamp, signature, message_type) = match (
        &headers.message_id,
        &headers.timestamp,
        &headers.signature,
        &headers.message_type,
    ) {
        (Some(id), Some(ts), Some(sig), Some(mt)) => (id, ts, sig, mt),
        _ => {
            return WebhookOutcome::Status(400);
        },
    };
    if !verify_signature_at(
        message_id.as_str(),
        timestamp.as_str(),
        body,
        secret,
        signature.as_str(),
        instant,
    ) {
        return WebhookOutcome::Status(403);
    }
    match parse_json(body) {
        Some(payload) => dispatch(message_type.as_str(), &payload),
        None => WebhookOutcome::Status(400),
    }
}

/// Handle incoming Twitch EventSub webhook events, by the clock.
pub fn eventsub_handler(headers: &WebhookHeaders, body: &[u8], secret: &str) -> (r: WebhookOutcome)
    ensures
        exists|now: Timestamp|
            now.in_calendar() && now.is_plain() && r@ == #[trigger] outcome_of(
                *headers,
                body@,
                secret@,
                now,
            ),
        headers.message_id is None || headers.timestamp is None || headers.signature is None
            || headers.message_type is None ==> r@ == OutcomeModel::Status(400),
{
    handle_at(headers, body, secret, now())
}

/// The message has all its headers, and its signature is valid and recent.
pub open spec fn is_signed(
    headers: WebhookHeaders,
    body: Seq<u8>,
    secret: Seq<char>,
    now: Timestamp,
) -> bool {
    match (headers.message_id, headers.timestamp, headers.signature, headers.message_type) {
        (Some(message_id), Some(timestamp), Some(signature), Some(_)) => signature_accepted(
            message_id@,
            timestamp@,
            body,
            secret,
            signature@,
            now,
        ),
        _ => false,
    }
}

/// A message without a valid recent signature changes nothing and has no
/// challenge answered: it is answered 400 where a header is missing, else 403.
pub proof fn law_unsigned_messages_change_nothing(
    headers: WebhookHeaders,
    body: Seq<u8>,
    secret: Seq<char>,
    now: Timestamp,
)
    requires
        !is_signed(headers, body, secret, now),
    ensures
        outcome_of(headers, body, secret, now) == OutcomeModel::Status(
            if headers.message_id is None || headers.timestamp is None || headers.signature is None
                || headers.message_type is None {
                400
            } else {
                403
            },
        ),
        !outcome_of(headers, body, secret, now).changes_something(),
{
}

/// Every signed notification that is JSON is answered 204, whatever it reports,
/// so that Twitch does not send it again.
pub proof fn law_notifications_are_acknowledged(
    headers: WebhookHeaders,
    body: Seq<u8>,
    secret: Seq<char>,
    now: Timestamp,
)
    requires
        is_signed(headers, body, secret, now),
        headers.message_type->0@ == "notification"@,
        json_document(body) is Some,
    ensures
        outcome_of(headers, body, secret, now).status() == 204,
{
    reveal_strlit("notification");
    reveal_strlit("webhook_callback_verification");
    assert("notification"@.len() == 12 && "webhook_callback_verification"@.len() == 29);
}

/// What a signed message is taken for, by its type: the verification is answered
/// with its challenge, a revocation names the subscription to forget, and a type
/// that is not known is a bad request.
pub proof fn law_message_types(message_type: Seq<char>, payload: JsonModel, t: Seq<char>)
    ensures
        message_type == "webhook_callback_verification"@ && payload.get("challenge"@) == Some(
            JsonModel::Text(t),
        ) ==> dispatched(message_type, payload) == OutcomeModel::Challenge(t),
        message_type == "revocation"@ && payload.get("subscription"@) is Some && payload.get(
            "subscription"@,
        )->0.get("id"@) == Some(JsonModel::Text(t)) ==> dispatched(message_type, payload) == (
        OutcomeModel::Revoked { subscription_id: t }),
        message_type != "webhook_callback_verification"@ && message_type != "notification"@
            && message_type != "revocation"@ ==> dispatched(message_type, payload)
            == OutcomeModel::Status(400),
{
    reveal_strlit("webhook_callback_verification");
    reveal_strlit("notification");
    reveal_strlit("revocation");
    reveal_strlit("channel.follow");
    reveal_strlit("channel.subscribe");
    reveal_strlit("channel.subscription.end");
    assert("webhook_callback_verification"@.len() == 29 && "notification"@.len() == 12
        && "revocation"@.len() == 10 && "channel.follow"@.len() == 14
        && "channel.subscribe"@.len() == 17 && "channel.subscription.end"@.len() == 24);
}

/// What a notification reports, by the type of its subscription: a follow, with
/// its date, of the user and the channel that the event names; a subscription,
/// with its tier; or the end of one. Nothing else is noted of the user.
pub proof fn law_notifications_report_their_event(
    payload: JsonModel,
    user_id: Seq<char>,
    channel: Seq<char>,
    tier: i32,
)
    requires
        payload.get("subscription"@) is Some,
        payload.get("event"@) is Some,
        payload.get("event"@)->0.get("user_id"@) == Some(JsonModel::Text(user_id)),
        payload.get("event"@)->0.get("broadcaster_user_id"@) == Some(JsonModel::Text(channel)),
    ensures
        ({
            let kind = payload.get("subscription"@)->0.get("type"@);
            let event = payload.get("event"@)->0;
            let outcome = dispatched("notification"@, payload);
            &&& kind == Some(JsonModel::Text("channel.follow"@)) ==> (
            outcome matches OutcomeModel::Followed { user_id: u, broadcaster_id: b, followed_at }
                && u == user_id && b == channel && (event.get("followed_at"@) matches Some(
                JsonModel::Text(date),
            ) ==> followed_at == (match rfc3339_instant(date) {
                Ok(t) => Some(t),
                Err(_) => None::<Timestamp>,
            })))
            &&& kind == Some(JsonModel::Text("channel.subscribe"@)) ==> (
            outcome matches OutcomeModel::Subscribed { user_id: u, broadcaster_id: b, tier: t } && u
                == user_id && b == channel && (event.get("tier"@) == Some(
                JsonModel::Text(integer_text(tier as int)),
            ) ==> t == tier) && (event.get("tier"@) is None ==> t == 0) && (event.get(
                "tier"@,
            ) matches Some(JsonModel::Text(text)) ==> integer_of(text) is None ==> t == 0))
            &&& kind == Some(JsonModel::Text("channel.subscription.end"@)) ==> outcome == (
            OutcomeModel::SubscriptionEnded { user_id, broadcaster_id: channel })
            &&& kind != Some(JsonModel::Text("channel.follow"@)) && kind != Some(
                JsonModel::Text("channel.subscribe"@),
            ) && kind != Some(JsonModel::Text("channel.subscription.end"@)) ==> outcome
                == OutcomeModel::Status(204)
        }),
{
    reveal_strlit("webhook_callback_verification");
    reveal_strlit("notification");
    reveal_strlit("revocation");
    reveal_strlit("channel.follow");
    reveal_strlit("channel.subscribe");
    reveal_strlit("channel.subscription.end");
    assert("webhook_callback_verification"@.len() == 29 && "notification"@.len() == 12
        && "revocation"@.len() == 10 && "channel.follow"@.len() == 14
        && "channel.subscribe"@.len() == 17 && "channel.subscription.end"@.len() == 24);
    law_tiers_are_read(tier);
    let kind = payload.get("subscription"@)->0.get("type"@);
    if !(kind matches Some(JsonModel::Text(_))) {
        assert(text_or_empty(payload.get("subscription"@)->0, "type"@).len() == 0);
    }
}

/// A notification that does not say whom it is about changes nothing.
pub proof fn law_nameless_events_are_passed_over(payload: JsonModel)
    requires
        payload.get("event"@) matches Some(event) ==> !(event.get("user_id"@) matches Some(
            JsonModel::Text(_),
        )) || !(event.get("broadcaster_user_id"@) matches Some(JsonModel::Text(_))),
    ensures
        dispatched("notification"@, payload) == OutcomeModel::Status(204),
{
    reveal_strlit("webhook_callback_verification");
    reveal_strlit("notification");
    reveal_strlit("revocation");
    reveal_strlit("channel.follow");
    reveal_strlit("channel.subscribe");
    reveal_strlit("channel.subscription.end");
    assert("webhook_callback_verification"@.len() == 29 && "notification"@.len() == 12
        && "revocation"@.len() == 10 && "channel.follow"@.len() == 14
        && "channel.subscribe"@.len() == 17 && "channel.subscription.end"@.len() == 24);
}

/// A signed message with all its headers is dispatched by its type where its body
/// is JSON, and is a bad request where it is not.
pub proof fn law_signed_messages_are_dispatched(
    headers: WebhookHeaders,
    body: Seq<u8>,
    secret: Seq<char>,
    now: Timestamp,
)
    requires
        headers.message_id is Some,
        headers.timestamp is Some,
        headers.signature is Some,
        headers.message_type is Some,
        signature_accepted(
            headers.message_id->0@,
            headers.timestamp->0@,
            body,
            secret,
            headers.signature->0@,
            now,
        ),
    ensures
        json_document(body) is Some ==> outcome_of(headers, body, secret, now) == dispatched(
            headers.message_type->0@,
            json_document(body)->0,
        ),
        json_document(body) is None ==> outcome_of(headers, body, secret, now)
            == OutcomeModel::Status(400),
{
}

} // verus!
