use chrono::Utc;
use hmac::{Hmac, Mac};
use sha2::Sha256;
use twitch_follower_role::config::{AppConfig, EnvVars};
use twitch_follower_role::error::AppError;
use twitch_follower_role::json::JsonValue;
use twitch_follower_role::models::condition::{TargetKind, TwitchConditions};
use twitch_follower_role::models::rule::RuleTree;
use twitch_follower_role::routes::admin::{
    broadcaster_connect, broadcaster_disconnect, direct_refusal, entry_key, kind_str,
    looks_embedded, operator_catalog, page_entry, preview_reply, render_iframe_no_token,
    render_inline_error, render_signin_page, require_role_config_access, require_write,
    role_config_data, role_config_page, role_config_preview, role_config_preview_edit,
    saved_reply, target_catalog, verify_iframe_entry, Caller, DisconnectFlow, DisconnectReply,
    IframeSession, LinkConfig, Page, PageContext, PageEntry, PageFlow, PageReply, Preview,
    PreviewFlow, PreviewReply, RlTokenError, RoleConfigAccess, RoleConfigPageQuery,
    RoleConfigSaveBody, SaveFlow, SaveReply, VerifiedToken, NO_ROW,
};
use twitch_follower_role::routes::broadcaster::{
    callback_url, connect, connected_event, connection_request, done_page, eventsub_requests,
    start_broadcaster, CleanupReply, ConnectFlow, ConnectQuery, ConnectReply, EventSubSetup,
    OrphanCleanup, SetupReply,
};
use twitch_follower_role::routes::oauth::{
    authorize_url, new_state_token, token_of, STATE_LIFETIME_SECS,
};
use twitch_follower_role::routes::plugin::{
    delete_config, extract_token, get_config, post_config, register, success_reply, verify_url,
    ConfigLink, RegisterBody,
};
use twitch_follower_role::routes::users::{
    require_enabled, require_viewer, set_view_permission, users_data, users_page, view_permission,
    Standing, UserRow, UsersFlow, UsersReply, ViewPermBody,
};
use twitch_follower_role::routes::verification::{
    channels_reply, first_recheck, first_recheck_at, get_session, guild_in, link_request,
    linked_event, linked_page, login, refresh, render_verify_page, start_member, status,
    twitch_login, unlink, verify_channels, ChannelToken, LinkFlow, LinkReply, LinkRequest,
    TwitchLoginQuery, VerifyChannelsQuery,
};
use twitch_follower_role::routes::webhooks::{
    dispatch, eventsub_handler, handle_at, WebhookHeaders, WebhookOutcome,
};
use twitch_follower_role::services::condition_eval::CacheData;
use twitch_follower_role::services::rule_validator::{
    ConditionGroupInput, ConditionInput, RuleTreeBody,
};
use twitch_follower_role::services::sync::{ConfigSyncEvent, UserSyncEvent};
use twitch_follower_role::services::twitch::{
    EventSubSubscription, FollowerInfo, SubInfo, TwitchUser,
};
use twitch_follower_role::time::Timestamp;

fn at(secs: i64) -> Timestamp {
    Timestamp { secs, nanos: 0 }
}

fn some(s: &str) -> Option<String> {
    Some(s.to_string())
}

fn config() -> AppConfig {
    AppConfig::from_env(EnvVars {
        base_url: some("https://x.example/twitch-follower-role"),
        auth_gateway_url: None,
        rl_dashboard_origin: None,
        database_url: some("db"),
        session_secret: some("session"),
        twitch_client_id: some("client"),
        twitch_client_secret: some("secret"),
        twitch_eventsub_secret: some("s3cret"),
        listen_addr: None,
        internal_api_key: some("key"),
    })
    .ok()
    .unwrap()
}

fn text(doc: &JsonValue, key: &str) -> String {
    doc.text_at(key).unwrap()
}

// --- webhooks ---

const SIGNATURE: &str = "sha256=a66da6532026d6618500714309035b10641df7571b85ba117e86b38bbba5964a";

fn headers(kind: &str) -> WebhookHeaders {
    WebhookHeaders {
        message_id: some("msg-1"),
        timestamp: some("2024-01-01T00:00:00Z"),
        signature: some(SIGNATURE),
        message_type: some(kind),
    }
}

#[test]
fn webhook_answers_a_signed_challenge() {
    let body = br#"{"challenge":"abc"}"#;
    let now = at(1_704_067_260);
    let outcome = handle_at(&headers("webhook_callback_verification"), body, "s3cret", now);
    assert_eq!(outcome, WebhookOutcome::Challenge("abc".into()));
    assert_eq!(
        handle_at(&headers("something"), body, "s3cret", now),
        WebhookOutcome::Status(400)
    );
    assert_eq!(
        handle_at(&headers("notification"), body, "s3cret", now),
        WebhookOutcome::Status(204)
    );
}

#[test]
fn webhook_refuses_unsigned_messages() {
    let body = br#"{"challenge":"abc"}"#;
    let now = at(1_704_067_200);
    for missing in 0..4 {
        let mut h = headers("notification");
        match missing {
            0 => h.message_id = None,
            1 => h.timestamp = None,
            2 => h.signature = None,
            _ => h.message_type = None,
        }
        assert_eq!(handle_at(&h, body, "s3cret", now), WebhookOutcome::Status(400));
        assert_eq!(eventsub_handler(&h, body, "s3cret"), WebhookOutcome::Status(400));
    }
    let h = headers("webhook_callback_verification");
    assert_eq!(handle_at(&h, body, "wrong", now), WebhookOutcome::Status(403));
    assert_eq!(handle_at(&h, body, "s3cret", at(1_704_068_200)), WebhookOutcome::Status(403));
    // By the clock the message is stale.
    assert_eq!(eventsub_handler(&h, body, "s3cret"), WebhookOutcome::Status(403));
}

#[test]
fn webhook_accepts_a_fresh_message() {
    let timestamp = Utc::now().to_rfc3339();
    let body = b"not json";
    let mut mac = Hmac::<Sha256>::new_from_slice(b"s3cret").unwrap();
    mac.update(b"msg-9");
    mac.update(timestamp.as_bytes());
    mac.update(body);
    let signature = format!("sha256={}", hex::encode(mac.finalize().into_bytes()));
    let h = WebhookHeaders {
        message_id: some("msg-9"),
        timestamp: Some(timestamp),
        signature: Some(signature),
        message_type: some("notification"),
    };
    // It is signed and recent, but it is not JSON.
    assert_eq!(eventsub_handler(&h, body, "s3cret"), WebhookOutcome::Status(400));
}

fn notification(kind: &str, event: JsonValue) -> WebhookOutcome {
    let payload = JsonValue::object()
        .with("subscription", JsonValue::object().with("type", JsonValue::text(kind)))
        .with("event", event);
    dispatch("notification", &payload)
}

fn event() -> JsonValue {
    JsonValue::object()
        .with("user_id", JsonValue::text("u1"))
        .with("broadcaster_user_id", JsonValue::text("b1"))
}

#[test]
fn webhook_reads_notifications() {
    let followed = event().with("followed_at", JsonValue::text("2024-01-01T00:00:00Z"));
    assert_eq!(
        notification("channel.follow", followed),
        WebhookOutcome::Followed {
            user_id: "u1".into(),
            broadcaster_id: "b1".into(),
            followed_at: Some(at(1_704_067_200)),
        }
    );
    assert_eq!(
        notification("channel.follow", event()),
        WebhookOutcome::Followed {
            user_id: "u1".into(),
            broadcaster_id: "b1".into(),
            followed_at: None,
        }
    );
    assert_eq!(
        notification("channel.subscribe", event().with("tier", JsonValue::text("2000"))),
        WebhookOutcome::Subscribed {
            user_id: "u1".into(),
            broadcaster_id: "b1".into(),
            tier: 2000,
        }
    );
    assert_eq!(
        notification("channel.subscribe", event().with("tier", JsonValue::Int(2000))),
        WebhookOutcome::Subscribed { user_id: "u1".into(), broadcaster_id: "b1".into(), tier: 0 }
    );
    assert_eq!(
        notification("channel.subscription.end", event()),
        WebhookOutcome::SubscriptionEnded { user_id: "u1".into(), broadcaster_id: "b1".into() }
    );
    assert_eq!(notification("channel.raid", event()), WebhookOutcome::Status(204));
    let nobody = JsonValue::object().with("user_id", JsonValue::text("u1"));
    assert_eq!(notification("channel.follow", nobody), WebhookOutcome::Status(204));
    let revoked = JsonValue::object()
        .with("subscription", JsonValue::object().with("id", JsonValue::text("s1")));
    assert_eq!(
        dispatch("revocation", &revoked),
        WebhookOutcome::Revoked { subscription_id: "s1".into() }
    );
    assert_eq!(
        dispatch("revocation", &JsonValue::Null),
        WebhookOutcome::Revoked { subscription_id: "".into() }
    );
}

// --- OAuth ---

#[test]
fn state_tokens_are_lower_case_and_alphanumeric() {
    let token = new_state_token();
    assert_eq!(token.len(), 32);
    assert!(token.chars().all(|c| c.is_ascii_digit() || c.is_ascii_lowercase()));
    assert_ne!(token, new_state_token());
    assert_eq!(token_of(&vec![0, 9, 10, 35]), "09az");
}

#[test]
fn authorize_url_is_encoded() {
    assert_eq!(
        authorize_url("id", "https://x/y?z=1 2", "a+b", "st"),
        "https://id.twitch.tv/oauth2/authorize?client_id=id&redirect_uri=https%3A%2F%2Fx%2Fy%3Fz%3D1%202\
         &response_type=code&scope=a+b&state=st&force_verify=true"
    );
}

// --- connecting a channel ---

fn link() -> ConnectQuery {
    ConnectQuery { guild_id: "g1".into(), role_id: "r1".into() }
}

#[test]
fn connect_needs_a_role_link() {
    let refused = connect(&config(), &link(), false);
    assert_eq!(refused.err(), Some(AppError::NotFound("Role link not found".into())));
    let start = connect(&config(), &link(), true).ok().unwrap();
    assert_eq!(start.state.len(), 32);
    assert!(start.url.contains(
        "&scope=moderator%3Aread%3Afollowers+channel%3Aread%3Asubscriptions&state="
    ));
    assert!(start.url.contains(&start.state));
    assert_eq!(text(&start.redirect_data, "type"), "broadcaster");
    // Whoever comes back with this data comes for the same role link.
    let back = connection_request(&Some(start.redirect_data)).ok().unwrap();
    assert_eq!((back.guild_id.as_str(), back.role_id.as_str()), ("g1", "r1"));
    let fixed = start_broadcaster(&config(), "g", "r", "s", "state".into());
    assert_eq!(
        fixed.url,
        "https://id.twitch.tv/oauth2/authorize?client_id=client&redirect_uri=\
         https%3A%2F%2Fx.example%2Ftwitch-follower-role%2Fconnect%2Fcallback\
         &response_type=code&scope=s&state=state&force_verify=true"
    );
}

#[test]
fn connection_data_must_be_complete() {
    assert_eq!(
        connection_request(&None).err(),
        Some(AppError::BadRequest("Invalid or expired OAuth state".into()))
    );
    assert_eq!(
        connection_request(&Some(JsonValue::object())).err(),
        Some(AppError::Internal("Missing guild_id in state".into()))
    );
    let guild = JsonValue::object().with("guild_id", JsonValue::text("g"));
    assert_eq!(
        connection_request(&Some(guild)).err(),
        Some(AppError::Internal("Missing role_id in state".into()))
    );
}

fn user(id: &str) -> TwitchUser {
    TwitchUser { id: id.into(), login: "login".into(), display_name: "Login".into() }
}

#[test]
fn unknown_states_start_nothing() {
    let refusal = AppError::BadRequest("Invalid or expired OAuth state".into());
    let connect = ConnectFlow::start(&None).next(ConnectReply::Tokens(Ok(("a".into(), some("r")))));
    assert!(matches!(connect, ConnectFlow::Failed(e) if e == refusal));
    let link = LinkFlow::start(&None, None).next(LinkReply::Tokens(Ok(("a".into(), None))));
    assert!(matches!(link, LinkFlow::Failed(e) if e == refusal));
    assert_eq!(STATE_LIFETIME_SECS, 600);
    // A known state starts with the exchange of the code.
    let start = start_broadcaster(&config(), "g", "r", "s", "state".into());
    assert!(matches!(
        ConnectFlow::start(&Some(start.redirect_data)),
        ConnectFlow::ExchangeCode { link } if link.guild_id == "g" && link.role_id == "r"
    ));
    let data = JsonValue::object().with("discord_id", JsonValue::text("d1"));
    assert!(matches!(
        LinkFlow::start(&Some(data), Some(("d1".into(), "Name".into()))),
        LinkFlow::ExchangeCode { link }
            if link.discord_id == "d1" && link.discord_name.as_deref() == Some("Name")
    ));
}

#[test]
fn connect_flow_runs_its_course() {
    let start = || ConnectFlow::ExchangeCode { link: link() };
    let state = start()
        .next(ConnectReply::Tokens(Ok(("a".into(), some("r")))))
        .next(ConnectReply::User(Ok(user("b1"))));
    match &state {
        ConnectFlow::StoreChannel { access_token, refresh_token, broadcaster, .. } => {
            assert_eq!((access_token.as_str(), refresh_token.as_str()), ("a", "r"));
            assert_eq!(broadcaster.id, "b1");
        }
        _ => panic!("the channel is stored"),
    }
    let state = state.next(ConnectReply::Done(Ok(()))).next(ConnectReply::Done(Ok(())));
    assert!(matches!(state, ConnectFlow::Connected { .. }));
    let failed = start().next(ConnectReply::Tokens(Ok(("a".into(), None))));
    assert!(matches!(
        failed,
        ConnectFlow::Failed(AppError::TwitchApi(m)) if m == "No refresh token returned for broadcaster"
    ));
    let failed = start().next(ConnectReply::Tokens(Err(AppError::TwitchApi("x".into()))));
    assert!(matches!(failed, ConnectFlow::Failed(_)));
    assert_eq!(
        connected_event(link()),
        ConfigSyncEvent { guild_id: "g1".into(), role_id: "r1".into() }
    );
}

#[test]
fn done_page_escapes_the_login() {
    let page = done_page("{{BASE_URL}}|{{TWITCH_LOGIN}}|{{GUILD_ID}}|{{BASE_URL}}", "u", "<a>", "7");
    assert_eq!(page, "u|&lt;a&gt;|7|u");
}

#[test]
fn orphans_are_cleaned_up() {
    let finished = |s: &OrphanCleanup| matches!(s, OrphanCleanup::Finished);
    assert!(finished(&OrphanCleanup::CheckReferences.next(CleanupReply::Referenced(Some(true)))));
    assert!(finished(&OrphanCleanup::CheckReferences.next(CleanupReply::Referenced(None))));
    let state = OrphanCleanup::CheckReferences.next(CleanupReply::Referenced(Some(false)));
    assert!(matches!(state, OrphanCleanup::DeleteSubscriptions));
    let state = state.next(CleanupReply::Deleted(vec!["s1".into()]));
    let state = state.next(CleanupReply::AppToken(some("t")));
    assert!(matches!(
        &state,
        OrphanCleanup::DeleteAtTwitch { subscription_ids, app_token }
            if subscription_ids.len() == 1 && app_token == "t"
    ));
    let state = state.next(CleanupReply::Done);
    assert!(matches!(state, OrphanCleanup::DropCache));
    assert!(finished(&state.next(CleanupReply::Done)));
    let none = OrphanCleanup::DeleteSubscriptions.next(CleanupReply::Deleted(vec![]));
    assert!(matches!(none, OrphanCleanup::DropCache));
    let no_token = OrphanCleanup::FetchAppToken { subscription_ids: vec!["s1".into()] }
        .next(CleanupReply::AppToken(None));
    assert!(matches!(no_token, OrphanCleanup::DropCache));
}

#[test]
fn channel_events_are_set_up_one_by_one() {
    let requests = eventsub_requests("b1");
    let kinds: Vec<(&str, &str)> = requests.iter().map(|r| (r.event_type, r.version)).collect();
    assert_eq!(
        kinds,
        vec![("channel.follow", "2"), ("channel.subscribe", "1"), ("channel.subscription.end", "1")]
    );
    assert_eq!(text(&requests[0].condition, "moderator_user_id"), "b1");
    assert!(requests[1].condition.get("moderator_user_id").is_none());
    assert_eq!(callback_url("https://x"), "https://x/webhooks/twitch");
    let state = EventSubSetup::FetchAppToken.next(SetupReply::AppToken(Ok("t".into())));
    // The first one exists already, the second one fails, the third one is made.
    let state = state.next(SetupReply::Exists(Some(true)));
    assert!(matches!(&state, EventSubSetup::Check { index: 1, .. }));
    let state = state
        .next(SetupReply::Exists(None))
        .next(SetupReply::Created(Err(AppError::TwitchApi("x".into()))));
    assert!(matches!(&state, EventSubSetup::Check { index: 2, .. }));
    let made = EventSubSubscription { id: "s".into(), status: "enabled".into() };
    let state = state.next(SetupReply::Exists(Some(false))).next(SetupReply::Created(Ok(made)));
    assert!(matches!(&state, EventSubSetup::Store { index: 2, .. }));
    assert!(matches!(state.next(SetupReply::Done), EventSubSetup::Finished));
    let failed = EventSubSetup::FetchAppToken
        .next(SetupReply::AppToken(Err(AppError::TwitchApi("x".into()))));
    assert!(matches!(failed, EventSubSetup::Failed(_)));
}

// --- the plugin API ---

#[test]
fn tokens_are_taken_from_the_header() {
    assert_eq!(extract_token(Some("Token abc")).ok(), some("abc"));
    assert_eq!(extract_token(Some("Bearer abc")).err(), Some(AppError::Unauthorized));
    assert_eq!(extract_token(None).err(), Some(AppError::Unauthorized));
    let body = || RegisterBody { guild_id: "g".into(), role_id: "r".into() };
    let registered = register(Some("Token t"), body()).ok().unwrap();
    assert_eq!(registered.api_token, "t");
    assert_eq!(registered.role_id, "r");
    assert_eq!(register(Some("t"), body()).err(), Some(AppError::Unauthorized));
    assert_eq!(success_reply().get("success"), Some(&JsonValue::Bool(true)));
}

#[test]
fn config_is_shown_and_deleted_by_token() {
    let stored = ConfigLink {
        guild_id: "1".into(),
        role_id: "2".into(),
        conditions: TwitchConditions {
            require_follower: true,
            min_follow_days: 0,
            require_subscriber: false,
            min_sub_tier: 1,
        },
        broadcaster_id: some("42"),
        broadcaster_login: None,
    };
    let doc = get_config("https://x", &Some(stored)).ok().unwrap();
    let sections = match doc.get("sections") {
        Some(JsonValue::Array(sections)) => sections,
        _ => panic!("the form has sections"),
    };
    let shown = match sections[0].get("fields") {
        Some(JsonValue::Array(fields)) => text(&fields[0], "value"),
        _ => panic!("a section has fields"),
    };
    assert_eq!(
        shown,
        "No Twitch channel connected.\nThe channel owner must authorize this plugin:\n\
         https://x/connect?guild_id=1&role_id=2"
    );
    assert_eq!(get_config("https://x", &None).err(), Some(AppError::Unauthorized));
    assert_eq!(post_config(Some(true)).ok(), Some(success_reply()));
    assert_eq!(post_config(Some(false)).err(), Some(AppError::Unauthorized));
    assert_eq!(post_config(None).err(), Some(AppError::Unauthorized));
    assert_eq!(delete_config(1, some("42")).ok(), Some(some("42")));
    assert_eq!(delete_config(0, some("42")).err(), Some(AppError::Unauthorized));
    assert_eq!(verify_url("https://x", "1"), "https://x/verify?guild=1");
}

// --- the users list ---

#[test]
fn users_list_is_gated() {
    assert_eq!(view_permission(None), "managers");
    assert_eq!(view_permission(some("members")), "members");
    assert!(require_enabled("members").is_ok());
    assert_eq!(
        require_enabled("disabled").err(),
        Some(AppError::Forbidden("The user list is disabled for this server.".into()))
    );
    assert!(require_viewer("members", true, false).is_ok());
    assert!(require_viewer("managers", true, true).is_ok());
    assert_eq!(
        require_viewer("managers", true, false).err(),
        Some(AppError::Forbidden("This list is visible to server managers only.".into()))
    );
    assert_eq!(
        require_viewer("members", false, true).err(),
        Some(AppError::Forbidden("You're not a member of this server.".into()))
    );
    assert!(require_viewer("disabled", true, true).is_err());
    assert_eq!(users_page("{{GUILD_ID}} at {{BASE_URL}}", "u", "7"), "7 at u");
}

fn asked(permission: Option<&str>) -> UsersFlow {
    let stored = permission.map(String::from);
    UsersFlow::FindPermission.next("g", UsersReply::Permission(Ok(stored)))
}

fn standing(is_member: bool, is_manager: bool) -> UsersReply {
    UsersReply::Caller(Ok(Standing { is_member, is_manager }))
}

#[test]
fn users_list_is_reached_step_by_step() {
    let state = asked(None);
    assert!(matches!(&state, UsersFlow::CheckCaller { permission } if permission == "managers"));
    let state = state.next("g", standing(true, true));
    assert!(matches!(&state, UsersFlow::FetchMembers));
    let members = vec!["d1".to_string(), "d2".to_string()];
    let state = state.next("g", UsersReply::Members(Ok((members.clone(), some("Guild")))));
    match &state {
        UsersFlow::FetchRows { member_ids, guild_name } => {
            assert_eq!(*member_ids, members);
            assert_eq!(*guild_name, some("Guild"));
        }
        _ => panic!("the rows are read"),
    }
    let row = UserRow {
        discord_id: "d1".into(),
        discord_name: None,
        username: "ann".into(),
        is_follower: true,
        is_subscriber: false,
        sub_tier: 0,
        followed_at: None,
        linked_at: at(0),
    };
    match state.next("g", UsersReply::Rows(Ok(vec![row]))) {
        UsersFlow::Listed(doc) => {
            assert_eq!(text(&doc, "guild_id"), "g");
            assert_eq!(text(&doc, "guild_name"), "Guild");
            assert_eq!(doc.get("count"), Some(&JsonValue::Int(1)));
        }
        _ => panic!("the list is answered"),
    }
    assert!(matches!(
        asked(Some("members")).next("g", standing(true, false)),
        UsersFlow::FetchMembers
    ));
}

#[test]
fn refused_callers_get_no_list() {
    let refused = |state: UsersFlow, reason: &str| {
        // Nothing that comes later opens the list.
        let state = state
            .next("g", standing(true, true))
            .next("g", UsersReply::Members(Ok((vec![], None))))
            .next("g", UsersReply::Rows(Ok(vec![])));
        assert!(matches!(state, UsersFlow::Failed(AppError::Forbidden(m)) if m == reason));
    };
    refused(asked(Some("disabled")), "The user list is disabled for this server.");
    refused(
        asked(Some("managers")).next("g", standing(true, false)),
        "This list is visible to server managers only.",
    );
    refused(
        asked(Some("members")).next("g", standing(false, true)),
        "You're not a member of this server.",
    );
    // No step is left out.
    let early = UsersFlow::FindPermission
        .next("g", standing(true, true))
        .next("g", UsersReply::Rows(Ok(vec![])));
    assert!(matches!(early, UsersFlow::FindPermission));
}

#[test]
fn users_list_passes_failures_on() {
    let down = || AppError::Database("down".into());
    let failed = |state: UsersFlow| matches!(state, UsersFlow::Failed(e) if e == down());
    let let_in = || asked(Some("members")).next("g", standing(true, false));
    let rows = || let_in().next("g", UsersReply::Members(Ok((vec![], None))));
    assert!(failed(UsersFlow::FindPermission.next("g", UsersReply::Permission(Err(down())))));
    assert!(failed(asked(None).next("g", UsersReply::Caller(Err(down())))));
    assert!(failed(let_in().next("g", UsersReply::Members(Err(down())))));
    assert!(failed(rows().next("g", UsersReply::Rows(Err(down())))));
}

#[test]
fn users_list_shows_the_relationship() {
    let rows = vec![
        UserRow {
            discord_id: "d1".into(),
            discord_name: some("Ann"),
            username: "ann".into(),
            is_follower: true,
            is_subscriber: true,
            sub_tier: 2000,
            followed_at: Some(at(1_704_067_200)),
            linked_at: Timestamp { secs: 1_704_067_200, nanos: 500_000_000 },
        },
        UserRow {
            discord_id: "d2".into(),
            discord_name: None,
            username: "bob".into(),
            is_follower: false,
            is_subscriber: false,
            sub_tier: 0,
            followed_at: None,
            linked_at: at(0),
        },
    ];
    let doc = users_data("g", &some("Guild"), &rows);
    assert_eq!(doc.get("count"), Some(&JsonValue::Int(2)));
    assert_eq!(text(&doc, "guild_name"), "Guild");
    let users = match doc.get("users") {
        Some(JsonValue::Array(users)) => users,
        _ => panic!("the list holds users"),
    };
    assert_eq!(users[0].get("sub_tier"), Some(&JsonValue::Int(2)));
    assert_eq!(text(&users[0], "followed_at"), "2024-01-01T00:00:00+00:00");
    assert_eq!(text(&users[0], "linked_at"), "2024-01-01T00:00:00.500+00:00");
    assert_eq!(users[1].get("discord_name"), Some(&JsonValue::Null));
    assert_eq!(users[1].get("followed_at"), Some(&JsonValue::Null));
    assert_eq!(text(&users[1], "linked_at"), "1970-01-01T00:00:00+00:00");
}

#[test]
fn view_permission_is_validated() {
    for p in ["disabled", "managers", "members"] {
        let (stored, reply) =
            set_view_permission(ViewPermBody { view_permission: p.into() }).ok().unwrap();
        assert_eq!(stored, p);
        assert_eq!(text(&reply, "view_permission"), p);
    }
    assert_eq!(
        set_view_permission(ViewPermBody { view_permission: "all".into() }).err(),
        Some(AppError::BadRequest(
            "Unknown view_permission 'all' (expected disabled|managers|members).".into()
        ))
    );
}

// --- verification ---

#[test]
fn verify_page_is_rendered() {
    let page = render_verify_page("https://x/y");
    assert!(page.starts_with("<!DOCTYPE html>\n<html>\n<head>"));
    assert!(page.ends_with("</html>"));
    assert!(page.contains("href=\"https://x/y/favicon.ico\""));
    assert!(page.contains("fetch('https://x/y/verify/unlink', {method:'POST'"));
    assert!(!page.contains("{{") && !page.contains("{base_url}"));
    assert_eq!(page.matches("https://x/y").count(), 9);
    assert_eq!(login(), "/auth/login?return_to=%2Ftwitch-follower-role%2Fverify");
}

#[test]
fn status_tells_who_is_signed_in() {
    let session = Some(("d1".to_string(), "Ann".to_string()));
    let doc = status(&session, &some("ann"));
    assert_eq!(text(&doc, "discord_id"), "d1");
    assert_eq!(text(&doc, "discord_name"), "Ann");
    assert_eq!(text(&doc, "twitch_login"), "ann");
    let nobody = status(&None, &None);
    assert_eq!(nobody.get("discord_id"), Some(&JsonValue::Null));
    assert_eq!(nobody.get("twitch_login"), Some(&JsonValue::Null));
    assert_eq!(get_session(None).err(), Some(AppError::Unauthorized));
    assert_eq!(get_session(session.clone()).ok(), session);
}

#[test]
fn guilds_are_snowflakes() {
    assert_eq!(guild_in(some("12345")), some("12345"));
    assert_eq!(guild_in(some("1234")), None);
    assert_eq!(guild_in(some("12345678901234567890123456")), None);
    assert_eq!(guild_in(some("12345a")), None);
    assert_eq!(guild_in(some("١٢٣٤٥")), None);
    assert_eq!(guild_in(None), None);
    let query = VerifyChannelsQuery { guild: some("777777") };
    assert_eq!(verify_channels(query), some("777777"));
    let doc = channels_reply(&vec!["ann".to_string(), "bob".to_string()]);
    match doc.get("channels") {
        Some(JsonValue::Array(channels)) => {
            assert_eq!(channels.len(), 2);
            assert_eq!(text(&channels[1], "login"), "bob");
        }
        _ => panic!("the channels are listed"),
    }
    assert_eq!(channels_reply(&vec![]).get("channels"), Some(&JsonValue::array()));
}

#[test]
fn members_survive_the_round_trip() {
    let query = TwitchLoginQuery { guild: some("123456") };
    let start = twitch_login(&config(), "d1", query);
    assert!(start.url.contains("&response_type=code&scope=&state="));
    assert!(start.url.contains(&start.state));
    let session = Some(("d1".to_string(), "Ann".to_string()));
    let back = link_request(&Some(start.redirect_data), session).ok().unwrap();
    assert_eq!(back.discord_id, "d1");
    assert_eq!(back.guild_id, some("123456"));
    assert_eq!(back.discord_name, some("Ann"));
    // An invalid guild is not carried along, and another session's name is
    // not taken.
    let start = start_member(&config(), "d1", &guild_in(some("x")), "state".into());
    assert!(start.url.ends_with("&state=state&force_verify=true"));
    let other = Some(("d2".to_string(), "Bob".to_string()));
    let back = link_request(&Some(start.redirect_data), other).ok().unwrap();
    assert_eq!(back.guild_id, None);
    assert_eq!(back.discord_name, None);
    assert_eq!(
        link_request(&None, None).err(),
        Some(AppError::BadRequest("Invalid or expired OAuth state".into()))
    );
    assert_eq!(
        link_request(&Some(JsonValue::object()), None).err(),
        Some(AppError::Internal("Missing discord_id in state".into()))
    );
}

fn request() -> LinkRequest {
    LinkRequest { discord_id: "d1".into(), guild_id: some("123456"), discord_name: None }
}

fn found(owner: Option<&str>) -> LinkFlow {
    LinkFlow::ExchangeCode { link: request() }
        .next(LinkReply::Tokens(Ok(("a".into(), None))))
        .next(LinkReply::User(Ok(user("t1"))))
        .next(LinkReply::Owner(Ok(owner.map(String::from))))
}

fn channels(n: usize) -> Vec<ChannelToken> {
    (0..n)
        .map(|i| ChannelToken { broadcaster_id: format!("b{i}"), access_token: format!("t{i}") })
        .collect()
}

fn checked(following: bool) -> LinkReply {
    LinkReply::Checked {
        follower: Ok(if following { Some(FollowerInfo { followed_at: at(1) }) } else { None }),
        sub: Ok(Some(SubInfo { tier: 1000 })),
    }
}

fn unchecked() -> LinkReply {
    LinkReply::Checked { follower: Err(AppError::TwitchApi("x".into())), sub: Ok(None) }
}

#[test]
fn accounts_are_linked_to_one_user() {
    assert!(matches!(found(None), LinkFlow::ReplaceLink { .. }));
    assert!(matches!(found(Some("d1")), LinkFlow::RefreshLink { .. }));
    assert!(matches!(
        found(Some("d2")),
        LinkFlow::Failed(AppError::BadRequest(m))
            if m == "This Twitch account is already linked to another Discord user"
    ));
    let failed = LinkFlow::ExchangeCode { link: request() }
        .next(LinkReply::Tokens(Err(AppError::TwitchApi("x".into()))));
    assert!(matches!(failed, LinkFlow::Failed(_)));
    let failed = found(None).next(LinkReply::Done(Err(AppError::Database("x".into()))));
    assert!(matches!(failed, LinkFlow::Failed(AppError::Database(_))));
}

#[test]
fn linking_syncs_at_once_when_the_status_is_known() {
    let ready = || {
        found(None).next(LinkReply::Done(Ok(()))).next(LinkReply::Done(Ok(())))
    };
    assert!(matches!(ready(), LinkFlow::FindChannels { .. }));
    let queued = ready().next(LinkReply::Channels(vec![]));
    assert!(matches!(queued, LinkFlow::QueueSync { .. }));
    let state = ready().next(LinkReply::Channels(channels(2)));
    assert!(matches!(&state, LinkFlow::CheckChannel { index: 0, known: false, .. }));
    let state = state.next(checked(true));
    match &state {
        LinkFlow::StoreFacts { facts, .. } => {
            assert!(facts.is_following);
            assert_eq!(facts.sub_tier, 1000);
        }
        _ => panic!("the facts are stored"),
    }
    let state = state.next(LinkReply::Stored(true));
    assert!(matches!(&state, LinkFlow::CheckChannel { index: 1, known: true, .. }));
    let state = state.next(unchecked());
    assert!(matches!(&state, LinkFlow::SyncNow { .. }));
    match state.next(LinkReply::Synced(true)) {
        LinkFlow::Linked { guild_id } => {
            assert_eq!(linked_page(&guild_id), "/twitch-follower-role/verify?guild=123456");
        }
        _ => panic!("the member is sent back"),
    }
    let state = LinkFlow::SyncNow { link: request() }.next(LinkReply::Synced(false));
    assert!(matches!(&state, LinkFlow::QueueSync { .. }));
    assert!(matches!(state.next(LinkReply::Done(Ok(()))), LinkFlow::Linked { .. }));
    let state = ready()
        .next(LinkReply::Channels(channels(1)))
        .next(checked(false))
        .next(LinkReply::Stored(false));
    assert!(matches!(state, LinkFlow::QueueSync { .. }));
    assert_eq!(linked_page(&None), "/twitch-follower-role/verify");
    assert_eq!(
        linked_event("d1".into()),
        UserSyncEvent::AccountLinked { discord_id: "d1".into() }
    );
}

#[test]
fn fresh_links_are_rechecked() {
    let none = CacheData { is_following: false, followed_at: None, is_subscribed: false, sub_tier: 0 };
    let subscribed = CacheData { is_subscribed: true, ..none };
    assert_eq!(first_recheck_at(&none, at(1000)).secs, 1090);
    assert_eq!(first_recheck_at(&subscribed, at(1000)).secs, 2800);
    assert!(first_recheck(&none).secs > 1_700_000_000);
    assert_eq!(
        unlink("d1".into(), 1),
        Some(UserSyncEvent::AccountUnlinked { discord_id: "d1".into() })
    );
    assert_eq!(unlink("d1".into(), 0), None);
    assert_eq!(refresh(2).get("refreshed"), Some(&JsonValue::Bool(true)));
    assert_eq!(refresh(0).get("refreshed"), Some(&JsonValue::Bool(false)));
}

// --- the rule builder ---

fn access(read_only: bool) -> RoleConfigAccess {
    RoleConfigAccess { discord_id: "d1".into(), read_only }
}

fn session(guild: &str, role: &str) -> IframeSession {
    IframeSession {
        discord_id: "d1".into(),
        guild_id: guild.into(),
        role_id: role.into(),
        read_only: true,
    }
}

#[test]
fn access_is_bound_to_the_role_link() {
    let check = |caller: Caller| require_role_config_access(caller, "g", "r");
    let ok = check(Caller::Bearer(Some(session("g", "r")))).ok().unwrap();
    assert!(ok.read_only);
    assert_eq!(ok.discord_id, "d1");
    assert_eq!(
        check(Caller::Bearer(Some(session("g", "other")))).err(),
        Some(AppError::Forbidden("Token does not grant access to this role link.".into()))
    );
    assert_eq!(
        check(Caller::Bearer(None)).err(),
        Some(AppError::UnauthorizedWith(
            "Your session expired. Reopen the plugin in the RoleLogic dashboard.".into()
        ))
    );
    assert!(!check(Caller::Cookie(Ok("d2".into()))).ok().unwrap().read_only);
    assert_eq!(
        check(Caller::Cookie(Err(AppError::Unauthorized))).err(),
        Some(AppError::Unauthorized)
    );
    assert!(require_write(&access(false)).is_ok());
    assert_eq!(
        require_write(&access(true)).err(),
        Some(AppError::Forbidden(
            "This configuration is read-only while impersonating a user.".into()
        ))
    );
}

#[test]
fn channels_are_connected_from_the_page() {
    let (start, reply) = broadcaster_connect(&config(), &access(false), "g", "r", true).ok().unwrap();
    assert!(start.url.contains(
        "&scope=moderator%3Aread%3Afollowers%20channel%3Aread%3Asubscriptions&state="
    ));
    assert_eq!(text(&reply, "authorize_url"), start.url);
    assert_eq!(
        broadcaster_connect(&config(), &access(false), "g", "r", false).err(),
        Some(AppError::NotFound(
            "This role link doesn't exist. Has it been added in RoleLogic?".into()
        ))
    );
    assert_eq!(
        broadcaster_connect(&config(), &access(true), "g", "r", false).err(),
        Some(AppError::Forbidden(
            "This configuration is read-only while impersonating a user.".into()
        ))
    );
    let (event, reply) = broadcaster_disconnect("g".into(), "r".into());
    assert_eq!(event, ConfigSyncEvent { guild_id: "g".into(), role_id: "r".into() });
    assert_eq!(reply.get("removed"), Some(&JsonValue::Bool(true)));
}

#[test]
fn channels_are_disconnected_from_the_page() {
    let found = |channel: Option<&str>| {
        DisconnectFlow::start(&access(false))
            .next(DisconnectReply::Channel(Ok(channel.map(String::from))))
    };
    let done = || DisconnectReply::Done(Ok(()));
    let failed = || DisconnectReply::Done(Err(AppError::Internal("x".into())));
    let state = found(Some("b1")).next(done());
    assert!(matches!(&state, DisconnectFlow::CleanUp { broadcaster_id } if broadcaster_id == "b1"));
    assert!(matches!(state.next(done()), DisconnectFlow::Disconnected));
    assert!(matches!(found(None).next(done()), DisconnectFlow::Disconnected));
    assert!(matches!(found(Some("b1")).next(failed()), DisconnectFlow::Failed(_)));
    let lost = DisconnectReply::Channel(Err(AppError::Internal("x".into())));
    assert!(matches!(DisconnectFlow::FindChannel.next(lost), DisconnectFlow::Failed(_)));
    let refused = DisconnectFlow::start(&access(true));
    assert!(matches!(
        refused.next(DisconnectReply::Channel(Ok(None))),
        DisconnectFlow::Failed(AppError::Forbidden(_))
    ));
}

#[test]
fn page_is_entered_by_token_or_directly() {
    let entry = |t: Option<&str>| page_entry(RoleConfigPageQuery { rl_token: t.map(String::from) });
    assert!(matches!(entry(Some("t")), PageEntry::Iframe { rl_token } if rl_token == "t"));
    assert!(matches!(entry(Some("")), PageEntry::Direct));
    assert!(matches!(entry(None), PageEntry::Direct));
    assert_eq!(entry_key(Ok(some("k"))), Ok("k".to_string()));
    assert_eq!(
        entry_key(Ok(None)),
        Err("This role link isn't registered with this plugin yet.".to_string())
    );
    assert_eq!(entry_key(Err("down".into())), Err("Database error: down".to_string()));
    let token = || VerifiedToken {
        discord_id: "d".into(),
        guild_id: "g".into(),
        role_id: "r".into(),
        read_only: false,
    };
    let check = |v: Result<VerifiedToken, RlTokenError>, role: &str| {
        verify_iframe_entry(v, "g", role)
    };
    assert_eq!(check(Ok(token()), "r").ok().unwrap().discord_id, "d");
    assert_eq!(
        check(Ok(token()), "x").err(),
        some("Token does not match this role link.")
    );
    assert_eq!(
        check(Err(RlTokenError::Expired), "r").err(),
        some("Your session expired. Reopen the plugin in the RoleLogic dashboard.")
    );
    assert_eq!(check(Err(RlTokenError::BadSignature), "r").err(), some("Invalid auth token."));
    assert_eq!(check(Err(RlTokenError::Malformed), "r").err(), some("Invalid auth token."));
    assert_eq!(
        check(Err(RlTokenError::WrongAudience), "r").err(),
        some("Token is for a different plugin.")
    );
    assert_eq!(
        check(Err(RlTokenError::WrongIssuer), "r").err(),
        some("Token was not issued by RoleLogic.")
    );
}

fn page_context() -> PageContext<'static> {
    PageContext {
        template: "__BASE_URL__ __GUILD_ID__ __ROLE_ID__ __IFRAME_TOKEN__ __READ_ONLY__",
        base_url: "u",
        guild_id: "g",
        role_id: "r",
        sec_fetch_dest: None,
        sec_fetch_site: None,
    }
}

fn enter(rl_token: Option<&str>) -> PageFlow {
    PageFlow::start(RoleConfigPageQuery { rl_token: rl_token.map(String::from) })
}

fn verified(role: &str, read_only: bool) -> PageReply {
    PageReply::Verified(Ok(VerifiedToken {
        discord_id: "d".into(),
        guild_id: "g".into(),
        role_id: role.into(),
        read_only,
    }))
}

fn answered(state: PageFlow) -> Page {
    match state {
        PageFlow::Answer(page) => page,
        _ => panic!("a page is answered"),
    }
}

#[test]
fn tokens_open_the_page() {
    let context = page_context();
    for (read_only, flag) in [(false, "0"), (true, "1")] {
        let state = enter(Some("t")).next(&context, PageReply::Key(Ok(some("k"))));
        assert!(matches!(
            &state,
            PageFlow::VerifyToken { rl_token, key } if rl_token == "t" && key == "k"
        ));
        let state = state.next(&context, verified("r", read_only));
        assert!(matches!(
            &state,
            PageFlow::MintSession { token } if token.discord_id == "d" && token.read_only == read_only
        ));
        let page = answered(state.next(&context, PageReply::Session("ifs:x".into())));
        assert_eq!(page.status, 200);
        assert_eq!(page.html, format!("u g r ifs:x {flag}"));
    }
}

#[test]
fn bad_tokens_get_the_error_page() {
    let context = page_context();
    let refused = |state: PageFlow, message: &str| {
        let page = answered(state);
        let expected = render_inline_error("u", message);
        assert_eq!((page.status, page.html), (403, expected.html));
    };
    let find = || enter(Some("t"));
    let verify = || find().next(&context, PageReply::Key(Ok(some("k"))));
    refused(
        find().next(&context, PageReply::Key(Ok(None))),
        "This role link isn't registered with this plugin yet.",
    );
    refused(
        find().next(&context, PageReply::Key(Err("down".into()))),
        "Database error: down",
    );
    refused(
        verify().next(&context, verified("other", false)),
        "Token does not match this role link.",
    );
    refused(
        verify().next(&context, PageReply::Verified(Err(RlTokenError::BadSignature))),
        "Invalid auth token.",
    );
    // A token that was refused is not made good by a manager's cookie.
    let state = verify()
        .next(&context, PageReply::Verified(Err(RlTokenError::Expired)))
        .next(&context, PageReply::Manager(Ok("d".into())));
    assert_eq!(answered(state).status, 403);
}

#[test]
fn managers_open_the_page_directly() {
    let context = page_context();
    for token in [None, Some("")] {
        let state = enter(token);
        assert!(matches!(&state, PageFlow::CheckManager));
        let page = answered(state.next(&context, PageReply::Manager(Ok("d".into()))));
        assert_eq!((page.status, page.html.as_str()), (200, "u g r  0"));
    }
    let refused = || PageReply::Manager(Err(AppError::Unauthorized));
    let page = answered(enter(None).next(&context, refused()));
    let expected = render_signin_page("u", &AppError::Unauthorized.description());
    assert_eq!((page.status, page.html), (401, expected.html));
    let embedded = PageContext { sec_fetch_dest: Some("iframe"), ..page_context() };
    let page = answered(enter(None).next(&embedded, refused()));
    assert_eq!((page.status, page.html), (401, render_iframe_no_token("u").html));
    // The session that was not asked for opens nothing.
    let state = enter(None).next(&context, PageReply::Session("s".into()));
    assert!(matches!(state, PageFlow::CheckManager));
}

#[test]
fn pages_are_rendered() {
    let page = role_config_page(
        "__BASE_URL__ __GUILD_ID__ __ROLE_ID__ __IFRAME_TOKEN__ __READ_ONLY__",
        "u",
        "g",
        "r",
        Some("ifs:t"),
        true,
    );
    assert_eq!((page.status, page.html.as_str()), (200, "u g r ifs:t 1"));
    let direct = role_config_page("[__IFRAME_TOKEN__]__READ_ONLY__", "u", "g", "r", None, false);
    assert_eq!(direct.html, "[]0");
    let error = render_inline_error("https://x", "a < b");
    assert_eq!(error.status, 403);
    assert!(error.html.contains("<p>a &lt; b</p>"));
    assert!(error.html.contains("href=\"https://x/favicon.ico\""));
    let no_token = render_iframe_no_token("https://x");
    assert_eq!(no_token.status, 401);
    assert!(no_token.html.contains("<code>https://x</code>"));
    let signin = render_signin_page("https://x", "R&D");
    assert_eq!(signin.status, 401);
    assert!(signin.html.contains(">R&amp;D</p>"));
    assert!(signin.html.contains("new URL(\"https://x\").origin"));
}

#[test]
fn embedded_loads_are_told_apart() {
    assert!(looks_embedded(Some("IFrame"), None));
    assert!(looks_embedded(Some("frame"), None));
    assert!(looks_embedded(None, Some("Cross-Site")));
    assert!(!looks_embedded(Some("document"), Some("same-origin")));
    assert!(!looks_embedded(None, None));
    let e = AppError::Forbidden("managers only".into());
    let embedded = direct_refusal("https://x", Some("iframe"), None, &e);
    assert!(embedded.html.contains("RoleLogic didn't pass an authentication token"));
    let direct = direct_refusal("https://x", None, None, &e);
    assert!(direct.html.contains("Forbidden: managers only"));
}

fn input(target: &str, operator: &str, value: JsonValue) -> ConditionInput {
    ConditionInput { target: target.into(), operator: operator.into(), value, value_end: None }
}

fn follower_body() -> RuleTreeBody {
    RuleTreeBody {
        grant_on_any_relation: false,
        groups: vec![ConditionGroupInput {
            conditions: vec![input("is_follower", "eq", JsonValue::Bool(true))],
        }],
    }
}

fn anyone_body() -> RuleTreeBody {
    RuleTreeBody { grant_on_any_relation: true, groups: vec![] }
}

fn save(body: RuleTreeBody) -> RoleConfigSaveBody {
    RoleConfigSaveBody { rule_tree_version: 4, tree: body }
}

#[test]
fn rules_are_saved_under_their_version() {
    let state = SaveFlow::start(&access(false), save(follower_body()));
    assert!(matches!(&state, SaveFlow::FindChannel { expected_version: 4, .. }));
    let state = state.next(SaveReply::Channel(Ok(some("c1"))));
    match &state {
        SaveFlow::Update { document, expected_version } => {
            assert_eq!(*expected_version, 4);
            assert_eq!(RuleTree::from_json(document).unwrap().groups.len(), 1);
        }
        _ => panic!("the rule is stored"),
    }
    let state = state.next(SaveReply::Updated(Ok(1))).next(SaveReply::Version(Ok(Some(5))));
    match state {
        SaveFlow::Saved { version } => {
            let reply = saved_reply(version);
            assert_eq!(reply.get("rule_tree_version"), Some(&JsonValue::Int(5)));
            assert_eq!(reply.get("success"), Some(&JsonValue::Bool(true)));
        }
        _ => panic!("the rule is saved"),
    }
    let anyone = SaveFlow::start(&access(false), save(anyone_body()));
    assert!(matches!(&anyone, SaveFlow::Update { .. }));
}

#[test]
fn rules_are_not_saved_over_others() {
    let update = || SaveFlow::start(&access(false), save(anyone_body()));
    let stale = update().next(SaveReply::Updated(Ok(0))).next(SaveReply::Version(Ok(Some(9))));
    assert!(matches!(stale, SaveFlow::Failed(AppError::StaleVersion)));
    let gone = update().next(SaveReply::Updated(Ok(0))).next(SaveReply::Version(Ok(None)));
    assert!(matches!(gone, SaveFlow::Failed(AppError::NotFound(_))));
    // The link may go between the update and the reading of its version.
    let removed = update().next(SaveReply::Updated(Ok(1))).next(SaveReply::Version(Ok(None)));
    assert!(matches!(removed, SaveFlow::Failed(AppError::Database(m)) if m == NO_ROW));
    let read_only = SaveFlow::start(&access(true), save(anyone_body()));
    assert!(matches!(read_only, SaveFlow::Failed(AppError::Forbidden(_))));
    let mut bad = follower_body();
    bad.groups[0].conditions[0].target = "x".into();
    let refused = SaveFlow::start(&access(false), save(bad));
    assert!(matches!(refused, SaveFlow::Failed(AppError::BadRequest(_))));
    let no_channel = SaveFlow::start(&access(false), save(follower_body()))
        .next(SaveReply::Channel(Ok(None)));
    assert!(matches!(
        no_channel,
        SaveFlow::Failed(AppError::BadRequest(m)) if m.starts_with("Connect the Twitch channel")
    ));
}

fn answer(flow: PreviewFlow) -> Preview {
    match flow {
        PreviewFlow::Answer(preview) => preview,
        _ => panic!("the preview is answered"),
    }
}

#[test]
fn previews_count_members() {
    let rule = || role_config_preview_edit(follower_body()).ok().unwrap();
    let nobody = Preview::Counted { matching: 0, linked: 0 };
    assert_eq!(answer(PreviewFlow::start(rule(), None)), nobody);
    assert_eq!(answer(PreviewFlow::start(RuleTree::default(), some("c1"))), nobody);
    let ready = || PreviewFlow::start(rule(), some("c1"));
    assert_eq!(answer(ready().next(PreviewReply::Members(None))), Preview::Unavailable);
    assert_eq!(answer(ready().next(PreviewReply::Members(Some(vec![])))), nobody);
    let state = ready()
        .next(PreviewReply::Members(Some(vec!["u1".into()])))
        .next(PreviewReply::Linked(Ok(3)));
    match &state {
        PreviewFlow::CountMatching { sql, broadcaster_id, binds, .. } => {
            assert_eq!(
                sql,
                "SELECT count(DISTINCT la.discord_id) FROM linked_accounts la \
                 LEFT JOIN user_channel_cache ucc \
                 ON ucc.twitch_user_id = la.twitch_user_id AND ucc.broadcaster_id = $1 \
                 WHERE la.discord_id = ANY($2::text[]) AND \
                 (((COALESCE(ucc.is_following, false) = $3)))"
            );
            assert_eq!(broadcaster_id, "c1");
            assert_eq!(binds.len(), 1);
        }
        _ => panic!("the members are counted"),
    }
    assert_eq!(
        answer(state.next(PreviewReply::Matching(Ok(2)))),
        Preview::Counted { matching: 2, linked: 3 }
    );
    let anyone = role_config_preview_edit(anyone_body()).ok().unwrap();
    let counted = PreviewFlow::start(anyone, None)
        .next(PreviewReply::Members(Some(vec!["u1".into()])))
        .next(PreviewReply::Linked(Ok(3)));
    assert_eq!(answer(counted), Preview::Counted { matching: 3, linked: 3 });
    let failed = ready()
        .next(PreviewReply::Members(Some(vec!["u1".into()])))
        .next(PreviewReply::Linked(Err(AppError::Database("x".into()))));
    assert!(matches!(failed, PreviewFlow::Failed(_)));
}

#[test]
fn previews_of_saved_rules_need_a_role_link() {
    assert_eq!(
        role_config_preview(None).err(),
        Some(AppError::NotFound("Role link not found.".into()))
    );
    let (tree, channel) = role_config_preview(Some((some("c1"), JsonValue::Null))).ok().unwrap();
    assert!(tree.groups.is_empty());
    assert_eq!(channel, some("c1"));
    let reply = preview_reply(Preview::Counted { matching: 2, linked: 3 });
    assert_eq!(reply.get("matching"), Some(&JsonValue::Int(2)));
    assert_eq!(reply.get("available"), Some(&JsonValue::Bool(true)));
    let reply = preview_reply(Preview::Unavailable);
    assert_eq!(reply.get("available"), Some(&JsonValue::Bool(false)));
    assert!(text(&reply, "reason").starts_with("Member list temporarily unavailable"));
}

#[test]
fn page_data_lists_what_rules_are_made_of() {
    let stored = LinkConfig {
        broadcaster_id: some("42"),
        broadcaster_login: some("streamer"),
        rule_tree: role_config_preview_edit(follower_body()).ok().unwrap().to_json(),
        rule_tree_version: 4,
    };
    let doc = role_config_data("https://x", "1", "2", &Some(stored), None).ok().unwrap();
    assert_eq!(doc.get("rule_tree_version"), Some(&JsonValue::Int(4)));
    let channel = doc.get("channel").unwrap();
    assert_eq!(channel.get("connected"), Some(&JsonValue::Bool(true)));
    assert_eq!(text(channel, "broadcaster_login"), "streamer");
    match doc.get("config").unwrap().get("groups") {
        Some(JsonValue::Array(groups)) => assert_eq!(groups.len(), 1),
        _ => panic!("the groups are listed"),
    }
    assert_eq!(text(&doc, "verify_url"), "https://x/verify?guild=1");
    assert_eq!(text(doc.get("users").unwrap(), "url"), "https://x/users/1");
    assert_eq!(text(doc.get("users").unwrap(), "view_permission"), "managers");
    assert_eq!(doc.get("limits").unwrap().get("max_groups"), Some(&JsonValue::Int(8)));
    assert_eq!(
        role_config_data("https://x", "1", "2", &None, None).err(),
        Some(AppError::NotFound(
            "This role link doesn't exist. Has it been added in RoleLogic?".into()
        ))
    );
}

#[test]
fn catalogs_are_complete() {
    let items = |doc: JsonValue| match doc {
        JsonValue::Array(items) => items,
        _ => panic!("a catalog is a list"),
    };
    let targets = items(target_catalog());
    assert_eq!(targets.len(), 4);
    assert_eq!(text(&targets[1], "key"), "follow_age_days");
    assert_eq!(text(&targets[1], "kind"), "int");
    assert_eq!(text(&targets[3], "label"), "Subscription tier (1-3)");
    let operators = items(operator_catalog());
    assert_eq!(operators.len(), 7);
    assert_eq!(text(&operators[6], "key"), "between");
    assert_eq!(operators[6].get("needs_value_end"), Some(&JsonValue::Bool(true)));
    let valid = operators[0].get("valid_for").unwrap();
    assert_eq!(valid.get("bool"), Some(&JsonValue::Bool(true)));
    let valid = operators[1].get("valid_for").unwrap();
    assert_eq!(valid.get("bool"), Some(&JsonValue::Bool(false)));
    assert_eq!(valid.get("int"), Some(&JsonValue::Bool(true)));
    assert_eq!(kind_str(TargetKind::Bool), "bool");
}
