use twitch_follower_role::error::AppError;
use twitch_follower_role::json::JsonValue;
use twitch_follower_role::models::condition::{Condition, ConditionOperator, ConditionTarget};
use twitch_follower_role::models::rule::{ConditionGroup, RuleTree};
use twitch_follower_role::services::condition_eval::CacheData;
use twitch_follower_role::services::rule_sql::Bind;
use twitch_follower_role::services::sync::{
    after_add, after_remove, after_unlink_removal, default_facts, plan_user_sync, qualifies,
    qualifies_at, CacheRow, Followup, LinkRow, MemberQuery, RoleLink, RoleLinkReply, RoleLinkSync,
    SyncAction, UserSync, UserSyncReply,
};
use twitch_follower_role::services::twitch::{
    parse_tier, verify_signature_at, EventSubSubscription, FollowerData, HttpReply, PlainReply,
    SubData, TwitchClient, TwitchTokenResponse, TwitchUser,
};
use twitch_follower_role::time::Timestamp;

fn at(secs: i64) -> Timestamp {
    Timestamp { secs, nanos: 0 }
}

fn follower_rule() -> RuleTree {
    RuleTree {
        grant_on_any_relation: false,
        groups: vec![ConditionGroup {
            conditions: vec![Condition {
                target: ConditionTarget::IsFollower,
                operator: ConditionOperator::Eq,
                value: JsonValue::Bool(true),
                value_end: None,
            }],
        }],
    }
}

fn anyone() -> RuleTree {
    RuleTree { grant_on_any_relation: true, groups: vec![] }
}

fn following() -> CacheData {
    CacheData { is_following: true, followed_at: None, is_subscribed: false, sub_tier: 0 }
}

fn link(guild: &str, role: &str, rule: &RuleTree, channel: Option<&str>) -> RoleLink {
    RoleLink {
        guild_id: guild.into(),
        role_id: role.into(),
        api_token: format!("token-{role}"),
        rule_tree: rule.to_json(),
        broadcaster_id: channel.map(String::from),
    }
}

fn row(channel: &str, facts: CacheData) -> CacheRow {
    CacheRow { broadcaster_id: channel.into(), facts }
}

fn key(guild: &str, role: &str) -> (String, String) {
    (guild.into(), role.into())
}

// --- who qualifies ---

#[test]
fn channel_scoped_rules_need_a_channel() {
    assert!(qualifies(&anyone(), None, None));
    assert!(!qualifies(&follower_rule(), None, Some(&following())));
    assert!(qualifies(&follower_rule(), Some("1"), Some(&following())));
    assert!(!qualifies(&follower_rule(), Some("1"), None));
    assert!(!qualifies(&RuleTree::default(), Some("1"), Some(&following())));
    assert!(!qualifies_at(&follower_rule(), true, Some(&default_facts()), at(0)));
}

// --- one user ---

#[test]
fn plan_adds_and_removes() {
    let links = vec![
        link("g1", "r1", &follower_rule(), Some("c1")),
        link("g1", "r2", &follower_rule(), Some("c2")),
        link("g2", "r3", &anyone(), None),
        link("g2", "r4", &follower_rule(), None),
    ];
    // The later of two rows for a channel counts.
    let rows = vec![row("c1", default_facts()), row("c2", following()), row("c1", following())];
    let assigned = vec![key("g1", "r2"), key("g2", "r4"), key("g9", "r9")];
    let plan = plan_user_sync(&links, &rows, &assigned, at(0));
    assert_eq!(
        plan,
        vec![
            SyncAction::Add {
                guild_id: "g1".into(),
                role_id: "r1".into(),
                api_token: "token-r1".into()
            },
            SyncAction::Add {
                guild_id: "g2".into(),
                role_id: "r3".into(),
                api_token: "token-r3".into()
            },
            SyncAction::Remove {
                guild_id: "g2".into(),
                role_id: "r4".into(),
                api_token: "token-r4".into()
            },
        ]
    );
    // Once carried out, nothing is left to be done.
    let now_assigned = vec![key("g1", "r2"), key("g9", "r9"), key("g1", "r1"), key("g2", "r3")];
    assert!(plan_user_sync(&links, &rows, &now_assigned, at(0)).is_empty());
}

#[test]
fn user_sync_runs_its_course() {
    let state = UserSync::FindAccount.next(UserSyncReply::Account(Some("t1".into())));
    let state = match state {
        UserSync::FetchGuilds { twitch_user_id } => {
            assert_eq!(twitch_user_id, "t1");
            UserSync::FetchGuilds { twitch_user_id }
        }
        _ => panic!("the guilds are asked for"),
    };
    let state = state.next(UserSyncReply::Guilds(vec!["g1".into()]));
    assert!(matches!(&state, UserSync::FetchLinks { guild_ids, .. } if guild_ids.len() == 1));
    let state = state.next(UserSyncReply::Links(vec![link("g1", "r1", &anyone(), None)]));
    assert!(matches!(&state, UserSync::FetchCache { twitch_user_id, .. } if twitch_user_id == "t1"));
    let state = state.next(UserSyncReply::Cache(vec![]));
    let state = state.next(UserSyncReply::Assignments(vec![]));
    match state {
        UserSync::Apply { actions } => {
            assert_eq!(actions.len(), 1);
            assert!(matches!(&actions[0], SyncAction::Add { role_id, .. } if role_id == "r1"));
        }
        _ => panic!("the role is added"),
    }
}

#[test]
fn user_sync_stops_early() {
    let finished = |s: UserSync| matches!(s, UserSync::Finished);
    assert!(finished(UserSync::FindAccount.next(UserSyncReply::Account(None))));
    let guilds = UserSync::FetchGuilds { twitch_user_id: "t".into() };
    assert!(finished(guilds.next(UserSyncReply::Guilds(vec![]))));
    let links = UserSync::FetchLinks { twitch_user_id: "t".into(), guild_ids: vec!["g".into()] };
    assert!(finished(links.next(UserSyncReply::Links(vec![]))));
    let right = UserSync::FetchAssignments {
        links: vec![link("g", "r", &anyone(), None)],
        rows: vec![],
    };
    assert!(finished(right.next_at(UserSyncReply::Assignments(vec![key("g", "r")]), at(0))));
    assert!(finished(UserSync::FindAccount.next(UserSyncReply::Applied)));
}

#[test]
fn followups_mirror_what_was_accepted() {
    let gone: Result<(), AppError> = Err(AppError::RoleLinkNotFound);
    let full: Result<(), AppError> = Err(AppError::UserLimitReached { limit: 3 });
    assert_eq!(after_add(&Ok(())), Followup::RecordAssignment);
    assert_eq!(after_add(&gone), Followup::DropLink);
    assert_eq!(after_add(&full), Followup::Nothing);
    assert_eq!(after_remove(&Ok(())), Followup::EraseAssignment);
    assert_eq!(after_remove(&gone), Followup::DropLink);
    assert_eq!(after_remove(&full), Followup::Nothing);
    assert_eq!(after_unlink_removal(&Ok(())), Followup::Nothing);
    assert_eq!(after_unlink_removal(&gone), Followup::DropLink);
}

// --- one role link ---

fn link_row(rule: &RuleTree, channel: Option<&str>) -> RoleLinkReply {
    RoleLinkReply::Link(Some(LinkRow {
        api_token: "token".into(),
        rule_tree: rule.to_json(),
        broadcaster_id: channel.map(String::from),
    }))
}

#[test]
fn role_link_sync_uploads_the_selected_users() {
    let state = RoleLinkSync::FindLink.next(link_row(&follower_rule(), Some("c1")));
    let state = state.next(RoleLinkReply::Members(vec!["u1".into(), "u2".into()]));
    let state = state.next(RoleLinkReply::Limit(Err(AppError::RoleLogic("busy".into()))));
    let state = match state {
        RoleLinkSync::SelectUsers { api_token, query, member_ids, limit } => {
            assert_eq!(limit, 100);
            match &query {
                MemberQuery::ByRule { sql, broadcaster_id, binds } => {
                    assert_eq!(
                        sql,
                        "SELECT la.discord_id FROM linked_accounts la \
                         LEFT JOIN user_channel_cache ucc \
                         ON ucc.twitch_user_id = la.twitch_user_id AND ucc.broadcaster_id = $1 \
                         WHERE la.discord_id = ANY($2::text[]) AND \
                         (((COALESCE(ucc.is_following, false) = $3))) \
                         ORDER BY la.linked_at ASC LIMIT $4"
                    );
                    assert_eq!(broadcaster_id, "c1");
                    assert!(matches!(binds[..], [Bind::Bool(true)]));
                }
                _ => panic!("the rule is pushed down"),
            }
            RoleLinkSync::SelectUsers { api_token, query, member_ids, limit }
        }
        _ => panic!("the users are selected"),
    };
    let state = state.next(RoleLinkReply::Users(vec!["u2".into()]));
    assert!(matches!(&state, RoleLinkSync::Upload { user_ids, .. } if user_ids == &["u2"]));
    let state = state.next(RoleLinkReply::Uploaded(Ok(())));
    assert!(matches!(&state, RoleLinkSync::ReplaceMirror { user_ids } if user_ids == &["u2"]));
    assert!(matches!(state.next(RoleLinkReply::Done), RoleLinkSync::Finished));
}

#[test]
fn role_link_sync_of_anyone_needs_no_channel() {
    let state = RoleLinkSync::FindLink.next(link_row(&anyone(), None));
    let state = state.next(RoleLinkReply::Members(vec!["u1".into()]));
    let state = state.next(RoleLinkReply::Limit(Ok(7)));
    assert!(matches!(
        state,
        RoleLinkSync::SelectUsers { query: MemberQuery::Linked, limit: 7, .. }
    ));
}

#[test]
fn role_link_sync_clears_roles_for_nobody() {
    for reply in [
        link_row(&follower_rule(), None),
        link_row(&RuleTree::default(), Some("c1")),
        RoleLinkReply::Link(Some(LinkRow {
            api_token: "token".into(),
            rule_tree: JsonValue::text("unreadable"),
            broadcaster_id: Some("c1".into()),
        })),
    ] {
        let state = RoleLinkSync::FindLink.next(reply);
        assert!(matches!(&state, RoleLinkSync::UploadNobody { api_token } if api_token == "token"));
        let state = state.next(RoleLinkReply::Uploaded(Ok(())));
        assert!(matches!(state, RoleLinkSync::EraseMirror));
    }
    let empty = RoleLinkSync::FindLink
        .next(link_row(&follower_rule(), Some("c1")))
        .next(RoleLinkReply::Members(vec![]));
    assert!(matches!(empty, RoleLinkSync::UploadNobody { .. }));
    assert!(matches!(
        RoleLinkSync::FindLink.next(RoleLinkReply::Link(None)),
        RoleLinkSync::Finished
    ));
}

#[test]
fn role_link_sync_drops_links_that_are_gone() {
    let gone = || Err(AppError::RoleLinkNotFound);
    let limit = RoleLinkSync::FindLink
        .next(link_row(&follower_rule(), Some("c1")))
        .next(RoleLinkReply::Members(vec!["u1".into()]))
        .next(RoleLinkReply::Limit(Err(AppError::RoleLinkNotFound)));
    assert!(matches!(limit, RoleLinkSync::DropLink));
    let upload = RoleLinkSync::Upload { api_token: "t".into(), user_ids: vec![] };
    assert!(matches!(upload.next(RoleLinkReply::Uploaded(gone())), RoleLinkSync::DropLink));
    let nobody = RoleLinkSync::UploadNobody { api_token: "t".into() };
    assert!(matches!(nobody.next(RoleLinkReply::Uploaded(gone())), RoleLinkSync::DropLink));
    let upload = RoleLinkSync::Upload { api_token: "t".into(), user_ids: vec![] };
    let failed = upload.next(RoleLinkReply::Uploaded(Err(AppError::RoleLinkDisabled)));
    assert!(matches!(failed, RoleLinkSync::Failed(AppError::RoleLinkDisabled)));
}

// --- Twitch ---

fn message(e: AppError) -> String {
    match e {
        AppError::TwitchApi(m) => m,
        _ => panic!("an error of the Twitch API"),
    }
}

fn client() -> TwitchClient {
    TwitchClient::new("id", "secret", "eventsub")
}

#[test]
fn token_requests_carry_the_credentials() {
    let pairs = |fields: Vec<(&'static str, String)>| {
        fields.into_iter().map(|(k, v)| format!("{k}={v}")).collect::<Vec<_>>().join("&")
    };
    assert_eq!(
        pairs(client().app_token_form()),
        "client_id=id&client_secret=secret&grant_type=client_credentials"
    );
    assert_eq!(
        pairs(client().exchange_form("c", "u")),
        "client_id=id&client_secret=secret&code=c&grant_type=authorization_code&redirect_uri=u"
    );
    assert_eq!(
        pairs(client().refresh_form("r")),
        "client_id=id&client_secret=secret&grant_type=refresh_token&refresh_token=r"
    );
    assert_eq!(pairs(TwitchClient::viewer_query("b", "u")), "broadcaster_id=b&user_id=u");
    assert_eq!(pairs(TwitchClient::deletion_query("s1")), "id=s1");
    assert_eq!(TwitchClient::bearer("t"), "Bearer t");
}

#[test]
fn deletions_fail_only_unsent() {
    let delete = TwitchClient::delete_eventsub_subscription;
    assert_eq!(
        message(delete(PlainReply::Unsent("x".into())).err().unwrap()),
        "Delete EventSub subscription failed: x"
    );
    assert!(delete(PlainReply::Unreadable("x".into())).is_ok());
    assert!(delete(PlainReply::Data(())).is_ok());
}

fn tokens(refresh: Option<&str>) -> PlainReply<TwitchTokenResponse> {
    PlainReply::Data(TwitchTokenResponse {
        access_token: "a".into(),
        refresh_token: refresh.map(String::from),
    })
}

#[test]
fn token_replies_are_understood() {
    assert_eq!(TwitchClient::get_app_access_token(tokens(None)).ok().unwrap(), "a");
    assert_eq!(
        message(TwitchClient::get_app_access_token(PlainReply::Unsent("x".into())).err().unwrap()),
        "App token request failed: x"
    );
    assert_eq!(
        TwitchClient::exchange_code(tokens(Some("r"))).ok().unwrap(),
        ("a".to_string(), Some("r".to_string()))
    );
    assert_eq!(
        message(TwitchClient::exchange_code(PlainReply::Unreadable("x".into())).err().unwrap()),
        "Token exchange parse failed: x"
    );
    assert_eq!(
        TwitchClient::refresh_token(tokens(Some("r"))).ok().unwrap(),
        ("a".to_string(), "r".to_string())
    );
    assert_eq!(
        message(TwitchClient::refresh_token(tokens(None)).err().unwrap()),
        "Token refresh returned no refresh_token"
    );
    let user = |id: &str| TwitchUser {
        id: id.into(),
        login: "l".into(),
        display_name: "d".into(),
    };
    let reply = PlainReply::Data(vec![user("1"), user("2")]);
    assert_eq!(TwitchClient::get_user_by_token(reply).ok().unwrap().id, "1");
    assert_eq!(
        message(TwitchClient::get_user_by_token(PlainReply::Data(vec![])).err().unwrap()),
        "No user data returned"
    );
}

fn refused<T>(status: u16) -> HttpReply<T> {
    HttpReply::Refused { status, line: format!("{status} Reason"), body: "body".into() }
}

#[test]
fn follower_replies_are_understood() {
    let data = |text: &str| HttpReply::Data(vec![FollowerData { followed_at: text.into() }]);
    let info = TwitchClient::check_follower(data("2024-01-01T02:00:00.5+02:00")).ok().unwrap();
    let followed_at = info.unwrap().followed_at;
    assert_eq!((followed_at.secs, followed_at.nanos), (1_704_067_200, 500_000_000));
    assert!(TwitchClient::check_follower(HttpReply::Data(vec![])).ok().unwrap().is_none());
    assert!(message(TwitchClient::check_follower(data("soon")).err().unwrap())
        .starts_with("Failed to parse followed_at: "));
    assert_eq!(
        message(TwitchClient::check_follower(refused(401)).err().unwrap()),
        "401 Unauthorized checking follower: body"
    );
    assert_eq!(
        message(TwitchClient::check_follower(refused(404)).err().unwrap()),
        "Check follower failed: 404 Reason - body"
    );
    assert_eq!(
        message(TwitchClient::check_follower(HttpReply::Unsent("x".into())).err().unwrap()),
        "Check follower failed: x"
    );
}

#[test]
fn subscription_replies_are_understood() {
    let data = |text: &str| HttpReply::Data(vec![SubData { tier: text.into() }]);
    let tier = |text: &str| {
        TwitchClient::check_subscription(data(text)).ok().unwrap().unwrap().tier
    };
    assert_eq!(tier("2000"), 2000);
    assert_eq!(tier("prime"), 0);
    assert_eq!(parse_tier("99999999999"), 0);
    assert!(TwitchClient::check_subscription(refused(404)).ok().unwrap().is_none());
    assert_eq!(
        message(TwitchClient::check_subscription(refused(401)).err().unwrap()),
        "401 Unauthorized checking subscription: body"
    );
    assert_eq!(
        message(TwitchClient::check_subscription(refused(500)).err().unwrap()),
        "Check subscription failed: 500 Reason - body"
    );
    assert_eq!(
        message(TwitchClient::check_subscription(HttpReply::Unreadable("x".into())).err().unwrap()),
        "Check subscription parse failed: x"
    );
}

#[test]
fn eventsub_subscriptions_are_asked_for_and_read() {
    let condition = JsonValue::object().with("broadcaster_user_id", JsonValue::text("9"));
    let body = client().eventsub_body("channel.follow", "2", condition.clone(), "https://x/cb");
    assert_eq!(body.text_at("type").unwrap(), "channel.follow");
    assert_eq!(body.text_at("version").unwrap(), "2");
    assert_eq!(body.get("condition"), Some(&condition));
    let transport = body.get("transport").unwrap();
    assert_eq!(transport.text_at("method").unwrap(), "webhook");
    assert_eq!(transport.text_at("callback").unwrap(), "https://x/cb");
    assert_eq!(transport.text_at("secret").unwrap(), "eventsub");
    let sub = EventSubSubscription { id: "s".into(), status: "enabled".into() };
    let made = TwitchClient::create_eventsub_subscription(HttpReply::Data(vec![sub]));
    assert_eq!(made.ok().unwrap().id, "s");
    let none = TwitchClient::create_eventsub_subscription(HttpReply::Data(vec![]));
    assert_eq!(message(none.err().unwrap()), "No subscription data returned");
    let conflict = TwitchClient::create_eventsub_subscription(refused(409));
    assert_eq!(
        message(conflict.err().unwrap()),
        "Create EventSub subscription failed: 409 Reason - body"
    );
}

const SIGNATURE: &str = "sha256=a66da6532026d6618500714309035b10641df7571b85ba117e86b38bbba5964a";

#[test]
fn signatures_are_checked() {
    let body = br#"{"challenge":"abc"}"#;
    let ts = "2024-01-01T00:00:00Z";
    let accepted = |id: &str, ts: &str, body: &[u8], secret: &str, header: &str, secs: i64| {
        verify_signature_at(id, ts, body, secret, header, at(secs))
    };
    let sent: i64 = 1_704_067_200;
    assert!(accepted("msg-1", ts, body, "s3cret", SIGNATURE, sent));
    // Ten minutes either way.
    assert!(accepted("msg-1", ts, body, "s3cret", SIGNATURE, sent + 600));
    assert!(!accepted("msg-1", ts, body, "s3cret", SIGNATURE, sent + 601));
    assert!(accepted("msg-1", ts, body, "s3cret", SIGNATURE, sent - 600));
    assert!(!accepted("msg-1", ts, body, "s3cret", SIGNATURE, sent - 601));
    assert!(!accepted("msg-2", ts, body, "s3cret", SIGNATURE, sent));
    assert!(!accepted("msg-1", ts, b"{}", "s3cret", SIGNATURE, sent));
    assert!(!accepted("msg-1", ts, body, "other", SIGNATURE, sent));
    assert!(!accepted("msg-1", "2024-01-01T00:00:01Z", body, "s3cret", SIGNATURE, sent));
    assert!(!accepted("msg-1", ts, body, "s3cret", &SIGNATURE.to_uppercase(), sent));
    assert!(!accepted("msg-1", ts, body, "s3cret", &SIGNATURE[7..], sent));
    assert!(!accepted("msg-1", "yesterday", body, "s3cret", SIGNATURE, sent));
}

#[test]
fn old_signatures_are_refused_by_the_clock() {
    assert!(!TwitchClient::verify_eventsub_signature(
        "msg-1",
        "2024-01-01T00:00:00Z",
        br#"{"challenge":"abc"}"#,
        "s3cret",
        SIGNATURE,
    ));
}
