use twitch_follower_role::config::{derive_origin, AppConfig, EnvVars};
use twitch_follower_role::error::AppError;
use twitch_follower_role::json::JsonValue;
use twitch_follower_role::models::condition::TwitchConditions;
use twitch_follower_role::schema::{build_config_schema, parse_config};
use twitch_follower_role::text::{
    contains, decimal_text, html_escape, i64_text, parse_within, replace_all, strip_prefix,
    to_ascii_lower, trim, trim_trailing,
};
use twitch_follower_role::time::Timestamp;

fn vars() -> EnvVars {
    EnvVars {
        base_url: Some("https://plugins.example.com/twitch-follower-role".into()),
        auth_gateway_url: None,
        rl_dashboard_origin: None,
        database_url: Some("postgres://db".into()),
        session_secret: Some("session".into()),
        twitch_client_id: Some("client".into()),
        twitch_client_secret: Some("secret".into()),
        twitch_eventsub_secret: Some("eventsub".into()),
        listen_addr: None,
        internal_api_key: Some("key".into()),
    }
}

#[test]
fn settings_have_their_defaults() {
    let config = AppConfig::from_env(vars()).ok().unwrap();
    assert_eq!(config.base_url, "https://plugins.example.com/twitch-follower-role");
    assert_eq!(config.auth_gateway_url, "https://plugins.example.com");
    assert_eq!(config.rl_dashboard_origin.as_deref(), Some("https://rolelogic.faizo.net"));
    assert_eq!(config.listen_addr, "0.0.0.0:8080");
    assert_eq!(
        config.allowed_origins,
        vec!["https://plugins.example.com".to_string(), "https://rolelogic.faizo.net".to_string()]
    );
    assert_eq!(
        config.twitch_user_oauth_redirect_uri(),
        "https://plugins.example.com/twitch-follower-role/verify/twitch/callback"
    );
    assert_eq!(
        config.broadcaster_oauth_redirect_uri(),
        "https://plugins.example.com/twitch-follower-role/connect/callback"
    );
}

#[test]
fn settings_can_be_given() {
    let mut v = vars();
    v.auth_gateway_url = Some("http://localhost:9000//".into());
    v.rl_dashboard_origin = Some("  https://plugins.example.com/ ".into());
    v.listen_addr = Some("127.0.0.1:1".into());
    let config = AppConfig::from_env(v).ok().unwrap();
    assert_eq!(config.auth_gateway_url, "http://localhost:9000");
    assert_eq!(config.rl_dashboard_origin.as_deref(), Some("https://plugins.example.com"));
    // The dashboard is the plugin's own origin here, and is not listed twice.
    assert_eq!(config.allowed_origins, vec!["https://plugins.example.com".to_string()]);
    assert_eq!(config.listen_addr, "127.0.0.1:1");
    let mut blank = vars();
    blank.rl_dashboard_origin = Some(" / ".into());
    let config = AppConfig::from_env(blank).ok().unwrap();
    assert_eq!(config.rl_dashboard_origin.as_deref(), Some("https://rolelogic.faizo.net"));
}

#[test]
fn settings_that_are_missing_are_named() {
    let mut v = vars();
    v.database_url = None;
    v.internal_api_key = None;
    assert_eq!(AppConfig::from_env(v).err().unwrap(), "DATABASE_URL must be set");
    let mut v = vars();
    v.internal_api_key = None;
    assert_eq!(
        AppConfig::from_env(v).err().unwrap(),
        "INTERNAL_API_KEY must be set (must match the Auth Gateway's value)"
    );
}

#[test]
fn origins_drop_the_path() {
    assert_eq!(derive_origin("https://a.b:8443/x/y"), "https://a.b:8443");
    assert_eq!(derive_origin("https://a.b"), "https://a.b");
    assert_eq!(derive_origin(&derive_origin("https://a.b/x")), "https://a.b");
    assert_eq!(derive_origin("a.b/x"), "a.b/x");
}

#[test]
fn errors_answer_with_status_and_message() {
    let answer = |e: AppError| {
        let (status, body) = e.into_response();
        (status, body.text_at("error").unwrap())
    };
    assert_eq!(
        answer(AppError::Database("row 7".into())),
        (500, "Internal server error".to_string())
    );
    assert_eq!(
        answer(AppError::Internal("oops".into())),
        (500, "Internal server error".to_string())
    );
    assert_eq!(
        answer(AppError::TwitchApi("401".into())),
        (502, "Failed to fetch Twitch data".to_string())
    );
    assert_eq!(answer(AppError::RoleLogic("x".into())), (502, "Failed to sync roles".to_string()));
    assert_eq!(answer(AppError::RoleLinkNotFound), (404, "Role link not found".to_string()));
    assert_eq!(answer(AppError::RoleLinkDisabled), (403, "Role link is disabled".to_string()));
    assert_eq!(
        answer(AppError::UserLimitReached { limit: 5 }),
        (403, "Role link user limit reached".to_string())
    );
    assert_eq!(answer(AppError::BadRequest("no".into())), (400, "no".to_string()));
    assert_eq!(
        answer(AppError::Unauthorized),
        (401, "Invalid or missing authorization".to_string())
    );
    assert_eq!(answer(AppError::UnauthorizedWith("again".into())), (401, "again".to_string()));
    assert_eq!(answer(AppError::Forbidden("never".into())), (403, "never".to_string()));
    assert_eq!(answer(AppError::NotFound("gone".into())), (404, "gone".to_string()));
    assert_eq!(answer(AppError::StaleVersion).0, 409);
    assert_eq!(
        AppError::UserLimitReached { limit: 120 }.description(),
        "Role link user limit reached (120)"
    );
    assert_eq!(AppError::NotFound("gone".into()).description(), "Not found: gone");
}

#[test]
fn texts_are_handled_exactly() {
    assert_eq!(trim("\u{a0}\t x y \n"), "x y");
    assert_eq!(trim_trailing("a//", '/'), "a");
    assert_eq!(to_ascii_lower("ÄBc-9"), "Äbc-9");
    assert_eq!(replace_all("aXaXX", "X", "yX"), "ayXayXyX");
    assert_eq!(replace_all("aaa", "aa", "b"), "ba");
    assert_eq!(html_escape("<a & b>"), "&lt;a &amp; b&gt;");
    assert!(contains("token expired", "expired"));
    assert!(!contains("token", "tokens"));
    assert_eq!(strip_prefix("Token abc", "Token "), Some("abc".to_string()));
    assert_eq!(strip_prefix("Toke", "Token "), None);
    assert_eq!(decimal_text(1_000_200), "1000200");
    assert_eq!(i64_text(i64::MIN), "-9223372036854775808");
    assert_eq!(parse_within("+12", 0, 20), Some(12));
    assert_eq!(parse_within("-9223372036854775808", i64::MIN, i64::MAX), Some(i64::MIN));
    assert_eq!(parse_within("9223372036854775808", i64::MIN, i64::MAX), None);
    assert_eq!(parse_within("1 ", 0, 9), None);
    assert_eq!(parse_within("-", -9, 9), None);
    assert_eq!(parse_within("21", 0, 20), None);
}

#[test]
fn seconds_are_rounded_towards_zero_and_days_down() {
    let t = |secs: i64, nanos: u32| Timestamp { secs, nanos };
    assert_eq!(t(100, 0).seconds_since(t(90, 1)), 9);
    assert_eq!(t(90, 1).seconds_since(t(100, 0)), -9);
    assert_eq!(t(3, 1).elapsed_nanos(t(5, 0)), -1_999_999_999);
    assert_eq!(t(86_400, 0).days_since(t(0, 0)), 1);
    assert_eq!(t(86_400, 0).days_since(t(0, 1)), 0);
    assert_eq!(t(0, 0).days_since(t(0, 1)), -1);
    assert_eq!(t(0, 0).days_since(t(86_400, 0)), -1);
    assert_eq!(t(0, 0).days_since(t(86_400, 1)), -2);
    // A leap second that has passed by the clock of the day is counted.
    assert_eq!(t(60, 0).seconds_since(t(59, 1_000_000_000)), 1);
    let later = t(5, 6).plus_seconds(90);
    assert_eq!((later.secs, later.nanos), (95, 6));
}

fn conditions() -> TwitchConditions {
    TwitchConditions {
        require_follower: true,
        min_follow_days: 30,
        require_subscriber: true,
        min_sub_tier: 2,
    }
}

#[test]
fn schema_describes_the_form() {
    let doc = build_config_schema(
        &conditions(),
        Some(("42", "streamer")),
        "https://x/verify?guild=1",
        "https://x/connect?guild_id=1&role_id=2",
    );
    assert_eq!(doc.get("version"), Some(&JsonValue::Int(1)));
    let sections = match doc.get("sections") {
        Some(JsonValue::Array(sections)) => sections,
        _ => panic!("the form has sections"),
    };
    assert_eq!(sections.len(), 4);
    let first_field = |i: usize| match sections[i].get("fields") {
        Some(JsonValue::Array(fields)) => fields[0].clone(),
        _ => panic!("a section has fields"),
    };
    assert_eq!(
        first_field(0).text_at("value").unwrap(),
        "Connected as: streamer (ID: 42)\nTo reconnect with a different account, visit:\n\
         https://x/connect?guild_id=1&role_id=2"
    );
    assert!(first_field(1).text_at("value").unwrap().starts_with(
        "Members link their Discord and Twitch accounts at:\nhttps://x/verify?guild=1\n\nOnce linked"
    ));
    assert!(first_field(3).text_at("value").unwrap().starts_with(
        "Follower only  \u{2192}  Anyone following the channel gets the role\n"
    ));
    let values = doc.get("values").unwrap();
    assert_eq!(values.get("min_follow_days"), Some(&JsonValue::Int(30)));
    assert_eq!(values.text_at("min_sub_tier").unwrap(), "2");
    // What the form shows is read back as the same conditions.
    assert_eq!(parse_config(values).ok(), Some(conditions()));
    let none = build_config_schema(&conditions(), None, "v", "c");
    let text = match none.get("sections") {
        Some(JsonValue::Array(sections)) => match sections[0].get("fields") {
            Some(JsonValue::Array(fields)) => fields[0].text_at("value").unwrap(),
            _ => panic!("a section has fields"),
        },
        _ => panic!("the form has sections"),
    };
    assert_eq!(
        text,
        "No Twitch channel connected.\nThe channel owner must authorize this plugin:\nc"
    );
}

#[test]
fn config_fields_are_read() {
    let on = || {
        JsonValue::object()
            .with("require_follower", JsonValue::Bool(true))
            .with("require_subscriber", JsonValue::Bool(true))
    };
    let read = |doc: JsonValue| parse_config(&doc);
    let plain = read(on()).ok().unwrap();
    assert_eq!((plain.min_follow_days, plain.min_sub_tier), (0, 1));
    let tier = |v: JsonValue| read(on().with("min_sub_tier", v)).map(|c| c.min_sub_tier);
    assert_eq!(tier(JsonValue::text("3")).ok(), Some(3));
    assert_eq!(tier(JsonValue::Int(2)).ok(), Some(2));
    // Only the lower 32 bits of a number count.
    assert_eq!(tier(JsonValue::Int(4_294_967_298)).ok(), Some(2));
    assert_eq!(tier(JsonValue::text("")).ok(), Some(1));
    assert_eq!(tier(JsonValue::text("x")).ok(), Some(1));
    assert_eq!(tier(JsonValue::Bool(true)).ok(), Some(1));
    let message = |e: AppError| match e {
        AppError::BadRequest(m) => m,
        _ => panic!("a bad request"),
    };
    assert_eq!(
        message(tier(JsonValue::text("4")).err().unwrap()),
        "Minimum sub tier must be 1, 2, or 3"
    );
    assert_eq!(
        message(read(on().with("min_follow_days", JsonValue::Int(-1))).err().unwrap()),
        "Minimum follow days must be 0 or greater"
    );
    assert_eq!(
        message(read(JsonValue::object()).err().unwrap()),
        "At least one condition (follower or subscriber) must be enabled"
    );
    // The field of a toggle that is off is not read.
    let off = JsonValue::object()
        .with("require_subscriber", JsonValue::Bool(true))
        .with("min_follow_days", JsonValue::Int(-1));
    assert_eq!(read(off).ok().unwrap().min_follow_days, 0);
}
