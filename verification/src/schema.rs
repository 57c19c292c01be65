//! The plain settings form: its description, and what its fields stand for.
use vstd::prelude::*;

use crate::error::{error_view, AppError, ErrorModel};
use crate::json::{
    json_array, json_object, lemma_member_of_push, lemma_with, member, JsonModel, JsonValue,
};
use crate::models::condition::TwitchConditions;
use crate::text::{
    contains_text, i64_text, integer_text, integer_within, law_contained_text,
    law_integer_text_reads_back, parse_within,
};

verus! {

// ---------------------------------------------------------------------
// The description of the form
// ---------------------------------------------------------------------

/// The channel that is connected, and how to connect one.
pub open spec fn connection_text(channel: Option<(Seq<char>, Seq<char>)>, connect_url: Seq<char>) -> Seq<
    char,
> {
    match channel {
        Some((id, login)) => "Connected as: "@ + login + " (ID: "@ + id
            + ")\nTo reconnect with a different account, visit:\n"@ + connect_url,
        None =>
            "No Twitch channel connected.\nThe channel owner must authorize this plugin:\n"@
                + connect_url,
    }
}

/// How members link their accounts.
pub open spec fn verify_text(verify_url: Seq<char>) -> Seq<char> {
    "Members link their Discord and Twitch accounts at:\n"@ + verify_url
        + "\n\nOnce linked, their Twitch follow/subscription status is checked automatically and roles are updated in real-time."@
}

pub const EXAMPLES_TEXT: &'static str = "Follower only  \u{2192}  Anyone following the channel gets the role\nFollower + 30 days  \u{2192}  Must have followed for at least 30 days\nSubscriber (any tier)  \u{2192}  Any active subscriber\nSubscriber Tier 2+  \u{2192}  Only Tier 2 and Tier 3 subscribers\nFollower + Subscriber  \u{2192}  Must be both following AND subscribed";

/// A field that shows a text.
pub open spec fn display_json(key: Seq<char>, label: Seq<char>, value: Seq<char>) -> JsonModel {
    json_object().with("type"@, JsonModel::Text("display"@)).with("key"@, JsonModel::Text(key)).with(
        "label"@,
        JsonModel::Text(label),
    ).with("value"@, JsonModel::Text(value))
}

/// The part that all input fields have.
pub open spec fn input_json(
    kind: Seq<char>,
    key: Seq<char>,
    label: Seq<char>,
    description: Seq<char>,
) -> JsonModel {
    json_object().with("type"@, JsonModel::Text(kind)).with("key"@, JsonModel::Text(key)).with(
        "label"@,
        JsonModel::Text(label),
    ).with("description"@, JsonModel::Text(description))
}

/// The field is shown while a toggle is on.
pub open spec fn shown_with_json(toggle: Seq<char>) -> JsonModel {
    json_object().with("field"@, JsonModel::Text(toggle)).with("equals"@, JsonModel::Bool(true))
}

pub open spec fn option_json(label: Seq<char>, value: Seq<char>) -> JsonModel {
    json_object().with("label"@, JsonModel::Text(label)).with("value"@, JsonModel::Text(value))
}

pub open spec fn connection_section_json(text: Seq<char>) -> JsonModel {
    json_object().with("title"@, JsonModel::Text("Channel Connection"@)).with(
        "fields"@,
        json_array().item(display_json("connection_status"@, "Broadcaster Account"@, text)),
    )
}

pub open spec fn verification_section_json(text: Seq<char>) -> JsonModel {
    json_object().with("title"@, JsonModel::Text("User Verification"@)).with(
        "fields"@,
        json_array().item(display_json("verify_info"@, "How members link accounts"@, text)),
    )
}

pub open spec fn conditions_section_json() -> JsonModel {
    json_object().with("title"@, JsonModel::Text("Conditions"@)).with(
        "description"@,
        JsonModel::Text(
            "Set the requirements for earning this role. All enabled conditions must be met (AND logic)."@,
        ),
    ).with(
        "fields"@,
        json_array().item(
            input_json(
                "toggle"@,
                "require_follower"@,
                "Require Follower"@,
                "User must be following the channel."@,
            ),
        ).item(
            input_json(
                "number"@,
                "min_follow_days"@,
                "Minimum Follow Days"@,
                "Minimum number of days the user must have been following. 0 means just following is enough."@,
            ).with("validation"@, json_object().with("min"@, JsonModel::Int(0))).with(
                "condition"@,
                shown_with_json("require_follower"@),
            ),
        ).item(
            input_json(
                "toggle"@,
                "require_subscriber"@,
                "Require Subscriber"@,
                "User must be subscribed to the channel."@,
            ),
        ).item(
            input_json(
                "select"@,
                "min_sub_tier"@,
                "Minimum Sub Tier"@,
                "Minimum subscription tier required."@,
            ).with(
                "options"@,
                json_array().item(option_json("Tier 1 ($4.99)"@, "1"@)).item(
                    option_json("Tier 2 ($9.99)"@, "2"@),
                ).item(option_json("Tier 3 ($24.99)"@, "3"@)),
            ).with("condition"@, shown_with_json("require_subscriber"@)),
        ),
    )
}

pub open spec fn examples_section_json() -> JsonModel {
    json_object().with("title"@, JsonModel::Text("Examples"@)).with(
        "collapsible"@,
        JsonModel::Bool(true),
    ).with("default_collapsed"@, JsonModel::Bool(true)).with(
        "fields"@,
        json_array().item(display_json("examples"@, "Common setups"@, EXAMPLES_TEXT@)),
    )
}

/// What the fields hold now.
pub open spec fn values_json(conditions: TwitchConditions) -> JsonModel {
    json_object().with("require_follower"@, JsonModel::Bool(conditions.require_follower)).with(
        "min_follow_days"@,
        JsonModel::Int(conditions.min_follow_days),
    ).with("require_subscriber"@, JsonModel::Bool(conditions.require_subscriber)).with(
        "min_sub_tier"@,
        JsonModel::Text(integer_text(conditions.min_sub_tier as int)),
    )
}

/// The description of the form.
pub open spec fn schema_json(
    conditions: TwitchConditions,
    channel: Option<(Seq<char>, Seq<char>)>,
    verify_url: Seq<char>,
    connect_url: Seq<char>,
) -> JsonModel {
    json_object().with("version"@, JsonModel::Int(1)).with(
        "name"@,
        JsonModel::Text("Twitch Follower Role"@),
    ).with(
        "description"@,
        JsonModel::Text("Assign Discord roles based on Twitch channel follow/sub status."@),
    ).with(
        "sections"@,
        json_array().item(connection_section_json(connection_text(channel, connect_url))).item(
            verification_section_json(verify_text(verify_url)),
        ).item(conditions_section_json()).item(examples_section_json()),
    ).with("values"@, values_json(conditions))
}

/// The id and the login of a channel.
pub open spec fn channel_view(channel: Option<(&str, &str)>) -> Option<(Seq<char>, Seq<char>)> {
    match channel {
        Some((id, login)) => Some((id@, login@)),
        None => None,
    }
}

fn display_field(key: &str, label: &str, value: &str) -> (r: JsonValue)
    ensures
        r@ == display_json(key@, label@, value@),
{
    JsonValue::object().with("type", JsonValue::text("display")).with(
        "key",
        JsonValue::text(key),
    ).with("label", JsonValue::text(label)).with("value", JsonValue::text(value))
}

fn input_field(kind: &str, key: &str, label: &str, description: &str) -> (r: JsonValue)
    ensures
        r@ == input_json(kind@, key@, label@, description@),
        r@ is Object,
{
    JsonValue::object().with("type", JsonValue::text(kind)).with("key", JsonValue::text(key)).with(
        "label",
        JsonValue::text(label),
    ).with("description", JsonValue::text(description))
}

fn shown_with(toggle: &str) -> (r: JsonValue)
    ensures
        r@ == shown_with_json(toggle@),
{
    JsonValue::object().with("field", JsonValue::text(toggle)).with("equals", JsonValue::Bool(true))
}

fn select_option(label: &str, value: &str) -> (r: JsonValue)
    ensures
        r@ == option_json(label@, value@),
{
    JsonValue::object().with("label", JsonValue::text(label)).with("value", JsonValue::text(value))
}

fn connection_section(text: &str) -> (r: JsonValue)
    ensures
        r@ == connection_section_json(text@),
{
    JsonValue::object().with("title", JsonValue::text("Channel Connection")).with(
        "fields",
        JsonValue::array().item(display_field("connection_status", "Broadcaster Account", text)),
    )
}

fn verification_section(text: &str) -> (r: JsonValue)
    ensures
        r@ == verification_section_json(text@),
{
    JsonValue::object().with("title", JsonValue::text("User Verification")).with(
        "fields",
        JsonValue::array().item(display_field("verify_info", "How members link accounts", text)),
    )
}

fn conditions_section() -> (r: JsonValue)
    ensures
        r@ == conditions_section_json(),
{
    let follower = input_field(
        "toggle",
        "require_follower",
        "Require Follower",
        "User must be following the channel.",
    );
    let days = input_field(
        "number",
        "min_follow_days",
        "Minimum Follow Days",
        "Minimum number of days the user must have been following. 0 means just following is enough.",
    ).with("validation", JsonValue::object().with("min", JsonValue::Int(0))).with(
        "condition",
        shown_with("require_follower"),
    );
    let subscriber = input_field(
        "toggle",
        "require_subscriber",
        "Require Subscriber",
        "User must be subscribed to the channel.",
    );
    let tier = input_field(
        "select",
        "min_sub_tier",
        "Minimum Sub Tier",
        "Minimum subscription tier required.",
    ).with(
        "options",
        JsonValue::array().item(select_option("Tier 1 ($4.99)", "1")).item(
            select_option("Tier 2 ($9.99)", "2"),
        ).item(select_option("Tier 3 ($24.99)", "3")),
    ).with("condition", shown_with("require_subscriber"));
    JsonValue::object().with("title", JsonValue::text("Conditions")).with(
        "description",
        JsonValue::text(
            "Set the requirements for earning this role. All enabled conditions must be met (AND logic).",
        ),
    ).with("fields", JsonValue::array().item(follower).item(days).item(subscriber).item(tier))
}

fn examples_section() -> (r: JsonValue)
    ensures
        r@ == examples_section_json(),
{
    JsonValue::object().with("title", JsonValue::text("Examples")).with(
        "collapsible",
        JsonValue::Bool(true),
    ).with("default_collapsed", JsonValue::Bool(true)).with(
        "fields",
        JsonValue::array().item(display_field("examples", "Common setups", EXAMPLES_TEXT)),
    )
}

/// The description of the settings form, with the channel that is connected
/// (its id and login) and what the fields hold now.
pub fn build_config_schema(
    conditions: &TwitchConditions,
    broadcaster_info: Option<(&str, &str)>,
    verify_url: &str,
    connect_url: &str,
) -> (r: JsonValue)
    ensures
        r@ == schema_json(
            *conditions,
            channel_view(broadcaster_info),
            verify_url@,
            connect_url@,
        ),
{
    let connection = match broadcaster_info {
        Some((id, login)) => {
            let mut text = "Connected as: ".to_owned();
            text.append(login);
            text.append(" (ID: ");
            text.append(id);
            text.append(")\nTo reconnect with a different account, visit:\n");
            text.append(connect_url);
            text
        },
        None => {
            let mut text =
                "No Twitch channel connected.\nThe channel owner must authorize this plugin:\n".to_owned();
            text.append(connect_url);
            text
        },
    };
    let mut verification = "Members link their Discord and Twitch accounts at:\n".to_owned();
    verification.append(verify_url);
    verification.append(
        "\n\nOnce linked, their Twitch follow/subscription status is checked automatically and roles are updated in real-time.",
    );
    let values = JsonValue::object().with(
        "require_follower",
        JsonValue::Bool(conditions.require_follower),
    ).with("min_follow_days", JsonValue::Int(conditions.min_follow_days)).with(
        "require_subscriber",
        JsonValue::Bool(conditions.require_subscriber),
    ).with("min_sub_tier", JsonValue::Text(i64_text(conditions.min_sub_tier as i64)));
    let sections = JsonValue::array().item(connection_section(connection.as_str())).item(
        verification_section(verification.as_str()),
    ).item(conditions_section()).item(examples_section());
    JsonValue::object().with("version", JsonValue::Int(1)).with(
        "name",
        JsonValue::text("Twitch Follower Role"),
    ).with(
        "description",
        JsonValue::text("Assign Discord roles based on Twitch channel follow/sub status."),
    ).with("sections", sections).with("values", values)
}

// ---------------------------------------------------------------------
// What the fields stand for
// ---------------------------------------------------------------------

/// The toggle is on.
pub open spec fn toggle_of(config: JsonModel, key: Seq<char>) -> bool {
    match config.get(key) {
        Some(v) => v.as_bool() == Some(true),
        None => false,
    }
}

/// The number in the field for the days, 0 where there is none.
pub open spec fn days_of(config: JsonModel) -> i64 {
    match config.get("min_follow_days"@) {
        Some(v) => match v.as_i64() {
            Some(n) => n,
            None => 0,
        },
        None => 0,
    }
}

/// The tier that is selected: a text in decimal notation, or a number of which
/// the lower 32 bits count. Anything else stands for the lowest tier.
pub open spec fn tier_in(config: JsonModel) -> i32 {
    match config.get("min_sub_tier"@) {
        Some(JsonModel::Text(t)) => match integer_within(t, i32::MIN as int, i32::MAX as int) {
            Some(n) => n as i32,
            None => 1,
        },
        Some(JsonModel::Int(n)) => n as i32,
        _ => 1,
    }
}

/// The conditions that the fields stand for, or why they are refused. The
/// field of a toggle that is off is not read.
pub open spec fn parsed_config(config: JsonModel) -> Result<TwitchConditions, ErrorModel> {
    let require_follower = toggle_of(config, "require_follower"@);
    let min_follow_days = if require_follower {
        days_of(config)
    } else {
        0
    };
    let require_subscriber = toggle_of(config, "require_subscriber"@);
    let min_sub_tier = if require_subscriber {
        tier_in(config)
    } else {
        1
    };
    if min_follow_days < 0 {
        Err(ErrorModel::BadRequest("Minimum follow days must be 0 or greater"@))
    } else if !(1 <= min_sub_tier <= 3) {
        Err(ErrorModel::BadRequest("Minimum sub tier must be 1, 2, or 3"@))
    } else if !require_follower && !require_subscriber {
        Err(
            ErrorModel::BadRequest(
                "At least one condition (follower or subscriber) must be enabled"@,
            ),
        )
    } else {
        Ok(TwitchConditions { require_follower, min_follow_days, require_subscriber, min_sub_tier })
    }
}

fn toggle(config: &JsonValue, key: &str) -> (r: bool)
    ensures
        r == toggle_of(config@, key@),
{
    match config.get(key) {
        Some(v) => match v.as_bool() {
            Some(b) => b,
            None => false,
        },
        None => false,
    }
}

/// The conditions that the fields of the form stand for.
pub fn parse_config(config: &JsonValue) -> (r: Result<TwitchConditions, AppError>)
    ensures
        error_view(r) == parsed_config(config@),
{
    let require_follower = toggle(config, "require_follower");
    let min_follow_days: i64 = if require_follower {
        match config.get("min_follow_days") {
            Some(v) => match v.as_i64() {
                Some(n) => n,
                None => 0,
            },
            None => 0,
        }
    } else {
        0
    };
    if min_follow_days < 0 {
        return Err(
            AppError::BadRequest("Minimum follow days must be 0 or greater".to_owned()),
        );
    }
    let require_subscriber = toggle(config, "require_subscriber");
    let min_sub_tier: i32 = if require_subscriber {
        let raw: i32 = match config.get("min_sub_tier") {
            Some(JsonValue::Text(t)) => match parse_within(
                t.as_str(),
                i32::MIN as i64,
                i32::MAX as i64,
            ) {
                Some(n) => n as i32,
                None => 1,
            },
            Some(JsonValue::Int(n)) => #[verifier::truncate]
            (*n as i32),
            _ => 1,
        };
        if raw < 1 || raw > 3 {
            return Err(AppError::BadRequest("Minimum sub tier must be 1, 2, or 3".to_owned()));
        }
        raw
    } else {
        1
    };
    if !require_follower && !require_subscriber {
        return Err(
            AppError::BadRequest(
                "At least one condition (follower or subscriber) must be enabled".to_owned(),
            ),
        );
    }
    Ok(TwitchConditions { require_follower, min_follow_days, require_subscriber, min_sub_tier })
}

/// Accepted conditions ask for something, for a number of days that is not
/// negative, and for a tier that exists.
pub proof fn law_accepted_conditions_make_sense(config: JsonModel)
    ensures
        parsed_config(config) matches Ok(c) ==> {
            &&& c.require_follower || c.require_subscriber
            &&& c.min_follow_days >= 0
            &&& 1 <= c.min_sub_tier <= 3
            &&& !c.require_follower ==> c.min_follow_days == 0
            &&& !c.require_subscriber ==> c.min_sub_tier == 1
        },
{
}

/// What the form shows of accepted conditions is read back as the same ones.
pub proof fn law_form_values_read_back(c: TwitchConditions)
    requires
        c.require_follower || c.require_subscriber,
        c.min_follow_days >= 0,
        1 <= c.min_sub_tier <= 3,
        !c.require_follower ==> c.min_follow_days == 0,
        !c.require_subscriber ==> c.min_sub_tier == 1,
    ensures
        parsed_config(values_json(c)) == Ok::<TwitchConditions, ErrorModel>(c),
{
    reveal_strlit("require_follower");
    reveal_strlit("min_follow_days");
    reveal_strlit("require_subscriber");
    reveal_strlit("min_sub_tier");
    assert("require_follower"@.len() == 16 && "min_follow_days"@.len() == 15
        && "require_subscriber"@.len() == 18 && "min_sub_tier"@.len() == 12);
    let m0 = Seq::<(Seq<char>, JsonModel)>::empty();
    let follower = JsonModel::Bool(c.require_follower);
    let days = JsonModel::Int(c.min_follow_days);
    let subscriber = JsonModel::Bool(c.require_subscriber);
    let tier = JsonModel::Text(integer_text(c.min_sub_tier as int));
    let m1 = m0.push(("require_follower"@, follower));
    let m2 = m1.push(("min_follow_days"@, days));
    let m3 = m2.push(("require_subscriber"@, subscriber));
    assert forall|k: Seq<char>| #[trigger]
        member(m3.push(("min_sub_tier"@, tier)), k) == if k == "min_sub_tier"@ {
        Some(tier)
    } else if k == "require_subscriber"@ {
        Some(subscriber)
    } else if k == "min_follow_days"@ {
        Some(days)
    } else if k == "require_follower"@ {
        Some(follower)
    } else {
        None
    } by {
        lemma_member_of_push(m0, "require_follower"@, follower, k);
        lemma_member_of_push(m1, "min_follow_days"@, days, k);
        lemma_member_of_push(m2, "require_subscriber"@, subscriber, k);
        lemma_member_of_push(m3, "min_sub_tier"@, tier, k);
    }
    law_integer_text_reads_back(c.min_sub_tier as int);
}

/// The fields of the form hold what is set now, each under its own name.
pub proof fn law_form_shows_the_conditions(c: TwitchConditions)
    ensures
        values_json(c).get("require_follower"@) == Some(JsonModel::Bool(c.require_follower)),
        values_json(c).get("min_follow_days"@) == Some(JsonModel::Int(c.min_follow_days)),
        values_json(c).get("require_subscriber"@) == Some(JsonModel::Bool(c.require_subscriber)),
        values_json(c).get("min_sub_tier"@) == Some(
            JsonModel::Text(integer_text(c.min_sub_tier as int)),
        ),
{
    reveal_strlit("require_follower");
    reveal_strlit("min_follow_days");
    reveal_strlit("require_subscriber");
    reveal_strlit("min_sub_tier");
    assert("require_follower"@.len() == 16 && "min_follow_days"@.len() == 15
        && "require_subscriber"@.len() == 18 && "min_sub_tier"@.len() == 12);
    let d0 = json_object();
    let v1 = JsonModel::Bool(c.require_follower);
    let d1 = d0.with("require_follower"@, v1);
    lemma_with(d0, "require_follower"@, v1);
    let v2 = JsonModel::Int(c.min_follow_days);
    let d2 = d1.with("min_follow_days"@, v2);
    lemma_with(d1, "min_follow_days"@, v2);
    let v3 = JsonModel::Bool(c.require_subscriber);
    let d3 = d2.with("require_subscriber"@, v3);
    lemma_with(d2, "require_subscriber"@, v3);
    let v4 = JsonModel::Text(integer_text(c.min_sub_tier as int));
    let d4 = d3.with("min_sub_tier"@, v4);
    lemma_with(d3, "min_sub_tier"@, v4);
    assert(values_json(c) == d4);
}

/// The description of the form: its version and name, its four sections, and
/// what its fields hold now.
pub proof fn law_form_description(
    c: TwitchConditions,
    channel: Option<(Seq<char>, Seq<char>)>,
    verify_url: Seq<char>,
    connect_url: Seq<char>,
)
    ensures
        ({
            let doc = schema_json(c, channel, verify_url, connect_url);
            &&& doc.get("version"@) == Some(JsonModel::Int(1))
            &&& doc.get("name"@) == Some(JsonModel::Text("Twitch Follower Role"@))
            &&& doc.get("values"@) == Some(values_json(c))
            &&& doc.get("sections"@) matches Some(JsonModel::Array(sections)) && sections.len() == 4
                && sections[0] == connection_section_json(connection_text(channel, connect_url))
                && sections[1] == verification_section_json(verify_text(verify_url))
        }),
{
    reveal_strlit("version");
    reveal_strlit("name");
    reveal_strlit("description");
    reveal_strlit("sections");
    reveal_strlit("values");
    assert("version"@.len() == 7 && "name"@.len() == 4 && "description"@.len() == 11
        && "sections"@.len() == 8 && "values"@.len() == 6);
    let d0 = json_object();
    let v1 = JsonModel::Int(1);
    let d1 = d0.with("version"@, v1);
    lemma_with(d0, "version"@, v1);
    let v2 = JsonModel::Text("Twitch Follower Role"@);
    let d2 = d1.with("name"@, v2);
    lemma_with(d1, "name"@, v2);
    let v3 = JsonModel::Text(
        "Assign Discord roles based on Twitch channel follow/sub status."@,
    );
    let d3 = d2.with("description"@, v3);
    lemma_with(d2, "description"@, v3);
    let v4 = json_array().item(connection_section_json(connection_text(channel, connect_url))).item(
        verification_section_json(verify_text(verify_url)),
    ).item(conditions_section_json()).item(examples_section_json());
    let d4 = d3.with("sections"@, v4);
    lemma_with(d3, "sections"@, v4);
    let v5 = values_json(c);
    let d5 = d4.with("values"@, v5);
    lemma_with(d4, "values"@, v5);
    assert(schema_json(c, channel, verify_url, connect_url) == d5);
}

/// What the form says of the channel: its login and id where one is connected,
/// that none is where none is, and in either case where to connect one.
pub proof fn law_form_names_the_channel(
    id: Seq<char>,
    login: Seq<char>,
    connect_url: Seq<char>,
    verify_url: Seq<char>,
)
    ensures
        connection_text(Some((id, login)), connect_url) == "Connected as: "@ + login + " (ID: "@ + id
            + ")\nTo reconnect with a different account, visit:\n"@ + connect_url,
        connection_text(None, connect_url)
            == "No Twitch channel connected.\nThe channel owner must authorize this plugin:\n"@
            + connect_url,
        contains_text(verify_text(verify_url), verify_url),
{
    law_contained_text(
        "Members link their Discord and Twitch accounts at:\n"@,
        verify_url,
        "\n\nOnce linked, their Twitch follow/subscription status is checked automatically and roles are updated in real-time."@,
    );
}

/// What the fields stand for. A toggle is on exactly when it is set to true. The
/// days and the tier count only while their toggle is on: the days as the number
/// given, 0 without one, the tier as the number that is selected, 1 without one.
pub proof fn law_fields_of_the_form(config: JsonModel, c: TwitchConditions, n: i64, tier: i32)
    requires
        parsed_config(config) == Ok::<TwitchConditions, ErrorModel>(c),
    ensures
        c.require_follower <==> config.get("require_follower"@) == Some(JsonModel::Bool(true)),
        c.require_subscriber <==> config.get("require_subscriber"@) == Some(JsonModel::Bool(true)),
        c.require_follower && config.get("min_follow_days"@) == Some(JsonModel::Int(n))
            ==> c.min_follow_days == n,
        c.require_follower && config.get("min_follow_days"@) is None ==> c.min_follow_days == 0,
        c.require_subscriber && config.get("min_sub_tier"@) == Some(
            JsonModel::Text(integer_text(tier as int)),
        ) ==> c.min_sub_tier == tier,
        c.require_subscriber && config.get("min_sub_tier"@) is None ==> c.min_sub_tier == 1,
{
    law_integer_text_reads_back(tier as int);
}

/// When a form is refused: days below 0, a tier that is not 1, 2 or 3, or nothing
/// that is asked for.
pub proof fn law_refused_forms(config: JsonModel, n: i64, tier: i32)
    ensures
        config.get("require_follower"@) != Some(JsonModel::Bool(true)) && config.get(
            "require_subscriber"@,
        ) != Some(JsonModel::Bool(true)) ==> parsed_config(config) is Err,
        config.get("require_follower"@) == Some(JsonModel::Bool(true)) && config.get(
            "min_follow_days"@,
        ) == Some(JsonModel::Int(n)) && n < 0 ==> parsed_config(config) == Err::<
            TwitchConditions,
            ErrorModel,
        >(ErrorModel::BadRequest("Minimum follow days must be 0 or greater"@)),
        config.get("require_follower"@) is None && config.get("require_subscriber"@) == Some(
            JsonModel::Bool(true),
        ) && config.get("min_sub_tier"@) == Some(JsonModel::Text(integer_text(tier as int))) ==> (
        parsed_config(config) is Ok <==> tier == 1 || tier == 2 || tier == 3),
        config.get("require_follower"@) == Some(JsonModel::Bool(true)) && config.get(
            "min_follow_days"@,
        ) == Some(JsonModel::Int(n)) && n >= 0 && config.get("require_subscriber"@) is None
            ==> parsed_config(config) is Ok,
{
    law_integer_text_reads_back(tier as int);
}

/// The fields of the form by which conditions are set: two toggles, the days
/// while the first is on, the tier while the second is, with tiers 1 to 3.
pub proof fn law_form_fields()
    ensures
        conditions_section_json().get("fields"@) matches Some(JsonModel::Array(fields))
            && fields.len() == 4 && fields[0].get("key"@) == Some(
            JsonModel::Text("require_follower"@),
        ) && fields[0].get("type"@) == Some(JsonModel::Text("toggle"@)) && fields[1].get("key"@)
            == Some(JsonModel::Text("min_follow_days"@)) && fields[1].get("type"@) == Some(
            JsonModel::Text("number"@),
        ) && fields[1].get("condition"@) == Some(shown_with_json("require_follower"@))
            && fields[2].get("key"@) == Some(JsonModel::Text("require_subscriber"@))
            && fields[2].get("type"@) == Some(JsonModel::Text("toggle"@)) && fields[3].get("key"@)
            == Some(JsonModel::Text("min_sub_tier"@)) && fields[3].get("type"@) == Some(
            JsonModel::Text("select"@),
        ) && fields[3].get("condition"@) == Some(shown_with_json("require_subscriber"@)) && (
        fields[3].get("options"@) matches Some(JsonModel::Array(options)) && options.len() == 3
            && options[0] == option_json("Tier 1 ($4.99)"@, "1"@) && options[1] == option_json(
            "Tier 2 ($9.99)"@,
            "2"@,
        ) && options[2] == option_json("Tier 3 ($24.99)"@, "3"@)),
{
    let follower = input_json(
        "toggle"@,
        "require_follower"@,
        "Require Follower"@,
        "User must be following the channel."@,
    );
    let days0 = input_json(
        "number"@,
        "min_follow_days"@,
        "Minimum Follow Days"@,
        "Minimum number of days the user must have been following. 0 means just following is enough."@,
    );
    let subscriber = input_json(
        "toggle"@,
        "require_subscriber"@,
        "Require Subscriber"@,
        "User must be subscribed to the channel."@,
    );
    let tier0 = input_json(
        "select"@,
        "min_sub_tier"@,
        "Minimum Sub Tier"@,
        "Minimum subscription tier required."@,
    );
    lemma_input_field(
        "toggle"@,
        "require_follower"@,
        "Require Follower"@,
        "User must be following the channel."@,
    );
    lemma_input_field(
        "number"@,
        "min_follow_days"@,
        "Minimum Follow Days"@,
        "Minimum number of days the user must have been following. 0 means just following is enough."@,
    );
    lemma_input_field(
        "toggle"@,
        "require_subscriber"@,
        "Require Subscriber"@,
        "User must be subscribed to the channel."@,
    );
    lemma_input_field(
        "select"@,
        "min_sub_tier"@,
        "Minimum Sub Tier"@,
        "Minimum subscription tier required."@,
    );
    reveal_strlit("type");
    reveal_strlit("key");
    reveal_strlit("validation");
    reveal_strlit("condition");
    reveal_strlit("options");
    reveal_strlit("title");
    reveal_strlit("description");
    reveal_strlit("fields");
    assert("type"@.len() == 4 && "key"@.len() == 3 && "validation"@.len() == 10
        && "condition"@.len() == 9 && "options"@.len() == 7 && "title"@.len() == 5
        && "description"@.len() == 11 && "fields"@.len() == 6);
    let minimum = json_object().with("min"@, JsonModel::Int(0));
    let days1 = days0.with("validation"@, minimum);
    let days = days1.with("condition"@, shown_with_json("require_follower"@));
    lemma_with(days0, "validation"@, minimum);
    lemma_with(days1, "condition"@, shown_with_json("require_follower"@));
    let options = json_array().item(option_json("Tier 1 ($4.99)"@, "1"@)).item(
        option_json("Tier 2 ($9.99)"@, "2"@),
    ).item(option_json("Tier 3 ($24.99)"@, "3"@));
    let tier1 = tier0.with("options"@, options);
    let tier = tier1.with("condition"@, shown_with_json("require_subscriber"@));
    lemma_with(tier0, "options"@, options);
    lemma_with(tier1, "condition"@, shown_with_json("require_subscriber"@));
    let fields = json_array().item(follower).item(days).item(subscriber).item(tier);
    let about = JsonModel::Text(
        "Set the requirements for earning this role. All enabled conditions must be met (AND logic)."@,
    );
    let s1 = json_object().with("title"@, JsonModel::Text("Conditions"@));
    let s2 = s1.with("description"@, about);
    lemma_with(json_object(), "title"@, JsonModel::Text("Conditions"@));
    lemma_with(s1, "description"@, about);
    lemma_with(s2, "fields"@, fields);
    assert(conditions_section_json() == s2.with("fields"@, fields));
}

proof fn lemma_input_field(
    kind: Seq<char>,
    key: Seq<char>,
    label: Seq<char>,
    description: Seq<char>,
)
    ensures
        input_json(kind, key, label, description) is Object,
        input_json(kind, key, label, description).get("type"@) == Some(JsonModel::Text(kind)),
        input_json(kind, key, label, description).get("key"@) == Some(JsonModel::Text(key)),
{
    reveal_strlit("type");
    reveal_strlit("key");
    reveal_strlit("label");
    reveal_strlit("description");
    assert("type"@.len() == 4 && "key"@.len() == 3 && "label"@.len() == 5
        && "description"@.len() == 11);
    let d0 = json_object();
    let v1 = JsonModel::Text(kind);
    let d1 = d0.with("type"@, v1);
    lemma_with(d0, "type"@, v1);
    let v2 = JsonModel::Text(key);
    let d2 = d1.with("key"@, v2);
    lemma_with(d1, "key"@, v2);
    let v3 = JsonModel::Text(label);
    let d3 = d2.with("label"@, v3);
    lemma_with(d2, "label"@, v3);
    let v4 = JsonModel::Text(description);
    let d4 = d3.with("description"@, v4);
    lemma_with(d3, "description"@, v4);
    assert(input_json(kind, key, label, description) == d4);
}

} // verus!
