//! The endpoints that RoleLogic calls, authorized by the role link's token.
use vstd::prelude::*;

use crate::error::{error_view, AppError, ErrorModel};
use crate::json::{json_object, lemma_with, JsonModel, JsonValue};
use crate::models::condition::TwitchConditions;
use crate::schema::{build_config_schema, schema_json};
use crate::text::strip_prefix;

verus! {

/// The token in the value of an `Authorization` header.
pub open spec fn token_in(authorization: Option<Seq<char>>) -> Option<Seq<char>> {
    match authorization {
        Some(value) => if "Token "@.is_prefix_of(value) {
            Some(value.skip("Token "@.len() as int))
        } else {
            None
        },
        None => None,
    }
}

/// The characters of an optional text.
pub open spec fn str_view(t: Option<&str>) -> Option<Seq<char>> {
    match t {
        Some(s) => Some(s@),
        None => None,
    }
}

/// The token of a request, from the value of its `Authorization` header.
pub fn extract_token(authorization: Option<&str>) -> (r: Result<String, AppError>)
    ensures
        match r {
            Ok(token) => token_in(str_view(authorization)) == Some(token@),
            Err(e) => token_in(str_view(authorization)) is None && e@ is Unauthorized,
        },
{
    match authorization {
        Some(value) => match strip_prefix(value, "Token ") {
            Some(token) => {
                assert(value@.skip("Token "@.len() as int) =~= token@);
                assert(value@.subrange(0, "Token "@.len() as int) =~= "Token "@);
                Ok(token)
            },
            None => Err(AppError::Unauthorized),
        },
        None => Err(AppError::Unauthorized),
    }
}

/// A token that was handed out is read back from the header that carries it.
pub proof fn law_token_is_read_back(token: Seq<char>)
    ensures
        token_in(Some("Token "@ + token)) == Some(token),
{
    let value = "Token "@ + token;
    assert(value.skip("Token "@.len() as int) =~= token);
    assert(value.subrange(0, "Token "@.len() as int) =~= "Token "@);
}

/// What a request is answered that was carried out.
pub open spec fn success_json() -> JsonModel {
    json_object().with("success"@, JsonModel::Bool(true))
}

/// What a request is answered that was carried out.
pub fn success_reply() -> (r: JsonValue)
    ensures
        r@ == success_json(),
{
    JsonValue::object().with("success", JsonValue::Bool(true))
}

#[derive(Debug)]
pub struct RegisterBody {
    pub guild_id: String,
    pub role_id: String,
}

/// A role link to be stored. One that exists gets the new token.
#[derive(Debug)]
pub struct Registration {
    pub guild_id: String,
    pub role_id: String,
    pub api_token: String,
}

/// Register a guild/role pair under the token of the request.
pub fn register(authorization: Option<&str>, body: RegisterBody) -> (r: Result<
    Registration,
    AppError,
>)
    ensures
        match r {
            Ok(link) => token_in(str_view(authorization)) == Some(link.api_token@) && link.guild_id
                == body.guild_id && link.role_id == body.role_id,
            Err(e) => token_in(str_view(authorization)) is None && e@ is Unauthorized,
        },
{
    match extract_token(authorization) {
        Ok(api_token) => Ok(
            Registration { guild_id: body.guild_id, role_id: body.role_id, api_token },
        ),
        Err(e) => Err(e),
    }
}

/// The role link that a token belongs to, as far as the settings form shows it.
#[derive(Debug)]
pub struct ConfigLink {
    pub guild_id: String,
    pub role_id: String,
    pub conditions: TwitchConditions,
    pub broadcaster_id: Option<String>,
    pub broadcaster_login: Option<String>,
}

/// The page on which members of a guild link their accounts. Guild ids are
/// digits only, so they need no encoding.
pub open spec fn verify_address(base_url: Seq<char>, guild_id: Seq<char>) -> Seq<char> {
    base_url + "/verify?guild="@ + guild_id
}

/// The page on which a channel owner authorizes the plugin.
pub open spec fn connect_address(
    base_url: Seq<char>,
    guild_id: Seq<char>,
    role_id: Seq<char>,
) -> Seq<char> {
    base_url + "/connect?guild_id="@ + guild_id + "&role_id="@ + role_id
}

/// The page on which members of a guild link their accounts.
pub fn verify_url(base_url: &str, guild_id: &str) -> (r: String)
    ensures
        r@ == verify_address(base_url@, guild_id@),
{
    let mut url = base_url.to_owned();
    url.append("/verify?guild=");
    url.append(guild_id);
    url
}

/// The connected channel of a role link, where its id and login are known.
pub open spec fn channel_of(link: ConfigLink) -> Option<(Seq<char>, Seq<char>)> {
    match (link.broadcaster_id, link.broadcaster_login) {
        (Some(id), Some(login)) => Some((id@, login@)),
        _ => None,
    }
}

/// The settings form of the role link that the token belongs to. Without such
/// a role link the request is not authorized.
pub fn get_config(base_url: &str, link: &Option<ConfigLink>) -> (r: Result<JsonValue, AppError>)
    ensures
        match (r, *link) {
            (Ok(doc), Some(l)) => doc@ == schema_json(
                l.conditions,
                channel_of(l),
                verify_address(base_url@, l.guild_id@),
                connect_address(base_url@, l.guild_id@, l.role_id@),
            ),
            (Err(e), None) => e@ is Unauthorized,
            _ => false,
        },
{
    match link {
        None => Err(AppError::Unauthorized),
        Some(link) => {
            let verify = verify_url(base_url, link.guild_id.as_str());
            let mut connect = base_url.to_owned();
            connect.append("/connect?guild_id=");
            connect.append(link.guild_id.as_str());
            connect.append("&role_id=");
            connect.append(link.role_id.as_str());
            let channel = match (&link.broadcaster_id, &link.broadcaster_login) {
                (Some(id), Some(login)) => Some((id.as_str(), login.as_str())),
                _ => None,
            };
            Ok(
                build_config_schema(
                    &link.conditions,
                    channel,
                    verify.as_str(),
                    connect.as_str(),
                ),
            )
        },
    }
}

#[derive(Debug)]
pub struct ConfigBody {
    pub guild_id: String,
    pub role_id: String,
    pub config: JsonValue,
}

/// Rules are edited in the embedded page, so a posted form changes nothing; it
/// is only checked that its token belongs to the role link. `exists` is `None`
/// where that could not be found out.
pub fn post_config(exists: Option<bool>) -> (r: Result<JsonValue, AppError>)
    ensures
        match r {
            Ok(doc) => exists == Some(true) && doc@ == success_json(),
            Err(e) => exists != Some(true) && e@ is Unauthorized,
        },
{
    match exists {
        Some(true) => Ok(success_reply()),
        _ => Err(AppError::Unauthorized),
    }
}

#[derive(Debug)]
pub struct DeleteConfigBody {
    pub guild_id: String,
    pub role_id: String,
}

/// What follows the deletion of a role link: the broadcaster to clean up
/// behind, if one was connected. Where no link was deleted the token did not
/// belong to it.
pub fn delete_config(rows_affected: u64, broadcaster_id: Option<String>) -> (r: Result<
    Option<String>,
    AppError,
>)
    ensures
        error_view(r) == if rows_affected == 0 {
            Err::<Option<String>, ErrorModel>(ErrorModel::Unauthorized)
        } else {
            Ok::<Option<String>, ErrorModel>(broadcaster_id)
        },
{
    if rows_affected == 0 {
        Err(AppError::Unauthorized)
    } else {
        Ok(broadcaster_id)
    }
}

/// A header carries a token exactly when it is "Token ", then the token.
pub proof fn law_what_carries_a_token(value: Seq<char>, token: Seq<char>)
    ensures
        token_in(Some(value)) == Some(token) <==> value == "Token "@ + token,
        token_in(None) is None,
{
    reveal_strlit("Token ");
    if value == "Token "@ + token {
        law_token_is_read_back(token);
    }
    if token_in(Some(value)) == Some(token) {
        let n = "Token "@.len() as int;
        assert(value =~= value.subrange(0, n) + value.skip(n));
        assert("Token "@ == value.subrange(0, n));
    }
}

/// A request that was carried out is answered with success.
pub proof fn law_success_is_said()
    ensures
        success_json().get("success"@) == Some(JsonModel::Bool(true)),
{
    lemma_with(json_object(), "success"@, JsonModel::Bool(true));
}

/// The pages of a guild are told apart by its id, those of a role link by the
/// guild and the role.
pub proof fn law_addresses(base_url: Seq<char>, guild_id: Seq<char>, role_id: Seq<char>)
    ensures
        verify_address(base_url, guild_id) == base_url + "/verify?guild="@ + guild_id,
        connect_address(base_url, guild_id, role_id) == base_url + "/connect?guild_id="@ + guild_id
            + "&role_id="@ + role_id,
{
}

/// A channel is shown as connected exactly when its id and its login are both
/// known, and by these.
pub proof fn law_shown_channel(link: ConfigLink)
    ensures
        channel_of(link) is Some <==> link.broadcaster_id is Some && link.broadcaster_login is Some,
        channel_of(link) matches Some(c) ==> c.0 == link.broadcaster_id->0@ && c.1
            == link.broadcaster_login->0@,
{
}

} // verus!
