//! Admin iframe routes: the embedded rule-builder page plus its data/save/
//! preview calls and the per-role-link broadcaster connect/disconnect actions.
//!
//! There are two ways in: the page is entered either with a RoleLogic token
//! (iframe), which is verified and exchanged for a short-lived session of the
//! page, or by direct navigation with the shared session cookie and a manager
//! check.
use vstd::prelude::*;
use vstd::utf8::encode_utf8;

use crate::config::AppConfig;
use crate::error::{error_view, AppError, ErrorModel};
use crate::json::{
    json_array, json_count, json_object, lemma_with, opt_view, optional_text, JsonModel, JsonValue,
};
use crate::models::condition::{ConditionOperator, ConditionTarget, TargetKind};
use crate::models::rule::{RuleModel, RuleTree, MAX_CONDITIONS_PER_GROUP, MAX_GROUPS};
use crate::models::stored::{groups_json, rule_in, rule_json, stored_rule};
use crate::outside::{percent_encode, percent_encoded};
use crate::routes::admin_pages::{
    ERROR_END, ERROR_STYLE, ERROR_TOP, NO_TOKEN_END, NO_TOKEN_TEXT, NO_TOKEN_TOP, SIGNIN_ACTIONS,
    SIGNIN_END, SIGNIN_TEXT, SIGNIN_TOP,
};
use crate::routes::broadcaster::{start_broadcaster, OauthStart};
use crate::routes::oauth::new_state_token;
use crate::routes::plugin::{str_view, verify_address, verify_url};
use crate::routes::users::{permission_of, view_permission};
use crate::services::rule_sql::{
    build_rule_where, clause_sql, rule_binds, rule_clause, rule_text, Bind,
};
use crate::services::rule_validator::{
    law_accepted_rules_are_acceptable, law_accepted_rules_are_kept, parse_rule_tree, parsed_rule,
    same_letters, BodyModel, RuleTreeBody,
};
use crate::services::sync::{grants_nobody, ConfigSyncEvent};
use crate::text::{
    ascii_lower, ascii_lower_char, contains_text, html_escape, html_escaped,
    law_nothing_to_replace, law_replacing, occurs_at, replace_all, replaced, str_eq,
    to_ascii_lower,
};

verus! {

/// Twitch OAuth scopes the broadcaster grants so we can read followers and
/// subscriptions for their channel.
pub const BROADCASTER_SCOPES: &'static str = "moderator:read:followers channel:read:subscriptions";

pub const NO_SUCH_LINK: &'static str = "This role link doesn't exist. Has it been added in RoleLogic?";

pub const SESSION_EXPIRED: &'static str = "Your session expired. Reopen the plugin in the RoleLogic dashboard.";

// ---------------------------------------------------------------------
// Who may do what
// ---------------------------------------------------------------------

/// Outcome of an access check for the role-config endpoints: who is calling and
/// whether the session is read-only (a developer impersonating the user).
#[derive(Debug)]
pub struct RoleConfigAccess {
    pub discord_id: String,
    pub read_only: bool,
}

/// What a session of the embedded page says.
#[derive(Debug)]
pub struct IframeSession {
    pub discord_id: String,
    pub guild_id: String,
    pub role_id: String,
    pub read_only: bool,
}

/// How a caller comes: with a session of the embedded page (nothing where it
/// does not verify), or with the cookie, after the manager check.
pub enum Caller {
    Bearer(Option<IframeSession>),
    Cookie(Result<String, AppError>),
}

/// The session belongs to this role link.
pub open spec fn session_matches(s: IframeSession, guild_id: Seq<char>, role_id: Seq<char>) -> bool {
    s.guild_id@ == guild_id && s.role_id@ == role_id
}

/// What a caller may do with a role link, or why nothing: with a session of the
/// embedded page for this role link as much as the session says, with the cookie
/// of a manager everything.
pub open spec fn access_for(caller: Caller, guild_id: Seq<char>, role_id: Seq<char>) -> Result<
    RoleConfigAccess,
    ErrorModel,
> {
    match caller {
        Caller::Bearer(None) => Err(ErrorModel::UnauthorizedWith(SESSION_EXPIRED@)),
        Caller::Bearer(Some(s)) => if session_matches(s, guild_id, role_id) {
            Ok(RoleConfigAccess { discord_id: s.discord_id, read_only: s.read_only })
        } else {
            Err(ErrorModel::Forbidden("Token does not grant access to this role link."@))
        },
        Caller::Cookie(Ok(discord_id)) => Ok(RoleConfigAccess { discord_id, read_only: false }),
        Caller::Cookie(Err(e)) => Err(e@),
    }
}

/// Who has access to a role link: a valid session of the embedded page for just
/// this guild and role, with no more rights than it carries, or a manager of the
/// guild, with all rights. Everyone else is refused.
pub proof fn law_who_has_access(caller: Caller, guild_id: Seq<char>, role_id: Seq<char>)
    ensures
        access_for(caller, guild_id, role_id) is Ok <==> (caller matches Caller::Bearer(Some(s))
            && s.guild_id@ == guild_id && s.role_id@ == role_id) || (
        caller matches Caller::Cookie(Ok(_))),
        access_for(caller, guild_id, role_id) matches Ok(access) ==> match caller {
            Caller::Bearer(Some(s)) => access.read_only == s.read_only && access.discord_id
                == s.discord_id,
            Caller::Bearer(None) => false,
            Caller::Cookie(Ok(id)) => !access.read_only && access.discord_id == id,
            Caller::Cookie(Err(_)) => false,
        },
        access_for(caller, guild_id, role_id) matches Err(e) ==> match caller {
            Caller::Bearer(Some(_)) => e is Forbidden,
            Caller::Bearer(None) => e is UnauthorizedWith,
            Caller::Cookie(Ok(_)) => false,
            Caller::Cookie(Err(cause)) => e == cause@,
        },
{
}

/// Dual gate: a session of the embedded page, or the cookie of a manager of
/// the guild.
pub fn require_role_config_access(caller: Caller, guild_id: &str, role_id: &str) -> (r: Result<
    RoleConfigAccess,
    AppError,
>)
    ensures
        error_view(r) == access_for(caller, guild_id@, role_id@),
        caller matches Caller::Cookie(Err(e)) ==> r == Err::<RoleConfigAccess, AppError>(e),
{
    match caller {
        Caller::Bearer(None) => Err(AppError::UnauthorizedWith(SESSION_EXPIRED.to_owned())),
        Caller::Bearer(Some(s)) => {
            if str_eq(s.guild_id.as_str(), guild_id) && str_eq(s.role_id.as_str(), role_id) {
                Ok(RoleConfigAccess { discord_id: s.discord_id, read_only: s.read_only })
            } else {
                Err(
                    AppError::Forbidden("Token does not grant access to this role link.".to_owned()),
                )
            }
        },
        Caller::Cookie(Ok(discord_id)) => Ok(RoleConfigAccess { discord_id, read_only: false }),
        Caller::Cookie(Err(e)) => Err(e),
    }
}

/// Why a read-only session may not write.
pub const READ_ONLY_REFUSAL: &'static str = "This configuration is read-only while impersonating a user.";

/// Whether a session may write, or why not.
pub open spec fn may_write(read_only: bool) -> Result<(), ErrorModel> {
    if read_only {
        Err(ErrorModel::Forbidden(READ_ONLY_REFUSAL@))
    } else {
        Ok(())
    }
}

/// Read-only sessions, and only these, are refused every change.
pub proof fn law_read_only_sessions_may_not_write(read_only: bool)
    ensures
        may_write(read_only) is Ok == !read_only,
        may_write(read_only) matches Err(e) ==> e == ErrorModel::Forbidden(
            "This configuration is read-only while impersonating a user."@,
        ),
{
}

/// Read-only sessions (a developer impersonating the user) may view but not
/// write.
pub fn require_write(access: &RoleConfigAccess) -> (r: Result<(), AppError>)
    ensures
        error_view(r) == may_write(access.read_only),
        r is Ok == !access.read_only,
{
    if access.read_only {
        Err(AppError::Forbidden(READ_ONLY_REFUSAL.to_owned()))
    } else {
        Ok(())
    }
}

// ---------------------------------------------------------------------
// Connecting and disconnecting a channel
// ---------------------------------------------------------------------

/// Start the broadcaster OAuth flow for this role link, which must exist, if the
/// caller is allowed to write. The address is answered, so that the page can
/// open it in a new tab.
pub fn broadcaster_connect(
    config: &AppConfig,
    access: &RoleConfigAccess,
    guild_id: &str,
    role_id: &str,
    exists: bool,
) -> (r: Result<(OauthStart, JsonValue), AppError>)
    ensures
        match r {
            Ok((start, reply)) => {
                &&& !access.read_only
                &&& exists
                &&& start.has_token()
                &&& start.for_broadcaster(
                    *config,
                    guild_id@,
                    role_id@,
                    percent_encoded(encode_utf8(BROADCASTER_SCOPES@)),
                )
                &&& reply@ == json_object().with("authorize_url"@, JsonModel::Text(start.url@))
            },
            Err(e) => if access.read_only {
                e@ == ErrorModel::Forbidden(READ_ONLY_REFUSAL@)
            } else {
                !exists && e@ == ErrorModel::NotFound(NO_SUCH_LINK@)
            },
        },
{
    match require_write(access) {
        Ok(_) => {},
        Err(e) => {
            return Err(e);
        },
    }
    if !exists {
        return Err(AppError::NotFound(NO_SUCH_LINK.to_owned()));
    }
    let scope = percent_encode(BROADCASTER_SCOPES);
    let start = start_broadcaster(config, guild_id, role_id, scope.as_str(), new_state_token());
    let reply = JsonValue::object().with("authorize_url", JsonValue::text(start.url.as_str()));
    Ok((start, reply))
}

/// The course of detaching the broadcaster from a role link. Each state names
/// the work that is to be done in it.
pub enum DisconnectFlow {
    /// Read the channel that is connected to the role link.
    FindChannel,
    /// Take the channel and its tokens out of the role link.
    Detach { broadcaster_id: Option<String> },
    /// Clean up behind the broadcaster, if no role link refers to them any more.
    CleanUp { broadcaster_id: String },
    /// Have the role link synced, and answer.
    Disconnected,
    Failed(AppError),
}

/// What came of the work of a [`DisconnectFlow`].
pub enum DisconnectReply {
    Channel(Result<Option<String>, AppError>),
    Done(Result<(), AppError>),
}

impl DisconnectFlow {
    /// `self` is where the detaching begins.
    pub open spec fn starts(self, read_only: bool) -> bool {
        if read_only {
            self matches DisconnectFlow::Failed(e) && e@ == ErrorModel::Forbidden(
                READ_ONLY_REFUSAL@,
            )
        } else {
            self is FindChannel
        }
    }

    /// Begin to detach the broadcaster: the caller must be allowed to write.
    pub fn start(access: &RoleConfigAccess) -> (r: DisconnectFlow)
        ensures
            r.starts(access.read_only),
    {
        match require_write(access) {
            Ok(_) => DisconnectFlow::FindChannel,
            Err(e) => DisconnectFlow::Failed(e),
        }
    }

    /// The state that follows. What a state does not wait for leaves it as it
    /// is.
    pub open spec fn followed_by(self, reply: DisconnectReply) -> DisconnectFlow {
        match (self, reply) {
            (DisconnectFlow::FindChannel, DisconnectReply::Channel(channel)) => match channel {
                Ok(broadcaster_id) => DisconnectFlow::Detach { broadcaster_id },
                Err(e) => DisconnectFlow::Failed(e),
            },
            (DisconnectFlow::Detach { broadcaster_id }, DisconnectReply::Done(done)) => match (
                done,
                broadcaster_id,
            ) {
                (Ok(_), Some(broadcaster_id)) => DisconnectFlow::CleanUp { broadcaster_id },
                (Ok(_), None) => DisconnectFlow::Disconnected,
                (Err(e), _) => DisconnectFlow::Failed(e),
            },
            (DisconnectFlow::CleanUp { .. }, DisconnectReply::Done(_)) =>
                DisconnectFlow::Disconnected,
            _ => self,
        }
    }

    /// The state that follows.
    pub fn next(self, reply: DisconnectReply) -> (r: DisconnectFlow)
        ensures
            r == self.followed_by(reply),
    {
        match (self, reply) {
            (DisconnectFlow::FindChannel, DisconnectReply::Channel(channel)) => match channel {
                Ok(broadcaster_id) => DisconnectFlow::Detach { broadcaster_id },
                Err(e) => DisconnectFlow::Failed(e),
            },
            (DisconnectFlow::Detach { broadcaster_id }, DisconnectReply::Done(done)) => match done {
                Ok(_) => match broadcaster_id {
                    Some(broadcaster_id) => DisconnectFlow::CleanUp { broadcaster_id },
                    None => DisconnectFlow::Disconnected,
                },
                Err(e) => DisconnectFlow::Failed(e),
            },
            (DisconnectFlow::CleanUp { .. }, DisconnectReply::Done(_)) => {
                DisconnectFlow::Disconnected
            },
            (state, _) => state,
        }
    }
}

/// What follows detaching the broadcaster from a role link: the role link is
/// synced, so that the role is taken from everyone.
pub fn broadcaster_disconnect(guild_id: String, role_id: String) -> (r: (
    ConfigSyncEvent,
    JsonValue,
))
    ensures
        r.0.guild_id == guild_id,
        r.0.role_id == role_id,
        r.1@ == json_object().with("removed"@, JsonModel::Bool(true)),
{
    let reply = JsonValue::object().with("removed", JsonValue::Bool(true));
    (ConfigSyncEvent { guild_id, role_id }, reply)
}

/// A channel is cleaned up behind only once it was taken out of the role link.
pub proof fn law_detached_before_cleanup(state: DisconnectFlow, reply: DisconnectReply)
    requires
        state.followed_by(reply) is CleanUp || state.followed_by(reply) is Disconnected,
        !(state is CleanUp || state is Disconnected),
    ensures
        state is Detach,
        reply matches DisconnectReply::Done(Ok(_)),
{
}

// ---------------------------------------------------------------------
// The page
// ---------------------------------------------------------------------

#[derive(Debug)]
pub struct RoleConfigPageQuery {
    pub rl_token: Option<String>,
}

/// An HTML page, with the status it is answered with.
#[derive(Debug)]
pub struct Page {
    pub status: u16,
    pub html: String,
}

/// How the page is entered.
#[derive(Debug)]
pub enum PageEntry {
    /// With a token that RoleLogic has appended.
    Iframe { rl_token: String },
    /// By direct navigation.
    Direct,
}

/// How the page is entered. An empty token counts as none.
pub fn page_entry(query: RoleConfigPageQuery) -> (r: PageEntry)
    ensures
        r == match query.rl_token {
            Some(rl_token) => if rl_token@.len() > 0 {
                PageEntry::Iframe { rl_token }
            } else {
                PageEntry::Direct
            },
            None => PageEntry::Direct,
        },
{
    match query.rl_token {
        Some(rl_token) => if rl_token.as_str().is_empty() {
            PageEntry::Direct
        } else {
            PageEntry::Iframe { rl_token }
        },
        None => PageEntry::Direct,
    }
}

/// What a token of RoleLogic says once it is verified.
#[derive(Debug)]
pub struct VerifiedToken {
    pub discord_id: String,
    pub guild_id: String,
    pub role_id: String,
    pub read_only: bool,
}

/// Why a token of RoleLogic does not verify.
#[derive(Debug, Clone, Copy, PartialEq, Eq, Structural)]
pub enum RlTokenError {
    Expired,
    BadSignature,
    Malformed,
    WrongAudience,
    WrongIssuer,
}

/// What the page says of a token that does not verify.
pub open spec fn token_refusal(e: RlTokenError) -> Seq<char> {
    match e {
        RlTokenError::Expired => SESSION_EXPIRED@,
        RlTokenError::BadSignature | RlTokenError::Malformed => "Invalid auth token."@,
        RlTokenError::WrongAudience => "Token is for a different plugin."@,
        RlTokenError::WrongIssuer => "Token was not issued by RoleLogic."@,
    }
}

/// The key that the token of a role link is verified with, or what the page
/// says: the role link must be registered.
pub fn entry_key(stored: Result<Option<String>, String>) -> (r: Result<String, String>)
    ensures
        match (stored, r) {
            (Ok(Some(key)), Ok(given)) => given == key,
            (Ok(None), Err(message)) => message@
                == "This role link isn't registered with this plugin yet."@,
            (Err(e), Err(message)) => message@ == "Database error: "@ + e@,
            _ => false,
        },
{
    match stored {
        Ok(Some(key)) => Ok(key),
        Ok(None) => Err("This role link isn't registered with this plugin yet.".to_owned()),
        Err(e) => {
            let mut message = "Database error: ".to_owned();
            message.append(e.as_str());
            Err(message)
        },
    }
}

/// The token that lets the page in, or what the page says: a token is only
/// good for the role link it was made for.
pub fn verify_iframe_entry(
    verified: Result<VerifiedToken, RlTokenError>,
    guild_id: &str,
    role_id: &str,
) -> (r: Result<VerifiedToken, String>)
    ensures
        match verified {
            Ok(token) => if token.guild_id@ == guild_id@ && token.role_id@ == role_id@ {
                r == Ok::<VerifiedToken, String>(token)
            } else {
                r matches Err(message) && message@ == "Token does not match this role link."@
            },
            Err(e) => r matches Err(message) && message@ == token_refusal(e),
        },
{
    match verified {
        Ok(token) => {
            if str_eq(token.guild_id.as_str(), guild_id) && str_eq(token.role_id.as_str(), role_id) {
                Ok(token)
            } else {
                Err("Token does not match this role link.".to_owned())
            }
        },
        Err(RlTokenError::Expired) => Err(SESSION_EXPIRED.to_owned()),
        Err(RlTokenError::BadSignature) => Err("Invalid auth token.".to_owned()),
        Err(RlTokenError::Malformed) => Err("Invalid auth token.".to_owned()),
        Err(RlTokenError::WrongAudience) => Err("Token is for a different plugin.".to_owned()),
        Err(RlTokenError::WrongIssuer) => Err("Token was not issued by RoleLogic.".to_owned()),
    }
}

impl Page {
    /// The page of a token that does not let in.
    pub open spec fn is_error(self, base_url: Seq<char>, message: Seq<char>) -> bool {
        &&& self.status == 403
        &&& self.html@ == ERROR_TOP@ + base_url + ERROR_STYLE@ + html_escaped(message) + ERROR_END@
    }

    /// The page of a direct navigation that fails the manager check.
    pub open spec fn is_refusal(
        self,
        base_url: Seq<char>,
        sec_fetch_dest: Option<Seq<char>>,
        sec_fetch_site: Option<Seq<char>>,
        error: ErrorModel,
    ) -> bool {
        &&& self.status == 401
        &&& self.html@ == if embedded(sec_fetch_dest, sec_fetch_site) {
            NO_TOKEN_TOP@ + base_url + NO_TOKEN_TEXT@ + base_url + NO_TOKEN_END@
        } else {
            SIGNIN_TOP@ + base_url + SIGNIN_TEXT@ + html_escaped(error.description())
                + SIGNIN_ACTIONS@ + base_url + SIGNIN_END@
        }
    }

    /// The rule-builder page.
    pub open spec fn is_builder(
        self,
        template: Seq<char>,
        base_url: Seq<char>,
        guild_id: Seq<char>,
        role_id: Seq<char>,
        iframe_session: Option<Seq<char>>,
        read_only: bool,
    ) -> bool {
        &&& self.status == 200
        &&& self.html@ == replaced(
            replaced(
                replaced(
                    replaced(
                        replaced(template, "__BASE_URL__"@, base_url),
                        "__GUILD_ID__"@,
                        guild_id,
                    ),
                    "__ROLE_ID__"@,
                    role_id,
                ),
                "__IFRAME_TOKEN__"@,
                token_or_empty(iframe_session),
            ),
            "__READ_ONLY__"@,
            if read_only {
                "1"@
            } else {
                "0"@
            },
        )
    }
}

/// The page of a token that does not let in.
pub fn render_inline_error(base_url: &str, message: &str) -> (r: Page)
    ensures
        r.is_error(base_url@, message@),
{
    let mut html = ERROR_TOP.to_owned();
    html.append(base_url);
    html.append(ERROR_STYLE);
    html.append(html_escape(message).as_str());
    html.append(ERROR_END);
    Page { status: 403, html }
}

/// The value of a header in lower case, empty where it is missing.
pub open spec fn header_word(value: Option<Seq<char>>) -> Seq<char> {
    match value {
        Some(v) => ascii_lower(v),
        None => Seq::empty(),
    }
}

/// The headers are those of the document load of a cross-site iframe.
pub open spec fn embedded(dest: Option<Seq<char>>, site: Option<Seq<char>>) -> bool {
    header_word(dest) == "iframe"@ || header_word(dest) == "frame"@ || header_word(site)
        == "cross-site"@
}

fn lower_header(value: Option<&str>) -> (r: String)
    ensures
        r@ == header_word(str_view(value)),
{
    match value {
        Some(v) => to_ascii_lower(v),
        None => String::new(),
    }
}

/// Heuristic: is this the document load of a cross-site iframe? Used only to
/// pick the right *message* (never for authz). Takes the `Sec-Fetch-Dest` and
/// the `Sec-Fetch-Site` header.
pub fn looks_embedded(sec_fetch_dest: Option<&str>, sec_fetch_site: Option<&str>) -> (r: bool)
    ensures
        r == embedded(str_view(sec_fetch_dest), str_view(sec_fetch_site)),
{
    let dest = lower_header(sec_fetch_dest);
    let site = lower_header(sec_fetch_site);
    str_eq(dest.as_str(), "iframe") || str_eq(dest.as_str(), "frame") || str_eq(
        site.as_str(),
        "cross-site",
    )
}

/// The page of an embedded load to which RoleLogic has appended no token.
pub fn render_iframe_no_token(base_url: &str) -> (r: Page)
    ensures
        r.status == 401,
        r.html@ == NO_TOKEN_TOP@ + base_url@ + NO_TOKEN_TEXT@ + base_url@ + NO_TOKEN_END@,
{
    let mut html = NO_TOKEN_TOP.to_owned();
    html.append(base_url);
    html.append(NO_TOKEN_TEXT);
    html.append(base_url);
    html.append(NO_TOKEN_END);
    Page { status: 401, html }
}

/// Direct-nav (non-iframe) sign-in prompt, with the reason why it is shown.
pub fn render_signin_page(base_url: &str, reason: &str) -> (r: Page)
    ensures
        r.status == 401,
        r.html@ == SIGNIN_TOP@ + base_url@ + SIGNIN_TEXT@ + html_escaped(reason@) + SIGNIN_ACTIONS@
            + base_url@ + SIGNIN_END@,
{
    let mut html = SIGNIN_TOP.to_owned();
    html.append(base_url);
    html.append(SIGNIN_TEXT);
    html.append(html_escape(reason).as_str());
    html.append(SIGNIN_ACTIONS);
    html.append(base_url);
    html.append(SIGNIN_END);
    Page { status: 401, html }
}

/// The page of a direct navigation that fails the manager check. A cross-site
/// iframe does not carry the cookie, so one that comes without a token is told
/// what is wrong with its setup.
pub fn direct_refusal(
    base_url: &str,
    sec_fetch_dest: Option<&str>,
    sec_fetch_site: Option<&str>,
    error: &AppError,
) -> (r: Page)
    ensures
        r.is_refusal(base_url@, str_view(sec_fetch_dest), str_view(sec_fetch_site), error@),
{
    if looks_embedded(sec_fetch_dest, sec_fetch_site) {
        render_iframe_no_token(base_url)
    } else {
        render_signin_page(base_url, error.description().as_str())
    }
}

/// What the page carries as its session: nothing on direct navigation.
pub open spec fn token_or_empty(t: Option<Seq<char>>) -> Seq<char> {
    match t {
        Some(t) => t,
        None => Seq::empty(),
    }
}

/// The rule-builder page.
pub fn role_config_page(
    template: &str,
    base_url: &str,
    guild_id: &str,
    role_id: &str,
    iframe_session: Option<&str>,
    read_only: bool,
) -> (r: Page)
    ensures
        r.is_builder(
            template@,
            base_url@,
            guild_id@,
            role_id@,
            str_view(iframe_session),
            read_only,
        ),
{
    proof {
        reveal_strlit("__BASE_URL__");
        reveal_strlit("__GUILD_ID__");
        reveal_strlit("__ROLE_ID__");
        reveal_strlit("__IFRAME_TOKEN__");
        reveal_strlit("__READ_ONLY__");
        reveal_strlit("");
        assert(""@ =~= Seq::<char>::empty());
    }
    let session = match iframe_session {
        Some(t) => t,
        None => "",
    };
    let flag = if read_only {
        "1"
    } else {
        "0"
    };
    let based = replace_all(template, "__BASE_URL__", base_url);
    let guilded = replace_all(based.as_str(), "__GUILD_ID__", guild_id);
    let roled = replace_all(guilded.as_str(), "__ROLE_ID__", role_id);
    let keyed = replace_all(roled.as_str(), "__IFRAME_TOKEN__", session);
    Page { status: 200, html: replace_all(keyed.as_str(), "__READ_ONLY__", flag) }
}

// ---------------------------------------------------------------------
// The way to the page
// ---------------------------------------------------------------------

/// What a request for the page comes with, and what the page is made of.
#[derive(Debug)]
pub struct PageContext<'a> {
    pub template: &'a str,
    pub base_url: &'a str,
    pub guild_id: &'a str,
    pub role_id: &'a str,
    pub sec_fetch_dest: Option<&'a str>,
    pub sec_fetch_site: Option<&'a str>,
}

/// The course of entering the page. Each state names the work that is to be
/// done in it.
pub enum PageFlow {
    /// Read the key of the role link.
    FindKey { rl_token: String },
    /// Verify the token with the key.
    VerifyToken { rl_token: String, key: String },
    /// Make a session for the page out of the token.
    MintSession { token: VerifiedToken },
    /// Check that the cookie is that of a manager of the guild.
    CheckManager,
    Answer(Page),
}

/// What came of the work of a [`PageFlow`].
pub enum PageReply {
    /// The key, if the role link is registered; what the database said.
    Key(Result<Option<String>, String>),
    Verified(Result<VerifiedToken, RlTokenError>),
    Session(String),
    /// The manager's Discord id.
    Manager(Result<String, AppError>),
}

/// The token was made for the role link of the page.
pub open spec fn token_matches(token: VerifiedToken, context: PageContext) -> bool {
    token.guild_id@ == context.guild_id@ && token.role_id@ == context.role_id@
}

impl PageFlow {
    /// Begin to enter the page: with the token that RoleLogic has appended, or
    /// by direct navigation. An empty token counts as none.
    pub fn start(query: RoleConfigPageQuery) -> (r: PageFlow)
        ensures
            r == match query.rl_token {
                Some(rl_token) => if rl_token@.len() > 0 {
                    PageFlow::FindKey { rl_token }
                } else {
                    PageFlow::CheckManager
                },
                None => PageFlow::CheckManager,
            },
    {
        match page_entry(query) {
            PageEntry::Iframe { rl_token } => PageFlow::FindKey { rl_token },
            PageEntry::Direct => PageFlow::CheckManager,
        }
    }

    /// `r` is the next state. What a state does not wait for leaves it as it
    /// is.
    pub open spec fn leads_to(self, context: PageContext, reply: PageReply, r: PageFlow) -> bool {
        let base_url = context.base_url@;
        match (self, reply) {
            (PageFlow::FindKey { rl_token }, PageReply::Key(Ok(Some(key)))) => r == (
            PageFlow::VerifyToken { rl_token, key }),
            (PageFlow::FindKey { .. }, PageReply::Key(Ok(None))) =>
                r matches PageFlow::Answer(page) && page.is_error(
                    base_url,
                    "This role link isn't registered with this plugin yet."@,
                ),
            (PageFlow::FindKey { .. }, PageReply::Key(Err(e))) => r matches PageFlow::Answer(page)
                && page.is_error(base_url, "Database error: "@ + e@),
            (PageFlow::VerifyToken { .. }, PageReply::Verified(Ok(token))) => if token_matches(
                token,
                context,
            ) {
                r == (PageFlow::MintSession { token })
            } else {
                r matches PageFlow::Answer(page) && page.is_error(
                    base_url,
                    "Token does not match this role link."@,
                )
            },
            (PageFlow::VerifyToken { .. }, PageReply::Verified(Err(e))) =>
                r matches PageFlow::Answer(page) && page.is_error(base_url, token_refusal(e)),
            (PageFlow::MintSession { token }, PageReply::Session(session)) =>
                r matches PageFlow::Answer(page) && page.is_builder(
                    context.template@,
                    base_url,
                    context.guild_id@,
                    context.role_id@,
                    Some(session@),
                    token.read_only,
                ),
            (PageFlow::CheckManager, PageReply::Manager(Ok(_))) => r matches PageFlow::Answer(page)
                && page.is_builder(
                context.template@,
                base_url,
                context.guild_id@,
                context.role_id@,
                None,
                false,
            ),
            (PageFlow::CheckManager, PageReply::Manager(Err(e))) => r matches PageFlow::Answer(page)
                && page.is_refusal(
                base_url,
                str_view(context.sec_fetch_dest),
                str_view(context.sec_fetch_site),
                e@,
            ),
            _ => r == self,
        }
    }

    /// The next state.
    pub fn next(self, context: &PageContext, reply: PageReply) -> (r: PageFlow)
        ensures
            self.leads_to(*context, reply, r),
    {
        match (self, reply) {
            (PageFlow::FindKey { rl_token }, PageReply::Key(stored)) => match entry_key(stored) {
                Ok(key) => PageFlow::VerifyToken { rl_token, key },
                Err(message) => PageFlow::Answer(
                    render_inline_error(context.base_url, message.as_str()),
                ),
            },
            (PageFlow::VerifyToken { .. }, PageReply::Verified(verified)) => {
                match verify_iframe_entry(verified, context.guild_id, context.role_id) {
                    Ok(token) => PageFlow::MintSession { token },
                    Err(message) => PageFlow::Answer(
                        render_inline_error(context.base_url, message.as_str()),
                    ),
                }
            },
            (PageFlow::MintSession { token }, PageReply::Session(session)) => PageFlow::Answer(
                role_config_page(
                    context.template,
                    context.base_url,
                    context.guild_id,
                    context.role_id,
                    Some(session.as_str()),
                    token.read_only,
                ),
            ),
            (PageFlow::CheckManager, PageReply::Manager(Ok(_))) => PageFlow::Answer(
                role_config_page(
                    context.template,
                    context.base_url,
                    context.guild_id,
                    context.role_id,
                    None,
                    false,
                ),
            ),
            (PageFlow::CheckManager, PageReply::Manager(Err(e))) => PageFlow::Answer(
                direct_refusal(
                    context.base_url,
                    context.sec_fetch_dest,
                    context.sec_fetch_site,
                    &e,
                ),
            ),
            (state, _) => state,
        }
    }
}

/// The states are those of a course of entering the page, from its beginning
/// on.
pub open spec fn is_page_course(
    context: PageContext,
    states: Seq<PageFlow>,
    replies: Seq<PageReply>,
) -> bool {
    &&& states.len() == replies.len() + 1
    &&& states[0] is FindKey || states[0] is CheckManager
    &&& forall|i: int|
        0 <= i < replies.len() ==> states[i].leads_to(context, #[trigger] replies[i], states[i + 1])
}

/// The reply brings a token that was made for the role link of the page.
pub open spec fn brings_token(reply: PageReply, context: PageContext, token: VerifiedToken) -> bool {
    reply == PageReply::Verified(Ok(token)) && token_matches(token, context)
}

/// The page is the rule builder for an accepted token, with the session that
/// was made of it.
pub open spec fn built_for_token(
    page: Page,
    context: PageContext,
    replies: Seq<PageReply>,
    before: int,
) -> bool {
    exists|j: int, token: VerifiedToken, session: Seq<char>|
        0 <= j < before && #[trigger] brings_token(replies[j], context, token)
            && #[trigger] page.is_builder(
            context.template@,
            context.base_url@,
            context.guild_id@,
            context.role_id@,
            Some(session),
            token.read_only,
        )
}

/// The page is the rule builder for a manager who came by direct navigation.
pub open spec fn built_for_manager(
    page: Page,
    context: PageContext,
    replies: Seq<PageReply>,
    before: int,
) -> bool {
    &&& page.is_builder(
        context.template@,
        context.base_url@,
        context.guild_id@,
        context.role_id@,
        None,
        false,
    )
    &&& exists|j: int| 0 <= j < before && (#[trigger] replies[j]) matches PageReply::Manager(Ok(_))
}

/// In every course, the rule builder is answered only to a token that verifies
/// and was made for this role link, read-only as the token says, or to a
/// manager of the guild. Everyone else is answered a page with an error status.
pub proof fn law_page_needs_a_token_or_a_manager(
    context: PageContext,
    states: Seq<PageFlow>,
    replies: Seq<PageReply>,
    i: int,
)
    requires
        is_page_course(context, states, replies),
        0 <= i < states.len(),
    ensures
        states[i] matches PageFlow::Answer(page) ==> page.status == 401 || page.status == 403
            || built_for_token(page, context, replies, i) || built_for_manager(
            page,
            context,
            replies,
            i,
        ),
        states[i] matches PageFlow::MintSession { token } ==> exists|j: int|
            0 <= j < i && #[trigger] brings_token(replies[j], context, token),
    decreases i,
{
    if i > 0 {
        law_page_needs_a_token_or_a_manager(context, states, replies, i - 1);
        let before = states[i - 1];
        let reply = replies[i - 1];
        assert(before.leads_to(context, reply, states[i]));
        match before {
            PageFlow::VerifyToken { .. } => {
                if let PageFlow::MintSession { token } = states[i] {
                    assert(brings_token(replies[i - 1], context, token));
                }
            },
            PageFlow::MintSession { token } => {
                let j = choose|j: int|
                    0 <= j < i - 1 && #[trigger] brings_token(replies[j], context, token);
                assert(0 <= j < i && brings_token(replies[j], context, token));
                if let PageFlow::Answer(page) = states[i] {
                    let session = reply->Session_0@;
                    assert(page.is_builder(
                        context.template@,
                        context.base_url@,
                        context.guild_id@,
                        context.role_id@,
                        Some(session),
                        token.read_only,
                    ));
                }
            },
            PageFlow::CheckManager => {
                if let PageReply::Manager(Ok(_)) = reply {
                    assert(replies[i - 1] matches PageReply::Manager(Ok(_)));
                }
            },
            PageFlow::Answer(page) => {
                if built_for_token(page, context, replies, i - 1) {
                    let (j, token, session) = choose|
                        j: int,
                        token: VerifiedToken,
                        session: Seq<char>,
                    |
                        0 <= j < i - 1 && #[trigger] brings_token(replies[j], context, token)
                            && #[trigger] page.is_builder(
                            context.template@,
                            context.base_url@,
                            context.guild_id@,
                            context.role_id@,
                            Some(session),
                            token.read_only,
                        );
                    assert(0 <= j < i && brings_token(replies[j], context, token));
                }
                if built_for_manager(page, context, replies, i - 1) {
                    let j = choose|j: int|
                        0 <= j < i - 1 && (
                        #[trigger] replies[j]) matches PageReply::Manager(Ok(_));
                    assert(0 <= j < i && replies[j] matches PageReply::Manager(Ok(_)));
                }
            },
            _ => {},
        }
    }
}

// ---------------------------------------------------------------------
// The data of the page
// ---------------------------------------------------------------------

/// The part of a role link that the page shows.
#[derive(Debug)]
pub struct LinkConfig {
    pub broadcaster_id: Option<String>,
    pub broadcaster_login: Option<String>,
    pub rule_tree: JsonValue,
    pub rule_tree_version: i32,
}

/// The data of the page: the rule, the channel, and what rules can be made of.
pub open spec fn data_json(
    base_url: Seq<char>,
    guild_id: Seq<char>,
    role_id: Seq<char>,
    link: LinkConfig,
    permission: Option<Seq<char>>,
) -> JsonModel {
    let rule = stored_rule(link.rule_tree@);
    json_object().with("guild_id"@, JsonModel::Text(guild_id)).with(
        "role_id"@,
        JsonModel::Text(role_id),
    ).with(
        "config"@,
        json_object().with(
            "grant_on_any_relation"@,
            JsonModel::Bool(rule.grant_on_any_relation),
        ).with("groups"@, groups_json(rule.groups)),
    ).with("rule_tree_version"@, JsonModel::Int(link.rule_tree_version as i64)).with(
        "channel"@,
        json_object().with("connected"@, JsonModel::Bool(link.broadcaster_id is Some)).with(
            "broadcaster_id"@,
            optional_text(opt_view(link.broadcaster_id)),
        ).with("broadcaster_login"@, optional_text(opt_view(link.broadcaster_login))),
    ).with("targets"@, targets_json()).with("operators"@, operators_json()).with(
        "limits"@,
        json_object().with("max_groups"@, json_count(MAX_GROUPS as nat)).with(
            "max_conditions_per_group"@,
            json_count(MAX_CONDITIONS_PER_GROUP as nat),
        ),
    ).with("verify_url"@, JsonModel::Text(verify_address(base_url, guild_id))).with(
        "users"@,
        json_object().with("url"@, JsonModel::Text(base_url + "/users/"@ + guild_id)).with(
            "view_permission"@,
            JsonModel::Text(permission_of(permission)),
        ),
    )
}

/// The data of the page. The role link must exist.
pub fn role_config_data(
    base_url: &str,
    guild_id: &str,
    role_id: &str,
    link: &Option<LinkConfig>,
    permission: Option<String>,
) -> (r: Result<JsonValue, AppError>)
    ensures
        match (r, *link) {
            (Ok(doc), Some(l)) => doc@ == data_json(
                base_url@,
                guild_id@,
                role_id@,
                l,
                opt_view(permission),
            ),
            (Err(e), None) => e@ == ErrorModel::NotFound(NO_SUCH_LINK@),
            _ => false,
        },
{
    let link = match link {
        Some(l) => l,
        None => {
            return Err(AppError::NotFound(NO_SUCH_LINK.to_owned()));
        },
    };
    let tree = RuleTree::from_stored(&link.rule_tree);
    let config = JsonValue::object().with(
        "grant_on_any_relation",
        JsonValue::Bool(tree.grant_on_any_relation),
    ).with("groups", tree.groups_to_json());
    let channel = JsonValue::object().with(
        "connected",
        JsonValue::Bool(link.broadcaster_id.is_some()),
    ).with("broadcaster_id", JsonValue::opt_text(&link.broadcaster_id)).with(
        "broadcaster_login",
        JsonValue::opt_text(&link.broadcaster_login),
    );
    let limits = JsonValue::object().with("max_groups", JsonValue::count(MAX_GROUPS)).with(
        "max_conditions_per_group",
        JsonValue::count(MAX_CONDITIONS_PER_GROUP),
    );
    let mut users_url = base_url.to_owned();
    users_url.append("/users/");
    users_url.append(guild_id);
    let users = JsonValue::object().with("url", JsonValue::Text(users_url)).with(
        "view_permission",
        JsonValue::Text(view_permission(permission)),
    );
    Ok(
        JsonValue::object().with("guild_id", JsonValue::text(guild_id)).with(
            "role_id",
            JsonValue::text(role_id),
        ).with("config", config).with(
            "rule_tree_version",
            JsonValue::Int(link.rule_tree_version as i64),
        ).with("channel", channel).with("targets", target_catalog()).with(
            "operators",
            operator_catalog(),
        ).with("limits", limits).with(
            "verify_url",
            JsonValue::Text(verify_url(base_url, guild_id)),
        ).with("users", users),
    )
}

// ---------------------------------------------------------------------
// Saving a rule
// ---------------------------------------------------------------------

#[derive(Debug)]
pub struct RoleConfigSaveBody {
    pub rule_tree_version: i32,
    pub tree: RuleTreeBody,
}

/// Why a rule without a channel to check against is not saved.
pub const NO_CHANNEL: &'static str = "Connect the Twitch channel this rule checks against before saving — without a connected channel it would grant the role to nobody.";

/// What is said of a row that must be there and is not.
pub const NO_ROW: &'static str = "no rows returned by a query that expected to return at least one row";

/// The course of saving a rule. Each state names the work that is to be done in
/// it.
pub enum SaveFlow {
    /// Read the channel that is connected to the role link.
    FindChannel { tree: RuleTree, expected_version: i32 },
    /// Store the document and count the version up, if the version still is
    /// the one that the editor loaded, so that a second tab cannot silently
    /// overwrite the first.
    Update { document: JsonValue, expected_version: i32 },
    /// Nothing was updated: find out whether the role link exists.
    FindVersion,
    /// Read the new version; the role link must still be there.
    ReadVersion,
    /// Have the role link synced, and answer with the new version.
    Saved { version: i32 },
    Failed(AppError),
}

/// What came of the work of a [`SaveFlow`].
pub enum SaveReply {
    Channel(Result<Option<String>, AppError>),
    /// How many rows were updated.
    Updated(Result<u64, AppError>),
    Version(Result<Option<i32>, AppError>),
}

/// The rule is evaluated against a channel.
pub open spec fn needs_channel(rule: RuleModel) -> bool {
    !rule.grant_on_any_relation && rule.groups.len() > 0
}

impl SaveFlow {
    /// `self` is where the saving of the body begins.
    pub open spec fn starts(self, read_only: bool, version: i32, body: BodyModel) -> bool {
        if read_only {
            self matches SaveFlow::Failed(e) && e@ == ErrorModel::Forbidden(READ_ONLY_REFUSAL@)
        } else {
            match parsed_rule(body) {
                Err(message) => self matches SaveFlow::Failed(e) && e@ == ErrorModel::BadRequest(
                    message,
                ),
                Ok(rule) => if needs_channel(rule) {
                    self matches SaveFlow::FindChannel { tree, expected_version } && tree@ == rule
                        && expected_version == version
                } else {
                    self matches SaveFlow::Update { document, expected_version } && document@
                        == rule_json(rule) && expected_version == version
                },
            }
        }
    }

    /// Begin to save a rule: the caller must be allowed to write, and the rule
    /// must be valid.
    pub fn start(access: &RoleConfigAccess, body: RoleConfigSaveBody) -> (r: SaveFlow)
        ensures
            r.starts(access.read_only, body.rule_tree_version, body.tree@),
    {
        match require_write(access) {
            Ok(_) => {},
            Err(e) => {
                return SaveFlow::Failed(e);
            },
        }
        let expected_version = body.rule_tree_version;
        match parse_rule_tree(body.tree) {
            Err(e) => SaveFlow::Failed(e),
            Ok(parsed) => {
                let tree = parsed.rule_tree;
                assert(tree@.groups.len() == tree.groups@.len());
                if !tree.grant_on_any_relation && tree.groups.len() > 0 {
                    SaveFlow::FindChannel { tree, expected_version }
                } else {
                    SaveFlow::Update { document: tree.to_json(), expected_version }
                }
            },
        }
    }

    /// `r` is the next state. What a state does not wait for leaves it as it
    /// is.
    pub open spec fn leads_to(self, reply: SaveReply, r: SaveFlow) -> bool {
        match (self, reply) {
            (SaveFlow::FindChannel { tree, expected_version }, SaveReply::Channel(channel)) =>
                match channel {
                    Ok(Some(_)) => r matches SaveFlow::Update {
                        document,
                        expected_version: version,
                    } && document@ == rule_json(tree@) && version == expected_version,
                    Ok(None) => r matches SaveFlow::Failed(e) && e@ == ErrorModel::BadRequest(
                        NO_CHANNEL@,
                    ),
                    Err(e) => r == SaveFlow::Failed(e),
                },
            (SaveFlow::Update { .. }, SaveReply::Updated(rows)) => r == match rows {
                Ok(n) => if n == 0 {
                    SaveFlow::FindVersion
                } else {
                    SaveFlow::ReadVersion
                },
                Err(e) => SaveFlow::Failed(e),
            },
            (SaveFlow::FindVersion, SaveReply::Version(version)) => match version {
                Ok(Some(_)) => r matches SaveFlow::Failed(e) && e@ is StaleVersion,
                Ok(None) => r matches SaveFlow::Failed(e) && e@ == ErrorModel::NotFound(
                    NO_SUCH_LINK@,
                ),
                Err(e) => r == SaveFlow::Failed(e),
            },
            (SaveFlow::ReadVersion, SaveReply::Version(Ok(Some(version)))) => r == (
            SaveFlow::Saved { version }),
            (SaveFlow::ReadVersion, SaveReply::Version(Ok(None))) => r matches SaveFlow::Failed(e)
                && e@ == ErrorModel::Database(NO_ROW@),
            (SaveFlow::ReadVersion, SaveReply::Version(Err(e))) => r == SaveFlow::Failed(e),
            _ => r == self,
        }
    }

    /// The next state.
    pub fn next(self, reply: SaveReply) -> (r: SaveFlow)
        ensures
            self.leads_to(reply, r),
    {
        match (self, reply) {
            (SaveFlow::FindChannel { tree, expected_version }, SaveReply::Channel(channel)) => {
                match channel {
                    Ok(Some(_)) => SaveFlow::Update { document: tree.to_json(), expected_version },
                    Ok(None) => SaveFlow::Failed(AppError::BadRequest(NO_CHANNEL.to_owned())),
                    Err(e) => SaveFlow::Failed(e),
                }
            },
            (SaveFlow::Update { .. }, SaveReply::Updated(rows)) => match rows {
                Ok(n) => if n == 0 {
                    SaveFlow::FindVersion
                } else {
                    SaveFlow::ReadVersion
                },
                Err(e) => SaveFlow::Failed(e),
            },
            (SaveFlow::FindVersion, SaveReply::Version(version)) => match version {
                Ok(Some(_)) => SaveFlow::Failed(AppError::StaleVersion),
                Ok(None) => SaveFlow::Failed(AppError::NotFound(NO_SUCH_LINK.to_owned())),
                Err(e) => SaveFlow::Failed(e),
            },
            (SaveFlow::ReadVersion, SaveReply::Version(Ok(Some(version)))) => {
                SaveFlow::Saved { version }
            },
            (SaveFlow::ReadVersion, SaveReply::Version(Ok(None))) => {
                SaveFlow::Failed(AppError::Database(NO_ROW.to_owned()))
            },
            (SaveFlow::ReadVersion, SaveReply::Version(Err(e))) => SaveFlow::Failed(e),
            (state, _) => state,
        }
    }
}

/// What the editor is told of the saved rule.
pub fn saved_reply(version: i32) -> (r: JsonValue)
    ensures
        r@ == json_object().with("success"@, JsonModel::Bool(true)).with(
            "rule_tree_version"@,
            JsonModel::Int(version as i64),
        ),
{
    JsonValue::object().with("success", JsonValue::Bool(true)).with(
        "rule_tree_version",
        JsonValue::Int(version as i64),
    )
}

/// A stored rule and its version.
pub struct StoredRule {
    pub version: int,
    pub document: JsonModel,
}

/// What an update under a version does: the rule after it, and how many rows
/// it changed.
pub open spec fn locked_update(
    stored: Option<StoredRule>,
    expected_version: int,
    document: JsonModel,
) -> (Option<StoredRule>, nat) {
    match stored {
        Some(s) => if s.version == expected_version {
            (Some(StoredRule { version: s.version + 1, document }), 1)
        } else {
            (stored, 0)
        },
        None => (None, 0),
    }
}

/// Of two editors that loaded the same version, the one who saves first wins:
/// the other one changes nothing and is told that the version is stale.
pub proof fn law_second_editor_is_refused(
    stored: StoredRule,
    first: JsonModel,
    second: JsonModel,
    state: SaveFlow,
    lookup: SaveFlow,
    answer: SaveFlow,
    found: i32,
)
    requires
        state matches SaveFlow::Update { document, expected_version } && document@ == second
            && expected_version == stored.version,
        ({
            let after_first = locked_update(Some(stored), stored.version, first).0;
            state.leads_to(
                SaveReply::Updated(
                    Ok(locked_update(after_first, stored.version, second).1 as u64),
                ),
                lookup,
            )
        }),
        lookup.leads_to(SaveReply::Version(Ok(Some(found))), answer),
    ensures
        ({
            let after_first = locked_update(Some(stored), stored.version, first).0;
            let after_second = locked_update(after_first, stored.version, second).0;
            after_second matches Some(s) && s.document == first && s.version == stored.version + 1
        }),
        answer matches SaveFlow::Failed(e) && e@ is StaleVersion,
{
}

/// No rule is taken that would grant to nobody even with a channel, and only one
/// that grants on any relation is stored without looking for its channel.
pub proof fn law_saved_rules_can_grant(start: SaveFlow, version: i32, body: BodyModel)
    requires
        start.starts(false, version, body),
        !(start is Failed),
    ensures
        parsed_rule(body) matches Ok(rule) && !grants_nobody(rule, true) && (start is Update
            ==> rule.grant_on_any_relation),
{
    law_accepted_rules_are_acceptable(body);
}

/// A read-only session saves no rule and detaches no channel, whatever it is
/// answered: it fails at once and stays there.
pub proof fn law_read_only_sessions_change_nothing(
    save: SaveFlow,
    version: i32,
    body: BodyModel,
    saved: SaveReply,
    after: SaveFlow,
    detach: DisconnectFlow,
    detached: DisconnectReply,
)
    requires
        save.starts(true, version, body),
        save.leads_to(saved, after),
        detach.starts(true),
    ensures
        save is Failed,
        after == save,
        detach is Failed,
        detach.followed_by(detached) == detach,
{
}

// ---------------------------------------------------------------------
// Previewing a rule: how many guild members currently match?
// ---------------------------------------------------------------------

/// The query that counts the members of a guild who meet a channel-scoped rule.
pub open spec fn count_sql(rule: RuleModel) -> Seq<char> {
    "SELECT count(DISTINCT la.discord_id) FROM linked_accounts la LEFT JOIN user_channel_cache ucc ON ucc.twitch_user_id = la.twitch_user_id AND ucc.broadcaster_id = $1 WHERE la.discord_id = ANY($2::text[]) AND ("@
        + clause_sql(rule_clause(rule, 2)) + ")"@
}

/// What a preview finds out.
#[derive(Debug, Clone, Copy, PartialEq, Eq)]
pub enum Preview {
    /// The members of the guild could not be found out.
    Unavailable,
    Counted { matching: i64, linked: i64 },
}

/// The course of a preview. Each state names the work that is to be done in it.
pub enum PreviewFlow {
    /// Ask for the members of the guild.
    FetchMembers { tree: RuleTree, broadcaster_id: Option<String> },
    /// Count the linked members.
    CountLinked { tree: RuleTree, broadcaster_id: Option<String>, member_ids: Vec<String> },
    /// Count the members who match: the channel, the member ids and the values
    /// are bound in this order.
    CountMatching {
        sql: String,
        broadcaster_id: String,
        member_ids: Vec<String>,
        binds: Vec<Bind>,
        linked: i64,
    },
    Answer(Preview),
    Failed(AppError),
}

/// What came of the work of a [`PreviewFlow`].
pub enum PreviewReply {
    /// `None` where the gateway did not answer.
    Members(Option<Vec<String>>),
    Linked(Result<i64, AppError>),
    Matching(Result<i64, AppError>),
}

impl PreviewFlow {
    /// A rule is only looked at where it can grant to somebody.
    pub open spec fn wf(self) -> bool {
        match self {
            PreviewFlow::FetchMembers { tree, broadcaster_id } => !grants_nobody(
                tree@,
                broadcaster_id is Some,
            ),
            PreviewFlow::CountLinked { tree, broadcaster_id, .. } => !grants_nobody(
                tree@,
                broadcaster_id is Some,
            ),
            _ => true,
        }
    }

    /// Begin the preview of a rule. One that grants to nobody matches nobody; a
    /// rule that grants on any relation needs no channel.
    pub fn start(tree: RuleTree, broadcaster_id: Option<String>) -> (r: PreviewFlow)
        ensures
            r.wf(),
            r == if grants_nobody(tree@, broadcaster_id is Some) {
                PreviewFlow::Answer(Preview::Counted { matching: 0, linked: 0 })
            } else {
                PreviewFlow::FetchMembers { tree, broadcaster_id }
            },
    {
        assert(tree@.groups.len() == tree.groups@.len());
        let nobody = !tree.grant_on_any_relation && (broadcaster_id.is_none() || tree.groups.len()
            == 0);
        if nobody {
            PreviewFlow::Answer(Preview::Counted { matching: 0, linked: 0 })
        } else {
            PreviewFlow::FetchMembers { tree, broadcaster_id }
        }
    }

    /// `r` is the next state. What a state does not wait for leaves it as it
    /// is.
    pub open spec fn leads_to(self, reply: PreviewReply, r: PreviewFlow) -> bool {
        match (self, reply) {
            (
                PreviewFlow::FetchMembers { tree, broadcaster_id },
                PreviewReply::Members(members),
            ) => r == match members {
                None => PreviewFlow::Answer(Preview::Unavailable),
                Some(member_ids) => if member_ids@.len() == 0 {
                    PreviewFlow::Answer(Preview::Counted { matching: 0, linked: 0 })
                } else {
                    PreviewFlow::CountLinked { tree, broadcaster_id, member_ids }
                },
            },
            (
                PreviewFlow::CountLinked { tree, broadcaster_id, member_ids },
                PreviewReply::Linked(count),
            ) => match count {
                Err(e) => r == PreviewFlow::Failed(e),
                Ok(linked) => if tree@.grant_on_any_relation {
                    r == PreviewFlow::Answer(Preview::Counted { matching: linked, linked })
                } else {
                    r matches PreviewFlow::CountMatching {
                        sql,
                        broadcaster_id: channel,
                        member_ids: ids,
                        binds,
                        linked: counted,
                    } && sql@ == count_sql(tree@) && broadcaster_id == Some(channel) && ids
                        == member_ids && binds@ == rule_binds(tree@) && counted == linked
                },
            },
            (PreviewFlow::CountMatching { linked, .. }, PreviewReply::Matching(count)) => r
                == match count {
                Err(e) => PreviewFlow::Failed(e),
                Ok(matching) => PreviewFlow::Answer(Preview::Counted { matching, linked }),
            },
            _ => r == self,
        }
    }

    /// The next state.
    pub fn next(self, reply: PreviewReply) -> (r: PreviewFlow)
        requires
            self.wf(),
        ensures
            r.wf(),
            self.leads_to(reply, r),
    {
        match (self, reply) {
            (
                PreviewFlow::FetchMembers { tree, broadcaster_id },
                PreviewReply::Members(members),
            ) => match members {
                None => PreviewFlow::Answer(Preview::Unavailable),
                Some(member_ids) => if member_ids.len() == 0 {
                    PreviewFlow::Answer(Preview::Counted { matching: 0, linked: 0 })
                } else {
                    PreviewFlow::CountLinked { tree, broadcaster_id, member_ids }
                },
            },
            (
                PreviewFlow::CountLinked { tree, broadcaster_id, member_ids },
                PreviewReply::Linked(count),
            ) => match count {
                Err(e) => PreviewFlow::Failed(e),
                Ok(linked) => match broadcaster_id {
                    Some(channel) if !tree.grant_on_any_relation => {
                        let (rule_where, binds) = build_rule_where(&tree, 2);
                        let mut sql = "SELECT count(DISTINCT la.discord_id) FROM linked_accounts la LEFT JOIN user_channel_cache ucc ON ucc.twitch_user_id = la.twitch_user_id AND ucc.broadcaster_id = $1 WHERE la.discord_id = ANY($2::text[]) AND (".to_owned();
                        sql.append(rule_where.as_str());
                        sql.append(")");
                        PreviewFlow::CountMatching {
                            sql,
                            broadcaster_id: channel,
                            member_ids,
                            binds,
                            linked,
                        }
                    },
                    _ => PreviewFlow::Answer(Preview::Counted { matching: linked, linked }),
                },
            },
            (PreviewFlow::CountMatching { linked, .. }, PreviewReply::Matching(count)) => {
                match count {
                    Err(e) => PreviewFlow::Failed(e),
                    Ok(matching) => PreviewFlow::Answer(Preview::Counted { matching, linked }),
                }
            },
            (state, _) => state,
        }
    }
}

/// The rule of the role link and its channel, for a preview of the saved rule.
/// The role link must exist.
pub fn role_config_preview(link: Option<(Option<String>, JsonValue)>) -> (r: Result<
    (RuleTree, Option<String>),
    AppError,
>)
    ensures
        match (r, link) {
            (Ok((tree, channel)), Some((broadcaster_id, document))) => tree@ == stored_rule(
                document@,
            ) && channel == broadcaster_id,
            (Err(e), None) => e@ == ErrorModel::NotFound("Role link not found."@),
            _ => false,
        },
{
    match link {
        Some((broadcaster_id, document)) => Ok(
            (RuleTree::from_stored(&document), broadcaster_id),
        ),
        None => Err(AppError::NotFound("Role link not found.".to_owned())),
    }
}

/// The rule for a preview of a proposed (unsaved) rule, which must be valid.
pub fn role_config_preview_edit(body: RuleTreeBody) -> (r: Result<RuleTree, AppError>)
    ensures
        match r {
            Ok(tree) => parsed_rule(body@) == Ok::<RuleModel, Seq<char>>(tree@),
            Err(e) => e@ is BadRequest && parsed_rule(body@) == Err::<RuleModel, Seq<char>>(
                e@->BadRequest_0,
            ),
        },
{
    match parse_rule_tree(body) {
        Ok(parsed) => Ok(parsed.rule_tree),
        Err(e) => Err(e),
    }
}

/// What the editor is told of a preview.
pub open spec fn preview_json(preview: Preview) -> JsonModel {
    match preview {
        Preview::Unavailable => json_object().with("available"@, JsonModel::Bool(false)).with(
            "reason"@,
            JsonModel::Text(
                "Member list temporarily unavailable; preview will work once the Auth Gateway responds."@,
            ),
        ),
        Preview::Counted { matching, linked } => json_object().with(
            "available"@,
            JsonModel::Bool(true),
        ).with("matching"@, JsonModel::Int(matching)).with("linked"@, JsonModel::Int(linked)),
    }
}

/// What the editor is told of a preview.
pub fn preview_reply(preview: Preview) -> (r: JsonValue)
    ensures
        r@ == preview_json(preview),
{
    match preview {
        Preview::Unavailable => JsonValue::object().with("available", JsonValue::Bool(false)).with(
            "reason",
            JsonValue::text(
                "Member list temporarily unavailable; preview will work once the Auth Gateway responds.",
            ),
        ),
        Preview::Counted { matching, linked } => JsonValue::object().with(
            "available",
            JsonValue::Bool(true),
        ).with("matching", JsonValue::Int(matching)).with("linked", JsonValue::Int(linked)),
    }
}

// ---------------------------------------------------------------------
// Catalogs consumed by the rule-builder front-end
// ---------------------------------------------------------------------

pub open spec fn kind_word(k: TargetKind) -> Seq<char> {
    match k {
        TargetKind::Bool => "bool"@,
        TargetKind::Int => "int"@,
    }
}

pub fn kind_str(k: TargetKind) -> (r: &'static str)
    ensures
        r@ == kind_word(k),
{
    match k {
        TargetKind::Bool => "bool",
        TargetKind::Int => "int",
    }
}

pub open spec fn target_json(t: ConditionTarget, label: Seq<char>) -> JsonModel {
    json_object().with("key"@, JsonModel::Text(t.key())).with("label"@, JsonModel::Text(label)).with(
        "kind"@,
        JsonModel::Text(kind_word(t.spec_kind())),
    ).with("group"@, JsonModel::Text("viewer"@))
}

/// The facts that conditions can ask for.
pub open spec fn targets_json() -> JsonModel {
    json_array().item(target_json(ConditionTarget::IsFollower, "Is a follower"@)).item(
        target_json(ConditionTarget::FollowAgeDays, "Days since first followed"@),
    ).item(target_json(ConditionTarget::IsSubscriber, "Is an active subscriber"@)).item(
        target_json(ConditionTarget::SubTier, "Subscription tier (1-3)"@),
    )
}

fn target_entry(t: ConditionTarget, label: &str) -> (r: JsonValue)
    ensures
        r@ == target_json(t, label@),
{
    JsonValue::object().with("key", JsonValue::text(t.as_str())).with(
        "label",
        JsonValue::text(label),
    ).with("kind", JsonValue::text(kind_str(t.kind()))).with("group", JsonValue::text("viewer"))
}

/// The facts that conditions can ask for.
pub fn target_catalog() -> (r: JsonValue)
    ensures
        r@ == targets_json(),
{
    JsonValue::array().item(target_entry(ConditionTarget::IsFollower, "Is a follower")).item(
        target_entry(ConditionTarget::FollowAgeDays, "Days since first followed"),
    ).item(target_entry(ConditionTarget::IsSubscriber, "Is an active subscriber")).item(
        target_entry(ConditionTarget::SubTier, "Subscription tier (1-3)"),
    )
}

pub open spec fn operator_json(op: ConditionOperator, label: Seq<char>) -> JsonModel {
    json_object().with("key"@, JsonModel::Text(op.key())).with("label"@, JsonModel::Text(label)).with(
        "valid_for"@,
        json_object().with("bool"@, JsonModel::Bool(op.fits(TargetKind::Bool))).with(
            "int"@,
            JsonModel::Bool(op.fits(TargetKind::Int)),
        ),
    ).with("needs_value_end"@, JsonModel::Bool(op is Between))
}

/// The comparisons that conditions can make.
pub open spec fn operators_json() -> JsonModel {
    json_array().item(operator_json(ConditionOperator::Eq, "equals"@)).item(
        operator_json(ConditionOperator::Neq, "not equals"@),
    ).item(operator_json(ConditionOperator::Gt, "greater than"@)).item(
        operator_json(ConditionOperator::Gte, "at least"@),
    ).item(operator_json(ConditionOperator::Lt, "less than"@)).item(
        operator_json(ConditionOperator::Lte, "at most"@),
    ).item(operator_json(ConditionOperator::Between, "between"@))
}

fn operator_entry(op: ConditionOperator, label: &str) -> (r: JsonValue)
    ensures
        r@ == operator_json(op, label@),
{
    let valid_for = JsonValue::object().with(
        "bool",
        JsonValue::Bool(op.valid_for(TargetKind::Bool)),
    ).with("int", JsonValue::Bool(op.valid_for(TargetKind::Int)));
    JsonValue::object().with("key", JsonValue::text(op.as_str())).with(
        "label",
        JsonValue::text(label),
    ).with("valid_for", valid_for).with(
        "needs_value_end",
        JsonValue::Bool(matches!(op, ConditionOperator::Between)),
    )
}

/// The comparisons that conditions can make.
pub fn operator_catalog() -> (r: JsonValue)
    ensures
        r@ == operators_json(),
{
    JsonValue::array().item(operator_entry(ConditionOperator::Eq, "equals")).item(
        operator_entry(ConditionOperator::Neq, "not equals"),
    ).item(operator_entry(ConditionOperator::Gt, "greater than")).item(
        operator_entry(ConditionOperator::Gte, "at least"),
    ).item(operator_entry(ConditionOperator::Lt, "less than")).item(
        operator_entry(ConditionOperator::Lte, "at most"),
    ).item(operator_entry(ConditionOperator::Between, "between"))
}

// ---------------------------------------------------------------------
// What the endpoints stand for
// ---------------------------------------------------------------------

/// A session of the embedded page is for one role link: both the guild and the
/// role must be the ones it was made for.
pub proof fn law_sessions_are_for_one_link(
    s: IframeSession,
    guild_id: Seq<char>,
    role_id: Seq<char>,
    token: VerifiedToken,
    context: PageContext,
)
    ensures
        session_matches(s, guild_id, role_id) ==> s.guild_id@ == guild_id && s.role_id@ == role_id,
        s.guild_id@ == guild_id && s.role_id@ == role_id ==> session_matches(s, guild_id, role_id),
        token_matches(token, context) ==> token.guild_id@ == context.guild_id@ && token.role_id@
            == context.role_id@,
        token.guild_id@ == context.guild_id@ && token.role_id@ == context.role_id@
            ==> token_matches(token, context),
{
}

/// What is said of a token that does not verify, by what is wrong with it.
pub proof fn law_token_refusals()
    ensures
        token_refusal(RlTokenError::Expired)
            == "Your session expired. Reopen the plugin in the RoleLogic dashboard."@,
        token_refusal(RlTokenError::BadSignature) == "Invalid auth token."@,
        token_refusal(RlTokenError::Malformed) == "Invalid auth token."@,
        token_refusal(RlTokenError::WrongAudience) == "Token is for a different plugin."@,
        token_refusal(RlTokenError::WrongIssuer) == "Token was not issued by RoleLogic."@,
{
}

/// Detaching in order: the channel is looked up, taken out of the role link, and
/// cleaned up behind where there was one. A failure before that ends the course
/// with the failure.
pub proof fn law_smooth_disconnecting(channel: String, e: AppError)
    ensures
        DisconnectFlow::FindChannel.followed_by(DisconnectReply::Channel(Ok(Some(channel)))) == (
        DisconnectFlow::Detach { broadcaster_id: Some(channel) }),
        DisconnectFlow::FindChannel.followed_by(DisconnectReply::Channel(Ok(None))) == (
        DisconnectFlow::Detach { broadcaster_id: None }),
        DisconnectFlow::FindChannel.followed_by(DisconnectReply::Channel(Err(e)))
            == DisconnectFlow::Failed(e),
        (DisconnectFlow::Detach { broadcaster_id: Some(channel) }).followed_by(
            DisconnectReply::Done(Ok(())),
        ) == (DisconnectFlow::CleanUp { broadcaster_id: channel }),
        (DisconnectFlow::Detach { broadcaster_id: None }).followed_by(
            DisconnectReply::Done(Ok(())),
        ) is Disconnected,
        (DisconnectFlow::Detach { broadcaster_id: Some(channel) }).followed_by(
            DisconnectReply::Done(Err(e)),
        ) == DisconnectFlow::Failed(e),
        (DisconnectFlow::CleanUp { broadcaster_id: channel }).followed_by(
            DisconnectReply::Done(Ok(())),
        ) is Disconnected,
        (DisconnectFlow::CleanUp { broadcaster_id: channel }).followed_by(
            DisconnectReply::Done(Err(e)),
        ) is Disconnected,
{
}

/// A token that was made for the role link of the page opens it: it is verified
/// with the key that was found, a session is made of it, and the page carries
/// that session and is read-only as the token says.
pub proof fn law_good_tokens_open_the_page(
    context: PageContext,
    rl_token: String,
    key: String,
    token: VerifiedToken,
    session: String,
    states: Seq<PageFlow>,
)
    requires
        token.guild_id@ == context.guild_id@,
        token.role_id@ == context.role_id@,
        states.len() == 4,
        states[0] == (PageFlow::FindKey { rl_token }),
        states[0].leads_to(context, PageReply::Key(Ok(Some(key))), states[1]),
        states[1].leads_to(context, PageReply::Verified(Ok(token)), states[2]),
        states[2].leads_to(context, PageReply::Session(session), states[3]),
    ensures
        states[1] == (PageFlow::VerifyToken { rl_token, key }),
        states[2] == (PageFlow::MintSession { token }),
        states[3] matches PageFlow::Answer(page) && page.is_builder(
            context.template@,
            context.base_url@,
            context.guild_id@,
            context.role_id@,
            Some(session@),
            token.read_only,
        ),
{
}

/// Every other token is answered 403: one for another role link, one that does
/// not verify, and one for a role link whose key is not there.
pub proof fn law_bad_tokens_are_refused(
    context: PageContext,
    rl_token: String,
    key: String,
    token: VerifiedToken,
    e: RlTokenError,
    trouble: String,
    r: PageFlow,
)
    requires
        (PageFlow::FindKey { rl_token }).leads_to(context, PageReply::Key(Ok(None)), r) || (
        PageFlow::FindKey { rl_token }).leads_to(context, PageReply::Key(Err(trouble)), r) || (
        PageFlow::VerifyToken { rl_token, key }).leads_to(context, PageReply::Verified(Err(e)), r)
            || ((token.guild_id@ != context.guild_id@ || token.role_id@ != context.role_id@) && (
        PageFlow::VerifyToken { rl_token, key }).leads_to(
            context,
            PageReply::Verified(Ok(token)),
            r,
        )),
    ensures
        r matches PageFlow::Answer(page) && page.status == 403,
{
}

/// A manager who comes by direct navigation gets the page, writable and without
/// a session; anyone else is answered 401.
pub proof fn law_direct_navigation(
    context: PageContext,
    manager: Result<String, AppError>,
    r: PageFlow,
)
    requires
        PageFlow::CheckManager.leads_to(context, PageReply::Manager(manager), r),
    ensures
        manager is Ok ==> (r matches PageFlow::Answer(page) && page.is_builder(
            context.template@,
            context.base_url@,
            context.guild_id@,
            context.role_id@,
            None,
            false,
        )),
        manager is Err ==> (r matches PageFlow::Answer(page) && page.status == 401),
{
}

/// The blank for the flag is filled with 1 for a read-only session, else with 0.
pub proof fn law_builder_shows_the_flag(
    page: Page,
    before: Seq<char>,
    after: Seq<char>,
    base_url: Seq<char>,
    guild_id: Seq<char>,
    role_id: Seq<char>,
    session: Option<Seq<char>>,
    read_only: bool,
)
    requires
        page.is_builder(
            before + "__READ_ONLY__"@ + after,
            base_url,
            guild_id,
            role_id,
            session,
            read_only,
        ),
        forall|j: int|
            j < before.len() ==> !#[trigger] occurs_at(before + "__READ_ONLY__"@ + after, "__READ_ONLY__"@, j),
        !contains_text(after, "__READ_ONLY__"@),
        !contains_text(before + "__READ_ONLY__"@ + after, "__BASE_URL__"@),
        !contains_text(before + "__READ_ONLY__"@ + after, "__GUILD_ID__"@),
        !contains_text(before + "__READ_ONLY__"@ + after, "__ROLE_ID__"@),
        !contains_text(before + "__READ_ONLY__"@ + after, "__IFRAME_TOKEN__"@),
    ensures
        page.status == 200,
        page.html@ == before + (if read_only {
            "1"@
        } else {
            "0"@
        }) + after,
{
    let template = before + "__READ_ONLY__"@ + after;
    reveal_strlit("__READ_ONLY__");
    law_nothing_to_replace(template, "__BASE_URL__"@, base_url);
    law_nothing_to_replace(template, "__GUILD_ID__"@, guild_id);
    law_nothing_to_replace(template, "__ROLE_ID__"@, role_id);
    law_nothing_to_replace(template, "__IFRAME_TOKEN__"@, token_or_empty(session));
    law_nothing_to_replace(after, "__READ_ONLY__"@, (if read_only { "1"@ } else { "0"@ }));
    law_replacing(before, "__READ_ONLY__"@, after, (if read_only { "1"@ } else { "0"@ }));
}

/// The blank for the session is filled with the session, and left empty where
/// there is none.
pub proof fn law_builder_carries_the_session(
    page: Page,
    before: Seq<char>,
    after: Seq<char>,
    base_url: Seq<char>,
    guild_id: Seq<char>,
    role_id: Seq<char>,
    session: Option<Seq<char>>,
    read_only: bool,
)
    requires
        page.is_builder(
            before + "__IFRAME_TOKEN__"@ + after,
            base_url,
            guild_id,
            role_id,
            session,
            read_only,
        ),
        forall|j: int|
            j < before.len() ==> !#[trigger] occurs_at(before + "__IFRAME_TOKEN__"@ + after, "__IFRAME_TOKEN__"@, j),
        !contains_text(after, "__IFRAME_TOKEN__"@),
        !contains_text(before + "__IFRAME_TOKEN__"@ + after, "__BASE_URL__"@),
        !contains_text(before + "__IFRAME_TOKEN__"@ + after, "__GUILD_ID__"@),
        !contains_text(before + "__IFRAME_TOKEN__"@ + after, "__ROLE_ID__"@),
        !contains_text(before + "__IFRAME_TOKEN__"@ + after, "__READ_ONLY__"@),
        !contains_text(before + token_or_empty(session) + after, "__READ_ONLY__"@),
    ensures
        page.status == 200,
        page.html@ == before + (match session {
            Some(t) => t,
            None => Seq::<char>::empty(),
        }) + after,
{
    let template = before + "__IFRAME_TOKEN__"@ + after;
    reveal_strlit("__IFRAME_TOKEN__");
    law_nothing_to_replace(template, "__BASE_URL__"@, base_url);
    law_nothing_to_replace(template, "__GUILD_ID__"@, guild_id);
    law_nothing_to_replace(template, "__ROLE_ID__"@, role_id);
    law_nothing_to_replace(after, "__IFRAME_TOKEN__"@, token_or_empty(session));
    law_replacing(before, "__IFRAME_TOKEN__"@, after, token_or_empty(session));
    law_nothing_to_replace(before + token_or_empty(session) + after, "__READ_ONLY__"@, (if read_only { "1"@ } else { "0"@ }));
}

/// The blank for the role is filled with the role.
pub proof fn law_builder_names_the_role(
    page: Page,
    before: Seq<char>,
    after: Seq<char>,
    base_url: Seq<char>,
    guild_id: Seq<char>,
    role_id: Seq<char>,
    session: Option<Seq<char>>,
    read_only: bool,
)
    requires
        page.is_builder(
            before + "__ROLE_ID__"@ + after,
            base_url,
            guild_id,
            role_id,
            session,
            read_only,
        ),
        forall|j: int|
            j < before.len() ==> !#[trigger] occurs_at(before + "__ROLE_ID__"@ + after, "__ROLE_ID__"@, j),
        !contains_text(after, "__ROLE_ID__"@),
        !contains_text(before + "__ROLE_ID__"@ + after, "__BASE_URL__"@),
        !contains_text(before + "__ROLE_ID__"@ + after, "__GUILD_ID__"@),
        !contains_text(before + "__ROLE_ID__"@ + after, "__IFRAME_TOKEN__"@),
        !contains_text(before + "__ROLE_ID__"@ + after, "__READ_ONLY__"@),
        !contains_text(before + role_id + after, "__IFRAME_TOKEN__"@),
        !contains_text(before + role_id + after, "__READ_ONLY__"@),
    ensures
        page.status == 200,
        page.html@ == before + role_id + after,
{
    let template = before + "__ROLE_ID__"@ + after;
    reveal_strlit("__ROLE_ID__");
    law_nothing_to_replace(template, "__BASE_URL__"@, base_url);
    law_nothing_to_replace(template, "__GUILD_ID__"@, guild_id);
    law_nothing_to_replace(after, "__ROLE_ID__"@, role_id);
    law_replacing(before, "__ROLE_ID__"@, after, role_id);
    law_nothing_to_replace(before + role_id + after, "__IFRAME_TOKEN__"@, token_or_empty(session));
    law_nothing_to_replace(before + role_id + after, "__READ_ONLY__"@, (if read_only { "1"@ } else { "0"@ }));
}

/// The blank for the guild is filled with the guild.
pub proof fn law_builder_names_the_guild(
    page: Page,
    before: Seq<char>,
    after: Seq<char>,
    base_url: Seq<char>,
    guild_id: Seq<char>,
    role_id: Seq<char>,
    session: Option<Seq<char>>,
    read_only: bool,
)
    requires
        page.is_builder(
            before + "__GUILD_ID__"@ + after,
            base_url,
            guild_id,
            role_id,
            session,
            read_only,
        ),
        forall|j: int|
            j < before.len() ==> !#[trigger] occurs_at(before + "__GUILD_ID__"@ + after, "__GUILD_ID__"@, j),
        !contains_text(after, "__GUILD_ID__"@),
        !contains_text(before + "__GUILD_ID__"@ + after, "__BASE_URL__"@),
        !contains_text(before + "__GUILD_ID__"@ + after, "__ROLE_ID__"@),
        !contains_text(before + "__GUILD_ID__"@ + after, "__IFRAME_TOKEN__"@),
        !contains_text(before + "__GUILD_ID__"@ + after, "__READ_ONLY__"@),
        !contains_text(before + guild_id + after, "__ROLE_ID__"@),
        !contains_text(before + guild_id + after, "__IFRAME_TOKEN__"@),
        !contains_text(before + guild_id + after, "__READ_ONLY__"@),
    ensures
        page.status == 200,
        page.html@ == before + guild_id + after,
{
    let template = before + "__GUILD_ID__"@ + after;
    reveal_strlit("__GUILD_ID__");
    law_nothing_to_replace(template, "__BASE_URL__"@, base_url);
    law_nothing_to_replace(after, "__GUILD_ID__"@, guild_id);
    law_replacing(before, "__GUILD_ID__"@, after, guild_id);
    law_nothing_to_replace(before + guild_id + after, "__ROLE_ID__"@, role_id);
    law_nothing_to_replace(before + guild_id + after, "__IFRAME_TOKEN__"@, token_or_empty(session));
    law_nothing_to_replace(before + guild_id + after, "__READ_ONLY__"@, (if read_only { "1"@ } else { "0"@ }));
}

/// The blank for the base URL is filled with the base URL.
pub proof fn law_builder_names_the_base(
    page: Page,
    before: Seq<char>,
    after: Seq<char>,
    base_url: Seq<char>,
    guild_id: Seq<char>,
    role_id: Seq<char>,
    session: Option<Seq<char>>,
    read_only: bool,
)
    requires
        page.is_builder(
            before + "__BASE_URL__"@ + after,
            base_url,
            guild_id,
            role_id,
            session,
            read_only,
        ),
        forall|j: int|
            j < before.len() ==> !#[trigger] occurs_at(before + "__BASE_URL__"@ + after, "__BASE_URL__"@, j),
        !contains_text(after, "__BASE_URL__"@),
        !contains_text(before + "__BASE_URL__"@ + after, "__GUILD_ID__"@),
        !contains_text(before + "__BASE_URL__"@ + after, "__ROLE_ID__"@),
        !contains_text(before + "__BASE_URL__"@ + after, "__IFRAME_TOKEN__"@),
        !contains_text(before + "__BASE_URL__"@ + after, "__READ_ONLY__"@),
        !contains_text(before + base_url + after, "__GUILD_ID__"@),
        !contains_text(before + base_url + after, "__ROLE_ID__"@),
        !contains_text(before + base_url + after, "__IFRAME_TOKEN__"@),
        !contains_text(before + base_url + after, "__READ_ONLY__"@),
    ensures
        page.status == 200,
        page.html@ == before + base_url + after,
{
    let template = before + "__BASE_URL__"@ + after;
    reveal_strlit("__BASE_URL__");
    law_nothing_to_replace(after, "__BASE_URL__"@, base_url);
    law_replacing(before, "__BASE_URL__"@, after, base_url);
    law_nothing_to_replace(before + base_url + after, "__GUILD_ID__"@, guild_id);
    law_nothing_to_replace(before + base_url + after, "__ROLE_ID__"@, role_id);
    law_nothing_to_replace(before + base_url + after, "__IFRAME_TOKEN__"@, token_or_empty(session));
    law_nothing_to_replace(before + base_url + after, "__READ_ONLY__"@, (if read_only { "1"@ } else { "0"@ }));
}

proof fn lemma_lower_word(s: Seq<char>, word: Seq<char>)
    requires
        forall|k: int|
            0 <= k < word.len() ==> ('a' <= #[trigger] word[k] && word[k] <= 'z') || word[k] == '-',
    ensures
        same_letters(s, word) == (ascii_lower(s) == word),
{
    if ascii_lower(s) == word {
        assert forall|k: int| 0 <= k < word.len() implies (#[trigger] s[k] == word[k] || ('a'
            <= word[k] && word[k] <= 'z' && s[k] as u32 + 32 == word[k] as u32)) by {
            assert(ascii_lower(s)[k] == ascii_lower_char(s[k]));
        }
    }
    if same_letters(s, word) {
        assert forall|k: int| 0 <= k < word.len() implies ascii_lower(s)[k] == word[k] by {
            assert(s[k] == word[k] || s[k] as u32 + 32 == word[k] as u32);
        }
        assert(ascii_lower(s) =~= word);
    }
}

/// A load counts as embedded exactly when its destination is a frame or it comes
/// from another site, the case of letters aside; a missing header says nothing.
pub proof fn law_what_is_embedded(dest: Seq<char>, site: Seq<char>)
    ensures
        embedded(Some(dest), Some(site)) <==> same_letters(dest, "iframe"@) || same_letters(
            dest,
            "frame"@,
        ) || same_letters(site, "cross-site"@),
        embedded(Some(dest), None) <==> same_letters(dest, "iframe"@) || same_letters(
            dest,
            "frame"@,
        ),
        embedded(None, Some(site)) <==> same_letters(site, "cross-site"@),
        !embedded(None, None),
{
    reveal_strlit("iframe");
    reveal_strlit("frame");
    reveal_strlit("cross-site");
    assert("iframe"@.len() == 6 && "frame"@.len() == 5 && "cross-site"@.len() == 10);
    lemma_lower_word(dest, "iframe"@);
    lemma_lower_word(dest, "frame"@);
    lemma_lower_word(site, "cross-site"@);
}

/// The page is told the ids it was opened for, the rule that the role link
/// stores, its version, the connected channel, the limits, and who sees the list
/// of users.
pub proof fn law_page_data(
    base_url: Seq<char>,
    guild_id: Seq<char>,
    role_id: Seq<char>,
    link: LinkConfig,
    permission: Option<Seq<char>>,
)
    ensures
        ({
            let doc = data_json(base_url, guild_id, role_id, link, permission);
            let rule = stored_rule(link.rule_tree@);
            &&& doc.get("guild_id"@) == Some(JsonModel::Text(guild_id))
            &&& doc.get("role_id"@) == Some(JsonModel::Text(role_id))
            &&& doc.get("rule_tree_version"@) == Some(
                JsonModel::Int(link.rule_tree_version as i64),
            )
            &&& doc.get("config"@) matches Some(config) && config.get("grant_on_any_relation"@)
                == Some(JsonModel::Bool(rule.grant_on_any_relation)) && config.get("groups"@)
                == Some(groups_json(rule.groups))
            &&& doc.get("channel"@) matches Some(channel) && channel.get("connected"@) == Some(
                JsonModel::Bool(link.broadcaster_id is Some),
            ) && channel.get("broadcaster_id"@) == Some(
                optional_text(opt_view(link.broadcaster_id)),
            ) && channel.get("broadcaster_login"@) == Some(
                optional_text(opt_view(link.broadcaster_login)),
            )
            &&& doc.get("limits"@) matches Some(limits) && limits.get("max_groups"@) == Some(
                JsonModel::Int(8),
            ) && limits.get("max_conditions_per_group"@) == Some(JsonModel::Int(8))
            &&& doc.get("verify_url"@) == Some(
                JsonModel::Text(base_url + "/verify?guild="@ + guild_id),
            )
            &&& doc.get("users"@) matches Some(users) && users.get("url"@) == Some(
                JsonModel::Text(base_url + "/users/"@ + guild_id),
            ) && users.get("view_permission"@) == Some(
                JsonModel::Text(
                    match permission {
                        Some(p) => p,
                        None => "managers"@,
                    },
                ),
            )
            &&& doc.get("targets"@) == Some(targets_json())
            &&& doc.get("operators"@) == Some(operators_json())
        }),
{
    let rule = stored_rule(link.rule_tree@);
    lemma_config_data(rule);
    lemma_channel_data(link);
    lemma_limits_data();
    lemma_users_data(base_url + "/users/"@ + guild_id, permission_of(permission));
    reveal_strlit("guild_id");
    reveal_strlit("role_id");
    reveal_strlit("config");
    reveal_strlit("rule_tree_version");
    reveal_strlit("channel");
    reveal_strlit("targets");
    reveal_strlit("operators");
    reveal_strlit("limits");
    reveal_strlit("verify_url");
    reveal_strlit("users");
    assert("guild_id"@.len() == 8 && "role_id"@.len() == 7 && "config"@.len() == 6
        && "rule_tree_version"@.len() == 17 && "channel"@.len() == 7 && "targets"@.len() == 7
        && "operators"@.len() == 9 && "limits"@.len() == 6 && "verify_url"@.len() == 10
        && "users"@.len() == 5);
    assert("role_id"@[0] != "channel"@[0]);
    assert("role_id"@[0] != "targets"@[0]);
    assert("config"@[0] != "limits"@[0]);
    assert("channel"@[0] != "targets"@[0]);
    let d0 = json_object();
    let v1 = JsonModel::Text(guild_id);
    let d1 = d0.with("guild_id"@, v1);
    lemma_with(d0, "guild_id"@, v1);
    let v2 = JsonModel::Text(role_id);
    let d2 = d1.with("role_id"@, v2);
    lemma_with(d1, "role_id"@, v2);
    let v3 = json_object().with(
        "grant_on_any_relation"@,
        JsonModel::Bool(rule.grant_on_any_relation),
    ).with("groups"@, groups_json(rule.groups));
    let d3 = d2.with("config"@, v3);
    lemma_with(d2, "config"@, v3);
    let v4 = JsonModel::Int(link.rule_tree_version as i64);
    let d4 = d3.with("rule_tree_version"@, v4);
    lemma_with(d3, "rule_tree_version"@, v4);
    let v5 = json_object().with(
        "connected"@,
        JsonModel::Bool(link.broadcaster_id is Some),
    ).with("broadcaster_id"@, optional_text(opt_view(link.broadcaster_id))).with(
        "broadcaster_login"@,
        optional_text(opt_view(link.broadcaster_login)),
    );
    let d5 = d4.with("channel"@, v5);
    lemma_with(d4, "channel"@, v5);
    let v6 = targets_json();
    let d6 = d5.with("targets"@, v6);
    lemma_with(d5, "targets"@, v6);
    let v7 = operators_json();
    let d7 = d6.with("operators"@, v7);
    lemma_with(d6, "operators"@, v7);
    let v8 = json_object().with("max_groups"@, json_count(MAX_GROUPS as nat)).with(
        "max_conditions_per_group"@,
        json_count(MAX_CONDITIONS_PER_GROUP as nat),
    );
    let d8 = d7.with("limits"@, v8);
    lemma_with(d7, "limits"@, v8);
    let v9 = JsonModel::Text(verify_address(base_url, guild_id));
    let d9 = d8.with("verify_url"@, v9);
    lemma_with(d8, "verify_url"@, v9);
    let v10 = json_object().with(
        "url"@,
        JsonModel::Text(base_url + "/users/"@ + guild_id),
    ).with("view_permission"@, JsonModel::Text(permission_of(permission)));
    let d10 = d9.with("users"@, v10);
    lemma_with(d9, "users"@, v10);
    assert(data_json(base_url, guild_id, role_id, link, permission) == d10);
}

proof fn lemma_config_data(rule: RuleModel)
    ensures
        ({
            let doc = json_object().with(
                "grant_on_any_relation"@,
                JsonModel::Bool(rule.grant_on_any_relation),
            ).with("groups"@, groups_json(rule.groups));
            &&& doc.get("grant_on_any_relation"@) == Some(
                JsonModel::Bool(rule.grant_on_any_relation),
            )
            &&& doc.get("groups"@) == Some(groups_json(rule.groups))
        }),
{
    reveal_strlit("grant_on_any_relation");
    reveal_strlit("groups");
    assert("grant_on_any_relation"@.len() == 21 && "groups"@.len() == 6);
    let d0 = json_object();
    let v1 = JsonModel::Bool(rule.grant_on_any_relation);
    let d1 = d0.with("grant_on_any_relation"@, v1);
    lemma_with(d0, "grant_on_any_relation"@, v1);
    let v2 = groups_json(rule.groups);
    let d2 = d1.with("groups"@, v2);
    lemma_with(d1, "groups"@, v2);
    assert(json_object().with(
        "grant_on_any_relation"@,
        JsonModel::Bool(rule.grant_on_any_relation),
    ).with("groups"@, groups_json(rule.groups)) == d2);
}

proof fn lemma_channel_data(link: LinkConfig)
    ensures
        ({
            let doc = json_object().with("connected"@, JsonModel::Bool(link.broadcaster_id is Some)).with(
                "broadcaster_id"@,
                optional_text(opt_view(link.broadcaster_id)),
            ).with("broadcaster_login"@, optional_text(opt_view(link.broadcaster_login)));
            &&& doc.get("connected"@) == Some(JsonModel::Bool(link.broadcaster_id is Some))
            &&& doc.get("broadcaster_id"@) == Some(optional_text(opt_view(link.broadcaster_id)))
            &&& doc.get("broadcaster_login"@) == Some(
                optional_text(opt_view(link.broadcaster_login)),
            )
        }),
{
    reveal_strlit("connected");
    reveal_strlit("broadcaster_id");
    reveal_strlit("broadcaster_login");
    assert("connected"@.len() == 9 && "broadcaster_id"@.len() == 14
        && "broadcaster_login"@.len() == 17);
    let d0 = json_object();
    let v1 = JsonModel::Bool(link.broadcaster_id is Some);
    let d1 = d0.with("connected"@, v1);
    lemma_with(d0, "connected"@, v1);
    let v2 = optional_text(opt_view(link.broadcaster_id));
    let d2 = d1.with("broadcaster_id"@, v2);
    lemma_with(d1, "broadcaster_id"@, v2);
    let v3 = optional_text(opt_view(link.broadcaster_login));
    let d3 = d2.with("broadcaster_login"@, v3);
    lemma_with(d2, "broadcaster_login"@, v3);
    assert(json_object().with("connected"@, JsonModel::Bool(link.broadcaster_id is Some)).with(
                "broadcaster_id"@,
                optional_text(opt_view(link.broadcaster_id)),
            ).with("broadcaster_login"@, optional_text(opt_view(link.broadcaster_login))) == d3);
}

proof fn lemma_limits_data()
    ensures
        ({
            let doc = json_object().with("max_groups"@, json_count(MAX_GROUPS as nat)).with(
                "max_conditions_per_group"@,
                json_count(MAX_CONDITIONS_PER_GROUP as nat),
            );
            &&& doc.get("max_groups"@) == Some(JsonModel::Int(8))
            &&& doc.get("max_conditions_per_group"@) == Some(JsonModel::Int(8))
        }),
{
    reveal_strlit("max_groups");
    reveal_strlit("max_conditions_per_group");
    assert("max_groups"@.len() == 10 && "max_conditions_per_group"@.len() == 24);
    let d0 = json_object();
    let v1 = json_count(MAX_GROUPS as nat);
    let d1 = d0.with("max_groups"@, v1);
    lemma_with(d0, "max_groups"@, v1);
    let v2 = json_count(MAX_CONDITIONS_PER_GROUP as nat);
    let d2 = d1.with("max_conditions_per_group"@, v2);
    lemma_with(d1, "max_conditions_per_group"@, v2);
    assert(json_object().with("max_groups"@, json_count(MAX_GROUPS as nat)).with(
                "max_conditions_per_group"@,
                json_count(MAX_CONDITIONS_PER_GROUP as nat),
            ) == d2);
}

proof fn lemma_users_data(url: Seq<char>, permission: Seq<char>)
    ensures
        ({
            let doc = json_object().with("url"@, JsonModel::Text(url)).with(
                "view_permission"@,
                JsonModel::Text(permission),
            );
            &&& doc.get("url"@) == Some(JsonModel::Text(url))
            &&& doc.get("view_permission"@) == Some(JsonModel::Text(permission))
        }),
{
    reveal_strlit("url");
    reveal_strlit("view_permission");
    assert("url"@.len() == 3 && "view_permission"@.len() == 15);
    let d0 = json_object();
    let v1 = JsonModel::Text(url);
    let d1 = d0.with("url"@, v1);
    lemma_with(d0, "url"@, v1);
    let v2 = JsonModel::Text(permission);
    let d2 = d1.with("view_permission"@, v2);
    lemma_with(d1, "view_permission"@, v2);
    assert(json_object().with("url"@, JsonModel::Text(url)).with(
                "view_permission"@,
                JsonModel::Text(permission),
            ) == d2);
}

/// Saving in order: a valid rule that needs a channel is stored once one is found
/// to be connected, as a document that reads back as the rule, under the version
/// that the editor loaded; then the new version is read and answered.
pub proof fn law_smooth_saving(
    version: i32,
    body: BodyModel,
    rule: RuleModel,
    channel: String,
    rows: u64,
    new_version: i32,
    states: Seq<SaveFlow>,
)
    requires
        parsed_rule(body) == Ok::<RuleModel, Seq<char>>(rule),
        !rule.grant_on_any_relation,
        rows > 0,
        states.len() == 4,
        states[0].starts(false, version, body),
        states[0].leads_to(SaveReply::Channel(Ok(Some(channel))), states[1]),
        states[1].leads_to(SaveReply::Updated(Ok(rows)), states[2]),
        states[2].leads_to(SaveReply::Version(Ok(Some(new_version))), states[3]),
    ensures
        states[0] is FindChannel,
        states[1] matches SaveFlow::Update { document, expected_version } && rule_in(document@)
            == Some(rule) && expected_version == version,
        states[2] is ReadVersion,
        states[3] == (SaveFlow::Saved { version: new_version }),
{
    law_accepted_rules_are_acceptable(body);
    law_accepted_rules_are_kept(body, rule);
}

/// A rule that grants on any relation is stored at once, and reads back as such.
pub proof fn law_saving_for_anyone(version: i32, body: BodyModel, start: SaveFlow)
    requires
        body.grant_on_any_relation,
        start.starts(false, version, body),
    ensures
        start matches SaveFlow::Update { document, expected_version } && expected_version == version
            && (rule_in(document@) matches Some(rule) && rule.grant_on_any_relation
            && rule.groups.len() == 0),
{
    let rule = parsed_rule(body)->Ok_0;
    law_accepted_rules_are_kept(body, rule);
}

/// What keeps a rule from being saved, and what is said of it: no channel, a role
/// link that is gone, a version that is stale, or a failure of the database.
pub proof fn law_what_keeps_a_rule_from_being_saved(
    tree: RuleTree,
    document: JsonValue,
    version: i32,
    found: i32,
    e: AppError,
    r: SaveFlow,
)
    ensures
        (SaveFlow::FindChannel { tree, expected_version: version }).leads_to(
            SaveReply::Channel(Ok(None)),
            r,
        ) ==> (r matches SaveFlow::Failed(f) && f@ is BadRequest),
        SaveFlow::FindVersion.leads_to(SaveReply::Version(Ok(Some(found))), r) ==> (
        r matches SaveFlow::Failed(f) && f@ is StaleVersion),
        SaveFlow::FindVersion.leads_to(SaveReply::Version(Ok(None)), r) ==> (
        r matches SaveFlow::Failed(f) && f@ is NotFound),
        (SaveFlow::Update { document, expected_version: version }).leads_to(
            SaveReply::Updated(Ok(0)),
            r,
        ) ==> r is FindVersion,
        (SaveFlow::FindChannel { tree, expected_version: version }).leads_to(
            SaveReply::Channel(Err(e)),
            r,
        ) ==> r == SaveFlow::Failed(e),
        (SaveFlow::Update { document, expected_version: version }).leads_to(
            SaveReply::Updated(Err(e)),
            r,
        ) ==> r == SaveFlow::Failed(e),
        SaveFlow::FindVersion.leads_to(SaveReply::Version(Err(e)), r) ==> r == SaveFlow::Failed(e),
        SaveFlow::ReadVersion.leads_to(SaveReply::Version(Err(e)), r) ==> r == SaveFlow::Failed(e),
        SaveFlow::ReadVersion.leads_to(SaveReply::Version(Ok(None)), r) ==> (
        r matches SaveFlow::Failed(f) && f@ is Database),
{
}

/// An invalid rule is refused with what is wrong with it.
pub proof fn law_invalid_rules_are_refused(version: i32, body: BodyModel, start: SaveFlow)
    requires
        parsed_rule(body) is Err,
        start.starts(false, version, body),
    ensures
        start matches SaveFlow::Failed(e) && e@ == ErrorModel::BadRequest(parsed_rule(body)->Err_0),
{
}

/// The query that counts the matching members looks at the linked accounts of
/// the members, with what is cached for the channel beside them, and counts each
/// member once for whom the rule's clause holds.
pub proof fn law_query_that_counts(rule: RuleModel)
    ensures
        count_sql(rule)
            == "SELECT count(DISTINCT la.discord_id) FROM linked_accounts la LEFT JOIN user_channel_cache ucc ON ucc.twitch_user_id = la.twitch_user_id AND ucc.broadcaster_id = $1 WHERE la.discord_id = ANY($2::text[]) AND ("@
            + rule_text(rule, 2) + ")"@,
{
}

/// A preview in order: the linked among the members are counted, then those of
/// them who match the rule on the connected channel; both counts are answered.
pub proof fn law_smooth_preview(
    tree: RuleTree,
    channel: String,
    member_ids: Vec<String>,
    linked: i64,
    matching: i64,
    states: Seq<PreviewFlow>,
)
    requires
        !tree@.grant_on_any_relation,
        member_ids@.len() > 0,
        states.len() == 4,
        states[0] == (PreviewFlow::FetchMembers { tree, broadcaster_id: Some(channel) }),
        states[0].leads_to(PreviewReply::Members(Some(member_ids)), states[1]),
        states[1].leads_to(PreviewReply::Linked(Ok(linked)), states[2]),
        states[2].leads_to(PreviewReply::Matching(Ok(matching)), states[3]),
    ensures
        states[1] == (PreviewFlow::CountLinked {
            tree,
            broadcaster_id: Some(channel),
            member_ids,
        }),
        states[2] matches PreviewFlow::CountMatching {
            broadcaster_id,
            member_ids: ids,
            binds,
            sql,
            ..
        } && broadcaster_id == channel && ids == member_ids && binds@ == rule_binds(tree@) && sql@
            == count_sql(tree@),
        states[3] == PreviewFlow::Answer(Preview::Counted { matching, linked }),
{
}

/// The previews that need no query for the rule: everyone who is linked matches a
/// rule that grants on any relation, nobody is counted in a guild without
/// members, and where the members are not known nothing is counted.
pub proof fn law_short_previews(
    tree: RuleTree,
    broadcaster_id: Option<String>,
    member_ids: Vec<String>,
    none: Vec<String>,
    linked: i64,
    e: AppError,
    r: PreviewFlow,
)
    requires
        none@.len() == 0,
    ensures
        tree@.grant_on_any_relation && (PreviewFlow::CountLinked {
            tree,
            broadcaster_id,
            member_ids,
        }).leads_to(PreviewReply::Linked(Ok(linked)), r) ==> r == PreviewFlow::Answer(
            Preview::Counted { matching: linked, linked },
        ),
        (PreviewFlow::FetchMembers { tree, broadcaster_id }).leads_to(
            PreviewReply::Members(Some(none)),
            r,
        ) ==> r == PreviewFlow::Answer(Preview::Counted { matching: 0, linked: 0 }),
        (PreviewFlow::FetchMembers { tree, broadcaster_id }).leads_to(
            PreviewReply::Members(None),
            r,
        ) ==> r == PreviewFlow::Answer(Preview::Unavailable),
        (PreviewFlow::CountLinked { tree, broadcaster_id, member_ids }).leads_to(
            PreviewReply::Linked(Err(e)),
            r,
        ) ==> r == PreviewFlow::Failed(e),
{
}

/// What the editor is told of a preview: both counts, each under its own name, or
/// that there is none.
pub proof fn law_preview_answers(matching: i64, linked: i64)
    ensures
        ({
            let doc = preview_json(Preview::Counted { matching, linked });
            &&& doc.get("available"@) == Some(JsonModel::Bool(true))
            &&& doc.get("matching"@) == Some(JsonModel::Int(matching))
            &&& doc.get("linked"@) == Some(JsonModel::Int(linked))
        }),
        preview_json(Preview::Unavailable).get("available"@) == Some(JsonModel::Bool(false)),
        preview_json(Preview::Unavailable).get("matching"@) is None,
{
    reveal_strlit("available");
    reveal_strlit("matching");
    reveal_strlit("linked");
    assert("available"@.len() == 9 && "matching"@.len() == 8 && "linked"@.len() == 6);
    let d0 = json_object();
    let v1 = JsonModel::Bool(true);
    let d1 = d0.with("available"@, v1);
    lemma_with(d0, "available"@, v1);
    let v2 = JsonModel::Int(matching);
    let d2 = d1.with("matching"@, v2);
    lemma_with(d1, "matching"@, v2);
    let v3 = JsonModel::Int(linked);
    let d3 = d2.with("linked"@, v3);
    lemma_with(d2, "linked"@, v3);
    assert(preview_json(Preview::Counted { matching, linked }) == d3);
    let reason = JsonModel::Text(
        "Member list temporarily unavailable; preview will work once the Auth Gateway responds."@,
    );
    reveal_strlit("reason");
    assert("reason"@.len() == 6);
    let none = d0.with("available"@, JsonModel::Bool(false));
    lemma_with(d0, "available"@, JsonModel::Bool(false));
    lemma_with(none, "reason"@, reason);
    assert(preview_json(Preview::Unavailable) == none.with("reason"@, reason));
}

/// The catalog of targets: the four that rules can ask for, each under the name
/// by which rules name it and with the kind of its values.
pub proof fn law_target_catalog(i: int)
    requires
        0 <= i < 4,
    ensures
        ({
            let target = if i == 0 {
                ConditionTarget::IsFollower
            } else if i == 1 {
                ConditionTarget::FollowAgeDays
            } else if i == 2 {
                ConditionTarget::IsSubscriber
            } else {
                ConditionTarget::SubTier
            };
            targets_json() matches JsonModel::Array(items) && items.len() == 4 && items[i].get(
                "key"@,
            ) == Some(JsonModel::Text(target.key())) && items[i].get("kind"@) == Some(
                JsonModel::Text(
                    if i == 0 || i == 2 {
                        "bool"@
                    } else {
                        "int"@
                    },
                ),
            )
        }),
{
    lemma_target_entry(ConditionTarget::IsFollower, "Is a follower"@);
    lemma_target_entry(ConditionTarget::FollowAgeDays, "Days since first followed"@);
    lemma_target_entry(ConditionTarget::IsSubscriber, "Is an active subscriber"@);
    lemma_target_entry(ConditionTarget::SubTier, "Subscription tier (1-3)"@);
}

proof fn lemma_target_entry(t: ConditionTarget, label: Seq<char>)
    ensures
        target_json(t, label).get("key"@) == Some(JsonModel::Text(t.key())),
        target_json(t, label).get("label"@) == Some(JsonModel::Text(label)),
        target_json(t, label).get("kind"@) == Some(JsonModel::Text(kind_word(t.spec_kind()))),
        target_json(t, label).get("group"@) == Some(JsonModel::Text("viewer"@)),
{
    reveal_strlit("key");
    reveal_strlit("label");
    reveal_strlit("kind");
    reveal_strlit("group");
    assert("key"@.len() == 3 && "label"@.len() == 5 && "kind"@.len() == 4 && "group"@.len() == 5);
    assert("label"@[0] != "group"@[0]);
    let d0 = json_object();
    let v1 = JsonModel::Text(t.key());
    let d1 = d0.with("key"@, v1);
    lemma_with(d0, "key"@, v1);
    let v2 = JsonModel::Text(label);
    let d2 = d1.with("label"@, v2);
    lemma_with(d1, "label"@, v2);
    let v3 = JsonModel::Text(kind_word(t.spec_kind()));
    let d3 = d2.with("kind"@, v3);
    lemma_with(d2, "kind"@, v3);
    let v4 = JsonModel::Text("viewer"@);
    let d4 = d3.with("group"@, v4);
    lemma_with(d3, "group"@, v4);
    assert(target_json(t, label) == d4);
}

/// The catalog of operators: each under the name by which rules name it, with
/// what it fits, which for truth values is equality alone, and whether it needs
/// the end of a range.
pub proof fn law_operator_catalog(op: ConditionOperator, label: Seq<char>, i: int)
    requires
        0 <= i < 7,
    ensures
        operator_json(op, label).get("key"@) == Some(JsonModel::Text(op.key())),
        operator_json(op, label).get("needs_value_end"@) == Some(
            JsonModel::Bool(op == ConditionOperator::Between),
        ),
        operator_json(op, label).get("valid_for"@) matches Some(fits) && fits.get("bool"@) == Some(
            JsonModel::Bool(op == ConditionOperator::Eq),
        ) && fits.get("int"@) == Some(JsonModel::Bool(true)),
        operators_json() matches JsonModel::Array(items) && items.len() == 7 && items[i]
            == (if i == 0 {
            operator_json(ConditionOperator::Eq, "equals"@)
        } else if i == 1 {
            operator_json(ConditionOperator::Neq, "not equals"@)
        } else if i == 2 {
            operator_json(ConditionOperator::Gt, "greater than"@)
        } else if i == 3 {
            operator_json(ConditionOperator::Gte, "at least"@)
        } else if i == 4 {
            operator_json(ConditionOperator::Lt, "less than"@)
        } else if i == 5 {
            operator_json(ConditionOperator::Lte, "at most"@)
        } else {
            operator_json(ConditionOperator::Between, "between"@)
        }),
{
    lemma_fits_entry(op);
    reveal_strlit("key");
    reveal_strlit("label");
    reveal_strlit("valid_for");
    reveal_strlit("needs_value_end");
    assert("key"@.len() == 3 && "label"@.len() == 5 && "valid_for"@.len() == 9
        && "needs_value_end"@.len() == 15);
    let d0 = json_object();
    let v1 = JsonModel::Text(op.key());
    let d1 = d0.with("key"@, v1);
    lemma_with(d0, "key"@, v1);
    let v2 = JsonModel::Text(label);
    let d2 = d1.with("label"@, v2);
    lemma_with(d1, "label"@, v2);
    let v3 = json_object().with("bool"@, JsonModel::Bool(op.fits(TargetKind::Bool))).with(
        "int"@,
        JsonModel::Bool(op.fits(TargetKind::Int)),
    );
    let d3 = d2.with("valid_for"@, v3);
    lemma_with(d2, "valid_for"@, v3);
    let v4 = JsonModel::Bool(op is Between);
    let d4 = d3.with("needs_value_end"@, v4);
    lemma_with(d3, "needs_value_end"@, v4);
    assert(operator_json(op, label) == d4);
}

proof fn lemma_fits_entry(op: ConditionOperator)
    ensures
        ({
            let doc = json_object().with("bool"@, JsonModel::Bool(op.fits(TargetKind::Bool))).with(
                "int"@,
                JsonModel::Bool(op.fits(TargetKind::Int)),
            );
            doc.get("bool"@) == Some(JsonModel::Bool(op == ConditionOperator::Eq)) && doc.get(
                "int"@,
            ) == Some(JsonModel::Bool(true))
        }),
{
    reveal_strlit("bool");
    reveal_strlit("int");
    assert("bool"@.len() == 4 && "int"@.len() == 3);
    let d0 = json_object();
    let v1 = JsonModel::Bool(op.fits(TargetKind::Bool));
    let d1 = d0.with("bool"@, v1);
    lemma_with(d0, "bool"@, v1);
    let v2 = JsonModel::Bool(op.fits(TargetKind::Int));
    let d2 = d1.with("int"@, v2);
    lemma_with(d1, "int"@, v2);
}

/// A rule needs a channel exactly when it has conditions to check on one.
pub proof fn law_which_rules_need_a_channel(rule: RuleModel)
    ensures
        rule.grant_on_any_relation ==> !needs_channel(rule),
        rule.groups.len() == 0 ==> !needs_channel(rule),
        !rule.grant_on_any_relation && rule.groups.len() > 0 ==> needs_channel(rule)
            && grants_nobody(rule, false) && !grants_nobody(rule, true),
{
}

/// The scopes that the page asks a broadcaster for, and what is said of a role
/// link that is not there, of a rule without a channel, and of a row that is
/// gone.
pub proof fn law_fixed_texts()
    ensures
        BROADCASTER_SCOPES@ == "moderator:read:followers channel:read:subscriptions"@,
        NO_SUCH_LINK@ == "This role link doesn't exist. Has it been added in RoleLogic?"@,
        NO_CHANNEL@
            == "Connect the Twitch channel this rule checks against before saving — without a connected channel it would grant the role to nobody."@,
        NO_ROW@ == "no rows returned by a query that expected to return at least one row"@,
{
}

} // verus!
