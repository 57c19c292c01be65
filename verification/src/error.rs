//! What can go wrong, and what the caller of an endpoint is told about it.
use vstd::prelude::*;

use crate::json::{json_object, JsonModel, JsonValue};
use crate::text::{decimal, usize_text};

verus! {

#[derive(Debug, PartialEq)]
pub enum AppError {
    /// The database refused a query; what it said.
    Database(String),
    TwitchApi(String),
    RoleLogic(String),
    RoleLinkNotFound,
    RoleLinkDisabled,
    UserLimitReached { limit: usize },
    BadRequest(String),
    Unauthorized,
    UnauthorizedWith(String),
    Forbidden(String),
    StaleVersion,
    NotFound(String),
    Internal(String),
}

/// What an [`AppError`] says.
pub enum ErrorModel {
    Database(Seq<char>),
    TwitchApi(Seq<char>),
    RoleLogic(Seq<char>),
    RoleLinkNotFound,
    RoleLinkDisabled,
    UserLimitReached { limit: usize },
    BadRequest(Seq<char>),
    Unauthorized,
    UnauthorizedWith(Seq<char>),
    Forbidden(Seq<char>),
    StaleVersion,
    NotFound(Seq<char>),
    Internal(Seq<char>),
}

impl View for AppError {
    type V = ErrorModel;

    open spec fn view(&self) -> ErrorModel {
        match *self {
            AppError::Database(e) => ErrorModel::Database(e@),
            AppError::TwitchApi(e) => ErrorModel::TwitchApi(e@),
            AppError::RoleLogic(e) => ErrorModel::RoleLogic(e@),
            AppError::RoleLinkNotFound => ErrorModel::RoleLinkNotFound,
            AppError::RoleLinkDisabled => ErrorModel::RoleLinkDisabled,
            AppError::UserLimitReached { limit } => ErrorModel::UserLimitReached { limit },
            AppError::BadRequest(m) => ErrorModel::BadRequest(m@),
            AppError::Unauthorized => ErrorModel::Unauthorized,
            AppError::UnauthorizedWith(m) => ErrorModel::UnauthorizedWith(m@),
            AppError::Forbidden(m) => ErrorModel::Forbidden(m@),
            AppError::StaleVersion => ErrorModel::StaleVersion,
            AppError::NotFound(m) => ErrorModel::NotFound(m@),
            AppError::Internal(e) => ErrorModel::Internal(e@),
        }
    }
}

impl ErrorModel {
    /// The text of the error, for logs and for pages that show a reason.
    pub open spec fn description(self) -> Seq<char> {
        match self {
            ErrorModel::Database(e) => "Database error: "@ + e,
            ErrorModel::TwitchApi(e) => "Twitch API error: "@ + e,
            ErrorModel::RoleLogic(e) => "RoleLogic API error: "@ + e,
            ErrorModel::RoleLinkNotFound => "Role link not found on RoleLogic"@,
            ErrorModel::RoleLinkDisabled => "Role link is disabled on RoleLogic"@,
            ErrorModel::UserLimitReached { limit } => "Role link user limit reached ("@ + decimal(
                limit as nat,
            ) + ")"@,
            ErrorModel::BadRequest(m) => "Invalid request: "@ + m,
            ErrorModel::Unauthorized => "Unauthorized"@,
            ErrorModel::UnauthorizedWith(m) => m,
            ErrorModel::Forbidden(m) => "Forbidden: "@ + m,
            ErrorModel::StaleVersion => "Configuration changed in another tab"@,
            ErrorModel::NotFound(m) => "Not found: "@ + m,
            ErrorModel::Internal(e) => "Internal error: "@ + e,
        }
    }

    /// The HTTP status that answers the request.
    pub open spec fn status(self) -> u16 {
        match self {
            ErrorModel::Database(_) | ErrorModel::Internal(_) => 500,
            ErrorModel::TwitchApi(_) | ErrorModel::RoleLogic(_) => 502,
            ErrorModel::RoleLinkNotFound | ErrorModel::NotFound(_) => 404,
            ErrorModel::RoleLinkDisabled
            | ErrorModel::UserLimitReached { .. }
            | ErrorModel::Forbidden(_) => 403,
            ErrorModel::BadRequest(_) => 400,
            ErrorModel::Unauthorized | ErrorModel::UnauthorizedWith(_) => 401,
            ErrorModel::StaleVersion => 409,
        }
    }

    /// What the caller is told. The details of a failure behind the endpoint
    /// (the database, Twitch, RoleLogic, an internal error) are kept from it.
    pub open spec fn message(self) -> Seq<char> {
        match self {
            ErrorModel::Database(_) | ErrorModel::Internal(_) => "Internal server error"@,
            ErrorModel::TwitchApi(_) => "Failed to fetch Twitch data"@,
            ErrorModel::RoleLogic(_) => "Failed to sync roles"@,
            ErrorModel::RoleLinkNotFound => "Role link not found"@,
            ErrorModel::RoleLinkDisabled => "Role link is disabled"@,
            ErrorModel::UserLimitReached { .. } => "Role link user limit reached"@,
            ErrorModel::BadRequest(m) => m,
            ErrorModel::Unauthorized => "Invalid or missing authorization"@,
            ErrorModel::UnauthorizedWith(m) => m,
            ErrorModel::Forbidden(m) => m,
            ErrorModel::StaleVersion =>
                "This configuration changed in another tab. Reload to get the latest, then re-apply."@,
            ErrorModel::NotFound(m) => m,
        }
    }

    /// The failure lies behind the endpoint, not with its caller.
    pub open spec fn is_behind_endpoint(self) -> bool {
        self is Database || self is Internal || self is TwitchApi || self is RoleLogic
    }
}

/// The result, with its error seen as what it says.
pub open spec fn error_view<T>(r: Result<T, AppError>) -> Result<T, ErrorModel> {
    match r {
        Ok(v) => Ok(v),
        Err(e) => Err(e@),
    }
}

fn prefixed(prefix: &str, rest: &str) -> (r: String)
    ensures
        r@ == prefix@ + rest@,
{
    let mut out = prefix.to_owned();
    out.append(rest);
    out
}

impl AppError {
    /// The text of the error, for logs and for pages that show a reason.
    pub fn description(&self) -> (r: String)
        ensures
            r@ == self@.description(),
    {
        match self {
            AppError::Database(e) => prefixed("Database error: ", e.as_str()),
            AppError::TwitchApi(e) => prefixed("Twitch API error: ", e.as_str()),
            AppError::RoleLogic(e) => prefixed("RoleLogic API error: ", e.as_str()),
            AppError::RoleLinkNotFound => "Role link not found on RoleLogic".to_owned(),
            AppError::RoleLinkDisabled => "Role link is disabled on RoleLogic".to_owned(),
            AppError::UserLimitReached { limit } => {
                let mut out = "Role link user limit reached (".to_owned();
                out.append(usize_text(*limit).as_str());
                out.append(")");
                out
            },
            AppError::BadRequest(m) => prefixed("Invalid request: ", m.as_str()),
            AppError::Unauthorized => "Unauthorized".to_owned(),
            AppError::UnauthorizedWith(m) => m.clone(),
            AppError::Forbidden(m) => prefixed("Forbidden: ", m.as_str()),
            AppError::StaleVersion => "Configuration changed in another tab".to_owned(),
            AppError::NotFound(m) => prefixed("Not found: ", m.as_str()),
            AppError::Internal(e) => prefixed("Internal error: ", e.as_str()),
        }
    }

    fn message(&self) -> (r: String)
        ensures
            r@ == self@.message(),
    {
        match self {
            AppError::Database(_) | AppError::Internal(_) => "Internal server error".to_owned(),
            AppError::TwitchApi(_) => "Failed to fetch Twitch data".to_owned(),
            AppError::RoleLogic(_) => "Failed to sync roles".to_owned(),
            AppError::RoleLinkNotFound => "Role link not found".to_owned(),
            AppError::RoleLinkDisabled => "Role link is disabled".to_owned(),
            AppError::UserLimitReached { .. } => "Role link user limit reached".to_owned(),
            AppError::BadRequest(m) => m.clone(),
            AppError::Unauthorized => "Invalid or missing authorization".to_owned(),
            AppError::UnauthorizedWith(m) => m.clone(),
            AppError::Forbidden(m) => m.clone(),
            AppError::StaleVersion =>
                "This configuration changed in another tab. Reload to get the latest, then re-apply.".to_owned(),
            AppError::NotFound(m) => m.clone(),
        }
    }

    fn status(&self) -> (r: u16)
        ensures
            r == self@.status(),
    {
        match self {
            AppError::Database(_) | AppError::Internal(_) => 500,
            AppError::TwitchApi(_) | AppError::RoleLogic(_) => 502,
            AppError::RoleLinkNotFound | AppError::NotFound(_) => 404,
            AppError::RoleLinkDisabled
            | AppError::UserLimitReached { .. }
            | AppError::Forbidden(_) => 403,
            AppError::BadRequest(_) => 400,
            AppError::Unauthorized | AppError::UnauthorizedWith(_) => 401,
            AppError::StaleVersion => 409,
        }
    }

    /// The HTTP status and the JSON body that answer the request.
    pub fn into_response(self) -> (r: (u16, JsonValue))
        ensures
            r.0 == self@.status(),
            r.1@ == json_object().with("error"@, JsonModel::Text(self@.message())),
    {
        let status = self.status();
        let message = self.message();
        (status, JsonValue::object().with("error", JsonValue::Text(message)))
    }
}

/// Two failures of the same kind behind the endpoint are answered alike:
/// nothing of what the other side said reaches the caller.
pub proof fn law_failures_behind_are_opaque(a: ErrorModel, b: ErrorModel)
    requires
        a.is_behind_endpoint(),
        a is Database && b is Database || a is Internal && b is Internal || a is TwitchApi
            && b is TwitchApi || a is RoleLogic && b is RoleLogic,
    ensures
        a.message() == b.message(),
        a.status() == b.status(),
        a.status() >= 500,
{
}

/// The statuses by what went wrong: the caller's own fault is answered below 500,
/// a failure behind the endpoint from 500 on.
pub proof fn law_statuses(e: ErrorModel)
    ensures
        e is BadRequest <==> e.status() == 400,
        e is Unauthorized || e is UnauthorizedWith <==> e.status() == 401,
        e is Forbidden || e is RoleLinkDisabled || e is UserLimitReached <==> e.status() == 403,
        e is NotFound || e is RoleLinkNotFound <==> e.status() == 404,
        e is StaleVersion <==> e.status() == 409,
        e is Database || e is Internal <==> e.status() == 500,
        e is TwitchApi || e is RoleLogic <==> e.status() == 502,
{
}

/// A caller who did something wrong is told just what was found wrong.
pub proof fn law_callers_are_told_their_fault(m: Seq<char>)
    ensures
        ErrorModel::BadRequest(m).message() == m,
        ErrorModel::Forbidden(m).message() == m,
        ErrorModel::NotFound(m).message() == m,
        ErrorModel::UnauthorizedWith(m).message() == m,
        ErrorModel::UnauthorizedWith(m).description() == m,
        ErrorModel::Unauthorized.message() == "Invalid or missing authorization"@,
        ErrorModel::StaleVersion.message()
            == "This configuration changed in another tab. Reload to get the latest, then re-apply."@,
{
}

/// The descriptions for logs say what went wrong behind the kind of error.
pub proof fn law_descriptions(m: Seq<char>)
    ensures
        ErrorModel::Database(m).description() == "Database error: "@ + m,
        ErrorModel::TwitchApi(m).description() == "Twitch API error: "@ + m,
        ErrorModel::RoleLogic(m).description() == "RoleLogic API error: "@ + m,
        ErrorModel::Internal(m).description() == "Internal error: "@ + m,
        ErrorModel::Forbidden(m).description() == "Forbidden: "@ + m,
        ErrorModel::NotFound(m).description() == "Not found: "@ + m,
        ErrorModel::BadRequest(m).description() == "Invalid request: "@ + m,
{
}

/// What callers are told of failures that are not their own, and of role links.
pub proof fn law_fixed_messages(m: Seq<char>, limit: usize)
    ensures
        ErrorModel::Database(m).message() == "Internal server error"@,
        ErrorModel::Internal(m).message() == "Internal server error"@,
        ErrorModel::TwitchApi(m).message() == "Failed to fetch Twitch data"@,
        ErrorModel::RoleLogic(m).message() == "Failed to sync roles"@,
        ErrorModel::RoleLinkNotFound.message() == "Role link not found"@,
        ErrorModel::RoleLinkDisabled.message() == "Role link is disabled"@,
        (ErrorModel::UserLimitReached { limit }).message() == "Role link user limit reached"@,
        (ErrorModel::UserLimitReached { limit }).description() == "Role link user limit reached ("@
            + decimal(limit as nat) + ")"@,
        ErrorModel::RoleLinkNotFound.description() == "Role link not found on RoleLogic"@,
        ErrorModel::RoleLinkDisabled.description() == "Role link is disabled on RoleLogic"@,
        ErrorModel::Unauthorized.description() == "Unauthorized"@,
        ErrorModel::StaleVersion.description() == "Configuration changed in another tab"@,
{
}

} // verus!
