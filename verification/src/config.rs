//! The plugin's settings, derived from the environment variables.
use vstd::prelude::*;

use crate::text::{
    chars_of, find_from, first_occurrence, law_first_occurrence, occurs_at, str_eq, string_of,
    trim, trim_trailing, trimmed, without_trailing,
};

verus! {

/// The dashboard that embeds the plugin when no other one is set.
pub const DEFAULT_DASHBOARD_ORIGIN: &'static str = "https://rolelogic.faizo.net";

/// The address to listen on when none is set.
pub const DEFAULT_LISTEN_ADDR: &'static str = "0.0.0.0:8080";

#[derive(Clone)]
pub struct AppConfig {
    pub database_url: String,
    pub session_secret: String,
    pub twitch_client_id: String,
    pub twitch_client_secret: String,
    pub twitch_eventsub_secret: String,
    pub base_url: String,
    pub listen_addr: String,
    /// Base URL of the Auth Gateway (no trailing slash, no `/auth` suffix).
    /// Usually the same origin as `base_url`, which it is derived from if unset.
    pub auth_gateway_url: String,
    /// Shared secret for the calls from the plugin to the gateway.
    pub internal_api_key: String,
    /// Origin allowed to embed the role-config page. Falls back to the
    /// production dashboard.
    pub rl_dashboard_origin: Option<String>,
    /// Origins permitted to drive cookie-authenticated state changes: the
    /// plugin's own and the dashboard's.
    pub allowed_origins: Vec<String>,
}

/// The environment variables that the settings are read from; `None` where a
/// variable is not set.
pub struct EnvVars {
    pub base_url: Option<String>,
    pub auth_gateway_url: Option<String>,
    pub rl_dashboard_origin: Option<String>,
    pub database_url: Option<String>,
    pub session_secret: Option<String>,
    pub twitch_client_id: Option<String>,
    pub twitch_client_secret: Option<String>,
    pub twitch_eventsub_secret: Option<String>,
    pub listen_addr: Option<String>,
    pub internal_api_key: Option<String>,
}

/// The origin (scheme://host[:port]) of a URL: what comes before the first
/// slash after the scheme. A text without a scheme or a path is kept whole.
pub open spec fn origin_of(url: Seq<char>) -> Seq<char> {
    match first_occurrence(url, "://"@, 0) {
        Some(scheme_end) => match first_occurrence(url, "/"@, scheme_end + 3) {
            Some(path) => url.take(path),
            None => url,
        },
        None => url,
    }
}

/// The dashboard's origin: what is set, without white space around it and
/// slashes behind it, or the default where that leaves nothing.
pub open spec fn dashboard_origin(set: Option<String>) -> Seq<char> {
    match set {
        Some(s) => {
            let origin = without_trailing(trimmed(s@), '/');
            if origin.len() > 0 {
                origin
            } else {
                DEFAULT_DASHBOARD_ORIGIN@
            }
        },
        None => DEFAULT_DASHBOARD_ORIGIN@,
    }
}

/// The gateway's base URL: what is set, without slashes behind it, or the
/// plugin's own origin.
pub open spec fn gateway_url(set: Option<String>, base_url: Seq<char>) -> Seq<char> {
    match set {
        Some(s) => without_trailing(s@, '/'),
        None => origin_of(base_url),
    }
}

/// What is said of the first required variable that is not set.
pub open spec fn first_missing(vars: EnvVars) -> Option<Seq<char>> {
    if vars.base_url is None {
        Some("BASE_URL must be set"@)
    } else if vars.database_url is None {
        Some("DATABASE_URL must be set"@)
    } else if vars.session_secret is None {
        Some("SESSION_SECRET must be set"@)
    } else if vars.twitch_client_id is None {
        Some("TWITCH_CLIENT_ID must be set"@)
    } else if vars.twitch_client_secret is None {
        Some("TWITCH_CLIENT_SECRET must be set"@)
    } else if vars.twitch_eventsub_secret is None {
        Some("TWITCH_EVENTSUB_SECRET must be set"@)
    } else if vars.internal_api_key is None {
        Some("INTERNAL_API_KEY must be set (must match the Auth Gateway's value)"@)
    } else {
        None
    }
}

/// The texts of a list, in order.
pub open spec fn texts(list: Seq<String>) -> Seq<Seq<char>> {
    list.map_values(|s: String| s@)
}

/// Extract the origin (scheme://host[:port]) from a base URL, dropping any
/// path prefix.
pub fn derive_origin(base_url: &str) -> (r: String)
    ensures
        r@ == origin_of(base_url@),
{
    proof {
        reveal_strlit("://");
        reveal_strlit("/");
    }
    let chars = chars_of(base_url);
    let scheme = chars_of("://");
    if let Some(scheme_end) = find_from(&chars, &scheme, 0) {
        let after_scheme: usize = scheme_end + 3;
        let slash = chars_of("/");
        if let Some(path) = find_from(&chars, &slash, after_scheme) {
            let origin = string_of(&chars, 0, path);
            assert(origin@ =~= base_url@.take(path as int));
            return origin;
        }
    }
    base_url.to_owned()
}

impl AppConfig {
    /// These are the settings that the environment variables give.
    pub open spec fn are_settings_of(self, vars: EnvVars) -> bool {
        let base_url = vars.base_url->0@;
        let own = origin_of(base_url);
        let dashboard = dashboard_origin(vars.rl_dashboard_origin);
        &&& first_missing(vars) is None
        &&& self.base_url@ == base_url
        &&& self.database_url@ == vars.database_url->0@
        &&& self.session_secret@ == vars.session_secret->0@
        &&& self.twitch_client_id@ == vars.twitch_client_id->0@
        &&& self.twitch_client_secret@ == vars.twitch_client_secret->0@
        &&& self.twitch_eventsub_secret@ == vars.twitch_eventsub_secret->0@
        &&& self.internal_api_key@ == vars.internal_api_key->0@
        &&& self.listen_addr@ == (match vars.listen_addr {
            Some(s) => s@,
            None => DEFAULT_LISTEN_ADDR@,
        })
        &&& self.auth_gateway_url@ == gateway_url(vars.auth_gateway_url, base_url)
        &&& self.rl_dashboard_origin matches Some(d) && d@ == dashboard
        &&& texts(self.allowed_origins@) == if dashboard == own {
            seq![own]
        } else {
            seq![own, dashboard]
        }
    }

    /// The settings that the environment variables give, or what is said of
    /// the first required one that is missing.
    pub fn from_env(vars: EnvVars) -> (r: Result<AppConfig, String>)
        ensures
            match r {
                Err(message) => first_missing(vars) == Some(message@),
                Ok(c) => c.are_settings_of(vars),
            },
    {
        let base_url = match vars.base_url {
            Some(s) => s,
            None => {
                return Err("BASE_URL must be set".to_owned());
            },
        };
        let auth_gateway_url = match vars.auth_gateway_url {
            Some(s) => trim_trailing(s.as_str(), '/'),
            None => derive_origin(base_url.as_str()),
        };
        let dashboard = match vars.rl_dashboard_origin {
            Some(s) => {
                let origin = trim_trailing(trim(s.as_str()).as_str(), '/');
                if origin.as_str().is_empty() {
                    DEFAULT_DASHBOARD_ORIGIN.to_owned()
                } else {
                    origin
                }
            },
            None => DEFAULT_DASHBOARD_ORIGIN.to_owned(),
        };
        let own = derive_origin(base_url.as_str());
        let ghost own_text = own@;
        let same = str_eq(own.as_str(), dashboard.as_str());
        let mut allowed_origins: Vec<String> = Vec::new();
        allowed_origins.push(own);
        if !same {
            allowed_origins.push(dashboard.clone());
        }
        assert(texts(allowed_origins@) =~= if dashboard@ == own_text {
            seq![own_text]
        } else {
            seq![own_text, dashboard@]
        });
        let database_url = match vars.database_url {
            Some(s) => s,
            None => {
                return Err("DATABASE_URL must be set".to_owned());
            },
        };
        let session_secret = match vars.session_secret {
            Some(s) => s,
            None => {
                return Err("SESSION_SECRET must be set".to_owned());
            },
        };
        let twitch_client_id = match vars.twitch_client_id {
            Some(s) => s,
            None => {
                return Err("TWITCH_CLIENT_ID must be set".to_owned());
            },
        };
        let twitch_client_secret = match vars.twitch_client_secret {
            Some(s) => s,
            None => {
                return Err("TWITCH_CLIENT_SECRET must be set".to_owned());
            },
        };
        let twitch_eventsub_secret = match vars.twitch_eventsub_secret {
            Some(s) => s,
            None => {
                return Err("TWITCH_EVENTSUB_SECRET must be set".to_owned());
            },
        };
        let listen_addr = match vars.listen_addr {
            Some(s) => s,
            None => DEFAULT_LISTEN_ADDR.to_owned(),
        };
        let internal_api_key = match vars.internal_api_key {
            Some(s) => s,
            None => {
                return Err(
                    "INTERNAL_API_KEY must be set (must match the Auth Gateway's value)".to_owned(),
                );
            },
        };
        Ok(
            AppConfig {
                database_url,
                session_secret,
                twitch_client_id,
                twitch_client_secret,
                twitch_eventsub_secret,
                base_url,
                listen_addr,
                auth_gateway_url,
                internal_api_key,
                rl_dashboard_origin: Some(dashboard),
                allowed_origins,
            },
        )
    }

    pub fn twitch_user_oauth_redirect_uri(&self) -> (r: String)
        ensures
            r@ == self.base_url@ + "/verify/twitch/callback"@,
    {
        let mut out = self.base_url.clone();
        out.append("/verify/twitch/callback");
        out
    }

    pub fn broadcaster_oauth_redirect_uri(&self) -> (r: String)
        ensures
            r@ == self.base_url@ + "/connect/callback"@,
    {
        let mut out = self.base_url.clone();
        out.append("/connect/callback");
        out
    }
}

/// An origin has no path to drop: deriving the origin of an origin changes
/// nothing.
pub proof fn law_origin_is_stable(url: Seq<char>)
    ensures
        origin_of(origin_of(url)) == origin_of(url),
{
    reveal_strlit("://");
    reveal_strlit("/");
    let origin = origin_of(url);
    law_first_occurrence(url, "://"@, 0);
    if let Some(scheme_end) = first_occurrence(url, "://"@, 0) {
        law_first_occurrence(url, "/"@, scheme_end + 3);
        if let Some(path) = first_occurrence(url, "/"@, scheme_end + 3) {
            law_first_occurrence(origin, "://"@, 0);
            assert(origin.subrange(scheme_end, scheme_end + 3) =~= url.subrange(
                scheme_end,
                scheme_end + 3,
            ));
            assert(occurs_at(origin, "://"@, scheme_end));
            let found = first_occurrence(origin, "://"@, 0)->0;
            assert(origin.subrange(found, found + 3) =~= url.subrange(found, found + 3));
            assert(occurs_at(url, "://"@, found));
            assert(found == scheme_end);
            law_first_occurrence(origin, "/"@, found + 3);
            if let Some(slash) = first_occurrence(origin, "/"@, found + 3) {
                assert(origin.subrange(slash, slash + 1) =~= url.subrange(slash, slash + 1));
                assert(occurs_at(url, "/"@, slash));
            }
        }
    }
}

/// What follows the first slash behind the host plays no part in the origin.
pub proof fn law_origin_ignores_the_path(host: Seq<char>, path: Seq<char>)
    requires
        origin_of(host) == host,
        first_occurrence(host, "://"@, 0) is Some,
    ensures
        origin_of(host + "/"@ + path) == host,
{
    reveal_strlit("://");
    reveal_strlit("/");
    let url = host + "/"@ + path;
    let scheme_end = first_occurrence(host, "://"@, 0)->0;
    law_first_occurrence(host, "://"@, 0);
    law_first_occurrence(host, "/"@, scheme_end + 3);
    law_first_occurrence(url, "://"@, 0);
    assert(url.subrange(scheme_end, scheme_end + 3) =~= host.subrange(scheme_end, scheme_end + 3));
    assert(occurs_at(url, "://"@, scheme_end));
    let found = first_occurrence(url, "://"@, 0)->0;
    assert(url.subrange(found, found + 3) =~= host.subrange(found, found + 3));
    assert(occurs_at(host, "://"@, found));
    assert(found == scheme_end);
    law_first_occurrence(url, "/"@, found + 3);
    assert(url.subrange(host.len() as int, host.len() as int + 1) =~= "/"@);
    assert(occurs_at(url, "/"@, host.len() as int));
    let slash = first_occurrence(url, "/"@, found + 3)->0;
    if slash < host.len() {
        assert(url.subrange(slash, slash + 1) =~= host.subrange(slash, slash + 1));
        assert(occurs_at(host, "/"@, slash));
        assert(first_occurrence(host, "/"@, scheme_end + 3) is Some);
        let path_at = first_occurrence(host, "/"@, scheme_end + 3)->0;
        assert(host.take(path_at).len() == path_at);
    }
    assert(url.take(host.len() as int) =~= host);
}

/// An origin is what comes before the first slash behind the scheme.
pub proof fn law_what_an_origin_is(scheme: Seq<char>, host: Seq<char>, path: Seq<char>)
    requires
        forall|i: int| 0 <= i < scheme.len() ==> scheme[i] != ':',
        forall|i: int| 0 <= i < host.len() ==> host[i] != '/',
    ensures
        origin_of(scheme + "://"@ + host) == scheme + "://"@ + host,
        origin_of(scheme + "://"@ + host + "/"@ + path) == scheme + "://"@ + host,
{
    reveal_strlit("://");
    reveal_strlit("/");
    let base = scheme + "://"@ + host;
    law_first_occurrence(base, "://"@, 0);
    assert(base.subrange(scheme.len() as int, scheme.len() as int + 3) =~= "://"@);
    assert(occurs_at(base, "://"@, scheme.len() as int));
    let found = first_occurrence(base, "://"@, 0)->0;
    if found < scheme.len() {
        assert(base.subrange(found, found + 3)[0] == base[found]);
        assert(base[found] == scheme[found]);
    }
    assert(found == scheme.len());
    law_first_occurrence(base, "/"@, found + 3);
    if let Some(slash) = first_occurrence(base, "/"@, found + 3) {
        assert(base.subrange(slash, slash + 1)[0] == base[slash]);
        assert(base[slash] == host[slash - found - 3]);
    }
    law_origin_ignores_the_path(base, path);
}

/// The dashboard's origin is what is set, without white space around it and
/// slashes behind it; where nothing is set, or nothing is left of it, it is the
/// production dashboard.
pub proof fn law_dashboard_origin(set: String)
    ensures
        dashboard_origin(None) == "https://rolelogic.faizo.net"@,
        without_trailing(trimmed(set@), '/').len() > 0 ==> dashboard_origin(Some(set))
            == without_trailing(trimmed(set@), '/'),
        without_trailing(trimmed(set@), '/').len() == 0 ==> dashboard_origin(Some(set))
            == "https://rolelogic.faizo.net"@,
{
}

/// The gateway is where it is set to be, without slashes behind it, else at the
/// plugin's own origin.
pub proof fn law_gateway_url(set: String, base_url: Seq<char>)
    ensures
        gateway_url(Some(set), base_url) == without_trailing(set@, '/'),
        gateway_url(None, base_url) == origin_of(base_url),
        DEFAULT_LISTEN_ADDR@ == "0.0.0.0:8080"@,
{
}

/// Settings are complete exactly when every required variable is set.
pub proof fn law_required_variables(vars: EnvVars)
    ensures
        first_missing(vars) is None <==> vars.base_url is Some && vars.database_url is Some
            && vars.session_secret is Some && vars.twitch_client_id is Some
            && vars.twitch_client_secret is Some && vars.twitch_eventsub_secret is Some
            && vars.internal_api_key is Some,
        vars.base_url is None ==> first_missing(vars) == Some("BASE_URL must be set"@),
{
}

/// Changes by cookie are taken from the plugin's own origin and from the
/// dashboard's, and from no other; the secrets are each what its own variable
/// holds.
pub proof fn law_settings(c: AppConfig, vars: EnvVars, origin: Seq<char>)
    requires
        c.are_settings_of(vars),
    ensures
        texts(c.allowed_origins@).contains(origin) <==> origin == origin_of(c.base_url@) || (
        c.rl_dashboard_origin matches Some(d) && origin == d@),
        c.base_url@ == vars.base_url->0@,
        c.session_secret@ == vars.session_secret->0@,
        c.twitch_client_id@ == vars.twitch_client_id->0@,
        c.twitch_client_secret@ == vars.twitch_client_secret->0@,
        c.twitch_eventsub_secret@ == vars.twitch_eventsub_secret->0@,
        c.internal_api_key@ == vars.internal_api_key->0@,
        c.database_url@ == vars.database_url->0@,
        vars.listen_addr is None ==> c.listen_addr@ == "0.0.0.0:8080"@,
        vars.listen_addr matches Some(addr) ==> c.listen_addr@ == addr@,
{
    let own = origin_of(c.base_url@);
    let dashboard = c.rl_dashboard_origin->0@;
    let list = texts(c.allowed_origins@);
    assert(list[0] == own);
    if dashboard != own {
        assert(list[1] == dashboard);
    }
}

} // verus!
