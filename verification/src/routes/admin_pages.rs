//! The texts of the small pages that stand in for the rule builder, in the
//! pieces between which the base URL and a message stand.
use vstd::prelude::*;

verus! {

pub const ERROR_TOP: &'static str = r##"<!DOCTYPE html><html><head><meta charset="utf-8">
<meta name="viewport" content="width=device-width, initial-scale=1">
<title>Cannot load configuration</title>
<link rel="icon" href=""##;

pub const ERROR_STYLE: &'static str = r##"/favicon.ico">
<style>body{font-family:system-ui,sans-serif;background:#0e0e10;color:#e8eaed;padding:32px 24px;line-height:1.5}
h1{color:#fca5a5;font-size:18px;margin-bottom:10px}p{color:#9aa3b2}</style>
</head><body><h1>Cannot load configuration</h1><p>"##;

pub const ERROR_END: &'static str = r##"</p>
<p style="margin-top:14px;color:#7a8497">If you opened this from the RoleLogic dashboard, close and reopen the role's plugin tab.</p>
</body></html>"##;

pub const NO_TOKEN_TOP: &'static str = r##"<!DOCTYPE html><html><head><meta charset="utf-8">
<meta name="viewport" content="width=device-width, initial-scale=1">
<title>Configuration unavailable</title>
<link rel="icon" href=""##;

pub const NO_TOKEN_TEXT: &'static str = r##"/favicon.ico">
<style>body{font-family:system-ui,sans-serif;background:#0e0e10;color:#e8eaed;padding:32px 24px;line-height:1.55;max-width:560px}
h1{color:#fbbf24;font-size:18px;margin:0 0 10px}p{color:#9aa3b2;margin:8px 0}
code{background:#0b0d12;padding:2px 6px;border-radius:4px;font-size:12px}</style>
</head><body>
<h1>RoleLogic didn't pass an authentication token</h1>
<p>This plugin page must be opened from inside the RoleLogic dashboard, which
attaches a one-time token. None arrived with this request.</p>
<p><strong>If you're the server admin:</strong> close this tab and reopen the
role's plugin tab from RoleLogic. If it keeps happening, the plugin is
mis-registered — its <code>BASE_URL</code> must exactly match the URL
configured for this plugin in RoleLogic: HTTPS, no trailing slash, and
including the <code>/twitch-follower-role</code> path prefix.</p>
<p style="color:#7a8497;font-size:12px;margin-top:16px">Configured BASE_URL:
<code>"##;

pub const NO_TOKEN_END: &'static str = r##"</code></p>
</body></html>"##;

pub const SIGNIN_TOP: &'static str = r##"<!DOCTYPE html><html><head><meta charset="utf-8">
<meta name="viewport" content="width=device-width, initial-scale=1">
<title>Sign in — Twitch Follower Role</title>
<link rel="icon" href=""##;

pub const SIGNIN_TEXT: &'static str = r##"/favicon.ico">
<style>body{font-family:system-ui,sans-serif;background:#0e0e10;color:#e8eaed;padding:48px 24px;max-width:520px;margin:0 auto;line-height:1.55}
h1{font-size:22px;margin:0 0 12px}p{color:#9aa3b2}
a.btn{display:inline-block;margin-top:18px;background:#5865f2;color:#fff;padding:12px 22px;border-radius:8px;text-decoration:none;font-weight:600}
.actions{display:flex;gap:10px;align-items:center;flex-wrap:wrap;margin-top:18px}
.actions a.btn{margin-top:0}
form.logout-form{margin:0}
button.logout{background:none;color:#8a93a4;border:1px solid #2a2f3a;
  padding:10px 16px;border-radius:8px;font-size:13px;font-weight:600;
  cursor:pointer;font-family:inherit}
button.logout:hover{color:#fca5a5;border-color:#5c2630}</style>
</head><body>
<h1>Sign in to continue</h1>
<p>You need <strong>Manage Server</strong> on this guild to edit its
Twitch-Follower-Role configuration.</p>
<p style="color:#7a8497;font-size:12px">"##;

pub const SIGNIN_ACTIONS: &'static str = r##"</p>
<div class="actions">
  <a class="btn" id="login">Sign in with Discord</a>
  <form class="logout-form" method="POST" action="/auth/logout">
    <button type="submit" class="logout">Sign out &amp; try another account</button>
  </form>
</div>
<script>
const ORIGIN=new URL(""##;

pub const SIGNIN_END: &'static str = r##"").origin;
const RET=encodeURIComponent(location.pathname);
document.getElementById('login').href=ORIGIN+'/auth/login?return_to='+RET;
document.querySelectorAll('form.logout-form').forEach(f=>{
  f.action=ORIGIN+'/auth/logout?return_to='+RET;
});
</script>
</body></html>"##;

} // verus!
