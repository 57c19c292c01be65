//! The text of the verification page, in the pieces between which the base URL
//! stands. Each piece is named after the address that its beginning completes.
use vstd::prelude::*;

verus! {

pub const PAGE_TOP: &'static str = r##"<!DOCTYPE html>
<html>
<head>
    <meta charset="utf-8">
    <meta name="viewport" content="width=device-width, initial-scale=1">
    <title>Twitch Follower Role - Link Account</title>
    <link rel="icon" href=""##;

pub const AFTER_FAVICON: &'static str = r##"/favicon.ico" type="image/x-icon">
    <meta name="description" content="Link your Discord and Twitch accounts to automatically receive server roles based on your channel follow/subscription status.">
    <meta name="theme-color" content="#9146ff">
    <style>
        * { box-sizing: border-box; margin: 0; padding: 0; }
        body { font-family: system-ui, -apple-system, sans-serif; max-width: 580px; margin: 0 auto; padding: 32px 20px; background: #0e0e10; color: #c8ccd4; min-height: 100vh; }
        h1 { color: #9146ff; font-size: 24px; margin-bottom: 4px; }
        p { line-height: 1.6; margin: 6px 0; font-size: 14px; }
        a { color: #bf94ff; }
        .subtitle { color: #7a8299; font-size: 14px; margin-bottom: 20px; }
        .card { background: #18181b; padding: 22px; border-radius: 10px; margin: 14px 0; border: 1px solid #2a2a2e; }
        .btn { display: inline-flex; align-items: center; gap: 8px; padding: 10px 22px; color: #fff; text-decoration: none; border-radius: 6px; font-size: 14px; font-weight: 500; border: none; cursor: pointer; font-family: inherit; transition: background .15s; }
        .btn-discord { background: #5865f2; }
        .btn-discord:hover { background: #4752c4; }
        .btn-twitch { background: #9146ff; }
        .btn-twitch:hover { background: #772ce8; }
        .btn-danger { background: transparent; color: #f87171; border: 1px solid #7f1d1d; font-size: 13px; padding: 8px 16px; }
        .btn-danger:hover { background: #7f1d1d33; }
        .btn-secondary { background: transparent; color: #94a3b8; border: 1px solid #334155; font-size: 13px; padding: 8px 16px; }
        .btn-secondary:hover { background: #1e293b; }
        .badge { display: inline-block; padding: 3px 10px; border-radius: 20px; font-size: 12px; font-weight: 500; }
        .badge-ok { background: #052e16; color: #4ade80; border: 1px solid #14532d; }
        .msg { padding: 10px 14px; border-radius: 6px; margin: 12px 0; font-size: 13px; line-height: 1.5; }
        .msg-error { background: #1c0a0a; color: #fca5a5; border: 1px solid #7f1d1d; }
        .msg-success { background: #052e16; color: #86efac; border: 1px solid #14532d; }
        .hidden { display: none; }
        .actions { display: flex; gap: 10px; margin-top: 14px; flex-wrap: wrap; }
        .guild-ctx { display: none; align-items: center; gap: 10px; background: #052e16; border: 1px solid #14532d; color: #86efac; padding: 8px 14px; border-radius: 8px; margin: 12px 0 6px; font-size: 13px; line-height: 1.5; }
        .guild-ctx.show { display: flex; }
        .guild-ctx.warn { background: #1c1208; border-color: #422006; color: #fbbf24; }
        .guild-ctx .gctx-icon { flex-shrink: 0; }
        .guild-ctx .gctx-name { color: #fff; font-weight: 600; }
        .manage-link { font-size: 13px; color: #94a3b8; margin-top: 14px; }
        .manage-link a { color: #bf94ff; }
        .refresh-note { font-size: 13px; color: #94a3b8; margin-top: 10px; min-height: 18px; transition: color .15s; }
        .step-label { color: #fff; font-size: 16px; font-weight: 600; margin-bottom: 6px; }
        .channel-list { display: flex; flex-direction: column; gap: 8px; margin-top: 8px; }
        .channel-row { display: flex; align-items: center; justify-content: space-between; gap: 12px; background: #0e0e10; border: 1px solid #2a2a2e; border-radius: 8px; padding: 10px 12px; }
        .channel-meta { display: flex; flex-direction: column; gap: 2px; min-width: 0; }
        .channel-name { color: #fff; font-weight: 600; font-size: 14px; overflow: hidden; text-overflow: ellipsis; white-space: nowrap; }
        a.channel-open { flex-shrink: 0; background: #9146ff; color: #fff; text-decoration: none; font-size: 13px; font-weight: 600; padding: 8px 14px; border-radius: 6px; transition: background .15s; }
        a.channel-open:hover { background: #772ce8; }
    </style>
</head>
<body>
    <h1>Twitch Follower Role</h1>
    <p class="subtitle">Everything's on this page: follow on Twitch, link your Discord + Twitch accounts, and your server roles are assigned automatically.</p>

    <!-- Server context banner: only shown when ?guild=<id> is present in the URL.
         Lets a server admin share a per-guild link that both verifies the user
         AND auto-enables the role for that specific server in one shot. -->
    <div id="guild-ctx" class="guild-ctx">
        <svg class="gctx-icon" width="18" height="18" viewBox="0 0 24 24" fill="none" stroke="currentColor" stroke-width="2.2" stroke-linecap="round" stroke-linejoin="round"><polyline points="20 6 9 17 4 12"/></svg>
        <span id="guild-ctx-text"></span>
    </div>

    <!-- Step 1: follow / subscribe. Always visible (instructional — the real
         follow/sub is detected once linked), lists the channel(s) this server's
         roles check against, each linking straight to Twitch so the admin
         doesn't have to paste the link separately. -->
    <div id="follow-section" class="card">
        <div class="step-label">Step 1: Follow on Twitch</div>
        <p>Open the channel below and follow it — or subscribe, if the role you want needs a sub. We pick it up automatically once your accounts are linked.</p>
        <div class="channel-list" id="channel-list">
            <p style="color:#7a8299; font-size:13px;">Loading channel…</p>
        </div>
    </div>

    <div id="loading" class="card"><p>Loading...</p></div>
    <div id="login" class="card hidden">
        <p><strong>Step 2:</strong> Sign in with Discord to get started.</p>
        <div class="actions">
            <a href=""##;

pub const AFTER_LOGIN_LINK: &'static str = r##"/verify/login" class="btn btn-discord">Login with Discord</a>
        </div>
    </div>
    <div id="link-twitch" class="card hidden">
        <p>Logged in as <strong id="discord-name"></strong> <span class="badge badge-ok">Discord</span></p>
        <p style="margin-top:12px;"><strong>Step 3:</strong> Now link your Twitch account:</p>
        <div class="actions">
            <a href=""##;

pub const AFTER_TWITCH_LINK: &'static str = r##"/verify/twitch" class="btn btn-twitch">Link Twitch Account</a>
            <button onclick="doLogout()" class="btn btn-secondary">Logout</button>
        </div>
    </div>
    <div id="linked" class="card hidden">
        <p>Logged in as <strong id="discord-name2"></strong> <span class="badge badge-ok">Discord</span></p>
        <p>Twitch: <strong id="twitch-name"></strong> <span class="badge badge-ok">Linked</span></p>
        <p style="margin-top:8px; color:#86efac; font-size:13px;">Your accounts are linked. Roles will be assigned automatically based on your Twitch channel status.</p>
        <p id="refresh-note" class="refresh-note"></p>
        <p class="manage-link">
            Receiving Twitch roles in servers you didn't intend?
            <a href="/auth/my_servers?from=/twitch-follower-role/verify">Choose which servers receive roles →</a>
        </p>
        <div class="actions">
            <button onclick="doRefresh(false)" class="btn btn-secondary">Re-check now</button>
            <button onclick="doUnlink()" class="btn btn-danger">Unlink Twitch</button>
            <button onclick="doLogout()" class="btn btn-secondary">Logout</button>
        </div>
    </div>
    <div id="error" class="msg msg-error hidden"></div>

    <script>
    const PLUGIN_SLUG = 'twitch-follower-role';
    let isLinked = false;

    // Optional ?guild=<id> tells us the user came from a per-guild verify
    // link an admin shared in their Discord. We use it to (a) show a
    // contextual banner so the user knows which server this is for and
    // (b) automatically clear any existing opt-out (both per-plugin and
    // the guild-wide master) once they're authenticated — so a returning
    // user who'd previously disabled this server doesn't have to find
    // /auth/my_servers to re-enable it.
    const guildId = (() => {
        try {
            const v = new URLSearchParams(window.location.search).get('guild');
            return v && /^[0-9]{5,25}$/.test(v) ? v : '';
        } catch (e) { return ''; }
    })();

    // Preserve the guild context across both OAuth round-trips so an
    // unauth visitor who logs in lands back on this same per-guild URL.
    // The Discord login link bypasses our server-side `login()` shim and
    // hits the gateway directly with a per-guild `return_to`; the Twitch
    // link gets `?guild=<id>` so `twitch_login()` can stash it on the
    // oauth_state and the callback redirects back here with it intact.
    (function patchAuthLinks() {
        if (!guildId) return;
        const discordLink = document.querySelector('#login a.btn-discord');
        if (discordLink) {
            const returnTo = '/twitch-follower-role/verify?guild=' + encodeURIComponent(guildId);
            discordLink.href = '/auth/login?return_to=' + encodeURIComponent(returnTo);
        }
        const twitchLink = document.querySelector('#link-twitch a.btn-twitch');
        if (twitchLink) {
            twitchLink.href = '"##;

pub const AFTER_GUILD_LINK: &'static str = r##"/verify/twitch?guild=' + encodeURIComponent(guildId);
        }
    })();

    // Gateway-absolute API helper for /auth/* (cookie-authed via the
    // shared rl_session). Doesn't prefix with the plugin's base_url.
    async function gatewayApi(method, path, body) {
        const opts = { method, headers: {}, credentials: 'include' };
        if (body) {
            opts.headers['Content-Type'] = 'application/json';
            opts.body = JSON.stringify(body);
        }
        const res = await fetch(path, opts);
        const data = await res.json().catch(() => ({}));
        if (!res.ok) throw new Error(data.error || 'Request failed');
        return data;
    }

    function showGuildCtx(text, isWarning) {
        const el = document.getElementById('guild-ctx');
        document.getElementById('guild-ctx-text').innerHTML = text;
        el.classList.toggle('warn', !!isWarning);
        el.classList.add('show');
    }

    // Resolve guildId → display name via the gateway, then clear any
    // opt-out blocking this plugin from assigning roles in that server.
    // Idempotent: clearing rows that don't exist is a no-op on the server.
    async function applyGuildContext() {
        if (!guildId) return;
        let prefs;
        try {
            prefs = await gatewayApi('GET', '/auth/preferences?ensure_guild=' + encodeURIComponent(guildId));
        } catch (e) {
            return;
        }
        const g = (prefs.guilds || []).find(x => x.guild_id === guildId);
        if (!g) {
            // Either the user isn't in that guild, or the gateway hasn't
            // refreshed their guild list yet. Surface it gently — verify
            // still works; the role just won't apply until they're a member.
            showGuildCtx("You're not in that server yet — join it on Discord, then refresh.", true);
            return;
        }
        const safeName = (g.guild_name || '(unnamed server)')
            .replace(/[&<>"']/g, c => ({'&':'&amp;','<':'&lt;','>':'&gt;','"':'&quot;',"'":'&#39;'})[c]);
        const wasDisabled = g.master_optout || (g.plugin_optouts || []).includes(PLUGIN_SLUG);
        // Always clear both — the master toggle wins over per-plugin
        // overrides, so we need to remove it too even if only the
        // per-plugin row was set on this server.
        try {
            if (g.master_optout) {
                await gatewayApi('POST', '/auth/preferences', {
                    guild_id: guildId, plugin: null, enabled: true,
                });
            }
            if ((g.plugin_optouts || []).includes(PLUGIN_SLUG)) {
                await gatewayApi('POST', '/auth/preferences', {
                    guild_id: guildId, plugin: PLUGIN_SLUG, enabled: true,
                });
            }
        } catch (e) {
            // Even if the clear failed, still show the banner so the user
            // knows where they are. The role will simply not apply until
            // they fix it manually via /auth/my_servers.
        }
        const nameHtml = '<span class="gctx-name">' + safeName + '</span>';
        if (wasDisabled) {
            showGuildCtx(isLinked
                ? 'Enabled Twitch roles for ' + nameHtml + ' — roles apply on the next sync.'
                : 'Enabled Twitch roles for ' + nameHtml + ' — finish linking below to receive roles.');
        } else {
            showGuildCtx(isLinked
                ? 'Twitch roles are active in ' + nameHtml + '.'
                : 'Once linked, Twitch roles will apply in ' + nameHtml + '.');
        }
    }

    function escHtml(s) {
        return String(s).replace(/[&<>"']/g, c => ({'&':'&amp;','<':'&lt;','>':'&gt;','"':'&quot;',"'":'&#39;'})[c]);
    }

    // Step 1 ("follow"): list the Twitch channel(s) this server's roles check
    // against so the user can follow straight from here. Public endpoint — runs
    // before sign-in. Best-effort; falls back to generic copy on any failure.
    async function loadChannels() {
        const list = document.getElementById('channel-list');
        if (!list) return;
        try {
            const url = '"##;

pub const AFTER_CHANNELS: &'static str = r##"/verify/channels' + (guildId ? ('?guild=' + encodeURIComponent(guildId)) : '');
            const res = await fetch(url, { cache: 'no-store' });
            const d = await res.json().catch(() => ({}));
            renderChannels((d && d.channels) || []);
        } catch (e) {
            renderChannels([]);
        }
    }

    function renderChannels(channels) {
        const list = document.getElementById('channel-list');
        if (!list) return;
        if (!channels.length) {
            list.innerHTML = '<p style="color:#94a3b8; font-size:13px;">' + (guildId
                ? "This server hasn't connected its Twitch channel yet. You can still sign in and link below — your role applies once it does."
                : "Open the Twitch channel your server uses and follow (or subscribe to) it, then continue below.") + '</p>';
            return;
        }
        list.innerHTML = channels.map(c => {
            const login = c.login || '';
            const href = 'https://www.twitch.tv/' + encodeURIComponent(login);
            return '<div class="channel-row">' +
                '<span class="channel-meta"><span class="channel-name">' + escHtml(login) + '</span></span>' +
                '<a class="channel-open" href="' + href + '" target="_blank" rel="noopener">Follow &rarr;</a>' +
            '</div>';
        }).join('');
    }

    async function init() {
        try {
            const r = await fetch('"##;

pub const AFTER_STATUS: &'static str = r##"/verify/status', {credentials:'include'});
            const d = await r.json();
            document.getElementById('loading').classList.add('hidden');
            if (!d.discord_id) {
                document.getElementById('login').classList.remove('hidden');
            } else if (!d.twitch_login) {
                document.getElementById('discord-name').textContent = d.discord_name;
                document.getElementById('link-twitch').classList.remove('hidden');
            } else {
                isLinked = true;
                document.getElementById('discord-name2').textContent = d.discord_name;
                document.getElementById('twitch-name').textContent = d.twitch_login;
                document.getElementById('linked').classList.remove('hidden');
                // Visiting the page re-checks your latest follow/sub status so
                // roles self-correct without an unlink/re-link. Best-effort.
                doRefresh(true);
            }
            // Session is valid — apply the per-guild side effects (if any).
            if (d.discord_id) applyGuildContext();
        } catch(e) {
            document.getElementById('loading').classList.add('hidden');
            document.getElementById('login').classList.remove('hidden');
        }
    }
    // Nudge the server to re-fetch this user's Twitch data ahead of schedule.
    // `silent` is used for the automatic call on page load — it shows the
    // working/result note but stays quiet on transient errors. The explicit
    // "Re-check now" button passes false so failures surface.
    let refreshing = false;
    async function doRefresh(silent) {
        const note = document.getElementById('refresh-note');
        if (!note || refreshing) return;
        refreshing = true;
        note.style.color = '#94a3b8';
        note.textContent = 'Checking your latest follow / subscription status…';
        try {
            const r = await fetch('"##;

pub const AFTER_REFRESH: &'static str = r##"/verify/refresh', {method:'POST', credentials:'include'});
            const d = await r.json().catch(() => ({}));
            if (!r.ok) throw new Error(d.error || 'Request failed');
            note.style.color = '#86efac';
            note.textContent = d.refreshed
                ? '✓ Re-checking now — your roles update within a minute.'
                : '✓ Your status is already up to date.';
        } catch (e) {
            if (silent) {
                note.textContent = '';
            } else {
                note.style.color = '#fca5a5';
                note.textContent = 'Could not refresh right now — try again shortly.';
            }
        } finally {
            refreshing = false;
        }
    }

    async function doUnlink() {
        if (!confirm('Unlink your Twitch account? You will lose all roles assigned by this plugin.')) return;
        const r = await fetch('"##;

pub const AFTER_UNLINK: &'static str = r##"/verify/unlink', {method:'POST', credentials:'include'});
        if (r.ok) location.reload();
        else { const d = await r.json(); showError(d.error); }
    }
    async function doLogout() {
        await fetch('"##;

pub const AFTER_LOGOUT: &'static str = r##"/verify/logout', {method:'POST', credentials:'include'});
        location.reload();
    }
    function showError(msg) {
        const el = document.getElementById('error');
        el.textContent = msg;
        el.classList.remove('hidden');
    }
    loadChannels();
    init();
    </script>
</body>
</html>"##;

} // verus!
