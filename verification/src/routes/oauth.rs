//! Sending a browser to Twitch and knowing it again when it comes back.
use vstd::prelude::*;
use vstd::utf8::encode_utf8;

use crate::json::JsonModel;
use crate::outside::{percent_encode, percent_encoded, random_below};
use crate::time::Timestamp;

verus! {

/// The length of a state token.
pub const STATE_TOKEN_LENGTH: usize = 32;

/// The characters of a state token: digits and lower-case letters.
pub const STATE_TOKEN_CHARS: u8 = 36;

/// How long a browser may take to come back: ten minutes.
pub const STATE_LIFETIME_SECS: i64 = 600;

/// The character of a number below 36.
pub open spec fn token_char(i: u8) -> char {
    if i < 10 {
        (('0' as u8 + i) as u8) as char
    } else {
        (('a' as u8 + i - 10) as u8) as char
    }
}

/// A digit or a lower-case letter.
pub open spec fn is_token_char(c: char) -> bool {
    ('0' <= c && c <= '9') || ('a' <= c && c <= 'z')
}

/// The token that the numbers spell.
pub fn token_of(indices: &Vec<u8>) -> (r: String)
    requires
        forall|i: int| 0 <= i < indices@.len() ==> (#[trigger] indices@[i]) < STATE_TOKEN_CHARS,
    ensures
        r@ == indices@.map_values(|i: u8| token_char(i)),
        forall|i: int| 0 <= i < r@.len() ==> is_token_char(#[trigger] r@[i]),
{
    let ghost all = indices@.map_values(|i: u8| token_char(i));
    let mut out = String::new();
    let mut k: usize = 0;
    assert(out@ =~= all.take(0));
    while k < indices.len()
        invariant
            k <= indices@.len(),
            all == indices@.map_values(|i: u8| token_char(i)),
            out@ == all.take(k as int),
            forall|i: int| 0 <= i < indices@.len() ==> (#[trigger] indices@[i]) < STATE_TOKEN_CHARS,
            forall|i: int| 0 <= i < out@.len() ==> is_token_char(#[trigger] out@[i]),
        decreases indices@.len() - k,
    {
        let idx = indices[k];
        assert(indices@[k as int] < STATE_TOKEN_CHARS);
        let c: char = if idx < 10 {
            ('0' as u8 + idx) as char
        } else {
            ('a' as u8 + idx - 10) as char
        };
        assert(c == token_char(idx));
        out.push(c);
        assert(all.take(k as int).push(all[k as int]) =~= all.take(k + 1));
        k = k + 1;
    }
    assert(all.take(k as int) =~= all);
    out
}

/// 32-char lowercase alphanumeric OAuth `state` token.
pub fn new_state_token() -> (r: String)
    ensures
        r@.len() == STATE_TOKEN_LENGTH,
        forall|i: int| 0 <= i < r@.len() ==> is_token_char(#[trigger] r@[i]),
{
    let mut indices: Vec<u8> = Vec::new();
    while indices.len() < STATE_TOKEN_LENGTH
        invariant
            indices@.len() <= STATE_TOKEN_LENGTH,
            forall|i: int| 0 <= i < indices@.len() ==> (#[trigger] indices@[i]) < STATE_TOKEN_CHARS,
        decreases STATE_TOKEN_LENGTH - indices@.len(),
    {
        indices.push(random_below(STATE_TOKEN_CHARS));
    }
    token_of(&indices)
}

/// The address at Twitch that asks a user for their consent. The scope is
/// taken as it stands.
pub open spec fn authorize_address(
    client_id: Seq<char>,
    redirect_uri: Seq<char>,
    scope: Seq<char>,
    state: Seq<char>,
) -> Seq<char> {
    "https://id.twitch.tv/oauth2/authorize?client_id="@ + client_id + "&redirect_uri="@
        + percent_encoded(encode_utf8(redirect_uri)) + "&response_type=code&scope="@ + scope
        + "&state="@ + state + "&force_verify=true"@
}

/// The address at Twitch that asks a user for their consent.
pub fn authorize_url(client_id: &str, redirect_uri: &str, scope: &str, state: &str) -> (r: String)
    ensures
        r@ == authorize_address(client_id@, redirect_uri@, scope@, state@),
{
    let mut url = "https://id.twitch.tv/oauth2/authorize?client_id=".to_owned();
    url.append(client_id);
    url.append("&redirect_uri=");
    url.append(percent_encode(redirect_uri).as_str());
    url.append("&response_type=code&scope=");
    url.append(scope);
    url.append("&state=");
    url.append(state);
    url.append("&force_verify=true");
    url
}

/// Different numbers below 36 spell different characters.
pub proof fn law_token_chars_are_distinct(a: u8, b: u8)
    requires
        a < STATE_TOKEN_CHARS,
        b < STATE_TOKEN_CHARS,
        a != b,
    ensures
        token_char(a) != token_char(b),
{
}

// ---------------------------------------------------------------------
// The states that browsers were sent away with
// ---------------------------------------------------------------------

/// What is stored under a state, and until when (in nanoseconds since the Unix
/// epoch).
pub struct IssuedState {
    pub data: JsonModel,
    pub expires: int,
}

/// A state is stored when a browser is sent away. One that is stored already is
/// not stored again.
pub open spec fn issued(
    states: Map<Seq<char>, IssuedState>,
    token: Seq<char>,
    data: JsonModel,
    now: Timestamp,
) -> Map<Seq<char>, IssuedState> {
    if states.dom().contains(token) {
        states
    } else {
        states.insert(
            token,
            IssuedState { data, expires: now.total_nanos() + STATE_LIFETIME_SECS * 1_000_000_000 },
        )
    }
}

/// The state is stored and has not expired.
pub open spec fn usable(
    states: Map<Seq<char>, IssuedState>,
    token: Seq<char>,
    now: Timestamp,
) -> bool {
    states.dom().contains(token) && states[token].expires > now.total_nanos()
}

/// When a browser comes back its state is taken: removed, and what was stored
/// under it handed out. A state that is not usable gives nothing.
pub open spec fn taken(
    states: Map<Seq<char>, IssuedState>,
    token: Seq<char>,
    now: Timestamp,
) -> (Map<Seq<char>, IssuedState>, Option<JsonModel>) {
    if usable(states, token, now) {
        (states.remove(token), Some(states[token].data))
    } else {
        (states, None)
    }
}

/// Something that befalls the stored states.
pub enum StateStep {
    Issue { token: Seq<char>, data: JsonModel, now: Timestamp },
    Take { token: Seq<char>, now: Timestamp },
    /// Some expired states are removed.
    Sweep { tokens: Set<Seq<char>> },
}

/// The stored states after a step.
pub open spec fn after_step(states: Map<Seq<char>, IssuedState>, step: StateStep) -> Map<
    Seq<char>,
    IssuedState,
> {
    match step {
        StateStep::Issue { token, data, now } => issued(states, token, data, now),
        StateStep::Take { token, now } => taken(states, token, now).0,
        StateStep::Sweep { tokens } => states.remove_keys(tokens),
    }
}

/// The stored states after these steps.
pub open spec fn after_steps(states: Map<Seq<char>, IssuedState>, steps: Seq<StateStep>) -> Map<
    Seq<char>,
    IssuedState,
>
    decreases steps.len(),
{
    if steps.len() == 0 {
        states
    } else {
        after_step(after_steps(states, steps.drop_last()), steps.last())
    }
}

/// None of the steps issues the state.
pub open spec fn never_issued(token: Seq<char>, steps: Seq<StateStep>) -> bool {
    forall|i: int|
        0 <= i < steps.len() ==> !((#[trigger] steps[i]) matches StateStep::Issue { token: t, .. }
            && t == token)
}

/// A state that is not stored and not issued again gives nothing, ever.
pub proof fn law_unknown_states_give_nothing(
    states: Map<Seq<char>, IssuedState>,
    token: Seq<char>,
    steps: Seq<StateStep>,
    now: Timestamp,
)
    requires
        !states.dom().contains(token),
        never_issued(token, steps),
    ensures
        !after_steps(states, steps).dom().contains(token),
        taken(after_steps(states, steps), token, now).1 is None,
    decreases steps.len(),
{
    if steps.len() > 0 {
        let before = steps.drop_last();
        assert forall|i: int| 0 <= i < before.len() implies !((
        #[trigger] before[i]) matches StateStep::Issue { token: t, .. } && t == token) by {
            assert(before[i] == steps[i]);
        }
        law_unknown_states_give_nothing(states, token, before, now);
        assert(steps[steps.len() - 1] == steps.last());
    }
}

/// A state works once: whatever befalls the stored states after it was taken,
/// taking it again gives nothing.
pub proof fn law_states_work_once(
    states: Map<Seq<char>, IssuedState>,
    token: Seq<char>,
    first: Timestamp,
    steps: Seq<StateStep>,
    second: Timestamp,
)
    requires
        taken(states, token, first).1 is Some,
        never_issued(token, steps),
    ensures
        taken(after_steps(taken(states, token, first).0, steps), token, second).1 is None,
{
    law_unknown_states_give_nothing(taken(states, token, first).0, token, steps, second);
}

/// A state that has expired gives nothing.
pub proof fn law_expired_states_give_nothing(
    states: Map<Seq<char>, IssuedState>,
    token: Seq<char>,
    data: JsonModel,
    issue: Timestamp,
    now: Timestamp,
)
    requires
        !states.dom().contains(token),
        now.total_nanos() >= issue.total_nanos() + STATE_LIFETIME_SECS * 1_000_000_000,
    ensures
        taken(issued(states, token, data, issue), token, now).1 is None,
{
}

/// A browser that comes back in time finds what was stored when it left.
pub proof fn law_states_give_what_was_stored(
    states: Map<Seq<char>, IssuedState>,
    token: Seq<char>,
    data: JsonModel,
    issue: Timestamp,
    now: Timestamp,
)
    requires
        !states.dom().contains(token),
        now.total_nanos() < issue.total_nanos() + STATE_LIFETIME_SECS * 1_000_000_000,
    ensures
        taken(issued(states, token, data, issue), token, now).1 == Some(data),
{
}

/// The address asks Twitch for a code, for this application, back at the redirect
/// address, with these scopes and under this state, each in its own field.
pub proof fn law_fields_of_the_address(
    client_id: Seq<char>,
    redirect_uri: Seq<char>,
    scope: Seq<char>,
    state: Seq<char>,
)
    ensures
        authorize_address(client_id, redirect_uri, scope, state)
            == "https://id.twitch.tv/oauth2/authorize"@ + "?client_id="@ + client_id
            + "&redirect_uri="@ + percent_encoded(encode_utf8(redirect_uri))
            + "&response_type=code"@ + "&scope="@ + scope + "&state="@ + state
            + "&force_verify=true"@,
{
    reveal_strlit("https://id.twitch.tv/oauth2/authorize");
    reveal_strlit("?client_id=");
    reveal_strlit("https://id.twitch.tv/oauth2/authorize?client_id=");
    reveal_strlit("&response_type=code");
    reveal_strlit("&scope=");
    reveal_strlit("&response_type=code&scope=");
    assert("https://id.twitch.tv/oauth2/authorize?client_id="@
        =~= "https://id.twitch.tv/oauth2/authorize"@ + "?client_id="@);
    assert("&response_type=code&scope="@ =~= "&response_type=code"@ + "&scope="@);
    let front = "https://id.twitch.tv/oauth2/authorize"@ + "?client_id="@ + client_id
        + "&redirect_uri="@ + percent_encoded(encode_utf8(redirect_uri));
    assert(front + ("&response_type=code"@ + "&scope="@) =~= front + "&response_type=code"@
        + "&scope="@);
}

/// The numbers below ten spell the digits, the others the letters from a on.
pub proof fn law_token_alphabet(i: u8)
    requires
        i < 36,
    ensures
        i < 10 ==> token_char(i) as u32 == '0' as u32 + i,
        i >= 10 ==> token_char(i) as u32 == 'a' as u32 + (i - 10),
        is_token_char(token_char(i)),
{
}

/// A state may be used for ten minutes, to the nanosecond.
pub proof fn law_states_last_ten_minutes(
    states: Map<Seq<char>, IssuedState>,
    token: Seq<char>,
    data: JsonModel,
    issue: Timestamp,
    now: Timestamp,
)
    requires
        !states.dom().contains(token),
    ensures
        usable(issued(states, token, data, issue), token, now) <==> (now.secs - issue.secs)
            * 1_000_000_000 + (now.nanos - issue.nanos) < 600 * 1_000_000_000,
{
}

/// A state token has 32 characters.
pub proof fn law_token_length()
    ensures
        STATE_TOKEN_LENGTH == 32,
        STATE_TOKEN_CHARS == 36,
{
}

} // verus!
