# Twitch Follower Role

A [RoleLogic](https://rolelogic.faizo.net) plugin that gives Discord roles to
members by their relationship to a Twitch channel: whether they follow, for how
long, whether they subscribe, and at which tier. A role's rule is an OR of
AND-groups of conditions on these facts.

The library under `src/` decides what a rule means, who gets which role, what a
request is answered, what is asked of Twitch and what its replies mean. Its
behaviour is stated in contracts and proved by Verus. The program under `app/`
does the work that the library asks for: it serves HTTP, talks to Twitch,
RoleLogic, the Auth Gateway and Postgres, checks sessions and origins, and hands
back what came of it.

- `models/` - conditions, rules, and the documents that rules are stored as
- `services/condition_eval.rs`, `services/rule_sql.rs` - the two ways to decide a
  rule, in memory and in a query, with the proof that they agree
- `services/rule_validator.rs` - which rules are accepted
- `services/sync.rs` - bringing role assignments in line with the rules
- `services/twitch.rs` - requests to Twitch, their replies, webhook signatures
- `tasks/` - the background workers
- `routes/` - the endpoints
- `schema.rs` - the plain settings form
- `config.rs`, `error.rs` - settings, and errors with their answers
- `json.rs`, `text.rs`, `time.rs` - documents, texts and instants
- `outside.rs` - the calls into other crates, each with what is relied on of it

Work that takes several steps is a state machine: each state names the work that
is to be done in it, and `next` takes what came of the work to the next state.

What depends on the clock comes twice: by the clock, and `..._at` an instant.
