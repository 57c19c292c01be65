//! The rules of the plugin: evaluation, translation to SQL, validation, sync.
pub mod condition_eval;
pub mod rule_sql;
pub mod rule_validator;
pub mod sync;
pub mod twitch;
