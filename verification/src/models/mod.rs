//! The rule tree and the conditions it is made of.
pub mod condition;
pub mod rule;
pub mod stored;
