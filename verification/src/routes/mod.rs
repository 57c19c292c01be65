//! The decisions behind the HTTP endpoints: what a request is answered, and
//! what is to be done for it.
pub mod admin;
pub mod admin_pages;
pub mod broadcaster;
pub mod oauth;
pub mod plugin;
pub mod users;
pub mod verification;
pub mod verify_page;
pub mod webhooks;
