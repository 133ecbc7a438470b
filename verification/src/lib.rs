//! Shared building blocks for the companion web apps: origin checks, auth
//! cookies, session ids, PIN-attempt lockout, request-rate limiting,
//! translated UI strings, UI decision helpers and the maintenance checks
//! run over the companion app trees.

pub mod auth;
pub mod clock;
pub mod components;
pub mod cookie_auth;
pub mod hex;
pub mod i18n;
pub mod locale;
pub mod origin_check;
pub mod rate_limit;
pub mod server;
pub mod session_id;
pub mod table;
pub mod text;
pub mod utils;
pub mod xtask;
