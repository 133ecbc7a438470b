//! The decisions behind the shared UI components: what the footer, header,
//! login form and notifications show, given their properties. The
//! components themselves render these in the browser.

pub mod footer;
pub mod header;
pub mod login;
pub mod notifier;
