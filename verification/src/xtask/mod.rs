//! The maintenance checks run over the companion app trees: brand icons,
//! `index.html` icon links and the AppShell header/footer links.
//!
//! The file-system walk, reads and writes are done by the caller; these
//! modules decide, from what was read, what is wrong and what to change.

pub mod apps;
pub mod engine;
pub mod icons;
pub mod links;
