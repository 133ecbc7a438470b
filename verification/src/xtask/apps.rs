//! Which sibling directories of the shared-assets checkout are companion
//! apps.

use vstd::prelude::*;
use crate::text::{chars_eq_str, chars_of};

verus! {

/// Directory names next to the shared-assets checkout that are not apps.
pub open spec fn is_excluded_dir_spec(name: Seq<char>) -> bool {
    name == "shared-assets"@ || name == "studio2201.github.io"@ || name == ".github"@
}

/// Whether the sibling directory `name` is not a companion app (the
/// shared-assets checkout itself, the org site, `.github`).
pub fn is_excluded_app_dir(name: &str) -> (r: bool)
    ensures
        r == is_excluded_dir_spec(name@),
{
    let c = chars_of(name);
    chars_eq_str(&c, "shared-assets") || chars_eq_str(&c, "studio2201.github.io") || chars_eq_str(
        &c,
        ".github",
    )
}

/// The styles directory is copied entry by entry, except `.git`.
pub fn copies_style_entry(name: &str) -> (r: bool)
    ensures
        r == (name@ != ".git"@),
{
    let c = chars_of(name);
    !chars_eq_str(&c, ".git")
}

/// An app receives the shared styles when it has a shared-assets folder, a
/// frontend or a server-rendered dashboard.
pub fn receives_styles(has_shared_assets: bool, has_frontend: bool, has_dashboard: bool) -> (r:
    bool)
    ensures
        r == (has_shared_assets || has_frontend || has_dashboard),
{
    has_shared_assets || has_frontend || has_dashboard
}

} // verus!
