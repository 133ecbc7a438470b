//! Notification decisions: the CSS classes of toasts and banners.

use vstd::prelude::*;

verus! {

/// Visual style of a toast notification.
#[derive(Clone, Copy, Debug, PartialEq, Eq, Structural)]
pub enum ToastType {
    Info,
    Success,
    Error,
    Warning,
}

impl ToastType {
    /// CSS class suffix applied as `toast.{class}`.
    pub fn as_class(&self) -> (r: &'static str)
        ensures
            r@ == match self {
                ToastType::Success => "success"@,
                ToastType::Error => "error"@,
                ToastType::Info => "info"@,
                ToastType::Warning => "warning"@,
            },
    {
        match self {
            ToastType::Success => "success",
            ToastType::Error => "error",
            ToastType::Info => "info",
            ToastType::Warning => "warning",
        }
    }
}

impl Default for ToastType {
    /// Toasts are informational unless said otherwise.
    fn default() -> (r: ToastType)
        ensures
            r == ToastType::Info,
    {
        ToastType::Info
    }
}

/// The CSS class of an inline banner of the given kind; warnings share the
/// informational style.
pub fn banner_class(kind: ToastType) -> (r: &'static str)
    ensures
        r@ == match kind {
            ToastType::Success => "banner-success"@,
            ToastType::Error => "banner-error"@,
            ToastType::Info => "banner-info"@,
            ToastType::Warning => "banner-info"@,
        },
{
    match kind {
        ToastType::Success => "banner-success",
        ToastType::Error => "banner-error",
        ToastType::Info | ToastType::Warning => "banner-info",
    }
}

} // verus!
