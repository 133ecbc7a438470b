//! Small browser-side decisions.

use vstd::prelude::*;
use crate::text::{chars_of, trim, trim_spec};

verus! {

/// The selected text worth copying to the clipboard: the selection as it
/// is, unless it is blank (empty or only whitespace).
pub fn copyable_selection(selected: String) -> (r: Option<String>)
    ensures
        r is Some <==> trim_spec(selected@).len() > 0,
        r matches Some(s) ==> s@ == selected@,
{
    let c = chars_of(selected.as_str());
    let t = trim(&c);
    if t.len() == 0 {
        None
    } else {
        Some(selected)
    }
}

} // verus!
