//! Login-form decisions: what a keystroke does to the PIN being typed and
//! when the PIN is handed to the parent for verification.

use vstd::prelude::*;
use crate::text::{
    all_ascii_digits, chars_of, digits_only, digits_only_spec, is_ascii_digit_spec, string_of,
};

verus! {

/// Default PIN length of the login form.
pub const DEFAULT_PIN_LENGTH: usize = 4;

/// What the login form does with the input field's new text.
pub struct PinInput {
    /// The text to put back in the field: its ASCII digits only.
    pub filtered: String,
    /// The new PIN state, when the digits fit the PIN length (otherwise
    /// the state is left as it was).
    pub state: Option<String>,
    /// Whether to hand the PIN to the parent for verification now: the
    /// digits fill the PIN length exactly.
    pub submit: bool,
}

/// Keep only the ASCII digits of `raw`.
pub fn filter_numeric_pin(raw: &str) -> (r: String)
    ensures
        r@ == digits_only_spec(raw@),
{
    let c = chars_of(raw);
    let d = digits_only(&c);
    string_of(&d)
}

/// Handle the input field's new text `raw` for a PIN of `pin_len` digits:
/// keep its digits; when they fit, they become the state; when they fill
/// the length exactly, they are submitted.
pub fn pin_input_step(raw: &str, pin_len: usize) -> (r: PinInput)
    ensures
        r.filtered@ == digits_only_spec(raw@),
        r.state is Some <==> digits_only_spec(raw@).len() <= pin_len,
        r.state matches Some(s) ==> s@ == digits_only_spec(raw@),
        r.submit == (digits_only_spec(raw@).len() == pin_len),
{
    let c = chars_of(raw);
    let d = digits_only(&c);
    let filtered = string_of(&d);
    if d.len() <= pin_len {
        let state = string_of(&d);
        PinInput { filtered, state: Some(state), submit: d.len() == pin_len }
    } else {
        PinInput { filtered, state: None, submit: false }
    }
}

/// On an explicit submit (Enter), the PIN is handed over only when its
/// text is exactly `pin_len` bytes long (one per digit).
pub fn pin_submit_ready(pin: &str, pin_len: usize) -> (r: bool)
    ensures
        r == (pin.len() == pin_len),
{
    pin.len() == pin_len
}

/// The input's placeholder: one `•` per PIN digit.
pub fn pin_placeholder(pin_len: usize) -> (r: String)
    ensures
        r@ == Seq::new(pin_len as nat, |i: int| '•'),
{
    let mut out: Vec<char> = Vec::new();
    let mut i: usize = 0;
    while i < pin_len
        invariant
            i <= pin_len,
            out@ == Seq::new(i as nat, |j: int| '•'),
        decreases pin_len - i,
    {
        out.push('•');
        assert(out@ =~= Seq::new((i + 1) as nat, |j: int| '•'));
        i = i + 1;
    }
    string_of(&out)
}

/// What the login form does when it is mounted.
pub struct LoginMount {
    /// Render the PIN form.
    pub render_form: bool,
    /// Report a skipped login (`on_login_success(false)`) to the parent.
    pub report_skipped: bool,
}

/// On mount, the form is shown only when a PIN is required; when none is,
/// nothing is rendered and the login is reported as skipped.
pub fn login_on_mount(pin_required: bool) -> (m: LoginMount)
    ensures
        m.render_form == pin_required,
        m.report_skipped == !pin_required,
{
    LoginMount { render_form: pin_required, report_skipped: !pin_required }
}

/// Filtering is idempotent: the filtered text is already all digits and
/// filters to itself, so re-filtering the field never changes the PIN.
pub proof fn law_filter_idempotent(s: Seq<char>)
    ensures
        all_ascii_digits(digits_only_spec(s)),
        digits_only_spec(digits_only_spec(s)) == digits_only_spec(s),
    decreases s.len(),
{
    lemma_digits_only_digits(s);
    lemma_digits_fixed(digits_only_spec(s));
}

proof fn lemma_digits_only_digits(s: Seq<char>)
    ensures
        all_ascii_digits(digits_only_spec(s)),
    decreases s.len(),
{
    if s.len() > 0 {
        lemma_digits_only_digits(s.drop_last());
    }
}

proof fn lemma_digits_fixed(d: Seq<char>)
    requires
        all_ascii_digits(d),
    ensures
        digits_only_spec(d) == d,
    decreases d.len(),
{
    if d.len() > 0 {
        lemma_digits_fixed(d.drop_last());
        assert(is_ascii_digit_spec(d[d.len() - 1]));
        assert(d.drop_last().push(d.last()) =~= d);
    }
}

} // verus!
