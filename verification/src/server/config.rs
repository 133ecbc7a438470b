//! The server configuration record and the rules on its values.
//!
//! A PIN must be ASCII digits only (the login form accepts nothing else),
//! between `PIN_MIN_LEN` and `PIN_MAX_LEN` of them after trimming
//! surrounding whitespace.

use vstd::prelude::*;
use crate::clock::{Duration, NANOS_PER_SEC};
use crate::text::{all_ascii_digits, all_digits, chars_of, string_of, trim, trim_spec};

verus! {

/// Fewest digits a PIN may have.
pub const PIN_MIN_LEN: usize = 4;

/// Most digits a PIN may have.
pub const PIN_MAX_LEN: usize = 64;

/// Why a configured PIN is refused.
#[derive(Clone, Copy, Debug, PartialEq, Eq, Structural)]
pub enum PinError {
    /// Something other than ASCII digits after trimming.
    NotNumeric,
    /// Fewer than `PIN_MIN_LEN` digits.
    TooShort,
    /// More than `PIN_MAX_LEN` digits.
    TooLong,
}

/// Shared server settings.
#[derive(Clone, Debug)]
pub struct ServerConfig {
    pub port: u16,
    pub site_title: String,
    pub base_url: String,
    pub allowed_origins: String,
    pub pin: Option<String>,
    pub enable_translation: bool,
    pub enable_themes: bool,
    pub enable_print: bool,
    pub show_version: bool,
    pub show_github: bool,
    pub trust_proxy: bool,
    pub trusted_proxies: Vec<String>,
    pub max_attempts: u32,
    pub lockout_time_minutes: u64,
    pub cookie_max_age_hours: i64,
}

/// The outcome of parsing the PIN text `raw`.
pub open spec fn parse_pin_spec(raw: Seq<char>) -> Result<Seq<char>, PinError> {
    let t = trim_spec(raw);
    if !all_ascii_digits(t) {
        Err(PinError::NotNumeric)
    } else if t.len() < PIN_MIN_LEN {
        Err(PinError::TooShort)
    } else if t.len() > PIN_MAX_LEN {
        Err(PinError::TooLong)
    } else {
        Ok(t)
    }
}

/// Parse a PIN: trim surrounding whitespace, then require ASCII digits
/// only, `PIN_MIN_LEN..=PIN_MAX_LEN` of them.
pub fn parse_numeric_pin(raw: &str) -> (r: Result<String, PinError>)
    ensures
        match r {
            Ok(pin) => parse_pin_spec(raw@) == Ok::<Seq<char>, PinError>(pin@),
            Err(e) => parse_pin_spec(raw@) == Err::<Seq<char>, PinError>(e),
        },
{
    let c = chars_of(raw);
    let t = trim(&c);
    if !all_digits(&t) {
        Err(PinError::NotNumeric)
    } else if t.len() < PIN_MIN_LEN {
        Err(PinError::TooShort)
    } else if t.len() > PIN_MAX_LEN {
        Err(PinError::TooLong)
    } else {
        Ok(string_of(&t))
    }
}

/// Whether `raw` is an acceptable PIN (see `parse_numeric_pin`).
pub fn is_valid_numeric_pin(raw: &str) -> (r: bool)
    ensures
        r == parse_pin_spec(raw@) is Ok,
{
    parse_numeric_pin(raw).is_ok()
}

impl ServerConfig {
    /// Whether PIN authentication is on: a PIN is configured.
    pub fn pin_enabled(&self) -> (r: bool)
        ensures
            r == self.pin.is_some(),
    {
        self.pin.is_some()
    }

    /// How long a locked-out IP stays locked: `lockout_time_minutes` minutes.
    pub fn lockout_duration(&self) -> (d: Duration)
        ensures
            d.nanos == self.lockout_time_minutes * 60 * NANOS_PER_SEC,
    {
        Duration { nanos: (self.lockout_time_minutes as u128) * 60 * NANOS_PER_SEC }
    }
}

/// A PIN that parses is exactly the trimmed text: ASCII digits, of an
/// allowed length.
pub proof fn law_parsed_pin_shape(raw: Seq<char>)
    ensures
        parse_pin_spec(raw) matches Ok(pin) ==> {
            &&& pin == trim_spec(raw)
            &&& all_ascii_digits(pin)
            &&& PIN_MIN_LEN <= pin.len() <= PIN_MAX_LEN
        },
{
}

} // verus!
