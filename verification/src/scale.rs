//! Temperature scales and the scale-token parser.
//!
//! A scale token is matched case-insensitively (ASCII folding only)
//! against the full name or the single-letter abbreviation of each
//! scale. The accepted spelling "farenheit" is the historical one used
//! throughout this service's routes and messages, and the only one
//! accepted; the display name keeps the same spelling.

use vstd::prelude::*;

use crate::rat::Rat;
use crate::temp::Temp;

verus! {

/// A temperature scale.
#[derive(Clone, Copy, Debug, PartialEq, Eq, Structural)]
pub enum Scale {
    Kelvin,
    Celsius,
    Fahrenheit,
}

/// Error for a token that names no scale; carries the original token.
#[derive(Debug, PartialEq, Eq)]
pub struct InvalidScale {
    pub token: String,
}

impl InvalidScale {
    /// The parser's diagnostic message.
    pub fn message(&self) -> (r: &'static str)
        ensures
            r@ == invalid_scale_message(),
    {
        "could not understand scale, needs to be exactly one of celsius/farenheit/kelvin"
    }
}

/// The message that `InvalidScale::message` returns.
pub open spec fn invalid_scale_message() -> Seq<char> {
    "could not understand scale, needs to be exactly one of celsius/farenheit/kelvin"@
}

/// ASCII lower-casing of one character.
pub open spec fn lower_char(c: char) -> char {
    if 'A' <= c && c <= 'Z' {
        ((c as int) + 32) as char
    } else {
        c
    }
}

/// ASCII lower-casing of a character sequence.
pub open spec fn lower(s: Seq<char>) -> Seq<char> {
    s.map_values(|c: char| lower_char(c))
}

/// The scale a token denotes, if any: the full name or the one-letter
/// abbreviation, compared after ASCII case folding.
pub open spec fn scale_of_token(s: Seq<char>) -> Option<Scale> {
    if lower(s) == "celsius"@ || lower(s) == "c"@ {
        Some(Scale::Celsius)
    } else if lower(s) == "farenheit"@ || lower(s) == "f"@ {
        Some(Scale::Fahrenheit)
    } else if lower(s) == "kelvin"@ || lower(s) == "k"@ {
        Some(Scale::Kelvin)
    } else {
        None
    }
}

/// The physical minimum of each scale, expressed in that scale:
/// 0 Kelvin, -273.15 Celsius (-5463/20), -459.66 Fahrenheit
/// (-22983/50; this service inherits the slightly rounded constant).
pub open spec fn spec_minimum(s: Scale) -> Rat {
    match s {
        Scale::Kelvin => Rat::int_val(0),
        Scale::Celsius => Rat::frac(-5463, 20),
        Scale::Fahrenheit => Rat::frac(-22983, 50),
    }
}

/// The display name of a scale, as it appears in messages.
pub open spec fn spec_name(s: Scale) -> Seq<char> {
    match s {
        Scale::Kelvin => "Kelvin"@,
        Scale::Celsius => "Celsius"@,
        Scale::Fahrenheit => "Farenheit"@,
    }
}

fn lower_char_exec(c: char) -> (r: char)
    ensures
        r == lower_char(c),
{
    let x = c as u32;
    if 65 <= x && x <= 90 {
        ((x + 32) as u8) as char
    } else {
        c
    }
}

/// Whether ASCII-lower-casing `token` yields exactly `pattern`.
fn eq_lower(token: &str, pattern: &str) -> (r: bool)
    ensures
        r == (lower(token@) == pattern@),
{
    let n = token.unicode_len();
    let m = pattern.unicode_len();
    if n != m {
        return false;
    }
    let mut i: usize = 0;
    while i < n
        invariant
            n == token@.len(),
            n == pattern@.len(),
            i <= n,
            forall|j: int| 0 <= j < i ==> lower(token@)[j] == pattern@[j],
        decreases n - i,
    {
        let c = lower_char_exec(token.get_char(i));
        if c != pattern.get_char(i) {
            return false;
        }
        i += 1;
    }
    proof {
        assert(lower(token@) =~= pattern@);
    }
    true
}

impl Scale {
    /// Parses a scale token: returns the scale it denotes, or an
    /// `InvalidScale` carrying the original token when it denotes none.
    pub fn from_param(param: &str) -> (r: Result<Scale, InvalidScale>)
        ensures
            match r {
                Ok(s) => scale_of_token(param@) == Some(s),
                Err(e) => scale_of_token(param@) is None && e.token@ == param@,
            },
    {
        if eq_lower(param, "celsius") || eq_lower(param, "c") {
            Ok(Scale::Celsius)
        } else if eq_lower(param, "farenheit") || eq_lower(param, "f") {
            Ok(Scale::Fahrenheit)
        } else if eq_lower(param, "kelvin") || eq_lower(param, "k") {
            Ok(Scale::Kelvin)
        } else {
            Err(InvalidScale { token: param.to_owned() })
        }
    }

    /// The physical minimum of this scale, in this scale.
    pub fn minimum(&self) -> (r: Temp)
        ensures
            r@ == spec_minimum(*self),
            r.wf(),
            r.in_range(),
    {
        match *self {
            Scale::Kelvin => Temp::new(0, 1),
            Scale::Celsius => Temp::new(-5463, 20),
            Scale::Fahrenheit => Temp::new(-22983, 50),
        }
    }

    /// Whether `value` lies strictly below this scale's physical
    /// minimum. A value exactly at the minimum is allowed through.
    pub fn below_minimum(&self, value: &Temp) -> (r: bool)
        requires
            value.wf(),
        ensures
            r == value@.lt(spec_minimum(*self)),
    {
        let min = self.minimum();
        value.lt_value(&min)
    }

    /// The display name used in messages.
    pub fn name(&self) -> (r: &'static str)
        ensures
            r@ == spec_name(*self),
    {
        match *self {
            Scale::Kelvin => "Kelvin",
            Scale::Celsius => "Celsius",
            Scale::Fahrenheit => "Farenheit",
        }
    }
}

} // verus!
