//! The conversion request decision.
//!
//! Given the two parsed scales and the value, either refuse the request
//! because the value lies below the source scale's physical minimum,
//! producing the refusal sentence, or hand back the converted value.
//! Rendering a value as text is the caller's concern: the caller passes
//! the rendering of the input value for use in messages, and formats
//! the converted value itself.

use vstd::prelude::*;
use vstd::string::StringExecFns;

use crate::convert::convert;
use crate::convert::spec_convert;
use crate::scale::Scale;
use crate::scale::spec_minimum;
use crate::scale::spec_name;
use crate::temp::Temp;

verus! {

/// What a conversion request produced: a refusal sentence for a value
/// below the source scale's minimum, or the converted value.
pub enum Outcome {
    Refused(String),
    Converted(Temp),
}

/// The refusal sentence for a value rendered as `value_text`, in scale
/// `from`.
pub open spec fn refusal_text(value_text: Seq<char>, from: Scale) -> Seq<char> {
    "Nothing can be "@ + value_text + " "@ + spec_name(from)
        + ", at least not in this universe. :-)"@
}

/// Builds the refusal sentence for a value rendered as `value_text`.
pub fn refusal_message(value_text: &str, from: Scale) -> (r: String)
    ensures
        r@ == refusal_text(value_text@, from),
{
    let mut s = String::from_str("Nothing can be ");
    s.append(value_text);
    s.append(" ");
    s.append(from.name());
    s.append(", at least not in this universe. :-)");
    proof {
        assert(s@ =~= refusal_text(value_text@, from));
    }
    s
}

/// Handles one conversion request: refuses a value strictly below the
/// source scale's minimum with the refusal sentence, and converts any
/// other value. `input_text` is the rendering of `input` that the
/// refusal sentence shows.
pub fn convert_temperature(from: Scale, to: Scale, input: Temp, input_text: &str) -> (r: Outcome)
    requires
        input.wf(),
        input.in_range(),
    ensures
        match r {
            Outcome::Refused(m) => input@.lt(spec_minimum(from)) && m@ == refusal_text(
                input_text@,
                from,
            ),
            Outcome::Converted(t) => !input@.lt(spec_minimum(from)) && t@ == spec_convert(
                from,
                to,
                input@,
            ) && t.wf(),
        },
{
    if from.below_minimum(&input) {
        Outcome::Refused(refusal_message(input_text, from))
    } else {
        Outcome::Converted(convert(from, to, input))
    }
}

} // verus!
