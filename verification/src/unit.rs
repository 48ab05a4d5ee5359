//! The scale a temperature is given in, and the check of its token.

use vstd::prelude::*;
use vstd::string::*;

verus! {

/// The scale in which a temperature is expressed.
#[derive(Clone, Copy, Debug, PartialEq, Eq, Structural)]
pub enum Unit {
    Celsius,
    Fahrenheit,
}

/// A unit text that is neither of the two accepted tokens.
#[derive(Clone, Debug, PartialEq, Eq)]
pub struct InvalidUnit {
    /// The text as it was given.
    pub given: String,
}

impl Unit {
    /// The token that names this scale: the ordinal sign U+00BA, then `C` or `F`.
    pub open spec fn token(self) -> Seq<char> {
        match self {
            Unit::Celsius => seq!['\u{ba}', 'C'],
            Unit::Fahrenheit => seq!['\u{ba}', 'F'],
        }
    }

    /// The scale that `text` names, if it is exactly one of the two tokens.
    pub open spec fn named_by(text: Seq<char>) -> Option<Unit> {
        if text == Unit::Celsius.token() {
            Some(Unit::Celsius)
        } else if text == Unit::Fahrenheit.token() {
            Some(Unit::Fahrenheit)
        } else {
            None
        }
    }

    /// The other of the two scales.
    pub open spec fn spec_other(self) -> Unit {
        match self {
            Unit::Celsius => Unit::Fahrenheit,
            Unit::Fahrenheit => Unit::Celsius,
        }
    }

    /// The scale into which a temperature given in this one has yet to be
    /// converted.
    #[verifier::when_used_as_spec(spec_other)]
    pub fn other(self) -> (r: Unit)
        ensures
            r == self.spec_other(),
    {
        match self {
            Unit::Celsius => Unit::Fahrenheit,
            Unit::Fahrenheit => Unit::Celsius,
        }
    }

    /// Reads a unit token. Anything but the two tokens, letter for letter,
    /// is refused, and the refusal carries the text that was given.
    pub fn parse(text: &str) -> (r: Result<Unit, InvalidUnit>)
        ensures
            match r {
                Ok(unit) => Unit::named_by(text@) == Some(unit),
                Err(e) => Unit::named_by(text@) is None && e.given@ == text@,
            },
    {
        if text.unicode_len() == 2 && text.get_char(0) == '\u{ba}' {
            let scale = text.get_char(1);
            if scale == 'C' {
                assert(text@ =~= Unit::Celsius.token());
                return Ok(Unit::Celsius);
            }
            if scale == 'F' {
                assert(text@ =~= Unit::Fahrenheit.token());
                return Ok(Unit::Fahrenheit);
            }
        }
        Err(InvalidUnit { given: String::from_str(text) })
    }
}

impl InvalidUnit {
    /// The text of the refusal, which quotes what was given.
    pub open spec fn spec_message(self) -> Seq<char> {
        "Input unit '"@ + self.given@ + "' is neither \u{ba}C nor \u{ba}F"@
    }

    /// The text of the refusal.
    pub fn message(&self) -> (text: String)
        ensures
            text@ == self.spec_message(),
    {
        let mut text = String::from_str("Input unit '");
        text.append(self.given.as_str());
        text.append("' is neither \u{ba}C nor \u{ba}F");
        text
    }
}

} // verus!
