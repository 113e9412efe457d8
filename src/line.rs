//! The six original MetroRail line codes.
use crate::error::StringIsNotLineCodeError;
use crate::text::string_of;
use vstd::prelude::*;

verus! {

/// The six original MetroRail line codes.
#[derive(Clone, Copy, Debug, PartialEq, Eq, Structural)]
pub enum LineCode {
    Red,
    Blue,
    Yellow,
    Orange,
    Green,
    Silver,
}

impl LineCode {
    /// The two characters of this code.
    pub open spec fn parts(self) -> (char, char) {
        match self {
            LineCode::Red => ('R', 'D'),
            LineCode::Blue => ('B', 'L'),
            LineCode::Yellow => ('Y', 'L'),
            LineCode::Orange => ('O', 'R'),
            LineCode::Green => ('G', 'R'),
            LineCode::Silver => ('S', 'V'),
        }
    }

    /// The code as characters.
    pub open spec fn code(self) -> Seq<char> {
        seq![self.parts().0, self.parts().1]
    }

    /// The line code written `s`, if any.
    pub open spec fn decode(s: Seq<char>) -> Option<LineCode> {
        if s.len() == 2 {
            match (s[0], s[1]) {
                ('R', 'D') => Some(LineCode::Red),
                ('B', 'L') => Some(LineCode::Blue),
                ('Y', 'L') => Some(LineCode::Yellow),
                ('O', 'R') => Some(LineCode::Orange),
                ('G', 'R') => Some(LineCode::Green),
                ('S', 'V') => Some(LineCode::Silver),
                _ => None,
            }
        } else {
            None
        }
    }

    /// The code, as the API writes it.
    pub fn to_string(&self) -> (r: String)
        ensures
            r@ == self.code(),
    {
        match self {
            LineCode::Red => string_of(vec!['R', 'D']),
            LineCode::Blue => string_of(vec!['B', 'L']),
            LineCode::Yellow => string_of(vec!['Y', 'L']),
            LineCode::Orange => string_of(vec!['O', 'R']),
            LineCode::Green => string_of(vec!['G', 'R']),
            LineCode::Silver => string_of(vec!['S', 'V']),
        }
    }

    /// Converts a string to a [`LineCode`].
    pub fn from_str(s: &str) -> (r: Result<LineCode, StringIsNotLineCodeError>)
        ensures
            r is Ok <==> LineCode::decode(s@) is Some,
            r is Ok ==> LineCode::decode(s@) == Some(r->Ok_0),
    {
        if s.unicode_len() != 2 {
            return Err(StringIsNotLineCodeError);
        }
        match (s.get_char(0), s.get_char(1)) {
            ('R', 'D') => Ok(LineCode::Red),
            ('B', 'L') => Ok(LineCode::Blue),
            ('Y', 'L') => Ok(LineCode::Yellow),
            ('O', 'R') => Ok(LineCode::Orange),
            ('G', 'R') => Ok(LineCode::Green),
            ('S', 'V') => Ok(LineCode::Silver),
            _ => Err(StringIsNotLineCodeError),
        }
    }
}

/// Decoding a line code's string gives the code back.
pub proof fn lemma_line_code_round_trip(code: LineCode)
    ensures
        LineCode::decode(code.code()) == Some(code),
{
}

/// A string decodes to a line code only when it is that code's string: any
/// other string is refused.
pub proof fn lemma_line_code_decode_only_codes(s: Seq<char>)
    ensures
        LineCode::decode(s) matches Some(code) ==> code.code() == s,
        (forall|code: LineCode| code.code() != s) ==> LineCode::decode(s) is None,
{
    if let Some(code) = LineCode::decode(s) {
        assert(code.code() =~= s);
    }
}

} // verus!
