//! Codes for each MetroRail line.
use crate::error::StringIsNotLineError;
use crate::json::{FromJson, Json};
use crate::text::string_of;
use vstd::prelude::*;

verus! {

/// All MetroRail lines.
#[derive(Clone, Copy, Debug, PartialEq, Eq, Structural)]
pub enum Line {
    Red,
    Blue,
    Yellow,
    YellowLineRushPlus,
    Orange,
    Green,
    Silver,
}

impl Line {
    /// The code of this line.
    pub open spec fn code(self) -> Seq<char> {
        match self {
            Line::Red => seq!['R', 'D'],
            Line::Blue => seq!['B', 'L'],
            Line::Yellow => seq!['Y', 'L'],
            Line::Orange => seq!['O', 'R'],
            Line::Green => seq!['G', 'R'],
            Line::Silver => seq!['S', 'V'],
            Line::YellowLineRushPlus => seq!['Y', 'L', 'R', 'P'],
        }
    }

    /// The line whose code is `s`, if any.
    pub open spec fn decode(s: Seq<char>) -> Option<Line> {
        if s.len() == 2 {
            match (s[0], s[1]) {
                ('R', 'D') => Some(Line::Red),
                ('B', 'L') => Some(Line::Blue),
                ('Y', 'L') => Some(Line::Yellow),
                ('O', 'R') => Some(Line::Orange),
                ('G', 'R') => Some(Line::Green),
                ('S', 'V') => Some(Line::Silver),
                _ => None,
            }
        } else if s.len() == 4 && s[0] == 'Y' && s[1] == 'L' && s[2] == 'R' && s[3] == 'P' {
            Some(Line::YellowLineRushPlus)
        } else {
            None
        }
    }

    /// The hex color of this line.
    pub open spec fn spec_color(self) -> Seq<char> {
        match self {
            Line::Red => "#4CAA61"@,
            Line::Blue => "#357ABB"@,
            Line::Yellow => "#F0CD4E"@,
            Line::Orange => "#4CAA61"@,
            Line::Green => "#4CAA61"@,
            Line::Silver => "#A4A6A3"@,
            Line::YellowLineRushPlus => "#F0CD4E"@,
        }
    }

    /// Provides the hex code color for this line.
    pub fn color(self) -> (r: String)
        ensures
            r@ == self.spec_color(),
    {
        match self {
            Line::Red => String::from_str("#4CAA61"),
            Line::Blue => String::from_str("#357ABB"),
            Line::Yellow => String::from_str("#F0CD4E"),
            Line::Orange => String::from_str("#4CAA61"),
            Line::Green => String::from_str("#4CAA61"),
            Line::Silver => String::from_str("#A4A6A3"),
            Line::YellowLineRushPlus => String::from_str("#F0CD4E"),
        }
    }

    /// The code of this line, as the API writes it.
    pub fn to_string(&self) -> (r: String)
        ensures
            r@ == self.code(),
    {
        match self {
            Line::Red => string_of(vec!['R', 'D']),
            Line::Blue => string_of(vec!['B', 'L']),
            Line::Yellow => string_of(vec!['Y', 'L']),
            Line::Orange => string_of(vec!['O', 'R']),
            Line::Green => string_of(vec!['G', 'R']),
            Line::Silver => string_of(vec!['S', 'V']),
            Line::YellowLineRushPlus => string_of(vec!['Y', 'L', 'R', 'P']),
        }
    }

    /// Converts a code to a [`Line`].
    pub fn from_str(s: &str) -> (r: Result<Line, StringIsNotLineError>)
        ensures
            r is Ok <==> Line::decode(s@) is Some,
            r is Ok ==> Line::decode(s@) == Some(r->Ok_0),
    {
        let n = s.unicode_len();
        if n == 2 {
            let a = s.get_char(0);
            let b = s.get_char(1);
            match (a, b) {
                ('R', 'D') => Ok(Line::Red),
                ('B', 'L') => Ok(Line::Blue),
                ('Y', 'L') => Ok(Line::Yellow),
                ('O', 'R') => Ok(Line::Orange),
                ('G', 'R') => Ok(Line::Green),
                ('S', 'V') => Ok(Line::Silver),
                _ => Err(StringIsNotLineError),
            }
        } else if n == 4 && s.get_char(0) == 'Y' && s.get_char(1) == 'L' && s.get_char(2) == 'R'
            && s.get_char(3) == 'P' {
            Ok(Line::YellowLineRushPlus)
        } else {
            Err(StringIsNotLineError)
        }
    }
}

/// Decoding the code of a line gives the line back.
pub proof fn lemma_line_round_trip(line: Line)
    ensures
        Line::decode(line.code()) == Some(line),
{
}

/// A string decodes to a line only when it is that line's code: any other
/// string is refused.
pub proof fn lemma_line_decode_only_codes(s: Seq<char>)
    ensures
        Line::decode(s) matches Some(line) ==> line.code() == s,
        (forall|line: Line| line.code() != s) ==> Line::decode(s) is None,
{
    if let Some(line) = Line::decode(s) {
        assert(line.code() =~= s);
    }
}

impl FromJson for Line {
    open spec fn accepts(j: Json) -> bool {
        j is Str && Line::decode(j->Str_0@) is Some
    }

    open spec fn read_from(self, j: Json) -> bool {
        j is Str && Line::decode(j->Str_0@) == Some(self)
    }

    fn from_json(j: &Json) -> (r: Result<Line, String>) {
        match j {
            Json::Str(s) => match Line::from_str(s.as_str()) {
                Ok(line) => Ok(line),
                Err(_) => Err(String::from_str("String provided is not a Line code.")),
            },
            _ => Err(String::from_str("invalid type: expected a Line code")),
        }
    }
}

} // verus!
