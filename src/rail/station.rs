//! WMATA-defined codes for each MetroRail station.
use crate::error::StringIsNotStationError;
use crate::json::{field, get_field, FromJson, Json};
use crate::rail::line::Line;
use crate::text::string_of;
use vstd::prelude::*;

verus! {

/// Every MetroRail station code as defined by WMATA.
#[derive(Clone, Copy, Debug, PartialEq, Eq, Structural)]
pub enum Station {
    A01,
    A02,
    A03,
    A04,
    A05,
    A06,
    A07,
    A08,
    A09,
    A10,
    A11,
    A12,
    A13,
    A14,
    A15,
    B01,
    B02,
    B03,
    B04,
    B05,
    B06,
    B07,
    B08,
    B09,
    B10,
    B11,
    B35,
    C01,
    C02,
    C03,
    C04,
    C05,
    C06,
    C07,
    C08,
    C09,
    C10,
    C12,
    C13,
    C14,
    C15,
    D01,
    D02,
    D03,
    D04,
    D05,
    D06,
    D07,
    D08,
    D09,
    D10,
    D11,
    D12,
    D13,
    E01,
    E02,
    E03,
    E04,
    E05,
    E06,
    E07,
    E08,
    E09,
    E10,
    F01,
    F02,
    F03,
    F04,
    F05,
    F06,
    F07,
    F08,
    F09,
    F10,
    F11,
    G01,
    G02,
    G03,
    G04,
    G05,
    J02,
    J03,
    K01,
    K02,
    K03,
    K04,
    K05,
    K06,
    K07,
    K08,
    N01,
    N02,
    N03,
    N04,
    N06,
}

impl Station {
    /// The three characters of the code of this station.
    pub open spec fn parts(self) -> (char, char, char) {
        match self {
            Station::A01 => ('A', '0', '1'),
            Station::A02 => ('A', '0', '2'),
            Station::A03 => ('A', '0', '3'),
            Station::A04 => ('A', '0', '4'),
            Station::A05 => ('A', '0', '5'),
            Station::A06 => ('A', '0', '6'),
            Station::A07 => ('A', '0', '7'),
            Station::A08 => ('A', '0', '8'),
            Station::A09 => ('A', '0', '9'),
            Station::A10 => ('A', '1', '0'),
            Station::A11 => ('A', '1', '1'),
            Station::A12 => ('A', '1', '2'),
            Station::A13 => ('A', '1', '3'),
            Station::A14 => ('A', '1', '4'),
            Station::A15 => ('A', '1', '5'),
            Station::B01 => ('B', '0', '1'),
            Station::B02 => ('B', '0', '2'),
            Station::B03 => ('B', '0', '3'),
            Station::B04 => ('B', '0', '4'),
            Station::B05 => ('B', '0', '5'),
            Station::B06 => ('B', '0', '6'),
            Station::B07 => ('B', '0', '7'),
            Station::B08 => ('B', '0', '8'),
            Station::B09 => ('B', '0', '9'),
            Station::B10 => ('B', '1', '0'),
            Station::B11 => ('B', '1', '1'),
            Station::B35 => ('B', '3', '5'),
            Station::C01 => ('C', '0', '1'),
            Station::C02 => ('C', '0', '2'),
            Station::C03 => ('C', '0', '3'),
            Station::C04 => ('C', '0', '4'),
            Station::C05 => ('C', '0', '5'),
            Station::C06 => ('C', '0', '6'),
            Station::C07 => ('C', '0', '7'),
            Station::C08 => ('C', '0', '8'),
            Station::C09 => ('C', '0', '9'),
            Station::C10 => ('C', '1', '0'),
            Station::C12 => ('C', '1', '2'),
            Station::C13 => ('C', '1', '3'),
            Station::C14 => ('C', '1', '4'),
            Station::C15 => ('C', '1', '5'),
            Station::D01 => ('D', '0', '1'),
            Station::D02 => ('D', '0', '2'),
            Station::D03 => ('D', '0', '3'),
            Station::D04 => ('D', '0', '4'),
            Station::D05 => ('D', '0', '5'),
            Station::D06 => ('D', '0', '6'),
            Station::D07 => ('D', '0', '7'),
            Station::D08 => ('D', '0', '8'),
            Station::D09 => ('D', '0', '9'),
            Station::D10 => ('D', '1', '0'),
            Station::D11 => ('D', '1', '1'),
            Station::D12 => ('D', '1', '2'),
            Station::D13 => ('D', '1', '3'),
            Station::E01 => ('E', '0', '1'),
            Station::E02 => ('E', '0', '2'),
            Station::E03 => ('E', '0', '3'),
            Station::E04 => ('E', '0', '4'),
            Station::E05 => ('E', '0', '5'),
            Station::E06 => ('E', '0', '6'),
            Station::E07 => ('E', '0', '7'),
            Station::E08 => ('E', '0', '8'),
            Station::E09 => ('E', '0', '9'),
            Station::E10 => ('E', '1', '0'),
            Station::F01 => ('F', '0', '1'),
            Station::F02 => ('F', '0', '2'),
            Station::F03 => ('F', '0', '3'),
            Station::F04 => ('F', '0', '4'),
            Station::F05 => ('F', '0', '5'),
            Station::F06 => ('F', '0', '6'),
            Station::F07 => ('F', '0', '7'),
            Station::F08 => ('F', '0', '8'),
            Station::F09 => ('F', '0', '9'),
            Station::F10 => ('F', '1', '0'),
            Station::F11 => ('F', '1', '1'),
            Station::G01 => ('G', '0', '1'),
            Station::G02 => ('G', '0', '2'),
            Station::G03 => ('G', '0', '3'),
            Station::G04 => ('G', '0', '4'),
            Station::G05 => ('G', '0', '5'),
            Station::J02 => ('J', '0', '2'),
            Station::J03 => ('J', '0', '3'),
            Station::K01 => ('K', '0', '1'),
            Station::K02 => ('K', '0', '2'),
            Station::K03 => ('K', '0', '3'),
            Station::K04 => ('K', '0', '4'),
            Station::K05 => ('K', '0', '5'),
            Station::K06 => ('K', '0', '6'),
            Station::K07 => ('K', '0', '7'),
            Station::K08 => ('K', '0', '8'),
            Station::N01 => ('N', '0', '1'),
            Station::N02 => ('N', '0', '2'),
            Station::N03 => ('N', '0', '3'),
            Station::N04 => ('N', '0', '4'),
            Station::N06 => ('N', '0', '6'),
        }
    }

    /// The code of this station.
    pub open spec fn code(self) -> Seq<char> {
        seq![self.parts().0, self.parts().1, self.parts().2]
    }

    /// The station whose code is made of the three given characters, if any.
    pub open spec fn from_parts(a: char, b: char, c: char) -> Option<Station> {
        match (a, b, c) {
            ('A', '0', '1') => Some(Station::A01),
            ('A', '0', '2') => Some(Station::A02),
            ('A', '0', '3') => Some(Station::A03),
            ('A', '0', '4') => Some(Station::A04),
            ('A', '0', '5') => Some(Station::A05),
            ('A', '0', '6') => Some(Station::A06),
            ('A', '0', '7') => Some(Station::A07),
            ('A', '0', '8') => Some(Station::A08),
            ('A', '0', '9') => Some(Station::A09),
            ('A', '1', '0') => Some(Station::A10),
            ('A', '1', '1') => Some(Station::A11),
            ('A', '1', '2') => Some(Station::A12),
            ('A', '1', '3') => Some(Station::A13),
            ('A', '1', '4') => Some(Station::A14),
            ('A', '1', '5') => Some(Station::A15),
            ('B', '0', '1') => Some(Station::B01),
            ('B', '0', '2') => Some(Station::B02),
            ('B', '0', '3') => Some(Station::B03),
            ('B', '0', '4') => Some(Station::B04),
            ('B', '0', '5') => Some(Station::B05),
            ('B', '0', '6') => Some(Station::B06),
            ('B', '0', '7') => Some(Station::B07),
            ('B', '0', '8') => Some(Station::B08),
            ('B', '0', '9') => Some(Station::B09),
            ('B', '1', '0') => Some(Station::B10),
            ('B', '1', '1') => Some(Station::B11),
            ('B', '3', '5') => Some(Station::B35),
            ('C', '0', '1') => Some(Station::C01),
            ('C', '0', '2') => Some(Station::C02),
            ('C', '0', '3') => Some(Station::C03),
            ('C', '0', '4') => Some(Station::C04),
            ('C', '0', '5') => Some(Station::C05),
            ('C', '0', '6') => Some(Station::C06),
            ('C', '0', '7') => Some(Station::C07),
            ('C', '0', '8') => Some(Station::C08),
            ('C', '0', '9') => Some(Station::C09),
            ('C', '1', '0') => Some(Station::C10),
            ('C', '1', '2') => Some(Station::C12),
            ('C', '1', '3') => Some(Station::C13),
            ('C', '1', '4') => Some(Station::C14),
            ('C', '1', '5') => Some(Station::C15),
            ('D', '0', '1') => Some(Station::D01),
            ('D', '0', '2') => Some(Station::D02),
            ('D', '0', '3') => Some(Station::D03),
            ('D', '0', '4') => Some(Station::D04),
            ('D', '0', '5') => Some(Station::D05),
            ('D', '0', '6') => Some(Station::D06),
            ('D', '0', '7') => Some(Station::D07),
            ('D', '0', '8') => Some(Station::D08),
            ('D', '0', '9') => Some(Station::D09),
            ('D', '1', '0') => Some(Station::D10),
            ('D', '1', '1') => Some(Station::D11),
            ('D', '1', '2') => Some(Station::D12),
            ('D', '1', '3') => Some(Station::D13),
            ('E', '0', '1') => Some(Station::E01),
            ('E', '0', '2') => Some(Station::E02),
            ('E', '0', '3') => Some(Station::E03),
            ('E', '0', '4') => Some(Station::E04),
            ('E', '0', '5') => Some(Station::E05),
            ('E', '0', '6') => Some(Station::E06),
            ('E', '0', '7') => Some(Station::E07),
            ('E', '0', '8') => Some(Station::E08),
            ('E', '0', '9') => Some(Station::E09),
            ('E', '1', '0') => Some(Station::E10),
            ('F', '0', '1') => Some(Station::F01),
            ('F', '0', '2') => Some(Station::F02),
            ('F', '0', '3') => Some(Station::F03),
            ('F', '0', '4') => Some(Station::F04),
            ('F', '0', '5') => Some(Station::F05),
            ('F', '0', '6') => Some(Station::F06),
            ('F', '0', '7') => Some(Station::F07),
            ('F', '0', '8') => Some(Station::F08),
            ('F', '0', '9') => Some(Station::F09),
            ('F', '1', '0') => Some(Station::F10),
            ('F', '1', '1') => Some(Station::F11),
            ('G', '0', '1') => Some(Station::G01),
            ('G', '0', '2') => Some(Station::G02),
            ('G', '0', '3') => Some(Station::G03),
            ('G', '0', '4') => Some(Station::G04),
            ('G', '0', '5') => Some(Station::G05),
            ('J', '0', '2') => Some(Station::J02),
            ('J', '0', '3') => Some(Station::J03),
            ('K', '0', '1') => Some(Station::K01),
            ('K', '0', '2') => Some(Station::K02),
            ('K', '0', '3') => Some(Station::K03),
            ('K', '0', '4') => Some(Station::K04),
            ('K', '0', '5') => Some(Station::K05),
            ('K', '0', '6') => Some(Station::K06),
            ('K', '0', '7') => Some(Station::K07),
            ('K', '0', '8') => Some(Station::K08),
            ('N', '0', '1') => Some(Station::N01),
            ('N', '0', '2') => Some(Station::N02),
            ('N', '0', '3') => Some(Station::N03),
            ('N', '0', '4') => Some(Station::N04),
            ('N', '0', '6') => Some(Station::N06),
            _ => None,
        }
    }

    /// The station whose code is `s`, if any.
    pub open spec fn decode(s: Seq<char>) -> Option<Station> {
        if s.len() == 3 {
            Station::from_parts(s[0], s[1], s[2])
        } else {
            None
        }
    }

    /// The name of this station.
    pub open spec fn spec_name(self) -> Seq<char> {
        match self {
            Station::A01 => "Metro Center"@,
            Station::A02 => "Farragut North"@,
            Station::A03 => "Dupont Circle"@,
            Station::A04 => "Woodley Park-Zoo/Adams Morgan"@,
            Station::A05 => "Cleveland Park"@,
            Station::A06 => "Van Ness-UDC"@,
            Station::A07 => "Tenleytown-AU"@,
            Station::A08 => "Friendship Heights"@,
            Station::A09 => "Bethesda"@,
            Station::A10 => "Medical Center"@,
            Station::A11 => "Grosvenor-Strathmore"@,
            Station::A12 => "White Flint"@,
            Station::A13 => "Twinbrook"@,
            Station::A14 => "Rockville"@,
            Station::A15 => "Shady Grove"@,
            Station::B01 => "Gallery Pl-Chinatown"@,
            Station::B02 => "Judiciary Square"@,
            Station::B03 => "Union Station"@,
            Station::B04 => "Rhode Island Ave-Brentwood"@,
            Station::B05 => "Brookland-CUA"@,
            Station::B06 => "Fort Totten"@,
            Station::B07 => "Takoma"@,
            Station::B08 => "Silver Spring"@,
            Station::B09 => "Forest Glen"@,
            Station::B10 => "Wheaton"@,
            Station::B11 => "Glenmont"@,
            Station::B35 => "NoMa-Gallaudet U"@,
            Station::C01 => "Metro Center"@,
            Station::C02 => "McPherson Square"@,
            Station::C03 => "Farragut West"@,
            Station::C04 => "Foggy Bottom-GWU"@,
            Station::C05 => "Rosslyn"@,
            Station::C06 => "Arlington Cemetery"@,
            Station::C07 => "Pentagon"@,
            Station::C08 => "Pentagon City"@,
            Station::C09 => "Crystal City"@,
            Station::C10 => "Ronald Reagan Washington National Airport"@,
            Station::C12 => "Braddock Road"@,
            Station::C13 => "King St-Old Town"@,
            Station::C14 => "Eisenhower Avenue"@,
            Station::C15 => "Huntington"@,
            Station::D01 => "Federal Triangle"@,
            Station::D02 => "Smithsonian"@,
            Station::D03 => "L'Enfant Plaza"@,
            Station::D04 => "Federal Center SW"@,
            Station::D05 => "Capitol South"@,
            Station::D06 => "Eastern Market"@,
            Station::D07 => "Potomac Ave"@,
            Station::D08 => "Stadium-Armory"@,
            Station::D09 => "Minnesota Ave"@,
            Station::D10 => "Deanwood"@,
            Station::D11 => "Cheverly"@,
            Station::D12 => "Landover"@,
            Station::D13 => "New Carrollton"@,
            Station::E01 => "Mt Vernon Sq 7th St-Convention Center"@,
            Station::E02 => "Shaw-Howard U"@,
            Station::E03 => "U Street/African-Amer Civil War Memorial/Cardozo"@,
            Station::E04 => "Columbia Heights"@,
            Station::E05 => "Georgia Ave-Petworth"@,
            Station::E06 => "Fort Totten"@,
            Station::E07 => "West Hyattsville"@,
            Station::E08 => "Prince George's Plaza"@,
            Station::E09 => "College Park-U of Md"@,
            Station::E10 => "Greenbelt"@,
            Station::F01 => "Gallery Pl-Chinatown"@,
            Station::F02 => "Archives-Navy Memorial-Penn Quarter"@,
            Station::F03 => "L'Enfant Plaza"@,
            Station::F04 => "Waterfront"@,
            Station::F05 => "Navy Yard-Ballpark"@,
            Station::F06 => "Anacostia"@,
            Station::F07 => "Congress Heights"@,
            Station::F08 => "Southern Avenue"@,
            Station::F09 => "Naylor Road"@,
            Station::F10 => "Suitland"@,
            Station::F11 => "Branch Ave"@,
            Station::G01 => "Benning Road"@,
            Station::G02 => "Capitol Heights"@,
            Station::G03 => "Addison Road-Seat Pleasant"@,
            Station::G04 => "Morgan Boulevard"@,
            Station::G05 => "Largo Town Center"@,
            Station::J02 => "Van Dorn Street"@,
            Station::J03 => "Franconia-Springfield"@,
            Station::K01 => "Court House"@,
            Station::K02 => "Clarendon"@,
            Station::K03 => "Virginia Square-GMU"@,
            Station::K04 => "Ballston-MU"@,
            Station::K05 => "East Falls Church"@,
            Station::K06 => "West Falls Church-VT/UVA"@,
            Station::K07 => "Dunn Loring-Merrifield"@,
            Station::K08 => "Vienna/Fairfax-GMU"@,
            Station::N01 => "McLean"@,
            Station::N02 => "Tysons Corner"@,
            Station::N03 => "Greensboro"@,
            Station::N04 => "Spring Hill"@,
            Station::N06 => "Wiehle-Reston East"@,
        }
    }

    /// The lines that serve this station.
    pub open spec fn spec_lines(self) -> Seq<Line> {
        match self {
            Station::A01 | Station::C01 => seq![Line::Blue, Line::Orange, Line::Silver, Line::Red],
            Station::A02 | Station::A03 | Station::A04 | Station::A05 | Station::A06 | Station::A07 | Station::A08 | Station::A09 | Station::A10 | Station::A11 | Station::A12 | Station::A13 | Station::A14 | Station::A15 | Station::B02 | Station::B03 | Station::B04 | Station::B05 | Station::B07 | Station::B08 | Station::B09 | Station::B10 | Station::B11 | Station::B35 => seq![Line::Red],
            Station::B01 | Station::B06 | Station::E06 | Station::F01 => seq![Line::Red, Line::Yellow, Line::Green],
            Station::C02 | Station::C03 | Station::C04 | Station::C05 | Station::D01 | Station::D02 | Station::D04 | Station::D05 | Station::D06 | Station::D07 | Station::D08 => seq![Line::Blue, Line::Orange, Line::Silver],
            Station::C06 | Station::J02 | Station::J03 => seq![Line::Blue],
            Station::C07 | Station::C08 | Station::C09 | Station::C10 | Station::C12 | Station::C13 => seq![Line::Blue, Line::Yellow],
            Station::C14 | Station::C15 => seq![Line::Yellow],
            Station::D03 | Station::F03 => seq![Line::Green, Line::Yellow, Line::Blue, Line::Orange, Line::Silver],
            Station::D09 | Station::D10 | Station::D11 | Station::D12 | Station::D13 | Station::K06 | Station::K07 | Station::K08 => seq![Line::Orange],
            Station::E01 | Station::E02 | Station::E03 | Station::E04 | Station::E05 | Station::E07 | Station::E08 | Station::E09 | Station::E10 | Station::F02 => seq![Line::Green, Line::Yellow],
            Station::F04 | Station::F05 | Station::F06 | Station::F07 | Station::F08 | Station::F09 | Station::F10 | Station::F11 => seq![Line::Green],
            Station::G01 | Station::G02 | Station::G03 | Station::G04 | Station::G05 => seq![Line::Blue, Line::Silver],
            Station::K01 | Station::K02 | Station::K03 | Station::K04 | Station::K05 => seq![Line::Orange, Line::Silver],
            Station::N01 | Station::N02 | Station::N03 | Station::N04 | Station::N06 => seq![Line::Silver],
        }
    }

    fn parts_exec(&self) -> (r: (char, char, char))
        ensures
            r == self.parts(),
    {
        match self {
            Station::A01 => ('A', '0', '1'),
            Station::A02 => ('A', '0', '2'),
            Station::A03 => ('A', '0', '3'),
            Station::A04 => ('A', '0', '4'),
            Station::A05 => ('A', '0', '5'),
            Station::A06 => ('A', '0', '6'),
            Station::A07 => ('A', '0', '7'),
            Station::A08 => ('A', '0', '8'),
            Station::A09 => ('A', '0', '9'),
            Station::A10 => ('A', '1', '0'),
            Station::A11 => ('A', '1', '1'),
            Station::A12 => ('A', '1', '2'),
            Station::A13 => ('A', '1', '3'),
            Station::A14 => ('A', '1', '4'),
            Station::A15 => ('A', '1', '5'),
            Station::B01 => ('B', '0', '1'),
            Station::B02 => ('B', '0', '2'),
            Station::B03 => ('B', '0', '3'),
            Station::B04 => ('B', '0', '4'),
            Station::B05 => ('B', '0', '5'),
            Station::B06 => ('B', '0', '6'),
            Station::B07 => ('B', '0', '7'),
            Station::B08 => ('B', '0', '8'),
            Station::B09 => ('B', '0', '9'),
            Station::B10 => ('B', '1', '0'),
            Station::B11 => ('B', '1', '1'),
            Station::B35 => ('B', '3', '5'),
            Station::C01 => ('C', '0', '1'),
            Station::C02 => ('C', '0', '2'),
            Station::C03 => ('C', '0', '3'),
            Station::C04 => ('C', '0', '4'),
            Station::C05 => ('C', '0', '5'),
            Station::C06 => ('C', '0', '6'),
            Station::C07 => ('C', '0', '7'),
            Station::C08 => ('C', '0', '8'),
            Station::C09 => ('C', '0', '9'),
            Station::C10 => ('C', '1', '0'),
            Station::C12 => ('C', '1', '2'),
            Station::C13 => ('C', '1', '3'),
            Station::C14 => ('C', '1', '4'),
            Station::C15 => ('C', '1', '5'),
            Station::D01 => ('D', '0', '1'),
            Station::D02 => ('D', '0', '2'),
            Station::D03 => ('D', '0', '3'),
            Station::D04 => ('D', '0', '4'),
            Station::D05 => ('D', '0', '5'),
            Station::D06 => ('D', '0', '6'),
            Station::D07 => ('D', '0', '7'),
            Station::D08 => ('D', '0', '8'),
            Station::D09 => ('D', '0', '9'),
            Station::D10 => ('D', '1', '0'),
            Station::D11 => ('D', '1', '1'),
            Station::D12 => ('D', '1', '2'),
            Station::D13 => ('D', '1', '3'),
            Station::E01 => ('E', '0', '1'),
            Station::E02 => ('E', '0', '2'),
            Station::E03 => ('E', '0', '3'),
            Station::E04 => ('E', '0', '4'),
            Station::E05 => ('E', '0', '5'),
            Station::E06 => ('E', '0', '6'),
            Station::E07 => ('E', '0', '7'),
            Station::E08 => ('E', '0', '8'),
            Station::E09 => ('E', '0', '9'),
            Station::E10 => ('E', '1', '0'),
            Station::F01 => ('F', '0', '1'),
            Station::F02 => ('F', '0', '2'),
            Station::F03 => ('F', '0', '3'),
            Station::F04 => ('F', '0', '4'),
            Station::F05 => ('F', '0', '5'),
            Station::F06 => ('F', '0', '6'),
            Station::F07 => ('F', '0', '7'),
            Station::F08 => ('F', '0', '8'),
            Station::F09 => ('F', '0', '9'),
            Station::F10 => ('F', '1', '0'),
            Station::F11 => ('F', '1', '1'),
            Station::G01 => ('G', '0', '1'),
            Station::G02 => ('G', '0', '2'),
            Station::G03 => ('G', '0', '3'),
            Station::G04 => ('G', '0', '4'),
            Station::G05 => ('G', '0', '5'),
            Station::J02 => ('J', '0', '2'),
            Station::J03 => ('J', '0', '3'),
            Station::K01 => ('K', '0', '1'),
            Station::K02 => ('K', '0', '2'),
            Station::K03 => ('K', '0', '3'),
            Station::K04 => ('K', '0', '4'),
            Station::K05 => ('K', '0', '5'),
            Station::K06 => ('K', '0', '6'),
            Station::K07 => ('K', '0', '7'),
            Station::K08 => ('K', '0', '8'),
            Station::N01 => ('N', '0', '1'),
            Station::N02 => ('N', '0', '2'),
            Station::N03 => ('N', '0', '3'),
            Station::N04 => ('N', '0', '4'),
            Station::N06 => ('N', '0', '6'),
        }
    }

    fn from_parts_exec(a: char, b: char, c: char) -> (r: Option<Station>)
        ensures
            r == Station::from_parts(a, b, c),
    {
        match (a, b, c) {
            ('A', '0', '1') => Some(Station::A01),
            ('A', '0', '2') => Some(Station::A02),
            ('A', '0', '3') => Some(Station::A03),
            ('A', '0', '4') => Some(Station::A04),
            ('A', '0', '5') => Some(Station::A05),
            ('A', '0', '6') => Some(Station::A06),
            ('A', '0', '7') => Some(Station::A07),
            ('A', '0', '8') => Some(Station::A08),
            ('A', '0', '9') => Some(Station::A09),
            ('A', '1', '0') => Some(Station::A10),
            ('A', '1', '1') => Some(Station::A11),
            ('A', '1', '2') => Some(Station::A12),
            ('A', '1', '3') => Some(Station::A13),
            ('A', '1', '4') => Some(Station::A14),
            ('A', '1', '5') => Some(Station::A15),
            ('B', '0', '1') => Some(Station::B01),
            ('B', '0', '2') => Some(Station::B02),
            ('B', '0', '3') => Some(Station::B03),
            ('B', '0', '4') => Some(Station::B04),
            ('B', '0', '5') => Some(Station::B05),
            ('B', '0', '6') => Some(Station::B06),
            ('B', '0', '7') => Some(Station::B07),
            ('B', '0', '8') => Some(Station::B08),
            ('B', '0', '9') => Some(Station::B09),
            ('B', '1', '0') => Some(Station::B10),
            ('B', '1', '1') => Some(Station::B11),
            ('B', '3', '5') => Some(Station::B35),
            ('C', '0', '1') => Some(Station::C01),
            ('C', '0', '2') => Some(Station::C02),
            ('C', '0', '3') => Some(Station::C03),
            ('C', '0', '4') => Some(Station::C04),
            ('C', '0', '5') => Some(Station::C05),
            ('C', '0', '6') => Some(Station::C06),
            ('C', '0', '7') => Some(Station::C07),
            ('C', '0', '8') => Some(Station::C08),
            ('C', '0', '9') => Some(Station::C09),
            ('C', '1', '0') => Some(Station::C10),
            ('C', '1', '2') => Some(Station::C12),
            ('C', '1', '3') => Some(Station::C13),
            ('C', '1', '4') => Some(Station::C14),
            ('C', '1', '5') => Some(Station::C15),
            ('D', '0', '1') => Some(Station::D01),
            ('D', '0', '2') => Some(Station::D02),
            ('D', '0', '3') => Some(Station::D03),
            ('D', '0', '4') => Some(Station::D04),
            ('D', '0', '5') => Some(Station::D05),
            ('D', '0', '6') => Some(Station::D06),
            ('D', '0', '7') => Some(Station::D07),
            ('D', '0', '8') => Some(Station::D08),
            ('D', '0', '9') => Some(Station::D09),
            ('D', '1', '0') => Some(Station::D10),
            ('D', '1', '1') => Some(Station::D11),
            ('D', '1', '2') => Some(Station::D12),
            ('D', '1', '3') => Some(Station::D13),
            ('E', '0', '1') => Some(Station::E01),
            ('E', '0', '2') => Some(Station::E02),
            ('E', '0', '3') => Some(Station::E03),
            ('E', '0', '4') => Some(Station::E04),
            ('E', '0', '5') => Some(Station::E05),
            ('E', '0', '6') => Some(Station::E06),
            ('E', '0', '7') => Some(Station::E07),
            ('E', '0', '8') => Some(Station::E08),
            ('E', '0', '9') => Some(Station::E09),
            ('E', '1', '0') => Some(Station::E10),
            ('F', '0', '1') => Some(Station::F01),
            ('F', '0', '2') => Some(Station::F02),
            ('F', '0', '3') => Some(Station::F03),
            ('F', '0', '4') => Some(Station::F04),
            ('F', '0', '5') => Some(Station::F05),
            ('F', '0', '6') => Some(Station::F06),
            ('F', '0', '7') => Some(Station::F07),
            ('F', '0', '8') => Some(Station::F08),
            ('F', '0', '9') => Some(Station::F09),
            ('F', '1', '0') => Some(Station::F10),
            ('F', '1', '1') => Some(Station::F11),
            ('G', '0', '1') => Some(Station::G01),
            ('G', '0', '2') => Some(Station::G02),
            ('G', '0', '3') => Some(Station::G03),
            ('G', '0', '4') => Some(Station::G04),
            ('G', '0', '5') => Some(Station::G05),
            ('J', '0', '2') => Some(Station::J02),
            ('J', '0', '3') => Some(Station::J03),
            ('K', '0', '1') => Some(Station::K01),
            ('K', '0', '2') => Some(Station::K02),
            ('K', '0', '3') => Some(Station::K03),
            ('K', '0', '4') => Some(Station::K04),
            ('K', '0', '5') => Some(Station::K05),
            ('K', '0', '6') => Some(Station::K06),
            ('K', '0', '7') => Some(Station::K07),
            ('K', '0', '8') => Some(Station::K08),
            ('N', '0', '1') => Some(Station::N01),
            ('N', '0', '2') => Some(Station::N02),
            ('N', '0', '3') => Some(Station::N03),
            ('N', '0', '4') => Some(Station::N04),
            ('N', '0', '6') => Some(Station::N06),
            _ => None,
        }
    }

    /// The code of this station, as the API writes it.
    pub fn to_string(&self) -> (r: String)
        ensures
            r@ == self.code(),
    {
        let (a, b, c) = self.parts_exec();
        string_of(vec![a, b, c])
    }

    /// Converts a code to a [`Station`].
    pub fn from_str(s: &str) -> (r: Result<Station, StringIsNotStationError>)
        ensures
            r is Ok <==> Station::decode(s@) is Some,
            r is Ok ==> Station::decode(s@) == Some(r->Ok_0),
    {
        if s.unicode_len() != 3 {
            return Err(StringIsNotStationError);
        }
        match Station::from_parts_exec(s.get_char(0), s.get_char(1), s.get_char(2)) {
            Some(station) => Ok(station),
            None => Err(StringIsNotStationError),
        }
    }

    /// The name of this station.
    pub fn name(&self) -> (r: String)
        ensures
            r@ == self.spec_name(),
    {
        match self {
            Station::A01 => String::from_str("Metro Center"),
            Station::A02 => String::from_str("Farragut North"),
            Station::A03 => String::from_str("Dupont Circle"),
            Station::A04 => String::from_str("Woodley Park-Zoo/Adams Morgan"),
            Station::A05 => String::from_str("Cleveland Park"),
            Station::A06 => String::from_str("Van Ness-UDC"),
            Station::A07 => String::from_str("Tenleytown-AU"),
            Station::A08 => String::from_str("Friendship Heights"),
            Station::A09 => String::from_str("Bethesda"),
            Station::A10 => String::from_str("Medical Center"),
            Station::A11 => String::from_str("Grosvenor-Strathmore"),
            Station::A12 => String::from_str("White Flint"),
            Station::A13 => String::from_str("Twinbrook"),
            Station::A14 => String::from_str("Rockville"),
            Station::A15 => String::from_str("Shady Grove"),
            Station::B01 => String::from_str("Gallery Pl-Chinatown"),
            Station::B02 => String::from_str("Judiciary Square"),
            Station::B03 => String::from_str("Union Station"),
            Station::B04 => String::from_str("Rhode Island Ave-Brentwood"),
            Station::B05 => String::from_str("Brookland-CUA"),
            Station::B06 => String::from_str("Fort Totten"),
            Station::B07 => String::from_str("Takoma"),
            Station::B08 => String::from_str("Silver Spring"),
            Station::B09 => String::from_str("Forest Glen"),
            Station::B10 => String::from_str("Wheaton"),
            Station::B11 => String::from_str("Glenmont"),
            Station::B35 => String::from_str("NoMa-Gallaudet U"),
            Station::C01 => String::from_str("Metro Center"),
            Station::C02 => String::from_str("McPherson Square"),
            Station::C03 => String::from_str("Farragut West"),
            Station::C04 => String::from_str("Foggy Bottom-GWU"),
            Station::C05 => String::from_str("Rosslyn"),
            Station::C06 => String::from_str("Arlington Cemetery"),
            Station::C07 => String::from_str("Pentagon"),
            Station::C08 => String::from_str("Pentagon City"),
            Station::C09 => String::from_str("Crystal City"),
            Station::C10 => String::from_str("Ronald Reagan Washington National Airport"),
            Station::C12 => String::from_str("Braddock Road"),
            Station::C13 => String::from_str("King St-Old Town"),
            Station::C14 => String::from_str("Eisenhower Avenue"),
            Station::C15 => String::from_str("Huntington"),
            Station::D01 => String::from_str("Federal Triangle"),
            Station::D02 => String::from_str("Smithsonian"),
            Station::D03 => String::from_str("L'Enfant Plaza"),
            Station::D04 => String::from_str("Federal Center SW"),
            Station::D05 => String::from_str("Capitol South"),
            Station::D06 => String::from_str("Eastern Market"),
            Station::D07 => String::from_str("Potomac Ave"),
            Station::D08 => String::from_str("Stadium-Armory"),
            Station::D09 => String::from_str("Minnesota Ave"),
            Station::D10 => String::from_str("Deanwood"),
            Station::D11 => String::from_str("Cheverly"),
            Station::D12 => String::from_str("Landover"),
            Station::D13 => String::from_str("New Carrollton"),
            Station::E01 => String::from_str("Mt Vernon Sq 7th St-Convention Center"),
            Station::E02 => String::from_str("Shaw-Howard U"),
            Station::E03 => String::from_str("U Street/African-Amer Civil War Memorial/Cardozo"),
            Station::E04 => String::from_str("Columbia Heights"),
            Station::E05 => String::from_str("Georgia Ave-Petworth"),
            Station::E06 => String::from_str("Fort Totten"),
            Station::E07 => String::from_str("West Hyattsville"),
            Station::E08 => String::from_str("Prince George's Plaza"),
            Station::E09 => String::from_str("College Park-U of Md"),
            Station::E10 => String::from_str("Greenbelt"),
            Station::F01 => String::from_str("Gallery Pl-Chinatown"),
            Station::F02 => String::from_str("Archives-Navy Memorial-Penn Quarter"),
            Station::F03 => String::from_str("L'Enfant Plaza"),
            Station::F04 => String::from_str("Waterfront"),
            Station::F05 => String::from_str("Navy Yard-Ballpark"),
            Station::F06 => String::from_str("Anacostia"),
            Station::F07 => String::from_str("Congress Heights"),
            Station::F08 => String::from_str("Southern Avenue"),
            Station::F09 => String::from_str("Naylor Road"),
            Station::F10 => String::from_str("Suitland"),
            Station::F11 => String::from_str("Branch Ave"),
            Station::G01 => String::from_str("Benning Road"),
            Station::G02 => String::from_str("Capitol Heights"),
            Station::G03 => String::from_str("Addison Road-Seat Pleasant"),
            Station::G04 => String::from_str("Morgan Boulevard"),
            Station::G05 => String::from_str("Largo Town Center"),
            Station::J02 => String::from_str("Van Dorn Street"),
            Station::J03 => String::from_str("Franconia-Springfield"),
            Station::K01 => String::from_str("Court House"),
            Station::K02 => String::from_str("Clarendon"),
            Station::K03 => String::from_str("Virginia Square-GMU"),
            Station::K04 => String::from_str("Ballston-MU"),
            Station::K05 => String::from_str("East Falls Church"),
            Station::K06 => String::from_str("West Falls Church-VT/UVA"),
            Station::K07 => String::from_str("Dunn Loring-Merrifield"),
            Station::K08 => String::from_str("Vienna/Fairfax-GMU"),
            Station::N01 => String::from_str("McLean"),
            Station::N02 => String::from_str("Tysons Corner"),
            Station::N03 => String::from_str("Greensboro"),
            Station::N04 => String::from_str("Spring Hill"),
            Station::N06 => String::from_str("Wiehle-Reston East"),
        }
    }

    /// The lines that serve this station.
    pub fn lines(&self) -> (r: Vec<Line>)
        ensures
            r@ == self.spec_lines(),
    {
        match self {
            Station::A01 | Station::C01 => vec![Line::Blue, Line::Orange, Line::Silver, Line::Red],
            Station::A02 | Station::A03 | Station::A04 | Station::A05 | Station::A06 | Station::A07 | Station::A08 | Station::A09 | Station::A10 | Station::A11 | Station::A12 | Station::A13 | Station::A14 | Station::A15 | Station::B02 | Station::B03 | Station::B04 | Station::B05 | Station::B07 | Station::B08 | Station::B09 | Station::B10 | Station::B11 | Station::B35 => vec![Line::Red],
            Station::B01 | Station::B06 | Station::E06 | Station::F01 => vec![Line::Red, Line::Yellow, Line::Green],
            Station::C02 | Station::C03 | Station::C04 | Station::C05 | Station::D01 | Station::D02 | Station::D04 | Station::D05 | Station::D06 | Station::D07 | Station::D08 => vec![Line::Blue, Line::Orange, Line::Silver],
            Station::C06 | Station::J02 | Station::J03 => vec![Line::Blue],
            Station::C07 | Station::C08 | Station::C09 | Station::C10 | Station::C12 | Station::C13 => vec![Line::Blue, Line::Yellow],
            Station::C14 | Station::C15 => vec![Line::Yellow],
            Station::D03 | Station::F03 => vec![Line::Green, Line::Yellow, Line::Blue, Line::Orange, Line::Silver],
            Station::D09 | Station::D10 | Station::D11 | Station::D12 | Station::D13 | Station::K06 | Station::K07 | Station::K08 => vec![Line::Orange],
            Station::E01 | Station::E02 | Station::E03 | Station::E04 | Station::E05 | Station::E07 | Station::E08 | Station::E09 | Station::E10 | Station::F02 => vec![Line::Green, Line::Yellow],
            Station::F04 | Station::F05 | Station::F06 | Station::F07 | Station::F08 | Station::F09 | Station::F10 | Station::F11 => vec![Line::Green],
            Station::G01 | Station::G02 | Station::G03 | Station::G04 | Station::G05 => vec![Line::Blue, Line::Silver],
            Station::K01 | Station::K02 | Station::K03 | Station::K04 | Station::K05 => vec![Line::Orange, Line::Silver],
            Station::N01 | Station::N02 | Station::N03 | Station::N04 | Station::N06 => vec![Line::Silver],
        }
    }
}

/// Decoding the code of a station gives the station back.
pub proof fn lemma_station_round_trip(station: Station)
    ensures
        Station::decode(station.code()) == Some(station),
{
    let p = station.parts();
    assert(station.code()[0] == p.0 && station.code()[1] == p.1 && station.code()[2] == p.2);
}

/// A string decodes to a station only when it is that station's code: any
/// other string is refused.
pub proof fn lemma_station_decode_only_codes(s: Seq<char>)
    ensures
        Station::decode(s) matches Some(station) ==> station.code() == s,
        (forall|station: Station| station.code() != s) ==> Station::decode(s) is None,
{
    if let Some(station) = Station::decode(s) {
        assert(station.parts() == (s[0], s[1], s[2]));
        assert(station.code() =~= s);
    }
}

impl FromJson for Station {
    open spec fn accepts(j: Json) -> bool {
        j is Str && Station::decode(j->Str_0@) is Some
    }

    open spec fn read_from(self, j: Json) -> bool {
        j is Str && Station::decode(j->Str_0@) == Some(self)
    }

    fn from_json(j: &Json) -> (r: Result<Station, String>) {
        match j {
            Json::Str(s) => match Station::from_str(s.as_str()) {
                Ok(station) => Ok(station),
                Err(_) => Err(String::from_str("String provided is not a Station code")),
            },
            _ => Err(String::from_str("invalid type: expected a Station code")),
        }
    }
}

/// Whether `x` is what a lenient station field reads as: the station when the
/// field holds a station code, and `None` when it holds anything else.
pub open spec fn lenient_station_read(x: Option<Station>, j: Json, key: Seq<char>) -> bool {
    match field(j, key) {
        Some(v) => if Station::accepts(v) {
            x is Some && x->Some_0.read_from(v)
        } else {
            x is None
        },
        None => false,
    }
}

/// Reads the required field `key` as a station, reading anything that is not
/// a station code (such as an empty string) as `None`.
pub fn empty_or_station(j: &Json, key: &str) -> (r: Result<Option<Station>, String>)
    ensures
        r is Ok <==> field(*j, key@) is Some,
        r is Ok ==> lenient_station_read(r->Ok_0, *j, key@),
{
    match get_field(j, key) {
        Some(v) => match Station::from_json(v) {
            Ok(station) => Ok(Some(station)),
            Err(_) => Ok(None),
        },
        None => {
            let mut m = String::from_str("missing field `");
            m.append(key);
            m.append("`");
            Err(m)
        },
    }
}

} // verus!
