//! Climate zones, orientations and the table of solar radiation.
//!
//! The table gives, for each climate zone and each orientation of a surface, the
//! radiation accumulated in each month of the year. It is built once from its
//! rows and cannot be changed afterwards, so it may be shared freely.

use vstd::prelude::*;
use crate::text::text_eq;

verus! {

/// A climate zone of the regulation. The zones whose code ends in `c` are those of the Canary Islands.
#[derive(Debug, Clone, Copy, PartialEq, Eq, Structural)]
pub enum ClimateZone {
    A1c,
    A2c,
    A3c,
    A4c,
    Alfa1c,
    Alfa2c,
    Alfa3c,
    Alfa4c,
    B1c,
    B2c,
    B3c,
    B4c,
    C1c,
    C2c,
    C3c,
    C4c,
    D1c,
    D2c,
    D3c,
    E1c,
    A3,
    A4,
    B3,
    B4,
    C1,
    C2,
    C3,
    C4,
    D1,
    D2,
    D3,
    E1,
}

impl ClimateZone {
    /// The position of the zone in the enumeration.
    pub open spec fn index_spec(self) -> int {
        match self {
            ClimateZone::A1c => 0,
            ClimateZone::A2c => 1,
            ClimateZone::A3c => 2,
            ClimateZone::A4c => 3,
            ClimateZone::Alfa1c => 4,
            ClimateZone::Alfa2c => 5,
            ClimateZone::Alfa3c => 6,
            ClimateZone::Alfa4c => 7,
            ClimateZone::B1c => 8,
            ClimateZone::B2c => 9,
            ClimateZone::B3c => 10,
            ClimateZone::B4c => 11,
            ClimateZone::C1c => 12,
            ClimateZone::C2c => 13,
            ClimateZone::C3c => 14,
            ClimateZone::C4c => 15,
            ClimateZone::D1c => 16,
            ClimateZone::D2c => 17,
            ClimateZone::D3c => 18,
            ClimateZone::E1c => 19,
            ClimateZone::A3 => 20,
            ClimateZone::A4 => 21,
            ClimateZone::B3 => 22,
            ClimateZone::B4 => 23,
            ClimateZone::C1 => 24,
            ClimateZone::C2 => 25,
            ClimateZone::C3 => 26,
            ClimateZone::C4 => 27,
            ClimateZone::D1 => 28,
            ClimateZone::D2 => 29,
            ClimateZone::D3 => 30,
            ClimateZone::E1 => 31,
        }
    }

    /// The zone at a position of the enumeration.
    pub open spec fn at(i: int) -> Option<ClimateZone> {
        if i == 0 {
            Some(ClimateZone::A1c)
        } else if i == 1 {
            Some(ClimateZone::A2c)
        } else if i == 2 {
            Some(ClimateZone::A3c)
        } else if i == 3 {
            Some(ClimateZone::A4c)
        } else if i == 4 {
            Some(ClimateZone::Alfa1c)
        } else if i == 5 {
            Some(ClimateZone::Alfa2c)
        } else if i == 6 {
            Some(ClimateZone::Alfa3c)
        } else if i == 7 {
            Some(ClimateZone::Alfa4c)
        } else if i == 8 {
            Some(ClimateZone::B1c)
        } else if i == 9 {
            Some(ClimateZone::B2c)
        } else if i == 10 {
            Some(ClimateZone::B3c)
        } else if i == 11 {
            Some(ClimateZone::B4c)
        } else if i == 12 {
            Some(ClimateZone::C1c)
        } else if i == 13 {
            Some(ClimateZone::C2c)
        } else if i == 14 {
            Some(ClimateZone::C3c)
        } else if i == 15 {
            Some(ClimateZone::C4c)
        } else if i == 16 {
            Some(ClimateZone::D1c)
        } else if i == 17 {
            Some(ClimateZone::D2c)
        } else if i == 18 {
            Some(ClimateZone::D3c)
        } else if i == 19 {
            Some(ClimateZone::E1c)
        } else if i == 20 {
            Some(ClimateZone::A3)
        } else if i == 21 {
            Some(ClimateZone::A4)
        } else if i == 22 {
            Some(ClimateZone::B3)
        } else if i == 23 {
            Some(ClimateZone::B4)
        } else if i == 24 {
            Some(ClimateZone::C1)
        } else if i == 25 {
            Some(ClimateZone::C2)
        } else if i == 26 {
            Some(ClimateZone::C3)
        } else if i == 27 {
            Some(ClimateZone::C4)
        } else if i == 28 {
            Some(ClimateZone::D1)
        } else if i == 29 {
            Some(ClimateZone::D2)
        } else if i == 30 {
            Some(ClimateZone::D3)
        } else if i == 31 {
            Some(ClimateZone::E1)
        } else {
            None
        }
    }

    /// The code by which the zone is written.
    pub open spec fn code_spec(self) -> Seq<char> {
        match self {
            ClimateZone::A1c => "A1c"@,
            ClimateZone::A2c => "A2c"@,
            ClimateZone::A3c => "A3c"@,
            ClimateZone::A4c => "A4c"@,
            ClimateZone::Alfa1c => "Alfa1c"@,
            ClimateZone::Alfa2c => "Alfa2c"@,
            ClimateZone::Alfa3c => "Alfa3c"@,
            ClimateZone::Alfa4c => "Alfa4c"@,
            ClimateZone::B1c => "B1c"@,
            ClimateZone::B2c => "B2c"@,
            ClimateZone::B3c => "B3c"@,
            ClimateZone::B4c => "B4c"@,
            ClimateZone::C1c => "C1c"@,
            ClimateZone::C2c => "C2c"@,
            ClimateZone::C3c => "C3c"@,
            ClimateZone::C4c => "C4c"@,
            ClimateZone::D1c => "D1c"@,
            ClimateZone::D2c => "D2c"@,
            ClimateZone::D3c => "D3c"@,
            ClimateZone::E1c => "E1c"@,
            ClimateZone::A3 => "A3"@,
            ClimateZone::A4 => "A4"@,
            ClimateZone::B3 => "B3"@,
            ClimateZone::B4 => "B4"@,
            ClimateZone::C1 => "C1"@,
            ClimateZone::C2 => "C2"@,
            ClimateZone::C3 => "C3"@,
            ClimateZone::C4 => "C4"@,
            ClimateZone::D1 => "D1"@,
            ClimateZone::D2 => "D2"@,
            ClimateZone::D3 => "D3"@,
            ClimateZone::E1 => "E1"@,
        }
    }

    /// The zone that a code names, if any.
    pub open spec fn of_code(code: Seq<char>) -> Option<ClimateZone> {
        Self::of_code_from(code, 0)
    }

    /// The first zone at or after position `start` that `code` names.
    pub open spec fn of_code_from(code: Seq<char>, start: int) -> Option<ClimateZone>
        decreases 32 - start,
    {
        match Self::at(start) {
            None => None,
            Some(z) => if z.code_spec() == code {
                Some(z)
            } else {
                Self::of_code_from(code, start + 1)
            },
        }
    }

    /// How many there are.
    pub const COUNT: usize = 32;

    /// The place of the value in the enumeration.
    pub fn index(self) -> (r: usize)
        ensures
            r == self.index_spec(),
            r < 32,
            Self::at(r as int) == Some(self),
    {
        match self {
            ClimateZone::A1c => 0,
            ClimateZone::A2c => 1,
            ClimateZone::A3c => 2,
            ClimateZone::A4c => 3,
            ClimateZone::Alfa1c => 4,
            ClimateZone::Alfa2c => 5,
            ClimateZone::Alfa3c => 6,
            ClimateZone::Alfa4c => 7,
            ClimateZone::B1c => 8,
            ClimateZone::B2c => 9,
            ClimateZone::B3c => 10,
            ClimateZone::B4c => 11,
            ClimateZone::C1c => 12,
            ClimateZone::C2c => 13,
            ClimateZone::C3c => 14,
            ClimateZone::C4c => 15,
            ClimateZone::D1c => 16,
            ClimateZone::D2c => 17,
            ClimateZone::D3c => 18,
            ClimateZone::E1c => 19,
            ClimateZone::A3 => 20,
            ClimateZone::A4 => 21,
            ClimateZone::B3 => 22,
            ClimateZone::B4 => 23,
            ClimateZone::C1 => 24,
            ClimateZone::C2 => 25,
            ClimateZone::C3 => 26,
            ClimateZone::C4 => 27,
            ClimateZone::D1 => 28,
            ClimateZone::D2 => 29,
            ClimateZone::D3 => 30,
            ClimateZone::E1 => 31,
        }
    }

    /// The value at a place of the enumeration, if there is one.
    pub fn from_index(i: usize) -> (r: Option<ClimateZone>)
        ensures
            r == Self::at(i as int),
            r is Some <==> i < 32,
            r matches Some(z) ==> z.index_spec() == i,
    {
        if i == 0 {
            Some(ClimateZone::A1c)
        } else if i == 1 {
            Some(ClimateZone::A2c)
        } else if i == 2 {
            Some(ClimateZone::A3c)
        } else if i == 3 {
            Some(ClimateZone::A4c)
        } else if i == 4 {
            Some(ClimateZone::Alfa1c)
        } else if i == 5 {
            Some(ClimateZone::Alfa2c)
        } else if i == 6 {
            Some(ClimateZone::Alfa3c)
        } else if i == 7 {
            Some(ClimateZone::Alfa4c)
        } else if i == 8 {
            Some(ClimateZone::B1c)
        } else if i == 9 {
            Some(ClimateZone::B2c)
        } else if i == 10 {
            Some(ClimateZone::B3c)
        } else if i == 11 {
            Some(ClimateZone::B4c)
        } else if i == 12 {
            Some(ClimateZone::C1c)
        } else if i == 13 {
            Some(ClimateZone::C2c)
        } else if i == 14 {
            Some(ClimateZone::C3c)
        } else if i == 15 {
            Some(ClimateZone::C4c)
        } else if i == 16 {
            Some(ClimateZone::D1c)
        } else if i == 17 {
            Some(ClimateZone::D2c)
        } else if i == 18 {
            Some(ClimateZone::D3c)
        } else if i == 19 {
            Some(ClimateZone::E1c)
        } else if i == 20 {
            Some(ClimateZone::A3)
        } else if i == 21 {
            Some(ClimateZone::A4)
        } else if i == 22 {
            Some(ClimateZone::B3)
        } else if i == 23 {
            Some(ClimateZone::B4)
        } else if i == 24 {
            Some(ClimateZone::C1)
        } else if i == 25 {
            Some(ClimateZone::C2)
        } else if i == 26 {
            Some(ClimateZone::C3)
        } else if i == 27 {
            Some(ClimateZone::C4)
        } else if i == 28 {
            Some(ClimateZone::D1)
        } else if i == 29 {
            Some(ClimateZone::D2)
        } else if i == 30 {
            Some(ClimateZone::D3)
        } else if i == 31 {
            Some(ClimateZone::E1)
        } else {
            None
        }
    }

    /// The code by which the value is written.
    pub fn code(self) -> (r: &'static str)
        ensures
            r@ == self.code_spec(),
    {
        match self {
            ClimateZone::A1c => "A1c",
            ClimateZone::A2c => "A2c",
            ClimateZone::A3c => "A3c",
            ClimateZone::A4c => "A4c",
            ClimateZone::Alfa1c => "Alfa1c",
            ClimateZone::Alfa2c => "Alfa2c",
            ClimateZone::Alfa3c => "Alfa3c",
            ClimateZone::Alfa4c => "Alfa4c",
            ClimateZone::B1c => "B1c",
            ClimateZone::B2c => "B2c",
            ClimateZone::B3c => "B3c",
            ClimateZone::B4c => "B4c",
            ClimateZone::C1c => "C1c",
            ClimateZone::C2c => "C2c",
            ClimateZone::C3c => "C3c",
            ClimateZone::C4c => "C4c",
            ClimateZone::D1c => "D1c",
            ClimateZone::D2c => "D2c",
            ClimateZone::D3c => "D3c",
            ClimateZone::E1c => "E1c",
            ClimateZone::A3 => "A3",
            ClimateZone::A4 => "A4",
            ClimateZone::B3 => "B3",
            ClimateZone::B4 => "B4",
            ClimateZone::C1 => "C1",
            ClimateZone::C2 => "C2",
            ClimateZone::C3 => "C3",
            ClimateZone::C4 => "C4",
            ClimateZone::D1 => "D1",
            ClimateZone::D2 => "D2",
            ClimateZone::D3 => "D3",
            ClimateZone::E1 => "E1",
        }
    }

    /// Reads a code. A code that names no zone gives `None`.
    pub fn from_code(code: &str) -> (r: Option<ClimateZone>)
        ensures
            r == Self::of_code(code@),
            r matches Some(z) ==> z.code_spec() == code@,
            r is None ==> forall|z: ClimateZone| z.code_spec() != code@,
    {
        let mut i: usize = 0;
        while i < 32
            invariant
                i <= 32,
                Self::of_code(code@) == Self::of_code_from(code@, i as int),
                forall|z: ClimateZone| z.index_spec() < i ==> z.code_spec() != code@,
            decreases 32 - i,
        {
            match Self::from_index(i) {
                Some(z) => {
                    if text_eq(code, z.code()) {
                        return Some(z);
                    }
                    assert forall|y: ClimateZone| y.index_spec() < i + 1 implies y.code_spec() != code@ by {
                        if y.index_spec() == i {
                            Self::lemma_index(y);
                        }
                    }
                },
                None => {},
            }
            i = i + 1;
        }
        assert forall|z: ClimateZone| z.code_spec() != code@ by {
            Self::lemma_index(z);
        }
        None
    }

    /// Every zone stands at its own position, which is in range.
    pub proof fn lemma_index(z: ClimateZone)
        ensures
            0 <= z.index_spec() < 32,
            Self::at(z.index_spec()) == Some(z),
    {
    }
}

/// The orientation of a surface: one of the eight compass sectors, or horizontal.
#[derive(Debug, Clone, Copy, PartialEq, Eq, Structural)]
pub enum Orientation {
    North,
    NorthEast,
    East,
    SouthEast,
    South,
    SouthWest,
    West,
    NorthWest,
    Horizontal,
}

impl Orientation {
    /// The position of the orientation in the enumeration.
    pub open spec fn index_spec(self) -> int {
        match self {
            Orientation::North => 0,
            Orientation::NorthEast => 1,
            Orientation::East => 2,
            Orientation::SouthEast => 3,
            Orientation::South => 4,
            Orientation::SouthWest => 5,
            Orientation::West => 6,
            Orientation::NorthWest => 7,
            Orientation::Horizontal => 8,
        }
    }

    /// The orientation at a position of the enumeration.
    pub open spec fn at(i: int) -> Option<Orientation> {
        if i == 0 {
            Some(Orientation::North)
        } else if i == 1 {
            Some(Orientation::NorthEast)
        } else if i == 2 {
            Some(Orientation::East)
        } else if i == 3 {
            Some(Orientation::SouthEast)
        } else if i == 4 {
            Some(Orientation::South)
        } else if i == 5 {
            Some(Orientation::SouthWest)
        } else if i == 6 {
            Some(Orientation::West)
        } else if i == 7 {
            Some(Orientation::NorthWest)
        } else if i == 8 {
            Some(Orientation::Horizontal)
        } else {
            None
        }
    }

    /// The code by which the orientation is written.
    pub open spec fn code_spec(self) -> Seq<char> {
        match self {
            Orientation::North => "N"@,
            Orientation::NorthEast => "NE"@,
            Orientation::East => "E"@,
            Orientation::SouthEast => "SE"@,
            Orientation::South => "S"@,
            Orientation::SouthWest => "SW"@,
            Orientation::West => "W"@,
            Orientation::NorthWest => "NW"@,
            Orientation::Horizontal => "HZ"@,
        }
    }

    /// The orientation that a code names, if any.
    pub open spec fn of_code(code: Seq<char>) -> Option<Orientation> {
        Self::of_code_from(code, 0)
    }

    /// The first orientation at or after position `start` that `code` names.
    pub open spec fn of_code_from(code: Seq<char>, start: int) -> Option<Orientation>
        decreases 9 - start,
    {
        match Self::at(start) {
            None => None,
            Some(z) => if z.code_spec() == code {
                Some(z)
            } else {
                Self::of_code_from(code, start + 1)
            },
        }
    }

    /// How many there are.
    pub const COUNT: usize = 9;

    /// The place of the value in the enumeration.
    pub fn index(self) -> (r: usize)
        ensures
            r == self.index_spec(),
            r < 9,
            Self::at(r as int) == Some(self),
    {
        match self {
            Orientation::North => 0,
            Orientation::NorthEast => 1,
            Orientation::East => 2,
            Orientation::SouthEast => 3,
            Orientation::South => 4,
            Orientation::SouthWest => 5,
            Orientation::West => 6,
            Orientation::NorthWest => 7,
            Orientation::Horizontal => 8,
        }
    }

    /// The value at a place of the enumeration, if there is one.
    pub fn from_index(i: usize) -> (r: Option<Orientation>)
        ensures
            r == Self::at(i as int),
            r is Some <==> i < 9,
            r matches Some(z) ==> z.index_spec() == i,
    {
        if i == 0 {
            Some(Orientation::North)
        } else if i == 1 {
            Some(Orientation::NorthEast)
        } else if i == 2 {
            Some(Orientation::East)
        } else if i == 3 {
            Some(Orientation::SouthEast)
        } else if i == 4 {
            Some(Orientation::South)
        } else if i == 5 {
            Some(Orientation::SouthWest)
        } else if i == 6 {
            Some(Orientation::West)
        } else if i == 7 {
            Some(Orientation::NorthWest)
        } else if i == 8 {
            Some(Orientation::Horizontal)
        } else {
            None
        }
    }

    /// The code by which the value is written.
    pub fn code(self) -> (r: &'static str)
        ensures
            r@ == self.code_spec(),
    {
        match self {
            Orientation::North => "N",
            Orientation::NorthEast => "NE",
            Orientation::East => "E",
            Orientation::SouthEast => "SE",
            Orientation::South => "S",
            Orientation::SouthWest => "SW",
            Orientation::West => "W",
            Orientation::NorthWest => "NW",
            Orientation::Horizontal => "HZ",
        }
    }

    /// Reads a code. A code that names no orientation gives `None`.
    pub fn from_code(code: &str) -> (r: Option<Orientation>)
        ensures
            r == Self::of_code(code@),
            r matches Some(z) ==> z.code_spec() == code@,
            r is None ==> forall|z: Orientation| z.code_spec() != code@,
    {
        let mut i: usize = 0;
        while i < 9
            invariant
                i <= 9,
                Self::of_code(code@) == Self::of_code_from(code@, i as int),
                forall|z: Orientation| z.index_spec() < i ==> z.code_spec() != code@,
            decreases 9 - i,
        {
            match Self::from_index(i) {
                Some(z) => {
                    if text_eq(code, z.code()) {
                        return Some(z);
                    }
                    assert forall|y: Orientation| y.index_spec() < i + 1 implies y.code_spec() != code@ by {
                        if y.index_spec() == i {
                            Self::lemma_index(y);
                        }
                    }
                },
                None => {},
            }
            i = i + 1;
        }
        assert forall|z: Orientation| z.code_spec() != code@ by {
            Self::lemma_index(z);
        }
        None
    }

    /// Every orientation stands at its own position, which is in range.
    pub proof fn lemma_index(z: Orientation)
        ensures
            0 <= z.index_spec() < 9,
            Self::at(z.index_spec()) == Some(z),
    {
    }
}

impl ClimateZone {
    /// A search for a code from `start` finds a zone where a zone at or after
    /// `start` carries the code.
    pub proof fn lemma_reaches(z: ClimateZone, code: Seq<char>, start: int)
        requires
            0 <= start <= z.index_spec(),
            z.code_spec() == code,
        ensures
            ClimateZone::of_code_from(code, start) is Some,
        decreases z.index_spec() - start,
    {
        ClimateZone::lemma_index(z);
        if start < z.index_spec() {
            if ClimateZone::at(start) is Some && ClimateZone::at(start).unwrap().code_spec() != code {
                ClimateZone::lemma_reaches(z, code, start + 1);
            }
        }
    }

    /// The code of a zone names a zone.
    pub proof fn lemma_code_names_a_zone(z: ClimateZone)
        ensures
            ClimateZone::of_code(z.code_spec()) is Some,
    {
        ClimateZone::lemma_reaches(z, z.code_spec(), 0);
    }
}

/// The monthly radiation data of a table: its rows, in the order of
/// `row_index`.
pub fn get_monthly_radiation_data(climate: &ClimateData) -> (r: &Vec<[u32; 12]>)
    ensures
        r@ == climate.rows_spec(),
        r.len() == TABLE_ROWS,
{
    climate.rows()
}

/// Why a lookup in the radiation table failed.
#[derive(Debug, Clone, Copy, PartialEq, Eq, Structural)]
pub enum ClimateError {
    /// The zone code names no climate zone.
    UnknownClimateZone,
    /// The orientation code names no orientation.
    UnknownOrientation,
}

/// The radiation on a surface: the twelve monthly values and that of July.
#[derive(Debug, Clone, Copy, PartialEq, Eq)]
pub struct Radiation {
    pub monthly: [u32; 12],
    pub july: u32,
}

/// The number of rows of a complete table.
pub const TABLE_ROWS: usize = 288;

/// The row of the table that holds a zone and an orientation.
pub open spec fn row_index(zone: ClimateZone, orientation: Orientation) -> int {
    zone.index_spec() * 9 + orientation.index_spec()
}

/// The radiation table: one row of twelve monthly values for each climate zone
/// and orientation, in the order of `row_index`.
pub struct ClimateData {
    rows: Vec<[u32; 12]>,
}

impl ClimateData {
    #[verifier::type_invariant]
    spec fn complete(self) -> bool {
        self.rows@.len() == TABLE_ROWS
    }

    /// The rows of the table.
    pub closed spec fn rows_spec(self) -> Seq<[u32; 12]> {
        self.rows@
    }

    /// The twelve monthly values for a zone and an orientation.
    pub open spec fn monthly_spec(self, zone: ClimateZone, orientation: Orientation) -> Seq<u32> {
        self.rows_spec()[row_index(zone, orientation)]@
    }

    /// The value of July for a zone and an orientation.
    pub open spec fn july_spec(self, zone: ClimateZone, orientation: Orientation) -> u32 {
        self.monthly_spec(zone, orientation)[6]
    }

    /// What `radiation_for` returns for two codes.
    pub open spec fn lookup_spec(self, zone: Seq<char>, orientation: Seq<char>) -> Result<
        Radiation,
        ClimateError,
    > {
        match ClimateZone::of_code(zone) {
            None => Err(ClimateError::UnknownClimateZone),
            Some(z) => match Orientation::of_code(orientation) {
                None => Err(ClimateError::UnknownOrientation),
                Some(o) => Ok(
                    Radiation { monthly: self.rows_spec()[row_index(z, o)], july: self.july_spec(z, o) },
                ),
            },
        }
    }

    /// Builds the table from its rows. The rows must be complete: one for each
    /// zone and orientation.
    pub fn from_rows(rows: Vec<[u32; 12]>) -> (r: Option<ClimateData>)
        ensures
            r is Some <==> rows.len() == TABLE_ROWS,
            r matches Some(c) ==> c.rows_spec() == rows@,
    {
        if rows.len() == TABLE_ROWS {
            Some(ClimateData { rows })
        } else {
            None
        }
    }

    /// A table in which every zone and orientation has the same monthly values.
    pub fn uniform(monthly: [u32; 12]) -> (r: ClimateData)
        ensures
            r.rows_spec().len() == TABLE_ROWS,
            forall|i: int| 0 <= i < TABLE_ROWS ==> r.rows_spec()[i] == monthly,
    {
        let mut rows: Vec<[u32; 12]> = Vec::new();
        let mut i: usize = 0;
        while i < TABLE_ROWS
            invariant
                i <= TABLE_ROWS,
                rows.len() == i,
                forall|j: int| 0 <= j < i ==> rows[j] == monthly,
            decreases TABLE_ROWS - i,
        {
            rows.push(monthly);
            i = i + 1;
        }
        ClimateData { rows }
    }

    /// The rows of the table, in the order of `row_index`.
    pub fn rows(&self) -> (r: &Vec<[u32; 12]>)
        ensures
            r@ == self.rows_spec(),
            r.len() == TABLE_ROWS,
    {
        proof {
            use_type_invariant(self);
        }
        &self.rows
    }

    /// The radiation for a zone and an orientation.
    pub fn radiation(&self, zone: ClimateZone, orientation: Orientation) -> (r: Radiation)
        ensures
            r.monthly == self.rows_spec()[row_index(zone, orientation)],
            r.july == self.july_spec(zone, orientation),
    {
        proof {
            use_type_invariant(self);
        }
        let monthly = self.rows[zone.index() * 9 + orientation.index()];
        Radiation { monthly, july: monthly[6] }
    }

    /// The radiation for a zone and an orientation given by their codes. An
    /// unknown zone code is reported before an unknown orientation code.
    pub fn radiation_for(&self, zone: &str, orientation: &str) -> (r: Result<Radiation, ClimateError>)
        ensures
            r == self.lookup_spec(zone@, orientation@),
    {
        match ClimateZone::from_code(zone) {
            None => Err(ClimateError::UnknownClimateZone),
            Some(z) => match Orientation::from_code(orientation) {
                None => Err(ClimateError::UnknownOrientation),
                Some(o) => Ok(self.radiation(z, o)),
            },
        }
    }
}

} // verus!
