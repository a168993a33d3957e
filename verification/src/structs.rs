//! Domain types shared across endpoints: the validated aircraft
//! identifier, the geographic bounding box, and the records that JSON
//! responses decode into.

use vstd::prelude::*;

use crate::error::OpenSkyError;
use crate::params::{ParamType, ParamValue};

verus! {

/// Whether `c` is a hexadecimal digit, either letter case.
pub open spec fn is_hex_char(c: char) -> bool {
    ('0' <= c && c <= '9') || ('a' <= c && c <= 'f') || ('A' <= c && c <= 'F')
}

/// Whether `c` is a lowercase hexadecimal digit.
pub open spec fn is_lower_hex_char(c: char) -> bool {
    ('0' <= c && c <= '9') || ('a' <= c && c <= 'f')
}

/// Lowercases one hexadecimal digit; other characters are unchanged.
pub open spec fn lower_hex_char(c: char) -> char {
    if c == 'A' {
        'a'
    } else if c == 'B' {
        'b'
    } else if c == 'C' {
        'c'
    } else if c == 'D' {
        'd'
    } else if c == 'E' {
        'e'
    } else if c == 'F' {
        'f'
    } else {
        c
    }
}

/// Lowercases every hexadecimal digit of a string.
pub open spec fn lower_hex_seq(s: Seq<char>) -> Seq<char> {
    s.map_values(|c: char| lower_hex_char(c))
}

/// Whether `s` is acceptable input for the identifier parser: exactly
/// six hexadecimal digits, in any letter case.
pub open spec fn valid_icao_input(s: Seq<char>) -> bool {
    s.len() == 6 && (forall|i: int| 0 <= i < s.len() ==> is_hex_char(#[trigger] s[i]))
}

/// Whether `s` is a normalized identifier: exactly six lowercase
/// hexadecimal digits.
pub open spec fn normalized_icao(s: Seq<char>) -> bool {
    s.len() == 6 && (forall|i: int| 0 <= i < s.len() ==> is_lower_hex_char(#[trigger] s[i]))
}

/// Whether `c` is a hexadecimal digit.
fn hex_char(c: char) -> (r: bool)
    ensures
        r == is_hex_char(c),
{
    ('0' <= c && c <= '9') || ('a' <= c && c <= 'f') || ('A' <= c && c <= 'F')
}

/// One hexadecimal digit, lowercased, as a string slice.
fn lower_hex_char_str(c: char) -> (r: &'static str)
    requires
        is_hex_char(c),
    ensures
        r@ == seq![lower_hex_char(c)],
{
    proof {
        reveal_strlit("0");
        reveal_strlit("1");
        reveal_strlit("2");
        reveal_strlit("3");
        reveal_strlit("4");
        reveal_strlit("5");
        reveal_strlit("6");
        reveal_strlit("7");
        reveal_strlit("8");
        reveal_strlit("9");
        reveal_strlit("a");
        reveal_strlit("b");
        reveal_strlit("c");
        reveal_strlit("d");
        reveal_strlit("e");
        reveal_strlit("f");
    }
    let r = match c {
        '0' => "0",
        '1' => "1",
        '2' => "2",
        '3' => "3",
        '4' => "4",
        '5' => "5",
        '6' => "6",
        '7' => "7",
        '8' => "8",
        '9' => "9",
        'a' | 'A' => "a",
        'b' | 'B' => "b",
        'c' | 'C' => "c",
        'd' | 'D' => "d",
        'e' | 'E' => "e",
        _ => "f",
    };
    proof {
        assert(r@ =~= seq![lower_hex_char(c)]);
    }
    r
}

/// A validated, normalized 24-bit aircraft address: six lowercase
/// hexadecimal characters. Constructed only through `from_str`, which
/// rejects anything else.
#[derive(Debug, Clone)]
pub struct Icao24 {
    icao: String,
}

impl View for Icao24 {
    type V = Seq<char>;

    closed spec fn view(&self) -> Seq<char> {
        self.icao@
    }
}

impl Icao24 {
    /// Parses an identifier. Succeeds exactly on six hexadecimal digits
    /// of any letter case, and stores the lowercase form; everything
    /// else is rejected with the input it carries.
    pub fn from_str(s: &str) -> (r: Result<Icao24, OpenSkyError>)
        ensures
            valid_icao_input(s@) ==> (r matches Ok(ic) && ic@ == lower_hex_seq(s@)
                && normalized_icao(ic@)),
            !valid_icao_input(s@) ==> (r matches Err(OpenSkyError::InvalidIdentifier(t)) && t@
                == s@),
    {
        let n = s.unicode_len();
        if n != 6 {
            return Err(OpenSkyError::InvalidIdentifier(String::from_str(s)));
        }
        let mut out = String::new();
        let mut i: usize = 0;
        while i < 6
            invariant
                s@.len() == 6,
                i <= 6,
                forall|j: int| 0 <= j < i ==> is_hex_char(#[trigger] s@[j]),
                out@ == lower_hex_seq(s@).take(i as int),
            decreases 6 - i,
        {
            let c = s.get_char(i);
            if !hex_char(c) {
                return Err(OpenSkyError::InvalidIdentifier(String::from_str(s)));
            }
            out.append(lower_hex_char_str(c));
            proof {
                assert(out@ =~= lower_hex_seq(s@).take(i as int + 1));
            }
            i += 1;
        }
        proof {
            assert(out@ =~= lower_hex_seq(s@));
        }
        Ok(Icao24 { icao: out })
    }

    /// The conversion for input already known to be valid: the callers'
    /// convenience the public validation path does not need. The
    /// original panic on bad input becomes a precondition.
    pub fn from_valid(s: &str) -> (r: Icao24)
        requires
            valid_icao_input(s@),
        ensures
            r@ == lower_hex_seq(s@),
            normalized_icao(r@),
    {
        match Icao24::from_str(s) {
            Ok(ic) => ic,
            Err(_) => unreached(),
        }
    }

    /// The normalized identifier text.
    pub fn as_str(&self) -> (r: &str)
        ensures
            r@ == self@,
    {
        self.icao.as_str()
    }
}

impl ParamValue for Icao24 {
    open spec fn value_spec(&self) -> Seq<char> {
        self@
    }

    fn as_value(&self) -> (r: String) {
        self.icao.clone()
    }
}

/// Normalization is idempotent: valid parser input stays valid under
/// lowercasing, and lowercasing a lowercased identifier changes nothing,
/// so parsing a parsed value's text yields the same value.
pub proof fn lemma_normalize_idempotent(s: Seq<char>)
    requires
        valid_icao_input(s),
    ensures
        valid_icao_input(lower_hex_seq(s)),
        normalized_icao(lower_hex_seq(s)),
        lower_hex_seq(lower_hex_seq(s)) == lower_hex_seq(s),
{
    assert forall|i: int| 0 <= i < lower_hex_seq(s).len() implies is_lower_hex_char(
        #[trigger] lower_hex_seq(s)[i],
    ) by {
        assert(is_hex_char(s[i]));
    }
    assert(lower_hex_seq(lower_hex_seq(s)) =~= lower_hex_seq(s));
}

/// A geographic filter of four coordinate bounds. Each bound holds the
/// decimal rendering of its coordinate; no range validation is done, by
/// design, and the expansion order is fixed.
#[derive(Debug, Clone)]
pub struct BoundingBox {
    pub lamin: String,
    pub lomin: String,
    pub lamax: String,
    pub lomax: String,
}

impl BoundingBox {
    /// Builds a bounding box from the four rendered bounds, in the order
    /// minimum latitude, minimum longitude, maximum latitude, maximum
    /// longitude.
    pub fn new(lamin: String, lomin: String, lamax: String, lomax: String) -> (r: Self)
        ensures
            r.lamin == lamin,
            r.lomin == lomin,
            r.lamax == lamax,
            r.lomax == lomax,
    {
        BoundingBox { lamin, lomin, lamax, lomax }
    }
}

impl ParamType for BoundingBox {
    open spec fn pairs_spec(&self) -> Seq<(Seq<char>, Seq<char>)> {
        seq![
            ("lamin"@, self.lamin@),
            ("lomin"@, self.lomin@),
            ("lamax"@, self.lamax@),
            ("lomax"@, self.lomax@),
        ]
    }

    fn as_pairs(&self) -> (r: Vec<(String, String)>) {
        let mut r: Vec<(String, String)> = Vec::new();
        r.push((String::from_str("lamin"), self.lamin.clone()));
        r.push((String::from_str("lomin"), self.lomin.clone()));
        r.push((String::from_str("lamax"), self.lamax.clone()));
        r.push((String::from_str("lomax"), self.lomax.clone()));
        proof {
            assert(r@.map_values(|p: (String, String)| (p.0@, p.1@)) =~= self.pairs_spec());
        }
        r
    }
}

/// One aircraft's state vector. Coordinate, velocity and altitude fields
/// hold the decimal rendering the upstream JSON carried; fields the
/// upstream API omits are absent, never an error.
#[derive(Debug, Clone)]
pub struct State {
    pub icao24: String,
    pub callsign: Option<String>,
    pub origin_country: String,
    pub time_position: Option<u64>,
    pub last_contact: u64,
    pub longitude: Option<String>,
    pub latitude: Option<String>,
    pub baro_altitude: Option<String>,
    pub on_ground: bool,
    pub velocity: Option<String>,
    pub true_track: Option<String>,
    pub vertical_rate: Option<String>,
    pub sensors: Option<Vec<i32>>,
    pub geo_altitude: Option<String>,
    pub squawk: Option<String>,
    pub spi: bool,
    pub position_source: u8,
}

/// State equality is deliberately narrowed to the aircraft identifier
/// alone, for de-duplication of state vectors.
impl PartialEq for State {
    fn eq(&self, other: &Self) -> (r: bool) {
        self.icao24 == other.icao24
    }
}

impl vstd::std_specs::cmp::PartialEqSpecImpl for State {
    open spec fn obeys_eq_spec() -> bool {
        true
    }

    open spec fn eq_spec(&self, other: &Self) -> bool {
        self.icao24@ == other.icao24@
    }
}

/// One flight of an aircraft, as the flights endpoints report it.
#[derive(Debug, Clone)]
pub struct Flight {
    pub icao24: String,
    pub first_seen: u64,
    pub est_departure_airport: Option<String>,
    pub last_seen: u64,
    pub est_arrival_airport: Option<String>,
    pub callsign: Option<String>,
    pub est_departure_airport_horiz_distance: Option<u64>,
    pub est_departure_airport_vert_distance: Option<u64>,
    pub est_arrival_airport_horiz_distance: Option<u64>,
    pub est_arrival_airport_vert_distance: Option<u64>,
    pub departure_airport_candidates_count: u64,
    pub arrival_airport_candidates_count: u64,
}

/// One aircraft's trajectory.
#[derive(Debug, Clone)]
pub struct Track {
    pub icao24: String,
    pub start_time: u64,
    pub end_time: u64,
    pub callsign: String,
    pub path: Vec<Waypoint>,
}

/// One point of a trajectory. Coordinate fields hold the decimal
/// rendering the upstream JSON carried.
#[derive(Debug, Clone)]
pub struct Waypoint {
    pub time: u64,
    pub latitude: Option<String>,
    pub longitude: Option<String>,
    pub baro_altitude: Option<String>,
    pub true_track: Option<String>,
    pub on_ground: bool,
}

} // verus!
