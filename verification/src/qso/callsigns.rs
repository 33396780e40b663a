//! The embedded pool of simulated stations and exchange values.
//!
//! Process-wide lookup tables: callsigns with names and locations,
//! realistic signal reports, rigs, antennas and power levels.  The
//! random pickers draw one entry through the trusted rand wrappers.

use vstd::prelude::*;

use crate::rng::rand_below;

verus! {

/// One simulated station of the pool.  `dok` is the DARC local
/// chapter code, or `NM` for stations that are no DARC members.
#[derive(Debug, Clone, Copy)]
pub struct SimStation {
    pub call: &'static str,
    pub name: &'static str,
    pub qth: &'static str,
    pub country: &'static str,
    pub dok: &'static str,
}

/// How many stations the pool holds.
pub open spec fn spec_station_count() -> int {
    30
}

/// How many of them, at the front of the pool, are German (country
/// `DL`): the pool the DARC contest draws from.
pub open spec fn spec_dl_station_count() -> int {
    3
}

/// The station at one index of the pool.
pub open spec fn spec_station(i: int) -> SimStation {
    if i == 0 {
        SimStation { call: "DL1ABC", name: "HANS", qth: "BERLIN", country: "DL", dok: "D01" }
    } else if i == 1 {
        SimStation { call: "DL2XYZ", name: "PETER", qth: "HAMBURG", country: "DL", dok: "H09" }
    } else if i == 2 {
        SimStation { call: "DL5QRS", name: "FRITZ", qth: "MUNICH", country: "DL", dok: "M02" }
    } else if i == 3 {
        SimStation { call: "OE3KAB", name: "WALTER", qth: "VIENNA", country: "OE", dok: "NM" }
    } else if i == 4 {
        SimStation { call: "PA3ABC", name: "JAN", qth: "AMSTERDAM", country: "PA", dok: "NM" }
    } else if i == 5 {
        SimStation { call: "G4XYZ", name: "JOHN", qth: "LONDON", country: "G", dok: "NM" }
    } else if i == 6 {
        SimStation { call: "ON4ABC", name: "LUC", qth: "BRUSSELS", country: "ON", dok: "NM" }
    } else if i == 7 {
        SimStation { call: "F5NTX", name: "PIERRE", qth: "PARIS", country: "F", dok: "NM" }
    } else if i == 8 {
        SimStation { call: "I2ABC", name: "MARCO", qth: "MILAN", country: "I", dok: "NM" }
    } else if i == 9 {
        SimStation { call: "SM5XY", name: "LARS", qth: "STOCKHOLM", country: "SM", dok: "NM" }
    } else if i == 10 {
        SimStation { call: "SP5ZAP", name: "TOMASZ", qth: "WARSAW", country: "SP", dok: "NM" }
    } else if i == 11 {
        SimStation { call: "UT5UDX", name: "SERGIY", qth: "KYIV", country: "UT", dok: "NM" }
    } else if i == 12 {
        SimStation { call: "UA9XYZ", name: "IVAN", qth: "MOSCOW", country: "UA", dok: "NM" }
    } else if i == 13 {
        SimStation { call: "W1AW", name: "HIRAM", qth: "NEWINGTON", country: "W", dok: "NM" }
    } else if i == 14 {
        SimStation { call: "K5ZD", name: "RANDY", qth: "HARVARD", country: "W", dok: "NM" }
    } else if i == 15 {
        SimStation { call: "VE3XYZ", name: "MIKE", qth: "TORONTO", country: "VE", dok: "NM" }
    } else if i == 16 {
        SimStation { call: "JA1ABC", name: "KENJI", qth: "TOKYO", country: "JA", dok: "NM" }
    } else if i == 17 {
        SimStation { call: "VK2XYZ", name: "BRUCE", qth: "SYDNEY", country: "VK", dok: "NM" }
    } else if i == 18 {
        SimStation { call: "ZL2ABC", name: "NEIL", qth: "AUCKLAND", country: "ZL", dok: "NM" }
    } else if i == 19 {
        SimStation { call: "HB9ABC", name: "BEAT", qth: "ZURICH", country: "HB9", dok: "NM" }
    } else if i == 20 {
        SimStation { call: "OK2XYZ", name: "JIRI", qth: "BRNO", country: "OK", dok: "NM" }
    } else if i == 21 {
        SimStation { call: "YL3ABC", name: "JANIS", qth: "RIGA", country: "YL", dok: "NM" }
    } else if i == 22 {
        SimStation { call: "LY5T", name: "TOMAS", qth: "VILNIUS", country: "LY", dok: "NM" }
    } else if i == 23 {
        SimStation { call: "ES5TV", name: "TONNO", qth: "TALLINN", country: "ES", dok: "NM" }
    } else if i == 24 {
        SimStation { call: "OH2BH", name: "MARTTI", qth: "HELSINKI", country: "OH", dok: "NM" }
    } else if i == 25 {
        SimStation { call: "LA5YJ", name: "BJORN", qth: "OSLO", country: "LA", dok: "NM" }
    } else if i == 26 {
        SimStation { call: "OZ5E", name: "FLEMMING", qth: "COPENHAGEN", country: "OZ", dok: "NM" }
    } else if i == 27 {
        SimStation { call: "EI5DI", name: "SEAN", qth: "DUBLIN", country: "EI", dok: "NM" }
    } else if i == 28 {
        SimStation { call: "GM4ZUK", name: "ANGUS", qth: "EDINBURGH", country: "GM", dok: "NM" }
    } else {
        SimStation { call: "TF3CW", name: "SIGGI", qth: "REYKJAVIK", country: "TF", dok: "NM" }
    }
}

/// Number of stations in the pool.
pub fn station_count() -> (n: usize)
    ensures
        n == spec_station_count(),
{
    30
}

/// The station at index `i` of the pool.
pub fn station_at(i: usize) -> (r: SimStation)
    requires
        i < spec_station_count(),
    ensures
        r.call@ == spec_station(i as int).call@,
        r.name@ == spec_station(i as int).name@,
        r.qth@ == spec_station(i as int).qth@,
        r.country@ == spec_station(i as int).country@,
        r.dok@ == spec_station(i as int).dok@,
{
    if i == 0 {
        SimStation { call: "DL1ABC", name: "HANS", qth: "BERLIN", country: "DL", dok: "D01" }
    } else if i == 1 {
        SimStation { call: "DL2XYZ", name: "PETER", qth: "HAMBURG", country: "DL", dok: "H09" }
    } else if i == 2 {
        SimStation { call: "DL5QRS", name: "FRITZ", qth: "MUNICH", country: "DL", dok: "M02" }
    } else if i == 3 {
        SimStation { call: "OE3KAB", name: "WALTER", qth: "VIENNA", country: "OE", dok: "NM" }
    } else if i == 4 {
        SimStation { call: "PA3ABC", name: "JAN", qth: "AMSTERDAM", country: "PA", dok: "NM" }
    } else if i == 5 {
        SimStation { call: "G4XYZ", name: "JOHN", qth: "LONDON", country: "G", dok: "NM" }
    } else if i == 6 {
        SimStation { call: "ON4ABC", name: "LUC", qth: "BRUSSELS", country: "ON", dok: "NM" }
    } else if i == 7 {
        SimStation { call: "F5NTX", name: "PIERRE", qth: "PARIS", country: "F", dok: "NM" }
    } else if i == 8 {
        SimStation { call: "I2ABC", name: "MARCO", qth: "MILAN", country: "I", dok: "NM" }
    } else if i == 9 {
        SimStation { call: "SM5XY", name: "LARS", qth: "STOCKHOLM", country: "SM", dok: "NM" }
    } else if i == 10 {
        SimStation { call: "SP5ZAP", name: "TOMASZ", qth: "WARSAW", country: "SP", dok: "NM" }
    } else if i == 11 {
        SimStation { call: "UT5UDX", name: "SERGIY", qth: "KYIV", country: "UT", dok: "NM" }
    } else if i == 12 {
        SimStation { call: "UA9XYZ", name: "IVAN", qth: "MOSCOW", country: "UA", dok: "NM" }
    } else if i == 13 {
        SimStation { call: "W1AW", name: "HIRAM", qth: "NEWINGTON", country: "W", dok: "NM" }
    } else if i == 14 {
        SimStation { call: "K5ZD", name: "RANDY", qth: "HARVARD", country: "W", dok: "NM" }
    } else if i == 15 {
        SimStation { call: "VE3XYZ", name: "MIKE", qth: "TORONTO", country: "VE", dok: "NM" }
    } else if i == 16 {
        SimStation { call: "JA1ABC", name: "KENJI", qth: "TOKYO", country: "JA", dok: "NM" }
    } else if i == 17 {
        SimStation { call: "VK2XYZ", name: "BRUCE", qth: "SYDNEY", country: "VK", dok: "NM" }
    } else if i == 18 {
        SimStation { call: "ZL2ABC", name: "NEIL", qth: "AUCKLAND", country: "ZL", dok: "NM" }
    } else if i == 19 {
        SimStation { call: "HB9ABC", name: "BEAT", qth: "ZURICH", country: "HB9", dok: "NM" }
    } else if i == 20 {
        SimStation { call: "OK2XYZ", name: "JIRI", qth: "BRNO", country: "OK", dok: "NM" }
    } else if i == 21 {
        SimStation { call: "YL3ABC", name: "JANIS", qth: "RIGA", country: "YL", dok: "NM" }
    } else if i == 22 {
        SimStation { call: "LY5T", name: "TOMAS", qth: "VILNIUS", country: "LY", dok: "NM" }
    } else if i == 23 {
        SimStation { call: "ES5TV", name: "TONNO", qth: "TALLINN", country: "ES", dok: "NM" }
    } else if i == 24 {
        SimStation { call: "OH2BH", name: "MARTTI", qth: "HELSINKI", country: "OH", dok: "NM" }
    } else if i == 25 {
        SimStation { call: "LA5YJ", name: "BJORN", qth: "OSLO", country: "LA", dok: "NM" }
    } else if i == 26 {
        SimStation { call: "OZ5E", name: "FLEMMING", qth: "COPENHAGEN", country: "OZ", dok: "NM" }
    } else if i == 27 {
        SimStation { call: "EI5DI", name: "SEAN", qth: "DUBLIN", country: "EI", dok: "NM" }
    } else if i == 28 {
        SimStation { call: "GM4ZUK", name: "ANGUS", qth: "EDINBURGH", country: "GM", dok: "NM" }
    } else {
        SimStation { call: "TF3CW", name: "SIGGI", qth: "REYKJAVIK", country: "TF", dok: "NM" }
    }
}

/// A station drawn from the whole pool.
pub fn random_station() -> (r: (usize, SimStation))
    ensures
        0 <= r.0 < spec_station_count(),
        r.1.call@ == spec_station(r.0 as int).call@,
        r.1.name@ == spec_station(r.0 as int).name@,
        r.1.qth@ == spec_station(r.0 as int).qth@,
        r.1.country@ == spec_station(r.0 as int).country@,
        r.1.dok@ == spec_station(r.0 as int).dok@,
{
    let i = rand_below(30);
    (i, station_at(i))
}

/// A German station, as the DARC contest requires: one of the `DL`
/// entries at the front of the pool.
pub fn random_dl_station() -> (r: (usize, SimStation))
    ensures
        0 <= r.0 < spec_dl_station_count(),
        r.1.call@ == spec_station(r.0 as int).call@,
        r.1.name@ == spec_station(r.0 as int).name@,
        r.1.qth@ == spec_station(r.0 as int).qth@,
        r.1.country@ == spec_station(r.0 as int).country@,
        r.1.dok@ == spec_station(r.0 as int).dok@,
{
    let i = rand_below(3);
    (i, station_at(i))
}

/// The RST report at one index of its table.
pub open spec fn spec_rst(i: int) -> &'static str {
    if i == 0 {
        "559"
    } else if i == 1 {
        "569"
    } else if i == 2 {
        "579"
    } else if i == 3 {
        "589"
    } else if i == 4 {
        "599"
    } else if i == 5 {
        "459"
    } else if i == 6 {
        "469"
    } else if i == 7 {
        "479"
    } else {
        "489"
    }
}

/// The rig description at one index of its table.
pub open spec fn spec_rig(i: int) -> &'static str {
    if i == 0 {
        "IC 7300"
    } else if i == 1 {
        "IC 7610"
    } else if i == 2 {
        "FT 991A"
    } else if i == 3 {
        "FT 857"
    } else if i == 4 {
        "TS 590"
    } else if i == 5 {
        "TS 890"
    } else if i == 6 {
        "K3"
    } else if i == 7 {
        "KX3"
    } else if i == 8 {
        "X6100"
    } else {
        "ELECRAFT K4"
    }
}

/// The antenna description at one index of its table.
pub open spec fn spec_ant(i: int) -> &'static str {
    if i == 0 {
        "DIPOLE"
    } else if i == 1 {
        "YAGI"
    } else if i == 2 {
        "VERTICAL"
    } else if i == 3 {
        "LOOP"
    } else if i == 4 {
        "BEAM"
    } else if i == 5 {
        "WINDOM"
    } else {
        "DELTA LOOP"
    }
}

/// The power level at one index of its table.
pub open spec fn spec_pwr(i: int) -> &'static str {
    if i == 0 {
        "5W"
    } else if i == 1 {
        "10W"
    } else if i == 2 {
        "50W"
    } else if i == 3 {
        "100W"
    } else if i == 4 {
        "200W"
    } else {
        "400W"
    }
}

/// An RST value realistic for CW.
pub fn random_rst() -> (r: &'static str)
    ensures
        exists|i: int| 0 <= i < 9 && r@ == #[trigger] spec_rst(i)@,
{
    let i = rand_below(9);
    let r =
    if i == 0 {
        "559"
    } else if i == 1 {
        "569"
    } else if i == 2 {
        "579"
    } else if i == 3 {
        "589"
    } else if i == 4 {
        "599"
    } else if i == 5 {
        "459"
    } else if i == 6 {
        "469"
    } else if i == 7 {
        "479"
    } else {
        "489"
    };
    proof {
        assert(r@ == spec_rst(i as int)@);
    }
    r
}

/// A rig description.
pub fn random_rig() -> (r: &'static str)
    ensures
        exists|i: int| 0 <= i < 10 && r@ == #[trigger] spec_rig(i)@,
{
    let i = rand_below(10);
    let r =
    if i == 0 {
        "IC 7300"
    } else if i == 1 {
        "IC 7610"
    } else if i == 2 {
        "FT 991A"
    } else if i == 3 {
        "FT 857"
    } else if i == 4 {
        "TS 590"
    } else if i == 5 {
        "TS 890"
    } else if i == 6 {
        "K3"
    } else if i == 7 {
        "KX3"
    } else if i == 8 {
        "X6100"
    } else {
        "ELECRAFT K4"
    };
    proof {
        assert(r@ == spec_rig(i as int)@);
    }
    r
}

/// An antenna description.
pub fn random_ant() -> (r: &'static str)
    ensures
        exists|i: int| 0 <= i < 7 && r@ == #[trigger] spec_ant(i)@,
{
    let i = rand_below(7);
    let r =
    if i == 0 {
        "DIPOLE"
    } else if i == 1 {
        "YAGI"
    } else if i == 2 {
        "VERTICAL"
    } else if i == 3 {
        "LOOP"
    } else if i == 4 {
        "BEAM"
    } else if i == 5 {
        "WINDOM"
    } else {
        "DELTA LOOP"
    };
    proof {
        assert(r@ == spec_ant(i as int)@);
    }
    r
}

/// A power level.
pub fn random_pwr() -> (r: &'static str)
    ensures
        exists|i: int| 0 <= i < 6 && r@ == #[trigger] spec_pwr(i)@,
{
    let i = rand_below(6);
    let r =
    if i == 0 {
        "5W"
    } else if i == 1 {
        "10W"
    } else if i == 2 {
        "50W"
    } else if i == 3 {
        "100W"
    } else if i == 4 {
        "200W"
    } else {
        "400W"
    };
    proof {
        assert(r@ == spec_pwr(i as int)@);
    }
    r
}

} // verus!
