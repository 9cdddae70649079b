//! Places on earth, in whole millionths of a degree.

use crate::calendar::ShaumError;
use crate::civil::{timestamp_of_day, Date, DateTime};
use crate::text::{format_four_places, four_places, join, join_present, present};
use vstd::prelude::*;
use vstd::string::StringExecFns;

verus! {

/// A millionth of a degree is the unit of latitude and longitude.
pub const MICRODEGREES_PER_DEGREE: i32 = 1000000;

/// The latitude of the north pole.
pub const MAX_LATITUDE: i32 = 90000000;

/// The longitude of the date line, east.
pub const MAX_LONGITUDE: i32 = 180000000;

/// Whether the pair is a place on earth: a latitude from -90 to 90 degrees
/// and a longitude from -180 to 180 degrees.
pub open spec fn is_on_earth(lat: int, lng: int) -> bool {
    -MAX_LATITUDE <= lat <= MAX_LATITUDE && -MAX_LONGITUDE <= lng <= MAX_LONGITUDE
}

/// Geographic coordinate for sunset calculation: latitude and longitude in
/// millionths of a degree, north and east positive, and the altitude in
/// metres.
#[derive(Debug, Clone, Copy, PartialEq, Eq, Structural, Hash)]
pub struct GeoCoordinate {
    lat: i32,
    lng: i32,
    altitude: i32,
}

impl GeoCoordinate {
    /// Every coordinate is a place on earth.
    #[verifier::type_invariant]
    pub open spec fn is_valid(self) -> bool {
        is_on_earth(self.spec_lat() as int, self.spec_lng() as int)
    }

    /// The latitude in millionths of a degree.
    pub closed spec fn spec_lat(self) -> i32 {
        self.lat
    }

    /// The longitude in millionths of a degree.
    pub closed spec fn spec_lng(self) -> i32 {
        self.lng
    }

    /// The altitude in metres.
    pub closed spec fn spec_altitude(self) -> i32 {
        self.altitude
    }

    /// The text of the error for a pair that is no place on earth.
    pub open spec fn refusal() -> Seq<char> {
        "Coordinates outside [-90, 90] x [-180, 180] degrees"@
    }

    /// The place with the given latitude and longitude, in millionths of a
    /// degree, at sea level.
    pub fn new(lat: i32, lng: i32) -> (r: Result<GeoCoordinate, ShaumError>)
        ensures
            is_on_earth(lat as int, lng as int) ==> (r matches Ok(c) && c.spec_lat() == lat
                && c.spec_lng() == lng && c.spec_altitude() == 0),
            !is_on_earth(lat as int, lng as int) ==> (r matches Err(
                ShaumError::InvalidConfiguration { reason },
            ) && reason@ == GeoCoordinate::refusal()),
    {
        if -MAX_LATITUDE <= lat && lat <= MAX_LATITUDE && -MAX_LONGITUDE <= lng && lng
            <= MAX_LONGITUDE {
            Ok(GeoCoordinate { lat, lng, altitude: 0 })
        } else {
            Err(ShaumError::invalid_config("Coordinates outside [-90, 90] x [-180, 180] degrees"))
        }
    }

    /// The place with the given latitude and longitude, which the caller
    /// has found to be one.
    pub fn new_unchecked(lat: i32, lng: i32) -> (r: GeoCoordinate)
        requires
            is_on_earth(lat as int, lng as int),
        ensures
            r.spec_lat() == lat,
            r.spec_lng() == lng,
            r.spec_altitude() == 0,
    {
        GeoCoordinate { lat, lng, altitude: 0 }
    }

    /// The same place at the given altitude, in metres.
    pub fn with_altitude(self, altitude: i32) -> (r: GeoCoordinate)
        ensures
            r.spec_lat() == self.spec_lat(),
            r.spec_lng() == self.spec_lng(),
            r.spec_altitude() == altitude,
    {
        proof {
            use_type_invariant(&self);
        }
        GeoCoordinate { lat: self.lat, lng: self.lng, altitude }
    }

    /// The latitude in millionths of a degree.
    pub fn lat(&self) -> (r: i32)
        ensures
            r == self.spec_lat(),
            -MAX_LATITUDE <= r <= MAX_LATITUDE,
    {
        proof {
            use_type_invariant(self);
        }
        self.lat
    }

    /// The longitude in millionths of a degree.
    pub fn lng(&self) -> (r: i32)
        ensures
            r == self.spec_lng(),
            -MAX_LONGITUDE <= r <= MAX_LONGITUDE,
    {
        proof {
            use_type_invariant(self);
        }
        self.lng
    }

    /// The altitude in metres.
    pub fn altitude(&self) -> (r: i32)
        ensures
            r == self.spec_altitude(),
    {
        self.altitude
    }

    /// By how many seconds the local mean time of the place is ahead of UTC:
    /// four minutes for each degree east, cut to whole seconds.
    pub fn mean_time_offset(&self) -> (r: i64)
        ensures
            r == mean_time_offset(self.spec_lng() as int),
            -43200 <= r <= 43200,
    {
        let lng = self.lng() as i64;
        if lng >= 0 {
            lng * 240 / 1000000
        } else {
            -((-lng) * 240 / 1000000)
        }
    }
}

/// By how many seconds the local mean time at a longitude is ahead of UTC:
/// four minutes for each degree east, cut to whole seconds.
pub open spec fn mean_time_offset(lng: int) -> int {
    if lng >= 0 {
        lng * 240 / 1000000
    } else {
        -((-lng) * 240 / 1000000)
    }
}

/// The timestamp of 18 o'clock local mean time of the day with number `day`
/// at a longitude: eighteen hours after the start of the day in UTC, less
/// four minutes for each degree east, cut to whole seconds.
pub open spec fn simple_sunset(day: int, lng: int) -> int {
    timestamp_of_day(day) + (64800000000 - 240 * lng) / 1000000
}

/// Interface for calculating sunset time.
pub trait SunsetCalculator {
    /// Returns the sunset timestamp for a given date and coordinate.
    /// If calculation fails, returns None.
    fn get_sunset(&self, date: Date, coords: GeoCoordinate) -> (r: Option<DateTime>)
    ;
}

/// Placeholder sunset calculator (assumes 18:00 Local Mean Time approx).
#[derive(Debug, Default, Clone, Copy)]
pub struct SimpleSunsetCalculator;

impl SunsetCalculator for SimpleSunsetCalculator {
    /// 18 o'clock local mean time of the day, or `None` where that instant
    /// lies past the end of the calendar.
    fn get_sunset(&self, date: Date, coords: GeoCoordinate) -> (r: Option<DateTime>)
        ensures
            match r {
                Some(t) => t.secs() == simple_sunset(date@, coords.spec_lng() as int) && t.nanos()
                    == 0,
                None => simple_sunset(date@, coords.spec_lng() as int) > crate::civil::MAX_TIMESTAMP
                    || simple_sunset(date@, coords.spec_lng() as int)
                    < crate::civil::MIN_TIMESTAMP,
            },
    {
        let midnight = date.and_hms_opt(0, 0, 0).unwrap();
        let after_midnight: i64 = (64800000000 - 240 * (coords.lng() as i64)) / 1000000;
        midnight.checked_add_seconds(after_midnight)
    }
}

/// What a text says, where it is there.
pub open spec fn text_of(part: Option<String>) -> Option<Seq<char>> {
    match part {
        Some(text) => Some(text@),
        None => None,
    }
}

/// The coordinates as text: latitude and longitude in degrees with four
/// decimal places.
pub open spec fn coordinates_text(coords: GeoCoordinate) -> Seq<char> {
    four_places(coords.spec_lat() as int) + "\u{b0}, "@ + four_places(coords.spec_lng() as int)
        + "\u{b0}"@
}

/// Location information with coordinates and place name.
#[derive(Debug)]
pub struct LocationInfo {
    /// Geographic coordinates.
    pub coords: GeoCoordinate,
    /// City name (if available).
    pub city: Option<String>,
    /// Region/Province name (if available).
    pub region: Option<String>,
    /// Country name (if available).
    pub country: Option<String>,
}

/// A copy of a text, where it is there.
fn copy_of(part: &Option<String>) -> (r: Option<String>)
    ensures
        text_of(r) == text_of(*part),
{
    match part {
        Some(text) => Some(text.clone()),
        None => None,
    }
}

impl LocationInfo {
    /// The names that are known, from the city to the country.
    pub open spec fn names(&self) -> Seq<Seq<char>> {
        present(seq![text_of(self.city), text_of(self.region), text_of(self.country)])
    }

    /// The text of [`LocationInfo::display_name`].
    pub open spec fn spec_display_name(&self) -> Seq<char> {
        if self.names().len() == 0 {
            coordinates_text(self.coords)
        } else {
            join(self.names(), ", "@)
        }
    }

    /// Returns formatted location string (e.g., "Yogyakarta, Daerah Istimewa
    /// Yogyakarta, Indonesia"): the names that are known, and the
    /// coordinates where none is.
    pub fn display_name(&self) -> (r: String)
        ensures
            r@ == self.spec_display_name(),
    {
        let mut parts: Vec<Option<String>> = Vec::new();
        parts.push(copy_of(&self.city));
        parts.push(copy_of(&self.region));
        parts.push(copy_of(&self.country));
        assert(crate::text::texts_of(parts@) == seq![
            text_of(self.city),
            text_of(self.region),
            text_of(self.country),
        ]);
        let has_name = self.city.is_some() || self.region.is_some() || self.country.is_some();
        proof {
            lemma_present_is_empty(crate::text::texts_of(parts@));
        }
        if has_name {
            join_present(&parts, ", ")
        } else {
            let mut out = format_four_places(self.coords.lat());
            out.append("\u{b0}, ");
            out.append(format_four_places(self.coords.lng()).as_str());
            out.append("\u{b0}");
            out
        }
    }
}

/// Nothing is present exactly where every part is missing.
pub proof fn lemma_present_is_empty(parts: Seq<Option<Seq<char>>>)
    ensures
        present(parts).len() == 0 <==> forall|i: int| 0 <= i < parts.len() ==> parts[i] is None,
    decreases parts.len(),
{
    if parts.len() > 0 {
        lemma_present_is_empty(parts.drop_last());
        if forall|i: int| 0 <= i < parts.len() ==> parts[i] is None {
            assert forall|i: int| 0 <= i < parts.drop_last().len() implies parts.drop_last()[i]
                is None by {
                assert(parts.drop_last()[i] == parts[i]);
            }
        } else if parts.last() is None {
            let i = choose|i: int| 0 <= i < parts.len() && !(parts[i] is None);
            assert(parts.drop_last()[i] == parts[i]);
        }
    }
}

/// Detailed location info with Indonesian administrative divisions.
#[derive(Debug)]
pub struct DetailedLocationInfo {
    /// Geographic coordinates.
    pub coords: GeoCoordinate,
    /// Kelurahan/Desa (village).
    pub kelurahan: Option<String>,
    /// Kecamatan (district).
    pub kecamatan: Option<String>,
    /// Kabupaten/Kota (regency/city).
    pub kabupaten: Option<String>,
    /// Provinsi (province).
    pub provinsi: Option<String>,
    /// Country name.
    pub country: Option<String>,
    /// Full formatted address.
    pub display_name: String,
}

/// The first of the parts that is there.
pub open spec fn first_present(parts: Seq<Option<Seq<char>>>) -> Option<Seq<char>>
    decreases parts.len(),
{
    if parts.len() == 0 {
        None
    } else if parts[0] is Some {
        parts[0]
    } else {
        first_present(parts.drop_first())
    }
}

/// The first of the two texts that is there.
fn either(first: Option<String>, second: Option<String>) -> (r: Option<String>)
    ensures
        text_of(r) == first_present(seq![text_of(first), text_of(second)]),
{
    proof {
        reveal_with_fuel(first_present, 3);
    }
    match first {
        Some(text) => Some(text),
        None => second,
    }
}

/// The parts of an address as a geocoder names them.
#[derive(Debug)]
pub struct Address {
    pub village: Option<String>,
    pub suburb: Option<String>,
    pub neighbourhood: Option<String>,
    pub county: Option<String>,
    pub municipality: Option<String>,
    pub city_district: Option<String>,
    pub city: Option<String>,
    pub town: Option<String>,
    pub province: Option<String>,
    pub country: Option<String>,
}

impl DetailedLocationInfo {
    /// The divisions of a place from the parts of its address: the
    /// kelurahan is the village, else the suburb, else the neighbourhood;
    /// the kecamatan is the county, else the municipality, else the city
    /// district; the kabupaten is the city, else the town.
    pub fn from_address(coords: GeoCoordinate, display_name: String, address: Address) -> (r:
        DetailedLocationInfo)
        ensures
            r.coords == coords,
            r.display_name == display_name,
            text_of(r.kelurahan) == first_present(
                seq![
                    text_of(address.village),
                    text_of(address.suburb),
                    text_of(address.neighbourhood),
                ],
            ),
            text_of(r.kecamatan) == first_present(
                seq![
                    text_of(address.county),
                    text_of(address.municipality),
                    text_of(address.city_district),
                ],
            ),
            text_of(r.kabupaten) == first_present(
                seq![text_of(address.city), text_of(address.town)],
            ),
            r.provinsi == address.province,
            r.country == address.country,
    {
        proof {
            reveal_with_fuel(first_present, 4);
        }
        let ghost parts = seq![
            text_of(address.village),
            text_of(address.suburb),
            text_of(address.neighbourhood),
        ];
        let ghost districts = seq![
            text_of(address.county),
            text_of(address.municipality),
            text_of(address.city_district),
        ];
        assert(parts.drop_first() == seq![text_of(address.suburb), text_of(address.neighbourhood)]);
        assert(districts.drop_first() == seq![
            text_of(address.municipality),
            text_of(address.city_district),
        ]);
        DetailedLocationInfo {
            coords,
            kelurahan: either(address.village, either(address.suburb, address.neighbourhood)),
            kecamatan: either(address.county, either(address.municipality, address.city_district)),
            kabupaten: either(address.city, address.town),
            provinsi: address.province,
            country: address.country,
            display_name,
        }
    }

    /// The district with its title, where it is known.
    pub open spec fn titled_kecamatan(&self) -> Option<Seq<char>> {
        match self.kecamatan {
            Some(name) => Some("Kec. "@ + name@),
            None => None,
        }
    }

    /// The divisions that are known, from the village to the province.
    pub open spec fn divisions(&self) -> Seq<Seq<char>> {
        present(
            seq![
                text_of(self.kelurahan),
                self.titled_kecamatan(),
                text_of(self.kabupaten),
                text_of(self.provinsi),
            ],
        )
    }

    /// The text of [`DetailedLocationInfo::alamat_lengkap`].
    pub open spec fn spec_alamat_lengkap(&self) -> Seq<char> {
        if self.divisions().len() == 0 {
            self.display_name@
        } else {
            join(self.divisions(), ", "@)
        }
    }

    /// Returns formatted Indonesian-style address: the divisions that are
    /// known, and the full address where none is.
    pub fn alamat_lengkap(&self) -> (r: String)
        ensures
            r@ == self.spec_alamat_lengkap(),
    {
        let titled = match &self.kecamatan {
            Some(name) => {
                let mut text = String::from_str("Kec. ");
                text.append(name.as_str());
                Some(text)
            },
            None => None,
        };
        let has_division = self.kelurahan.is_some() || self.kecamatan.is_some()
            || self.kabupaten.is_some() || self.provinsi.is_some();
        let mut parts: Vec<Option<String>> = Vec::new();
        parts.push(copy_of(&self.kelurahan));
        parts.push(titled);
        parts.push(copy_of(&self.kabupaten));
        parts.push(copy_of(&self.provinsi));
        assert(crate::text::texts_of(parts@) == seq![
            text_of(self.kelurahan),
            self.titled_kecamatan(),
            text_of(self.kabupaten),
            text_of(self.provinsi),
        ]);
        proof {
            lemma_present_is_empty(crate::text::texts_of(parts@));
        }
        if has_division {
            join_present(&parts, ", ")
        } else {
            self.display_name.clone()
        }
    }
}

} // verus!
