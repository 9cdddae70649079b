use shaum::text::{format_four_places, join_present};
use shaum::{
    Address, Date, DetailedLocationInfo, GeoCoordinate, LocationInfo, ShaumError,
    SimpleSunsetCalculator, SunsetCalculator,
};

#[test]
fn coordinates_are_validated() {
    let jakarta = GeoCoordinate::new(-6_208_800, 106_845_600).unwrap();
    assert_eq!(jakarta.lat(), -6_208_800);
    assert_eq!(jakarta.lng(), 106_845_600);
    assert_eq!(jakarta.altitude(), 0);
    assert!(GeoCoordinate::new(90_000_000, 180_000_000).is_ok());
    assert!(GeoCoordinate::new(-90_000_000, -180_000_000).is_ok());
    assert!(GeoCoordinate::new(0, 0).is_ok());
    for (lat, lng) in [
        (90_000_001, 0),
        (-90_000_001, 0),
        (0, 180_000_001),
        (0, -180_000_001),
        (i32::MAX, 0),
        (0, i32::MIN),
    ] {
        match GeoCoordinate::new(lat, lng) {
            Err(ShaumError::InvalidConfiguration { reason }) => {
                assert_eq!(reason, "Coordinates outside [-90, 90] x [-180, 180] degrees")
            }
            _ => panic!("({}, {}) was accepted", lat, lng),
        }
    }
    let unchecked = GeoCoordinate::new_unchecked(-7_819_500, 110_361_000);
    assert_eq!(unchecked.lat(), -7_819_500);
    assert_eq!(unchecked.lng(), 110_361_000);
    let high = unchecked.with_altitude(768);
    assert_eq!(high.altitude(), 768);
    assert_eq!(high.lat(), -7_819_500);
    assert_eq!(high.lng(), 110_361_000);
    assert_eq!(unchecked.altitude(), 0);
}

#[test]
fn local_mean_time() {
    assert_eq!(GeoCoordinate::new(0, 106_845_600).unwrap().mean_time_offset(), 25642);
    assert_eq!(GeoCoordinate::new(0, -74_006_000).unwrap().mean_time_offset(), -17761);
    assert_eq!(GeoCoordinate::new(0, 0).unwrap().mean_time_offset(), 0);
    assert_eq!(GeoCoordinate::new(0, 15_000_000).unwrap().mean_time_offset(), 3600);
    assert_eq!(GeoCoordinate::new(0, 180_000_000).unwrap().mean_time_offset(), 43200);
    assert_eq!(GeoCoordinate::new(0, -180_000_000).unwrap().mean_time_offset(), -43200);
    assert_eq!(GeoCoordinate::new(0, 4_166).unwrap().mean_time_offset(), 0);
    assert_eq!(GeoCoordinate::new(0, 4_167).unwrap().mean_time_offset(), 1);
    assert_eq!(GeoCoordinate::new(0, -4_167).unwrap().mean_time_offset(), -1);
}

#[test]
fn simple_sunset_is_six_in_the_evening_local_mean_time() {
    let date = Date::from_ymd_opt(2024, 3, 15).unwrap();
    let midnight = date.and_hms_opt(0, 0, 0).unwrap().timestamp();
    assert_eq!(midnight, 1_710_460_800);
    let calc = SimpleSunsetCalculator;
    let greenwich = GeoCoordinate::new(51_477_900, 0).unwrap();
    assert_eq!(calc.get_sunset(date, greenwich).unwrap().timestamp(), midnight + 64800);
    let jakarta = GeoCoordinate::new(-6_208_800, 106_845_600).unwrap();
    assert_eq!(calc.get_sunset(date, jakarta).unwrap().timestamp(), 1_710_499_957);
    let new_york = GeoCoordinate::new(40_712_800, -74_006_000).unwrap();
    assert_eq!(calc.get_sunset(date, new_york).unwrap().timestamp(), midnight + 64800 + 17761);
    assert_eq!(calc.get_sunset(date, jakarta).unwrap().timestamp_subsec_nanos(), 0);
    let last = Date::from_num_days_from_ce_opt(shaum::civil::MAX_DAY_NUMBER).unwrap();
    let west = GeoCoordinate::new(0, -180_000_000).unwrap();
    assert!(calc.get_sunset(last, west).is_none());
    assert!(calc.get_sunset(last, greenwich).is_some());
}

#[test]
fn test_location_info_display_name() {
    let info = LocationInfo {
        coords: GeoCoordinate::new_unchecked(-6_208_800, 106_845_600),
        city: Some("Jakarta".to_string()),
        region: Some("DKI Jakarta".to_string()),
        country: Some("Indonesia".to_string()),
    };
    assert_eq!(info.display_name(), "Jakarta, DKI Jakarta, Indonesia");
}

#[test]
fn test_location_info_display_name_coords_only() {
    let info = LocationInfo {
        coords: GeoCoordinate::new_unchecked(-6_208_800, 106_845_600),
        city: None,
        region: None,
        country: None,
    };
    assert!(info.display_name().contains("-6.2088"));
    assert_eq!(info.display_name(), "-6.2088\u{b0}, 106.8456\u{b0}");
}

#[test]
fn display_name_leaves_out_what_is_not_known() {
    let coords = GeoCoordinate::new_unchecked(-6_208_800, 106_845_600);
    let some = |s: &str| Some(s.to_string());
    let name = |city: Option<String>, region: Option<String>, country: Option<String>| {
        LocationInfo { coords, city, region, country }.display_name()
    };
    assert_eq!(name(some("Jakarta"), None, some("Indonesia")), "Jakarta, Indonesia");
    assert_eq!(name(None, some("DKI Jakarta"), None), "DKI Jakarta");
    assert_eq!(name(None, None, some("Indonesia")), "Indonesia");
    assert_eq!(name(some("Jakarta"), None, None), "Jakarta");
    assert_eq!(name(None, some("DKI Jakarta"), some("Indonesia")), "DKI Jakarta, Indonesia");
    assert_eq!(name(some(""), None, None), "");
}

#[test]
fn four_decimal_places() {
    assert_eq!(format_four_places(-6_208_800), "-6.2088");
    assert_eq!(format_four_places(106_845_600), "106.8456");
    assert_eq!(format_four_places(0), "0.0000");
    assert_eq!(format_four_places(1), "0.0000");
    assert_eq!(format_four_places(49), "0.0000");
    assert_eq!(format_four_places(50), "0.0001");
    assert_eq!(format_four_places(-49), "-0.0000");
    assert_eq!(format_four_places(-50), "-0.0001");
    assert_eq!(format_four_places(999_950), "1.0000");
    assert_eq!(format_four_places(999_949), "0.9999");
    assert_eq!(format_four_places(90_000_000), "90.0000");
    assert_eq!(format_four_places(-180_000_000), "-180.0000");
    assert_eq!(format_four_places(5_001_200), "5.0012");
    assert_eq!(format_four_places(i32::MAX), "2147.4836");
    assert_eq!(format_four_places(i32::MIN), "-2147.4836");
}

#[test]
fn joining_what_is_there() {
    let some = |s: &str| Some(s.to_string());
    assert_eq!(join_present(&vec![], ", "), "");
    assert_eq!(join_present(&vec![None, None], ", "), "");
    assert_eq!(join_present(&vec![some("a")], ", "), "a");
    assert_eq!(join_present(&vec![some("a"), None, some("b"), some("c"), None], "-"), "a-b-c");
    assert_eq!(join_present(&vec![None, some("b")], ", "), "b");
}

#[test]
fn indonesian_address() {
    let coords = GeoCoordinate::new_unchecked(-7_819_500, 110_361_000);
    let some = |s: &str| Some(s.to_string());
    let full = DetailedLocationInfo {
        coords,
        kelurahan: some("Panembahan"),
        kecamatan: some("Kraton"),
        kabupaten: some("Yogyakarta"),
        provinsi: some("Daerah Istimewa Yogyakarta"),
        country: some("Indonesia"),
        display_name: "Kraton, Yogyakarta, Indonesia".to_string(),
    };
    assert_eq!(
        full.alamat_lengkap(),
        "Panembahan, Kec. Kraton, Yogyakarta, Daerah Istimewa Yogyakarta"
    );
    let only_district = DetailedLocationInfo {
        coords,
        kelurahan: None,
        kecamatan: some("Kraton"),
        kabupaten: None,
        provinsi: None,
        country: some("Indonesia"),
        display_name: "Kraton, Indonesia".to_string(),
    };
    assert_eq!(only_district.alamat_lengkap(), "Kec. Kraton");
    let without_district = DetailedLocationInfo {
        coords,
        kelurahan: some("Panembahan"),
        kecamatan: None,
        kabupaten: None,
        provinsi: some("Daerah Istimewa Yogyakarta"),
        country: None,
        display_name: "somewhere".to_string(),
    };
    assert_eq!(without_district.alamat_lengkap(), "Panembahan, Daerah Istimewa Yogyakarta");
    let nothing = DetailedLocationInfo {
        coords,
        kelurahan: None,
        kecamatan: None,
        kabupaten: None,
        provinsi: None,
        country: some("Indonesia"),
        display_name: "Jalan Malioboro, Indonesia".to_string(),
    };
    assert_eq!(nothing.alamat_lengkap(), "Jalan Malioboro, Indonesia");
}

fn address(parts: [Option<&str>; 10]) -> Address {
    let own = |p: Option<&str>| p.map(|s| s.to_string());
    Address {
        village: own(parts[0]),
        suburb: own(parts[1]),
        neighbourhood: own(parts[2]),
        county: own(parts[3]),
        municipality: own(parts[4]),
        city_district: own(parts[5]),
        city: own(parts[6]),
        town: own(parts[7]),
        province: own(parts[8]),
        country: own(parts[9]),
    }
}

#[test]
fn divisions_from_an_address() {
    let coords = GeoCoordinate::new_unchecked(-7_819_500, 110_361_000);
    let all = DetailedLocationInfo::from_address(
        coords,
        "full".to_string(),
        address([
            Some("v"),
            Some("s"),
            Some("n"),
            Some("c"),
            Some("m"),
            Some("d"),
            Some("city"),
            Some("town"),
            Some("p"),
            Some("id"),
        ]),
    );
    assert_eq!(all.coords, coords);
    assert_eq!(all.display_name, "full");
    assert_eq!(all.kelurahan.as_deref(), Some("v"));
    assert_eq!(all.kecamatan.as_deref(), Some("c"));
    assert_eq!(all.kabupaten.as_deref(), Some("city"));
    assert_eq!(all.provinsi.as_deref(), Some("p"));
    assert_eq!(all.country.as_deref(), Some("id"));
    let second = DetailedLocationInfo::from_address(
        coords,
        "full".to_string(),
        address([None, Some("s"), Some("n"), None, Some("m"), Some("d"), None, Some("town"), None, None]),
    );
    assert_eq!(second.kelurahan.as_deref(), Some("s"));
    assert_eq!(second.kecamatan.as_deref(), Some("m"));
    assert_eq!(second.kabupaten.as_deref(), Some("town"));
    assert_eq!(second.provinsi, None);
    assert_eq!(second.country, None);
    let third = DetailedLocationInfo::from_address(
        coords,
        "full".to_string(),
        address([None, None, Some("n"), None, None, Some("d"), None, None, None, None]),
    );
    assert_eq!(third.kelurahan.as_deref(), Some("n"));
    assert_eq!(third.kecamatan.as_deref(), Some("d"));
    assert_eq!(third.kabupaten, None);
    let none = DetailedLocationInfo::from_address(coords, "full".to_string(), address([None; 10]));
    assert_eq!(none.kelurahan, None);
    assert_eq!(none.kecamatan, None);
    assert_eq!(none.kabupaten, None);
    assert_eq!(none.alamat_lengkap(), "full");
}
