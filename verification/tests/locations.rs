use tracert::geoip::{
    convert_to_geolocation, flag_for_uppercase_code, format_location_for_display, get_country_flag,
    CityInfo, GeoError, GeoIPService, GeoLocation, LocationTable,
};

fn city(country_code: &str) -> CityInfo {
    CityInfo {
        country_name: "中国".to_string(),
        region_name: "广东".to_string(),
        city_name: "深圳".to_string(),
        owner_domain: "owner.example".to_string(),
        isp_domain: "电信".to_string(),
        latitude: "22.54".to_string(),
        longitude: "114.06".to_string(),
        timezone: "Asia/Shanghai".to_string(),
        country_code: country_code.to_string(),
    }
}

fn location(city: &str, region: &str, country: &str, isp: &str) -> GeoLocation {
    let mut l = GeoLocation::default();
    l.city = city.to_string();
    l.region_name = region.to_string();
    l.country = country.to_string();
    l.isp = isp.to_string();
    l
}

#[test]
fn default_location_is_blank() {
    let l = GeoLocation::default();
    assert!(l.ip.is_empty() && l.country.is_empty() && l.country_code.is_empty());
    assert!(l.lat.is_empty() && l.lon.is_empty() && l.query.is_empty() && l.as_number.is_empty());
}

#[test]
fn copy_keeps_every_field() {
    let l = location("a", "b", "c", "d");
    let c = l.copy();
    assert_eq!(c.city, "a");
    assert_eq!(c.region_name, "b");
    assert_eq!(c.country, "c");
    assert_eq!(c.isp, "d");
}

#[test]
fn display_of_unknown_location() {
    assert_eq!(format_location_for_display(&GeoLocation::default()), "位置未知");
}

#[test]
fn display_joins_parts_in_order() {
    let l = location("深圳", "广东", "中国", "电信");
    assert_eq!(format_location_for_display(&l), "深圳, 广东, 中国, 电信");
}

#[test]
fn display_skips_empty_parts() {
    assert_eq!(format_location_for_display(&location("", "广东", "", "电信")), "广东, 电信");
    assert_eq!(format_location_for_display(&location("", "", "", "电信")), "电信");
}

#[test]
fn display_skips_placeholder_countries() {
    assert_eq!(format_location_for_display(&location("", "", "Unknown", "")), "位置未知");
    assert_eq!(format_location_for_display(&location("x", "", "Local Network", "")), "x");
    assert_eq!(format_location_for_display(&location("", "", "Unknown ", "")), "Unknown ");
}

#[test]
fn flags_ignore_case() {
    assert_eq!(get_country_flag("cn"), "🇨🇳");
    assert_eq!(get_country_flag("Us"), "🇺🇸");
    assert_eq!(get_country_flag("ae"), "🇦🇪");
}

#[test]
fn uk_and_gb_share_a_flag() {
    assert_eq!(get_country_flag("uk"), "🇬🇧");
    assert_eq!(get_country_flag("GB"), "🇬🇧");
}

#[test]
fn unknown_codes_get_a_globe() {
    assert_eq!(get_country_flag("zz"), "🌐");
    assert_eq!(get_country_flag(""), "🌐");
    assert_eq!(get_country_flag("114.06"), "🌐");
}

#[test]
fn uppercasing_follows_unicode() {
    // U+0131 (dotless i) upper-cases to an ASCII 'I'.
    assert_eq!(get_country_flag("\u{131}n"), "🇮🇳");
}

#[test]
fn table_lookup_needs_upper_case() {
    assert_eq!(flag_for_uppercase_code(&"cn".to_string()), "🌐");
    assert_eq!(flag_for_uppercase_code(&"CN".to_string()), "🇨🇳");
}

#[test]
fn conversion_from_city_record() {
    let l = convert_to_geolocation("1.2.3.4", &city("CN"));
    assert_eq!(l.ip, "1.2.3.4");
    assert_eq!(l.query, "1.2.3.4");
    assert_eq!(l.country, "中国");
    assert_eq!(l.country_code, "CN");
    assert_eq!(l.region, "广东");
    assert_eq!(l.region_name, "广东");
    assert_eq!(l.city, "深圳");
    assert_eq!(l.lat, "22.54");
    assert_eq!(l.lon, "114.06");
    assert_eq!(l.timezone, "Asia/Shanghai");
    assert_eq!(l.isp, "电信");
    assert_eq!(l.org, "owner.example");
    assert!(l.zip.is_empty() && l.as_number.is_empty());
}

#[test]
fn missing_country_code_becomes_xx() {
    assert_eq!(convert_to_geolocation("1.2.3.4", &city("")).country_code, "XX");
}

#[test]
fn table_insert_get_replace_clear() {
    let mut t = LocationTable::new();
    assert!(!t.contains_key("1.1.1.1"));
    assert!(t.get("1.1.1.1").is_none());
    t.insert("1.1.1.1".to_string(), location("a", "", "", ""));
    t.insert("2.2.2.2".to_string(), location("b", "", "", ""));
    assert!(t.contains_key("1.1.1.1"));
    assert_eq!(t.get("1.1.1.1").unwrap().city, "a");
    t.insert("1.1.1.1".to_string(), location("c", "", "", ""));
    assert_eq!(t.get("1.1.1.1").unwrap().city, "c");
    assert_eq!(t.get("2.2.2.2").unwrap().city, "b");
    let d = t.duplicate();
    t.clear();
    assert!(!t.contains_key("2.2.2.2"));
    assert_eq!(d.get("2.2.2.2").unwrap().city, "b");
}

#[test]
fn service_without_database() {
    let mut service = GeoIPService::new(None);
    assert!(matches!(service.get_location("8.8.8.8"), Err(GeoError::DatabaseMissing)));
    assert!(service.get_cached_location("8.8.8.8").is_none());
}


#[test]
fn error_messages() {
    assert_eq!(GeoError::DatabaseMissing.message(), "未找到本地IP数据库");
    assert_eq!(GeoError::LookupFailed("not found ip".to_string()).message(), "查询IP失败: not found ip");
}

#[test]
fn new_service_caches_nothing() {
    let service = GeoIPService::new(None);
    assert!(service.get_cached_location("1.2.3.4").is_none());
    assert!(service.get_cached_location("*").is_none());
}
