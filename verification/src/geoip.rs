use ipdb::Reader;
use vstd::prelude::*;

verus! {

/// Where an address is, as the location database describes it.
#[derive(Debug, Clone)]
pub struct GeoLocation {
    pub ip: String,
    pub country: String,
    pub country_code: String,
    pub region: String,
    pub region_name: String,
    pub city: String,
    pub zip: String,
    pub lat: String,
    pub lon: String,
    pub timezone: String,
    pub isp: String,
    pub org: String,
    pub as_number: String,
    pub query: String,
}

/// The text of every field of a `GeoLocation`.
pub struct GeoLocationView {
    pub ip: Seq<char>,
    pub country: Seq<char>,
    pub country_code: Seq<char>,
    pub region: Seq<char>,
    pub region_name: Seq<char>,
    pub city: Seq<char>,
    pub zip: Seq<char>,
    pub lat: Seq<char>,
    pub lon: Seq<char>,
    pub timezone: Seq<char>,
    pub isp: Seq<char>,
    pub org: Seq<char>,
    pub as_number: Seq<char>,
    pub query: Seq<char>,
}

impl View for GeoLocation {
    type V = GeoLocationView;

    open spec fn view(&self) -> GeoLocationView {
        GeoLocationView {
            ip: self.ip@,
            country: self.country@,
            country_code: self.country_code@,
            region: self.region@,
            region_name: self.region_name@,
            city: self.city@,
            zip: self.zip@,
            lat: self.lat@,
            lon: self.lon@,
            timezone: self.timezone@,
            isp: self.isp@,
            org: self.org@,
            as_number: self.as_number@,
            query: self.query@,
        }
    }
}

/// A location all of whose fields are empty.
pub open spec fn blank_location() -> GeoLocationView {
    GeoLocationView {
        ip: Seq::empty(),
        country: Seq::empty(),
        country_code: Seq::empty(),
        region: Seq::empty(),
        region_name: Seq::empty(),
        city: Seq::empty(),
        zip: Seq::empty(),
        lat: Seq::empty(),
        lon: Seq::empty(),
        timezone: Seq::empty(),
        isp: Seq::empty(),
        org: Seq::empty(),
        as_number: Seq::empty(),
        query: Seq::empty(),
    }
}

impl Default for GeoLocation {
    fn default() -> (location: Self)
        ensures
            location@ == blank_location(),
    {
        GeoLocation {
            ip: String::new(),
            country: String::new(),
            country_code: String::new(),
            region: String::new(),
            region_name: String::new(),
            city: String::new(),
            zip: String::new(),
            lat: String::new(),
            lon: String::new(),
            timezone: String::new(),
            isp: String::new(),
            org: String::new(),
            as_number: String::new(),
            query: String::new(),
        }
    }
}

impl GeoLocation {
    /// A copy of this location.
    pub fn copy(&self) -> (location: Self)
        ensures
            location == *self,
    {
        GeoLocation {
            ip: self.ip.clone(),
            country: self.country.clone(),
            country_code: self.country_code.clone(),
            region: self.region.clone(),
            region_name: self.region_name.clone(),
            city: self.city.clone(),
            zip: self.zip.clone(),
            lat: self.lat.clone(),
            lon: self.lon.clone(),
            timezone: self.timezone.clone(),
            isp: self.isp.clone(),
            org: self.org.clone(),
            as_number: self.as_number.clone(),
            query: self.query.clone(),
        }
    }
}

/// The non-empty parts of a location that are shown, in order: city,
/// region, country (unless it says "Unknown" or "Local Network"), ISP.
pub open spec fn location_parts(l: GeoLocationView) -> Seq<Seq<char>> {
    (if l.city.len() > 0 { seq![l.city] } else { Seq::empty() })
    + (if l.region_name.len() > 0 { seq![l.region_name] } else { Seq::empty() })
    + (if l.country.len() > 0 && l.country != "Unknown"@ && l.country != "Local Network"@ {
        seq![l.country]
    } else {
        Seq::empty()
    })
    + (if l.isp.len() > 0 { seq![l.isp] } else { Seq::empty() })
}

/// `parts` joined by `sep`.
pub open spec fn join_with(parts: Seq<Seq<char>>, sep: Seq<char>) -> Seq<char>
    decreases parts.len(),
{
    if parts.len() == 0 {
        Seq::empty()
    } else if parts.len() == 1 {
        parts[0]
    } else {
        join_with(parts.drop_last(), sep) + sep + parts.last()
    }
}

/// The text shown for "location unknown".
pub open spec fn unknown_location_text() -> Seq<char> {
    "位置未知"@
}

/// The one-line description of a location: its shown parts joined by
/// ", ", or the "location unknown" text when none is shown.
pub open spec fn location_text(l: GeoLocationView) -> Seq<char> {
    let parts = location_parts(l);
    if parts.len() == 0 {
        unknown_location_text()
    } else {
        join_with(parts, ", "@)
    }
}

proof fn lemma_join_nonempty(parts: Seq<Seq<char>>, sep: Seq<char>)
    requires
        parts.len() > 0,
        forall|i: int| 0 <= i < parts.len() ==> parts[i].len() > 0,
    ensures
        join_with(parts, sep).len() > 0,
    decreases parts.len(),
{
    if parts.len() > 1 {
        lemma_join_nonempty(parts.drop_last(), sep);
    }
}

/// The description of a location is never empty.
pub proof fn lemma_location_text_nonempty(l: GeoLocationView)
    ensures
        location_text(l).len() > 0,
{
    reveal_strlit("位置未知");
    let parts = location_parts(l);
    if parts.len() > 0 {
        assert forall|i: int| 0 <= i < parts.len() implies parts[i].len() > 0 by {}
        lemma_join_nonempty(parts, ", "@);
    }
}

/// A country that is shown: non-empty and not a placeholder.
pub open spec fn shown_country(k: Seq<char>) -> bool {
    k.len() > 0 && k != "Unknown"@ && k != "Local Network"@
}

/// With city, region and a shown country, the description is
/// "city, region, country", followed by ", ISP" when there is an ISP.
pub proof fn lemma_location_text_of_full_location(l: GeoLocationView)
    requires
        l.city.len() > 0,
        l.region_name.len() > 0,
        shown_country(l.country),
    ensures
        location_text(l) == l.city + ", "@ + l.region_name + ", "@ + l.country + (if l.isp.len() > 0 {
            ", "@ + l.isp
        } else {
            Seq::empty()
        }),
{
    let sep = ", "@;
    let parts = location_parts(l);
    let three = seq![l.city, l.region_name, l.country];
    assert(join_with(seq![l.city], sep) == l.city);
    assert(seq![l.city, l.region_name].drop_last() =~= seq![l.city]);
    assert(join_with(seq![l.city, l.region_name], sep) == l.city + sep + l.region_name);
    assert(three.drop_last() =~= seq![l.city, l.region_name]);
    assert(join_with(three, sep) == l.city + sep + l.region_name + sep + l.country);
    if l.isp.len() > 0 {
        assert(parts =~= three.push(l.isp));
        assert(parts.drop_last() =~= three);
        assert(join_with(parts, sep) == join_with(three, sep) + sep + l.isp);
        assert(location_text(l) =~= l.city + sep + l.region_name + sep + l.country + (sep + l.isp));
    } else {
        assert(parts =~= three);
        assert(location_text(l) =~= l.city + sep + l.region_name + sep + l.country + Seq::<char>::empty());
    }
}

/// Each part depends on its own field alone: a non-empty city or region,
/// a shown country and a non-empty ISP each appear among the parts, and
/// the ISP only ever adds the last part.
pub proof fn lemma_location_parts_independent(l: GeoLocationView)
    ensures
        l.city.len() > 0 ==> location_parts(l)[0] == l.city,
        l.region_name.len() > 0 ==> exists|i: int| 0 <= i < location_parts(l).len() && location_parts(l)[i] == l.region_name,
        shown_country(l.country) ==> exists|i: int| 0 <= i < location_parts(l).len() && location_parts(l)[i] == l.country,
        l.isp.len() > 0 ==> location_parts(l).last() == l.isp,
        location_parts(l) == location_parts(GeoLocationView { isp: Seq::empty(), ..l }) + (if l.isp.len() > 0 {
            seq![l.isp]
        } else {
            Seq::empty()
        }),
{
    let a: Seq<Seq<char>> = if l.city.len() > 0 { seq![l.city] } else { Seq::empty() };
    let b: Seq<Seq<char>> = if l.region_name.len() > 0 { seq![l.region_name] } else { Seq::empty() };
    let c: Seq<Seq<char>> = if shown_country(l.country) { seq![l.country] } else { Seq::empty() };
    let d: Seq<Seq<char>> = if l.isp.len() > 0 { seq![l.isp] } else { Seq::empty() };
    let parts = location_parts(l);
    assert(parts == a + b + c + d);
    assert(location_parts(GeoLocationView { isp: Seq::empty(), ..l }) =~= a + b + c + Seq::<Seq<char>>::empty());
    assert(a + b + c + Seq::<Seq<char>>::empty() =~= a + b + c);
    if l.region_name.len() > 0 {
        assert(parts[a.len() as int] == l.region_name);
    }
    if shown_country(l.country) {
        assert(parts[(a.len() + b.len()) as int] == l.country);
    }
}

fn push_if_nonempty(parts: &mut Vec<String>, part: &String)
    ensures
        final(parts)@ == (if part@.len() > 0 { old(parts)@.push(*part) } else { old(parts)@ }),
{
    if !part.as_str().is_empty() {
        parts.push(part.clone());
    }
}

/// The one-line description of `location` shown beside a hop.
pub fn format_location_for_display(location: &GeoLocation) -> (text: String)
    ensures
        text@ == location_text(location@),
{
    let mut parts: Vec<String> = Vec::new();
    push_if_nonempty(&mut parts, &location.city);
    push_if_nonempty(&mut parts, &location.region_name);
    if !location.country.as_str().is_empty() && !(location.country == String::from_str("Unknown"))
        && !(location.country == String::from_str("Local Network")) {
        parts.push(location.country.clone());
    }
    push_if_nonempty(&mut parts, &location.isp);
    let ghost views = parts@.map_values(|s: String| s@);
    assert(views =~= location_parts(location@));
    if parts.len() == 0 {
        return String::from_str("位置未知");
    }
    let mut text = String::new();
    let mut i: usize = 0;
    while i < parts.len()
        invariant
            i <= parts@.len(),
            views == parts@.map_values(|s: String| s@),
            text@ == join_with(views.take(i as int), ", "@),
        decreases parts@.len() - i,
    {
        assert(views.take(i + 1).drop_last() =~= views.take(i as int));
        if i > 0 {
            text.append(", ");
        } else {
            assert(views.take(1) =~= seq![views[0]]);
        }
        text.append(parts[i].as_str());
        i = i + 1;
    }
    assert(views.take(parts@.len() as int) =~= views);
    text
}

/// The upper-case form of a string, as `str::to_uppercase` computes it
/// from the Unicode case tables.
pub uninterp spec fn uppercase_of(s: Seq<char>) -> Seq<char>;

/// Every character is ASCII.
pub open spec fn is_ascii_text(s: Seq<char>) -> bool {
    forall|i: int| 0 <= i < s.len() ==> (#[trigger] s[i] as u32) < 128
}

/// An ASCII lower-case letter made upper case; any other character kept.
pub open spec fn ascii_upper_char(c: char) -> char {
    if 'a' <= c && c <= 'z' {
        ((c as u32) - 32) as char
    } else {
        c
    }
}

/// The text with its ASCII lower-case letters made upper case.
pub open spec fn ascii_uppercase(s: Seq<char>) -> Seq<char> {
    s.map_values(|c: char| ascii_upper_char(c))
}

/// Calls `str::to_uppercase`. The contract claims that the result is a
/// function of the text, named `uppercase_of`, and that on ASCII text it
/// turns `a`..`z` into `A`..`Z` and keeps every other character, as std
/// documents; what it does to other characters is left to the name.
#[verifier::external_body]
fn to_uppercase(s: &str) -> (upper: String)
    ensures
        upper@ == uppercase_of(s@),
        is_ascii_text(s@) ==> upper@ == ascii_uppercase(s@),
{
    s.to_uppercase()
}

/// The flag emoji of an upper-case country code; a globe for any other code.
pub open spec fn flag_table(code: Seq<char>) -> Seq<char> {
    if code == "CN"@ {
        "🇨🇳"@
    } else if code == "US"@ {
        "🇺🇸"@
    } else if code == "JP"@ {
        "🇯🇵"@
    } else if code == "KR"@ {
        "🇰🇷"@
    } else if code == "UK"@ {
        "🇬🇧"@
    } else if code == "GB"@ {
        "🇬🇧"@
    } else if code == "DE"@ {
        "🇩🇪"@
    } else if code == "FR"@ {
        "🇫🇷"@
    } else if code == "CA"@ {
        "🇨🇦"@
    } else if code == "AU"@ {
        "🇦🇺"@
    } else if code == "IN"@ {
        "🇮🇳"@
    } else if code == "BR"@ {
        "🇧🇷"@
    } else if code == "RU"@ {
        "🇷🇺"@
    } else if code == "IT"@ {
        "🇮🇹"@
    } else if code == "ES"@ {
        "🇪🇸"@
    } else if code == "NL"@ {
        "🇳🇱"@
    } else if code == "SE"@ {
        "🇸🇪"@
    } else if code == "NO"@ {
        "🇳🇴"@
    } else if code == "FI"@ {
        "🇫🇮"@
    } else if code == "DK"@ {
        "🇩🇰"@
    } else if code == "CH"@ {
        "🇨🇭"@
    } else if code == "AT"@ {
        "🇦🇹"@
    } else if code == "BE"@ {
        "🇧🇪"@
    } else if code == "PL"@ {
        "🇵🇱"@
    } else if code == "CZ"@ {
        "🇨🇿"@
    } else if code == "SK"@ {
        "🇸🇰"@
    } else if code == "HU"@ {
        "🇭🇺"@
    } else if code == "GR"@ {
        "🇬🇷"@
    } else if code == "PT"@ {
        "🇵🇹"@
    } else if code == "IE"@ {
        "🇮🇪"@
    } else if code == "NZ"@ {
        "🇳🇿"@
    } else if code == "SG"@ {
        "🇸🇬"@
    } else if code == "MY"@ {
        "🇲🇾"@
    } else if code == "TH"@ {
        "🇹🇭"@
    } else if code == "VN"@ {
        "🇻🇳"@
    } else if code == "PH"@ {
        "🇵🇭"@
    } else if code == "ID"@ {
        "🇮🇩"@
    } else if code == "MX"@ {
        "🇲🇽"@
    } else if code == "AR"@ {
        "🇦🇷"@
    } else if code == "CL"@ {
        "🇨🇱"@
    } else if code == "CO"@ {
        "🇨🇴"@
    } else if code == "PE"@ {
        "🇵🇪"@
    } else if code == "ZA"@ {
        "🇿🇦"@
    } else if code == "EG"@ {
        "🇪🇬"@
    } else if code == "IL"@ {
        "🇮🇱"@
    } else if code == "TR"@ {
        "🇹🇷"@
    } else if code == "SA"@ {
        "🇸🇦"@
    } else if code == "AE"@ {
        "🇦🇪"@
    } else {
        "🌐"@
    }
}

/// The regional-indicator symbol of an upper-case ASCII letter.
pub open spec fn regional_indicator(c: char) -> char {
    ((c as u32) + 0x1F1A5) as char
}

/// The flag emoji of a two-letter code: the regional-indicator symbols of
/// its letters.
pub open spec fn regional_flag(code: Seq<char>) -> Seq<char> {
    seq![regional_indicator(code[0]), regional_indicator(code[1])]
}

/// The country codes that have a flag of their own.
pub open spec fn flagged_codes() -> Seq<Seq<char>> {
    seq!["CN"@, "US"@, "JP"@, "KR"@, "GB"@, "DE"@, "FR"@, "CA"@, "AU"@, "IN"@, "BR"@, "RU"@, "IT"@, "ES"@, "NL"@, "SE"@, "NO"@, "FI"@, "DK"@, "CH"@, "AT"@, "BE"@, "PL"@, "CZ"@, "SK"@, "HU"@, "GR"@, "PT"@, "IE"@, "NZ"@, "SG"@, "MY"@, "TH"@, "VN"@, "PH"@, "ID"@, "MX"@, "AR"@, "CL"@, "CO"@, "PE"@, "ZA"@, "EG"@, "IL"@, "TR"@, "SA"@, "AE"@]
}

proof fn lemma_flag_cn()
    ensures
        flag_table("CN"@) == regional_flag("CN"@),
{
    reveal_strlit("CN");
    reveal_strlit("🇨🇳");
    assert("🇨🇳"@ =~= seq!['\u{1F1E8}', '\u{1F1F3}']);
    assert(regional_flag("CN"@) =~= seq!['\u{1F1E8}', '\u{1F1F3}']);
}

proof fn lemma_flag_us()
    ensures
        flag_table("US"@) == regional_flag("US"@),
{
    reveal_strlit("US");
    reveal_strlit("🇺🇸");
    reveal_strlit("CN");
    assert("US"@[0] != "CN"@[0] || "US"@[1] != "CN"@[1]);
    assert("🇺🇸"@ =~= seq!['\u{1F1FA}', '\u{1F1F8}']);
    assert(regional_flag("US"@) =~= seq!['\u{1F1FA}', '\u{1F1F8}']);
}

proof fn lemma_flag_jp()
    ensures
        flag_table("JP"@) == regional_flag("JP"@),
{
    reveal_strlit("JP");
    reveal_strlit("🇯🇵");
    reveal_strlit("CN");
    reveal_strlit("US");
    assert("JP"@[0] != "CN"@[0] || "JP"@[1] != "CN"@[1]);
    assert("JP"@[0] != "US"@[0] || "JP"@[1] != "US"@[1]);
    assert("🇯🇵"@ =~= seq!['\u{1F1EF}', '\u{1F1F5}']);
    assert(regional_flag("JP"@) =~= seq!['\u{1F1EF}', '\u{1F1F5}']);
}

proof fn lemma_flag_kr()
    ensures
        flag_table("KR"@) == regional_flag("KR"@),
{
    reveal_strlit("KR");
    reveal_strlit("🇰🇷");
    reveal_strlit("CN");
    reveal_strlit("US");
    reveal_strlit("JP");
    assert("KR"@[0] != "CN"@[0] || "KR"@[1] != "CN"@[1]);
    assert("KR"@[0] != "US"@[0] || "KR"@[1] != "US"@[1]);
    assert("KR"@[0] != "JP"@[0] || "KR"@[1] != "JP"@[1]);
    assert("🇰🇷"@ =~= seq!['\u{1F1F0}', '\u{1F1F7}']);
    assert(regional_flag("KR"@) =~= seq!['\u{1F1F0}', '\u{1F1F7}']);
}

proof fn lemma_flag_gb()
    ensures
        flag_table("GB"@) == regional_flag("GB"@),
{
    reveal_strlit("GB");
    reveal_strlit("🇬🇧");
    reveal_strlit("CN");
    reveal_strlit("US");
    reveal_strlit("JP");
    reveal_strlit("KR");
    reveal_strlit("UK");
    assert("GB"@[0] != "CN"@[0] || "GB"@[1] != "CN"@[1]);
    assert("GB"@[0] != "US"@[0] || "GB"@[1] != "US"@[1]);
    assert("GB"@[0] != "JP"@[0] || "GB"@[1] != "JP"@[1]);
    assert("GB"@[0] != "KR"@[0] || "GB"@[1] != "KR"@[1]);
    assert("GB"@[0] != "UK"@[0] || "GB"@[1] != "UK"@[1]);
    assert("🇬🇧"@ =~= seq!['\u{1F1EC}', '\u{1F1E7}']);
    assert(regional_flag("GB"@) =~= seq!['\u{1F1EC}', '\u{1F1E7}']);
}

proof fn lemma_flag_de()
    ensures
        flag_table("DE"@) == regional_flag("DE"@),
{
    reveal_strlit("DE");
    reveal_strlit("🇩🇪");
    reveal_strlit("CN");
    reveal_strlit("US");
    reveal_strlit("JP");
    reveal_strlit("KR");
    reveal_strlit("UK");
    reveal_strlit("GB");
    assert("DE"@[0] != "CN"@[0] || "DE"@[1] != "CN"@[1]);
    assert("DE"@[0] != "US"@[0] || "DE"@[1] != "US"@[1]);
    assert("DE"@[0] != "JP"@[0] || "DE"@[1] != "JP"@[1]);
    assert("DE"@[0] != "KR"@[0] || "DE"@[1] != "KR"@[1]);
    assert("DE"@[0] != "UK"@[0] || "DE"@[1] != "UK"@[1]);
    assert("DE"@[0] != "GB"@[0] || "DE"@[1] != "GB"@[1]);
    assert("🇩🇪"@ =~= seq!['\u{1F1E9}', '\u{1F1EA}']);
    assert(regional_flag("DE"@) =~= seq!['\u{1F1E9}', '\u{1F1EA}']);
}

proof fn lemma_flag_fr()
    ensures
        flag_table("FR"@) == regional_flag("FR"@),
{
    reveal_strlit("FR");
    reveal_strlit("🇫🇷");
    reveal_strlit("CN");
    reveal_strlit("US");
    reveal_strlit("JP");
    reveal_strlit("KR");
    reveal_strlit("UK");
    reveal_strlit("GB");
    reveal_strlit("DE");
    assert("FR"@[0] != "CN"@[0] || "FR"@[1] != "CN"@[1]);
    assert("FR"@[0] != "US"@[0] || "FR"@[1] != "US"@[1]);
    assert("FR"@[0] != "JP"@[0] || "FR"@[1] != "JP"@[1]);
    assert("FR"@[0] != "KR"@[0] || "FR"@[1] != "KR"@[1]);
    assert("FR"@[0] != "UK"@[0] || "FR"@[1] != "UK"@[1]);
    assert("FR"@[0] != "GB"@[0] || "FR"@[1] != "GB"@[1]);
    assert("FR"@[0] != "DE"@[0] || "FR"@[1] != "DE"@[1]);
    assert("🇫🇷"@ =~= seq!['\u{1F1EB}', '\u{1F1F7}']);
    assert(regional_flag("FR"@) =~= seq!['\u{1F1EB}', '\u{1F1F7}']);
}

proof fn lemma_flag_ca()
    ensures
        flag_table("CA"@) == regional_flag("CA"@),
{
    reveal_strlit("CA");
    reveal_strlit("🇨🇦");
    reveal_strlit("CN");
    reveal_strlit("US");
    reveal_strlit("JP");
    reveal_strlit("KR");
    reveal_strlit("UK");
    reveal_strlit("GB");
    reveal_strlit("DE");
    reveal_strlit("FR");
    assert("CA"@[0] != "CN"@[0] || "CA"@[1] != "CN"@[1]);
    assert("CA"@[0] != "US"@[0] || "CA"@[1] != "US"@[1]);
    assert("CA"@[0] != "JP"@[0] || "CA"@[1] != "JP"@[1]);
    assert("CA"@[0] != "KR"@[0] || "CA"@[1] != "KR"@[1]);
    assert("CA"@[0] != "UK"@[0] || "CA"@[1] != "UK"@[1]);
    assert("CA"@[0] != "GB"@[0] || "CA"@[1] != "GB"@[1]);
    assert("CA"@[0] != "DE"@[0] || "CA"@[1] != "DE"@[1]);
    assert("CA"@[0] != "FR"@[0] || "CA"@[1] != "FR"@[1]);
    assert("🇨🇦"@ =~= seq!['\u{1F1E8}', '\u{1F1E6}']);
    assert(regional_flag("CA"@) =~= seq!['\u{1F1E8}', '\u{1F1E6}']);
}

proof fn lemma_flag_au()
    ensures
        flag_table("AU"@) == regional_flag("AU"@),
{
    reveal_strlit("AU");
    reveal_strlit("🇦🇺");
    reveal_strlit("CN");
    reveal_strlit("US");
    reveal_strlit("JP");
    reveal_strlit("KR");
    reveal_strlit("UK");
    reveal_strlit("GB");
    reveal_strlit("DE");
    reveal_strlit("FR");
    reveal_strlit("CA");
    assert("AU"@[0] != "CN"@[0] || "AU"@[1] != "CN"@[1]);
    assert("AU"@[0] != "US"@[0] || "AU"@[1] != "US"@[1]);
    assert("AU"@[0] != "JP"@[0] || "AU"@[1] != "JP"@[1]);
    assert("AU"@[0] != "KR"@[0] || "AU"@[1] != "KR"@[1]);
    assert("AU"@[0] != "UK"@[0] || "AU"@[1] != "UK"@[1]);
    assert("AU"@[0] != "GB"@[0] || "AU"@[1] != "GB"@[1]);
    assert("AU"@[0] != "DE"@[0] || "AU"@[1] != "DE"@[1]);
    assert("AU"@[0] != "FR"@[0] || "AU"@[1] != "FR"@[1]);
    assert("AU"@[0] != "CA"@[0] || "AU"@[1] != "CA"@[1]);
    assert("🇦🇺"@ =~= seq!['\u{1F1E6}', '\u{1F1FA}']);
    assert(regional_flag("AU"@) =~= seq!['\u{1F1E6}', '\u{1F1FA}']);
}

proof fn lemma_flag_in()
    ensures
        flag_table("IN"@) == regional_flag("IN"@),
{
    reveal_strlit("IN");
    reveal_strlit("🇮🇳");
    reveal_strlit("CN");
    reveal_strlit("US");
    reveal_strlit("JP");
    reveal_strlit("KR");
    reveal_strlit("UK");
    reveal_strlit("GB");
    reveal_strlit("DE");
    reveal_strlit("FR");
    reveal_strlit("CA");
    reveal_strlit("AU");
    assert("IN"@[0] != "CN"@[0] || "IN"@[1] != "CN"@[1]);
    assert("IN"@[0] != "US"@[0] || "IN"@[1] != "US"@[1]);
    assert("IN"@[0] != "JP"@[0] || "IN"@[1] != "JP"@[1]);
    assert("IN"@[0] != "KR"@[0] || "IN"@[1] != "KR"@[1]);
    assert("IN"@[0] != "UK"@[0] || "IN"@[1] != "UK"@[1]);
    assert("IN"@[0] != "GB"@[0] || "IN"@[1] != "GB"@[1]);
    assert("IN"@[0] != "DE"@[0] || "IN"@[1] != "DE"@[1]);
    assert("IN"@[0] != "FR"@[0] || "IN"@[1] != "FR"@[1]);
    assert("IN"@[0] != "CA"@[0] || "IN"@[1] != "CA"@[1]);
    assert("IN"@[0] != "AU"@[0] || "IN"@[1] != "AU"@[1]);
    assert("🇮🇳"@ =~= seq!['\u{1F1EE}', '\u{1F1F3}']);
    assert(regional_flag("IN"@) =~= seq!['\u{1F1EE}', '\u{1F1F3}']);
}

proof fn lemma_flag_br()
    ensures
        flag_table("BR"@) == regional_flag("BR"@),
{
    reveal_strlit("BR");
    reveal_strlit("🇧🇷");
    reveal_strlit("CN");
    reveal_strlit("US");
    reveal_strlit("JP");
    reveal_strlit("KR");
    reveal_strlit("UK");
    reveal_strlit("GB");
    reveal_strlit("DE");
    reveal_strlit("FR");
    reveal_strlit("CA");
    reveal_strlit("AU");
    reveal_strlit("IN");
    assert("BR"@[0] != "CN"@[0] || "BR"@[1] != "CN"@[1]);
    assert("BR"@[0] != "US"@[0] || "BR"@[1] != "US"@[1]);
    assert("BR"@[0] != "JP"@[0] || "BR"@[1] != "JP"@[1]);
    assert("BR"@[0] != "KR"@[0] || "BR"@[1] != "KR"@[1]);
    assert("BR"@[0] != "UK"@[0] || "BR"@[1] != "UK"@[1]);
    assert("BR"@[0] != "GB"@[0] || "BR"@[1] != "GB"@[1]);
    assert("BR"@[0] != "DE"@[0] || "BR"@[1] != "DE"@[1]);
    assert("BR"@[0] != "FR"@[0] || "BR"@[1] != "FR"@[1]);
    assert("BR"@[0] != "CA"@[0] || "BR"@[1] != "CA"@[1]);
    assert("BR"@[0] != "AU"@[0] || "BR"@[1] != "AU"@[1]);
    assert("BR"@[0] != "IN"@[0] || "BR"@[1] != "IN"@[1]);
    assert("🇧🇷"@ =~= seq!['\u{1F1E7}', '\u{1F1F7}']);
    assert(regional_flag("BR"@) =~= seq!['\u{1F1E7}', '\u{1F1F7}']);
}

proof fn lemma_flag_ru()
    ensures
        flag_table("RU"@) == regional_flag("RU"@),
{
    reveal_strlit("RU");
    reveal_strlit("🇷🇺");
    reveal_strlit("CN");
    reveal_strlit("US");
    reveal_strlit("JP");
    reveal_strlit("KR");
    reveal_strlit("UK");
    reveal_strlit("GB");
    reveal_strlit("DE");
    reveal_strlit("FR");
    reveal_strlit("CA");
    reveal_strlit("AU");
    reveal_strlit("IN");
    reveal_strlit("BR");
    assert("RU"@[0] != "CN"@[0] || "RU"@[1] != "CN"@[1]);
    assert("RU"@[0] != "US"@[0] || "RU"@[1] != "US"@[1]);
    assert("RU"@[0] != "JP"@[0] || "RU"@[1] != "JP"@[1]);
    assert("RU"@[0] != "KR"@[0] || "RU"@[1] != "KR"@[1]);
    assert("RU"@[0] != "UK"@[0] || "RU"@[1] != "UK"@[1]);
    assert("RU"@[0] != "GB"@[0] || "RU"@[1] != "GB"@[1]);
    assert("RU"@[0] != "DE"@[0] || "RU"@[1] != "DE"@[1]);
    assert("RU"@[0] != "FR"@[0] || "RU"@[1] != "FR"@[1]);
    assert("RU"@[0] != "CA"@[0] || "RU"@[1] != "CA"@[1]);
    assert("RU"@[0] != "AU"@[0] || "RU"@[1] != "AU"@[1]);
    assert("RU"@[0] != "IN"@[0] || "RU"@[1] != "IN"@[1]);
    assert("RU"@[0] != "BR"@[0] || "RU"@[1] != "BR"@[1]);
    assert("🇷🇺"@ =~= seq!['\u{1F1F7}', '\u{1F1FA}']);
    assert(regional_flag("RU"@) =~= seq!['\u{1F1F7}', '\u{1F1FA}']);
}

proof fn lemma_flag_it()
    ensures
        flag_table("IT"@) == regional_flag("IT"@),
{
    reveal_strlit("IT");
    reveal_strlit("🇮🇹");
    reveal_strlit("CN");
    reveal_strlit("US");
    reveal_strlit("JP");
    reveal_strlit("KR");
    reveal_strlit("UK");
    reveal_strlit("GB");
    reveal_strlit("DE");
    reveal_strlit("FR");
    reveal_strlit("CA");
    reveal_strlit("AU");
    reveal_strlit("IN");
    reveal_strlit("BR");
    reveal_strlit("RU");
    assert("IT"@[0] != "CN"@[0] || "IT"@[1] != "CN"@[1]);
    assert("IT"@[0] != "US"@[0] || "IT"@[1] != "US"@[1]);
    assert("IT"@[0] != "JP"@[0] || "IT"@[1] != "JP"@[1]);
    assert("IT"@[0] != "KR"@[0] || "IT"@[1] != "KR"@[1]);
    assert("IT"@[0] != "UK"@[0] || "IT"@[1] != "UK"@[1]);
    assert("IT"@[0] != "GB"@[0] || "IT"@[1] != "GB"@[1]);
    assert("IT"@[0] != "DE"@[0] || "IT"@[1] != "DE"@[1]);
    assert("IT"@[0] != "FR"@[0] || "IT"@[1] != "FR"@[1]);
    assert("IT"@[0] != "CA"@[0] || "IT"@[1] != "CA"@[1]);
    assert("IT"@[0] != "AU"@[0] || "IT"@[1] != "AU"@[1]);
    assert("IT"@[0] != "IN"@[0] || "IT"@[1] != "IN"@[1]);
    assert("IT"@[0] != "BR"@[0] || "IT"@[1] != "BR"@[1]);
    assert("IT"@[0] != "RU"@[0] || "IT"@[1] != "RU"@[1]);
    assert("🇮🇹"@ =~= seq!['\u{1F1EE}', '\u{1F1F9}']);
    assert(regional_flag("IT"@) =~= seq!['\u{1F1EE}', '\u{1F1F9}']);
}

proof fn lemma_flag_es()
    ensures
        flag_table("ES"@) == regional_flag("ES"@),
{
    reveal_strlit("ES");
    reveal_strlit("🇪🇸");
    reveal_strlit("CN");
    reveal_strlit("US");
    reveal_strlit("JP");
    reveal_strlit("KR");
    reveal_strlit("UK");
    reveal_strlit("GB");
    reveal_strlit("DE");
    reveal_strlit("FR");
    reveal_strlit("CA");
    reveal_strlit("AU");
    reveal_strlit("IN");
    reveal_strlit("BR");
    reveal_strlit("RU");
    reveal_strlit("IT");
    assert("ES"@[0] != "CN"@[0] || "ES"@[1] != "CN"@[1]);
    assert("ES"@[0] != "US"@[0] || "ES"@[1] != "US"@[1]);
    assert("ES"@[0] != "JP"@[0] || "ES"@[1] != "JP"@[1]);
    assert("ES"@[0] != "KR"@[0] || "ES"@[1] != "KR"@[1]);
    assert("ES"@[0] != "UK"@[0] || "ES"@[1] != "UK"@[1]);
    assert("ES"@[0] != "GB"@[0] || "ES"@[1] != "GB"@[1]);
    assert("ES"@[0] != "DE"@[0] || "ES"@[1] != "DE"@[1]);
    assert("ES"@[0] != "FR"@[0] || "ES"@[1] != "FR"@[1]);
    assert("ES"@[0] != "CA"@[0] || "ES"@[1] != "CA"@[1]);
    assert("ES"@[0] != "AU"@[0] || "ES"@[1] != "AU"@[1]);
    assert("ES"@[0] != "IN"@[0] || "ES"@[1] != "IN"@[1]);
    assert("ES"@[0] != "BR"@[0] || "ES"@[1] != "BR"@[1]);
    assert("ES"@[0] != "RU"@[0] || "ES"@[1] != "RU"@[1]);
    assert("ES"@[0] != "IT"@[0] || "ES"@[1] != "IT"@[1]);
    assert("🇪🇸"@ =~= seq!['\u{1F1EA}', '\u{1F1F8}']);
    assert(regional_flag("ES"@) =~= seq!['\u{1F1EA}', '\u{1F1F8}']);
}

proof fn lemma_flag_nl()
    ensures
        flag_table("NL"@) == regional_flag("NL"@),
{
    reveal_strlit("NL");
    reveal_strlit("🇳🇱");
    reveal_strlit("CN");
    reveal_strlit("US");
    reveal_strlit("JP");
    reveal_strlit("KR");
    reveal_strlit("UK");
    reveal_strlit("GB");
    reveal_strlit("DE");
    reveal_strlit("FR");
    reveal_strlit("CA");
    reveal_strlit("AU");
    reveal_strlit("IN");
    reveal_strlit("BR");
    reveal_strlit("RU");
    reveal_strlit("IT");
    reveal_strlit("ES");
    assert("NL"@[0] != "CN"@[0] || "NL"@[1] != "CN"@[1]);
    assert("NL"@[0] != "US"@[0] || "NL"@[1] != "US"@[1]);
    assert("NL"@[0] != "JP"@[0] || "NL"@[1] != "JP"@[1]);
    assert("NL"@[0] != "KR"@[0] || "NL"@[1] != "KR"@[1]);
    assert("NL"@[0] != "UK"@[0] || "NL"@[1] != "UK"@[1]);
    assert("NL"@[0] != "GB"@[0] || "NL"@[1] != "GB"@[1]);
    assert("NL"@[0] != "DE"@[0] || "NL"@[1] != "DE"@[1]);
    assert("NL"@[0] != "FR"@[0] || "NL"@[1] != "FR"@[1]);
    assert("NL"@[0] != "CA"@[0] || "NL"@[1] != "CA"@[1]);
    assert("NL"@[0] != "AU"@[0] || "NL"@[1] != "AU"@[1]);
    assert("NL"@[0] != "IN"@[0] || "NL"@[1] != "IN"@[1]);
    assert("NL"@[0] != "BR"@[0] || "NL"@[1] != "BR"@[1]);
    assert("NL"@[0] != "RU"@[0] || "NL"@[1] != "RU"@[1]);
    assert("NL"@[0] != "IT"@[0] || "NL"@[1] != "IT"@[1]);
    assert("NL"@[0] != "ES"@[0] || "NL"@[1] != "ES"@[1]);
    assert("🇳🇱"@ =~= seq!['\u{1F1F3}', '\u{1F1F1}']);
    assert(regional_flag("NL"@) =~= seq!['\u{1F1F3}', '\u{1F1F1}']);
}

proof fn lemma_flag_se()
    ensures
        flag_table("SE"@) == regional_flag("SE"@),
{
    reveal_strlit("SE");
    reveal_strlit("🇸🇪");
    reveal_strlit("CN");
    reveal_strlit("US");
    reveal_strlit("JP");
    reveal_strlit("KR");
    reveal_strlit("UK");
    reveal_strlit("GB");
    reveal_strlit("DE");
    reveal_strlit("FR");
    reveal_strlit("CA");
    reveal_strlit("AU");
    reveal_strlit("IN");
    reveal_strlit("BR");
    reveal_strlit("RU");
    reveal_strlit("IT");
    reveal_strlit("ES");
    reveal_strlit("NL");
    assert("SE"@[0] != "CN"@[0] || "SE"@[1] != "CN"@[1]);
    assert("SE"@[0] != "US"@[0] || "SE"@[1] != "US"@[1]);
    assert("SE"@[0] != "JP"@[0] || "SE"@[1] != "JP"@[1]);
    assert("SE"@[0] != "KR"@[0] || "SE"@[1] != "KR"@[1]);
    assert("SE"@[0] != "UK"@[0] || "SE"@[1] != "UK"@[1]);
    assert("SE"@[0] != "GB"@[0] || "SE"@[1] != "GB"@[1]);
    assert("SE"@[0] != "DE"@[0] || "SE"@[1] != "DE"@[1]);
    assert("SE"@[0] != "FR"@[0] || "SE"@[1] != "FR"@[1]);
    assert("SE"@[0] != "CA"@[0] || "SE"@[1] != "CA"@[1]);
    assert("SE"@[0] != "AU"@[0] || "SE"@[1] != "AU"@[1]);
    assert("SE"@[0] != "IN"@[0] || "SE"@[1] != "IN"@[1]);
    assert("SE"@[0] != "BR"@[0] || "SE"@[1] != "BR"@[1]);
    assert("SE"@[0] != "RU"@[0] || "SE"@[1] != "RU"@[1]);
    assert("SE"@[0] != "IT"@[0] || "SE"@[1] != "IT"@[1]);
    assert("SE"@[0] != "ES"@[0] || "SE"@[1] != "ES"@[1]);
    assert("SE"@[0] != "NL"@[0] || "SE"@[1] != "NL"@[1]);
    assert("🇸🇪"@ =~= seq!['\u{1F1F8}', '\u{1F1EA}']);
    assert(regional_flag("SE"@) =~= seq!['\u{1F1F8}', '\u{1F1EA}']);
}

proof fn lemma_flag_no()
    ensures
        flag_table("NO"@) == regional_flag("NO"@),
{
    reveal_strlit("NO");
    reveal_strlit("🇳🇴");
    reveal_strlit("CN");
    reveal_strlit("US");
    reveal_strlit("JP");
    reveal_strlit("KR");
    reveal_strlit("UK");
    reveal_strlit("GB");
    reveal_strlit("DE");
    reveal_strlit("FR");
    reveal_strlit("CA");
    reveal_strlit("AU");
    reveal_strlit("IN");
    reveal_strlit("BR");
    reveal_strlit("RU");
    reveal_strlit("IT");
    reveal_strlit("ES");
    reveal_strlit("NL");
    reveal_strlit("SE");
    assert("NO"@[0] != "CN"@[0] || "NO"@[1] != "CN"@[1]);
    assert("NO"@[0] != "US"@[0] || "NO"@[1] != "US"@[1]);
    assert("NO"@[0] != "JP"@[0] || "NO"@[1] != "JP"@[1]);
    assert("NO"@[0] != "KR"@[0] || "NO"@[1] != "KR"@[1]);
    assert("NO"@[0] != "UK"@[0] || "NO"@[1] != "UK"@[1]);
    assert("NO"@[0] != "GB"@[0] || "NO"@[1] != "GB"@[1]);
    assert("NO"@[0] != "DE"@[0] || "NO"@[1] != "DE"@[1]);
    assert("NO"@[0] != "FR"@[0] || "NO"@[1] != "FR"@[1]);
    assert("NO"@[0] != "CA"@[0] || "NO"@[1] != "CA"@[1]);
    assert("NO"@[0] != "AU"@[0] || "NO"@[1] != "AU"@[1]);
    assert("NO"@[0] != "IN"@[0] || "NO"@[1] != "IN"@[1]);
    assert("NO"@[0] != "BR"@[0] || "NO"@[1] != "BR"@[1]);
    assert("NO"@[0] != "RU"@[0] || "NO"@[1] != "RU"@[1]);
    assert("NO"@[0] != "IT"@[0] || "NO"@[1] != "IT"@[1]);
    assert("NO"@[0] != "ES"@[0] || "NO"@[1] != "ES"@[1]);
    assert("NO"@[0] != "NL"@[0] || "NO"@[1] != "NL"@[1]);
    assert("NO"@[0] != "SE"@[0] || "NO"@[1] != "SE"@[1]);
    assert("🇳🇴"@ =~= seq!['\u{1F1F3}', '\u{1F1F4}']);
    assert(regional_flag("NO"@) =~= seq!['\u{1F1F3}', '\u{1F1F4}']);
}

proof fn lemma_flag_fi()
    ensures
        flag_table("FI"@) == regional_flag("FI"@),
{
    reveal_strlit("FI");
    reveal_strlit("🇫🇮");
    reveal_strlit("CN");
    reveal_strlit("US");
    reveal_strlit("JP");
    reveal_strlit("KR");
    reveal_strlit("UK");
    reveal_strlit("GB");
    reveal_strlit("DE");
    reveal_strlit("FR");
    reveal_strlit("CA");
    reveal_strlit("AU");
    reveal_strlit("IN");
    reveal_strlit("BR");
    reveal_strlit("RU");
    reveal_strlit("IT");
    reveal_strlit("ES");
    reveal_strlit("NL");
    reveal_strlit("SE");
    reveal_strlit("NO");
    assert("FI"@[0] != "CN"@[0] || "FI"@[1] != "CN"@[1]);
    assert("FI"@[0] != "US"@[0] || "FI"@[1] != "US"@[1]);
    assert("FI"@[0] != "JP"@[0] || "FI"@[1] != "JP"@[1]);
    assert("FI"@[0] != "KR"@[0] || "FI"@[1] != "KR"@[1]);
    assert("FI"@[0] != "UK"@[0] || "FI"@[1] != "UK"@[1]);
    assert("FI"@[0] != "GB"@[0] || "FI"@[1] != "GB"@[1]);
    assert("FI"@[0] != "DE"@[0] || "FI"@[1] != "DE"@[1]);
    assert("FI"@[0] != "FR"@[0] || "FI"@[1] != "FR"@[1]);
    assert("FI"@[0] != "CA"@[0] || "FI"@[1] != "CA"@[1]);
    assert("FI"@[0] != "AU"@[0] || "FI"@[1] != "AU"@[1]);
    assert("FI"@[0] != "IN"@[0] || "FI"@[1] != "IN"@[1]);
    assert("FI"@[0] != "BR"@[0] || "FI"@[1] != "BR"@[1]);
    assert("FI"@[0] != "RU"@[0] || "FI"@[1] != "RU"@[1]);
    assert("FI"@[0] != "IT"@[0] || "FI"@[1] != "IT"@[1]);
    assert("FI"@[0] != "ES"@[0] || "FI"@[1] != "ES"@[1]);
    assert("FI"@[0] != "NL"@[0] || "FI"@[1] != "NL"@[1]);
    assert("FI"@[0] != "SE"@[0] || "FI"@[1] != "SE"@[1]);
    assert("FI"@[0] != "NO"@[0] || "FI"@[1] != "NO"@[1]);
    assert("🇫🇮"@ =~= seq!['\u{1F1EB}', '\u{1F1EE}']);
    assert(regional_flag("FI"@) =~= seq!['\u{1F1EB}', '\u{1F1EE}']);
}

proof fn lemma_flag_dk()
    ensures
        flag_table("DK"@) == regional_flag("DK"@),
{
    reveal_strlit("DK");
    reveal_strlit("🇩🇰");
    reveal_strlit("CN");
    reveal_strlit("US");
    reveal_strlit("JP");
    reveal_strlit("KR");
    reveal_strlit("UK");
    reveal_strlit("GB");
    reveal_strlit("DE");
    reveal_strlit("FR");
    reveal_strlit("CA");
    reveal_strlit("AU");
    reveal_strlit("IN");
    reveal_strlit("BR");
    reveal_strlit("RU");
    reveal_strlit("IT");
    reveal_strlit("ES");
    reveal_strlit("NL");
    reveal_strlit("SE");
    reveal_strlit("NO");
    reveal_strlit("FI");
    assert("DK"@[0] != "CN"@[0] || "DK"@[1] != "CN"@[1]);
    assert("DK"@[0] != "US"@[0] || "DK"@[1] != "US"@[1]);
    assert("DK"@[0] != "JP"@[0] || "DK"@[1] != "JP"@[1]);
    assert("DK"@[0] != "KR"@[0] || "DK"@[1] != "KR"@[1]);
    assert("DK"@[0] != "UK"@[0] || "DK"@[1] != "UK"@[1]);
    assert("DK"@[0] != "GB"@[0] || "DK"@[1] != "GB"@[1]);
    assert("DK"@[0] != "DE"@[0] || "DK"@[1] != "DE"@[1]);
    assert("DK"@[0] != "FR"@[0] || "DK"@[1] != "FR"@[1]);
    assert("DK"@[0] != "CA"@[0] || "DK"@[1] != "CA"@[1]);
    assert("DK"@[0] != "AU"@[0] || "DK"@[1] != "AU"@[1]);
    assert("DK"@[0] != "IN"@[0] || "DK"@[1] != "IN"@[1]);
    assert("DK"@[0] != "BR"@[0] || "DK"@[1] != "BR"@[1]);
    assert("DK"@[0] != "RU"@[0] || "DK"@[1] != "RU"@[1]);
    assert("DK"@[0] != "IT"@[0] || "DK"@[1] != "IT"@[1]);
    assert("DK"@[0] != "ES"@[0] || "DK"@[1] != "ES"@[1]);
    assert("DK"@[0] != "NL"@[0] || "DK"@[1] != "NL"@[1]);
    assert("DK"@[0] != "SE"@[0] || "DK"@[1] != "SE"@[1]);
    assert("DK"@[0] != "NO"@[0] || "DK"@[1] != "NO"@[1]);
    assert("DK"@[0] != "FI"@[0] || "DK"@[1] != "FI"@[1]);
    assert("🇩🇰"@ =~= seq!['\u{1F1E9}', '\u{1F1F0}']);
    assert(regional_flag("DK"@) =~= seq!['\u{1F1E9}', '\u{1F1F0}']);
}

proof fn lemma_flag_ch()
    ensures
        flag_table("CH"@) == regional_flag("CH"@),
{
    reveal_strlit("CH");
    reveal_strlit("🇨🇭");
    reveal_strlit("CN");
    reveal_strlit("US");
    reveal_strlit("JP");
    reveal_strlit("KR");
    reveal_strlit("UK");
    reveal_strlit("GB");
    reveal_strlit("DE");
    reveal_strlit("FR");
    reveal_strlit("CA");
    reveal_strlit("AU");
    reveal_strlit("IN");
    reveal_strlit("BR");
    reveal_strlit("RU");
    reveal_strlit("IT");
    reveal_strlit("ES");
    reveal_strlit("NL");
    reveal_strlit("SE");
    reveal_strlit("NO");
    reveal_strlit("FI");
    reveal_strlit("DK");
    assert("CH"@[0] != "CN"@[0] || "CH"@[1] != "CN"@[1]);
    assert("CH"@[0] != "US"@[0] || "CH"@[1] != "US"@[1]);
    assert("CH"@[0] != "JP"@[0] || "CH"@[1] != "JP"@[1]);
    assert("CH"@[0] != "KR"@[0] || "CH"@[1] != "KR"@[1]);
    assert("CH"@[0] != "UK"@[0] || "CH"@[1] != "UK"@[1]);
    assert("CH"@[0] != "GB"@[0] || "CH"@[1] != "GB"@[1]);
    assert("CH"@[0] != "DE"@[0] || "CH"@[1] != "DE"@[1]);
    assert("CH"@[0] != "FR"@[0] || "CH"@[1] != "FR"@[1]);
    assert("CH"@[0] != "CA"@[0] || "CH"@[1] != "CA"@[1]);
    assert("CH"@[0] != "AU"@[0] || "CH"@[1] != "AU"@[1]);
    assert("CH"@[0] != "IN"@[0] || "CH"@[1] != "IN"@[1]);
    assert("CH"@[0] != "BR"@[0] || "CH"@[1] != "BR"@[1]);
    assert("CH"@[0] != "RU"@[0] || "CH"@[1] != "RU"@[1]);
    assert("CH"@[0] != "IT"@[0] || "CH"@[1] != "IT"@[1]);
    assert("CH"@[0] != "ES"@[0] || "CH"@[1] != "ES"@[1]);
    assert("CH"@[0] != "NL"@[0] || "CH"@[1] != "NL"@[1]);
    assert("CH"@[0] != "SE"@[0] || "CH"@[1] != "SE"@[1]);
    assert("CH"@[0] != "NO"@[0] || "CH"@[1] != "NO"@[1]);
    assert("CH"@[0] != "FI"@[0] || "CH"@[1] != "FI"@[1]);
    assert("CH"@[0] != "DK"@[0] || "CH"@[1] != "DK"@[1]);
    assert("🇨🇭"@ =~= seq!['\u{1F1E8}', '\u{1F1ED}']);
    assert(regional_flag("CH"@) =~= seq!['\u{1F1E8}', '\u{1F1ED}']);
}

proof fn lemma_flag_at()
    ensures
        flag_table("AT"@) == regional_flag("AT"@),
{
    reveal_strlit("AT");
    reveal_strlit("🇦🇹");
    reveal_strlit("CN");
    reveal_strlit("US");
    reveal_strlit("JP");
    reveal_strlit("KR");
    reveal_strlit("UK");
    reveal_strlit("GB");
    reveal_strlit("DE");
    reveal_strlit("FR");
    reveal_strlit("CA");
    reveal_strlit("AU");
    reveal_strlit("IN");
    reveal_strlit("BR");
    reveal_strlit("RU");
    reveal_strlit("IT");
    reveal_strlit("ES");
    reveal_strlit("NL");
    reveal_strlit("SE");
    reveal_strlit("NO");
    reveal_strlit("FI");
    reveal_strlit("DK");
    reveal_strlit("CH");
    assert("AT"@[0] != "CN"@[0] || "AT"@[1] != "CN"@[1]);
    assert("AT"@[0] != "US"@[0] || "AT"@[1] != "US"@[1]);
    assert("AT"@[0] != "JP"@[0] || "AT"@[1] != "JP"@[1]);
    assert("AT"@[0] != "KR"@[0] || "AT"@[1] != "KR"@[1]);
    assert("AT"@[0] != "UK"@[0] || "AT"@[1] != "UK"@[1]);
    assert("AT"@[0] != "GB"@[0] || "AT"@[1] != "GB"@[1]);
    assert("AT"@[0] != "DE"@[0] || "AT"@[1] != "DE"@[1]);
    assert("AT"@[0] != "FR"@[0] || "AT"@[1] != "FR"@[1]);
    assert("AT"@[0] != "CA"@[0] || "AT"@[1] != "CA"@[1]);
    assert("AT"@[0] != "AU"@[0] || "AT"@[1] != "AU"@[1]);
    assert("AT"@[0] != "IN"@[0] || "AT"@[1] != "IN"@[1]);
    assert("AT"@[0] != "BR"@[0] || "AT"@[1] != "BR"@[1]);
    assert("AT"@[0] != "RU"@[0] || "AT"@[1] != "RU"@[1]);
    assert("AT"@[0] != "IT"@[0] || "AT"@[1] != "IT"@[1]);
    assert("AT"@[0] != "ES"@[0] || "AT"@[1] != "ES"@[1]);
    assert("AT"@[0] != "NL"@[0] || "AT"@[1] != "NL"@[1]);
    assert("AT"@[0] != "SE"@[0] || "AT"@[1] != "SE"@[1]);
    assert("AT"@[0] != "NO"@[0] || "AT"@[1] != "NO"@[1]);
    assert("AT"@[0] != "FI"@[0] || "AT"@[1] != "FI"@[1]);
    assert("AT"@[0] != "DK"@[0] || "AT"@[1] != "DK"@[1]);
    assert("AT"@[0] != "CH"@[0] || "AT"@[1] != "CH"@[1]);
    assert("🇦🇹"@ =~= seq!['\u{1F1E6}', '\u{1F1F9}']);
    assert(regional_flag("AT"@) =~= seq!['\u{1F1E6}', '\u{1F1F9}']);
}

proof fn lemma_flag_be()
    ensures
        flag_table("BE"@) == regional_flag("BE"@),
{
    reveal_strlit("BE");
    reveal_strlit("🇧🇪");
    reveal_strlit("CN");
    reveal_strlit("US");
    reveal_strlit("JP");
    reveal_strlit("KR");
    reveal_strlit("UK");
    reveal_strlit("GB");
    reveal_strlit("DE");
    reveal_strlit("FR");
    reveal_strlit("CA");
    reveal_strlit("AU");
    reveal_strlit("IN");
    reveal_strlit("BR");
    reveal_strlit("RU");
    reveal_strlit("IT");
    reveal_strlit("ES");
    reveal_strlit("NL");
    reveal_strlit("SE");
    reveal_strlit("NO");
    reveal_strlit("FI");
    reveal_strlit("DK");
    reveal_strlit("CH");
    reveal_strlit("AT");
    assert("BE"@[0] != "CN"@[0] || "BE"@[1] != "CN"@[1]);
    assert("BE"@[0] != "US"@[0] || "BE"@[1] != "US"@[1]);
    assert("BE"@[0] != "JP"@[0] || "BE"@[1] != "JP"@[1]);
    assert("BE"@[0] != "KR"@[0] || "BE"@[1] != "KR"@[1]);
    assert("BE"@[0] != "UK"@[0] || "BE"@[1] != "UK"@[1]);
    assert("BE"@[0] != "GB"@[0] || "BE"@[1] != "GB"@[1]);
    assert("BE"@[0] != "DE"@[0] || "BE"@[1] != "DE"@[1]);
    assert("BE"@[0] != "FR"@[0] || "BE"@[1] != "FR"@[1]);
    assert("BE"@[0] != "CA"@[0] || "BE"@[1] != "CA"@[1]);
    assert("BE"@[0] != "AU"@[0] || "BE"@[1] != "AU"@[1]);
    assert("BE"@[0] != "IN"@[0] || "BE"@[1] != "IN"@[1]);
    assert("BE"@[0] != "BR"@[0] || "BE"@[1] != "BR"@[1]);
    assert("BE"@[0] != "RU"@[0] || "BE"@[1] != "RU"@[1]);
    assert("BE"@[0] != "IT"@[0] || "BE"@[1] != "IT"@[1]);
    assert("BE"@[0] != "ES"@[0] || "BE"@[1] != "ES"@[1]);
    assert("BE"@[0] != "NL"@[0] || "BE"@[1] != "NL"@[1]);
    assert("BE"@[0] != "SE"@[0] || "BE"@[1] != "SE"@[1]);
    assert("BE"@[0] != "NO"@[0] || "BE"@[1] != "NO"@[1]);
    assert("BE"@[0] != "FI"@[0] || "BE"@[1] != "FI"@[1]);
    assert("BE"@[0] != "DK"@[0] || "BE"@[1] != "DK"@[1]);
    assert("BE"@[0] != "CH"@[0] || "BE"@[1] != "CH"@[1]);
    assert("BE"@[0] != "AT"@[0] || "BE"@[1] != "AT"@[1]);
    assert("🇧🇪"@ =~= seq!['\u{1F1E7}', '\u{1F1EA}']);
    assert(regional_flag("BE"@) =~= seq!['\u{1F1E7}', '\u{1F1EA}']);
}

proof fn lemma_flag_pl()
    ensures
        flag_table("PL"@) == regional_flag("PL"@),
{
    reveal_strlit("PL");
    reveal_strlit("🇵🇱");
    reveal_strlit("CN");
    reveal_strlit("US");
    reveal_strlit("JP");
    reveal_strlit("KR");
    reveal_strlit("UK");
    reveal_strlit("GB");
    reveal_strlit("DE");
    reveal_strlit("FR");
    reveal_strlit("CA");
    reveal_strlit("AU");
    reveal_strlit("IN");
    reveal_strlit("BR");
    reveal_strlit("RU");
    reveal_strlit("IT");
    reveal_strlit("ES");
    reveal_strlit("NL");
    reveal_strlit("SE");
    reveal_strlit("NO");
    reveal_strlit("FI");
    reveal_strlit("DK");
    reveal_strlit("CH");
    reveal_strlit("AT");
    reveal_strlit("BE");
    assert("PL"@[0] != "CN"@[0] || "PL"@[1] != "CN"@[1]);
    assert("PL"@[0] != "US"@[0] || "PL"@[1] != "US"@[1]);
    assert("PL"@[0] != "JP"@[0] || "PL"@[1] != "JP"@[1]);
    assert("PL"@[0] != "KR"@[0] || "PL"@[1] != "KR"@[1]);
    assert("PL"@[0] != "UK"@[0] || "PL"@[1] != "UK"@[1]);
    assert("PL"@[0] != "GB"@[0] || "PL"@[1] != "GB"@[1]);
    assert("PL"@[0] != "DE"@[0] || "PL"@[1] != "DE"@[1]);
    assert("PL"@[0] != "FR"@[0] || "PL"@[1] != "FR"@[1]);
    assert("PL"@[0] != "CA"@[0] || "PL"@[1] != "CA"@[1]);
    assert("PL"@[0] != "AU"@[0] || "PL"@[1] != "AU"@[1]);
    assert("PL"@[0] != "IN"@[0] || "PL"@[1] != "IN"@[1]);
    assert("PL"@[0] != "BR"@[0] || "PL"@[1] != "BR"@[1]);
    assert("PL"@[0] != "RU"@[0] || "PL"@[1] != "RU"@[1]);
    assert("PL"@[0] != "IT"@[0] || "PL"@[1] != "IT"@[1]);
    assert("PL"@[0] != "ES"@[0] || "PL"@[1] != "ES"@[1]);
    assert("PL"@[0] != "NL"@[0] || "PL"@[1] != "NL"@[1]);
    assert("PL"@[0] != "SE"@[0] || "PL"@[1] != "SE"@[1]);
    assert("PL"@[0] != "NO"@[0] || "PL"@[1] != "NO"@[1]);
    assert("PL"@[0] != "FI"@[0] || "PL"@[1] != "FI"@[1]);
    assert("PL"@[0] != "DK"@[0] || "PL"@[1] != "DK"@[1]);
    assert("PL"@[0] != "CH"@[0] || "PL"@[1] != "CH"@[1]);
    assert("PL"@[0] != "AT"@[0] || "PL"@[1] != "AT"@[1]);
    assert("PL"@[0] != "BE"@[0] || "PL"@[1] != "BE"@[1]);
    assert("🇵🇱"@ =~= seq!['\u{1F1F5}', '\u{1F1F1}']);
    assert(regional_flag("PL"@) =~= seq!['\u{1F1F5}', '\u{1F1F1}']);
}

proof fn lemma_flag_cz()
    ensures
        flag_table("CZ"@) == regional_flag("CZ"@),
{
    reveal_strlit("CZ");
    reveal_strlit("🇨🇿");
    reveal_strlit("CN");
    reveal_strlit("US");
    reveal_strlit("JP");
    reveal_strlit("KR");
    reveal_strlit("UK");
    reveal_strlit("GB");
    reveal_strlit("DE");
    reveal_strlit("FR");
    reveal_strlit("CA");
    reveal_strlit("AU");
    reveal_strlit("IN");
    reveal_strlit("BR");
    reveal_strlit("RU");
    reveal_strlit("IT");
    reveal_strlit("ES");
    reveal_strlit("NL");
    reveal_strlit("SE");
    reveal_strlit("NO");
    reveal_strlit("FI");
    reveal_strlit("DK");
    reveal_strlit("CH");
    reveal_strlit("AT");
    reveal_strlit("BE");
    reveal_strlit("PL");
    assert("CZ"@[0] != "CN"@[0] || "CZ"@[1] != "CN"@[1]);
    assert("CZ"@[0] != "US"@[0] || "CZ"@[1] != "US"@[1]);
    assert("CZ"@[0] != "JP"@[0] || "CZ"@[1] != "JP"@[1]);
    assert("CZ"@[0] != "KR"@[0] || "CZ"@[1] != "KR"@[1]);
    assert("CZ"@[0] != "UK"@[0] || "CZ"@[1] != "UK"@[1]);
    assert("CZ"@[0] != "GB"@[0] || "CZ"@[1] != "GB"@[1]);
    assert("CZ"@[0] != "DE"@[0] || "CZ"@[1] != "DE"@[1]);
    assert("CZ"@[0] != "FR"@[0] || "CZ"@[1] != "FR"@[1]);
    assert("CZ"@[0] != "CA"@[0] || "CZ"@[1] != "CA"@[1]);
    assert("CZ"@[0] != "AU"@[0] || "CZ"@[1] != "AU"@[1]);
    assert("CZ"@[0] != "IN"@[0] || "CZ"@[1] != "IN"@[1]);
    assert("CZ"@[0] != "BR"@[0] || "CZ"@[1] != "BR"@[1]);
    assert("CZ"@[0] != "RU"@[0] || "CZ"@[1] != "RU"@[1]);
    assert("CZ"@[0] != "IT"@[0] || "CZ"@[1] != "IT"@[1]);
    assert("CZ"@[0] != "ES"@[0] || "CZ"@[1] != "ES"@[1]);
    assert("CZ"@[0] != "NL"@[0] || "CZ"@[1] != "NL"@[1]);
    assert("CZ"@[0] != "SE"@[0] || "CZ"@[1] != "SE"@[1]);
    assert("CZ"@[0] != "NO"@[0] || "CZ"@[1] != "NO"@[1]);
    assert("CZ"@[0] != "FI"@[0] || "CZ"@[1] != "FI"@[1]);
    assert("CZ"@[0] != "DK"@[0] || "CZ"@[1] != "DK"@[1]);
    assert("CZ"@[0] != "CH"@[0] || "CZ"@[1] != "CH"@[1]);
    assert("CZ"@[0] != "AT"@[0] || "CZ"@[1] != "AT"@[1]);
    assert("CZ"@[0] != "BE"@[0] || "CZ"@[1] != "BE"@[1]);
    assert("CZ"@[0] != "PL"@[0] || "CZ"@[1] != "PL"@[1]);
    assert("🇨🇿"@ =~= seq!['\u{1F1E8}', '\u{1F1FF}']);
    assert(regional_flag("CZ"@) =~= seq!['\u{1F1E8}', '\u{1F1FF}']);
}

proof fn lemma_flag_sk()
    ensures
        flag_table("SK"@) == regional_flag("SK"@),
{
    reveal_strlit("SK");
    reveal_strlit("🇸🇰");
    reveal_strlit("CN");
    reveal_strlit("US");
    reveal_strlit("JP");
    reveal_strlit("KR");
    reveal_strlit("UK");
    reveal_strlit("GB");
    reveal_strlit("DE");
    reveal_strlit("FR");
    reveal_strlit("CA");
    reveal_strlit("AU");
    reveal_strlit("IN");
    reveal_strlit("BR");
    reveal_strlit("RU");
    reveal_strlit("IT");
    reveal_strlit("ES");
    reveal_strlit("NL");
    reveal_strlit("SE");
    reveal_strlit("NO");
    reveal_strlit("FI");
    reveal_strlit("DK");
    reveal_strlit("CH");
    reveal_strlit("AT");
    reveal_strlit("BE");
    reveal_strlit("PL");
    reveal_strlit("CZ");
    assert("SK"@[0] != "CN"@[0] || "SK"@[1] != "CN"@[1]);
    assert("SK"@[0] != "US"@[0] || "SK"@[1] != "US"@[1]);
    assert("SK"@[0] != "JP"@[0] || "SK"@[1] != "JP"@[1]);
    assert("SK"@[0] != "KR"@[0] || "SK"@[1] != "KR"@[1]);
    assert("SK"@[0] != "UK"@[0] || "SK"@[1] != "UK"@[1]);
    assert("SK"@[0] != "GB"@[0] || "SK"@[1] != "GB"@[1]);
    assert("SK"@[0] != "DE"@[0] || "SK"@[1] != "DE"@[1]);
    assert("SK"@[0] != "FR"@[0] || "SK"@[1] != "FR"@[1]);
    assert("SK"@[0] != "CA"@[0] || "SK"@[1] != "CA"@[1]);
    assert("SK"@[0] != "AU"@[0] || "SK"@[1] != "AU"@[1]);
    assert("SK"@[0] != "IN"@[0] || "SK"@[1] != "IN"@[1]);
    assert("SK"@[0] != "BR"@[0] || "SK"@[1] != "BR"@[1]);
    assert("SK"@[0] != "RU"@[0] || "SK"@[1] != "RU"@[1]);
    assert("SK"@[0] != "IT"@[0] || "SK"@[1] != "IT"@[1]);
    assert("SK"@[0] != "ES"@[0] || "SK"@[1] != "ES"@[1]);
    assert("SK"@[0] != "NL"@[0] || "SK"@[1] != "NL"@[1]);
    assert("SK"@[0] != "SE"@[0] || "SK"@[1] != "SE"@[1]);
    assert("SK"@[0] != "NO"@[0] || "SK"@[1] != "NO"@[1]);
    assert("SK"@[0] != "FI"@[0] || "SK"@[1] != "FI"@[1]);
    assert("SK"@[0] != "DK"@[0] || "SK"@[1] != "DK"@[1]);
    assert("SK"@[0] != "CH"@[0] || "SK"@[1] != "CH"@[1]);
    assert("SK"@[0] != "AT"@[0] || "SK"@[1] != "AT"@[1]);
    assert("SK"@[0] != "BE"@[0] || "SK"@[1] != "BE"@[1]);
    assert("SK"@[0] != "PL"@[0] || "SK"@[1] != "PL"@[1]);
    assert("SK"@[0] != "CZ"@[0] || "SK"@[1] != "CZ"@[1]);
    assert("🇸🇰"@ =~= seq!['\u{1F1F8}', '\u{1F1F0}']);
    assert(regional_flag("SK"@) =~= seq!['\u{1F1F8}', '\u{1F1F0}']);
}

proof fn lemma_flag_hu()
    ensures
        flag_table("HU"@) == regional_flag("HU"@),
{
    reveal_strlit("HU");
    reveal_strlit("🇭🇺");
    reveal_strlit("CN");
    reveal_strlit("US");
    reveal_strlit("JP");
    reveal_strlit("KR");
    reveal_strlit("UK");
    reveal_strlit("GB");
    reveal_strlit("DE");
    reveal_strlit("FR");
    reveal_strlit("CA");
    reveal_strlit("AU");
    reveal_strlit("IN");
    reveal_strlit("BR");
    reveal_strlit("RU");
    reveal_strlit("IT");
    reveal_strlit("ES");
    reveal_strlit("NL");
    reveal_strlit("SE");
    reveal_strlit("NO");
    reveal_strlit("FI");
    reveal_strlit("DK");
    reveal_strlit("CH");
    reveal_strlit("AT");
    reveal_strlit("BE");
    reveal_strlit("PL");
    reveal_strlit("CZ");
    reveal_strlit("SK");
    assert("HU"@[0] != "CN"@[0] || "HU"@[1] != "CN"@[1]);
    assert("HU"@[0] != "US"@[0] || "HU"@[1] != "US"@[1]);
    assert("HU"@[0] != "JP"@[0] || "HU"@[1] != "JP"@[1]);
    assert("HU"@[0] != "KR"@[0] || "HU"@[1] != "KR"@[1]);
    assert("HU"@[0] != "UK"@[0] || "HU"@[1] != "UK"@[1]);
    assert("HU"@[0] != "GB"@[0] || "HU"@[1] != "GB"@[1]);
    assert("HU"@[0] != "DE"@[0] || "HU"@[1] != "DE"@[1]);
    assert("HU"@[0] != "FR"@[0] || "HU"@[1] != "FR"@[1]);
    assert("HU"@[0] != "CA"@[0] || "HU"@[1] != "CA"@[1]);
    assert("HU"@[0] != "AU"@[0] || "HU"@[1] != "AU"@[1]);
    assert("HU"@[0] != "IN"@[0] || "HU"@[1] != "IN"@[1]);
    assert("HU"@[0] != "BR"@[0] || "HU"@[1] != "BR"@[1]);
    assert("HU"@[0] != "RU"@[0] || "HU"@[1] != "RU"@[1]);
    assert("HU"@[0] != "IT"@[0] || "HU"@[1] != "IT"@[1]);
    assert("HU"@[0] != "ES"@[0] || "HU"@[1] != "ES"@[1]);
    assert("HU"@[0] != "NL"@[0] || "HU"@[1] != "NL"@[1]);
    assert("HU"@[0] != "SE"@[0] || "HU"@[1] != "SE"@[1]);
    assert("HU"@[0] != "NO"@[0] || "HU"@[1] != "NO"@[1]);
    assert("HU"@[0] != "FI"@[0] || "HU"@[1] != "FI"@[1]);
    assert("HU"@[0] != "DK"@[0] || "HU"@[1] != "DK"@[1]);
    assert("HU"@[0] != "CH"@[0] || "HU"@[1] != "CH"@[1]);
    assert("HU"@[0] != "AT"@[0] || "HU"@[1] != "AT"@[1]);
    assert("HU"@[0] != "BE"@[0] || "HU"@[1] != "BE"@[1]);
    assert("HU"@[0] != "PL"@[0] || "HU"@[1] != "PL"@[1]);
    assert("HU"@[0] != "CZ"@[0] || "HU"@[1] != "CZ"@[1]);
    assert("HU"@[0] != "SK"@[0] || "HU"@[1] != "SK"@[1]);
    assert("🇭🇺"@ =~= seq!['\u{1F1ED}', '\u{1F1FA}']);
    assert(regional_flag("HU"@) =~= seq!['\u{1F1ED}', '\u{1F1FA}']);
}

proof fn lemma_flag_gr()
    ensures
        flag_table("GR"@) == regional_flag("GR"@),
{
    reveal_strlit("GR");
    reveal_strlit("🇬🇷");
    reveal_strlit("CN");
    reveal_strlit("US");
    reveal_strlit("JP");
    reveal_strlit("KR");
    reveal_strlit("UK");
    reveal_strlit("GB");
    reveal_strlit("DE");
    reveal_strlit("FR");
    reveal_strlit("CA");
    reveal_strlit("AU");
    reveal_strlit("IN");
    reveal_strlit("BR");
    reveal_strlit("RU");
    reveal_strlit("IT");
    reveal_strlit("ES");
    reveal_strlit("NL");
    reveal_strlit("SE");
    reveal_strlit("NO");
    reveal_strlit("FI");
    reveal_strlit("DK");
    reveal_strlit("CH");
    reveal_strlit("AT");
    reveal_strlit("BE");
    reveal_strlit("PL");
    reveal_strlit("CZ");
    reveal_strlit("SK");
    reveal_strlit("HU");
    assert("GR"@[0] != "CN"@[0] || "GR"@[1] != "CN"@[1]);
    assert("GR"@[0] != "US"@[0] || "GR"@[1] != "US"@[1]);
    assert("GR"@[0] != "JP"@[0] || "GR"@[1] != "JP"@[1]);
    assert("GR"@[0] != "KR"@[0] || "GR"@[1] != "KR"@[1]);
    assert("GR"@[0] != "UK"@[0] || "GR"@[1] != "UK"@[1]);
    assert("GR"@[0] != "GB"@[0] || "GR"@[1] != "GB"@[1]);
    assert("GR"@[0] != "DE"@[0] || "GR"@[1] != "DE"@[1]);
    assert("GR"@[0] != "FR"@[0] || "GR"@[1] != "FR"@[1]);
    assert("GR"@[0] != "CA"@[0] || "GR"@[1] != "CA"@[1]);
    assert("GR"@[0] != "AU"@[0] || "GR"@[1] != "AU"@[1]);
    assert("GR"@[0] != "IN"@[0] || "GR"@[1] != "IN"@[1]);
    assert("GR"@[0] != "BR"@[0] || "GR"@[1] != "BR"@[1]);
    assert("GR"@[0] != "RU"@[0] || "GR"@[1] != "RU"@[1]);
    assert("GR"@[0] != "IT"@[0] || "GR"@[1] != "IT"@[1]);
    assert("GR"@[0] != "ES"@[0] || "GR"@[1] != "ES"@[1]);
    assert("GR"@[0] != "NL"@[0] || "GR"@[1] != "NL"@[1]);
    assert("GR"@[0] != "SE"@[0] || "GR"@[1] != "SE"@[1]);
    assert("GR"@[0] != "NO"@[0] || "GR"@[1] != "NO"@[1]);
    assert("GR"@[0] != "FI"@[0] || "GR"@[1] != "FI"@[1]);
    assert("GR"@[0] != "DK"@[0] || "GR"@[1] != "DK"@[1]);
    assert("GR"@[0] != "CH"@[0] || "GR"@[1] != "CH"@[1]);
    assert("GR"@[0] != "AT"@[0] || "GR"@[1] != "AT"@[1]);
    assert("GR"@[0] != "BE"@[0] || "GR"@[1] != "BE"@[1]);
    assert("GR"@[0] != "PL"@[0] || "GR"@[1] != "PL"@[1]);
    assert("GR"@[0] != "CZ"@[0] || "GR"@[1] != "CZ"@[1]);
    assert("GR"@[0] != "SK"@[0] || "GR"@[1] != "SK"@[1]);
    assert("GR"@[0] != "HU"@[0] || "GR"@[1] != "HU"@[1]);
    assert("🇬🇷"@ =~= seq!['\u{1F1EC}', '\u{1F1F7}']);
    assert(regional_flag("GR"@) =~= seq!['\u{1F1EC}', '\u{1F1F7}']);
}

proof fn lemma_flag_pt()
    ensures
        flag_table("PT"@) == regional_flag("PT"@),
{
    reveal_strlit("PT");
    reveal_strlit("🇵🇹");
    reveal_strlit("CN");
    reveal_strlit("US");
    reveal_strlit("JP");
    reveal_strlit("KR");
    reveal_strlit("UK");
    reveal_strlit("GB");
    reveal_strlit("DE");
    reveal_strlit("FR");
    reveal_strlit("CA");
    reveal_strlit("AU");
    reveal_strlit("IN");
    reveal_strlit("BR");
    reveal_strlit("RU");
    reveal_strlit("IT");
    reveal_strlit("ES");
    reveal_strlit("NL");
    reveal_strlit("SE");
    reveal_strlit("NO");
    reveal_strlit("FI");
    reveal_strlit("DK");
    reveal_strlit("CH");
    reveal_strlit("AT");
    reveal_strlit("BE");
    reveal_strlit("PL");
    reveal_strlit("CZ");
    reveal_strlit("SK");
    reveal_strlit("HU");
    reveal_strlit("GR");
    assert("PT"@[0] != "CN"@[0] || "PT"@[1] != "CN"@[1]);
    assert("PT"@[0] != "US"@[0] || "PT"@[1] != "US"@[1]);
    assert("PT"@[0] != "JP"@[0] || "PT"@[1] != "JP"@[1]);
    assert("PT"@[0] != "KR"@[0] || "PT"@[1] != "KR"@[1]);
    assert("PT"@[0] != "UK"@[0] || "PT"@[1] != "UK"@[1]);
    assert("PT"@[0] != "GB"@[0] || "PT"@[1] != "GB"@[1]);
    assert("PT"@[0] != "DE"@[0] || "PT"@[1] != "DE"@[1]);
    assert("PT"@[0] != "FR"@[0] || "PT"@[1] != "FR"@[1]);
    assert("PT"@[0] != "CA"@[0] || "PT"@[1] != "CA"@[1]);
    assert("PT"@[0] != "AU"@[0] || "PT"@[1] != "AU"@[1]);
    assert("PT"@[0] != "IN"@[0] || "PT"@[1] != "IN"@[1]);
    assert("PT"@[0] != "BR"@[0] || "PT"@[1] != "BR"@[1]);
    assert("PT"@[0] != "RU"@[0] || "PT"@[1] != "RU"@[1]);
    assert("PT"@[0] != "IT"@[0] || "PT"@[1] != "IT"@[1]);
    assert("PT"@[0] != "ES"@[0] || "PT"@[1] != "ES"@[1]);
    assert("PT"@[0] != "NL"@[0] || "PT"@[1] != "NL"@[1]);
    assert("PT"@[0] != "SE"@[0] || "PT"@[1] != "SE"@[1]);
    assert("PT"@[0] != "NO"@[0] || "PT"@[1] != "NO"@[1]);
    assert("PT"@[0] != "FI"@[0] || "PT"@[1] != "FI"@[1]);
    assert("PT"@[0] != "DK"@[0] || "PT"@[1] != "DK"@[1]);
    assert("PT"@[0] != "CH"@[0] || "PT"@[1] != "CH"@[1]);
    assert("PT"@[0] != "AT"@[0] || "PT"@[1] != "AT"@[1]);
    assert("PT"@[0] != "BE"@[0] || "PT"@[1] != "BE"@[1]);
    assert("PT"@[0] != "PL"@[0] || "PT"@[1] != "PL"@[1]);
    assert("PT"@[0] != "CZ"@[0] || "PT"@[1] != "CZ"@[1]);
    assert("PT"@[0] != "SK"@[0] || "PT"@[1] != "SK"@[1]);
    assert("PT"@[0] != "HU"@[0] || "PT"@[1] != "HU"@[1]);
    assert("PT"@[0] != "GR"@[0] || "PT"@[1] != "GR"@[1]);
    assert("🇵🇹"@ =~= seq!['\u{1F1F5}', '\u{1F1F9}']);
    assert(regional_flag("PT"@) =~= seq!['\u{1F1F5}', '\u{1F1F9}']);
}

proof fn lemma_flag_ie()
    ensures
        flag_table("IE"@) == regional_flag("IE"@),
{
    reveal_strlit("IE");
    reveal_strlit("🇮🇪");
    reveal_strlit("CN");
    reveal_strlit("US");
    reveal_strlit("JP");
    reveal_strlit("KR");
    reveal_strlit("UK");
    reveal_strlit("GB");
    reveal_strlit("DE");
    reveal_strlit("FR");
    reveal_strlit("CA");
    reveal_strlit("AU");
    reveal_strlit("IN");
    reveal_strlit("BR");
    reveal_strlit("RU");
    reveal_strlit("IT");
    reveal_strlit("ES");
    reveal_strlit("NL");
    reveal_strlit("SE");
    reveal_strlit("NO");
    reveal_strlit("FI");
    reveal_strlit("DK");
    reveal_strlit("CH");
    reveal_strlit("AT");
    reveal_strlit("BE");
    reveal_strlit("PL");
    reveal_strlit("CZ");
    reveal_strlit("SK");
    reveal_strlit("HU");
    reveal_strlit("GR");
    reveal_strlit("PT");
    assert("IE"@[0] != "CN"@[0] || "IE"@[1] != "CN"@[1]);
    assert("IE"@[0] != "US"@[0] || "IE"@[1] != "US"@[1]);
    assert("IE"@[0] != "JP"@[0] || "IE"@[1] != "JP"@[1]);
    assert("IE"@[0] != "KR"@[0] || "IE"@[1] != "KR"@[1]);
    assert("IE"@[0] != "UK"@[0] || "IE"@[1] != "UK"@[1]);
    assert("IE"@[0] != "GB"@[0] || "IE"@[1] != "GB"@[1]);
    assert("IE"@[0] != "DE"@[0] || "IE"@[1] != "DE"@[1]);
    assert("IE"@[0] != "FR"@[0] || "IE"@[1] != "FR"@[1]);
    assert("IE"@[0] != "CA"@[0] || "IE"@[1] != "CA"@[1]);
    assert("IE"@[0] != "AU"@[0] || "IE"@[1] != "AU"@[1]);
    assert("IE"@[0] != "IN"@[0] || "IE"@[1] != "IN"@[1]);
    assert("IE"@[0] != "BR"@[0] || "IE"@[1] != "BR"@[1]);
    assert("IE"@[0] != "RU"@[0] || "IE"@[1] != "RU"@[1]);
    assert("IE"@[0] != "IT"@[0] || "IE"@[1] != "IT"@[1]);
    assert("IE"@[0] != "ES"@[0] || "IE"@[1] != "ES"@[1]);
    assert("IE"@[0] != "NL"@[0] || "IE"@[1] != "NL"@[1]);
    assert("IE"@[0] != "SE"@[0] || "IE"@[1] != "SE"@[1]);
    assert("IE"@[0] != "NO"@[0] || "IE"@[1] != "NO"@[1]);
    assert("IE"@[0] != "FI"@[0] || "IE"@[1] != "FI"@[1]);
    assert("IE"@[0] != "DK"@[0] || "IE"@[1] != "DK"@[1]);
    assert("IE"@[0] != "CH"@[0] || "IE"@[1] != "CH"@[1]);
    assert("IE"@[0] != "AT"@[0] || "IE"@[1] != "AT"@[1]);
    assert("IE"@[0] != "BE"@[0] || "IE"@[1] != "BE"@[1]);
    assert("IE"@[0] != "PL"@[0] || "IE"@[1] != "PL"@[1]);
    assert("IE"@[0] != "CZ"@[0] || "IE"@[1] != "CZ"@[1]);
    assert("IE"@[0] != "SK"@[0] || "IE"@[1] != "SK"@[1]);
    assert("IE"@[0] != "HU"@[0] || "IE"@[1] != "HU"@[1]);
    assert("IE"@[0] != "GR"@[0] || "IE"@[1] != "GR"@[1]);
    assert("IE"@[0] != "PT"@[0] || "IE"@[1] != "PT"@[1]);
    assert("🇮🇪"@ =~= seq!['\u{1F1EE}', '\u{1F1EA}']);
    assert(regional_flag("IE"@) =~= seq!['\u{1F1EE}', '\u{1F1EA}']);
}

proof fn lemma_flag_nz()
    ensures
        flag_table("NZ"@) == regional_flag("NZ"@),
{
    reveal_strlit("NZ");
    reveal_strlit("🇳🇿");
    reveal_strlit("CN");
    reveal_strlit("US");
    reveal_strlit("JP");
    reveal_strlit("KR");
    reveal_strlit("UK");
    reveal_strlit("GB");
    reveal_strlit("DE");
    reveal_strlit("FR");
    reveal_strlit("CA");
    reveal_strlit("AU");
    reveal_strlit("IN");
    reveal_strlit("BR");
    reveal_strlit("RU");
    reveal_strlit("IT");
    reveal_strlit("ES");
    reveal_strlit("NL");
    reveal_strlit("SE");
    reveal_strlit("NO");
    reveal_strlit("FI");
    reveal_strlit("DK");
    reveal_strlit("CH");
    reveal_strlit("AT");
    reveal_strlit("BE");
    reveal_strlit("PL");
    reveal_strlit("CZ");
    reveal_strlit("SK");
    reveal_strlit("HU");
    reveal_strlit("GR");
    reveal_strlit("PT");
    reveal_strlit("IE");
    assert("NZ"@[0] != "CN"@[0] || "NZ"@[1] != "CN"@[1]);
    assert("NZ"@[0] != "US"@[0] || "NZ"@[1] != "US"@[1]);
    assert("NZ"@[0] != "JP"@[0] || "NZ"@[1] != "JP"@[1]);
    assert("NZ"@[0] != "KR"@[0] || "NZ"@[1] != "KR"@[1]);
    assert("NZ"@[0] != "UK"@[0] || "NZ"@[1] != "UK"@[1]);
    assert("NZ"@[0] != "GB"@[0] || "NZ"@[1] != "GB"@[1]);
    assert("NZ"@[0] != "DE"@[0] || "NZ"@[1] != "DE"@[1]);
    assert("NZ"@[0] != "FR"@[0] || "NZ"@[1] != "FR"@[1]);
    assert("NZ"@[0] != "CA"@[0] || "NZ"@[1] != "CA"@[1]);
    assert("NZ"@[0] != "AU"@[0] || "NZ"@[1] != "AU"@[1]);
    assert("NZ"@[0] != "IN"@[0] || "NZ"@[1] != "IN"@[1]);
    assert("NZ"@[0] != "BR"@[0] || "NZ"@[1] != "BR"@[1]);
    assert("NZ"@[0] != "RU"@[0] || "NZ"@[1] != "RU"@[1]);
    assert("NZ"@[0] != "IT"@[0] || "NZ"@[1] != "IT"@[1]);
    assert("NZ"@[0] != "ES"@[0] || "NZ"@[1] != "ES"@[1]);
    assert("NZ"@[0] != "NL"@[0] || "NZ"@[1] != "NL"@[1]);
    assert("NZ"@[0] != "SE"@[0] || "NZ"@[1] != "SE"@[1]);
    assert("NZ"@[0] != "NO"@[0] || "NZ"@[1] != "NO"@[1]);
    assert("NZ"@[0] != "FI"@[0] || "NZ"@[1] != "FI"@[1]);
    assert("NZ"@[0] != "DK"@[0] || "NZ"@[1] != "DK"@[1]);
    assert("NZ"@[0] != "CH"@[0] || "NZ"@[1] != "CH"@[1]);
    assert("NZ"@[0] != "AT"@[0] || "NZ"@[1] != "AT"@[1]);
    assert("NZ"@[0] != "BE"@[0] || "NZ"@[1] != "BE"@[1]);
    assert("NZ"@[0] != "PL"@[0] || "NZ"@[1] != "PL"@[1]);
    assert("NZ"@[0] != "CZ"@[0] || "NZ"@[1] != "CZ"@[1]);
    assert("NZ"@[0] != "SK"@[0] || "NZ"@[1] != "SK"@[1]);
    assert("NZ"@[0] != "HU"@[0] || "NZ"@[1] != "HU"@[1]);
    assert("NZ"@[0] != "GR"@[0] || "NZ"@[1] != "GR"@[1]);
    assert("NZ"@[0] != "PT"@[0] || "NZ"@[1] != "PT"@[1]);
    assert("NZ"@[0] != "IE"@[0] || "NZ"@[1] != "IE"@[1]);
    assert("🇳🇿"@ =~= seq!['\u{1F1F3}', '\u{1F1FF}']);
    assert(regional_flag("NZ"@) =~= seq!['\u{1F1F3}', '\u{1F1FF}']);
}

proof fn lemma_flag_sg()
    ensures
        flag_table("SG"@) == regional_flag("SG"@),
{
    reveal_strlit("SG");
    reveal_strlit("🇸🇬");
    reveal_strlit("CN");
    reveal_strlit("US");
    reveal_strlit("JP");
    reveal_strlit("KR");
    reveal_strlit("UK");
    reveal_strlit("GB");
    reveal_strlit("DE");
    reveal_strlit("FR");
    reveal_strlit("CA");
    reveal_strlit("AU");
    reveal_strlit("IN");
    reveal_strlit("BR");
    reveal_strlit("RU");
    reveal_strlit("IT");
    reveal_strlit("ES");
    reveal_strlit("NL");
    reveal_strlit("SE");
    reveal_strlit("NO");
    reveal_strlit("FI");
    reveal_strlit("DK");
    reveal_strlit("CH");
    reveal_strlit("AT");
    reveal_strlit("BE");
    reveal_strlit("PL");
    reveal_strlit("CZ");
    reveal_strlit("SK");
    reveal_strlit("HU");
    reveal_strlit("GR");
    reveal_strlit("PT");
    reveal_strlit("IE");
    reveal_strlit("NZ");
    assert("SG"@[0] != "CN"@[0] || "SG"@[1] != "CN"@[1]);
    assert("SG"@[0] != "US"@[0] || "SG"@[1] != "US"@[1]);
    assert("SG"@[0] != "JP"@[0] || "SG"@[1] != "JP"@[1]);
    assert("SG"@[0] != "KR"@[0] || "SG"@[1] != "KR"@[1]);
    assert("SG"@[0] != "UK"@[0] || "SG"@[1] != "UK"@[1]);
    assert("SG"@[0] != "GB"@[0] || "SG"@[1] != "GB"@[1]);
    assert("SG"@[0] != "DE"@[0] || "SG"@[1] != "DE"@[1]);
    assert("SG"@[0] != "FR"@[0] || "SG"@[1] != "FR"@[1]);
    assert("SG"@[0] != "CA"@[0] || "SG"@[1] != "CA"@[1]);
    assert("SG"@[0] != "AU"@[0] || "SG"@[1] != "AU"@[1]);
    assert("SG"@[0] != "IN"@[0] || "SG"@[1] != "IN"@[1]);
    assert("SG"@[0] != "BR"@[0] || "SG"@[1] != "BR"@[1]);
    assert("SG"@[0] != "RU"@[0] || "SG"@[1] != "RU"@[1]);
    assert("SG"@[0] != "IT"@[0] || "SG"@[1] != "IT"@[1]);
    assert("SG"@[0] != "ES"@[0] || "SG"@[1] != "ES"@[1]);
    assert("SG"@[0] != "NL"@[0] || "SG"@[1] != "NL"@[1]);
    assert("SG"@[0] != "SE"@[0] || "SG"@[1] != "SE"@[1]);
    assert("SG"@[0] != "NO"@[0] || "SG"@[1] != "NO"@[1]);
    assert("SG"@[0] != "FI"@[0] || "SG"@[1] != "FI"@[1]);
    assert("SG"@[0] != "DK"@[0] || "SG"@[1] != "DK"@[1]);
    assert("SG"@[0] != "CH"@[0] || "SG"@[1] != "CH"@[1]);
    assert("SG"@[0] != "AT"@[0] || "SG"@[1] != "AT"@[1]);
    assert("SG"@[0] != "BE"@[0] || "SG"@[1] != "BE"@[1]);
    assert("SG"@[0] != "PL"@[0] || "SG"@[1] != "PL"@[1]);
    assert("SG"@[0] != "CZ"@[0] || "SG"@[1] != "CZ"@[1]);
    assert("SG"@[0] != "SK"@[0] || "SG"@[1] != "SK"@[1]);
    assert("SG"@[0] != "HU"@[0] || "SG"@[1] != "HU"@[1]);
    assert("SG"@[0] != "GR"@[0] || "SG"@[1] != "GR"@[1]);
    assert("SG"@[0] != "PT"@[0] || "SG"@[1] != "PT"@[1]);
    assert("SG"@[0] != "IE"@[0] || "SG"@[1] != "IE"@[1]);
    assert("SG"@[0] != "NZ"@[0] || "SG"@[1] != "NZ"@[1]);
    assert("🇸🇬"@ =~= seq!['\u{1F1F8}', '\u{1F1EC}']);
    assert(regional_flag("SG"@) =~= seq!['\u{1F1F8}', '\u{1F1EC}']);
}

proof fn lemma_flag_my()
    ensures
        flag_table("MY"@) == regional_flag("MY"@),
{
    reveal_strlit("MY");
    reveal_strlit("🇲🇾");
    reveal_strlit("CN");
    reveal_strlit("US");
    reveal_strlit("JP");
    reveal_strlit("KR");
    reveal_strlit("UK");
    reveal_strlit("GB");
    reveal_strlit("DE");
    reveal_strlit("FR");
    reveal_strlit("CA");
    reveal_strlit("AU");
    reveal_strlit("IN");
    reveal_strlit("BR");
    reveal_strlit("RU");
    reveal_strlit("IT");
    reveal_strlit("ES");
    reveal_strlit("NL");
    reveal_strlit("SE");
    reveal_strlit("NO");
    reveal_strlit("FI");
    reveal_strlit("DK");
    reveal_strlit("CH");
    reveal_strlit("AT");
    reveal_strlit("BE");
    reveal_strlit("PL");
    reveal_strlit("CZ");
    reveal_strlit("SK");
    reveal_strlit("HU");
    reveal_strlit("GR");
    reveal_strlit("PT");
    reveal_strlit("IE");
    reveal_strlit("NZ");
    reveal_strlit("SG");
    assert("MY"@[0] != "CN"@[0] || "MY"@[1] != "CN"@[1]);
    assert("MY"@[0] != "US"@[0] || "MY"@[1] != "US"@[1]);
    assert("MY"@[0] != "JP"@[0] || "MY"@[1] != "JP"@[1]);
    assert("MY"@[0] != "KR"@[0] || "MY"@[1] != "KR"@[1]);
    assert("MY"@[0] != "UK"@[0] || "MY"@[1] != "UK"@[1]);
    assert("MY"@[0] != "GB"@[0] || "MY"@[1] != "GB"@[1]);
    assert("MY"@[0] != "DE"@[0] || "MY"@[1] != "DE"@[1]);
    assert("MY"@[0] != "FR"@[0] || "MY"@[1] != "FR"@[1]);
    assert("MY"@[0] != "CA"@[0] || "MY"@[1] != "CA"@[1]);
    assert("MY"@[0] != "AU"@[0] || "MY"@[1] != "AU"@[1]);
    assert("MY"@[0] != "IN"@[0] || "MY"@[1] != "IN"@[1]);
    assert("MY"@[0] != "BR"@[0] || "MY"@[1] != "BR"@[1]);
    assert("MY"@[0] != "RU"@[0] || "MY"@[1] != "RU"@[1]);
    assert("MY"@[0] != "IT"@[0] || "MY"@[1] != "IT"@[1]);
    assert("MY"@[0] != "ES"@[0] || "MY"@[1] != "ES"@[1]);
    assert("MY"@[0] != "NL"@[0] || "MY"@[1] != "NL"@[1]);
    assert("MY"@[0] != "SE"@[0] || "MY"@[1] != "SE"@[1]);
    assert("MY"@[0] != "NO"@[0] || "MY"@[1] != "NO"@[1]);
    assert("MY"@[0] != "FI"@[0] || "MY"@[1] != "FI"@[1]);
    assert("MY"@[0] != "DK"@[0] || "MY"@[1] != "DK"@[1]);
    assert("MY"@[0] != "CH"@[0] || "MY"@[1] != "CH"@[1]);
    assert("MY"@[0] != "AT"@[0] || "MY"@[1] != "AT"@[1]);
    assert("MY"@[0] != "BE"@[0] || "MY"@[1] != "BE"@[1]);
    assert("MY"@[0] != "PL"@[0] || "MY"@[1] != "PL"@[1]);
    assert("MY"@[0] != "CZ"@[0] || "MY"@[1] != "CZ"@[1]);
    assert("MY"@[0] != "SK"@[0] || "MY"@[1] != "SK"@[1]);
    assert("MY"@[0] != "HU"@[0] || "MY"@[1] != "HU"@[1]);
    assert("MY"@[0] != "GR"@[0] || "MY"@[1] != "GR"@[1]);
    assert("MY"@[0] != "PT"@[0] || "MY"@[1] != "PT"@[1]);
    assert("MY"@[0] != "IE"@[0] || "MY"@[1] != "IE"@[1]);
    assert("MY"@[0] != "NZ"@[0] || "MY"@[1] != "NZ"@[1]);
    assert("MY"@[0] != "SG"@[0] || "MY"@[1] != "SG"@[1]);
    assert("🇲🇾"@ =~= seq!['\u{1F1F2}', '\u{1F1FE}']);
    assert(regional_flag("MY"@) =~= seq!['\u{1F1F2}', '\u{1F1FE}']);
}

proof fn lemma_flag_th()
    ensures
        flag_table("TH"@) == regional_flag("TH"@),
{
    reveal_strlit("TH");
    reveal_strlit("🇹🇭");
    reveal_strlit("CN");
    reveal_strlit("US");
    reveal_strlit("JP");
    reveal_strlit("KR");
    reveal_strlit("UK");
    reveal_strlit("GB");
    reveal_strlit("DE");
    reveal_strlit("FR");
    reveal_strlit("CA");
    reveal_strlit("AU");
    reveal_strlit("IN");
    reveal_strlit("BR");
    reveal_strlit("RU");
    reveal_strlit("IT");
    reveal_strlit("ES");
    reveal_strlit("NL");
    reveal_strlit("SE");
    reveal_strlit("NO");
    reveal_strlit("FI");
    reveal_strlit("DK");
    reveal_strlit("CH");
    reveal_strlit("AT");
    reveal_strlit("BE");
    reveal_strlit("PL");
    reveal_strlit("CZ");
    reveal_strlit("SK");
    reveal_strlit("HU");
    reveal_strlit("GR");
    reveal_strlit("PT");
    reveal_strlit("IE");
    reveal_strlit("NZ");
    reveal_strlit("SG");
    reveal_strlit("MY");
    assert("TH"@[0] != "CN"@[0] || "TH"@[1] != "CN"@[1]);
    assert("TH"@[0] != "US"@[0] || "TH"@[1] != "US"@[1]);
    assert("TH"@[0] != "JP"@[0] || "TH"@[1] != "JP"@[1]);
    assert("TH"@[0] != "KR"@[0] || "TH"@[1] != "KR"@[1]);
    assert("TH"@[0] != "UK"@[0] || "TH"@[1] != "UK"@[1]);
    assert("TH"@[0] != "GB"@[0] || "TH"@[1] != "GB"@[1]);
    assert("TH"@[0] != "DE"@[0] || "TH"@[1] != "DE"@[1]);
    assert("TH"@[0] != "FR"@[0] || "TH"@[1] != "FR"@[1]);
    assert("TH"@[0] != "CA"@[0] || "TH"@[1] != "CA"@[1]);
    assert("TH"@[0] != "AU"@[0] || "TH"@[1] != "AU"@[1]);
    assert("TH"@[0] != "IN"@[0] || "TH"@[1] != "IN"@[1]);
    assert("TH"@[0] != "BR"@[0] || "TH"@[1] != "BR"@[1]);
    assert("TH"@[0] != "RU"@[0] || "TH"@[1] != "RU"@[1]);
    assert("TH"@[0] != "IT"@[0] || "TH"@[1] != "IT"@[1]);
    assert("TH"@[0] != "ES"@[0] || "TH"@[1] != "ES"@[1]);
    assert("TH"@[0] != "NL"@[0] || "TH"@[1] != "NL"@[1]);
    assert("TH"@[0] != "SE"@[0] || "TH"@[1] != "SE"@[1]);
    assert("TH"@[0] != "NO"@[0] || "TH"@[1] != "NO"@[1]);
    assert("TH"@[0] != "FI"@[0] || "TH"@[1] != "FI"@[1]);
    assert("TH"@[0] != "DK"@[0] || "TH"@[1] != "DK"@[1]);
    assert("TH"@[0] != "CH"@[0] || "TH"@[1] != "CH"@[1]);
    assert("TH"@[0] != "AT"@[0] || "TH"@[1] != "AT"@[1]);
    assert("TH"@[0] != "BE"@[0] || "TH"@[1] != "BE"@[1]);
    assert("TH"@[0] != "PL"@[0] || "TH"@[1] != "PL"@[1]);
    assert("TH"@[0] != "CZ"@[0] || "TH"@[1] != "CZ"@[1]);
    assert("TH"@[0] != "SK"@[0] || "TH"@[1] != "SK"@[1]);
    assert("TH"@[0] != "HU"@[0] || "TH"@[1] != "HU"@[1]);
    assert("TH"@[0] != "GR"@[0] || "TH"@[1] != "GR"@[1]);
    assert("TH"@[0] != "PT"@[0] || "TH"@[1] != "PT"@[1]);
    assert("TH"@[0] != "IE"@[0] || "TH"@[1] != "IE"@[1]);
    assert("TH"@[0] != "NZ"@[0] || "TH"@[1] != "NZ"@[1]);
    assert("TH"@[0] != "SG"@[0] || "TH"@[1] != "SG"@[1]);
    assert("TH"@[0] != "MY"@[0] || "TH"@[1] != "MY"@[1]);
    assert("🇹🇭"@ =~= seq!['\u{1F1F9}', '\u{1F1ED}']);
    assert(regional_flag("TH"@) =~= seq!['\u{1F1F9}', '\u{1F1ED}']);
}

proof fn lemma_flag_vn()
    ensures
        flag_table("VN"@) == regional_flag("VN"@),
{
    reveal_strlit("VN");
    reveal_strlit("🇻🇳");
    reveal_strlit("CN");
    reveal_strlit("US");
    reveal_strlit("JP");
    reveal_strlit("KR");
    reveal_strlit("UK");
    reveal_strlit("GB");
    reveal_strlit("DE");
    reveal_strlit("FR");
    reveal_strlit("CA");
    reveal_strlit("AU");
    reveal_strlit("IN");
    reveal_strlit("BR");
    reveal_strlit("RU");
    reveal_strlit("IT");
    reveal_strlit("ES");
    reveal_strlit("NL");
    reveal_strlit("SE");
    reveal_strlit("NO");
    reveal_strlit("FI");
    reveal_strlit("DK");
    reveal_strlit("CH");
    reveal_strlit("AT");
    reveal_strlit("BE");
    reveal_strlit("PL");
    reveal_strlit("CZ");
    reveal_strlit("SK");
    reveal_strlit("HU");
    reveal_strlit("GR");
    reveal_strlit("PT");
    reveal_strlit("IE");
    reveal_strlit("NZ");
    reveal_strlit("SG");
    reveal_strlit("MY");
    reveal_strlit("TH");
    assert("VN"@[0] != "CN"@[0] || "VN"@[1] != "CN"@[1]);
    assert("VN"@[0] != "US"@[0] || "VN"@[1] != "US"@[1]);
    assert("VN"@[0] != "JP"@[0] || "VN"@[1] != "JP"@[1]);
    assert("VN"@[0] != "KR"@[0] || "VN"@[1] != "KR"@[1]);
    assert("VN"@[0] != "UK"@[0] || "VN"@[1] != "UK"@[1]);
    assert("VN"@[0] != "GB"@[0] || "VN"@[1] != "GB"@[1]);
    assert("VN"@[0] != "DE"@[0] || "VN"@[1] != "DE"@[1]);
    assert("VN"@[0] != "FR"@[0] || "VN"@[1] != "FR"@[1]);
    assert("VN"@[0] != "CA"@[0] || "VN"@[1] != "CA"@[1]);
    assert("VN"@[0] != "AU"@[0] || "VN"@[1] != "AU"@[1]);
    assert("VN"@[0] != "IN"@[0] || "VN"@[1] != "IN"@[1]);
    assert("VN"@[0] != "BR"@[0] || "VN"@[1] != "BR"@[1]);
    assert("VN"@[0] != "RU"@[0] || "VN"@[1] != "RU"@[1]);
    assert("VN"@[0] != "IT"@[0] || "VN"@[1] != "IT"@[1]);
    assert("VN"@[0] != "ES"@[0] || "VN"@[1] != "ES"@[1]);
    assert("VN"@[0] != "NL"@[0] || "VN"@[1] != "NL"@[1]);
    assert("VN"@[0] != "SE"@[0] || "VN"@[1] != "SE"@[1]);
    assert("VN"@[0] != "NO"@[0] || "VN"@[1] != "NO"@[1]);
    assert("VN"@[0] != "FI"@[0] || "VN"@[1] != "FI"@[1]);
    assert("VN"@[0] != "DK"@[0] || "VN"@[1] != "DK"@[1]);
    assert("VN"@[0] != "CH"@[0] || "VN"@[1] != "CH"@[1]);
    assert("VN"@[0] != "AT"@[0] || "VN"@[1] != "AT"@[1]);
    assert("VN"@[0] != "BE"@[0] || "VN"@[1] != "BE"@[1]);
    assert("VN"@[0] != "PL"@[0] || "VN"@[1] != "PL"@[1]);
    assert("VN"@[0] != "CZ"@[0] || "VN"@[1] != "CZ"@[1]);
    assert("VN"@[0] != "SK"@[0] || "VN"@[1] != "SK"@[1]);
    assert("VN"@[0] != "HU"@[0] || "VN"@[1] != "HU"@[1]);
    assert("VN"@[0] != "GR"@[0] || "VN"@[1] != "GR"@[1]);
    assert("VN"@[0] != "PT"@[0] || "VN"@[1] != "PT"@[1]);
    assert("VN"@[0] != "IE"@[0] || "VN"@[1] != "IE"@[1]);
    assert("VN"@[0] != "NZ"@[0] || "VN"@[1] != "NZ"@[1]);
    assert("VN"@[0] != "SG"@[0] || "VN"@[1] != "SG"@[1]);
    assert("VN"@[0] != "MY"@[0] || "VN"@[1] != "MY"@[1]);
    assert("VN"@[0] != "TH"@[0] || "VN"@[1] != "TH"@[1]);
    assert("🇻🇳"@ =~= seq!['\u{1F1FB}', '\u{1F1F3}']);
    assert(regional_flag("VN"@) =~= seq!['\u{1F1FB}', '\u{1F1F3}']);
}

proof fn lemma_flag_ph()
    ensures
        flag_table("PH"@) == regional_flag("PH"@),
{
    reveal_strlit("PH");
    reveal_strlit("🇵🇭");
    reveal_strlit("CN");
    reveal_strlit("US");
    reveal_strlit("JP");
    reveal_strlit("KR");
    reveal_strlit("UK");
    reveal_strlit("GB");
    reveal_strlit("DE");
    reveal_strlit("FR");
    reveal_strlit("CA");
    reveal_strlit("AU");
    reveal_strlit("IN");
    reveal_strlit("BR");
    reveal_strlit("RU");
    reveal_strlit("IT");
    reveal_strlit("ES");
    reveal_strlit("NL");
    reveal_strlit("SE");
    reveal_strlit("NO");
    reveal_strlit("FI");
    reveal_strlit("DK");
    reveal_strlit("CH");
    reveal_strlit("AT");
    reveal_strlit("BE");
    reveal_strlit("PL");
    reveal_strlit("CZ");
    reveal_strlit("SK");
    reveal_strlit("HU");
    reveal_strlit("GR");
    reveal_strlit("PT");
    reveal_strlit("IE");
    reveal_strlit("NZ");
    reveal_strlit("SG");
    reveal_strlit("MY");
    reveal_strlit("TH");
    reveal_strlit("VN");
    assert("PH"@[0] != "CN"@[0] || "PH"@[1] != "CN"@[1]);
    assert("PH"@[0] != "US"@[0] || "PH"@[1] != "US"@[1]);
    assert("PH"@[0] != "JP"@[0] || "PH"@[1] != "JP"@[1]);
    assert("PH"@[0] != "KR"@[0] || "PH"@[1] != "KR"@[1]);
    assert("PH"@[0] != "UK"@[0] || "PH"@[1] != "UK"@[1]);
    assert("PH"@[0] != "GB"@[0] || "PH"@[1] != "GB"@[1]);
    assert("PH"@[0] != "DE"@[0] || "PH"@[1] != "DE"@[1]);
    assert("PH"@[0] != "FR"@[0] || "PH"@[1] != "FR"@[1]);
    assert("PH"@[0] != "CA"@[0] || "PH"@[1] != "CA"@[1]);
    assert("PH"@[0] != "AU"@[0] || "PH"@[1] != "AU"@[1]);
    assert("PH"@[0] != "IN"@[0] || "PH"@[1] != "IN"@[1]);
    assert("PH"@[0] != "BR"@[0] || "PH"@[1] != "BR"@[1]);
    assert("PH"@[0] != "RU"@[0] || "PH"@[1] != "RU"@[1]);
    assert("PH"@[0] != "IT"@[0] || "PH"@[1] != "IT"@[1]);
    assert("PH"@[0] != "ES"@[0] || "PH"@[1] != "ES"@[1]);
    assert("PH"@[0] != "NL"@[0] || "PH"@[1] != "NL"@[1]);
    assert("PH"@[0] != "SE"@[0] || "PH"@[1] != "SE"@[1]);
    assert("PH"@[0] != "NO"@[0] || "PH"@[1] != "NO"@[1]);
    assert("PH"@[0] != "FI"@[0] || "PH"@[1] != "FI"@[1]);
    assert("PH"@[0] != "DK"@[0] || "PH"@[1] != "DK"@[1]);
    assert("PH"@[0] != "CH"@[0] || "PH"@[1] != "CH"@[1]);
    assert("PH"@[0] != "AT"@[0] || "PH"@[1] != "AT"@[1]);
    assert("PH"@[0] != "BE"@[0] || "PH"@[1] != "BE"@[1]);
    assert("PH"@[0] != "PL"@[0] || "PH"@[1] != "PL"@[1]);
    assert("PH"@[0] != "CZ"@[0] || "PH"@[1] != "CZ"@[1]);
    assert("PH"@[0] != "SK"@[0] || "PH"@[1] != "SK"@[1]);
    assert("PH"@[0] != "HU"@[0] || "PH"@[1] != "HU"@[1]);
    assert("PH"@[0] != "GR"@[0] || "PH"@[1] != "GR"@[1]);
    assert("PH"@[0] != "PT"@[0] || "PH"@[1] != "PT"@[1]);
    assert("PH"@[0] != "IE"@[0] || "PH"@[1] != "IE"@[1]);
    assert("PH"@[0] != "NZ"@[0] || "PH"@[1] != "NZ"@[1]);
    assert("PH"@[0] != "SG"@[0] || "PH"@[1] != "SG"@[1]);
    assert("PH"@[0] != "MY"@[0] || "PH"@[1] != "MY"@[1]);
    assert("PH"@[0] != "TH"@[0] || "PH"@[1] != "TH"@[1]);
    assert("PH"@[0] != "VN"@[0] || "PH"@[1] != "VN"@[1]);
    assert("🇵🇭"@ =~= seq!['\u{1F1F5}', '\u{1F1ED}']);
    assert(regional_flag("PH"@) =~= seq!['\u{1F1F5}', '\u{1F1ED}']);
}

proof fn lemma_flag_id()
    ensures
        flag_table("ID"@) == regional_flag("ID"@),
{
    reveal_strlit("ID");
    reveal_strlit("🇮🇩");
    reveal_strlit("CN");
    reveal_strlit("US");
    reveal_strlit("JP");
    reveal_strlit("KR");
    reveal_strlit("UK");
    reveal_strlit("GB");
    reveal_strlit("DE");
    reveal_strlit("FR");
    reveal_strlit("CA");
    reveal_strlit("AU");
    reveal_strlit("IN");
    reveal_strlit("BR");
    reveal_strlit("RU");
    reveal_strlit("IT");
    reveal_strlit("ES");
    reveal_strlit("NL");
    reveal_strlit("SE");
    reveal_strlit("NO");
    reveal_strlit("FI");
    reveal_strlit("DK");
    reveal_strlit("CH");
    reveal_strlit("AT");
    reveal_strlit("BE");
    reveal_strlit("PL");
    reveal_strlit("CZ");
    reveal_strlit("SK");
    reveal_strlit("HU");
    reveal_strlit("GR");
    reveal_strlit("PT");
    reveal_strlit("IE");
    reveal_strlit("NZ");
    reveal_strlit("SG");
    reveal_strlit("MY");
    reveal_strlit("TH");
    reveal_strlit("VN");
    reveal_strlit("PH");
    assert("ID"@[0] != "CN"@[0] || "ID"@[1] != "CN"@[1]);
    assert("ID"@[0] != "US"@[0] || "ID"@[1] != "US"@[1]);
    assert("ID"@[0] != "JP"@[0] || "ID"@[1] != "JP"@[1]);
    assert("ID"@[0] != "KR"@[0] || "ID"@[1] != "KR"@[1]);
    assert("ID"@[0] != "UK"@[0] || "ID"@[1] != "UK"@[1]);
    assert("ID"@[0] != "GB"@[0] || "ID"@[1] != "GB"@[1]);
    assert("ID"@[0] != "DE"@[0] || "ID"@[1] != "DE"@[1]);
    assert("ID"@[0] != "FR"@[0] || "ID"@[1] != "FR"@[1]);
    assert("ID"@[0] != "CA"@[0] || "ID"@[1] != "CA"@[1]);
    assert("ID"@[0] != "AU"@[0] || "ID"@[1] != "AU"@[1]);
    assert("ID"@[0] != "IN"@[0] || "ID"@[1] != "IN"@[1]);
    assert("ID"@[0] != "BR"@[0] || "ID"@[1] != "BR"@[1]);
    assert("ID"@[0] != "RU"@[0] || "ID"@[1] != "RU"@[1]);
    assert("ID"@[0] != "IT"@[0] || "ID"@[1] != "IT"@[1]);
    assert("ID"@[0] != "ES"@[0] || "ID"@[1] != "ES"@[1]);
    assert("ID"@[0] != "NL"@[0] || "ID"@[1] != "NL"@[1]);
    assert("ID"@[0] != "SE"@[0] || "ID"@[1] != "SE"@[1]);
    assert("ID"@[0] != "NO"@[0] || "ID"@[1] != "NO"@[1]);
    assert("ID"@[0] != "FI"@[0] || "ID"@[1] != "FI"@[1]);
    assert("ID"@[0] != "DK"@[0] || "ID"@[1] != "DK"@[1]);
    assert("ID"@[0] != "CH"@[0] || "ID"@[1] != "CH"@[1]);
    assert("ID"@[0] != "AT"@[0] || "ID"@[1] != "AT"@[1]);
    assert("ID"@[0] != "BE"@[0] || "ID"@[1] != "BE"@[1]);
    assert("ID"@[0] != "PL"@[0] || "ID"@[1] != "PL"@[1]);
    assert("ID"@[0] != "CZ"@[0] || "ID"@[1] != "CZ"@[1]);
    assert("ID"@[0] != "SK"@[0] || "ID"@[1] != "SK"@[1]);
    assert("ID"@[0] != "HU"@[0] || "ID"@[1] != "HU"@[1]);
    assert("ID"@[0] != "GR"@[0] || "ID"@[1] != "GR"@[1]);
    assert("ID"@[0] != "PT"@[0] || "ID"@[1] != "PT"@[1]);
    assert("ID"@[0] != "IE"@[0] || "ID"@[1] != "IE"@[1]);
    assert("ID"@[0] != "NZ"@[0] || "ID"@[1] != "NZ"@[1]);
    assert("ID"@[0] != "SG"@[0] || "ID"@[1] != "SG"@[1]);
    assert("ID"@[0] != "MY"@[0] || "ID"@[1] != "MY"@[1]);
    assert("ID"@[0] != "TH"@[0] || "ID"@[1] != "TH"@[1]);
    assert("ID"@[0] != "VN"@[0] || "ID"@[1] != "VN"@[1]);
    assert("ID"@[0] != "PH"@[0] || "ID"@[1] != "PH"@[1]);
    assert("🇮🇩"@ =~= seq!['\u{1F1EE}', '\u{1F1E9}']);
    assert(regional_flag("ID"@) =~= seq!['\u{1F1EE}', '\u{1F1E9}']);
}

proof fn lemma_flag_mx()
    ensures
        flag_table("MX"@) == regional_flag("MX"@),
{
    reveal_strlit("MX");
    reveal_strlit("🇲🇽");
    reveal_strlit("CN");
    reveal_strlit("US");
    reveal_strlit("JP");
    reveal_strlit("KR");
    reveal_strlit("UK");
    reveal_strlit("GB");
    reveal_strlit("DE");
    reveal_strlit("FR");
    reveal_strlit("CA");
    reveal_strlit("AU");
    reveal_strlit("IN");
    reveal_strlit("BR");
    reveal_strlit("RU");
    reveal_strlit("IT");
    reveal_strlit("ES");
    reveal_strlit("NL");
    reveal_strlit("SE");
    reveal_strlit("NO");
    reveal_strlit("FI");
    reveal_strlit("DK");
    reveal_strlit("CH");
    reveal_strlit("AT");
    reveal_strlit("BE");
    reveal_strlit("PL");
    reveal_strlit("CZ");
    reveal_strlit("SK");
    reveal_strlit("HU");
    reveal_strlit("GR");
    reveal_strlit("PT");
    reveal_strlit("IE");
    reveal_strlit("NZ");
    reveal_strlit("SG");
    reveal_strlit("MY");
    reveal_strlit("TH");
    reveal_strlit("VN");
    reveal_strlit("PH");
    reveal_strlit("ID");
    assert("MX"@[0] != "CN"@[0] || "MX"@[1] != "CN"@[1]);
    assert("MX"@[0] != "US"@[0] || "MX"@[1] != "US"@[1]);
    assert("MX"@[0] != "JP"@[0] || "MX"@[1] != "JP"@[1]);
    assert("MX"@[0] != "KR"@[0] || "MX"@[1] != "KR"@[1]);
    assert("MX"@[0] != "UK"@[0] || "MX"@[1] != "UK"@[1]);
    assert("MX"@[0] != "GB"@[0] || "MX"@[1] != "GB"@[1]);
    assert("MX"@[0] != "DE"@[0] || "MX"@[1] != "DE"@[1]);
    assert("MX"@[0] != "FR"@[0] || "MX"@[1] != "FR"@[1]);
    assert("MX"@[0] != "CA"@[0] || "MX"@[1] != "CA"@[1]);
    assert("MX"@[0] != "AU"@[0] || "MX"@[1] != "AU"@[1]);
    assert("MX"@[0] != "IN"@[0] || "MX"@[1] != "IN"@[1]);
    assert("MX"@[0] != "BR"@[0] || "MX"@[1] != "BR"@[1]);
    assert("MX"@[0] != "RU"@[0] || "MX"@[1] != "RU"@[1]);
    assert("MX"@[0] != "IT"@[0] || "MX"@[1] != "IT"@[1]);
    assert("MX"@[0] != "ES"@[0] || "MX"@[1] != "ES"@[1]);
    assert("MX"@[0] != "NL"@[0] || "MX"@[1] != "NL"@[1]);
    assert("MX"@[0] != "SE"@[0] || "MX"@[1] != "SE"@[1]);
    assert("MX"@[0] != "NO"@[0] || "MX"@[1] != "NO"@[1]);
    assert("MX"@[0] != "FI"@[0] || "MX"@[1] != "FI"@[1]);
    assert("MX"@[0] != "DK"@[0] || "MX"@[1] != "DK"@[1]);
    assert("MX"@[0] != "CH"@[0] || "MX"@[1] != "CH"@[1]);
    assert("MX"@[0] != "AT"@[0] || "MX"@[1] != "AT"@[1]);
    assert("MX"@[0] != "BE"@[0] || "MX"@[1] != "BE"@[1]);
    assert("MX"@[0] != "PL"@[0] || "MX"@[1] != "PL"@[1]);
    assert("MX"@[0] != "CZ"@[0] || "MX"@[1] != "CZ"@[1]);
    assert("MX"@[0] != "SK"@[0] || "MX"@[1] != "SK"@[1]);
    assert("MX"@[0] != "HU"@[0] || "MX"@[1] != "HU"@[1]);
    assert("MX"@[0] != "GR"@[0] || "MX"@[1] != "GR"@[1]);
    assert("MX"@[0] != "PT"@[0] || "MX"@[1] != "PT"@[1]);
    assert("MX"@[0] != "IE"@[0] || "MX"@[1] != "IE"@[1]);
    assert("MX"@[0] != "NZ"@[0] || "MX"@[1] != "NZ"@[1]);
    assert("MX"@[0] != "SG"@[0] || "MX"@[1] != "SG"@[1]);
    assert("MX"@[0] != "MY"@[0] || "MX"@[1] != "MY"@[1]);
    assert("MX"@[0] != "TH"@[0] || "MX"@[1] != "TH"@[1]);
    assert("MX"@[0] != "VN"@[0] || "MX"@[1] != "VN"@[1]);
    assert("MX"@[0] != "PH"@[0] || "MX"@[1] != "PH"@[1]);
    assert("MX"@[0] != "ID"@[0] || "MX"@[1] != "ID"@[1]);
    assert("🇲🇽"@ =~= seq!['\u{1F1F2}', '\u{1F1FD}']);
    assert(regional_flag("MX"@) =~= seq!['\u{1F1F2}', '\u{1F1FD}']);
}

proof fn lemma_flag_ar()
    ensures
        flag_table("AR"@) == regional_flag("AR"@),
{
    reveal_strlit("AR");
    reveal_strlit("🇦🇷");
    reveal_strlit("CN");
    reveal_strlit("US");
    reveal_strlit("JP");
    reveal_strlit("KR");
    reveal_strlit("UK");
    reveal_strlit("GB");
    reveal_strlit("DE");
    reveal_strlit("FR");
    reveal_strlit("CA");
    reveal_strlit("AU");
    reveal_strlit("IN");
    reveal_strlit("BR");
    reveal_strlit("RU");
    reveal_strlit("IT");
    reveal_strlit("ES");
    reveal_strlit("NL");
    reveal_strlit("SE");
    reveal_strlit("NO");
    reveal_strlit("FI");
    reveal_strlit("DK");
    reveal_strlit("CH");
    reveal_strlit("AT");
    reveal_strlit("BE");
    reveal_strlit("PL");
    reveal_strlit("CZ");
    reveal_strlit("SK");
    reveal_strlit("HU");
    reveal_strlit("GR");
    reveal_strlit("PT");
    reveal_strlit("IE");
    reveal_strlit("NZ");
    reveal_strlit("SG");
    reveal_strlit("MY");
    reveal_strlit("TH");
    reveal_strlit("VN");
    reveal_strlit("PH");
    reveal_strlit("ID");
    reveal_strlit("MX");
    assert("AR"@[0] != "CN"@[0] || "AR"@[1] != "CN"@[1]);
    assert("AR"@[0] != "US"@[0] || "AR"@[1] != "US"@[1]);
    assert("AR"@[0] != "JP"@[0] || "AR"@[1] != "JP"@[1]);
    assert("AR"@[0] != "KR"@[0] || "AR"@[1] != "KR"@[1]);
    assert("AR"@[0] != "UK"@[0] || "AR"@[1] != "UK"@[1]);
    assert("AR"@[0] != "GB"@[0] || "AR"@[1] != "GB"@[1]);
    assert("AR"@[0] != "DE"@[0] || "AR"@[1] != "DE"@[1]);
    assert("AR"@[0] != "FR"@[0] || "AR"@[1] != "FR"@[1]);
    assert("AR"@[0] != "CA"@[0] || "AR"@[1] != "CA"@[1]);
    assert("AR"@[0] != "AU"@[0] || "AR"@[1] != "AU"@[1]);
    assert("AR"@[0] != "IN"@[0] || "AR"@[1] != "IN"@[1]);
    assert("AR"@[0] != "BR"@[0] || "AR"@[1] != "BR"@[1]);
    assert("AR"@[0] != "RU"@[0] || "AR"@[1] != "RU"@[1]);
    assert("AR"@[0] != "IT"@[0] || "AR"@[1] != "IT"@[1]);
    assert("AR"@[0] != "ES"@[0] || "AR"@[1] != "ES"@[1]);
    assert("AR"@[0] != "NL"@[0] || "AR"@[1] != "NL"@[1]);
    assert("AR"@[0] != "SE"@[0] || "AR"@[1] != "SE"@[1]);
    assert("AR"@[0] != "NO"@[0] || "AR"@[1] != "NO"@[1]);
    assert("AR"@[0] != "FI"@[0] || "AR"@[1] != "FI"@[1]);
    assert("AR"@[0] != "DK"@[0] || "AR"@[1] != "DK"@[1]);
    assert("AR"@[0] != "CH"@[0] || "AR"@[1] != "CH"@[1]);
    assert("AR"@[0] != "AT"@[0] || "AR"@[1] != "AT"@[1]);
    assert("AR"@[0] != "BE"@[0] || "AR"@[1] != "BE"@[1]);
    assert("AR"@[0] != "PL"@[0] || "AR"@[1] != "PL"@[1]);
    assert("AR"@[0] != "CZ"@[0] || "AR"@[1] != "CZ"@[1]);
    assert("AR"@[0] != "SK"@[0] || "AR"@[1] != "SK"@[1]);
    assert("AR"@[0] != "HU"@[0] || "AR"@[1] != "HU"@[1]);
    assert("AR"@[0] != "GR"@[0] || "AR"@[1] != "GR"@[1]);
    assert("AR"@[0] != "PT"@[0] || "AR"@[1] != "PT"@[1]);
    assert("AR"@[0] != "IE"@[0] || "AR"@[1] != "IE"@[1]);
    assert("AR"@[0] != "NZ"@[0] || "AR"@[1] != "NZ"@[1]);
    assert("AR"@[0] != "SG"@[0] || "AR"@[1] != "SG"@[1]);
    assert("AR"@[0] != "MY"@[0] || "AR"@[1] != "MY"@[1]);
    assert("AR"@[0] != "TH"@[0] || "AR"@[1] != "TH"@[1]);
    assert("AR"@[0] != "VN"@[0] || "AR"@[1] != "VN"@[1]);
    assert("AR"@[0] != "PH"@[0] || "AR"@[1] != "PH"@[1]);
    assert("AR"@[0] != "ID"@[0] || "AR"@[1] != "ID"@[1]);
    assert("AR"@[0] != "MX"@[0] || "AR"@[1] != "MX"@[1]);
    assert("🇦🇷"@ =~= seq!['\u{1F1E6}', '\u{1F1F7}']);
    assert(regional_flag("AR"@) =~= seq!['\u{1F1E6}', '\u{1F1F7}']);
}

proof fn lemma_flag_cl()
    ensures
        flag_table("CL"@) == regional_flag("CL"@),
{
    reveal_strlit("CL");
    reveal_strlit("🇨🇱");
    reveal_strlit("CN");
    reveal_strlit("US");
    reveal_strlit("JP");
    reveal_strlit("KR");
    reveal_strlit("UK");
    reveal_strlit("GB");
    reveal_strlit("DE");
    reveal_strlit("FR");
    reveal_strlit("CA");
    reveal_strlit("AU");
    reveal_strlit("IN");
    reveal_strlit("BR");
    reveal_strlit("RU");
    reveal_strlit("IT");
    reveal_strlit("ES");
    reveal_strlit("NL");
    reveal_strlit("SE");
    reveal_strlit("NO");
    reveal_strlit("FI");
    reveal_strlit("DK");
    reveal_strlit("CH");
    reveal_strlit("AT");
    reveal_strlit("BE");
    reveal_strlit("PL");
    reveal_strlit("CZ");
    reveal_strlit("SK");
    reveal_strlit("HU");
    reveal_strlit("GR");
    reveal_strlit("PT");
    reveal_strlit("IE");
    reveal_strlit("NZ");
    reveal_strlit("SG");
    reveal_strlit("MY");
    reveal_strlit("TH");
    reveal_strlit("VN");
    reveal_strlit("PH");
    reveal_strlit("ID");
    reveal_strlit("MX");
    reveal_strlit("AR");
    assert("CL"@[0] != "CN"@[0] || "CL"@[1] != "CN"@[1]);
    assert("CL"@[0] != "US"@[0] || "CL"@[1] != "US"@[1]);
    assert("CL"@[0] != "JP"@[0] || "CL"@[1] != "JP"@[1]);
    assert("CL"@[0] != "KR"@[0] || "CL"@[1] != "KR"@[1]);
    assert("CL"@[0] != "UK"@[0] || "CL"@[1] != "UK"@[1]);
    assert("CL"@[0] != "GB"@[0] || "CL"@[1] != "GB"@[1]);
    assert("CL"@[0] != "DE"@[0] || "CL"@[1] != "DE"@[1]);
    assert("CL"@[0] != "FR"@[0] || "CL"@[1] != "FR"@[1]);
    assert("CL"@[0] != "CA"@[0] || "CL"@[1] != "CA"@[1]);
    assert("CL"@[0] != "AU"@[0] || "CL"@[1] != "AU"@[1]);
    assert("CL"@[0] != "IN"@[0] || "CL"@[1] != "IN"@[1]);
    assert("CL"@[0] != "BR"@[0] || "CL"@[1] != "BR"@[1]);
    assert("CL"@[0] != "RU"@[0] || "CL"@[1] != "RU"@[1]);
    assert("CL"@[0] != "IT"@[0] || "CL"@[1] != "IT"@[1]);
    assert("CL"@[0] != "ES"@[0] || "CL"@[1] != "ES"@[1]);
    assert("CL"@[0] != "NL"@[0] || "CL"@[1] != "NL"@[1]);
    assert("CL"@[0] != "SE"@[0] || "CL"@[1] != "SE"@[1]);
    assert("CL"@[0] != "NO"@[0] || "CL"@[1] != "NO"@[1]);
    assert("CL"@[0] != "FI"@[0] || "CL"@[1] != "FI"@[1]);
    assert("CL"@[0] != "DK"@[0] || "CL"@[1] != "DK"@[1]);
    assert("CL"@[0] != "CH"@[0] || "CL"@[1] != "CH"@[1]);
    assert("CL"@[0] != "AT"@[0] || "CL"@[1] != "AT"@[1]);
    assert("CL"@[0] != "BE"@[0] || "CL"@[1] != "BE"@[1]);
    assert("CL"@[0] != "PL"@[0] || "CL"@[1] != "PL"@[1]);
    assert("CL"@[0] != "CZ"@[0] || "CL"@[1] != "CZ"@[1]);
    assert("CL"@[0] != "SK"@[0] || "CL"@[1] != "SK"@[1]);
    assert("CL"@[0] != "HU"@[0] || "CL"@[1] != "HU"@[1]);
    assert("CL"@[0] != "GR"@[0] || "CL"@[1] != "GR"@[1]);
    assert("CL"@[0] != "PT"@[0] || "CL"@[1] != "PT"@[1]);
    assert("CL"@[0] != "IE"@[0] || "CL"@[1] != "IE"@[1]);
    assert("CL"@[0] != "NZ"@[0] || "CL"@[1] != "NZ"@[1]);
    assert("CL"@[0] != "SG"@[0] || "CL"@[1] != "SG"@[1]);
    assert("CL"@[0] != "MY"@[0] || "CL"@[1] != "MY"@[1]);
    assert("CL"@[0] != "TH"@[0] || "CL"@[1] != "TH"@[1]);
    assert("CL"@[0] != "VN"@[0] || "CL"@[1] != "VN"@[1]);
    assert("CL"@[0] != "PH"@[0] || "CL"@[1] != "PH"@[1]);
    assert("CL"@[0] != "ID"@[0] || "CL"@[1] != "ID"@[1]);
    assert("CL"@[0] != "MX"@[0] || "CL"@[1] != "MX"@[1]);
    assert("CL"@[0] != "AR"@[0] || "CL"@[1] != "AR"@[1]);
    assert("🇨🇱"@ =~= seq!['\u{1F1E8}', '\u{1F1F1}']);
    assert(regional_flag("CL"@) =~= seq!['\u{1F1E8}', '\u{1F1F1}']);
}

proof fn lemma_flag_co()
    ensures
        flag_table("CO"@) == regional_flag("CO"@),
{
    reveal_strlit("CO");
    reveal_strlit("🇨🇴");
    reveal_strlit("CN");
    reveal_strlit("US");
    reveal_strlit("JP");
    reveal_strlit("KR");
    reveal_strlit("UK");
    reveal_strlit("GB");
    reveal_strlit("DE");
    reveal_strlit("FR");
    reveal_strlit("CA");
    reveal_strlit("AU");
    reveal_strlit("IN");
    reveal_strlit("BR");
    reveal_strlit("RU");
    reveal_strlit("IT");
    reveal_strlit("ES");
    reveal_strlit("NL");
    reveal_strlit("SE");
    reveal_strlit("NO");
    reveal_strlit("FI");
    reveal_strlit("DK");
    reveal_strlit("CH");
    reveal_strlit("AT");
    reveal_strlit("BE");
    reveal_strlit("PL");
    reveal_strlit("CZ");
    reveal_strlit("SK");
    reveal_strlit("HU");
    reveal_strlit("GR");
    reveal_strlit("PT");
    reveal_strlit("IE");
    reveal_strlit("NZ");
    reveal_strlit("SG");
    reveal_strlit("MY");
    reveal_strlit("TH");
    reveal_strlit("VN");
    reveal_strlit("PH");
    reveal_strlit("ID");
    reveal_strlit("MX");
    reveal_strlit("AR");
    reveal_strlit("CL");
    assert("CO"@[0] != "CN"@[0] || "CO"@[1] != "CN"@[1]);
    assert("CO"@[0] != "US"@[0] || "CO"@[1] != "US"@[1]);
    assert("CO"@[0] != "JP"@[0] || "CO"@[1] != "JP"@[1]);
    assert("CO"@[0] != "KR"@[0] || "CO"@[1] != "KR"@[1]);
    assert("CO"@[0] != "UK"@[0] || "CO"@[1] != "UK"@[1]);
    assert("CO"@[0] != "GB"@[0] || "CO"@[1] != "GB"@[1]);
    assert("CO"@[0] != "DE"@[0] || "CO"@[1] != "DE"@[1]);
    assert("CO"@[0] != "FR"@[0] || "CO"@[1] != "FR"@[1]);
    assert("CO"@[0] != "CA"@[0] || "CO"@[1] != "CA"@[1]);
    assert("CO"@[0] != "AU"@[0] || "CO"@[1] != "AU"@[1]);
    assert("CO"@[0] != "IN"@[0] || "CO"@[1] != "IN"@[1]);
    assert("CO"@[0] != "BR"@[0] || "CO"@[1] != "BR"@[1]);
    assert("CO"@[0] != "RU"@[0] || "CO"@[1] != "RU"@[1]);
    assert("CO"@[0] != "IT"@[0] || "CO"@[1] != "IT"@[1]);
    assert("CO"@[0] != "ES"@[0] || "CO"@[1] != "ES"@[1]);
    assert("CO"@[0] != "NL"@[0] || "CO"@[1] != "NL"@[1]);
    assert("CO"@[0] != "SE"@[0] || "CO"@[1] != "SE"@[1]);
    assert("CO"@[0] != "NO"@[0] || "CO"@[1] != "NO"@[1]);
    assert("CO"@[0] != "FI"@[0] || "CO"@[1] != "FI"@[1]);
    assert("CO"@[0] != "DK"@[0] || "CO"@[1] != "DK"@[1]);
    assert("CO"@[0] != "CH"@[0] || "CO"@[1] != "CH"@[1]);
    assert("CO"@[0] != "AT"@[0] || "CO"@[1] != "AT"@[1]);
    assert("CO"@[0] != "BE"@[0] || "CO"@[1] != "BE"@[1]);
    assert("CO"@[0] != "PL"@[0] || "CO"@[1] != "PL"@[1]);
    assert("CO"@[0] != "CZ"@[0] || "CO"@[1] != "CZ"@[1]);
    assert("CO"@[0] != "SK"@[0] || "CO"@[1] != "SK"@[1]);
    assert("CO"@[0] != "HU"@[0] || "CO"@[1] != "HU"@[1]);
    assert("CO"@[0] != "GR"@[0] || "CO"@[1] != "GR"@[1]);
    assert("CO"@[0] != "PT"@[0] || "CO"@[1] != "PT"@[1]);
    assert("CO"@[0] != "IE"@[0] || "CO"@[1] != "IE"@[1]);
    assert("CO"@[0] != "NZ"@[0] || "CO"@[1] != "NZ"@[1]);
    assert("CO"@[0] != "SG"@[0] || "CO"@[1] != "SG"@[1]);
    assert("CO"@[0] != "MY"@[0] || "CO"@[1] != "MY"@[1]);
    assert("CO"@[0] != "TH"@[0] || "CO"@[1] != "TH"@[1]);
    assert("CO"@[0] != "VN"@[0] || "CO"@[1] != "VN"@[1]);
    assert("CO"@[0] != "PH"@[0] || "CO"@[1] != "PH"@[1]);
    assert("CO"@[0] != "ID"@[0] || "CO"@[1] != "ID"@[1]);
    assert("CO"@[0] != "MX"@[0] || "CO"@[1] != "MX"@[1]);
    assert("CO"@[0] != "AR"@[0] || "CO"@[1] != "AR"@[1]);
    assert("CO"@[0] != "CL"@[0] || "CO"@[1] != "CL"@[1]);
    assert("🇨🇴"@ =~= seq!['\u{1F1E8}', '\u{1F1F4}']);
    assert(regional_flag("CO"@) =~= seq!['\u{1F1E8}', '\u{1F1F4}']);
}

proof fn lemma_flag_pe()
    ensures
        flag_table("PE"@) == regional_flag("PE"@),
{
    reveal_strlit("PE");
    reveal_strlit("🇵🇪");
    reveal_strlit("CN");
    reveal_strlit("US");
    reveal_strlit("JP");
    reveal_strlit("KR");
    reveal_strlit("UK");
    reveal_strlit("GB");
    reveal_strlit("DE");
    reveal_strlit("FR");
    reveal_strlit("CA");
    reveal_strlit("AU");
    reveal_strlit("IN");
    reveal_strlit("BR");
    reveal_strlit("RU");
    reveal_strlit("IT");
    reveal_strlit("ES");
    reveal_strlit("NL");
    reveal_strlit("SE");
    reveal_strlit("NO");
    reveal_strlit("FI");
    reveal_strlit("DK");
    reveal_strlit("CH");
    reveal_strlit("AT");
    reveal_strlit("BE");
    reveal_strlit("PL");
    reveal_strlit("CZ");
    reveal_strlit("SK");
    reveal_strlit("HU");
    reveal_strlit("GR");
    reveal_strlit("PT");
    reveal_strlit("IE");
    reveal_strlit("NZ");
    reveal_strlit("SG");
    reveal_strlit("MY");
    reveal_strlit("TH");
    reveal_strlit("VN");
    reveal_strlit("PH");
    reveal_strlit("ID");
    reveal_strlit("MX");
    reveal_strlit("AR");
    reveal_strlit("CL");
    reveal_strlit("CO");
    assert("PE"@[0] != "CN"@[0] || "PE"@[1] != "CN"@[1]);
    assert("PE"@[0] != "US"@[0] || "PE"@[1] != "US"@[1]);
    assert("PE"@[0] != "JP"@[0] || "PE"@[1] != "JP"@[1]);
    assert("PE"@[0] != "KR"@[0] || "PE"@[1] != "KR"@[1]);
    assert("PE"@[0] != "UK"@[0] || "PE"@[1] != "UK"@[1]);
    assert("PE"@[0] != "GB"@[0] || "PE"@[1] != "GB"@[1]);
    assert("PE"@[0] != "DE"@[0] || "PE"@[1] != "DE"@[1]);
    assert("PE"@[0] != "FR"@[0] || "PE"@[1] != "FR"@[1]);
    assert("PE"@[0] != "CA"@[0] || "PE"@[1] != "CA"@[1]);
    assert("PE"@[0] != "AU"@[0] || "PE"@[1] != "AU"@[1]);
    assert("PE"@[0] != "IN"@[0] || "PE"@[1] != "IN"@[1]);
    assert("PE"@[0] != "BR"@[0] || "PE"@[1] != "BR"@[1]);
    assert("PE"@[0] != "RU"@[0] || "PE"@[1] != "RU"@[1]);
    assert("PE"@[0] != "IT"@[0] || "PE"@[1] != "IT"@[1]);
    assert("PE"@[0] != "ES"@[0] || "PE"@[1] != "ES"@[1]);
    assert("PE"@[0] != "NL"@[0] || "PE"@[1] != "NL"@[1]);
    assert("PE"@[0] != "SE"@[0] || "PE"@[1] != "SE"@[1]);
    assert("PE"@[0] != "NO"@[0] || "PE"@[1] != "NO"@[1]);
    assert("PE"@[0] != "FI"@[0] || "PE"@[1] != "FI"@[1]);
    assert("PE"@[0] != "DK"@[0] || "PE"@[1] != "DK"@[1]);
    assert("PE"@[0] != "CH"@[0] || "PE"@[1] != "CH"@[1]);
    assert("PE"@[0] != "AT"@[0] || "PE"@[1] != "AT"@[1]);
    assert("PE"@[0] != "BE"@[0] || "PE"@[1] != "BE"@[1]);
    assert("PE"@[0] != "PL"@[0] || "PE"@[1] != "PL"@[1]);
    assert("PE"@[0] != "CZ"@[0] || "PE"@[1] != "CZ"@[1]);
    assert("PE"@[0] != "SK"@[0] || "PE"@[1] != "SK"@[1]);
    assert("PE"@[0] != "HU"@[0] || "PE"@[1] != "HU"@[1]);
    assert("PE"@[0] != "GR"@[0] || "PE"@[1] != "GR"@[1]);
    assert("PE"@[0] != "PT"@[0] || "PE"@[1] != "PT"@[1]);
    assert("PE"@[0] != "IE"@[0] || "PE"@[1] != "IE"@[1]);
    assert("PE"@[0] != "NZ"@[0] || "PE"@[1] != "NZ"@[1]);
    assert("PE"@[0] != "SG"@[0] || "PE"@[1] != "SG"@[1]);
    assert("PE"@[0] != "MY"@[0] || "PE"@[1] != "MY"@[1]);
    assert("PE"@[0] != "TH"@[0] || "PE"@[1] != "TH"@[1]);
    assert("PE"@[0] != "VN"@[0] || "PE"@[1] != "VN"@[1]);
    assert("PE"@[0] != "PH"@[0] || "PE"@[1] != "PH"@[1]);
    assert("PE"@[0] != "ID"@[0] || "PE"@[1] != "ID"@[1]);
    assert("PE"@[0] != "MX"@[0] || "PE"@[1] != "MX"@[1]);
    assert("PE"@[0] != "AR"@[0] || "PE"@[1] != "AR"@[1]);
    assert("PE"@[0] != "CL"@[0] || "PE"@[1] != "CL"@[1]);
    assert("PE"@[0] != "CO"@[0] || "PE"@[1] != "CO"@[1]);
    assert("🇵🇪"@ =~= seq!['\u{1F1F5}', '\u{1F1EA}']);
    assert(regional_flag("PE"@) =~= seq!['\u{1F1F5}', '\u{1F1EA}']);
}

proof fn lemma_flag_za()
    ensures
        flag_table("ZA"@) == regional_flag("ZA"@),
{
    reveal_strlit("ZA");
    reveal_strlit("🇿🇦");
    reveal_strlit("CN");
    reveal_strlit("US");
    reveal_strlit("JP");
    reveal_strlit("KR");
    reveal_strlit("UK");
    reveal_strlit("GB");
    reveal_strlit("DE");
    reveal_strlit("FR");
    reveal_strlit("CA");
    reveal_strlit("AU");
    reveal_strlit("IN");
    reveal_strlit("BR");
    reveal_strlit("RU");
    reveal_strlit("IT");
    reveal_strlit("ES");
    reveal_strlit("NL");
    reveal_strlit("SE");
    reveal_strlit("NO");
    reveal_strlit("FI");
    reveal_strlit("DK");
    reveal_strlit("CH");
    reveal_strlit("AT");
    reveal_strlit("BE");
    reveal_strlit("PL");
    reveal_strlit("CZ");
    reveal_strlit("SK");
    reveal_strlit("HU");
    reveal_strlit("GR");
    reveal_strlit("PT");
    reveal_strlit("IE");
    reveal_strlit("NZ");
    reveal_strlit("SG");
    reveal_strlit("MY");
    reveal_strlit("TH");
    reveal_strlit("VN");
    reveal_strlit("PH");
    reveal_strlit("ID");
    reveal_strlit("MX");
    reveal_strlit("AR");
    reveal_strlit("CL");
    reveal_strlit("CO");
    reveal_strlit("PE");
    assert("ZA"@[0] != "CN"@[0] || "ZA"@[1] != "CN"@[1]);
    assert("ZA"@[0] != "US"@[0] || "ZA"@[1] != "US"@[1]);
    assert("ZA"@[0] != "JP"@[0] || "ZA"@[1] != "JP"@[1]);
    assert("ZA"@[0] != "KR"@[0] || "ZA"@[1] != "KR"@[1]);
    assert("ZA"@[0] != "UK"@[0] || "ZA"@[1] != "UK"@[1]);
    assert("ZA"@[0] != "GB"@[0] || "ZA"@[1] != "GB"@[1]);
    assert("ZA"@[0] != "DE"@[0] || "ZA"@[1] != "DE"@[1]);
    assert("ZA"@[0] != "FR"@[0] || "ZA"@[1] != "FR"@[1]);
    assert("ZA"@[0] != "CA"@[0] || "ZA"@[1] != "CA"@[1]);
    assert("ZA"@[0] != "AU"@[0] || "ZA"@[1] != "AU"@[1]);
    assert("ZA"@[0] != "IN"@[0] || "ZA"@[1] != "IN"@[1]);
    assert("ZA"@[0] != "BR"@[0] || "ZA"@[1] != "BR"@[1]);
    assert("ZA"@[0] != "RU"@[0] || "ZA"@[1] != "RU"@[1]);
    assert("ZA"@[0] != "IT"@[0] || "ZA"@[1] != "IT"@[1]);
    assert("ZA"@[0] != "ES"@[0] || "ZA"@[1] != "ES"@[1]);
    assert("ZA"@[0] != "NL"@[0] || "ZA"@[1] != "NL"@[1]);
    assert("ZA"@[0] != "SE"@[0] || "ZA"@[1] != "SE"@[1]);
    assert("ZA"@[0] != "NO"@[0] || "ZA"@[1] != "NO"@[1]);
    assert("ZA"@[0] != "FI"@[0] || "ZA"@[1] != "FI"@[1]);
    assert("ZA"@[0] != "DK"@[0] || "ZA"@[1] != "DK"@[1]);
    assert("ZA"@[0] != "CH"@[0] || "ZA"@[1] != "CH"@[1]);
    assert("ZA"@[0] != "AT"@[0] || "ZA"@[1] != "AT"@[1]);
    assert("ZA"@[0] != "BE"@[0] || "ZA"@[1] != "BE"@[1]);
    assert("ZA"@[0] != "PL"@[0] || "ZA"@[1] != "PL"@[1]);
    assert("ZA"@[0] != "CZ"@[0] || "ZA"@[1] != "CZ"@[1]);
    assert("ZA"@[0] != "SK"@[0] || "ZA"@[1] != "SK"@[1]);
    assert("ZA"@[0] != "HU"@[0] || "ZA"@[1] != "HU"@[1]);
    assert("ZA"@[0] != "GR"@[0] || "ZA"@[1] != "GR"@[1]);
    assert("ZA"@[0] != "PT"@[0] || "ZA"@[1] != "PT"@[1]);
    assert("ZA"@[0] != "IE"@[0] || "ZA"@[1] != "IE"@[1]);
    assert("ZA"@[0] != "NZ"@[0] || "ZA"@[1] != "NZ"@[1]);
    assert("ZA"@[0] != "SG"@[0] || "ZA"@[1] != "SG"@[1]);
    assert("ZA"@[0] != "MY"@[0] || "ZA"@[1] != "MY"@[1]);
    assert("ZA"@[0] != "TH"@[0] || "ZA"@[1] != "TH"@[1]);
    assert("ZA"@[0] != "VN"@[0] || "ZA"@[1] != "VN"@[1]);
    assert("ZA"@[0] != "PH"@[0] || "ZA"@[1] != "PH"@[1]);
    assert("ZA"@[0] != "ID"@[0] || "ZA"@[1] != "ID"@[1]);
    assert("ZA"@[0] != "MX"@[0] || "ZA"@[1] != "MX"@[1]);
    assert("ZA"@[0] != "AR"@[0] || "ZA"@[1] != "AR"@[1]);
    assert("ZA"@[0] != "CL"@[0] || "ZA"@[1] != "CL"@[1]);
    assert("ZA"@[0] != "CO"@[0] || "ZA"@[1] != "CO"@[1]);
    assert("ZA"@[0] != "PE"@[0] || "ZA"@[1] != "PE"@[1]);
    assert("🇿🇦"@ =~= seq!['\u{1F1FF}', '\u{1F1E6}']);
    assert(regional_flag("ZA"@) =~= seq!['\u{1F1FF}', '\u{1F1E6}']);
}

proof fn lemma_flag_eg()
    ensures
        flag_table("EG"@) == regional_flag("EG"@),
{
    reveal_strlit("EG");
    reveal_strlit("🇪🇬");
    reveal_strlit("CN");
    reveal_strlit("US");
    reveal_strlit("JP");
    reveal_strlit("KR");
    reveal_strlit("UK");
    reveal_strlit("GB");
    reveal_strlit("DE");
    reveal_strlit("FR");
    reveal_strlit("CA");
    reveal_strlit("AU");
    reveal_strlit("IN");
    reveal_strlit("BR");
    reveal_strlit("RU");
    reveal_strlit("IT");
    reveal_strlit("ES");
    reveal_strlit("NL");
    reveal_strlit("SE");
    reveal_strlit("NO");
    reveal_strlit("FI");
    reveal_strlit("DK");
    reveal_strlit("CH");
    reveal_strlit("AT");
    reveal_strlit("BE");
    reveal_strlit("PL");
    reveal_strlit("CZ");
    reveal_strlit("SK");
    reveal_strlit("HU");
    reveal_strlit("GR");
    reveal_strlit("PT");
    reveal_strlit("IE");
    reveal_strlit("NZ");
    reveal_strlit("SG");
    reveal_strlit("MY");
    reveal_strlit("TH");
    reveal_strlit("VN");
    reveal_strlit("PH");
    reveal_strlit("ID");
    reveal_strlit("MX");
    reveal_strlit("AR");
    reveal_strlit("CL");
    reveal_strlit("CO");
    reveal_strlit("PE");
    reveal_strlit("ZA");
    assert("EG"@[0] != "CN"@[0] || "EG"@[1] != "CN"@[1]);
    assert("EG"@[0] != "US"@[0] || "EG"@[1] != "US"@[1]);
    assert("EG"@[0] != "JP"@[0] || "EG"@[1] != "JP"@[1]);
    assert("EG"@[0] != "KR"@[0] || "EG"@[1] != "KR"@[1]);
    assert("EG"@[0] != "UK"@[0] || "EG"@[1] != "UK"@[1]);
    assert("EG"@[0] != "GB"@[0] || "EG"@[1] != "GB"@[1]);
    assert("EG"@[0] != "DE"@[0] || "EG"@[1] != "DE"@[1]);
    assert("EG"@[0] != "FR"@[0] || "EG"@[1] != "FR"@[1]);
    assert("EG"@[0] != "CA"@[0] || "EG"@[1] != "CA"@[1]);
    assert("EG"@[0] != "AU"@[0] || "EG"@[1] != "AU"@[1]);
    assert("EG"@[0] != "IN"@[0] || "EG"@[1] != "IN"@[1]);
    assert("EG"@[0] != "BR"@[0] || "EG"@[1] != "BR"@[1]);
    assert("EG"@[0] != "RU"@[0] || "EG"@[1] != "RU"@[1]);
    assert("EG"@[0] != "IT"@[0] || "EG"@[1] != "IT"@[1]);
    assert("EG"@[0] != "ES"@[0] || "EG"@[1] != "ES"@[1]);
    assert("EG"@[0] != "NL"@[0] || "EG"@[1] != "NL"@[1]);
    assert("EG"@[0] != "SE"@[0] || "EG"@[1] != "SE"@[1]);
    assert("EG"@[0] != "NO"@[0] || "EG"@[1] != "NO"@[1]);
    assert("EG"@[0] != "FI"@[0] || "EG"@[1] != "FI"@[1]);
    assert("EG"@[0] != "DK"@[0] || "EG"@[1] != "DK"@[1]);
    assert("EG"@[0] != "CH"@[0] || "EG"@[1] != "CH"@[1]);
    assert("EG"@[0] != "AT"@[0] || "EG"@[1] != "AT"@[1]);
    assert("EG"@[0] != "BE"@[0] || "EG"@[1] != "BE"@[1]);
    assert("EG"@[0] != "PL"@[0] || "EG"@[1] != "PL"@[1]);
    assert("EG"@[0] != "CZ"@[0] || "EG"@[1] != "CZ"@[1]);
    assert("EG"@[0] != "SK"@[0] || "EG"@[1] != "SK"@[1]);
    assert("EG"@[0] != "HU"@[0] || "EG"@[1] != "HU"@[1]);
    assert("EG"@[0] != "GR"@[0] || "EG"@[1] != "GR"@[1]);
    assert("EG"@[0] != "PT"@[0] || "EG"@[1] != "PT"@[1]);
    assert("EG"@[0] != "IE"@[0] || "EG"@[1] != "IE"@[1]);
    assert("EG"@[0] != "NZ"@[0] || "EG"@[1] != "NZ"@[1]);
    assert("EG"@[0] != "SG"@[0] || "EG"@[1] != "SG"@[1]);
    assert("EG"@[0] != "MY"@[0] || "EG"@[1] != "MY"@[1]);
    assert("EG"@[0] != "TH"@[0] || "EG"@[1] != "TH"@[1]);
    assert("EG"@[0] != "VN"@[0] || "EG"@[1] != "VN"@[1]);
    assert("EG"@[0] != "PH"@[0] || "EG"@[1] != "PH"@[1]);
    assert("EG"@[0] != "ID"@[0] || "EG"@[1] != "ID"@[1]);
    assert("EG"@[0] != "MX"@[0] || "EG"@[1] != "MX"@[1]);
    assert("EG"@[0] != "AR"@[0] || "EG"@[1] != "AR"@[1]);
    assert("EG"@[0] != "CL"@[0] || "EG"@[1] != "CL"@[1]);
    assert("EG"@[0] != "CO"@[0] || "EG"@[1] != "CO"@[1]);
    assert("EG"@[0] != "PE"@[0] || "EG"@[1] != "PE"@[1]);
    assert("EG"@[0] != "ZA"@[0] || "EG"@[1] != "ZA"@[1]);
    assert("🇪🇬"@ =~= seq!['\u{1F1EA}', '\u{1F1EC}']);
    assert(regional_flag("EG"@) =~= seq!['\u{1F1EA}', '\u{1F1EC}']);
}

proof fn lemma_flag_il()
    ensures
        flag_table("IL"@) == regional_flag("IL"@),
{
    reveal_strlit("IL");
    reveal_strlit("🇮🇱");
    reveal_strlit("CN");
    reveal_strlit("US");
    reveal_strlit("JP");
    reveal_strlit("KR");
    reveal_strlit("UK");
    reveal_strlit("GB");
    reveal_strlit("DE");
    reveal_strlit("FR");
    reveal_strlit("CA");
    reveal_strlit("AU");
    reveal_strlit("IN");
    reveal_strlit("BR");
    reveal_strlit("RU");
    reveal_strlit("IT");
    reveal_strlit("ES");
    reveal_strlit("NL");
    reveal_strlit("SE");
    reveal_strlit("NO");
    reveal_strlit("FI");
    reveal_strlit("DK");
    reveal_strlit("CH");
    reveal_strlit("AT");
    reveal_strlit("BE");
    reveal_strlit("PL");
    reveal_strlit("CZ");
    reveal_strlit("SK");
    reveal_strlit("HU");
    reveal_strlit("GR");
    reveal_strlit("PT");
    reveal_strlit("IE");
    reveal_strlit("NZ");
    reveal_strlit("SG");
    reveal_strlit("MY");
    reveal_strlit("TH");
    reveal_strlit("VN");
    reveal_strlit("PH");
    reveal_strlit("ID");
    reveal_strlit("MX");
    reveal_strlit("AR");
    reveal_strlit("CL");
    reveal_strlit("CO");
    reveal_strlit("PE");
    reveal_strlit("ZA");
    reveal_strlit("EG");
    assert("IL"@[0] != "CN"@[0] || "IL"@[1] != "CN"@[1]);
    assert("IL"@[0] != "US"@[0] || "IL"@[1] != "US"@[1]);
    assert("IL"@[0] != "JP"@[0] || "IL"@[1] != "JP"@[1]);
    assert("IL"@[0] != "KR"@[0] || "IL"@[1] != "KR"@[1]);
    assert("IL"@[0] != "UK"@[0] || "IL"@[1] != "UK"@[1]);
    assert("IL"@[0] != "GB"@[0] || "IL"@[1] != "GB"@[1]);
    assert("IL"@[0] != "DE"@[0] || "IL"@[1] != "DE"@[1]);
    assert("IL"@[0] != "FR"@[0] || "IL"@[1] != "FR"@[1]);
    assert("IL"@[0] != "CA"@[0] || "IL"@[1] != "CA"@[1]);
    assert("IL"@[0] != "AU"@[0] || "IL"@[1] != "AU"@[1]);
    assert("IL"@[0] != "IN"@[0] || "IL"@[1] != "IN"@[1]);
    assert("IL"@[0] != "BR"@[0] || "IL"@[1] != "BR"@[1]);
    assert("IL"@[0] != "RU"@[0] || "IL"@[1] != "RU"@[1]);
    assert("IL"@[0] != "IT"@[0] || "IL"@[1] != "IT"@[1]);
    assert("IL"@[0] != "ES"@[0] || "IL"@[1] != "ES"@[1]);
    assert("IL"@[0] != "NL"@[0] || "IL"@[1] != "NL"@[1]);
    assert("IL"@[0] != "SE"@[0] || "IL"@[1] != "SE"@[1]);
    assert("IL"@[0] != "NO"@[0] || "IL"@[1] != "NO"@[1]);
    assert("IL"@[0] != "FI"@[0] || "IL"@[1] != "FI"@[1]);
    assert("IL"@[0] != "DK"@[0] || "IL"@[1] != "DK"@[1]);
    assert("IL"@[0] != "CH"@[0] || "IL"@[1] != "CH"@[1]);
    assert("IL"@[0] != "AT"@[0] || "IL"@[1] != "AT"@[1]);
    assert("IL"@[0] != "BE"@[0] || "IL"@[1] != "BE"@[1]);
    assert("IL"@[0] != "PL"@[0] || "IL"@[1] != "PL"@[1]);
    assert("IL"@[0] != "CZ"@[0] || "IL"@[1] != "CZ"@[1]);
    assert("IL"@[0] != "SK"@[0] || "IL"@[1] != "SK"@[1]);
    assert("IL"@[0] != "HU"@[0] || "IL"@[1] != "HU"@[1]);
    assert("IL"@[0] != "GR"@[0] || "IL"@[1] != "GR"@[1]);
    assert("IL"@[0] != "PT"@[0] || "IL"@[1] != "PT"@[1]);
    assert("IL"@[0] != "IE"@[0] || "IL"@[1] != "IE"@[1]);
    assert("IL"@[0] != "NZ"@[0] || "IL"@[1] != "NZ"@[1]);
    assert("IL"@[0] != "SG"@[0] || "IL"@[1] != "SG"@[1]);
    assert("IL"@[0] != "MY"@[0] || "IL"@[1] != "MY"@[1]);
    assert("IL"@[0] != "TH"@[0] || "IL"@[1] != "TH"@[1]);
    assert("IL"@[0] != "VN"@[0] || "IL"@[1] != "VN"@[1]);
    assert("IL"@[0] != "PH"@[0] || "IL"@[1] != "PH"@[1]);
    assert("IL"@[0] != "ID"@[0] || "IL"@[1] != "ID"@[1]);
    assert("IL"@[0] != "MX"@[0] || "IL"@[1] != "MX"@[1]);
    assert("IL"@[0] != "AR"@[0] || "IL"@[1] != "AR"@[1]);
    assert("IL"@[0] != "CL"@[0] || "IL"@[1] != "CL"@[1]);
    assert("IL"@[0] != "CO"@[0] || "IL"@[1] != "CO"@[1]);
    assert("IL"@[0] != "PE"@[0] || "IL"@[1] != "PE"@[1]);
    assert("IL"@[0] != "ZA"@[0] || "IL"@[1] != "ZA"@[1]);
    assert("IL"@[0] != "EG"@[0] || "IL"@[1] != "EG"@[1]);
    assert("🇮🇱"@ =~= seq!['\u{1F1EE}', '\u{1F1F1}']);
    assert(regional_flag("IL"@) =~= seq!['\u{1F1EE}', '\u{1F1F1}']);
}

proof fn lemma_flag_tr()
    ensures
        flag_table("TR"@) == regional_flag("TR"@),
{
    reveal_strlit("TR");
    reveal_strlit("🇹🇷");
    reveal_strlit("CN");
    reveal_strlit("US");
    reveal_strlit("JP");
    reveal_strlit("KR");
    reveal_strlit("UK");
    reveal_strlit("GB");
    reveal_strlit("DE");
    reveal_strlit("FR");
    reveal_strlit("CA");
    reveal_strlit("AU");
    reveal_strlit("IN");
    reveal_strlit("BR");
    reveal_strlit("RU");
    reveal_strlit("IT");
    reveal_strlit("ES");
    reveal_strlit("NL");
    reveal_strlit("SE");
    reveal_strlit("NO");
    reveal_strlit("FI");
    reveal_strlit("DK");
    reveal_strlit("CH");
    reveal_strlit("AT");
    reveal_strlit("BE");
    reveal_strlit("PL");
    reveal_strlit("CZ");
    reveal_strlit("SK");
    reveal_strlit("HU");
    reveal_strlit("GR");
    reveal_strlit("PT");
    reveal_strlit("IE");
    reveal_strlit("NZ");
    reveal_strlit("SG");
    reveal_strlit("MY");
    reveal_strlit("TH");
    reveal_strlit("VN");
    reveal_strlit("PH");
    reveal_strlit("ID");
    reveal_strlit("MX");
    reveal_strlit("AR");
    reveal_strlit("CL");
    reveal_strlit("CO");
    reveal_strlit("PE");
    reveal_strlit("ZA");
    reveal_strlit("EG");
    reveal_strlit("IL");
    assert("TR"@[0] != "CN"@[0] || "TR"@[1] != "CN"@[1]);
    assert("TR"@[0] != "US"@[0] || "TR"@[1] != "US"@[1]);
    assert("TR"@[0] != "JP"@[0] || "TR"@[1] != "JP"@[1]);
    assert("TR"@[0] != "KR"@[0] || "TR"@[1] != "KR"@[1]);
    assert("TR"@[0] != "UK"@[0] || "TR"@[1] != "UK"@[1]);
    assert("TR"@[0] != "GB"@[0] || "TR"@[1] != "GB"@[1]);
    assert("TR"@[0] != "DE"@[0] || "TR"@[1] != "DE"@[1]);
    assert("TR"@[0] != "FR"@[0] || "TR"@[1] != "FR"@[1]);
    assert("TR"@[0] != "CA"@[0] || "TR"@[1] != "CA"@[1]);
    assert("TR"@[0] != "AU"@[0] || "TR"@[1] != "AU"@[1]);
    assert("TR"@[0] != "IN"@[0] || "TR"@[1] != "IN"@[1]);
    assert("TR"@[0] != "BR"@[0] || "TR"@[1] != "BR"@[1]);
    assert("TR"@[0] != "RU"@[0] || "TR"@[1] != "RU"@[1]);
    assert("TR"@[0] != "IT"@[0] || "TR"@[1] != "IT"@[1]);
    assert("TR"@[0] != "ES"@[0] || "TR"@[1] != "ES"@[1]);
    assert("TR"@[0] != "NL"@[0] || "TR"@[1] != "NL"@[1]);
    assert("TR"@[0] != "SE"@[0] || "TR"@[1] != "SE"@[1]);
    assert("TR"@[0] != "NO"@[0] || "TR"@[1] != "NO"@[1]);
    assert("TR"@[0] != "FI"@[0] || "TR"@[1] != "FI"@[1]);
    assert("TR"@[0] != "DK"@[0] || "TR"@[1] != "DK"@[1]);
    assert("TR"@[0] != "CH"@[0] || "TR"@[1] != "CH"@[1]);
    assert("TR"@[0] != "AT"@[0] || "TR"@[1] != "AT"@[1]);
    assert("TR"@[0] != "BE"@[0] || "TR"@[1] != "BE"@[1]);
    assert("TR"@[0] != "PL"@[0] || "TR"@[1] != "PL"@[1]);
    assert("TR"@[0] != "CZ"@[0] || "TR"@[1] != "CZ"@[1]);
    assert("TR"@[0] != "SK"@[0] || "TR"@[1] != "SK"@[1]);
    assert("TR"@[0] != "HU"@[0] || "TR"@[1] != "HU"@[1]);
    assert("TR"@[0] != "GR"@[0] || "TR"@[1] != "GR"@[1]);
    assert("TR"@[0] != "PT"@[0] || "TR"@[1] != "PT"@[1]);
    assert("TR"@[0] != "IE"@[0] || "TR"@[1] != "IE"@[1]);
    assert("TR"@[0] != "NZ"@[0] || "TR"@[1] != "NZ"@[1]);
    assert("TR"@[0] != "SG"@[0] || "TR"@[1] != "SG"@[1]);
    assert("TR"@[0] != "MY"@[0] || "TR"@[1] != "MY"@[1]);
    assert("TR"@[0] != "TH"@[0] || "TR"@[1] != "TH"@[1]);
    assert("TR"@[0] != "VN"@[0] || "TR"@[1] != "VN"@[1]);
    assert("TR"@[0] != "PH"@[0] || "TR"@[1] != "PH"@[1]);
    assert("TR"@[0] != "ID"@[0] || "TR"@[1] != "ID"@[1]);
    assert("TR"@[0] != "MX"@[0] || "TR"@[1] != "MX"@[1]);
    assert("TR"@[0] != "AR"@[0] || "TR"@[1] != "AR"@[1]);
    assert("TR"@[0] != "CL"@[0] || "TR"@[1] != "CL"@[1]);
    assert("TR"@[0] != "CO"@[0] || "TR"@[1] != "CO"@[1]);
    assert("TR"@[0] != "PE"@[0] || "TR"@[1] != "PE"@[1]);
    assert("TR"@[0] != "ZA"@[0] || "TR"@[1] != "ZA"@[1]);
    assert("TR"@[0] != "EG"@[0] || "TR"@[1] != "EG"@[1]);
    assert("TR"@[0] != "IL"@[0] || "TR"@[1] != "IL"@[1]);
    assert("🇹🇷"@ =~= seq!['\u{1F1F9}', '\u{1F1F7}']);
    assert(regional_flag("TR"@) =~= seq!['\u{1F1F9}', '\u{1F1F7}']);
}

proof fn lemma_flag_sa()
    ensures
        flag_table("SA"@) == regional_flag("SA"@),
{
    reveal_strlit("SA");
    reveal_strlit("🇸🇦");
    reveal_strlit("CN");
    reveal_strlit("US");
    reveal_strlit("JP");
    reveal_strlit("KR");
    reveal_strlit("UK");
    reveal_strlit("GB");
    reveal_strlit("DE");
    reveal_strlit("FR");
    reveal_strlit("CA");
    reveal_strlit("AU");
    reveal_strlit("IN");
    reveal_strlit("BR");
    reveal_strlit("RU");
    reveal_strlit("IT");
    reveal_strlit("ES");
    reveal_strlit("NL");
    reveal_strlit("SE");
    reveal_strlit("NO");
    reveal_strlit("FI");
    reveal_strlit("DK");
    reveal_strlit("CH");
    reveal_strlit("AT");
    reveal_strlit("BE");
    reveal_strlit("PL");
    reveal_strlit("CZ");
    reveal_strlit("SK");
    reveal_strlit("HU");
    reveal_strlit("GR");
    reveal_strlit("PT");
    reveal_strlit("IE");
    reveal_strlit("NZ");
    reveal_strlit("SG");
    reveal_strlit("MY");
    reveal_strlit("TH");
    reveal_strlit("VN");
    reveal_strlit("PH");
    reveal_strlit("ID");
    reveal_strlit("MX");
    reveal_strlit("AR");
    reveal_strlit("CL");
    reveal_strlit("CO");
    reveal_strlit("PE");
    reveal_strlit("ZA");
    reveal_strlit("EG");
    reveal_strlit("IL");
    reveal_strlit("TR");
    assert("SA"@[0] != "CN"@[0] || "SA"@[1] != "CN"@[1]);
    assert("SA"@[0] != "US"@[0] || "SA"@[1] != "US"@[1]);
    assert("SA"@[0] != "JP"@[0] || "SA"@[1] != "JP"@[1]);
    assert("SA"@[0] != "KR"@[0] || "SA"@[1] != "KR"@[1]);
    assert("SA"@[0] != "UK"@[0] || "SA"@[1] != "UK"@[1]);
    assert("SA"@[0] != "GB"@[0] || "SA"@[1] != "GB"@[1]);
    assert("SA"@[0] != "DE"@[0] || "SA"@[1] != "DE"@[1]);
    assert("SA"@[0] != "FR"@[0] || "SA"@[1] != "FR"@[1]);
    assert("SA"@[0] != "CA"@[0] || "SA"@[1] != "CA"@[1]);
    assert("SA"@[0] != "AU"@[0] || "SA"@[1] != "AU"@[1]);
    assert("SA"@[0] != "IN"@[0] || "SA"@[1] != "IN"@[1]);
    assert("SA"@[0] != "BR"@[0] || "SA"@[1] != "BR"@[1]);
    assert("SA"@[0] != "RU"@[0] || "SA"@[1] != "RU"@[1]);
    assert("SA"@[0] != "IT"@[0] || "SA"@[1] != "IT"@[1]);
    assert("SA"@[0] != "ES"@[0] || "SA"@[1] != "ES"@[1]);
    assert("SA"@[0] != "NL"@[0] || "SA"@[1] != "NL"@[1]);
    assert("SA"@[0] != "SE"@[0] || "SA"@[1] != "SE"@[1]);
    assert("SA"@[0] != "NO"@[0] || "SA"@[1] != "NO"@[1]);
    assert("SA"@[0] != "FI"@[0] || "SA"@[1] != "FI"@[1]);
    assert("SA"@[0] != "DK"@[0] || "SA"@[1] != "DK"@[1]);
    assert("SA"@[0] != "CH"@[0] || "SA"@[1] != "CH"@[1]);
    assert("SA"@[0] != "AT"@[0] || "SA"@[1] != "AT"@[1]);
    assert("SA"@[0] != "BE"@[0] || "SA"@[1] != "BE"@[1]);
    assert("SA"@[0] != "PL"@[0] || "SA"@[1] != "PL"@[1]);
    assert("SA"@[0] != "CZ"@[0] || "SA"@[1] != "CZ"@[1]);
    assert("SA"@[0] != "SK"@[0] || "SA"@[1] != "SK"@[1]);
    assert("SA"@[0] != "HU"@[0] || "SA"@[1] != "HU"@[1]);
    assert("SA"@[0] != "GR"@[0] || "SA"@[1] != "GR"@[1]);
    assert("SA"@[0] != "PT"@[0] || "SA"@[1] != "PT"@[1]);
    assert("SA"@[0] != "IE"@[0] || "SA"@[1] != "IE"@[1]);
    assert("SA"@[0] != "NZ"@[0] || "SA"@[1] != "NZ"@[1]);
    assert("SA"@[0] != "SG"@[0] || "SA"@[1] != "SG"@[1]);
    assert("SA"@[0] != "MY"@[0] || "SA"@[1] != "MY"@[1]);
    assert("SA"@[0] != "TH"@[0] || "SA"@[1] != "TH"@[1]);
    assert("SA"@[0] != "VN"@[0] || "SA"@[1] != "VN"@[1]);
    assert("SA"@[0] != "PH"@[0] || "SA"@[1] != "PH"@[1]);
    assert("SA"@[0] != "ID"@[0] || "SA"@[1] != "ID"@[1]);
    assert("SA"@[0] != "MX"@[0] || "SA"@[1] != "MX"@[1]);
    assert("SA"@[0] != "AR"@[0] || "SA"@[1] != "AR"@[1]);
    assert("SA"@[0] != "CL"@[0] || "SA"@[1] != "CL"@[1]);
    assert("SA"@[0] != "CO"@[0] || "SA"@[1] != "CO"@[1]);
    assert("SA"@[0] != "PE"@[0] || "SA"@[1] != "PE"@[1]);
    assert("SA"@[0] != "ZA"@[0] || "SA"@[1] != "ZA"@[1]);
    assert("SA"@[0] != "EG"@[0] || "SA"@[1] != "EG"@[1]);
    assert("SA"@[0] != "IL"@[0] || "SA"@[1] != "IL"@[1]);
    assert("SA"@[0] != "TR"@[0] || "SA"@[1] != "TR"@[1]);
    assert("🇸🇦"@ =~= seq!['\u{1F1F8}', '\u{1F1E6}']);
    assert(regional_flag("SA"@) =~= seq!['\u{1F1F8}', '\u{1F1E6}']);
}

proof fn lemma_flag_ae()
    ensures
        flag_table("AE"@) == regional_flag("AE"@),
{
    reveal_strlit("AE");
    reveal_strlit("🇦🇪");
    reveal_strlit("CN");
    reveal_strlit("US");
    reveal_strlit("JP");
    reveal_strlit("KR");
    reveal_strlit("UK");
    reveal_strlit("GB");
    reveal_strlit("DE");
    reveal_strlit("FR");
    reveal_strlit("CA");
    reveal_strlit("AU");
    reveal_strlit("IN");
    reveal_strlit("BR");
    reveal_strlit("RU");
    reveal_strlit("IT");
    reveal_strlit("ES");
    reveal_strlit("NL");
    reveal_strlit("SE");
    reveal_strlit("NO");
    reveal_strlit("FI");
    reveal_strlit("DK");
    reveal_strlit("CH");
    reveal_strlit("AT");
    reveal_strlit("BE");
    reveal_strlit("PL");
    reveal_strlit("CZ");
    reveal_strlit("SK");
    reveal_strlit("HU");
    reveal_strlit("GR");
    reveal_strlit("PT");
    reveal_strlit("IE");
    reveal_strlit("NZ");
    reveal_strlit("SG");
    reveal_strlit("MY");
    reveal_strlit("TH");
    reveal_strlit("VN");
    reveal_strlit("PH");
    reveal_strlit("ID");
    reveal_strlit("MX");
    reveal_strlit("AR");
    reveal_strlit("CL");
    reveal_strlit("CO");
    reveal_strlit("PE");
    reveal_strlit("ZA");
    reveal_strlit("EG");
    reveal_strlit("IL");
    reveal_strlit("TR");
    reveal_strlit("SA");
    assert("AE"@[0] != "CN"@[0] || "AE"@[1] != "CN"@[1]);
    assert("AE"@[0] != "US"@[0] || "AE"@[1] != "US"@[1]);
    assert("AE"@[0] != "JP"@[0] || "AE"@[1] != "JP"@[1]);
    assert("AE"@[0] != "KR"@[0] || "AE"@[1] != "KR"@[1]);
    assert("AE"@[0] != "UK"@[0] || "AE"@[1] != "UK"@[1]);
    assert("AE"@[0] != "GB"@[0] || "AE"@[1] != "GB"@[1]);
    assert("AE"@[0] != "DE"@[0] || "AE"@[1] != "DE"@[1]);
    assert("AE"@[0] != "FR"@[0] || "AE"@[1] != "FR"@[1]);
    assert("AE"@[0] != "CA"@[0] || "AE"@[1] != "CA"@[1]);
    assert("AE"@[0] != "AU"@[0] || "AE"@[1] != "AU"@[1]);
    assert("AE"@[0] != "IN"@[0] || "AE"@[1] != "IN"@[1]);
    assert("AE"@[0] != "BR"@[0] || "AE"@[1] != "BR"@[1]);
    assert("AE"@[0] != "RU"@[0] || "AE"@[1] != "RU"@[1]);
    assert("AE"@[0] != "IT"@[0] || "AE"@[1] != "IT"@[1]);
    assert("AE"@[0] != "ES"@[0] || "AE"@[1] != "ES"@[1]);
    assert("AE"@[0] != "NL"@[0] || "AE"@[1] != "NL"@[1]);
    assert("AE"@[0] != "SE"@[0] || "AE"@[1] != "SE"@[1]);
    assert("AE"@[0] != "NO"@[0] || "AE"@[1] != "NO"@[1]);
    assert("AE"@[0] != "FI"@[0] || "AE"@[1] != "FI"@[1]);
    assert("AE"@[0] != "DK"@[0] || "AE"@[1] != "DK"@[1]);
    assert("AE"@[0] != "CH"@[0] || "AE"@[1] != "CH"@[1]);
    assert("AE"@[0] != "AT"@[0] || "AE"@[1] != "AT"@[1]);
    assert("AE"@[0] != "BE"@[0] || "AE"@[1] != "BE"@[1]);
    assert("AE"@[0] != "PL"@[0] || "AE"@[1] != "PL"@[1]);
    assert("AE"@[0] != "CZ"@[0] || "AE"@[1] != "CZ"@[1]);
    assert("AE"@[0] != "SK"@[0] || "AE"@[1] != "SK"@[1]);
    assert("AE"@[0] != "HU"@[0] || "AE"@[1] != "HU"@[1]);
    assert("AE"@[0] != "GR"@[0] || "AE"@[1] != "GR"@[1]);
    assert("AE"@[0] != "PT"@[0] || "AE"@[1] != "PT"@[1]);
    assert("AE"@[0] != "IE"@[0] || "AE"@[1] != "IE"@[1]);
    assert("AE"@[0] != "NZ"@[0] || "AE"@[1] != "NZ"@[1]);
    assert("AE"@[0] != "SG"@[0] || "AE"@[1] != "SG"@[1]);
    assert("AE"@[0] != "MY"@[0] || "AE"@[1] != "MY"@[1]);
    assert("AE"@[0] != "TH"@[0] || "AE"@[1] != "TH"@[1]);
    assert("AE"@[0] != "VN"@[0] || "AE"@[1] != "VN"@[1]);
    assert("AE"@[0] != "PH"@[0] || "AE"@[1] != "PH"@[1]);
    assert("AE"@[0] != "ID"@[0] || "AE"@[1] != "ID"@[1]);
    assert("AE"@[0] != "MX"@[0] || "AE"@[1] != "MX"@[1]);
    assert("AE"@[0] != "AR"@[0] || "AE"@[1] != "AR"@[1]);
    assert("AE"@[0] != "CL"@[0] || "AE"@[1] != "CL"@[1]);
    assert("AE"@[0] != "CO"@[0] || "AE"@[1] != "CO"@[1]);
    assert("AE"@[0] != "PE"@[0] || "AE"@[1] != "PE"@[1]);
    assert("AE"@[0] != "ZA"@[0] || "AE"@[1] != "ZA"@[1]);
    assert("AE"@[0] != "EG"@[0] || "AE"@[1] != "EG"@[1]);
    assert("AE"@[0] != "IL"@[0] || "AE"@[1] != "IL"@[1]);
    assert("AE"@[0] != "TR"@[0] || "AE"@[1] != "TR"@[1]);
    assert("AE"@[0] != "SA"@[0] || "AE"@[1] != "SA"@[1]);
    assert("🇦🇪"@ =~= seq!['\u{1F1E6}', '\u{1F1EA}']);
    assert(regional_flag("AE"@) =~= seq!['\u{1F1E6}', '\u{1F1EA}']);
}

proof fn lemma_flag_uk()
    ensures
        flag_table("UK"@) == "🇬🇧"@,
{
    reveal_strlit("UK");
    reveal_strlit("CN");
    reveal_strlit("US");
    reveal_strlit("JP");
    reveal_strlit("KR");
    assert("UK"@[0] != "CN"@[0] || "UK"@[1] != "CN"@[1]);
    assert("UK"@[0] != "US"@[0] || "UK"@[1] != "US"@[1]);
    assert("UK"@[0] != "JP"@[0] || "UK"@[1] != "JP"@[1]);
    assert("UK"@[0] != "KR"@[0] || "UK"@[1] != "KR"@[1]);
}

/// Every code with a flag of its own gets the regional-indicator symbols
/// of its two letters, and "UK" gets the flag of "GB"; so two different
/// codes other than UK and GB never share a flag.
pub proof fn lemma_flags_are_regional_indicators(i: int)
    requires
        0 <= i < flagged_codes().len(),
    ensures
        flagged_codes()[i].len() == 2,
        flag_table(flagged_codes()[i]) == regional_flag(flagged_codes()[i]),
        flag_table("UK"@) == flag_table("GB"@),
{
    lemma_flag_uk();
    lemma_flag_gb();
    assert(flag_table("GB"@) == "🇬🇧"@) by {
        reveal_strlit("🇬🇧");
        reveal_strlit("GB");
        reveal_strlit("CN");
        reveal_strlit("US");
        reveal_strlit("JP");
        reveal_strlit("KR");
        reveal_strlit("UK");
        assert("GB"@[0] != "CN"@[0] || "GB"@[1] != "CN"@[1]);
        assert("GB"@[0] != "US"@[0] || "GB"@[1] != "US"@[1]);
        assert("GB"@[0] != "JP"@[0] || "GB"@[1] != "JP"@[1]);
        assert("GB"@[0] != "KR"@[0] || "GB"@[1] != "KR"@[1]);
        assert("GB"@[0] != "UK"@[0] || "GB"@[1] != "UK"@[1]);
    }
    assert(flagged_codes()[i].len() == 2) by {
        reveal_strlit("CN");
        reveal_strlit("US");
        reveal_strlit("JP");
        reveal_strlit("KR");
        reveal_strlit("GB");
        reveal_strlit("DE");
        reveal_strlit("FR");
        reveal_strlit("CA");
        reveal_strlit("AU");
        reveal_strlit("IN");
        reveal_strlit("BR");
        reveal_strlit("RU");
        reveal_strlit("IT");
        reveal_strlit("ES");
        reveal_strlit("NL");
        reveal_strlit("SE");
        reveal_strlit("NO");
        reveal_strlit("FI");
        reveal_strlit("DK");
        reveal_strlit("CH");
        reveal_strlit("AT");
        reveal_strlit("BE");
        reveal_strlit("PL");
        reveal_strlit("CZ");
        reveal_strlit("SK");
        reveal_strlit("HU");
        reveal_strlit("GR");
        reveal_strlit("PT");
        reveal_strlit("IE");
        reveal_strlit("NZ");
        reveal_strlit("SG");
        reveal_strlit("MY");
        reveal_strlit("TH");
        reveal_strlit("VN");
        reveal_strlit("PH");
        reveal_strlit("ID");
        reveal_strlit("MX");
        reveal_strlit("AR");
        reveal_strlit("CL");
        reveal_strlit("CO");
        reveal_strlit("PE");
        reveal_strlit("ZA");
        reveal_strlit("EG");
        reveal_strlit("IL");
        reveal_strlit("TR");
        reveal_strlit("SA");
        reveal_strlit("AE");
    }
    if i == 0 {
        lemma_flag_cn();
    } else if i == 1 {
        lemma_flag_us();
    } else if i == 2 {
        lemma_flag_jp();
    } else if i == 3 {
        lemma_flag_kr();
    } else if i == 4 {
        lemma_flag_gb();
    } else if i == 5 {
        lemma_flag_de();
    } else if i == 6 {
        lemma_flag_fr();
    } else if i == 7 {
        lemma_flag_ca();
    } else if i == 8 {
        lemma_flag_au();
    } else if i == 9 {
        lemma_flag_in();
    } else if i == 10 {
        lemma_flag_br();
    } else if i == 11 {
        lemma_flag_ru();
    } else if i == 12 {
        lemma_flag_it();
    } else if i == 13 {
        lemma_flag_es();
    } else if i == 14 {
        lemma_flag_nl();
    } else if i == 15 {
        lemma_flag_se();
    } else if i == 16 {
        lemma_flag_no();
    } else if i == 17 {
        lemma_flag_fi();
    } else if i == 18 {
        lemma_flag_dk();
    } else if i == 19 {
        lemma_flag_ch();
    } else if i == 20 {
        lemma_flag_at();
    } else if i == 21 {
        lemma_flag_be();
    } else if i == 22 {
        lemma_flag_pl();
    } else if i == 23 {
        lemma_flag_cz();
    } else if i == 24 {
        lemma_flag_sk();
    } else if i == 25 {
        lemma_flag_hu();
    } else if i == 26 {
        lemma_flag_gr();
    } else if i == 27 {
        lemma_flag_pt();
    } else if i == 28 {
        lemma_flag_ie();
    } else if i == 29 {
        lemma_flag_nz();
    } else if i == 30 {
        lemma_flag_sg();
    } else if i == 31 {
        lemma_flag_my();
    } else if i == 32 {
        lemma_flag_th();
    } else if i == 33 {
        lemma_flag_vn();
    } else if i == 34 {
        lemma_flag_ph();
    } else if i == 35 {
        lemma_flag_id();
    } else if i == 36 {
        lemma_flag_mx();
    } else if i == 37 {
        lemma_flag_ar();
    } else if i == 38 {
        lemma_flag_cl();
    } else if i == 39 {
        lemma_flag_co();
    } else if i == 40 {
        lemma_flag_pe();
    } else if i == 41 {
        lemma_flag_za();
    } else if i == 42 {
        lemma_flag_eg();
    } else if i == 43 {
        lemma_flag_il();
    } else if i == 44 {
        lemma_flag_tr();
    } else if i == 45 {
        lemma_flag_sa();
    } else if i == 46 {
        lemma_flag_ae();
    }
}

/// The flag emoji of a country code that is already in upper case.
pub fn flag_for_uppercase_code(code: &String) -> (flag: String)
    ensures
        flag@ == flag_table(code@),
{
    if *code == String::from_str("CN") {
        String::from_str("🇨🇳")
    } else if *code == String::from_str("US") {
        String::from_str("🇺🇸")
    } else if *code == String::from_str("JP") {
        String::from_str("🇯🇵")
    } else if *code == String::from_str("KR") {
        String::from_str("🇰🇷")
    } else if *code == String::from_str("UK") {
        String::from_str("🇬🇧")
    } else if *code == String::from_str("GB") {
        String::from_str("🇬🇧")
    } else if *code == String::from_str("DE") {
        String::from_str("🇩🇪")
    } else if *code == String::from_str("FR") {
        String::from_str("🇫🇷")
    } else if *code == String::from_str("CA") {
        String::from_str("🇨🇦")
    } else if *code == String::from_str("AU") {
        String::from_str("🇦🇺")
    } else if *code == String::from_str("IN") {
        String::from_str("🇮🇳")
    } else if *code == String::from_str("BR") {
        String::from_str("🇧🇷")
    } else if *code == String::from_str("RU") {
        String::from_str("🇷🇺")
    } else if *code == String::from_str("IT") {
        String::from_str("🇮🇹")
    } else if *code == String::from_str("ES") {
        String::from_str("🇪🇸")
    } else if *code == String::from_str("NL") {
        String::from_str("🇳🇱")
    } else if *code == String::from_str("SE") {
        String::from_str("🇸🇪")
    } else if *code == String::from_str("NO") {
        String::from_str("🇳🇴")
    } else if *code == String::from_str("FI") {
        String::from_str("🇫🇮")
    } else if *code == String::from_str("DK") {
        String::from_str("🇩🇰")
    } else if *code == String::from_str("CH") {
        String::from_str("🇨🇭")
    } else if *code == String::from_str("AT") {
        String::from_str("🇦🇹")
    } else if *code == String::from_str("BE") {
        String::from_str("🇧🇪")
    } else if *code == String::from_str("PL") {
        String::from_str("🇵🇱")
    } else if *code == String::from_str("CZ") {
        String::from_str("🇨🇿")
    } else if *code == String::from_str("SK") {
        String::from_str("🇸🇰")
    } else if *code == String::from_str("HU") {
        String::from_str("🇭🇺")
    } else if *code == String::from_str("GR") {
        String::from_str("🇬🇷")
    } else if *code == String::from_str("PT") {
        String::from_str("🇵🇹")
    } else if *code == String::from_str("IE") {
        String::from_str("🇮🇪")
    } else if *code == String::from_str("NZ") {
        String::from_str("🇳🇿")
    } else if *code == String::from_str("SG") {
        String::from_str("🇸🇬")
    } else if *code == String::from_str("MY") {
        String::from_str("🇲🇾")
    } else if *code == String::from_str("TH") {
        String::from_str("🇹🇭")
    } else if *code == String::from_str("VN") {
        String::from_str("🇻🇳")
    } else if *code == String::from_str("PH") {
        String::from_str("🇵🇭")
    } else if *code == String::from_str("ID") {
        String::from_str("🇮🇩")
    } else if *code == String::from_str("MX") {
        String::from_str("🇲🇽")
    } else if *code == String::from_str("AR") {
        String::from_str("🇦🇷")
    } else if *code == String::from_str("CL") {
        String::from_str("🇨🇱")
    } else if *code == String::from_str("CO") {
        String::from_str("🇨🇴")
    } else if *code == String::from_str("PE") {
        String::from_str("🇵🇪")
    } else if *code == String::from_str("ZA") {
        String::from_str("🇿🇦")
    } else if *code == String::from_str("EG") {
        String::from_str("🇪🇬")
    } else if *code == String::from_str("IL") {
        String::from_str("🇮🇱")
    } else if *code == String::from_str("TR") {
        String::from_str("🇹🇷")
    } else if *code == String::from_str("SA") {
        String::from_str("🇸🇦")
    } else if *code == String::from_str("AE") {
        String::from_str("🇦🇪")
    } else {
        String::from_str("🌐")
    }
}

/// The flag emoji shown for a country code, compared without regard to case.
pub fn get_country_flag(country_code: &str) -> (flag: String)
    ensures
        flag@ == flag_table(uppercase_of(country_code@)),
        is_ascii_text(country_code@) ==> flag@ == flag_table(ascii_uppercase(country_code@)),
{
    let upper = to_uppercase(country_code);
    flag_for_uppercase_code(&upper)
}

/// Two texts that differ at most in the case of ASCII letters.
pub open spec fn equal_ignoring_ascii_case(a: Seq<char>, b: Seq<char>) -> bool {
    &&& a.len() == b.len()
    &&& forall|i: int| 0 <= i < a.len() ==> ascii_upper_char(#[trigger] a[i]) == ascii_upper_char(b[i])
}

/// The flag of an ASCII country code does not depend on the case of its
/// letters.
pub proof fn lemma_flag_ignores_ascii_case(a: Seq<char>, b: Seq<char>)
    requires
        equal_ignoring_ascii_case(a, b),
    ensures
        flag_table(ascii_uppercase(a)) == flag_table(ascii_uppercase(b)),
{
    assert(ascii_uppercase(a) =~= ascii_uppercase(b));
}

/// Locations keyed by address text, each address at most once.
pub struct LocationTable {
    entries: Vec<(String, GeoLocation)>,
}

/// The map that a list of entries stands for, later entries first.
pub open spec fn map_of(entries: Seq<(String, GeoLocation)>) -> Map<Seq<char>, GeoLocationView>
    decreases entries.len(),
{
    if entries.len() == 0 {
        Map::empty()
    } else {
        map_of(entries.drop_last()).insert(entries.last().0@, entries.last().1@)
    }
}

/// No address occurs twice in the entries.
pub open spec fn keys_unique(entries: Seq<(String, GeoLocation)>) -> bool {
    forall|i: int, j: int| 0 <= i < j < entries.len() ==> entries[i].0@ != entries[j].0@
}

proof fn lemma_map_of_absent(entries: Seq<(String, GeoLocation)>, key: Seq<char>)
    requires
        forall|i: int| 0 <= i < entries.len() ==> entries[i].0@ != key,
    ensures
        !map_of(entries).contains_key(key),
    decreases entries.len(),
{
    if entries.len() > 0 {
        lemma_map_of_absent(entries.drop_last(), key);
    }
}

proof fn lemma_map_of_at(entries: Seq<(String, GeoLocation)>, i: int)
    requires
        keys_unique(entries),
        0 <= i < entries.len(),
    ensures
        map_of(entries).contains_key(entries[i].0@),
        map_of(entries)[entries[i].0@] == entries[i].1@,
    decreases entries.len(),
{
    if i < entries.len() - 1 {
        lemma_map_of_at(entries.drop_last(), i);
    }
}

proof fn lemma_map_of_update(entries: Seq<(String, GeoLocation)>, i: int, key: String, value: GeoLocation)
    requires
        keys_unique(entries),
        0 <= i < entries.len(),
        key@ == entries[i].0@,
    ensures
        map_of(entries.update(i, (key, value))) =~= map_of(entries).insert(key@, value@),
        keys_unique(entries.update(i, (key, value))),
    decreases entries.len(),
{
    let updated = entries.update(i, (key, value));
    if i == entries.len() - 1 {
        assert(updated.drop_last() =~= entries.drop_last());
        if entries.len() > 1 {
            lemma_map_of_absent(entries.drop_last(), entries[i].0@);
        } else {
            assert(entries.drop_last().len() == 0);
        }
    } else {
        assert(updated.drop_last() =~= entries.drop_last().update(i, (key, value)));
        lemma_map_of_update(entries.drop_last(), i, key, value);
    }
}

impl View for LocationTable {
    type V = Map<Seq<char>, GeoLocationView>;

    closed spec fn view(&self) -> Map<Seq<char>, GeoLocationView> {
        map_of(self.entries@)
    }
}

impl LocationTable {
    /// The invariant: no address occurs twice.
    pub closed spec fn wf(&self) -> bool {
        keys_unique(self.entries@)
    }

    /// An empty table.
    pub fn new() -> (table: Self)
        ensures
            table.wf(),
            table@ == Map::<Seq<char>, GeoLocationView>::empty(),
    {
        LocationTable { entries: Vec::new() }
    }

    fn position(&self, key: &String) -> (index: Option<usize>)
        requires
            self.wf(),
        ensures
            match index {
                Some(i) => i < self.entries@.len() && self.entries@[i as int].0@ == key@,
                None => forall|j: int| 0 <= j < self.entries@.len() ==> self.entries@[j].0@ != key@,
            },
    {
        let mut i: usize = 0;
        while i < self.entries.len()
            invariant
                i <= self.entries@.len(),
                forall|j: int| 0 <= j < i ==> self.entries@[j].0@ != key@,
            decreases self.entries@.len() - i,
        {
            if self.entries[i].0 == *key {
                return Some(i);
            }
            i = i + 1;
        }
        None
    }

    /// Whether `key` has a location.
    pub fn contains_key(&self, key: &str) -> (found: bool)
        requires
            self.wf(),
        ensures
            found == self@.contains_key(key@),
    {
        let key = String::from_str(key);
        match self.position(&key) {
            Some(i) => {
                proof {
                    lemma_map_of_at(self.entries@, i as int);
                }
                true
            },
            None => {
                proof {
                    lemma_map_of_absent(self.entries@, key@);
                }
                false
            },
        }
    }

    /// A copy of the location of `key`, if it has one.
    pub fn get(&self, key: &str) -> (location: Option<GeoLocation>)
        requires
            self.wf(),
        ensures
            match location {
                Some(l) => self@.contains_key(key@) && self@[key@] == l@,
                None => !self@.contains_key(key@),
            },
    {
        let key = String::from_str(key);
        match self.position(&key) {
            Some(i) => {
                proof {
                    lemma_map_of_at(self.entries@, i as int);
                }
                Some(self.entries[i].1.copy())
            },
            None => {
                proof {
                    lemma_map_of_absent(self.entries@, key@);
                }
                None
            },
        }
    }

    /// Gives `key` the location `value`, replacing any it had.
    pub fn insert(&mut self, key: String, value: GeoLocation)
        requires
            old(self).wf(),
        ensures
            final(self).wf(),
            final(self)@ == old(self)@.insert(key@, value@),
    {
        match self.position(&key) {
            Some(i) => {
                proof {
                    lemma_map_of_update(self.entries@, i as int, key, value);
                }
                self.entries.set(i, (key, value));
            },
            None => {
                self.entries.push((key, value));
                proof {
                    assert(self.entries@.drop_last() =~= old(self).entries@);
                }
            },
        }
    }

    /// Removes every location.
    pub fn clear(&mut self)
        ensures
            final(self).wf(),
            final(self)@ == Map::<Seq<char>, GeoLocationView>::empty(),
    {
        self.entries = Vec::new();
    }

    /// A table with the same locations.
    pub fn duplicate(&self) -> (table: Self)
        requires
            self.wf(),
        ensures
            table.wf(),
            table@ == self@,
    {
        let mut entries: Vec<(String, GeoLocation)> = Vec::new();
        let mut i: usize = 0;
        while i < self.entries.len()
            invariant
                i <= self.entries@.len(),
                entries@ == self.entries@.take(i as int),
            decreases self.entries@.len() - i,
        {
            let key = self.entries[i].0.clone();
            let value = self.entries[i].1.copy();
            entries.push((key, value));
            assert(entries@ =~= self.entries@.take(i + 1));
            i = i + 1;
        }
        assert(self.entries@.take(i as int) =~= self.entries@);
        LocationTable { entries }
    }
}

#[verifier::external_type_specification]
#[verifier::external_body]
pub struct ExReader(Reader);

/// The fields of a city record of the location database that a location
/// is built from.
pub struct CityInfo {
    pub country_name: String,
    pub region_name: String,
    pub city_name: String,
    pub owner_domain: String,
    pub isp_domain: String,
    pub latitude: String,
    pub longitude: String,
    pub timezone: String,
    pub country_code: String,
}

/// The text of every field of a `CityInfo`.
pub struct CityInfoView {
    pub country_name: Seq<char>,
    pub region_name: Seq<char>,
    pub city_name: Seq<char>,
    pub owner_domain: Seq<char>,
    pub isp_domain: Seq<char>,
    pub latitude: Seq<char>,
    pub longitude: Seq<char>,
    pub timezone: Seq<char>,
    pub country_code: Seq<char>,
}

impl View for CityInfo {
    type V = CityInfoView;

    open spec fn view(&self) -> CityInfoView {
        CityInfoView {
            country_name: self.country_name@,
            region_name: self.region_name@,
            city_name: self.city_name@,
            owner_domain: self.owner_domain@,
            isp_domain: self.isp_domain@,
            latitude: self.latitude@,
            longitude: self.longitude@,
            timezone: self.timezone@,
            country_code: self.country_code@,
        }
    }
}

/// What `Reader::find_city_info` of the ipdb crate does for the address
/// text `ip` in `language`: `Some` of the city record or of the text of its
/// error, or `None` when the lookup does not return normally. ipdb panics
/// when a node pointer or record offset of the database lies outside its
/// data, which `Reader::open_file` does not check. An opened database never
/// changes, so this depends on the arguments alone.
pub uninterp spec fn ipdb_city_info(reader: Reader, ip: Seq<char>, language: Seq<char>) -> Option<Result<CityInfoView, Seq<char>>>;

/// Calls `Reader::find_city_info` of the ipdb crate and copies the fields
/// this tool reads. The contract claims only that the outcome, record or
/// error text, is `ipdb_city_info` of the arguments, and it admits only
/// lookups that return. It does not cover a database whose record text is
/// not UTF-8: ipdb reads that text without checking it.
#[verifier::external_body]
fn find_city_info(reader: &Reader, ip: &str, language: &str) -> (found: Result<CityInfo, String>)
    requires
        ipdb_city_info(*reader, ip@, language@) is Some,
    ensures
        match found {
            Ok(city) => ipdb_city_info(*reader, ip@, language@) == Some(Ok::<CityInfoView, Seq<char>>(city@)),
            Err(text) => ipdb_city_info(*reader, ip@, language@) == Some(Err::<CityInfoView, Seq<char>>(text@)),
        },
{
    match reader.find_city_info(ip, language) {
        Ok(c) => Ok(CityInfo {
            country_name: c.country_name.to_string(), region_name: c.region_name.to_string(),
            city_name: c.city_name.to_string(), owner_domain: c.owner_domain.to_string(),
            isp_domain: c.isp_domain.to_string(), latitude: c.latitude.to_string(),
            longitude: c.longitude.to_string(), timezone: c.timezone.to_string(),
            country_code: c.country_code.to_string(),
        }),
        Err(e) => Err(e.to_string()),
    }
}

/// The location of `ip` that a city record describes; a missing country
/// code becomes "XX".
pub open spec fn location_from_city(ip: Seq<char>, city: CityInfoView) -> GeoLocationView {
    GeoLocationView {
        ip: ip,
        country: city.country_name,
        country_code: if city.country_code.len() > 0 { city.country_code } else { "XX"@ },
        region: city.region_name,
        region_name: city.region_name,
        city: city.city_name,
        zip: Seq::empty(),
        lat: city.latitude,
        lon: city.longitude,
        timezone: city.timezone,
        isp: city.isp_domain,
        org: city.owner_domain,
        as_number: Seq::empty(),
        query: ip,
    }
}

/// Builds the location of `ip` from its city record.
pub fn convert_to_geolocation(ip: &str, city_info: &CityInfo) -> (location: GeoLocation)
    ensures
        location@ == location_from_city(ip@, city_info@),
{
    let country_code = if !city_info.country_code.as_str().is_empty() {
        city_info.country_code.clone()
    } else {
        String::from_str("XX")
    };
    GeoLocation {
        ip: String::from_str(ip),
        country: city_info.country_name.clone(),
        country_code,
        region: city_info.region_name.clone(),
        region_name: city_info.region_name.clone(),
        city: city_info.city_name.clone(),
        zip: String::new(),
        lat: city_info.latitude.clone(),
        lon: city_info.longitude.clone(),
        timezone: city_info.timezone.clone(),
        isp: city_info.isp_domain.clone(),
        org: city_info.owner_domain.clone(),
        as_number: String::new(),
        query: String::from_str(ip),
    }
}

/// Why no location could be given.
pub enum GeoError {
    /// No location database is loaded.
    DatabaseMissing,
    /// The database lookup failed, with the database's error text.
    LookupFailed(String),
}

impl GeoError {
    /// The text shown for the error.
    pub fn message(&self) -> (text: String)
        ensures
            text@ == (match self {
                GeoError::DatabaseMissing => "未找到本地IP数据库"@,
                GeoError::LookupFailed(detail) => "查询IP失败: "@ + detail@,
            }),
    {
        match self {
            GeoError::DatabaseMissing => String::from_str("未找到本地IP数据库"),
            GeoError::LookupFailed(detail) => {
                let mut text = String::from_str("查询IP失败: ");
                text.append(detail.as_str());
                text
            },
        }
    }
}

/// The answer to a location query, as text.
pub enum LocationAnswer {
    Found(GeoLocationView),
    DatabaseMissing,
    LookupFailed(Seq<char>),
    /// The database lookup would not return; no query is made then.
    NoReturn,
}

/// The answer that a location result stands for.
pub open spec fn answer_of(result: Result<GeoLocation, GeoError>) -> LocationAnswer {
    match result {
        Ok(l) => LocationAnswer::Found(l@),
        Err(GeoError::DatabaseMissing) => LocationAnswer::DatabaseMissing,
        Err(GeoError::LookupFailed(text)) => LocationAnswer::LookupFailed(text@),
    }
}

/// The database language of the location queries.
pub open spec fn query_language() -> Seq<char> {
    "CN"@
}

/// A query for `ip` returns: the answer is cached, there is no database,
/// or the database lookup returns.
pub open spec fn query_returns(
    cache: Map<Seq<char>, GeoLocationView>,
    database: Option<Reader>,
    ip: Seq<char>,
) -> bool {
    cache.contains_key(ip) || match database {
        None => true,
        Some(reader) => ipdb_city_info(reader, ip, query_language()) is Some,
    }
}

/// A location query for `ip` against `cache` and `database`: a cached
/// location is answered at once; otherwise the database is asked, and a
/// found location is cached. The second component is the cache afterwards.
pub open spec fn location_query(
    cache: Map<Seq<char>, GeoLocationView>,
    database: Option<Reader>,
    ip: Seq<char>,
) -> (LocationAnswer, Map<Seq<char>, GeoLocationView>) {
    if cache.contains_key(ip) {
        (LocationAnswer::Found(cache[ip]), cache)
    } else {
        match database {
            None => (LocationAnswer::DatabaseMissing, cache),
            Some(reader) => match ipdb_city_info(reader, ip, query_language()) {
                Some(Ok(city)) => (
                    LocationAnswer::Found(location_from_city(ip, city)),
                    cache.insert(ip, location_from_city(ip, city)),
                ),
                Some(Err(text)) => (LocationAnswer::LookupFailed(text), cache),
                None => (LocationAnswer::NoReturn, cache),
            },
        }
    }
}

/// Looks addresses up in the location database, remembering every location
/// found.
pub struct GeoIPService {
    reader: Option<Reader>,
    cache: LocationTable,
}

impl GeoIPService {
    /// The database the service asks.
    pub closed spec fn database(&self) -> Option<Reader> {
        self.reader
    }

    /// The locations found so far.
    pub closed spec fn cached(&self) -> Map<Seq<char>, GeoLocationView> {
        self.cache@
    }

    /// The invariant of the service.
    pub closed spec fn wf(&self) -> bool {
        self.cache.wf()
    }

    /// A service asking `reader` (none when the database could not be
    /// loaded), with nothing cached.
    pub fn new(reader: Option<Reader>) -> (service: Self)
        ensures
            service.wf(),
            service.database() == reader,
            service.cached() == Map::<Seq<char>, GeoLocationView>::empty(),
    {
        GeoIPService { reader, cache: LocationTable::new() }
    }

    /// A service asking `reader` that starts with the locations this one
    /// has found.
    pub fn clone_with_database(&self, reader: Option<Reader>) -> (service: Self)
        requires
            self.wf(),
        ensures
            service.wf(),
            service.database() == reader,
            service.cached() == self.cached(),
    {
        GeoIPService { reader, cache: self.cache.duplicate() }
    }

    /// The location of `ip`, from the cache or else from the database. The
    /// lookup must be one that the database answers: ipdb panics on a
    /// database whose offsets run past its data.
    pub fn get_location(&mut self, ip: &str) -> (result: Result<GeoLocation, GeoError>)
        requires
            old(self).wf(),
            query_returns(old(self).cached(), old(self).database(), ip@),
        ensures
            final(self).wf(),
            final(self).database() == old(self).database(),
            (answer_of(result), final(self).cached()) == location_query(old(self).cached(), old(self).database(), ip@),
            result matches Ok(l) ==> final(self).cached().contains_key(ip@) && final(self).cached()[ip@] == l@,
            result is Ok ==> query_returns(final(self).cached(), final(self).database(), ip@),
    {
        if let Some(cached) = self.cache.get(ip) {
            return Ok(cached);
        }
        let found = match &self.reader {
            Some(reader) => find_city_info(reader, ip, "CN"),
            None => {
                return Err(GeoError::DatabaseMissing);
            },
        };
        match found {
            Ok(city_info) => {
                let location = convert_to_geolocation(ip, &city_info);
                self.cache.insert(String::from_str(ip), location.copy());
                Ok(location)
            },
            Err(text) => Err(GeoError::LookupFailed(text)),
        }
    }

    /// The cached location of `ip`, if it was found before.
    pub fn get_cached_location(&self, ip: &str) -> (location: Option<GeoLocation>)
        requires
            self.wf(),
        ensures
            match location {
                Some(l) => self.cached().contains_key(ip@) && self.cached()[ip@] == l@,
                None => !self.cached().contains_key(ip@),
            },
    {
        self.cache.get(ip)
    }
}

/// Asking twice for the same address gives the same answer, the second
/// time from the cache, and leaves the cache as the first query left it.
pub proof fn lemma_repeated_query_answers_from_cache(
    cache: Map<Seq<char>, GeoLocationView>,
    database: Option<Reader>,
    ip: Seq<char>,
)
    requires
        location_query(cache, database, ip).0 is Found,
    ensures
        location_query(location_query(cache, database, ip).1, database, ip) == location_query(cache, database, ip),
        location_query(cache, database, ip).1.contains_key(ip),
        location_query(cache, database, ip).0 == LocationAnswer::Found(location_query(cache, database, ip).1[ip]),
        query_returns(location_query(cache, database, ip).1, database, ip),
{
}

/// A query never forgets or changes a cached location.
pub proof fn lemma_query_keeps_cache(
    cache: Map<Seq<char>, GeoLocationView>,
    database: Option<Reader>,
    ip: Seq<char>,
    other: Seq<char>,
)
    requires
        cache.contains_key(other),
    ensures
        location_query(cache, database, ip).1.contains_key(other),
        location_query(cache, database, ip).1[other] == cache[other],
{
}

} // verus!
