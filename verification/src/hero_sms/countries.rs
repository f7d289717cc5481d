//! Country mapping for the Hero SMS backend: the override table for names
//! that differ from the ISO spelling, and the id/alpha-2 conversions over a
//! compiled `CountryIndex`.

use vstd::prelude::*;

use crate::country_names::{alpha2_lookup, id_lookup, CountryIndex};
use crate::types::Country;

verus! {

/// Error when mapping between backend country ids and countries.
#[derive(Debug, Clone)]
pub enum CountryMapError {
    /// The backend id resolves to no country.
    UnknownSmsId { id: u16 },
    /// The country has no backend mapping.
    NoSmsMapping { country: Country },
}

/// The override table: normalized backend name to alpha-2 code, for names
/// that differ from the ISO spelling.
pub open spec fn name_overrides_spec() -> Seq<(Seq<char>, Seq<char>)> {
    seq![
        ("usa"@, "US"@),
        ("united states"@, "US"@),
        ("united kingdom"@, "GB"@),
        ("uae"@, "AE"@),
        ("vietnam"@, "VN"@),
        ("south korea"@, "KR"@),
        ("north korea"@, "KP"@),
        ("dr congo"@, "CD"@),
        ("ivory coast"@, "CI"@),
        ("czech"@, "CZ"@),
        ("moldova"@, "MD"@),
        ("laos"@, "LA"@),
        ("syria"@, "SY"@),
        ("iran"@, "IR"@),
        ("venezuela"@, "VE"@),
        ("tanzania"@, "TZ"@),
        ("bolivia"@, "BO"@),
        ("bosnia"@, "BA"@),
        ("brunei"@, "BN"@),
        ("palestine"@, "PS"@),
        ("taiwan"@, "TW"@),
        ("swaziland"@, "SZ"@),
        ("cape verde"@, "CV"@),
        ("north macedonia"@, "MK"@),
        ("timor leste"@, "TL"@),
        ("timorleste"@, "TL"@),
        ("salvador"@, "SV"@),
        ("papua"@, "PG"@),
        ("reunion"@, "RE"@),
        ("hong kong"@, "HK"@),
        ("macao"@, "MO"@),
        ("puerto rico"@, "PR"@),
        ("turkey"@, "TR"@),
    ]
}

/// The override table, as built values.
pub fn name_overrides() -> (r: Vec<(String, String)>)
    ensures
        r@.map_values(|e: (String, String)| (e.0@, e.1@)) == name_overrides_spec(),
{
    let mut v: Vec<(String, String)> = Vec::new();
    v.push((String::from_str("usa"), String::from_str("US")));
        v.push((String::from_str("united states"), String::from_str("US")));
        v.push((String::from_str("united kingdom"), String::from_str("GB")));
        v.push((String::from_str("uae"), String::from_str("AE")));
        v.push((String::from_str("vietnam"), String::from_str("VN")));
        v.push((String::from_str("south korea"), String::from_str("KR")));
        v.push((String::from_str("north korea"), String::from_str("KP")));
        v.push((String::from_str("dr congo"), String::from_str("CD")));
        v.push((String::from_str("ivory coast"), String::from_str("CI")));
        v.push((String::from_str("czech"), String::from_str("CZ")));
        v.push((String::from_str("moldova"), String::from_str("MD")));
        v.push((String::from_str("laos"), String::from_str("LA")));
        v.push((String::from_str("syria"), String::from_str("SY")));
        v.push((String::from_str("iran"), String::from_str("IR")));
        v.push((String::from_str("venezuela"), String::from_str("VE")));
        v.push((String::from_str("tanzania"), String::from_str("TZ")));
        v.push((String::from_str("bolivia"), String::from_str("BO")));
        v.push((String::from_str("bosnia"), String::from_str("BA")));
        v.push((String::from_str("brunei"), String::from_str("BN")));
        v.push((String::from_str("palestine"), String::from_str("PS")));
        v.push((String::from_str("taiwan"), String::from_str("TW")));
        v.push((String::from_str("swaziland"), String::from_str("SZ")));
        v.push((String::from_str("cape verde"), String::from_str("CV")));
        v.push((String::from_str("north macedonia"), String::from_str("MK")));
        v.push((String::from_str("timor leste"), String::from_str("TL")));
        v.push((String::from_str("timorleste"), String::from_str("TL")));
        v.push((String::from_str("salvador"), String::from_str("SV")));
        v.push((String::from_str("papua"), String::from_str("PG")));
        v.push((String::from_str("reunion"), String::from_str("RE")));
        v.push((String::from_str("hong kong"), String::from_str("HK")));
        v.push((String::from_str("macao"), String::from_str("MO")));
        v.push((String::from_str("puerto rico"), String::from_str("PR")));
        v.push((String::from_str("turkey"), String::from_str("TR")));
    proof {
        assert(v@.map_values(|e: (String, String)| (e.0@, e.1@)) =~= name_overrides_spec());
    }
    v
}

/// The backend country id of a country.
pub fn sms_id(index: &CountryIndex, country: &Country) -> (r: Result<u16, CountryMapError>)
    ensures
        match r {
            Ok(id) => alpha2_lookup(index@, country@) == Some(id),
            Err(CountryMapError::NoSmsMapping { country: c }) => c@ == country@ && alpha2_lookup(
                index@,
                country@,
            ) is None,
            Err(CountryMapError::UnknownSmsId { .. }) => false,
        },
{
    match index.sms_id_of(country.alpha2()) {
        Some(id) => Ok(id),
        None => Err(CountryMapError::NoSmsMapping { country: country.clone() }),
    }
}

/// The country of a backend country id.
pub fn from_sms_id(index: &CountryIndex, id: u16) -> (r: Result<Country, CountryMapError>)
    ensures
        match r {
            Ok(c) => id_lookup(index@, id) == Some(c@),
            Err(CountryMapError::UnknownSmsId { id: i }) => i == id && (id_lookup(index@, id)
                is None || (id_lookup(index@, id) matches Some(a) && a.len() != 2)),
            Err(CountryMapError::NoSmsMapping { .. }) => false,
        },
{
    match index.from_sms_id(id) {
        Some(alpha2) => match Country::new(alpha2.as_str()) {
            Some(c) => Ok(c),
            None => Err(CountryMapError::UnknownSmsId { id }),
        },
        None => Err(CountryMapError::UnknownSmsId { id }),
    }
}

} // verus!
