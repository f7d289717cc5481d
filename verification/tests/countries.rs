//! Tests for country-name normalization and the id/alpha-2 index, for both
//! backends: the Hero SMS side resolves against keshvar's country names,
//! the SMS Activate side against isocountry's.

use sms_solvers::country_names::{lookup_iso, lookup_override, norm, CountryIndex};
use sms_solvers::hero_sms::countries as hero;
use sms_solvers::sms_activate::countries as activate;
use sms_solvers::types::Country;

fn keshvar_iso_table() -> Vec<(String, String)> {
    keshvar::CountryIterator::new()
        .map(|c| (c.iso_short_name().to_string(), c.alpha2().to_string()))
        .collect()
}

fn isocountry_iso_table() -> Vec<(String, String)> {
    isocountry::CountryCode::iter()
        .map(|c| (c.name().to_string(), c.alpha2().to_string()))
        .collect()
}

/// A backend country table: three well-known ids, then one entry per ISO
/// country (Antarctica and the three fixed ones excluded, so every country
/// appears once).
fn fixture_entries(iso: &[(String, String)]) -> Vec<(u16, String)> {
    let mut entries = vec![
        (1u16, "Ukraine".to_string()),
        (16u16, "United Kingdom".to_string()),
        (187u16, "USA".to_string()),
    ];
    let mut next_id = 200u16;
    for (name, alpha2) in iso {
        if alpha2 == "UA" || alpha2 == "GB" || alpha2 == "US" || alpha2 == "AQ" {
            continue;
        }
        entries.push((next_id, name.clone()));
        next_id += 1;
    }
    entries
}

fn hero_index() -> CountryIndex {
    let iso = keshvar_iso_table();
    CountryIndex::build(&fixture_entries(&iso), &hero::name_overrides(), &iso)
}

fn activate_index() -> CountryIndex {
    let iso = isocountry_iso_table();
    CountryIndex::build(&fixture_entries(&iso), &activate::name_overrides(), &iso)
}

#[test]
fn test_norm_basic() {
    assert_eq!(norm("Russia"), "russia");
    assert_eq!(norm("United States"), "united states");
    assert_eq!(norm("SOUTH KOREA"), "south korea");
}

#[test]
fn test_norm_removes_punctuation() {
    assert_eq!(norm("Saint-Martin"), "saintmartin");
    assert_eq!(norm("Korea, South"), "korea south");
    assert_eq!(norm("U.S.A."), "usa");
    assert_eq!(norm("People's Republic"), "peoples republic");
}

#[test]
fn test_norm_multiple_spaces() {
    assert_eq!(norm("United   States"), "united states");
    assert_eq!(norm("  Russia  "), "russia");
}

#[test]
fn countries_test_norm_basic() {
    assert_eq!(norm("Russia"), "russia");
    assert_eq!(norm("United States"), "united states");
    assert_eq!(norm("SOUTH KOREA"), "south korea");
}

#[test]
fn countries_test_norm_removes_punctuation() {
    assert_eq!(norm("Saint-Martin"), "saintmartin");
    assert_eq!(norm("Korea, South"), "korea south");
    assert_eq!(norm("U.S.A."), "usa");
    assert_eq!(norm("People's Republic"), "peoples republic");
}

#[test]
fn countries_test_norm_multiple_spaces() {
    assert_eq!(norm("United   States"), "united states");
    assert_eq!(norm("  Russia  "), "russia");
}

#[test]
fn test_name_overrides_present() {
    let table = hero::name_overrides();
    assert!(lookup_override(&table, "usa").is_some());
    assert!(lookup_override(&table, "united kingdom").is_some());
    assert!(lookup_override(&table, "uae").is_some());
    assert!(lookup_override(&table, "czech").is_some());
}

#[test]
fn test_name_overrides_correct() {
    let table = hero::name_overrides();
    assert_eq!(lookup_override(&table, "usa").unwrap(), "US");
    assert_eq!(lookup_override(&table, "united kingdom").unwrap(), "GB");
    assert_eq!(lookup_override(&table, "uae").unwrap(), "AE");
    assert_eq!(lookup_override(&table, "ivory coast").unwrap(), "CI");
}

#[test]
fn countries_test_name_overrides_present() {
    let table = activate::name_overrides();
    assert!(lookup_override(&table, "usa").is_some());
    assert!(lookup_override(&table, "united kingdom").is_some());
    assert!(lookup_override(&table, "uae").is_some());
    assert!(lookup_override(&table, "czech").is_some());
}

#[test]
fn countries_test_name_overrides_correct() {
    let table = activate::name_overrides();
    assert_eq!(
        isocountry::CountryCode::for_alpha2(&lookup_override(&table, "usa").unwrap()).unwrap(),
        isocountry::CountryCode::USA
    );
    assert_eq!(
        isocountry::CountryCode::for_alpha2(&lookup_override(&table, "united kingdom").unwrap())
            .unwrap(),
        isocountry::CountryCode::GBR
    );
    assert_eq!(
        isocountry::CountryCode::for_alpha2(&lookup_override(&table, "uae").unwrap()).unwrap(),
        isocountry::CountryCode::ARE
    );
    assert_eq!(
        isocountry::CountryCode::for_alpha2(&lookup_override(&table, "ivory coast").unwrap())
            .unwrap(),
        isocountry::CountryCode::CIV
    );
}

#[test]
fn test_iso_name2alpha2_populated() {
    let iso = keshvar_iso_table();
    assert!(!iso.is_empty());
    assert!(lookup_iso(&iso, "ukraine").is_some());
    assert!(lookup_iso(&iso, "germany").is_some());
    assert!(lookup_iso(&iso, "france").is_some());
    assert!(lookup_iso(&iso, "japan").is_some());
}

#[test]
fn test_iso_name2alpha2_values() {
    let iso = keshvar_iso_table();
    assert_eq!(lookup_iso(&iso, "ukraine").unwrap(), "UA");
    assert_eq!(lookup_iso(&iso, "germany").unwrap(), "DE");
    assert_eq!(lookup_iso(&iso, "france").unwrap(), "FR");
    assert_eq!(lookup_iso(&iso, "japan").unwrap(), "JP");
}

#[test]
fn test_iso_name2cc_populated() {
    let iso = isocountry_iso_table();
    assert!(!iso.is_empty());
    assert!(lookup_iso(&iso, "ukraine").is_some());
    assert!(lookup_iso(&iso, "germany").is_some());
    assert!(lookup_iso(&iso, "france").is_some());
    assert!(lookup_iso(&iso, "japan").is_some());
}

#[test]
fn test_iso_name2cc_values() {
    let iso = isocountry_iso_table();
    assert_eq!(
        isocountry::CountryCode::for_alpha2(&lookup_iso(&iso, "ukraine").unwrap()).unwrap(),
        isocountry::CountryCode::UKR
    );
    assert_eq!(
        isocountry::CountryCode::for_alpha2(&lookup_iso(&iso, "germany").unwrap()).unwrap(),
        isocountry::CountryCode::DEU
    );
    assert_eq!(
        isocountry::CountryCode::for_alpha2(&lookup_iso(&iso, "france").unwrap()).unwrap(),
        isocountry::CountryCode::FRA
    );
    assert_eq!(
        isocountry::CountryCode::for_alpha2(&lookup_iso(&iso, "japan").unwrap()).unwrap(),
        isocountry::CountryCode::JPN
    );
}

#[test]
fn test_sms_id2country_populated() {
    let index = hero_index();
    assert!(index.len() > 50, "Too few countries mapped: {}", index.len());
}

#[test]
fn test_sms_id2cc_populated() {
    let index = activate_index();
    assert!(index.len() > 50, "Too few countries mapped: {}", index.len());
}

#[test]
fn test_country2sms_id_populated() {
    let index = hero_index();
    assert!(index.len() > 0);
    assert!(index.sms_id_of("UA").is_some());
    assert!(index.sms_id_of("DE").is_some());
}

#[test]
fn test_cc2sms_id_populated() {
    let index = activate_index();
    assert!(index.len() > 0);
    assert!(index.sms_id_of("UA").is_some());
    assert!(index.sms_id_of("DE").is_some());
}

#[test]
fn test_country_to_sms_id() {
    let index = hero_index();
    assert_eq!(index.sms_id_of("UA").unwrap(), 1);
    assert_eq!(index.sms_id_of("GB").unwrap(), 16);
    assert_eq!(index.sms_id_of("US").unwrap(), 187);
}

#[test]
fn countries_test_country_to_sms_id() {
    let index = activate_index();
    assert_eq!(index.sms_id_of("UA").unwrap(), 1);
    assert_eq!(index.sms_id_of("GB").unwrap(), 16);
    assert_eq!(index.sms_id_of("US").unwrap(), 187);
}

#[test]
fn test_sms_id_to_country() {
    let index = hero_index();
    assert_eq!(index.from_sms_id(1).unwrap(), "UA");
    assert_eq!(index.from_sms_id(16).unwrap(), "GB");
    assert_eq!(index.from_sms_id(187).unwrap(), "US");
}

#[test]
fn countries_test_sms_id_to_country() {
    let index = activate_index();
    assert_eq!(index.from_sms_id(1).unwrap(), "UA");
    assert_eq!(index.from_sms_id(16).unwrap(), "GB");
    assert_eq!(index.from_sms_id(187).unwrap(), "US");
}

#[test]
fn test_unknown_country() {
    // Antarctica has no rental service
    let index = hero_index();
    let antarctica = Country::new("AQ").unwrap();
    assert!(matches!(
        hero::sms_id(&index, &antarctica),
        Err(hero::CountryMapError::NoSmsMapping { .. })
    ));
}

#[test]
fn countries_test_unknown_country() {
    let index = activate_index();
    let antarctica = Country::new("AQ").unwrap();
    assert!(matches!(
        activate::sms_id(&index, &antarctica),
        Err(activate::CountryMapError::NoSmsMapping { .. })
    ));
}

#[test]
fn test_unknown_sms_id() {
    let index = hero_index();
    assert!(matches!(
        hero::from_sms_id(&index, 9999),
        Err(hero::CountryMapError::UnknownSmsId { id: 9999 })
    ));
}

#[test]
fn countries_test_unknown_sms_id() {
    let index = activate_index();
    assert!(matches!(
        activate::from_sms_id(&index, 9999),
        Err(activate::CountryMapError::UnknownSmsId { id: 9999 })
    ));
}

#[test]
fn test_round_trip_conversion() {
    let iso = keshvar_iso_table();
    let entries = fixture_entries(&iso);
    let index = CountryIndex::build(&entries, &hero::name_overrides(), &iso);
    for (id, _name) in &entries {
        if let Some(alpha2) = index.from_sms_id(*id) {
            assert_eq!(
                index.sms_id_of(&alpha2).unwrap(),
                *id,
                "Round-trip failed for id {}",
                id
            );
        }
    }
}

#[test]
fn test_reverse_round_trip_conversion() {
    let iso = keshvar_iso_table();
    let entries = fixture_entries(&iso);
    let index = CountryIndex::build(&entries, &hero::name_overrides(), &iso);
    let mut checked = 0;
    for (id, _name) in &entries {
        if let Some(alpha2) = index.from_sms_id(*id) {
            assert_eq!(index.sms_id_of(&alpha2), Some(*id));
            checked += 1;
        }
    }
    assert!(checked > 50);
}

#[test]
fn countries_test_reverse_round_trip_conversion() {
    let iso = isocountry_iso_table();
    let entries = fixture_entries(&iso);
    let index = CountryIndex::build(&entries, &activate::name_overrides(), &iso);
    let mut checked = 0;
    for (id, _name) in &entries {
        if let Some(alpha2) = index.from_sms_id(*id) {
            assert_eq!(index.sms_id_of(&alpha2), Some(*id));
            checked += 1;
        }
    }
    assert!(checked > 50);
}

#[test]
fn test_popular_countries_have_mapping() {
    let index = hero_index();
    let popular = [
        "US", "GB", "UA", "DE", "FR", "IT", "ES", "PL", "NL", "CN", "IN", "BR", "ID",
    ];
    for alpha2 in popular {
        assert!(
            index.sms_id_of(alpha2).is_some(),
            "Popular country {} should have a mapping",
            alpha2
        );
    }
}

#[test]
fn countries_test_popular_countries_have_mapping() {
    let index = activate_index();
    let popular = [
        "US", "GB", "UA", "DE", "FR", "IT", "ES", "PL", "NL", "CN", "IN", "BR", "ID",
    ];
    for alpha2 in popular {
        assert!(
            index.sms_id_of(alpha2).is_some(),
            "Popular country {} should have a mapping",
            alpha2
        );
    }
}
