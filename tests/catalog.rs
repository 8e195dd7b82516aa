use consist_manager::locomotive::{loco_list, locomotives, Locomotive, LocomotiveInfo};
use consist_manager::station::{all_stations, Station};

#[test]
fn de2_catalog_entry() {
    let de2 = Locomotive::DE2.info();
    assert_eq!(de2.loco, Locomotive::DE2);
    assert_eq!(de2.weight_kg, 38000);
    assert_eq!(de2.length_mm, 7600);
    assert_eq!(de2.zero_grade_t, 1200);
    assert_eq!(de2.two_grade_t, 300);
    assert_eq!(de2.rain_grade_t, 250);
    assert!(de2.has_power);
    assert!(de2.powered);
}

#[test]
fn unpowered_kinds_have_no_power() {
    for kind in [Locomotive::DE6Slug, Locomotive::Caboose] {
        let info = kind.info();
        assert!(!info.has_power);
        assert!(!info.powered);
        assert_eq!(info.zero_grade_t, 0);
    }
    let dm1u = Locomotive::DM1U.info();
    assert!(dm1u.has_power);
    assert_eq!(dm1u.zero_grade_t, 0);
}

#[test]
fn new_sets_power_from_flag() {
    let info = LocomotiveInfo::new(Locomotive::S282, 174800, 22180, 3000, 1000, 800, true);
    assert_eq!(info, Locomotive::S282.info());
    let off = LocomotiveInfo::new(Locomotive::Caboose, 22000, 13200, 0, 0, 0, false);
    assert!(!off.has_power && !off.powered);
}

#[test]
fn catalog_lists_every_kind_in_order() {
    let kinds = loco_list();
    assert_eq!(kinds.len(), 10);
    assert_eq!(kinds[0], Locomotive::DE2);
    assert_eq!(kinds[6], Locomotive::DE6Slug);
    assert_eq!(kinds[9], Locomotive::Caboose);
    let infos = locomotives();
    assert_eq!(infos.len(), 10);
    for (kind, info) in kinds.iter().zip(infos.iter()) {
        assert_eq!(info.loco, *kind);
        assert_eq!(*info, kind.info());
    }
    assert_eq!(infos[4].weight_kg, 174800);
    assert_eq!(infos[7].length_mm, 4080);
}

#[test]
fn locomotive_display_names() {
    assert_eq!(Locomotive::DE2.display_name(), "DE2");
    assert_eq!(Locomotive::DE6Slug.display_name(), "DE6 Slug");
    assert_eq!(Locomotive::BE2.display_name(), "BE2-260");
    assert_eq!(Locomotive::DM1U.display_name(), "DM1U-150");
}

#[test]
fn station_abbreviations() {
    assert_eq!(Station::CitySouth.to_abbrev(), "CS");
    assert_eq!(Station::CoalMineEast.to_abbrev(), "CME");
    assert_eq!(Station::ForestCentral.to_abbrev(), "FRC");
    assert_eq!(Station::Harbor.to_abbrev(), "HB");
    assert_eq!(Station::SteelMill.to_abbrev(), "SM");
}

#[test]
fn station_display_names() {
    assert_eq!(Station::FoodFactory.display_name(), "Food Factory & Town");
    assert_eq!(Station::IronMineWest.display_name(), "Iron Ore Mine West");
    assert_eq!(Station::Sawmill.display_name(), "Sawmill");
}

#[test]
fn stations_listed_once_each() {
    let all = all_stations();
    assert_eq!(all.len(), 20);
    assert_eq!(all[0], Station::CitySouth);
    assert_eq!(all[19], Station::SteelMill);
    let mut abbrevs: Vec<String> = all.iter().map(|s| s.to_abbrev()).collect();
    for a in &abbrevs {
        assert!(a.len() == 2 || a.len() == 3);
        assert!(a.chars().all(|c| c.is_ascii_uppercase()));
    }
    abbrevs.sort();
    abbrevs.dedup();
    assert_eq!(abbrevs.len(), 20);
}
