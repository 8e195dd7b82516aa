use consist_manager::consist::{recompute_limits, recompute_totals, ConsistManagerApp, Grade};
use consist_manager::error::ConsistError;
use consist_manager::locomotive::{Locomotive, LocomotiveInfo};
use consist_manager::order::Order;
use consist_manager::station::Station;

fn order(name: &str, weight_kg: u32, length_mm: u32) -> Order {
    Order {
        name: String::from(name),
        weight_kg,
        length_mm,
        pickup_station: Station::SteelMill,
        pickup_track: String::from("S1"),
        dropoff_station: Station::Harbor,
        dropoff_track: String::from("H2"),
    }
}

fn names(c: &ConsistManagerApp) -> Vec<String> {
    c.orders().iter().map(|o| o.name.clone()).collect()
}

fn expected_weight(c: &ConsistManagerApp) -> u128 {
    let l: u128 = c.locomotives().iter().map(|l| l.weight_kg as u128).sum();
    let o: u128 = c.orders().iter().map(|o| o.weight_kg as u128).sum();
    l + o
}

fn expected_length(c: &ConsistManagerApp) -> u128 {
    let l: u128 = c.locomotives().iter().map(|l| l.length_mm as u128).sum();
    let o: u128 = c.orders().iter().map(|o| o.length_mm as u128).sum();
    l + o
}

#[test]
fn empty_consist_has_zero_totals() {
    let c = ConsistManagerApp::default();
    assert!(c.locomotives().is_empty());
    assert!(c.orders().is_empty());
    assert_eq!(c.total_weight_kg(), 0);
    assert_eq!(c.total_length_mm(), 0);
    assert_eq!(c.supported_weight(Grade::Zero), 0);
}

#[test]
fn de2_scenario_and_power_toggle() {
    let mut c = ConsistManagerApp::default();
    c.add_locomotive(Locomotive::DE2.info());
    assert_eq!(c.total_weight_kg(), 38000);
    assert_eq!(c.total_length_mm(), 7600);
    let limits = c.limits();
    assert_eq!((limits.zero_grade, limits.two_grade, limits.rain_grade), (1200, 300, 250));
    assert_eq!(c.set_powered(0, false), Ok(()));
    let limits = c.limits();
    assert_eq!((limits.zero_grade, limits.two_grade, limits.rain_grade), (0, 0, 0));
    assert_eq!(c.total_weight_kg(), 38000);
    assert_eq!(c.total_length_mm(), 7600);
    assert_eq!(c.set_powered(0, true), Ok(()));
    assert_eq!(c.supported_weight(Grade::Two), 300);
}

#[test]
fn delete_middle_order_scenario() {
    let mut c = ConsistManagerApp::default();
    c.add_order(order("A", 10000, 5000), None);
    c.add_order(order("B", 20000, 8000), None);
    c.add_order(order("C", 5000, 2000), None);
    let removed = c.delete_order(1).unwrap();
    assert_eq!(removed.name, "B");
    assert_eq!(names(&c), vec!["A", "C"]);
    assert_eq!(c.total_weight_kg(), 15000);
    assert_eq!(c.total_length_mm(), 7000);
}

#[test]
fn insert_at_front_scenario() {
    let mut c = ConsistManagerApp::default();
    c.add_order(order("A", 10000, 5000), None);
    c.add_order(order("C", 5000, 2000), None);
    c.add_order(order("D", 1000, 1000), Some(0));
    assert_eq!(names(&c), vec!["D", "A", "C"]);
    assert_eq!(c.total_weight_kg(), 16000);
}

#[test]
fn out_of_range_add_appends() {
    let mut c = ConsistManagerApp::default();
    c.add_order(order("A", 1, 1), None);
    c.add_order(order("B", 1, 1), Some(5));
    c.add_order(order("C", 1, 1), Some(2));
    assert_eq!(names(&c), vec!["A", "B", "C"]);
}

#[test]
fn limits_count_only_powered_units() {
    let mut c = ConsistManagerApp::default();
    c.add_locomotive(Locomotive::DE6.info());
    c.add_locomotive(Locomotive::DE6Slug.info());
    c.add_locomotive(Locomotive::S060.info());
    c.add_locomotive(Locomotive::Caboose.info());
    assert_eq!(c.supported_weight(Grade::Zero), 4500);
    assert_eq!(c.supported_weight(Grade::Two), 1600);
    assert_eq!(c.supported_weight(Grade::Rain), 1300);
    c.set_powered(2, false).unwrap();
    assert_eq!(c.supported_weight(Grade::Zero), 3000);
    assert_eq!(c.supported_weight(Grade::Two), 1200);
    assert_eq!(c.supported_weight(Grade::Rain), 1000);
    // a unit without power stays out of the sums even when switched on
    c.set_powered(1, true).unwrap();
    assert_eq!(c.supported_weight(Grade::Zero), 3000);
    assert_eq!(c.total_weight_kg(), 125000 + 125000 + 50700 + 22000);
    assert_eq!(c.total_length_mm(), 18640 + 16800 + 9320 + 13200);
}

#[test]
fn totals_follow_every_operation() {
    let mut c = ConsistManagerApp::default();
    c.add_locomotive(Locomotive::DH4.info());
    c.add_order(order("A", 10000, 5000), None);
    c.add_order(order("B", 20500, 8250), Some(0));
    c.add_locomotive(Locomotive::BE2.info());
    c.edit_order(1, order("A2", 7000, 3000)).unwrap();
    c.add_order(order("C", 1, 2), Some(1));
    c.delete_order(0).unwrap();
    c.remove_locomotive(0).unwrap();
    c.move_order_down(0).unwrap();
    c.move_order_up(1).unwrap();
    assert_eq!(c.total_weight_kg(), expected_weight(&c));
    assert_eq!(c.total_length_mm(), expected_length(&c));
    assert_eq!(c.total_weight_kg(), 12000 + 7000 + 1);
    assert_eq!(c.total_length_mm(), 4080 + 3000 + 2);
}

#[test]
fn moves_are_inverse_and_stop_at_ends() {
    let mut c = ConsistManagerApp::default();
    for n in ["A", "B", "C"] {
        c.add_order(order(n, 1000, 1000), None);
    }
    c.move_order_up(0).unwrap();
    assert_eq!(names(&c), vec!["A", "B", "C"]);
    c.move_order_down(2).unwrap();
    assert_eq!(names(&c), vec!["A", "B", "C"]);
    c.move_order_up(2).unwrap();
    assert_eq!(names(&c), vec!["A", "C", "B"]);
    c.move_order_down(1).unwrap();
    assert_eq!(names(&c), vec!["A", "B", "C"]);
    c.move_order_down(0).unwrap();
    assert_eq!(names(&c), vec!["B", "A", "C"]);
    assert_eq!(c.total_weight_kg(), 3000);
}

#[test]
fn delete_then_add_restores() {
    let mut c = ConsistManagerApp::default();
    for n in ["A", "B", "C", "D"] {
        c.add_order(order(n, 1000, 500), None);
    }
    let before = c.orders().clone();
    let removed = c.delete_order(2).unwrap();
    c.add_order(removed, Some(2));
    assert_eq!(*c.orders(), before);
    assert_eq!(c.total_weight_kg(), 4000);
}

#[test]
fn edit_replaces_one_entry() {
    let mut c = ConsistManagerApp::default();
    for n in ["A", "B", "C"] {
        c.add_order(order(n, 1000, 500), None);
    }
    let before = c.orders().clone();
    c.edit_order(1, order("X", 9000, 4000)).unwrap();
    assert_eq!(c.orders()[0], before[0]);
    assert_eq!(c.orders()[2], before[2]);
    assert_eq!(c.orders()[1], order("X", 9000, 4000));
    assert_eq!(c.total_weight_kg(), 11000);
    assert_eq!(c.total_length_mm(), 5000);
}

#[test]
fn positions_outside_the_list_are_refused() {
    let mut c = ConsistManagerApp::default();
    c.add_order(order("A", 1000, 500), None);
    c.add_locomotive(Locomotive::DE2.info());
    assert_eq!(c.delete_order(1), Err(ConsistError::OutOfRange));
    assert_eq!(c.edit_order(1, order("B", 1, 1)), Err(ConsistError::OutOfRange));
    assert_eq!(c.move_order_up(1), Err(ConsistError::OutOfRange));
    assert_eq!(c.move_order_down(3), Err(ConsistError::OutOfRange));
    assert_eq!(c.remove_locomotive(1), Err(ConsistError::OutOfRange));
    assert_eq!(c.set_powered(1, false), Err(ConsistError::OutOfRange));
    assert_eq!(names(&c), vec!["A"]);
    assert_eq!(c.locomotives().len(), 1);
    assert_eq!(c.total_weight_kg(), 39000);
}

#[test]
fn add_above_and_below_rows() {
    let mut c = ConsistManagerApp::default();
    for n in ["A", "B", "C"] {
        c.add_order(order(n, 1000, 500), None);
    }
    c.add_order_above(2, order("X", 1, 1));
    assert_eq!(names(&c), vec!["A", "X", "B", "C"]);
    c.add_order_above(0, order("Y", 1, 1));
    assert_eq!(names(&c), vec!["Y", "A", "X", "B", "C"]);
    c.add_order_below(1, order("Z", 1, 1));
    assert_eq!(names(&c), vec!["Y", "A", "Z", "X", "B", "C"]);
    c.add_order_below(5, order("W", 1, 1));
    assert_eq!(names(&c), vec!["Y", "A", "Z", "X", "B", "C", "W"]);
}

#[test]
fn from_parts_recomputes_aggregates() {
    let locos = vec![Locomotive::DM3.info(), Locomotive::BE2.info()];
    let orders = vec![order("A", 2500, 1500)];
    let c = ConsistManagerApp::from_parts(locos.clone(), orders.clone());
    assert_eq!(c.total_weight_kg(), 52000 + 12000 + 2500);
    assert_eq!(c.total_length_mm(), 8600 + 4080 + 1500);
    assert_eq!(c.supported_weight(Grade::Zero), 2800);
    assert_eq!(*c.locomotives(), locos);
    assert_eq!(*c.orders(), orders);
}

#[test]
fn recompute_functions_are_pure_sums() {
    let mut off = Locomotive::S282.info();
    off.powered = false;
    let locos: Vec<LocomotiveInfo> = vec![Locomotive::DH4.info(), off];
    let limits = recompute_limits(&locos);
    assert_eq!((limits.zero_grade, limits.two_grade, limits.rain_grade), (2000, 600, 500));
    assert_eq!(limits.get(Grade::Rain), 500);
    let totals = recompute_totals(&locos, &vec![order("A", 1, 2)]);
    assert_eq!(totals.weight_kg, 77500 + 174800 + 1);
    assert_eq!(totals.length_mm, 12840 + 22180 + 2);
}

#[test]
fn recalc_after_manual_changes() {
    let mut c = ConsistManagerApp::from_parts(vec![Locomotive::DE2.info()], Vec::new());
    c.recalc_consist();
    c.recalc_loco_limits();
    assert_eq!(c.total_weight_kg(), 38000);
    assert_eq!(c.supported_weight(Grade::Zero), 1200);
}
