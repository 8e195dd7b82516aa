use consist_manager::error::ConsistError;
use consist_manager::order::Order;
use consist_manager::order_form::{OrderModal, OrderModalMode};
use consist_manager::station::Station;

#[test]
fn new_form_is_empty_and_closed() {
    let m = OrderModal::new(OrderModalMode::Edit);
    assert_eq!(m.modal_mode, OrderModalMode::Edit);
    assert!(m.order_name.is_empty() && m.weight.is_empty() && m.length.is_empty());
    assert_eq!(m.pickup, Station::SteelMill);
    assert_eq!(m.dropoff, Station::Harbor);
    assert!(m.order.is_none());
    assert!(!m.open);
    assert_eq!(m.index, 0);
}

#[test]
fn submit_builds_order_and_clears_text() {
    let mut m = OrderModal::new(OrderModalMode::New);
    m.order_name = String::from("Logs");
    m.weight = String::from("12.5");
    m.length = String::from("14");
    m.pickup = Station::ForestSouth;
    m.pickup_track = String::from("T1");
    m.dropoff = Station::Sawmill;
    m.dropoff_track = String::from("T2");
    assert_eq!(m.update_order(), Ok(()));
    let o = m.order.clone().unwrap();
    assert_eq!(o.name, "Logs");
    assert_eq!(o.weight_kg, 12500);
    assert_eq!(o.length_mm, 14000);
    assert_eq!(o.pickup_station, Station::ForestSouth);
    assert_eq!(o.pickup_track, "T1");
    assert_eq!(o.dropoff_station, Station::Sawmill);
    assert_eq!(o.dropoff_track, "T2");
    assert!(m.order_name.is_empty() && m.weight.is_empty() && m.length.is_empty());
    assert!(m.pickup_track.is_empty() && m.dropoff_track.is_empty());
}

#[test]
fn submit_with_bad_number_changes_nothing() {
    let mut m = OrderModal::new(OrderModalMode::New);
    m.order_name = String::from("Coal");
    m.weight = String::from("heavy");
    m.length = String::from("10");
    assert_eq!(m.update_order(), Err(ConsistError::InvalidNumericInput));
    assert!(m.order.is_none());
    assert_eq!(m.order_name, "Coal");
    assert_eq!(m.weight, "heavy");
    m.weight = String::from("3");
    m.length = String::from("");
    assert_eq!(m.update_order(), Err(ConsistError::InvalidNumericInput));
}

#[test]
fn edit_form_round_trips_an_order() {
    let original = Order {
        name: String::from("Pipes"),
        weight_kg: 20250,
        length_mm: 12000,
        pickup_station: Station::SteelMill,
        pickup_track: String::from("A"),
        dropoff_station: Station::OilWellNorth,
        dropoff_track: String::from("B"),
    };
    let mut m = OrderModal::new(OrderModalMode::Edit);
    m.init_from_order(&original, 3);
    assert_eq!(m.weight, "20.25");
    assert_eq!(m.length, "12");
    assert_eq!(m.index, 3);
    assert_eq!(m.dropoff, Station::OilWellNorth);
    assert_eq!(m.update_order(), Ok(()));
    assert_eq!(m.order, Some(original));
}
