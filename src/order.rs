use vstd::prelude::*;

use crate::station::Station;

verus! {

/// A cargo-hauling task: what is carried, how heavy and long it is, and where it
/// is picked up and dropped off.
#[derive(Clone, Debug)]
pub struct Order {
    pub name: String,
    /// Weight in kilograms.
    pub weight_kg: u32,
    /// Length in millimetres.
    pub length_mm: u32,
    pub pickup_station: Station,
    pub pickup_track: String,
    pub dropoff_station: Station,
    pub dropoff_track: String,
}

/// Two orders are equal when every field is.
pub open spec fn same_order(a: &Order, b: &Order) -> bool {
    &&& a.name@ == b.name@
    &&& a.weight_kg == b.weight_kg
    &&& a.length_mm == b.length_mm
    &&& a.pickup_station == b.pickup_station
    &&& a.pickup_track@ == b.pickup_track@
    &&& a.dropoff_station == b.dropoff_station
    &&& a.dropoff_track@ == b.dropoff_track@
}

impl PartialEq for Order {
    fn eq(&self, o: &Order) -> (r: bool) {
        self.name == o.name && self.weight_kg == o.weight_kg && self.length_mm == o.length_mm
            && self.pickup_station == o.pickup_station && self.pickup_track == o.pickup_track
            && self.dropoff_station == o.dropoff_station && self.dropoff_track == o.dropoff_track
    }
}

impl vstd::std_specs::cmp::PartialEqSpecImpl for Order {
    open spec fn obeys_eq_spec() -> bool {
        true
    }

    open spec fn eq_spec(&self, o: &Order) -> bool {
        same_order(self, o)
    }
}

} // verus!
