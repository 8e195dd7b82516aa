use vstd::prelude::*;

use crate::decimal::{decimal_text, decimal_value, format_thousandths, is_decimal, parse_thousandths};
use crate::error::ConsistError;
use crate::order::Order;
use crate::station::Station;

verus! {

/// Whether an order form creates a new order or edits an existing one.
#[derive(Clone, Copy, PartialEq, Eq, Debug, Structural)]
pub enum OrderModalMode {
    New,
    Edit,
}

/// The text typed into an order form, and the order it produced once submitted.
///
/// Weight is typed in tonnes and length in metres, each with at most three decimals.
pub struct OrderModal {
    pub modal_mode: OrderModalMode,
    pub order_name: String,
    pub weight: String,
    pub length: String,
    pub pickup: Station,
    pub pickup_track: String,
    pub dropoff: Station,
    pub dropoff_track: String,
    /// The order produced by the last successful submission, until it is taken.
    pub order: Option<Order>,
    pub open: bool,
    /// The position of the order being edited.
    pub index: usize,
}

/// Typed text is accepted as a quantity that fits.
pub open spec fn accepts(s: Seq<char>) -> bool {
    is_decimal(s) && decimal_value(s) <= u32::MAX
}

impl OrderModal {
    /// An empty, closed form.
    pub fn new(modal_mode: OrderModalMode) -> (r: Self)
        ensures
            r.modal_mode == modal_mode,
            r.order_name@.len() == 0,
            r.weight@.len() == 0,
            r.length@.len() == 0,
            r.pickup == Station::SteelMill,
            r.pickup_track@.len() == 0,
            r.dropoff == Station::Harbor,
            r.dropoff_track@.len() == 0,
            r.order is None,
            !r.open,
            r.index == 0,
    {
        OrderModal {
            modal_mode,
            order_name: String::new(),
            weight: String::new(),
            length: String::new(),
            pickup: Station::SteelMill,
            pickup_track: String::new(),
            dropoff: Station::Harbor,
            dropoff_track: String::new(),
            order: None,
            open: false,
            index: 0,
        }
    }

    /// Fills the form from an existing order at position `index`, for editing.
    pub fn init_from_order(&mut self, order: &Order, index: usize)
        ensures
            final(self).order_name@ == order.name@,
            final(self).weight@ == decimal_text(order.weight_kg as nat),
            final(self).length@ == decimal_text(order.length_mm as nat),
            final(self).pickup == order.pickup_station,
            final(self).pickup_track@ == order.pickup_track@,
            final(self).dropoff == order.dropoff_station,
            final(self).dropoff_track@ == order.dropoff_track@,
            final(self).index == index,
            final(self).modal_mode == old(self).modal_mode,
            final(self).order == old(self).order,
            final(self).open == old(self).open,
    {
        self.order_name = order.name.clone();
        self.weight = format_thousandths(order.weight_kg);
        self.length = format_thousandths(order.length_mm);
        self.pickup = order.pickup_station;
        self.pickup_track = order.pickup_track.clone();
        self.dropoff = order.dropoff_station;
        self.dropoff_track = order.dropoff_track.clone();
        self.index = index;
    }

    /// Submits the form: when weight and length both read as quantities, stores the
    /// order they describe and clears the typed text; otherwise changes nothing.
    pub fn update_order(&mut self) -> (r: Result<(), ConsistError>)
        ensures
            r is Ok <==> accepts(old(self).weight@) && accepts(old(self).length@),
            r is Err ==> r == Err::<(), ConsistError>(ConsistError::InvalidNumericInput)
                && *final(self) == *old(self),
            r is Ok ==> final(self).order == Some(
                Order {
                    name: old(self).order_name,
                    weight_kg: decimal_value(old(self).weight@) as u32,
                    length_mm: decimal_value(old(self).length@) as u32,
                    pickup_station: old(self).pickup,
                    pickup_track: old(self).pickup_track,
                    dropoff_station: old(self).dropoff,
                    dropoff_track: old(self).dropoff_track,
                },
            ),
            r is Ok ==> final(self).order_name@.len() == 0 && final(self).weight@.len() == 0
                && final(self).length@.len() == 0 && final(self).pickup_track@.len() == 0
                && final(self).dropoff_track@.len() == 0,
            r is Ok ==> final(self).modal_mode == old(self).modal_mode,
            r is Ok ==> final(self).pickup == old(self).pickup,
            r is Ok ==> final(self).dropoff == old(self).dropoff,
            r is Ok ==> final(self).open == old(self).open,
            r is Ok ==> final(self).index == old(self).index,
    {
        let weight = parse_thousandths(self.weight.as_str());
        let length = parse_thousandths(self.length.as_str());
        match (weight, length) {
            (Some(w), Some(l)) => {
                self.order = Some(
                    Order {
                        name: self.order_name.clone(),
                        weight_kg: w,
                        length_mm: l,
                        pickup_station: self.pickup,
                        pickup_track: self.pickup_track.clone(),
                        dropoff_station: self.dropoff,
                        dropoff_track: self.dropoff_track.clone(),
                    },
                );
                self.order_name = String::new();
                self.weight = String::new();
                self.length = String::new();
                self.pickup_track = String::new();
                self.dropoff_track = String::new();
                Ok(())
            },
            _ => Err(ConsistError::InvalidNumericInput),
        }
    }
}

} // verus!
