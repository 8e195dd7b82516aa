use vstd::prelude::*;

pub mod consist;
pub mod decimal;
pub mod error;
pub mod locomotive;
pub mod order;
pub mod order_form;
pub mod order_list;
pub mod station;
pub mod sums;

verus! {

} // verus!
