use vstd::prelude::*;

use crate::error::ConsistError;
use crate::locomotive::LocomotiveInfo;
use crate::order::Order;
use crate::order_list::{
    above_position, added, below_position, delete, edit, move_down, move_up, moved_down,
    moved_up, position_above, position_below, swapped,
};
use crate::sums::{
    lemma_sum_insert, lemma_sum_remove, lemma_sum_swap, lemma_sum_take_step, lemma_sum_update,
    sum_of,
};

verus! {

/// A track condition under which a unit has a pulling rating.
#[derive(Clone, Copy, PartialEq, Eq, Debug, Structural)]
pub enum Grade {
    /// Level track.
    Zero,
    /// A two percent grade.
    Two,
    /// A two percent grade in the rain.
    Rain,
}

/// The rating of a unit under a track condition, in tonnes.
pub open spec fn rating(l: LocomotiveInfo, g: Grade) -> int {
    match g {
        Grade::Zero => l.zero_grade_t as int,
        Grade::Two => l.two_grade_t as int,
        Grade::Rain => l.rain_grade_t as int,
    }
}

/// What a unit adds to the weight the consist can pull under a condition.
pub open spec fn contribution(l: LocomotiveInfo, g: Grade) -> int {
    if l.pulls() {
        rating(l, g)
    } else {
        0
    }
}

/// The weight the units can pull under a condition: the ratings of the units that
/// have power and are switched on.
pub open spec fn supported(s: Seq<LocomotiveInfo>, g: Grade) -> int {
    sum_of(s, |l: LocomotiveInfo| contribution(l, g))
}

/// The summed mass of the units, in kilograms.
pub open spec fn locos_weight(s: Seq<LocomotiveInfo>) -> int {
    sum_of(s, |l: LocomotiveInfo| l.weight_kg as int)
}

/// The summed length of the units, in millimetres.
pub open spec fn locos_length(s: Seq<LocomotiveInfo>) -> int {
    sum_of(s, |l: LocomotiveInfo| l.length_mm as int)
}

/// The summed weight of the orders, in kilograms.
pub open spec fn orders_weight(s: Seq<Order>) -> int {
    sum_of(s, |o: Order| o.weight_kg as int)
}

/// The summed length of the orders, in millimetres.
pub open spec fn orders_length(s: Seq<Order>) -> int {
    sum_of(s, |o: Order| o.length_mm as int)
}

/// The weight a consist can pull under each track condition, in tonnes.
#[derive(Clone, Copy, PartialEq, Eq, Debug, Structural)]
pub struct GradeLimits {
    pub zero_grade: u128,
    pub two_grade: u128,
    pub rain_grade: u128,
}

impl GradeLimits {
    /// The limit under a condition, as a mathematical integer.
    pub open spec fn at(self, g: Grade) -> int {
        match g {
            Grade::Zero => self.zero_grade as int,
            Grade::Two => self.two_grade as int,
            Grade::Rain => self.rain_grade as int,
        }
    }

    /// The limit under a condition.
    pub fn get(&self, g: Grade) -> (r: u128)
        ensures
            r == self.at(g),
    {
        match g {
            Grade::Zero => self.zero_grade,
            Grade::Two => self.two_grade,
            Grade::Rain => self.rain_grade,
        }
    }
}

/// The total weight and length of a consist.
#[derive(Clone, Copy, PartialEq, Eq, Debug, Structural)]
pub struct ConsistTotals {
    /// Total weight in kilograms.
    pub weight_kg: u128,
    /// Total length in millimetres.
    pub length_mm: u128,
}

/// The weight the units can pull under each condition.
pub fn recompute_limits(locos: &Vec<LocomotiveInfo>) -> (r: GradeLimits)
    ensures
        r.at(Grade::Zero) == supported(locos@, Grade::Zero),
        r.at(Grade::Two) == supported(locos@, Grade::Two),
        r.at(Grade::Rain) == supported(locos@, Grade::Rain),
{
    let ghost s = locos@;
    let mut zero: u128 = 0;
    let mut two: u128 = 0;
    let mut rain: u128 = 0;
    let mut i: usize = 0;
    while i < locos.len()
        invariant
            s == locos@,
            i <= s.len(),
            zero == supported(s.take(i as int), Grade::Zero),
            two == supported(s.take(i as int), Grade::Two),
            rain == supported(s.take(i as int), Grade::Rain),
            zero <= i * 0xffff,
            two <= i * 0xffff,
            rain <= i * 0xffff,
        decreases s.len() - i,
    {
        let l = locos[i];
        proof {
            lemma_sum_take_step(s, |l: LocomotiveInfo| contribution(l, Grade::Zero), i as int);
            lemma_sum_take_step(s, |l: LocomotiveInfo| contribution(l, Grade::Two), i as int);
            lemma_sum_take_step(s, |l: LocomotiveInfo| contribution(l, Grade::Rain), i as int);
        }
        if l.has_power && l.powered {
            zero = zero + l.zero_grade_t as u128;
            two = two + l.two_grade_t as u128;
            rain = rain + l.rain_grade_t as u128;
        }
        i = i + 1;
    }
    assert(s.take(s.len() as int) =~= s);
    GradeLimits { zero_grade: zero, two_grade: two, rain_grade: rain }
}

/// The summed mass of the units, in kilograms.
fn sum_locos_weight(locos: &Vec<LocomotiveInfo>) -> (r: u128)
    ensures
        r == locos_weight(locos@),
        r <= locos@.len() * 0xffff_ffff,
{
    let ghost s = locos@;
    let mut acc: u128 = 0;
    let mut i: usize = 0;
    while i < locos.len()
        invariant
            s == locos@,
            i <= s.len(),
            acc == locos_weight(s.take(i as int)),
            acc <= i * 0xffff_ffff,
        decreases s.len() - i,
    {
        proof {
            lemma_sum_take_step(s, |l: LocomotiveInfo| l.weight_kg as int, i as int);
        }
        acc = acc + locos[i].weight_kg as u128;
        i = i + 1;
    }
    assert(s.take(s.len() as int) =~= s);
    acc
}

/// The summed length of the units, in millimetres.
fn sum_locos_length(locos: &Vec<LocomotiveInfo>) -> (r: u128)
    ensures
        r == locos_length(locos@),
        r <= locos@.len() * 0xffff_ffff,
{
    let ghost s = locos@;
    let mut acc: u128 = 0;
    let mut i: usize = 0;
    while i < locos.len()
        invariant
            s == locos@,
            i <= s.len(),
            acc == locos_length(s.take(i as int)),
            acc <= i * 0xffff_ffff,
        decreases s.len() - i,
    {
        proof {
            lemma_sum_take_step(s, |l: LocomotiveInfo| l.length_mm as int, i as int);
        }
        acc = acc + locos[i].length_mm as u128;
        i = i + 1;
    }
    assert(s.take(s.len() as int) =~= s);
    acc
}

/// The summed weight of the orders, in kilograms.
fn sum_orders_weight(orders: &Vec<Order>) -> (r: u128)
    ensures
        r == orders_weight(orders@),
        r <= orders@.len() * 0xffff_ffff,
{
    let ghost s = orders@;
    let mut acc: u128 = 0;
    let mut i: usize = 0;
    while i < orders.len()
        invariant
            s == orders@,
            i <= s.len(),
            acc == orders_weight(s.take(i as int)),
            acc <= i * 0xffff_ffff,
        decreases s.len() - i,
    {
        proof {
            lemma_sum_take_step(s, |o: Order| o.weight_kg as int, i as int);
        }
        acc = acc + orders[i].weight_kg as u128;
        i = i + 1;
    }
    assert(s.take(s.len() as int) =~= s);
    acc
}

/// The summed length of the orders, in millimetres.
fn sum_orders_length(orders: &Vec<Order>) -> (r: u128)
    ensures
        r == orders_length(orders@),
        r <= orders@.len() * 0xffff_ffff,
{
    let ghost s = orders@;
    let mut acc: u128 = 0;
    let mut i: usize = 0;
    while i < orders.len()
        invariant
            s == orders@,
            i <= s.len(),
            acc == orders_length(s.take(i as int)),
            acc <= i * 0xffff_ffff,
        decreases s.len() - i,
    {
        proof {
            lemma_sum_take_step(s, |o: Order| o.length_mm as int, i as int);
        }
        acc = acc + orders[i].length_mm as u128;
        i = i + 1;
    }
    assert(s.take(s.len() as int) =~= s);
    acc
}

/// The total weight and length of units and orders together; power plays no part.
pub fn recompute_totals(locos: &Vec<LocomotiveInfo>, orders: &Vec<Order>) -> (r: ConsistTotals)
    ensures
        r.weight_kg == locos_weight(locos@) + orders_weight(orders@),
        r.length_mm == locos_length(locos@) + orders_length(orders@),
{
    let n_locos = locos.len();
    let n_orders = orders.len();
    let lw = sum_locos_weight(locos);
    let ow = sum_orders_weight(orders);
    let ll = sum_locos_length(locos);
    let ol = sum_orders_length(orders);
    ConsistTotals { weight_kg: lw + ow, length_mm: ll + ol }
}

/// A unit with its power switched on or off.
pub open spec fn with_power(l: LocomotiveInfo, on: bool) -> LocomotiveInfo {
    LocomotiveInfo { powered: on, ..l }
}

/// The train being planned: its units and its orders, in train order, with totals
/// that are kept in step with both lists.
pub struct ConsistManagerApp {
    locomotives: Vec<LocomotiveInfo>,
    orders: Vec<Order>,
    total_weight: u128,
    total_length: u128,
    supported_weight_0_deg: u128,
    supported_weight_2_deg: u128,
    supported_weight_rain: u128,
}

impl ConsistManagerApp {
    /// The units of the consist, in train order.
    pub closed spec fn units(&self) -> Seq<LocomotiveInfo> {
        self.locomotives@
    }

    /// The orders of the consist, in train order.
    pub closed spec fn order_seq(&self) -> Seq<Order> {
        self.orders@
    }

    /// The stored total weight and length match the two lists.
    pub closed spec fn totals_current(&self) -> bool {
        &&& self.total_weight == locos_weight(self.locomotives@) + orders_weight(self.orders@)
        &&& self.total_length == locos_length(self.locomotives@) + orders_length(self.orders@)
    }

    /// The stored pulling limits match the units.
    pub closed spec fn limits_current(&self) -> bool {
        &&& self.supported_weight_0_deg == supported(self.locomotives@, Grade::Zero)
        &&& self.supported_weight_2_deg == supported(self.locomotives@, Grade::Two)
        &&& self.supported_weight_rain == supported(self.locomotives@, Grade::Rain)
    }

    /// Every stored aggregate matches the lists.
    pub open spec fn wf(&self) -> bool {
        self.totals_current() && self.limits_current()
    }

    /// A consist holding the given units and orders, with its aggregates computed
    /// from them rather than taken from anywhere else.
    pub fn from_parts(locomotives: Vec<LocomotiveInfo>, orders: Vec<Order>) -> (r: Self)
        ensures
            r.units() == locomotives@,
            r.order_seq() == orders@,
            r.wf(),
    {
        let mut r = ConsistManagerApp {
            locomotives,
            orders,
            total_weight: 0,
            total_length: 0,
            supported_weight_0_deg: 0,
            supported_weight_2_deg: 0,
            supported_weight_rain: 0,
        };
        r.recalc_loco_limits();
        r.recalc_consist();
        r
    }

    /// Recalculates the weight the consist can pull under each track condition.
    pub fn recalc_loco_limits(&mut self)
        ensures
            final(self).units() == old(self).units(),
            final(self).order_seq() == old(self).order_seq(),
            final(self).limits_current(),
            final(self).totals_current() == old(self).totals_current(),
    {
        let limits = recompute_limits(&self.locomotives);
        self.supported_weight_0_deg = limits.zero_grade;
        self.supported_weight_2_deg = limits.two_grade;
        self.supported_weight_rain = limits.rain_grade;
    }

    /// Recalculates the total weight and length of the consist.
    pub fn recalc_consist(&mut self)
        ensures
            final(self).units() == old(self).units(),
            final(self).order_seq() == old(self).order_seq(),
            final(self).totals_current(),
            final(self).limits_current() == old(self).limits_current(),
    {
        let totals = recompute_totals(&self.locomotives, &self.orders);
        self.total_weight = totals.weight_kg;
        self.total_length = totals.length_mm;
    }

    /// The units of the consist, in train order.
    pub fn locomotives(&self) -> (r: &Vec<LocomotiveInfo>)
        ensures
            r@ == self.units(),
    {
        &self.locomotives
    }

    /// The orders of the consist, in train order.
    pub fn orders(&self) -> (r: &Vec<Order>)
        ensures
            r@ == self.order_seq(),
    {
        &self.orders
    }

    /// The total weight of units and orders, in kilograms.
    pub fn total_weight_kg(&self) -> (r: u128)
        requires
            self.wf(),
        ensures
            r == locos_weight(self.units()) + orders_weight(self.order_seq()),
    {
        self.total_weight
    }

    /// The total length of units and orders, in millimetres.
    pub fn total_length_mm(&self) -> (r: u128)
        requires
            self.wf(),
        ensures
            r == locos_length(self.units()) + orders_length(self.order_seq()),
    {
        self.total_length
    }

    /// The weight the consist can pull under each track condition, in tonnes.
    pub fn limits(&self) -> (r: GradeLimits)
        requires
            self.wf(),
        ensures
            r.at(Grade::Zero) == supported(self.units(), Grade::Zero),
            r.at(Grade::Two) == supported(self.units(), Grade::Two),
            r.at(Grade::Rain) == supported(self.units(), Grade::Rain),
    {
        GradeLimits {
            zero_grade: self.supported_weight_0_deg,
            two_grade: self.supported_weight_2_deg,
            rain_grade: self.supported_weight_rain,
        }
    }

    /// The weight the consist can pull under one track condition, in tonnes.
    pub fn supported_weight(&self, g: Grade) -> (r: u128)
        requires
            self.wf(),
        ensures
            r == supported(self.units(), g),
    {
        match g {
            Grade::Zero => self.supported_weight_0_deg,
            Grade::Two => self.supported_weight_2_deg,
            Grade::Rain => self.supported_weight_rain,
        }
    }

    /// Appends a unit to the consist.
    pub fn add_locomotive(&mut self, unit: LocomotiveInfo)
        ensures
            final(self).units() == old(self).units().push(unit),
            final(self).order_seq() == old(self).order_seq(),
            final(self).wf(),
    {
        self.locomotives.push(unit);
        self.recalc_consist();
        self.recalc_loco_limits();
    }

    /// Removes the unit at `ix`, handing it back.
    pub fn remove_locomotive(&mut self, ix: usize) -> (r: Result<LocomotiveInfo, ConsistError>)
        requires
            old(self).wf(),
        ensures
            final(self).order_seq() == old(self).order_seq(),
            final(self).wf(),
            ix < old(self).units().len() ==> r == Ok::<LocomotiveInfo, ConsistError>(
                old(self).units()[ix as int],
            ) && final(self).units() == old(self).units().remove(ix as int),
            ix >= old(self).units().len() ==> r == Err::<LocomotiveInfo, ConsistError>(
                ConsistError::OutOfRange,
            ) && final(self).units() == old(self).units(),
    {
        let r = delete(&mut self.locomotives, ix);
        if r.is_ok() {
            self.recalc_loco_limits();
            self.recalc_consist();
        }
        r
    }

    /// Switches the power of the unit at `ix` on or off; weight and length stay as
    /// they were, and the pulling limits follow.
    pub fn set_powered(&mut self, ix: usize, on: bool) -> (r: Result<(), ConsistError>)
        requires
            old(self).wf(),
        ensures
            final(self).order_seq() == old(self).order_seq(),
            final(self).wf(),
            ix < old(self).units().len() ==> r == Ok::<(), ConsistError>(())
                && final(self).units() == old(self).units().update(
                ix as int,
                with_power(old(self).units()[ix as int], on),
            ),
            ix >= old(self).units().len() ==> r == Err::<(), ConsistError>(
                ConsistError::OutOfRange,
            ) && final(self).units() == old(self).units(),
    {
        if ix >= self.locomotives.len() {
            return Err(ConsistError::OutOfRange);
        }
        let mut unit = self.locomotives[ix];
        unit.powered = on;
        let ghost before = self.locomotives@;
        let r = edit(&mut self.locomotives, ix, unit);
        proof {
            assert(unit == with_power(before[ix as int], on));
            lemma_sum_update(before, |l: LocomotiveInfo| l.weight_kg as int, ix as int, unit);
            lemma_sum_update(before, |l: LocomotiveInfo| l.length_mm as int, ix as int, unit);
        }
        self.recalc_loco_limits();
        r
    }

    /// Adds an order at `at` when that lies within `[0, len]`, else at the end.
    pub fn add_order(&mut self, order: Order, at: Option<usize>)
        ensures
            final(self).units() == old(self).units(),
            final(self).order_seq() == added(old(self).order_seq(), order, at),
            final(self).wf(),
    {
        crate::order_list::add(&mut self.orders, order, at);
        self.recalc_consist();
        self.recalc_loco_limits();
    }

    /// Adds an order from the context menu of row `row`, one place above it.
    pub fn add_order_above(&mut self, row: usize, order: Order)
        ensures
            final(self).units() == old(self).units(),
            final(self).order_seq() == added(old(self).order_seq(), order, above_position(row)),
            final(self).wf(),
    {
        let at = position_above(row);
        self.add_order(order, at);
    }

    /// Adds an order from the context menu of row `row`, below it.
    pub fn add_order_below(&mut self, row: usize, order: Order)
        ensures
            final(self).units() == old(self).units(),
            final(self).order_seq() == added(
                old(self).order_seq(),
                order,
                below_position(row, old(self).order_seq().len()),
            ),
            final(self).wf(),
    {
        let at = position_below(row, self.orders.len());
        self.add_order(order, at);
    }

    /// Deletes the order at `p`, handing it back.
    pub fn delete_order(&mut self, p: usize) -> (r: Result<Order, ConsistError>)
        requires
            old(self).wf(),
        ensures
            final(self).units() == old(self).units(),
            final(self).wf(),
            p < old(self).order_seq().len() ==> r == Ok::<Order, ConsistError>(
                old(self).order_seq()[p as int],
            ) && final(self).order_seq() == old(self).order_seq().remove(p as int),
            p >= old(self).order_seq().len() ==> r == Err::<Order, ConsistError>(
                ConsistError::OutOfRange,
            ) && final(self).order_seq() == old(self).order_seq(),
    {
        let r = delete(&mut self.orders, p);
        if r.is_ok() {
            self.recalc_consist();
        }
        r
    }

    /// Replaces the order at `p`, leaving every other order where it was.
    pub fn edit_order(&mut self, p: usize, order: Order) -> (r: Result<(), ConsistError>)
        requires
            old(self).wf(),
        ensures
            final(self).units() == old(self).units(),
            final(self).wf(),
            p < old(self).order_seq().len() ==> r == Ok::<(), ConsistError>(())
                && final(self).order_seq() == old(self).order_seq().update(p as int, order),
            p >= old(self).order_seq().len() ==> r == Err::<(), ConsistError>(
                ConsistError::OutOfRange,
            ) && final(self).order_seq() == old(self).order_seq(),
    {
        let r = edit(&mut self.orders, p, order);
        if r.is_ok() {
            self.recalc_consist();
        }
        r
    }

    /// Moves the order at `p` one place towards the front; the totals need no
    /// recalculation, since they do not depend on the order of the list.
    pub fn move_order_up(&mut self, p: usize) -> (r: Result<(), ConsistError>)
        requires
            old(self).wf(),
        ensures
            final(self).units() == old(self).units(),
            final(self).wf(),
            p < old(self).order_seq().len() ==> r == Ok::<(), ConsistError>(())
                && final(self).order_seq() == moved_up(old(self).order_seq(), p as int),
            p >= old(self).order_seq().len() ==> r == Err::<(), ConsistError>(
                ConsistError::OutOfRange,
            ) && final(self).order_seq() == old(self).order_seq(),
    {
        let ghost before = self.orders@;
        let r = move_up(&mut self.orders, p);
        proof {
            if p < before.len() && p > 0 {
                lemma_sum_swap(before, |o: Order| o.weight_kg as int, p - 1, p as int);
                lemma_sum_swap(before, |o: Order| o.length_mm as int, p - 1, p as int);
            }
        }
        r
    }

    /// Moves the order at `p` one place towards the back; the totals need no
    /// recalculation, since they do not depend on the order of the list.
    pub fn move_order_down(&mut self, p: usize) -> (r: Result<(), ConsistError>)
        requires
            old(self).wf(),
        ensures
            final(self).units() == old(self).units(),
            final(self).wf(),
            p < old(self).order_seq().len() ==> r == Ok::<(), ConsistError>(())
                && final(self).order_seq() == moved_down(old(self).order_seq(), p as int),
            p >= old(self).order_seq().len() ==> r == Err::<(), ConsistError>(
                ConsistError::OutOfRange,
            ) && final(self).order_seq() == old(self).order_seq(),
    {
        let ghost before = self.orders@;
        let r = move_down(&mut self.orders, p);
        proof {
            if p + 1 < before.len() {
                lemma_sum_swap(before, |o: Order| o.weight_kg as int, p as int, p + 1);
                lemma_sum_swap(before, |o: Order| o.length_mm as int, p as int, p + 1);
            }
        }
        r
    }
}

impl Default for ConsistManagerApp {
    /// An empty consist: no units, no orders, every aggregate zero.
    fn default() -> (r: Self)
        ensures
            r.units() == Seq::<LocomotiveInfo>::empty(),
            r.order_seq() == Seq::<Order>::empty(),
            r.wf(),
    {
        ConsistManagerApp::from_parts(Vec::new(), Vec::new())
    }
}

/// Switching off a unit that was pulling takes exactly its rating away from the
/// limit under every condition, and leaves every other unit's share alone.
pub proof fn lemma_power_off(s: Seq<LocomotiveInfo>, k: int, g: Grade)
    requires
        0 <= k < s.len(),
        s[k].pulls(),
    ensures
        supported(s.update(k, with_power(s[k], false)), g) == supported(s, g) - rating(s[k], g),
        locos_weight(s.update(k, with_power(s[k], false))) == locos_weight(s),
        locos_length(s.update(k, with_power(s[k], false))) == locos_length(s),
{
    let x = with_power(s[k], false);
    lemma_sum_update(s, |l: LocomotiveInfo| contribution(l, g), k, x);
    lemma_sum_update(s, |l: LocomotiveInfo| l.weight_kg as int, k, x);
    lemma_sum_update(s, |l: LocomotiveInfo| l.length_mm as int, k, x);
}

/// The totals and limits do not depend on the order of the lists: exchanging two
/// orders, or two units, leaves every one of them as it was.
pub proof fn lemma_order_independent(
    locos: Seq<LocomotiveInfo>,
    orders: Seq<Order>,
    i: int,
    j: int,
    g: Grade,
)
    ensures
        0 <= i < orders.len() && 0 <= j < orders.len() ==> orders_weight(swapped(orders, i, j))
            == orders_weight(orders) && orders_length(swapped(orders, i, j)) == orders_length(
            orders,
        ),
        0 <= i < locos.len() && 0 <= j < locos.len() ==> locos_weight(swapped(locos, i, j))
            == locos_weight(locos) && locos_length(swapped(locos, i, j)) == locos_length(locos)
            && supported(swapped(locos, i, j), g) == supported(locos, g),
{
    if 0 <= i < orders.len() && 0 <= j < orders.len() {
        lemma_sum_swap(orders, |o: Order| o.weight_kg as int, i, j);
        lemma_sum_swap(orders, |o: Order| o.length_mm as int, i, j);
    }
    if 0 <= i < locos.len() && 0 <= j < locos.len() {
        lemma_sum_swap(locos, |l: LocomotiveInfo| l.weight_kg as int, i, j);
        lemma_sum_swap(locos, |l: LocomotiveInfo| l.length_mm as int, i, j);
        lemma_sum_swap(locos, |l: LocomotiveInfo| contribution(l, g), i, j);
    }
}

} // verus!
