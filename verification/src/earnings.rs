//! Rates per pay band and the earnings calculation over a whole shift.

use crate::schedule::Schedule;
use vstd::prelude::*;

verus! {

/// Pay per hour in each band. The after-midnight bonus is paid on top of the
/// house-sit rate for the hours past midnight, not instead of it.
#[derive(Clone, Copy)]
pub struct Rate {
    pub standard_rate: i32,
    pub house_sit_rate: i32,
    pub after_midnight_bonus: i32,
}

/// A sitter: the rates to pay and the clock geometry to split a shift by.
#[derive(Clone, Copy)]
pub struct Babysitter {
    pub rate: Rate,
    pub schedule: Schedule,
}

impl Babysitter {
    /// Total pay for a shift: each band's hours times its rate, summed; an
    /// invalid schedule earns nothing, with no error raised.
    pub open spec fn spec_earnings(self, arrival_time: int, departure_time: int, bedtime: int) -> int {
        if self.schedule.spec_is_valid_schedule(arrival_time, departure_time) {
            self.rate.standard_rate * self.schedule.spec_hours_before_bedtime(arrival_time, departure_time, bedtime)
                + self.rate.house_sit_rate * self.schedule.spec_hours_after_bedtime(arrival_time, departure_time, bedtime)
                + self.rate.after_midnight_bonus * self.schedule.spec_hours_after_midnight(arrival_time, departure_time)
        } else {
            0
        }
    }

    pub fn get_earnings(&self, arrival_time: i32, departure_time: i32, bedtime: i32) -> (earnings: i32)
        requires
            self.schedule.spec_is_valid_schedule(arrival_time as int, departure_time as int) ==> {
                &&& i32::MIN <= self.schedule.spec_hours_before_bedtime(arrival_time as int, departure_time as int, bedtime as int) <= i32::MAX
                &&& i32::MIN <= self.schedule.spec_hours_after_bedtime(arrival_time as int, departure_time as int, bedtime as int) <= i32::MAX
                &&& i32::MIN <= self.schedule.spec_hours_after_midnight(arrival_time as int, departure_time as int) <= i32::MAX
                &&& i32::MIN <= self.spec_earnings(arrival_time as int, departure_time as int, bedtime as int) <= i32::MAX
            },
        ensures
            earnings == self.spec_earnings(arrival_time as int, departure_time as int, bedtime as int),
    {
        let mut earnings: i32 = 0;
        if self.schedule.is_valid_schedule(arrival_time, departure_time) {
            let hours_before = self.schedule.get_hours_before_bedtime(arrival_time, departure_time, bedtime);
            let hours_after = self.schedule.get_hours_after_bedtime(arrival_time, departure_time, bedtime);
            let hours_midnight = self.schedule.get_hours_after_midnight(arrival_time, departure_time);
            proof {
                lemma_i32_product_fits_i64(self.rate.standard_rate as int, hours_before as int);
                lemma_i32_product_fits_i64(self.rate.house_sit_rate as int, hours_after as int);
                lemma_i32_product_fits_i64(self.rate.after_midnight_bonus as int, hours_midnight as int);
            }
            let standard_pay: i64 = self.rate.standard_rate as i64 * hours_before as i64;
            let house_sit_pay: i64 = self.rate.house_sit_rate as i64 * hours_after as i64;
            let bonus_pay: i64 = self.rate.after_midnight_bonus as i64 * hours_midnight as i64;
            let total: i128 = standard_pay as i128 + house_sit_pay as i128 + bonus_pay as i128;
            earnings = total as i32;
        }
        earnings
    }
}

/// A zero-length shift earns nothing: when arrival equals departure the
/// schedule is valid but every band is empty, so the pay is zero whatever the
/// bedtime and the rates.
pub proof fn lemma_zero_hour_shift_earns_nothing(sitter: Babysitter, time: int, bedtime: int)
    ensures
        sitter.spec_earnings(time, time, bedtime) == 0,
{
}

/// The product of two values from the range of `i32` stays within the range
/// of `i64`.
proof fn lemma_i32_product_fits_i64(x: int, y: int)
    requires
        i32::MIN <= x <= i32::MAX,
        i32::MIN <= y <= i32::MAX,
    ensures
        i64::MIN <= x * y <= i64::MAX,
{
    assert(i64::MIN <= x * y <= i64::MAX) by (nonlinear_arith)
        requires
            i32::MIN <= x <= i32::MAX,
            i32::MIN <= y <= i32::MAX,
    ;
}

} // verus!
