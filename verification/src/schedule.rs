//! The clock geometry of a shift: which readings lie past midnight, when a
//! shift is valid, and how its hours split into the three pay bands.

use vstd::arithmetic::div_mod::{lemma_mod_multiples_vanish, lemma_small_mod};
use vstd::prelude::*;

verus! {

/// The clock geometry of the working window: the earliest-arrival boundary
/// (readings below it count as past midnight), the latest bedtime (the top of
/// the dial, where the evening segment ends), and the latest permitted end of
/// a shift in the early morning.
#[derive(Clone, Copy)]
pub struct Schedule {
    pub earliest_arrival: i32,
    pub latest_bedtime: i32,
    pub latest_shift_end: i32,
}

impl Schedule {
    /// A reading lies past midnight when it falls below the earliest-arrival
    /// boundary.
    pub open spec fn spec_is_after_midnight(self, time: int) -> bool {
        time < self.earliest_arrival
    }

    /// The whole shift lies in the early-morning segment.
    pub open spec fn spec_all_work_after_midnight(self, arrival_time: int, departure_time: int) -> bool {
        self.spec_is_after_midnight(arrival_time) && self.spec_is_after_midnight(departure_time)
    }

    /// A shift is valid when both readings lie on the same side of midnight
    /// and do not run backwards, or when it wraps from the evening into the
    /// early morning. A shift that starts past midnight cannot return to the
    /// evening.
    pub open spec fn spec_is_valid_schedule(self, arrival_time: int, departure_time: int) -> bool {
        if self.spec_is_after_midnight(arrival_time) == self.spec_is_after_midnight(departure_time) {
            arrival_time <= departure_time
        } else if self.spec_is_after_midnight(arrival_time) && !self.spec_is_after_midnight(departure_time) {
            false
        } else {
            true
        }
    }

    /// Hours in the before-bedtime band: bedtime minus arrival, but only for
    /// a shift of nonzero length that starts in the evening; an arrival past
    /// midnight means bedtime came before the shift began.
    pub open spec fn spec_hours_before_bedtime(self, arrival_time: int, departure_time: int, bedtime: int) -> int {
        if arrival_time != departure_time && !self.spec_is_after_midnight(arrival_time) {
            bedtime - arrival_time
        } else {
            0
        }
    }

    /// Hours in the after-bedtime band. A shift wholly past midnight counts
    /// in full; a wraparound shift counts the evening remainder up to the top
    /// of the dial plus the morning hours; a same-side evening shift counts
    /// from bedtime to departure.
    pub open spec fn spec_hours_after_bedtime(self, arrival_time: int, departure_time: int, bedtime: int) -> int {
        if arrival_time == departure_time {
            0
        } else if self.spec_all_work_after_midnight(arrival_time, departure_time) {
            departure_time - arrival_time
        } else if self.spec_is_after_midnight(departure_time) {
            (self.latest_bedtime - bedtime) + departure_time
        } else {
            departure_time - bedtime
        }
    }

    /// Hours of the after-bedtime band that fall strictly past midnight: the
    /// whole shift when it lies in the early morning, the morning hours of a
    /// wraparound shift, and none otherwise.
    pub open spec fn spec_hours_after_midnight(self, arrival_time: int, departure_time: int) -> int {
        if self.spec_all_work_after_midnight(arrival_time, departure_time) {
            departure_time - arrival_time
        } else if self.spec_is_after_midnight(departure_time) {
            departure_time
        } else {
            0
        }
    }

    pub fn is_zero_hour_shift(&self, arrival_time: i32, departure_time: i32) -> (r: bool)
        ensures
            r == (arrival_time == departure_time),
    {
        arrival_time == departure_time
    }

    pub fn all_work_after_midnight(&self, arrival_time: i32, departure_time: i32) -> (r: bool)
        ensures
            r == self.spec_all_work_after_midnight(arrival_time as int, departure_time as int),
    {
        self.the(arrival_time).is_after_midnight() && self.the(departure_time).is_after_midnight()
    }

    pub fn get_hours_before_bedtime(&self, arrival_time: i32, departure_time: i32, bedtime: i32) -> (hours: i32)
        requires
            i32::MIN <= self.spec_hours_before_bedtime(arrival_time as int, departure_time as int, bedtime as int) <= i32::MAX,
        ensures
            hours == self.spec_hours_before_bedtime(arrival_time as int, departure_time as int, bedtime as int),
    {
        if !self.is_zero_hour_shift(arrival_time, departure_time) && self.the(arrival_time).is_before_midnight() {
            return bedtime - arrival_time;
        }
        0
    }

    pub fn get_hours_after_bedtime(&self, arrival_time: i32, departure_time: i32, bedtime: i32) -> (hours: i32)
        requires
            i32::MIN <= self.spec_hours_after_bedtime(arrival_time as int, departure_time as int, bedtime as int) <= i32::MAX,
        ensures
            hours == self.spec_hours_after_bedtime(arrival_time as int, departure_time as int, bedtime as int),
    {
        let hours: i32;
        if self.is_zero_hour_shift(arrival_time, departure_time) {
            hours = 0;
        } else if self.all_work_after_midnight(arrival_time, departure_time) {
            hours = departure_time - arrival_time;
        } else if self.the(departure_time).is_after_midnight() {
            let wide: i64 = (self.latest_bedtime as i64 - bedtime as i64) + departure_time as i64;
            hours = wide as i32;
        } else {
            hours = departure_time - bedtime;
        }
        hours
    }

    pub fn get_hours_after_midnight(&self, arrival_time: i32, departure_time: i32) -> (hours: i32)
        requires
            i32::MIN <= self.spec_hours_after_midnight(arrival_time as int, departure_time as int) <= i32::MAX,
        ensures
            hours == self.spec_hours_after_midnight(arrival_time as int, departure_time as int),
    {
        let hours: i32;
        if self.all_work_after_midnight(arrival_time, departure_time) {
            hours = departure_time - arrival_time;
        } else if self.the(departure_time).is_after_midnight() {
            hours = departure_time;
        } else {
            hours = 0;
        }
        hours
    }

    pub fn is_valid_schedule(&self, arrival_time: i32, departure_time: i32) -> (r: bool)
        ensures
            r == self.spec_is_valid_schedule(arrival_time as int, departure_time as int),
    {
        if self.the(arrival_time).is_after_midnight() == self.the(departure_time).is_after_midnight() {
            arrival_time <= departure_time
        } else if self.the(arrival_time).is_after_midnight() && self.the(departure_time).is_before_midnight() {
            false
        } else {
            true
        }
    }

    /// Views one reading against this schedule's midnight boundary.
    pub fn the(&self, time: i32) -> (v: TimeValidator)
        ensures
            v.earliest_arrival == self.earliest_arrival,
            v.time == time,
    {
        TimeValidator { earliest_arrival: self.earliest_arrival, time }
    }
}

/// The before-bedtime and after-bedtime hours of a valid shift together
/// cover exactly the shift's length on the dial: `departure - arrival` taken
/// modulo the dial's period, which is the schedule's `latest_bedtime` (the
/// top of the dial, where the evening segment ends and the count wraps).
/// On a wraparound shift that length works out to the evening remainder plus
/// the morning hours, `(latest_bedtime - arrival) + departure`; the bedtime
/// itself cancels out of the sum. Both readings must lie on the dial and the
/// midnight boundary strictly inside it.
pub proof fn lemma_band_hours_cover_shift(s: Schedule, arrival_time: int, departure_time: int, bedtime: int)
    requires
        0 < s.earliest_arrival <= s.latest_bedtime,
        0 <= arrival_time <= s.latest_bedtime,
        0 <= departure_time <= s.latest_bedtime,
        s.spec_is_valid_schedule(arrival_time, departure_time),
    ensures
        s.spec_hours_before_bedtime(arrival_time, departure_time, bedtime)
            + s.spec_hours_after_bedtime(arrival_time, departure_time, bedtime)
            == (departure_time - arrival_time) % (s.latest_bedtime as int),
        !s.spec_is_after_midnight(arrival_time) && s.spec_is_after_midnight(departure_time)
            ==> s.spec_hours_before_bedtime(arrival_time, departure_time, bedtime)
                + s.spec_hours_after_bedtime(arrival_time, departure_time, bedtime)
                == (s.latest_bedtime - arrival_time) + departure_time,
{
    let period = s.latest_bedtime as int;
    let length = departure_time - arrival_time;
    if !s.spec_is_after_midnight(arrival_time) && s.spec_is_after_midnight(departure_time) {
        lemma_mod_multiples_vanish(1, length, period);
        lemma_small_mod((length + period) as nat, period as nat);
    } else {
        lemma_small_mod(length as nat, period as nat);
    }
}

/// Of the after-bedtime hours, those past midnight are a part: the count
/// past midnight never exceeds the after-bedtime count. This needs the
/// bedtime not to lie beyond the point the after-bedtime band is measured
/// against: beyond `latest_bedtime` on a wraparound shift, or beyond the
/// departure on a shift that ends in the evening.
pub proof fn lemma_after_midnight_within_after_bedtime(s: Schedule, arrival_time: int, departure_time: int, bedtime: int)
    requires
        arrival_time != departure_time && !s.spec_is_after_midnight(arrival_time)
            && s.spec_is_after_midnight(departure_time) ==> bedtime <= s.latest_bedtime,
        arrival_time != departure_time && !s.spec_is_after_midnight(departure_time)
            ==> bedtime <= departure_time,
    ensures
        s.spec_hours_after_midnight(arrival_time, departure_time)
            <= s.spec_hours_after_bedtime(arrival_time, departure_time, bedtime),
{
}

/// One clock reading together with the boundary that separates the evening
/// segment from the early-morning segment of the dial.
#[derive(Clone, Copy)]
pub struct TimeValidator {
    pub earliest_arrival: i32,
    pub time: i32,
}

impl TimeValidator {
    /// A reading lies past midnight when it falls below the earliest-arrival
    /// boundary: the dial wraps, so the small values are the early morning.
    pub open spec fn spec_is_after_midnight(self) -> bool {
        self.time < self.earliest_arrival
    }

    pub fn is_after_midnight(&self) -> (r: bool)
        ensures
            r == self.spec_is_after_midnight(),
    {
        self.time < self.earliest_arrival
    }

    pub fn is_before_midnight(&self) -> (r: bool)
        ensures
            r == !self.spec_is_after_midnight(),
    {
        !self.is_after_midnight()
    }
}

} // verus!
