//! Motor output limits, the PWM range of a motor pin, the list of motor pins
//! and the pairing of pins with power settings.

use vstd::prelude::*;

verus! {

/// Longest pulse sent to an ESC by the flight controller, in microseconds.
pub const MAX_VALUE: u32 = 2000;

/// Shortest pulse sent to an ESC by the flight controller, in microseconds.
pub const MIN_VALUE: u32 = 1000;

/// Longest pulse sent to an ESC by the tethered test controller.
pub const TETHERED_MAX_VALUE: u32 = 1975;

/// Shortest pulse sent to an ESC by the tethered test controller.
pub const TETHERED_MIN_VALUE: u32 = 1100;

/// `power` limited to the interval from `min` to `max`.
pub open spec fn limited(power: int, min: int, max: int) -> int {
    if power > max {
        max
    } else if power < min {
        min
    } else {
        power
    }
}

/// The pulse actually sent for a requested power: requests above `max` are
/// cut to `max`, requests below `min` raised to `min`.
pub fn limit_power(power: u32, min: u32, max: u32) -> (pulse: u32)
    requires
        min <= max,
    ensures
        pulse as int == limited(power as int, min as int, max as int),
{
    let mut pulse: u32 = power;
    if pulse > max {
        pulse = max;
    } else if pulse < min {
        pulse = min;
    }
    pulse
}

/// The pulse the flight controller sends for a requested power.
pub fn set_power(power: u32) -> (pulse: u32)
    ensures
        pulse as int == limited(power as int, MIN_VALUE as int, MAX_VALUE as int),
{
    limit_power(power, MIN_VALUE, MAX_VALUE)
}

/// The pulse the tethered test controller sends for a requested power.
pub fn set_tethered_power(power: u32) -> (pulse: u32)
    ensures
        pulse as int == limited(power as int, TETHERED_MIN_VALUE as int, TETHERED_MAX_VALUE as int),
{
    limit_power(power, TETHERED_MIN_VALUE, TETHERED_MAX_VALUE)
}

/// A sent pulse always lies within the limits, a request within the limits
/// is sent unchanged, and limiting twice changes nothing more.
pub proof fn lemma_limit_bounds(power: int, min: int, max: int)
    requires
        min <= max,
    ensures
        min <= limited(power, min, max) <= max,
        min <= power <= max ==> limited(power, min, max) == power,
        limited(limited(power, min, max), min, max) == limited(power, min, max),
{
}

/// A larger request is never sent as a shorter pulse.
pub proof fn lemma_limit_monotone(lower: int, higher: int, min: int, max: int)
    requires
        min <= max,
        lower <= higher,
    ensures
        limited(lower, min, max) <= limited(higher, min, max),
{
}

/// The PWM range of a motor pin driven at `frequency` Hertz: one count per
/// microsecond of the period.
pub fn pwm_range(frequency: u32) -> (range: u32)
    requires
        frequency > 0,
    ensures
        range as int == 1_000_000int / (frequency as int),
{
    1_000_000 / frequency
}

/// The motor pins in the order they were added.
pub struct MotorManager {
    pub motors: Vec<u32>,
}

impl MotorManager {
    pub fn new() -> (manager: MotorManager)
        ensures
            manager.motors@ == Seq::<u32>::empty(),
    {
        MotorManager { motors: Vec::new() }
    }

    /// Records a newly initialised motor pin after the others.
    pub fn new_motor(&mut self, gpio_pin: u32)
        ensures
            final(self).motors@ == old(self).motors@.push(gpio_pin),
    {
        self.motors.push(gpio_pin);
    }

    /// The four motor pins the attitude loop drives, in motor order; `None`
    /// when fewer than four were added.
    pub fn quad_pins(&self) -> (pins: Option<(u32, u32, u32, u32)>)
        ensures
            self.motors@.len() >= 4 ==> pins == Some(
                (self.motors@[0], self.motors@[1], self.motors@[2], self.motors@[3]),
            ),
            self.motors@.len() < 4 ==> pins is None,
    {
        if self.motors.len() >= 4 {
            Some((self.motors[0], self.motors[1], self.motors[2], self.motors[3]))
        } else {
            None
        }
    }
}

/// The pulse width for each configured motor pin: the i-th pin gets the i-th
/// power. At most four pins can be served.
pub fn pin_powers<P: Copy>(pins: &Vec<u8>, powers: [P; 4]) -> (assignments: Vec<(u8, P)>)
    requires
        pins@.len() <= 4,
    ensures
        assignments@.len() == pins@.len(),
        forall|i: int|
            0 <= i < pins@.len() ==> #[trigger] assignments@[i] == (pins@[i], powers@[i]),
{
    let mut assignments: Vec<(u8, P)> = Vec::new();
    let mut i: usize = 0;
    while i < pins.len()
        invariant
            pins@.len() <= 4,
            i <= pins@.len(),
            assignments@.len() == i,
            forall|j: int| 0 <= j < i ==> #[trigger] assignments@[j] == (pins@[j], powers@[j]),
        decreases pins@.len() - i,
    {
        assignments.push((pins[i], powers[i]));
        i = i + 1;
    }
    assignments
}

} // verus!
