//! Motor wiring diagnostics.
//!
//! Button A within a short window after power-up asks for the mode. It drives
//! M1 to M4 one after the other, ahead and back, over and over, past the
//! kinematics, so that wiring and polarity can be seen.
use crate::car::motor;
use crate::car::motorbit;
use crate::car::motorbit::MotorBit;
use crate::car::pca9685;
use crate::car::pca9685::{BusStep, ChannelWrite, Pca9685};
use vstd::prelude::*;

verus! {

/// Speed of the motor under test.
pub const TEST_SPEED: i16 = 2048;

/// Time that each direction is held (ms).
pub const RUN_MS: u64 = 1000;

/// Pause between phases and between motors (ms).
pub const PAUSE_MS: u64 = 500;

/// Pause between cycles (ms).
pub const CYCLE_GAP_MS: u64 = 2000;

/// Length of the window for the button (ms).
pub const REQUEST_WINDOW_MS: u64 = 2000;

/// Interval of the looks at the button (ms).
pub const POLL_INTERVAL_MS: u64 = 50;

/// Looks at the button within the window.
pub const REQUEST_POLLS: u64 = REQUEST_WINDOW_MS / POLL_INTERVAL_MS;

/// The window in which the button asks for the mode. The button is looked at,
/// and [`POLL_INTERVAL_MS`] later again, until it is found pressed or the window
/// is over.
#[derive(Clone, Copy, PartialEq, Eq, Structural, Debug)]
pub struct RequestWindow {
    pub polls_left: u64,
}

impl RequestWindow {
    /// Whether the mode is asked for in the end, if the button level at look `i`
    /// (from zero) is low just if `low(i)`.
    pub open spec fn requested(self, low: spec_fn(int) -> bool) -> bool
        decreases self.polls_left,
    {
        if self.polls_left == 0 {
            false
        } else {
            low(REQUEST_POLLS - self.polls_left) || (RequestWindow {
                polls_left: (self.polls_left - 1) as u64,
            }).requested(low)
        }
    }

    /// Opens the window.
    pub fn new() -> (window: Self)
        ensures
            window.polls_left == REQUEST_POLLS,
            window.polls_left == 40,
    {
        RequestWindow { polls_left: REQUEST_POLLS }
    }

    /// Another look is due.
    pub fn wants_poll(&self) -> (wants: bool)
        ensures
            wants == (self.polls_left > 0),
    {
        self.polls_left > 0
    }

    /// Takes the button level of one look; the button is active low. Returns
    /// whether the mode is asked for.
    pub fn poll(&mut self, low: bool) -> (requested: bool)
        requires
            old(self).polls_left > 0,
        ensures
            final(self).polls_left == old(self).polls_left - 1,
            requested == low,
    {
        self.polls_left = self.polls_left - 1;
        low
    }
}

/// How the window ends.
proof fn lemma_requested(window: RequestWindow, low: spec_fn(int) -> bool)
    requires
        window.polls_left <= REQUEST_POLLS,
    ensures
        window.requested(low) <==> exists|i: int|
            REQUEST_POLLS - window.polls_left <= i < REQUEST_POLLS && #[trigger] low(i),
    decreases window.polls_left,
{
    if window.polls_left > 0 {
        let first = REQUEST_POLLS - window.polls_left;
        let rest = RequestWindow { polls_left: (window.polls_left - 1) as u64 };
        lemma_requested(rest, low);
        if rest.requested(low) {
            let i = choose|i: int|
                REQUEST_POLLS - rest.polls_left <= i < REQUEST_POLLS && #[trigger] low(i);
            assert(first <= i < REQUEST_POLLS && low(i));
        }
        if exists|i: int| first <= i < REQUEST_POLLS && #[trigger] low(i) {
            let i = choose|i: int| first <= i < REQUEST_POLLS && #[trigger] low(i);
            if i != first {
                assert(REQUEST_POLLS - rest.polls_left <= i < REQUEST_POLLS && low(i));
            }
        }
    }
}

/// The mode is asked for just if the button is low at one of the looks.
pub proof fn law_request_window(low: spec_fn(int) -> bool)
    ensures
        (RequestWindow { polls_left: REQUEST_POLLS }).requested(low) <==> exists|i: int|
            0 <= i < REQUEST_POLLS && #[trigger] low(i),
{
    lemma_requested(RequestWindow { polls_left: REQUEST_POLLS }, low);
}

/// The speeds with one motor at `speed` and the others at rest.
pub open spec fn only(motor: int, speed: int) -> Seq<int> {
    motorbit::at_rest().update(motor, speed)
}

/// Channel writes as bus steps.
pub open spec fn as_steps(writes: Seq<ChannelWrite>) -> Seq<BusStep> {
    writes.map_values(|w: ChannelWrite| BusStep::Channel(w))
}

/// The steps that test one motor: ahead, stop, back, stop.
pub open spec fn single_steps(motor: int) -> Seq<BusStep> {
    as_steps(motorbit::all_writes(only(motor, TEST_SPEED as int), 4)).push(BusStep::WaitMs(RUN_MS))
        + as_steps(motorbit::all_writes(motorbit::at_rest(), 4)).push(BusStep::WaitMs(PAUSE_MS))
        + as_steps(motorbit::all_writes(only(motor, -TEST_SPEED), 4)).push(BusStep::WaitMs(RUN_MS))
        + as_steps(motorbit::all_writes(motorbit::at_rest(), 4))
}

/// The steps of the first `n` motors of a cycle, with a pause after each.
pub open spec fn cycle_steps(n: nat) -> Seq<BusStep>
    decreases n,
{
    if n == 0 {
        Seq::empty()
    } else {
        cycle_steps((n - 1) as nat) + single_steps(n - 1).push(BusStep::WaitMs(PAUSE_MS))
    }
}

/// Appends channel writes to bus steps.
fn push_writes(steps: &mut Vec<BusStep>, writes: &Vec<ChannelWrite>)
    ensures
        final(steps)@ == old(steps)@ + as_steps(writes@),
{
    for i in 0..writes.len()
        invariant
            steps@ == old(steps)@ + as_steps(writes@.take(i as int)),
    {
        steps.push(BusStep::Channel(writes[i]));
        assert(as_steps(writes@.take(i + 1)) == as_steps(writes@.take(i as int)).push(
            BusStep::Channel(writes@[i as int]),
        ));
    }
    assert(writes@.take(writes@.len() as int) == writes@);
}

/// Runs exactly one motor at `speed` and stops every other.
pub fn set_only(motor: u8, speed: i16) -> (writes: Vec<ChannelWrite>)
    requires
        motor <= motorbit::M4,
        -4095 <= speed <= 4095,
    ensures
        writes@ == motorbit::all_writes(only(motor as int, speed as int), 4),
{
    let board = MotorBit::new(Pca9685::resume());
    let mut writes: Vec<ChannelWrite> = Vec::new();
    for m in 0..4u8
        invariant
            motor <= motorbit::M4,
            -4095 <= speed <= 4095,
            writes@ == motorbit::all_writes(only(motor as int, speed as int), m as nat),
    {
        let target: i16 = if m == motor {
            speed
        } else {
            0
        };
        let pair = board.run_dc_motor(m, target);
        writes.push(pair[0]);
        writes.push(pair[1]);
    }
    writes
}

/// Stops every motor.
pub fn stop_all() -> (writes: Vec<ChannelWrite>)
    ensures
        writes@ == motorbit::all_writes(motorbit::at_rest(), 4),
{
    MotorBit::new(Pca9685::resume()).stop_all_motors()
}

/// The steps that test one motor.
pub fn run_single_motor(motor: u8) -> (steps: Vec<BusStep>)
    requires
        motor <= motorbit::M4,
    ensures
        steps@ == single_steps(motor as int),
{
    let mut steps: Vec<BusStep> = Vec::new();
    push_writes(&mut steps, &set_only(motor, TEST_SPEED));
    steps.push(BusStep::WaitMs(RUN_MS));
    push_writes(&mut steps, &stop_all());
    steps.push(BusStep::WaitMs(PAUSE_MS));
    push_writes(&mut steps, &set_only(motor, -TEST_SPEED));
    steps.push(BusStep::WaitMs(RUN_MS));
    push_writes(&mut steps, &stop_all());
    steps
}

/// The steps of one cycle; the mode repeats it until power-off.
pub fn run() -> (steps: Vec<BusStep>)
    ensures
        steps@ == cycle_steps(4).push(BusStep::WaitMs(CYCLE_GAP_MS)),
{
    let mut steps: Vec<BusStep> = Vec::new();
    for motor in 0..4u8
        invariant
            steps@ == cycle_steps(motor as nat),
    {
        let mut single = run_single_motor(motor);
        steps.append(&mut single);
        steps.push(BusStep::WaitMs(PAUSE_MS));
    }
    steps.push(BusStep::WaitMs(CYCLE_GAP_MS));
    steps
}

/// While a motor is under test it runs at the test speed and every other motor
/// is in full off, whatever the chip did before; after each phase all are.
pub proof fn law_one_motor_at_a_time(regs: Map<int, u8>, motor: int, speed: int)
    requires
        0 <= motor < 4,
        -4095 <= speed <= 4095,
    ensures
        forall|m: int|
            0 <= m < 4 ==> motor::runs(
                pca9685::store_all(regs, motorbit::all_writes(only(motor, speed), 4)),
                m,
                #[trigger] only(motor, speed)[m],
            ),
        forall|m: int|
            0 <= m < 4 ==> #[trigger] motor::runs(
                pca9685::store_all(regs, motorbit::all_writes(motorbit::at_rest(), 4)),
                m,
                0,
            ),
{
    motor::lemma_all_writes_reach_speeds(regs, only(motor, speed));
    motor::lemma_all_writes_reach_speeds(regs, motorbit::at_rest());
    assert forall|m: int| 0 <= m < 4 implies #[trigger] motor::runs(
        pca9685::store_all(regs, motorbit::all_writes(motorbit::at_rest(), 4)),
        m,
        0,
    ) by {
        assert(motorbit::at_rest()[m] == 0);
    }
}

/// With one motor under test that motor has the speed and every other has none.
pub proof fn law_only_one_has_a_speed(motor: int, speed: int, m: int)
    requires
        0 <= motor < 4,
        0 <= m < 4,
    ensures
        only(motor, speed).len() == 4,
        only(motor, speed)[m] == if m == motor {
            speed
        } else {
            0
        },
{
}

/// The test of a motor takes 35 steps: it runs ahead at half speed for a second,
/// stops for half a second, runs back for a second and stops.
pub proof fn law_single_test(motor: int)
    requires
        0 <= motor < 4,
    ensures
        single_steps(motor).len() == 35,
        single_steps(motor).subrange(0, 8) == as_steps(
            motorbit::all_writes(only(motor, 2048), 4),
        ),
        single_steps(motor)[8] == BusStep::WaitMs(1000),
        single_steps(motor).subrange(9, 17) == as_steps(
            motorbit::all_writes(seq![0int, 0, 0, 0], 4),
        ),
        single_steps(motor)[17] == BusStep::WaitMs(500),
        single_steps(motor).subrange(18, 26) == as_steps(
            motorbit::all_writes(only(motor, -2048), 4),
        ),
        single_steps(motor)[26] == BusStep::WaitMs(1000),
        single_steps(motor).subrange(27, 35) == as_steps(
            motorbit::all_writes(seq![0int, 0, 0, 0], 4),
        ),
{
    motorbit::law_motors_in_order(only(motor, 2048));
    motorbit::law_motors_in_order(only(motor, -2048));
    motorbit::law_motors_in_order(motorbit::at_rest());
}

/// A cycle tests the motors in order, half a second apart.
pub proof fn law_cycle(motor: int)
    requires
        0 <= motor < 4,
    ensures
        cycle_steps(4).len() == 144,
        cycle_steps(4).subrange(36 * motor, 36 * motor + 35) == single_steps(motor),
        cycle_steps(4)[36 * motor + 35] == BusStep::WaitMs(500),
{
    law_single_test(0);
    law_single_test(1);
    law_single_test(2);
    law_single_test(3);
    reveal_with_fuel(cycle_steps, 5);
    assert(cycle_steps(4).subrange(36 * motor, 36 * motor + 35) =~= single_steps(motor));
}

/// Writes stay what they are and in order as bus steps.
pub proof fn law_steps_are_the_writes(writes: Seq<ChannelWrite>, i: int)
    requires
        0 <= i < writes.len(),
    ensures
        as_steps(writes).len() == writes.len(),
        as_steps(writes)[i] == BusStep::Channel(writes[i]),
{
}

} // verus!
