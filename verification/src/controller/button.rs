//! The buttons: C and D turn the car, A switches the input mode.
//!
//! C asks for a counter-clockwise turn, D for a clockwise one; both together, or
//! neither, ask for none. The turn rate follows in steps of [`OMEGA_STEP`] per
//! poll.
use crate::num;
use vstd::prelude::*;

verus! {

/// Largest turn rate of the buttons.
pub const OMEGA_MAX: i8 = 100;

/// Change of the turn rate per poll.
pub const OMEGA_STEP: i8 = 20;

/// Poll interval of C and D (ms).
pub const POLL_INTERVAL_MS: u64 = 20;

/// Debounce time of the mode button (ms). A press counts only if the button was
/// released for at least this long before it, and is still held this long after
/// it began.
pub const MODE_DEBOUNCE_MS: u64 = 50;

/// Poll interval of the mode button (ms).
pub const MODE_POLL_INTERVAL_MS: u64 = 10;

/// One step from `current` towards `target`: all the way if it is within
/// [`OMEGA_STEP`], else by that much, and then into `-100..=100`. A value on
/// target is left alone.
pub open spec fn stepped(current: int, target: int) -> int {
    if current == target {
        current
    } else {
        num::clamp(
            if num::abs(target - current) <= OMEGA_STEP {
                target
            } else if target > current {
                current + OMEGA_STEP
            } else {
                current - OMEGA_STEP
            },
            -OMEGA_MAX as int,
            OMEGA_MAX as int,
        )
    }
}

/// The turn rate that the buttons ask for.
pub open spec fn wanted(ccw_pressed: bool, cw_pressed: bool) -> int {
    if ccw_pressed == cw_pressed {
        0
    } else if ccw_pressed {
        -OMEGA_MAX as int
    } else {
        OMEGA_MAX as int
    }
}

/// Moves the turn rate one step towards its target.
pub fn step_toward(current: i8, target: i8) -> (next: i8)
    ensures
        next == stepped(current as int, target as int),
{
    if current == target {
        return current;
    }
    let diff: i16 = target as i16 - current as i16;
    let step: i16 = OMEGA_STEP as i16;
    let next: i16 = if -step <= diff && diff <= step {
        target as i16
    } else if diff > 0 {
        current as i16 + step
    } else {
        current as i16 - step
    };
    num::clamp_i16(next, -(OMEGA_MAX as i16), OMEGA_MAX as i16) as i8
}

/// The turn rate that the buttons ask for.
pub fn target_from_buttons(ccw_pressed: bool, cw_pressed: bool) -> (target: i8)
    ensures
        target == wanted(ccw_pressed, cw_pressed),
{
    match (ccw_pressed, cw_pressed) {
        (true, true) => 0,
        (true, false) => -OMEGA_MAX,
        (false, true) => OMEGA_MAX,
        (false, false) => 0,
    }
}

/// The turn rate of the buttons and the one last published.
#[derive(Clone, Copy, PartialEq, Eq, Structural, Debug)]
pub struct ButtonRamp {
    pub current: i8,
    pub last_sent: i8,
}

impl ButtonRamp {
    /// The state after a poll of the buttons.
    pub open spec fn after(self, ccw_low: bool, cw_low: bool) -> ButtonRamp {
        let next = stepped(self.current as int, wanted(ccw_low, cw_low)) as i8;
        ButtonRamp { current: next, last_sent: next }
    }

    /// What is published on a poll: a turn rate that differs from the last.
    pub open spec fn publishes(self, ccw_low: bool, cw_low: bool) -> Option<i8> {
        let next = self.after(ccw_low, cw_low).current;
        if next == self.last_sent {
            None
        } else {
            Some(next)
        }
    }

    /// The state after `n` polls with the same buttons.
    pub open spec fn after_held(self, ccw_low: bool, cw_low: bool, n: nat) -> ButtonRamp
        decreases n,
    {
        if n == 0 {
            self
        } else {
            self.after_held(ccw_low, cw_low, (n - 1) as nat).after(ccw_low, cw_low)
        }
    }

    /// At rest, with zero published.
    pub fn new() -> (ramp: Self)
        ensures
            ramp == (ButtonRamp { current: 0, last_sent: 0 }),
    {
        ButtonRamp { current: 0, last_sent: 0 }
    }

    /// Takes one poll of the buttons, whether their lines are low, which means
    /// pressed. Returns the turn rate if it is to be published: when it changed.
    pub fn poll(&mut self, ccw_low: bool, cw_low: bool) -> (publish: Option<i8>)
        ensures
            final(self).current == stepped(old(self).current as int, wanted(ccw_low, cw_low)),
            final(self).last_sent == final(self).current,
            publish == if final(self).current == old(self).last_sent {
                None
            } else {
                Some(final(self).current)
            },
            *final(self) == old(self).after(ccw_low, cw_low),
            publish == old(self).publishes(ccw_low, cw_low),
    {
        let target: i8 = target_from_buttons(ccw_low, cw_low);
        self.current = step_toward(self.current, target);
        if self.current != self.last_sent {
            self.last_sent = self.current;
            Some(self.current)
        } else {
            None
        }
    }
}

/// The mode button: how long it has been seen released, up to
/// [`MODE_DEBOUNCE_MS`], or `None` if it was pressed at the last look.
#[derive(Clone, Copy, PartialEq, Eq, Structural, Debug)]
pub struct ModeSwitch {
    pub released_ms: Option<u64>,
}

impl ModeSwitch {
    /// The state after a first look.
    pub open spec fn started(pressed: bool) -> ModeSwitch {
        ModeSwitch {
            released_ms: if pressed {
                None
            } else {
                Some(0)
            },
        }
    }

    /// The state after another look, one poll interval later.
    pub open spec fn looked(self, pressed: bool) -> ModeSwitch {
        match self.released_ms {
            Some(ms) if !pressed => ModeSwitch {
                released_ms: Some(
                    if ms < MODE_DEBOUNCE_MS {
                        (ms + MODE_POLL_INTERVAL_MS) as u64
                    } else {
                        ms
                    },
                ),
            },
            _ => ModeSwitch::started(pressed),
        }
    }

    /// Whether a look sees the begin of a press after a long enough release.
    pub open spec fn begins(self, pressed: bool) -> bool {
        pressed && match self.released_ms {
            Some(ms) => ms >= MODE_DEBOUNCE_MS,
            None => false,
        }
    }

    /// Starts from the present level of the button.
    pub fn new(pressed: bool) -> (switch: Self)
        ensures
            switch == ModeSwitch::started(pressed),
    {
        ModeSwitch {
            released_ms: if pressed {
                None
            } else {
                Some(0)
            },
        }
    }

    /// Takes one poll. Returns whether a press began; it is then to be confirmed
    /// after [`MODE_DEBOUNCE_MS`].
    pub fn poll(&mut self, pressed: bool) -> (began: bool)
        ensures
            began == old(self).begins(pressed),
            *final(self) == if began {
                *old(self)
            } else {
                old(self).looked(pressed)
            },
    {
        match self.released_ms {
            Some(ms) => {
                if pressed && ms >= MODE_DEBOUNCE_MS {
                    return true;
                }
                if pressed {
                    self.released_ms = None;
                } else if ms < MODE_DEBOUNCE_MS {
                    self.released_ms = Some(ms + MODE_POLL_INTERVAL_MS);
                }
            },
            None => {
                if !pressed {
                    self.released_ms = Some(0);
                }
            },
        }
        false
    }

    /// Takes the level after the debounce time. Returns whether the mode is to
    /// be toggled: if the button is still held.
    pub fn confirm(&mut self, pressed: bool) -> (toggle: bool)
        ensures
            toggle == pressed,
            *final(self) == ModeSwitch::started(true),
    {
        self.released_ms = None;
        pressed
    }
}

/// The turn rate after `n` polls with the same target.
pub open spec fn ramp(current: int, target: int, n: nat) -> int
    decreases n,
{
    if n == 0 {
        current
    } else {
        stepped(ramp(current, target, (n - 1) as nat), target)
    }
}

/// A step changes the turn rate by [`OMEGA_STEP`] at most, never passes the
/// target and stays within the limits.
pub proof fn law_step_is_small(current: int, target: int)
    requires
        -OMEGA_MAX <= current <= OMEGA_MAX,
        -OMEGA_MAX <= target <= OMEGA_MAX,
    ensures
        num::abs(stepped(current, target) - current) <= OMEGA_STEP,
        num::min(current, target) <= stepped(current, target) <= num::max(current, target),
{
}

/// The ramp reaches its target as soon as its steps can cover the distance, and
/// stays there. From rest to full turn that takes five polls, from full turn one
/// way to the other ten.
pub proof fn law_ramp_reaches_target(current: int, target: int, n: nat)
    requires
        -OMEGA_MAX <= current <= OMEGA_MAX,
        -OMEGA_MAX <= target <= OMEGA_MAX,
    ensures
        num::abs(target - ramp(current, target, n)) == num::max(
            0,
            num::abs(target - current) - OMEGA_STEP * n,
        ),
        num::min(current, target) <= ramp(current, target, n) <= num::max(current, target),
        num::abs(target - current) <= OMEGA_STEP * n ==> ramp(current, target, n) == target,
    decreases n,
{
    if n > 0 {
        law_ramp_reaches_target(current, target, (n - 1) as nat);
    }
}

/// What the mode button remembers after `n` polls, the button being pressed at
/// the start just if `first` and at poll `i` just if `polls[i].0`. A press that
/// began was confirmed.
pub open spec fn remembered(first: bool, polls: Seq<(bool, bool)>, n: nat) -> ModeSwitch
    decreases n,
{
    if n == 0 {
        ModeSwitch::started(first)
    } else {
        let before = remembered(first, polls, (n - 1) as nat);
        if before.begins(polls[n - 1].0) {
            ModeSwitch::started(true)
        } else {
            before.looked(polls[n - 1].0)
        }
    }
}

/// Whether the button was pressed at look `k`: look 0 is the one at the start,
/// look `k` poll `k - 1`.
pub open spec fn pressed_at(first: bool, polls: Seq<(bool, bool)>, k: int) -> bool {
    if k == 0 {
        first
    } else {
        polls[k - 1].0
    }
}

/// Poll `i` toggles the mode: a press begins there and is still held after the
/// debounce time, just if `polls[i].1`.
pub open spec fn toggles(first: bool, polls: Seq<(bool, bool)>, i: nat) -> bool {
    remembered(first, polls, i).begins(polls[i as int].0) && polls[i as int].1
}

/// The button was released at the looks from `from` to `to`, both taken in.
pub open spec fn released_since(first: bool, polls: Seq<(bool, bool)>, from: int, to: int) -> bool {
    forall|k: int| from <= k <= to ==> !#[trigger] pressed_at(first, polls, k)
}

/// Whether the button was released at the last `looks + 1` of `n + 1` looks, and
/// at no more than those where they do not cover the debounce time.
spec fn released_for(first: bool, polls: Seq<(bool, bool)>, n: int, looks: int) -> bool {
    &&& 0 <= looks <= n
    &&& looks * MODE_POLL_INTERVAL_MS <= MODE_DEBOUNCE_MS
    &&& released_since(first, polls, n - looks, n)
    &&& looks * MODE_POLL_INTERVAL_MS < MODE_DEBOUNCE_MS && looks < n ==> pressed_at(
        first,
        polls,
        n - looks - 1,
    )
}

/// The time that is remembered is the one between the first and the last of the
/// looks at which the button was released, as far as the debounce time goes.
proof fn lemma_remembered_release(first: bool, polls: Seq<(bool, bool)>, n: nat)
    ensures
        match remembered(first, polls, n).released_ms {
            None => pressed_at(first, polls, n as int),
            Some(ms) => {
                &&& ms % MODE_POLL_INTERVAL_MS == 0
                &&& released_for(first, polls, n as int, (ms / MODE_POLL_INTERVAL_MS) as int)
            },
        },
    decreases n,
{
    if n > 0 {
        lemma_remembered_release(first, polls, (n - 1) as nat);
    }
}

/// A press toggles the mode just if the button was seen released over the whole
/// debounce time before it, at six looks in a row, and is still held at the end of
/// the debounce time after it.
pub proof fn law_settled_press_toggles(first: bool, polls: Seq<(bool, bool)>, i: nat)
    requires
        i < polls.len(),
    ensures
        toggles(first, polls, i) <==> {
            &&& polls[i as int].0
            &&& polls[i as int].1
            &&& i >= 5
            &&& released_since(first, polls, i - 5, i as int)
        },
{
    lemma_remembered_release(first, polls, i);
    match remembered(first, polls, i).released_ms {
        None => {},
        Some(ms) => {
            let looks = (ms / MODE_POLL_INTERVAL_MS) as int;
            if looks < 5 && looks < i {
                assert(pressed_at(first, polls, i - looks - 1));
            }
        },
    }
}

/// A press counts once: before the second of two toggles, and after the first,
/// the button was seen released six times in a row.
pub proof fn law_press_counts_once(first: bool, polls: Seq<(bool, bool)>, i: nat, j: nat)
    requires
        i < j < polls.len(),
        toggles(first, polls, i),
        toggles(first, polls, j),
    ensures
        i < j - 6,
        forall|k: int| j - 6 <= k < j ==> !(#[trigger] polls[k]).0,
{
    law_settled_press_toggles(first, polls, i);
    law_settled_press_toggles(first, polls, j);
    assert(pressed_at(first, polls, i as int + 1));
    assert forall|k: int| j - 6 <= k < j implies !(#[trigger] polls[k]).0 by {
        assert(!pressed_at(first, polls, k + 1));
    }
}

/// A press that is gone when the debounce time is over toggles nothing.
pub proof fn law_glitch_is_ignored(first: bool, polls: Seq<(bool, bool)>, i: nat)
    requires
        i < polls.len(),
        !polls[i as int].1,
    ensures
        !toggles(first, polls, i),
{
}

/// C alone asks for a full counter-clockwise turn, D alone for a full clockwise
/// one, both or neither for none.
pub proof fn law_buttons_ask(ccw_pressed: bool, cw_pressed: bool)
    ensures
        ccw_pressed && !cw_pressed ==> wanted(ccw_pressed, cw_pressed) == -100,
        cw_pressed && !ccw_pressed ==> wanted(ccw_pressed, cw_pressed) == 100,
        ccw_pressed == cw_pressed ==> wanted(ccw_pressed, cw_pressed) == 0,
{
}

/// A step goes 20 towards a target that is farther away than that, and all the way
/// to a nearer one. Where it moves at all it ends within `-100..=100`.
pub proof fn law_step(current: int, target: int)
    ensures
        current == target ==> stepped(current, target) == current,
        current != target && -100 <= target <= 100 && -20 <= target - current <= 20 ==> stepped(
            current,
            target,
        ) == target,
        target - current > 20 && -120 <= current <= 80 ==> stepped(current, target) == current + 20,
        target - current < -20 && -80 <= current <= 120 ==> stepped(current, target) == current
            - 20,
        current != target ==> -100 <= stepped(current, target) <= 100,
        current < target && target >= 100 && current >= 80 ==> stepped(current, target) == 100,
        current > target && target <= -100 && current <= -80 ==> stepped(current, target) == -100,
        current > 120 && target - current < -20 ==> stepped(current, target) == num::min(
            current - 20,
            100,
        ),
        current < -120 && target - current > 20 ==> stepped(current, target) == num::max(
            current + 20,
            -100,
        ),
{
}

/// Holding D turns the car clockwise, 20 faster with every poll up to 100; holding C
/// turns it the other way; letting both go, or holding both, brings the turn back to
/// zero by 20 with every poll.
pub proof fn law_held_buttons_turn(ramp: ButtonRamp, n: nat)
    requires
        -100 <= ramp.current <= 100,
    ensures
        n > 0 ==> ramp.after_held(false, true, n).last_sent == ramp.after_held(
            false,
            true,
            n,
        ).current,
        ramp.after_held(false, true, n).current == num::min(100, ramp.current + 20 * n),
        ramp.after_held(true, false, n).current == num::max(-100, ramp.current - 20 * n),
        ramp.current >= 0 ==> ramp.after_held(false, false, n).current == num::max(
            0,
            ramp.current - 20 * n,
        ),
        ramp.current <= 0 ==> ramp.after_held(false, false, n).current == num::min(
            0,
            ramp.current + 20 * n,
        ),
        ramp.after_held(true, true, n) == ramp.after_held(false, false, n),
    decreases n,
{
    if n > 0 {
        law_held_buttons_turn(ramp, (n - 1) as nat);
    }
}

/// A turn rate is published just if it differs from the one published last.
pub proof fn law_changed_turns_are_published(ramp: ButtonRamp, ccw_low: bool, cw_low: bool)
    ensures
        ({
            let next = ramp.after(ccw_low, cw_low);
            &&& next.last_sent == next.current
            &&& next.current != ramp.last_sent ==> ramp.publishes(ccw_low, cw_low) == Some(
                next.current,
            )
            &&& next.current == ramp.last_sent ==> ramp.publishes(ccw_low, cw_low) is None
        }),
{
}

} // verus!
