//! Radio settings that both sides share, and the rules of sending.
//!
//! Sending one packet is a small machine: [`TxRetries::next`] says what to do,
//! [`TxRetries::record`] takes what came of it. [`attempts_for`] starts it with the
//! attempts that a packet is worth.
use crate::protocol::message::MessageType;
use vstd::prelude::*;

verus! {

/// IEEE 802.15.4 channel.
pub const RADIO_CHANNEL: u8 = 15;

/// Transmission power (dBm).
pub const TX_POWER: i8 = 4;

/// Energy threshold of the clear-channel check: the channel always counts as
/// clear.
pub const ED_THRESHOLD: u8 = 0xFF;

/// Attempts to send a packet other than an emergency stop.
pub const MAX_TX_RETRIES: u8 = 3;

/// Attempts to send an emergency stop.
pub const MAX_EMERGENCY_RETRIES: u8 = 5;

/// Pause after an attempt that did not succeed (us).
pub const TX_RETRY_DELAY_US: u64 = 200;

/// Time after which an attempt counts as stuck (ms).
pub const TX_ATTEMPT_TIMEOUT_MS: u64 = 5;

/// Interval of the controller's heartbeat (ms).
pub const HEARTBEAT_INTERVAL_MS: u64 = 200;

/// Silence after which the car stops (ms).
pub const HEARTBEAT_TIMEOUT_MS: u64 = 500;

/// Hands out a sequence number and advances it, wrapping after 255.
pub fn next_seq(seq: &mut u8) -> (current: u8)
    ensures
        current == *old(seq),
        *final(seq) == (*old(seq) + 1) % 256,
        *final(seq) == seq_after(*old(seq), 1),
{
    proof {
        reveal_with_fuel(seq_after, 2);
    }
    let current: u8 = *seq;
    *seq = current.wrapping_add(1);
    current
}

/// What came of one attempt to send.
#[derive(Clone, Copy, PartialEq, Eq, Structural, Debug)]
pub enum TxOutcome {
    /// The packet went out.
    Sent,
    /// The radio refused.
    Failed,
    /// The radio did not answer in time.
    TimedOut,
}

/// What to do next about a packet.
#[derive(Clone, Copy, PartialEq, Eq, Structural, Debug)]
pub enum TxStep {
    /// Try to send, for at most [`TX_ATTEMPT_TIMEOUT_MS`].
    Attempt,
    /// Stop; the flag tells whether the packet went out.
    Done(bool),
}

/// The attempts to send one packet.
#[derive(Clone, Copy, PartialEq, Eq, Structural, Debug)]
pub struct TxRetries {
    /// Attempts allowed.
    pub max: u8,
    /// Attempts made.
    pub made: u8,
    /// The packet went out.
    pub sent: bool,
}

impl TxRetries {
    /// Another attempt is due.
    pub open spec fn wants_attempt(self) -> bool {
        !self.sent && self.made < self.max
    }

    /// The state after an attempt.
    pub open spec fn after(self, outcome: TxOutcome) -> TxRetries {
        TxRetries { max: self.max, made: (self.made + 1) as u8, sent: outcome == TxOutcome::Sent }
    }

    /// The state in which the machine stops, if attempt `i` (from zero) has the
    /// outcome `outcomes(i)`.
    pub open spec fn run(self, outcomes: spec_fn(int) -> TxOutcome) -> TxRetries
        decreases self.max - self.made,
    {
        if self.wants_attempt() {
            self.after(outcomes(self.made as int)).run(outcomes)
        } else {
            self
        }
    }

    /// A packet that was not tried yet.
    pub fn new(max: u8) -> (retries: Self)
        ensures
            retries == (TxRetries { max, made: 0, sent: false }),
    {
        TxRetries { max, made: 0, sent: false }
    }

    /// What to do next.
    pub fn next(&self) -> (step: TxStep)
        ensures
            step == if self.wants_attempt() {
                TxStep::Attempt
            } else {
                TxStep::Done(self.sent)
            },
    {
        if !self.sent && self.made < self.max {
            TxStep::Attempt
        } else {
            TxStep::Done(self.sent)
        }
    }

    /// Takes the outcome of an attempt. Returns the pause that is due before the
    /// next step (us): none after success, [`TX_RETRY_DELAY_US`] otherwise.
    pub fn record(&mut self, outcome: TxOutcome) -> (delay_us: u64)
        requires
            old(self).wants_attempt(),
        ensures
            *final(self) == old(self).after(outcome),
            delay_us == if outcome == TxOutcome::Sent {
                0
            } else {
                TX_RETRY_DELAY_US
            },
    {
        self.made = self.made + 1;
        match outcome {
            TxOutcome::Sent => {
                self.sent = true;
                0
            },
            TxOutcome::Failed | TxOutcome::TimedOut => {
                self.sent = false;
                TX_RETRY_DELAY_US
            },
        }
    }
}

/// The attempts that a packet of a type is worth.
pub open spec fn attempts_allowed(msg_type: MessageType) -> u8 {
    if msg_type is EmergencyStop {
        MAX_EMERGENCY_RETRIES
    } else {
        MAX_TX_RETRIES
    }
}

/// The attempts to send a packet of a type, before the first: an emergency stop
/// gets more of them than any other packet.
pub fn attempts_for(msg_type: MessageType) -> (retries: TxRetries)
    ensures
        retries == (TxRetries { max: attempts_allowed(msg_type), made: 0, sent: false }),
{
    match msg_type {
        MessageType::EmergencyStop => TxRetries::new(MAX_EMERGENCY_RETRIES),
        _ => TxRetries::new(MAX_TX_RETRIES),
    }
}

/// How the machine ends from any state in which the packet is not out.
proof fn lemma_run(retries: TxRetries, outcomes: spec_fn(int) -> TxOutcome)
    requires
        !retries.sent,
        retries.made <= retries.max,
    ensures
        ({
            let end = retries.run(outcomes);
            &&& end.max == retries.max
            &&& retries.made <= end.made <= retries.max
            &&& end.sent <==> exists|i: int|
                retries.made <= i < retries.max && #[trigger] outcomes(i) == TxOutcome::Sent
            &&& end.sent ==> retries.made < end.made && outcomes(end.made - 1) == TxOutcome::Sent
            &&& !end.sent ==> end.made == retries.max
            &&& forall|i: int|
                retries.made <= i < end.made - 1 ==> #[trigger] outcomes(i) != TxOutcome::Sent
        }),
    decreases retries.max - retries.made,
{
    if retries.wants_attempt() {
        let made = retries.made as int;
        let next = retries.after(outcomes(made));
        if next.sent {
            assert(next.run(outcomes) == next);
        } else {
            lemma_run(next, outcomes);
            let end = next.run(outcomes);
            if end.sent {
                let i = choose|i: int| next.made <= i < next.max && #[trigger] outcomes(i) == TxOutcome::Sent;
                assert(retries.made <= i < retries.max && outcomes(i) == TxOutcome::Sent);
            }
            if exists|i: int| retries.made <= i < retries.max && #[trigger] outcomes(i) == TxOutcome::Sent {
                let i = choose|i: int|
                    retries.made <= i < retries.max && #[trigger] outcomes(i) == TxOutcome::Sent;
                assert(i != made);
                assert(next.made <= i < next.max && outcomes(i) == TxOutcome::Sent);
            }
        }
    }
}

/// A packet goes out just if one of the allowed attempts succeeds. The first
/// success is the last attempt; without one, all allowed attempts are made.
pub proof fn law_retries_until_sent(max: u8, outcomes: spec_fn(int) -> TxOutcome)
    ensures
        ({
            let end = (TxRetries { max, made: 0, sent: false }).run(outcomes);
            &&& end.made <= max
            &&& end.sent <==> exists|i: int| 0 <= i < max && #[trigger] outcomes(i) == TxOutcome::Sent
            &&& end.sent ==> end.made > 0 && outcomes(end.made - 1) == TxOutcome::Sent
            &&& !end.sent ==> end.made == max
            &&& forall|i: int|
                0 <= i < end.made - 1 ==> #[trigger] outcomes(i) != TxOutcome::Sent
        }),
{
    lemma_run(TxRetries { max, made: 0, sent: false }, outcomes);
}

/// An emergency stop goes out if any of five attempts succeeds and is given up
/// after the fifth; any other packet has three attempts. Whatever gets another
/// packet out gets an emergency stop out as well.
pub proof fn law_emergency_stop_is_tried_harder(
    msg_type: MessageType,
    outcomes: spec_fn(int) -> TxOutcome,
)
    ensures
        ({
            let max: int = if msg_type is EmergencyStop {
                5
            } else {
                3
            };
            let end = (TxRetries { max: attempts_allowed(msg_type), made: 0, sent: false }).run(
                outcomes,
            );
            let stop = (TxRetries {
                max: attempts_allowed(MessageType::EmergencyStop),
                made: 0,
                sent: false,
            }).run(outcomes);
            &&& end.sent <==> exists|i: int|
                0 <= i < max && #[trigger] outcomes(i) == TxOutcome::Sent
            &&& !end.sent ==> end.made == max
            &&& end.sent ==> stop.sent
        }),
{
    law_retries_until_sent(attempts_allowed(msg_type), outcomes);
    law_retries_until_sent(attempts_allowed(MessageType::EmergencyStop), outcomes);
}

/// The sequence number after `n` packets.
pub open spec fn seq_after(seq: u8, n: nat) -> u8
    decreases n,
{
    if n == 0 {
        seq
    } else {
        ((seq_after(seq, (n - 1) as nat) + 1) % 256) as u8
    }
}

/// Sequence numbers repeat after 256 packets and not before.
pub proof fn law_sequence_numbers_cycle(seq: u8, n: nat)
    ensures
        seq_after(seq, n) == (seq + n) % 256,
        seq_after(seq, n) == seq <==> n % 256 == 0,
    decreases n,
{
    if n > 0 {
        law_sequence_numbers_cycle(seq, (n - 1) as nat);
    }
}

} // verus!
