//! Key repeat: while a button stays down, a pulse after a first delay and
//! then one per interval.
//!
//! The timer keeps two sums of the time that the button has been down. One
//! is cut back whenever it has grown beyond the wait that is running, and
//! that is one pulse: the running wait is taken from it, which ends the
//! first delay, and then the interval for as long as the sum is still above
//! it. The other sum only grows, and says for how long the button has been
//! held. Both start again from zero when the button is pressed, released or
//! up.

use std::time::Duration;
use vstd::prelude::*;

use crate::time::{duration_nanos, duration_of, nanos_of, MAX_DURATION_NANOS};
use crate::vi::bundle::RawButtonState;

verus! {

/// Key repeat settings
#[derive(Debug, Clone, Copy)]
pub enum KeyRepeatConfig {
    /// The first pulse comes when the button has been down for longer than
    /// `first`, each further one when another `multi` has gone by.
    Repeat { first: Duration, multi: Duration },
    NoRepeat,
}

/// Key repeat settings in nanoseconds.
pub enum RepeatRule {
    Every { first: nat, multi: nat },
    Never,
}

impl RepeatRule {
    /// The interval of a repeating rule is longer than nothing. The first
    /// delay may be nothing: then the first held frame that takes time is a
    /// pulse.
    pub open spec fn wf(self) -> bool {
        self matches RepeatRule::Every { multi, .. } ==> multi > 0
    }
}

impl View for KeyRepeatConfig {
    type V = RepeatRule;

    open spec fn view(&self) -> RepeatRule {
        match *self {
            KeyRepeatConfig::Repeat { first, multi } => RepeatRule::Every {
                first: duration_nanos(first),
                multi: duration_nanos(multi),
            },
            KeyRepeatConfig::NoRepeat => RepeatRule::Never,
        }
    }
}

impl Default for KeyRepeatConfig {
    fn default() -> (cfg: KeyRepeatConfig)
        ensures
            cfg@ == RepeatRule::Never,
    {
        KeyRepeatConfig::NoRepeat
    }
}

/// Constructors
impl KeyRepeatConfig {
    pub fn repeat(first: Duration, multi: Duration) -> (cfg: KeyRepeatConfig)
        ensures
            cfg == (KeyRepeatConfig::Repeat { first, multi }),
            cfg@ == (RepeatRule::Every {
                first: duration_nanos(first),
                multi: duration_nanos(multi),
            }),
    {
        KeyRepeatConfig::Repeat { first, multi }
    }

    pub fn no_repeat() -> (cfg: KeyRepeatConfig)
        ensures
            cfg@ == RepeatRule::Never,
    {
        KeyRepeatConfig::NoRepeat
    }

    /// Whether a timer can take every pulse by these settings: an interval
    /// of no time at all could be taken from the time held without end.
    pub fn is_valid(&self) -> (ok: bool)
        ensures
            ok == self@.wf(),
    {
        match self {
            KeyRepeatConfig::Repeat { multi, .. } => nanos_of(*multi) > 0,
            KeyRepeatConfig::NoRepeat => true,
        }
    }
}

/// What is left of `total` when `interval` is taken from it for as long as
/// it is greater than `interval`: `total` itself up to `interval`, and from
/// there on the number from 1 to `interval` that differs from `total` by a
/// multiple of `interval`.
pub open spec fn fold_into(total: nat, interval: nat) -> nat {
    if total <= interval {
        total
    } else {
        (((total - 1) % (interval as int)) + 1) as nat
    }
}

/// The state of a key repeat timer, in nanoseconds.
pub struct RepeatModel {
    pub rule: RepeatRule,
    /// Loops when it repeats
    pub accum_repeat: nat,
    /// Does not loop
    pub accum_down: nat,
    /// True until first repeat
    pub is_on_first_repeat: bool,
}

impl RepeatModel {
    /// The timer that has not run yet.
    pub open spec fn fresh(rule: RepeatRule) -> RepeatModel {
        RepeatModel { rule, accum_repeat: 0, accum_down: 0, is_on_first_repeat: false }
    }

    /// The timer with both sums at zero.
    pub open spec fn restarted(self, is_on_first_repeat: bool) -> RepeatModel {
        RepeatModel { rule: self.rule, accum_repeat: 0, accum_down: 0, is_on_first_repeat }
    }

    /// The wait that is running: the first delay until the first pulse, the
    /// interval after it.
    pub open spec fn interval(self) -> nat {
        match self.rule {
            RepeatRule::Every { first, multi } => if self.is_on_first_repeat {
                first
            } else {
                multi
            },
            RepeatRule::Never => 0,
        }
    }

    /// The interval of the rule, which runs after the first pulse.
    pub open spec fn multi(self) -> nat {
        match self.rule {
            RepeatRule::Every { multi, .. } => multi,
            RepeatRule::Never => 0,
        }
    }

    /// Whether a held frame of `dt` nanoseconds is a pulse: whether it takes
    /// the looping sum beyond the wait that is running.
    pub open spec fn pulses(self, dt: nat) -> bool {
        self.rule is Every && self.accum_repeat + dt > self.interval()
    }

    /// The timer after a frame of `dt` nanoseconds in which the button had
    /// the raw state `state`, and whether that frame is a pulse.
    ///
    /// However many intervals went by in the frame, it is one pulse: the
    /// wait that was running is taken from the looping sum, and then the
    /// interval for as long as the sum is above it. Without repeat nothing
    /// is counted.
    pub open spec fn step(self, state: RawButtonState, dt: nat) -> (RepeatModel, bool) {
        match state {
            RawButtonState::Up | RawButtonState::Released => (self.restarted(false), false),
            RawButtonState::Pressed => (self.restarted(true), false),
            RawButtonState::Down => match self.rule {
                RepeatRule::Never => (self, false),
                RepeatRule::Every { .. } => {
                    let total = self.accum_repeat + dt;
                    let is_repeating = self.pulses(dt);
                    (
                        RepeatModel {
                            rule: self.rule,
                            accum_repeat: if is_repeating {
                                fold_into((total - self.interval()) as nat, self.multi())
                            } else {
                                total
                            },
                            accum_down: self.accum_down + dt,
                            is_on_first_repeat: self.is_on_first_repeat && !is_repeating,
                        },
                        is_repeating,
                    )
                },
            },
        }
    }

    /// Whether the timer can take a frame of `dt` nanoseconds in the raw
    /// state `state`. It cannot where the time held would no longer fit into
    /// a `Duration`, nor where the frame is a pulse and the interval is
    /// nothing, which could be taken from the sum without end. Time is added
    /// only while the button is down and repeats.
    pub open spec fn can_step(self, state: RawButtonState, dt: nat) -> bool {
        state == RawButtonState::Down && self.rule is Every ==> {
            &&& self.accum_down + dt <= MAX_DURATION_NANOS
            &&& self.pulses(dt) ==> self.multi() > 0
        }
    }

    /// What a timer keeps to: the looping sum is not above the other, which
    /// fits into a `Duration`.
    pub open spec fn wf(self) -> bool {
        self.accum_repeat <= self.accum_down <= MAX_DURATION_NANOS
    }
}

/// The state of the key repeat of one button.
#[derive(Debug, Clone, Copy)]
pub struct KeyRepeatState {
    /// Key repeat configuration
    config: KeyRepeatConfig,
    /// Loops when it repeats
    accum_repeat: u128,
    /// Does not loop
    accum_down: u128,
    /// True until first repeat
    is_on_first_repeat: bool,
}

impl View for KeyRepeatState {
    type V = RepeatModel;

    closed spec fn view(&self) -> RepeatModel {
        RepeatModel {
            rule: self.config@,
            accum_repeat: self.accum_repeat as nat,
            accum_down: self.accum_down as nat,
            is_on_first_repeat: self.is_on_first_repeat,
        }
    }
}

impl Default for KeyRepeatState {
    fn default() -> (timer: KeyRepeatState)
        ensures
            timer@ == RepeatModel::fresh(RepeatRule::Never),
    {
        KeyRepeatState::new(KeyRepeatConfig::NoRepeat)
    }
}

impl KeyRepeatState {
    #[verifier::type_invariant]
    spec fn inv(self) -> bool {
        self@.wf()
    }

    /// The timer that has not run yet, for any settings.
    pub fn new(repeat: KeyRepeatConfig) -> (timer: KeyRepeatState)
        ensures
            timer@ == RepeatModel::fresh(repeat@),
    {
        KeyRepeatState { config: repeat, accum_repeat: 0, accum_down: 0, is_on_first_repeat: false }
    }

    /// The settings of the timer.
    pub fn config(&self) -> (cfg: KeyRepeatConfig)
        ensures
            cfg@ == self@.rule,
    {
        self.config
    }

    /// How long the button has been down.
    pub fn accum_down(&self) -> (held: Duration)
        ensures
            duration_nanos(held) == self@.accum_down,
    {
        proof {
            use_type_invariant(self);
        }
        duration_of(self.accum_down)
    }

    /// How long the button has been down, in nanoseconds.
    pub fn accum_down_nanos(&self) -> (held: u128)
        ensures
            held == self@.accum_down,
            held <= MAX_DURATION_NANOS,
    {
        proof {
            use_type_invariant(self);
        }
        self.accum_down
    }

    /// Whether [`KeyRepeatState::update`] can take a frame of `dt` in the
    /// raw state `state`.
    pub fn can_update(&self, state: RawButtonState, dt: Duration) -> (ok: bool)
        ensures
            ok == self@.can_step(state, duration_nanos(dt)),
    {
        proof {
            use_type_invariant(self);
        }
        match state {
            RawButtonState::Down => match self.config {
                KeyRepeatConfig::NoRepeat => true,
                KeyRepeatConfig::Repeat { first, multi } => {
                    let elapsed: u128 = nanos_of(dt);
                    if elapsed > MAX_DURATION_NANOS - self.accum_down {
                        false
                    } else {
                        let interval: u128 = nanos_of(multi);
                        let wait: u128 = if self.is_on_first_repeat {
                            nanos_of(first)
                        } else {
                            interval
                        };
                        self.accum_repeat + elapsed <= wait || interval > 0
                    }
                },
            },
            _ => true,
        }
    }

    /// Returns if it's repeating or not
    pub fn update(&mut self, state: RawButtonState, dt: Duration) -> (is_repeating: bool)
        requires
            old(self)@.can_step(state, duration_nanos(dt)),
        ensures
            final(self)@ == old(self)@.step(state, duration_nanos(dt)).0,
            is_repeating == old(self)@.step(state, duration_nanos(dt)).1,
    {
        proof {
            use_type_invariant(&*self);
        }
        match state {
            RawButtonState::Up | RawButtonState::Released => {
                self.accum_repeat = 0;
                self.accum_down = 0;
                self.is_on_first_repeat = false;
                false
            },
            RawButtonState::Pressed => {
                self.accum_repeat = 0;
                self.accum_down = 0;
                self.is_on_first_repeat = true;
                false
            },
            // Down state may be repeating
            RawButtonState::Down => {
                let (wait, interval): (u128, u128) = match self.config {
                    KeyRepeatConfig::NoRepeat => return false,
                    KeyRepeatConfig::Repeat { first, multi } => {
                        if self.is_on_first_repeat {
                            (nanos_of(first), nanos_of(multi))
                        } else {
                            (nanos_of(multi), nanos_of(multi))
                        }
                    },
                };
                let elapsed: u128 = nanos_of(dt);
                let total: u128 = self.accum_repeat + elapsed;

                // a frame may be longer than the wait, even many times: it is one pulse
                let is_repeating = total > wait;
                let rest: u128 = if is_repeating {
                    // the running wait goes once, the interval as often as it takes
                    let after: u128 = total - wait;
                    proof {
                        law_fold_into_range(after as nat, interval as nat);
                    }
                    if after > interval {
                        (after - 1) % interval + 1
                    } else {
                        after
                    }
                } else {
                    total
                };

                self.accum_down = self.accum_down + elapsed;
                self.accum_repeat = rest;
                if is_repeating {
                    self.is_on_first_repeat = false;
                }
                is_repeating
            },
        }
    }
}

/// What is left of `total` when the wait that is running is taken from it
/// for as long as `total` is greater than that wait, step by step. The wait
/// is `first` while `in_first` holds, which the first step ends, and `multi`
/// from then on.
pub open spec fn taken_by_running_wait(total: nat, in_first: bool, first: nat, multi: nat) -> nat
    decreases total, (if in_first { 1nat } else { 0nat }),
{
    let wait = if in_first {
        first
    } else {
        multi
    };
    if total > wait && (in_first || multi > 0) {
        taken_by_running_wait((total - wait) as nat, false, first, multi)
    } else {
        total
    }
}

/// [`fold_into`] is what taking the interval step by step leaves.
pub proof fn law_fold_into_takes_steps(total: nat, first: nat, multi: nat)
    requires
        multi > 0,
    ensures
        fold_into(total, multi) == taken_by_running_wait(total, false, first, multi),
    decreases total,
{
    if total > multi {
        lemma_fold_into_step(total, multi);
        law_fold_into_takes_steps((total - multi) as nat, first, multi);
    }
}

/// What a held frame leaves in the looping sum is what taking the running
/// wait step by step leaves: the first delay once while it runs, then the
/// interval until the sum is no longer above it.
pub proof fn law_step_takes_running_waits(timer: RepeatModel, dt: nat)
    requires
        timer.rule matches RepeatRule::Every { multi, .. } && multi > 0,
    ensures
        timer.step(RawButtonState::Down, dt).0.accum_repeat == taken_by_running_wait(
            timer.accum_repeat + dt,
            timer.is_on_first_repeat,
            timer.rule->first,
            timer.rule->multi,
        ),
{
    let total = timer.accum_repeat + dt;
    let first = timer.rule->first;
    let multi = timer.rule->multi;
    if timer.is_on_first_repeat {
        if total > first {
            law_fold_into_takes_steps((total - first) as nat, first, multi);
        }
    } else {
        law_fold_into_takes_steps(total, first, multi);
        if total > multi {
            lemma_fold_into_step(total, multi);
        }
    }
}

/// Taking the interval once from a sum above it does not change what is
/// left in the end.
proof fn lemma_fold_into_step(total: nat, interval: nat)
    requires
        interval > 0,
        total > interval,
    ensures
        fold_into((total - interval) as nat, interval) == fold_into(total, interval),
{
    let i = interval as int;
    let a = total - 1;
    assert((a - i) % i == a % i) by {
        vstd::arithmetic::div_mod::lemma_mod_sub_multiples_vanish(a, i);
    }
    if total - interval <= interval {
        assert(0 <= a - i < i);
        vstd::arithmetic::div_mod::lemma_small_mod((a - i) as nat, interval);
    }
}

/// What [`fold_into`] leaves is the sum itself up to the interval; above it
/// it lies from 1 to the interval and differs from the sum by a multiple of
/// the interval.
pub proof fn law_fold_into_range(total: nat, interval: nat)
    requires
        interval > 0,
    ensures
        total <= interval ==> fold_into(total, interval) == total,
        total > interval ==> 1 <= fold_into(total, interval) <= interval,
        (total - fold_into(total, interval)) % (interval as int) == 0,
        fold_into(total, interval) <= total,
{
    let i = interval as int;
    if total > interval {
        let a = total - 1;
        vstd::arithmetic::div_mod::lemma_fundamental_div_mod(a, i);
        vstd::arithmetic::div_mod::lemma_mod_bound(a, i);
        vstd::arithmetic::div_mod::lemma_div_pos_is_pos(a, i);
        assert(total - fold_into(total, interval) == i * (a / i));
        vstd::arithmetic::div_mod::lemma_mod_multiples_basic(a / i, i);
        assert(i * (a / i) == (a / i) * i) by (nonlinear_arith);
        assert(0 <= i * (a / i)) by (nonlinear_arith)
            requires
                0 <= a / i,
                0 < i,
        ;
    } else {
        vstd::arithmetic::div_mod::lemma_small_mod(0, interval);
    }
}

/// A step keeps a timer well formed.
pub proof fn law_step_keeps_wf(timer: RepeatModel, state: RawButtonState, dt: nat)
    requires
        timer.wf(),
        timer.can_step(state, dt),
    ensures
        timer.step(state, dt).0.wf(),
        timer.step(state, dt).0.rule == timer.rule,
{
    if state == RawButtonState::Down && timer.pulses(dt) {
        law_fold_into_range(
            (timer.accum_repeat + dt - timer.interval()) as nat,
            timer.multi(),
        );
    }
}

/// A timer whose interval is longer than nothing can take every frame that
/// leaves the time held within a `Duration`.
pub proof fn law_valid_rule_runs(timer: RepeatModel, state: RawButtonState, dt: nat)
    requires
        timer.rule.wf(),
        timer.accum_down + dt <= MAX_DURATION_NANOS,
    ensures
        timer.can_step(state, dt),
{
}

/// After a pulse the looping sum is not above the interval, so a further
/// frame of no time is no pulse, however long the frame of the pulse was.
pub proof fn law_pulse_settles(timer: RepeatModel, dt: nat)
    requires
        timer.rule.wf(),
        timer.step(RawButtonState::Down, dt).1,
    ensures
        timer.step(RawButtonState::Down, dt).0.accum_repeat <= timer.multi(),
        !timer.step(RawButtonState::Down, dt).0.step(RawButtonState::Down, 0).1,
{
    law_fold_into_range((timer.accum_repeat + dt - timer.interval()) as nat, timer.multi());
}

/// The press itself is no pulse, and it starts the timer from zero in its
/// first wait. Up and released stop it at zero.
pub proof fn law_edges_restart(timer: RepeatModel, dt: nat)
    ensures
        timer.step(RawButtonState::Pressed, dt) == (timer.restarted(true), false),
        timer.step(RawButtonState::Up, dt) == (timer.restarted(false), false),
        timer.step(RawButtonState::Released, dt) == (timer.restarted(false), false),
{
}

/// Without repeat a held button never pulses and no time is counted.
pub proof fn law_no_repeat_never_pulses(timer: RepeatModel, state: RawButtonState, dt: nat)
    requires
        timer.rule is Never,
    ensures
        !timer.step(state, dt).1,
        state == RawButtonState::Down ==> timer.step(state, dt).0 == timer,
{
}

/// A frame in which the button is held is a pulse exactly if the time since
/// the last pulse, or since the press, has grown beyond the running wait.
/// The first pulse ends the first wait.
pub proof fn law_pulse_when_wait_exceeded(timer: RepeatModel, dt: nat)
    requires
        timer.rule is Every,
    ensures
        timer.step(RawButtonState::Down, dt).1 <==> timer.accum_repeat + dt > timer.interval(),
        timer.step(RawButtonState::Down, dt).1 ==> !timer.step(
            RawButtonState::Down,
            dt,
        ).0.is_on_first_repeat,
        !timer.step(RawButtonState::Down, dt).1 ==> timer.step(RawButtonState::Down, dt).0.accum_repeat
            == timer.accum_repeat + dt && timer.step(RawButtonState::Down, dt).0.is_on_first_repeat
            == timer.is_on_first_repeat,
        timer.step(RawButtonState::Down, dt).0.accum_down == timer.accum_down + dt,
{
}

/// The timer after the button was pressed and then held for the frames
/// `frames`, each given by its length in nanoseconds.
pub open spec fn held_for(timer: RepeatModel, frames: Seq<nat>) -> RepeatModel
    decreases frames.len(),
{
    if frames.len() == 0 {
        timer.step(RawButtonState::Pressed, 0).0
    } else {
        held_for(timer, frames.drop_last()).step(RawButtonState::Down, frames.last()).0
    }
}

/// The sum of the lengths of `frames`.
pub open spec fn total_nanos(frames: Seq<nat>) -> nat
    decreases frames.len(),
{
    if frames.len() == 0 {
        0
    } else {
        total_nanos(frames.drop_last()) + frames.last()
    }
}

/// No pulse before the first delay is over: while a button has been held for
/// no longer than the first delay since its press, the next frame is a pulse
/// exactly if it takes the time held beyond the first delay.
pub proof fn law_quiet_until_first_delay(timer: RepeatModel, frames: Seq<nat>, dt: nat)
    requires
        timer.rule matches RepeatRule::Every { first, .. } && total_nanos(frames) <= first,
    ensures
        held_for(timer, frames).is_on_first_repeat,
        held_for(timer, frames).accum_repeat == total_nanos(frames),
        held_for(timer, frames).accum_down == total_nanos(frames),
        held_for(timer, frames).rule == timer.rule,
        held_for(timer, frames).step(RawButtonState::Down, dt).1 <==> total_nanos(frames) + dt
            > timer.rule->first,
    decreases frames.len(),
{
    if frames.len() > 0 {
        lemma_total_nanos_grows(frames);
        law_quiet_until_first_delay(timer, frames.drop_last(), frames.last());
    }
}

/// The frames before the last take no longer than all of them.
proof fn lemma_total_nanos_grows(frames: Seq<nat>)
    requires
        frames.len() > 0,
    ensures
        total_nanos(frames.drop_last()) <= total_nanos(frames),
{
}

} // verus!
