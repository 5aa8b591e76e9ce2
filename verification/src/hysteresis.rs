//! The hysteresis control rule: each tick, the latest battery sample is held
//! against the configured thresholds and turned into a switching decision.
//!
//! Charge fractions are stated in millionths of a full charge, so that the
//! band and the rule are exact integer comparisons.

use vstd::prelude::*;

verus! {

/// One full charge, in the fixed-point unit of charge fractions.
pub const FRACTION_SCALE: u32 = 1_000_000;

/// Coarse battery state as the telemetry collaborator reports it.
#[derive(Clone, Copy, Debug, PartialEq, Eq, Structural)]
pub enum BatteryState {
    Charging,
    Full,
    Discharging,
    Empty,
    Unknown,
}

/// States in which the battery is being fed and may overshoot the band.
pub open spec fn spec_is_charging_like(s: BatteryState) -> bool {
    s == BatteryState::Charging || s == BatteryState::Full
}

pub fn is_charging_like(s: BatteryState) -> (r: bool)
    ensures
        r == spec_is_charging_like(s),
{
    matches!(s, BatteryState::Charging | BatteryState::Full)
}

/// The hysteresis band: switching on starts strictly below `start`, switching
/// off starts strictly above `stop`, and in between nothing happens. Both are
/// charge fractions in millionths; validity (`start < stop <= FRACTION_SCALE`)
/// is established at construction and holds for every value of the type.
#[derive(Clone, Copy, Debug, PartialEq, Eq, Structural)]
pub struct Thresholds {
    start: u32,
    stop: u32,
}

impl Thresholds {
    /// The fraction strictly below which the plug is switched on.
    pub closed spec fn spec_start(self) -> u32 {
        self.start
    }

    /// The fraction strictly above which the plug is switched off.
    pub closed spec fn spec_stop(self) -> u32 {
        self.stop
    }

    /// A meaningful band: nonempty and inside [0, 1].
    pub open spec fn wf(self) -> bool {
        self.spec_start() < self.spec_stop() && self.spec_stop() <= FRACTION_SCALE
    }

    /// Accepts exactly the meaningful bands; anything else is rejected at
    /// configuration time.
    pub fn new(start: u32, stop: u32) -> (r: Option<Thresholds>)
        ensures
            r is Some <==> (start < stop && stop <= FRACTION_SCALE),
            r is Some ==> {
                let t = r.unwrap();
                t.spec_start() == start && t.spec_stop() == stop && t.wf()
            },
    {
        if start < stop && stop <= FRACTION_SCALE {
            Some(Thresholds { start, stop })
        } else {
            None
        }
    }

    pub fn start(&self) -> (r: u32)
        ensures
            r == self.spec_start(),
    {
        self.start
    }

    pub fn stop(&self) -> (r: u32)
        ensures
            r == self.spec_stop(),
    {
        self.stop
    }
}

/// What a tick asks the plug to do.
#[derive(Clone, Copy, Debug, PartialEq, Eq, Structural)]
pub enum Decision {
    TurnOn,
    TurnOff,
    NoOp,
}

/// The decision rule, evaluated each tick against the latest sample: switch
/// off when a charging-like battery is strictly above the stop threshold,
/// switch on when a discharging-like battery is strictly below the start
/// threshold, and otherwise do nothing. Both boundaries are exclusive.
pub open spec fn spec_decide(state: BatteryState, fraction: u32, th: Thresholds) -> Decision {
    if spec_is_charging_like(state) && fraction > th.spec_stop() {
        Decision::TurnOff
    } else if !spec_is_charging_like(state) && fraction < th.spec_start() {
        Decision::TurnOn
    } else {
        Decision::NoOp
    }
}

pub fn decide(state: BatteryState, fraction: u32, th: &Thresholds) -> (d: Decision)
    ensures
        d == spec_decide(state, fraction, *th),
{
    if is_charging_like(state) && fraction > th.stop() {
        Decision::TurnOff
    } else if !is_charging_like(state) && fraction < th.start() {
        Decision::TurnOn
    } else {
        Decision::NoOp
    }
}

/// The decision rule by cases, boundaries exclusive: above the stop threshold
/// a charging-like battery is switched off, below the start threshold a
/// discharging-like one is switched on, and at or inside the boundaries
/// nothing is done.
pub proof fn lemma_decision_rule(state: BatteryState, fraction: u32, th: Thresholds)
    ensures
        spec_is_charging_like(state) && fraction > th.spec_stop() ==> spec_decide(
            state,
            fraction,
            th,
        ) == Decision::TurnOff,
        !spec_is_charging_like(state) && fraction < th.spec_start() ==> spec_decide(
            state,
            fraction,
            th,
        ) == Decision::TurnOn,
        spec_is_charging_like(state) && fraction <= th.spec_stop() ==> spec_decide(
            state,
            fraction,
            th,
        ) == Decision::NoOp,
        !spec_is_charging_like(state) && fraction >= th.spec_start() ==> spec_decide(
            state,
            fraction,
            th,
        ) == Decision::NoOp,
{
}

/// No chatter: once the sampled fraction stays strictly inside the band, no
/// further decision is issued, whatever coarse states the battery reports.
pub proof fn lemma_no_chatter(states: Seq<BatteryState>, fractions: Seq<u32>, th: Thresholds)
    requires
        states.len() == fractions.len(),
        forall|i: int|
            0 <= i < fractions.len() ==> th.spec_start() < #[trigger] fractions[i]
                < th.spec_stop(),
    ensures
        forall|i: int|
            0 <= i < states.len() ==> #[trigger] spec_decide(states[i], fractions[i], th)
                == Decision::NoOp,
{
    assert forall|i: int| 0 <= i < states.len() implies #[trigger] spec_decide(
        states[i],
        fractions[i],
        th,
    ) == Decision::NoOp by {
        assert(th.spec_start() < fractions[i] < th.spec_stop());
    }
}

} // verus!
