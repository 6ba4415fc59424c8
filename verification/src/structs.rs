//! The equipment state and the two capabilities that a controller drives.

use crate::message_queue::MessageQueue;
use vstd::prelude::*;

verus! {

/// Where the main water path is routed; also the heater's target.
#[derive(Copy, Clone, PartialEq, Eq, Debug, Structural)]
pub enum PoolOrSpa {
    Pool,
    Spa,
}

/// The position of the secondary valve circuit.
#[derive(Copy, Clone, PartialEq, Eq, Debug, Structural)]
pub enum PoolValve {
    Vacuum,
    Skimmer,
    Blend,
}

impl PoolOrSpa {
    /// The name under which the orientation appears in a record.
    pub open spec fn label(self) -> Seq<char> {
        match self {
            PoolOrSpa::Pool => "POOL"@,
            PoolOrSpa::Spa => "SPA"@,
        }
    }

    /// The other orientation.
    pub open spec fn flipped(self) -> PoolOrSpa {
        match self {
            PoolOrSpa::Pool => PoolOrSpa::Spa,
            PoolOrSpa::Spa => PoolOrSpa::Pool,
        }
    }

    /// The name under which the orientation appears in a record.
    pub fn as_str(&self) -> (name: &'static str)
        ensures
            name@ == self.label(),
    {
        match self {
            PoolOrSpa::Pool => "POOL",
            PoolOrSpa::Spa => "SPA",
        }
    }
}

impl PoolValve {
    /// The name of the position.
    pub open spec fn label(self) -> Seq<char> {
        match self {
            PoolValve::Vacuum => "Vacuum"@,
            PoolValve::Skimmer => "Skimmer"@,
            PoolValve::Blend => "Blend"@,
        }
    }

    /// The name of the position.
    pub fn as_str(&self) -> (name: &'static str)
        ensures
            name@ == self.label(),
    {
        match self {
            PoolValve::Vacuum => "Vacuum",
            PoolValve::Skimmer => "Skimmer",
            PoolValve::Blend => "Blend",
        }
    }
}

/// The two filter runs. They are independent; stopping the filter ends both.
#[derive(Copy, Clone, PartialEq, Eq, Debug, Structural)]
pub struct Filter {
    pub running_schedule: bool,
    pub quick_clean: bool,
}

/// The heater's target and whether it is on. The two change independently.
#[derive(Copy, Clone, PartialEq, Eq, Debug, Structural)]
pub struct Heater {
    pub mode: PoolOrSpa,
    pub on: bool,
}

/// What is captured before a transient operation and applied again after it.
#[derive(Copy, Clone, PartialEq, Eq, Debug, Structural)]
pub struct PrevState {
    pub filter: Filter,
    pub heater: Heater,
    pub main_valve_orientation: Option<PoolOrSpa>,
}

/// The commands that move the equipment. A controller promises nothing of
/// what an implementation answers, and reads no answer.
pub trait Mech {
    /// Waits for the equipment to settle.
    fn delay_secs(&self, secs: u64);

    fn set_quick_clean(&self, v: bool) -> bool;

    fn mech_set_filter_sched(&self, v: bool) -> bool;

    fn mech_pool_valve_to(&self, p: PoolValve) -> bool;

    fn mech_main_valve_to(&self, m: PoolOrSpa) -> bool;

    fn heater_on_toggle(&self, b: bool) -> bool;

    fn heater_mode_toggle(&self, m: PoolOrSpa) -> bool;

    fn jets_on_toggle(&self, b: bool) -> bool;
}

/// The status signals. As with `Mech`, no answer is read.
pub trait Lights {
    fn in_progress(&self, b: bool) -> bool;

    fn filter_schedule(&self, b: bool) -> bool;

    fn heater_on(&self, b: bool) -> bool;

    fn jets_on(&self, b: bool) -> bool;

    fn auto_spa(&self, b: bool) -> bool;

    fn heater_mode(&self, m: PoolOrSpa) -> bool;

    fn quick_clean(&self, b: bool) -> bool;

    fn main_valve_orientation(&self, b: PoolOrSpa) -> bool;
}

/// Equipment that is not there: every command is accepted, which each
/// method says by answering `true`, and the equipment settles at once.
pub struct HasOSMech;

/// Signals that are not there: every one is accepted, which each method
/// says by answering `true`.
pub struct HasOSLights;

impl Mech for HasOSMech {
    fn delay_secs(&self, secs: u64) {
    }

    fn mech_main_valve_to(&self, m: PoolOrSpa) -> (accepted: bool)
        ensures
            accepted,
    {
        true
    }

    fn set_quick_clean(&self, v: bool) -> (accepted: bool)
        ensures
            accepted,
    {
        true
    }

    fn mech_set_filter_sched(&self, v: bool) -> (accepted: bool)
        ensures
            accepted,
    {
        true
    }

    fn mech_pool_valve_to(&self, p: PoolValve) -> (accepted: bool)
        ensures
            accepted,
    {
        true
    }

    fn heater_on_toggle(&self, b: bool) -> (accepted: bool)
        ensures
            accepted,
    {
        true
    }

    fn heater_mode_toggle(&self, m: PoolOrSpa) -> (accepted: bool)
        ensures
            accepted,
    {
        true
    }

    fn jets_on_toggle(&self, b: bool) -> (accepted: bool)
        ensures
            accepted,
    {
        true
    }
}

impl Lights for HasOSLights {
    fn in_progress(&self, b: bool) -> (accepted: bool)
        ensures
            accepted,
    {
        true
    }

    fn filter_schedule(&self, b: bool) -> (accepted: bool)
        ensures
            accepted,
    {
        true
    }

    fn heater_on(&self, b: bool) -> (accepted: bool)
        ensures
            accepted,
    {
        true
    }

    fn jets_on(&self, b: bool) -> (accepted: bool)
        ensures
            accepted,
    {
        true
    }

    fn auto_spa(&self, b: bool) -> (accepted: bool)
        ensures
            accepted,
    {
        true
    }

    fn heater_mode(&self, m: PoolOrSpa) -> (accepted: bool)
        ensures
            accepted,
    {
        true
    }

    fn quick_clean(&self, b: bool) -> (accepted: bool)
        ensures
            accepted,
    {
        true
    }

    fn main_valve_orientation(&self, b: PoolOrSpa) -> (accepted: bool)
        ensures
            accepted,
    {
        true
    }
}

/// The number of records that a controller's queue holds.
pub const LOG_CAPACITY: usize = 48;

/// A controller: the equipment state, the two capabilities, and the queue
/// into which every operation narrates.
pub struct System<M: Mech, L: Lights> {
    pub main_valve_orientation: PoolOrSpa,
    pub pool_valve_orientation: PoolValve,
    pub filter: Filter,
    pub heater: Heater,
    pub jets_on: bool,
    /// Reserved for fault codes. No operation writes it.
    pub errors: [Option<u32>; 10],
    /// True only inside an operation, while the equipment settles.
    pub in_progress: bool,
    pub mech: M,
    pub lights: L,
    /// In simulation no settle delay is awaited.
    pub internal_test: bool,
    pub prev_state: Option<PrevState>,
    pub message_queue: MessageQueue<LOG_CAPACITY>,
    pub auto_spa_mode: bool,
}

impl Default for System<HasOSMech, HasOSLights> {
    /// A controller in simulation, with the equipment at rest.
    fn default() -> (sys: Self)
        ensures
            sys@.at_rest(),
            sys.internal_test,
    {
        System {
            main_valve_orientation: PoolOrSpa::Pool,
            pool_valve_orientation: PoolValve::Skimmer,
            filter: Filter { running_schedule: false, quick_clean: false },
            heater: Heater { mode: PoolOrSpa::Pool, on: false },
            jets_on: false,
            errors: [None;10],
            in_progress: false,
            mech: HasOSMech,
            lights: HasOSLights,
            internal_test: true,
            prev_state: None,
            message_queue: MessageQueue::new(),
            auto_spa_mode: false,
        }
    }
}

} // verus!
