//! Control core of a pool and spa equipment controller.
//!
//! The crate tracks filter, heater, jets and valve state, enforces the
//! ordering between them, and narrates every transition into a bounded
//! message queue.

pub mod commands;
pub mod message_queue;
pub mod status;
pub mod structs;

use crate::message_queue::{shown_text, Message, MessageQueue};
use crate::status::{record, record_naming, Status};
use crate::structs::{Filter, Heater, Lights, Mech, PoolOrSpa, PoolValve, PrevState, System};
use vstd::prelude::*;
use vstd::utf8::*;

verus! {

impl<M: Mech, L: Lights> View for System<M, L> {
    type V = Status;

    /// The controller without its two capabilities.
    open spec fn view(&self) -> Status {
        Status {
            main_valve_orientation: self.main_valve_orientation,
            pool_valve_orientation: self.pool_valve_orientation,
            filter: self.filter,
            heater: self.heater,
            jets_on: self.jets_on,
            errors: self.errors,
            in_progress: self.in_progress,
            internal_test: self.internal_test,
            prev_state: self.prev_state,
            auto_spa_mode: self.auto_spa_mode,
            log: self.message_queue@,
        }
    }
}

impl<M: Mech, L: Lights> System<M, L> {
    /// A controller over the given capabilities, with the equipment at rest
    /// and an empty queue.
    pub fn new(mech: M, lights: L) -> (sys: Self)
        ensures
            sys.mech == mech,
            sys.lights == lights,
            sys@.at_rest(),
            !sys.internal_test,
    {
        System {
            main_valve_orientation: PoolOrSpa::Pool,
            pool_valve_orientation: PoolValve::Skimmer,
            filter: Filter { running_schedule: false, quick_clean: false },
            heater: Heater { mode: PoolOrSpa::Pool, on: false },
            jets_on: false,
            errors: [None;10],
            in_progress: false,
            mech,
            lights,
            internal_test: false,
            prev_state: None,
            message_queue: MessageQueue::new(),
            auto_spa_mode: false,
        }
    }

    /// Puts `text` into the queue as one record.
    fn log(&mut self, text: &str)
        ensures
            final(self)@ == old(self)@.logged(record(text@)),
            final(self).mech == old(self).mech,
            final(self).lights == old(self).lights,
    {
        let mut msg = Message::new();
        msg.write_str(text);
        assert(Seq::<u8>::empty() + encode_utf8(text@) =~= encode_utf8(text@));
        self.message_queue.push(msg);
    }

    /// Puts `before`, `name` and `after` into the queue as one record.
    fn log_naming(&mut self, before: &str, name: &str, after: &str)
        ensures
            final(self)@ == old(self)@.logged(record_naming(before@, name@, after@)),
            final(self).mech == old(self).mech,
            final(self).lights == old(self).lights,
    {
        let mut msg = Message::new();
        msg.write_str(before);
        msg.write_str(name);
        msg.write_str(after);
        proof {
            crate::message_queue::clip_absorbs(
                Seq::<u8>::empty() + encode_utf8(before@),
                encode_utf8(name@),
            );
            crate::message_queue::clip_absorbs(
                Seq::<u8>::empty() + encode_utf8(before@) + encode_utf8(name@),
                encode_utf8(after@),
            );
            assert(Seq::<u8>::empty() + encode_utf8(before@) =~= encode_utf8(before@));
        }
        self.message_queue.push(msg);
    }

    /// Opens the bracket round a settle delay.
    fn begin_progress(&mut self)
        ensures
            *final(self) == (System { in_progress: true, ..*old(self) }),
    {
        self.in_progress = true;
        self.lights.in_progress(true);
    }

    /// Closes the bracket round a settle delay.
    fn end_progress(&mut self)
        ensures
            *final(self) == (System { in_progress: false, ..*old(self) }),
    {
        self.lights.in_progress(false);
        self.in_progress = false;
    }

    /// Waits for the equipment to settle, unless in simulation.
    fn settle(&self, secs: u64) {
        if !self.internal_test {
            self.mech.delay_secs(secs);
        }
    }

    /// Flips the jets. Always `true`.
    pub fn toggle_jets(&mut self) -> (changed: bool)
        ensures
            changed,
            final(self)@ == old(self)@.toggle_jets(),
            final(self).mech == old(self).mech,
            final(self).lights == old(self).lights,
    {
        if self.jets_on {
            self.log("Jets OFF");
        } else {
            self.log("Jets ON");
        }
        let new = !self.jets_on;
        self.mech.jets_on_toggle(new);
        self.lights.jets_on(new);
        self.jets_on = new;
        true
    }

    /// Primes the filter: a settle delay inside the progress bracket,
    /// between two records. Always `true`.
    pub fn filter_delay(&mut self) -> (done: bool)
        ensures
            done,
            final(self)@ == old(self)@.filter_delay(),
            final(self).mech == old(self).mech,
            final(self).lights == old(self).lights,
    {
        self.log("Running: Filter ON");
        self.begin_progress();
        self.settle(10);
        self.end_progress();
        self.log("Finish: Filter primed and running");
        true
    }

    /// Ends a quick clean that is on, at once; otherwise starts one.
    /// Always `true`.
    pub fn toggle_quick_clean(&mut self) -> (changed: bool)
        ensures
            changed,
            final(self)@ == old(self)@.toggle_quick_clean(),
            final(self).mech == old(self).mech,
            final(self).lights == old(self).lights,
    {
        if self.filter.quick_clean {
            self.log("Quick clean OFF");
            self.lights.quick_clean(false);
            self.mech.set_quick_clean(false);
            self.filter.quick_clean = false;
        } else {
            self.log("Quick Clean ON");
            self.start_quick_clean();
        }
        true
    }

    /// Flips the filter schedule. Turning it on primes the filter under a
    /// protection record; turning it off only leaves a record.
    /// Always `true`.
    pub fn toggle_filter_schedule(&mut self) -> (changed: bool)
        ensures
            changed,
            final(self)@ == old(self)@.toggle_filter_schedule(),
            final(self).mech == old(self).mech,
            final(self).lights == old(self).lights,
    {
        let new = !self.filter.running_schedule;
        self.lights.filter_schedule(new);
        self.filter.running_schedule = new;
        if new {
            self.log("-Protect-");
            self.log("Filter schedule is ON");
            self.filter_delay();
        } else {
            self.log("Filter schedule is OFF");
        }
        true
    }

    /// Ends both filter runs inside the progress bracket. `false`, with
    /// nothing changed, where neither run is on.
    pub fn stop_filter(&mut self) -> (changed: bool)
        ensures
            changed == old(self)@.stops_filter(),
            final(self)@ == old(self)@.stop_filter(),
            final(self).mech == old(self).mech,
            final(self).lights == old(self).lights,
    {
        if !self.filter.quick_clean && !self.filter.running_schedule {
            return false;
        }
        self.log("Running: Turning filter OFF");
        self.begin_progress();
        self.mech.set_quick_clean(false);
        self.mech.mech_set_filter_sched(false);
        self.settle(5);
        self.filter.quick_clean = false;
        self.filter.running_schedule = false;
        self.end_progress();
        self.log("Finish: Filter is OFF");
        true
    }

    /// Starts a quick clean and primes the filter. `false`, with nothing
    /// changed, where a quick clean is on.
    pub fn start_quick_clean(&mut self) -> (changed: bool)
        ensures
            changed == old(self)@.starts_quick_clean(),
            final(self)@ == old(self)@.start_quick_clean(),
            final(self).mech == old(self).mech,
            final(self).lights == old(self).lights,
    {
        if self.filter.quick_clean {
            return false;
        }
        self.log("Running: Turning quick clean ON");
        self.lights.quick_clean(true);
        self.mech.set_quick_clean(true);
        self.filter_delay();
        self.filter.quick_clean = true;
        self.log("Complete: Quick clean is ON");
        true
    }

    /// Switches the heater on or off. `true` exactly where that changes it;
    /// otherwise nothing changes.
    pub fn set_heater_on(&mut self, b: bool) -> (changed: bool)
        ensures
            changed == old(self)@.switches_heater(b),
            final(self)@ == old(self)@.set_heater_on(b),
            final(self).mech == old(self).mech,
            final(self).lights == old(self).lights,
    {
        if self.heater.on == b {
            return false;
        }
        self.mech.heater_on_toggle(b);
        self.lights.heater_on(b);
        self.heater.on = b;
        if b {
            self.log("Heater ON");
        } else {
            self.log("Heater OFF");
        }
        true
    }

    /// Flips the heater between on and off.
    pub fn toggle_heater_on(&mut self)
        ensures
            final(self)@ == old(self)@.toggle_heater_on(),
            final(self).mech == old(self).mech,
            final(self).lights == old(self).lights,
    {
        if self.heater.on {
            self.set_heater_on(false);
        } else {
            self.set_heater_on(true);
        }
    }

    /// Flips the heater's target. Always `true`.
    pub fn toggle_heat_mode(&mut self) -> (changed: bool)
        ensures
            changed,
            final(self)@ == old(self)@.toggle_heat_mode(),
            final(self).mech == old(self).mech,
            final(self).lights == old(self).lights,
    {
        if self.heater.mode == PoolOrSpa::Pool {
            self.set_heat_mode(PoolOrSpa::Spa);
        } else {
            self.set_heat_mode(PoolOrSpa::Pool);
        }
        true
    }

    /// Sets the heater's target. `true` exactly where that changes it;
    /// otherwise nothing changes.
    pub fn set_heat_mode(&mut self, m: PoolOrSpa) -> (changed: bool)
        ensures
            changed == old(self)@.changes_heat_mode(m),
            final(self)@ == old(self)@.set_heat_mode(m),
            final(self).mech == old(self).mech,
            final(self).lights == old(self).lights,
    {
        if self.heater.mode == m {
            return false;
        }
        self.log_naming("Heat mode set to ", m.as_str(), "");
        self.heater.mode = m;
        self.lights.heater_mode(m);
        self.mech.heater_mode_toggle(m);
        true
    }

    /// Moves the main valves to `m`. A running filter is stopped first,
    /// under a protection record, so the valves never move against it.
    /// `false`, with nothing changed, where the valves are at `m`.
    pub fn set_main_valves(&mut self, m: PoolOrSpa) -> (changed: bool)
        ensures
            changed == old(self)@.moves_main_valves(m),
            final(self)@ == old(self)@.set_main_valves(m),
            final(self).mech == old(self).mech,
            final(self).lights == old(self).lights,
    {
        if self.main_valve_orientation == m {
            return false;
        }
        self.lights.main_valve_orientation(m);
        self.log_naming("Start: Changing main valve orientation to ", m.as_str(), "");
        if self.filter.quick_clean || self.filter.running_schedule {
            self.log("-Protect- Turning filter OFF");
            self.stop_filter();
        }
        self.begin_progress();
        self.mech.mech_main_valve_to(m);
        self.settle(10);
        self.main_valve_orientation = m;
        self.log_naming("Finish: Valves changed to ", m.as_str(), " mode");
        self.end_progress();
        true
    }

    /// What is captured before a transient operation.
    fn capture(&self, with_orientation: bool) -> (prev: PrevState)
        ensures
            prev == self@.snapshot(with_orientation),
    {
        PrevState {
            heater: Heater { mode: self.heater.mode, on: self.heater.on },
            filter: Filter {
                running_schedule: self.filter.running_schedule,
                quick_clean: self.filter.quick_clean,
            },
            main_valve_orientation: if with_orientation {
                Some(self.main_valve_orientation)
            } else {
                None
            },
        }
    }

    /// Flips the main valves, and applies again the filter and heater
    /// settings that the move disturbed.
    pub fn toggle_main_valves(&mut self)
        ensures
            final(self)@ == old(self)@.toggle_main_valves(),
            final(self).mech == old(self).mech,
            final(self).lights == old(self).lights,
    {
        let prev_state = Some(self.capture(false));
        match self.main_valve_orientation {
            PoolOrSpa::Pool => self.set_main_valves(PoolOrSpa::Spa),
            PoolOrSpa::Spa => self.set_main_valves(PoolOrSpa::Pool),
        };
        self.restore_previous_state(prev_state);
    }

    /// Enters spa service: main valves to spa, heater on and set to spa, a
    /// quick clean, then a long settle delay. Returns which of heat mode,
    /// heater and quick clean changed. Unless `ignore` is `Some(true)`, the
    /// state captured before the call is applied again at the end.
    pub fn auto_spa(&mut self, ignore: Option<bool>) -> (changed: (bool, bool, bool))
        ensures
            changed == old(self)@.auto_spa_changes(),
            final(self)@ == old(self)@.auto_spa(ignore),
            final(self).mech == old(self).mech,
            final(self).lights == old(self).lights,
    {
        let prev_state = Some(self.capture(true));
        self.log("Starting Spa... Enjoy! xo");
        self.set_main_valves(PoolOrSpa::Spa);
        let op2 = self.set_heater_on(true);
        let op1 = self.set_heat_mode(PoolOrSpa::Spa);
        let op3 = self.start_quick_clean();
        self.settle(15);
        self.log("Delay of 3 hours");
        let stay = match ignore {
            Some(b) => b,
            None => false,
        };
        if !stay {
            self.restore_previous_state(prev_state);
        }
        self.log("Complete: Spa Mode");
        (op1, op2, op3)
    }

    /// Applies a captured state again. `false`, with nothing changed, where
    /// none is given.
    pub fn restore_previous_state(&mut self, o: Option<PrevState>) -> (changed: bool)
        ensures
            changed == o is Some,
            final(self)@ == old(self)@.restore_previous_state(o),
            final(self).mech == old(self).mech,
            final(self).lights == old(self).lights,
    {
        match o {
            None => false,
            Some(n) => {
                self.log("Start: Restoring previous state");
                if n.filter.running_schedule != self.filter.running_schedule {
                    self.toggle_filter_schedule();
                }
                if let Some(orientation) = n.main_valve_orientation {
                    self.set_main_valves(orientation);
                }
                if n.filter.quick_clean {
                    self.start_quick_clean();
                }
                self.set_heat_mode(n.heater.mode);
                self.set_heater_on(n.heater.on);
                self.log("Finish: Previous state restored");
                true
            },
        }
    }

    /// The oldest record as text. It stays in the queue.
    pub fn get_next_message(&mut self) -> (text: Option<&str>)
        ensures
            text is Some <==> old(self)@.log.len() > 0,
            text is Some ==> text.unwrap()@ == shown_text(old(self)@.log[0]),
            *final(self) == *old(self),
    {
        match self.message_queue.peek() {
            Some(m) => Some(m.get_str()),
            None => None,
        }
    }

    /// Removes the oldest record and returns it as text.
    pub fn pop_message(&mut self) -> (text: Option<String>)
        ensures
            text is Some <==> old(self)@.log.len() > 0,
            text is Some ==> text.unwrap()@ == shown_text(old(self)@.log[0]) && final(self)@ == (
            Status { log: old(self)@.log.drop_first(), ..old(self)@ }),
            text is None ==> final(self)@ == old(self)@,
            final(self).mech == old(self).mech,
            final(self).lights == old(self).lights,
    {
        broadcast use vstd::string::to_string_from_display_ensures_for_str;

        match self.message_queue.pop() {
            Some(m) => Some(m.get_str().to_string()),
            None => None,
        }
    }
}

} // verus!
