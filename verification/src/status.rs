//! The plain state of a controller, and what each operation makes of it.
//!
//! A `Status` is a controller without its two capabilities: the equipment
//! state and the records in the queue. Each operation of the controller is
//! stated here as a function from the status before to the status after.

use crate::message_queue::{clip, log_push};
use crate::structs::{Filter, Heater, PoolOrSpa, PoolValve, PrevState, LOG_CAPACITY};
use vstd::prelude::*;
use vstd::utf8::*;

verus! {

/// The record that holds `text`.
pub open spec fn record(text: Seq<char>) -> Seq<u8> {
    clip(encode_utf8(text))
}

/// The record that holds `before`, then `name`, then `after`.
pub open spec fn record_naming(before: Seq<char>, name: Seq<char>, after: Seq<char>) -> Seq<u8> {
    clip(encode_utf8(before) + encode_utf8(name) + encode_utf8(after))
}

/// The record that marks the one ordering rule between subsystems: the
/// filter is stopped before the main valves move.
pub open spec fn protection_record() -> Seq<u8> {
    record("-Protect- Turning filter OFF"@)
}

/// The state of a controller, and the records in its queue, oldest first.
pub struct Status {
    pub main_valve_orientation: PoolOrSpa,
    pub pool_valve_orientation: PoolValve,
    pub filter: Filter,
    pub heater: Heater,
    pub jets_on: bool,
    pub errors: [Option<u32>; 10],
    pub in_progress: bool,
    pub internal_test: bool,
    pub prev_state: Option<PrevState>,
    pub auto_spa_mode: bool,
    pub log: Seq<Seq<u8>>,
}

impl Status {
    /// The state in which a controller starts: main valves to the pool,
    /// secondary valves at the skimmer, everything off, no fault, nothing
    /// captured, and an empty queue.
    pub open spec fn at_rest(self) -> bool {
        &&& self.main_valve_orientation == PoolOrSpa::Pool
        &&& self.pool_valve_orientation == PoolValve::Skimmer
        &&& self.filter == (Filter { running_schedule: false, quick_clean: false })
        &&& self.heater == (Heater { mode: PoolOrSpa::Pool, on: false })
        &&& !self.jets_on
        &&& forall|i: int| 0 <= i < 10 ==> self.errors@[i] is None
        &&& !self.in_progress
        &&& self.prev_state is None
        &&& !self.auto_spa_mode
        &&& self.log == Seq::<Seq<u8>>::empty()
    }

    /// With one more record in the queue.
    pub open spec fn logged(self, rec: Seq<u8>) -> Status {
        Status { log: log_push(self.log, rec, LOG_CAPACITY as nat), ..self }
    }

    /// After the equipment has settled: no operation is outstanding.
    pub open spec fn settled(self) -> Status {
        Status { in_progress: false, ..self }
    }

    /// With the filter runs as given.
    pub open spec fn with_filter(self, running_schedule: bool, quick_clean: bool) -> Status {
        Status { filter: Filter { running_schedule, quick_clean }, ..self }
    }

    /// Whether either filter run is on.
    pub open spec fn filter_runs(self) -> bool {
        self.filter.quick_clean || self.filter.running_schedule
    }

    /// What is captured of the filter and the heater, and of the main valves
    /// where `with_orientation` says so.
    pub open spec fn snapshot(self, with_orientation: bool) -> PrevState {
        PrevState {
            filter: self.filter,
            heater: self.heater,
            main_valve_orientation: if with_orientation {
                Some(self.main_valve_orientation)
            } else {
                None
            },
        }
    }

    /// The jets flip, and the record names their new state.
    pub open spec fn toggle_jets(self) -> Status {
        let rec = if self.jets_on {
            record("Jets OFF"@)
        } else {
            record("Jets ON"@)
        };
        Status { jets_on: !self.jets_on, ..self.logged(rec) }
    }

    /// The filter is primed between two records.
    pub open spec fn filter_delay(self) -> Status {
        self.logged(record("Running: Filter ON"@)).settled().logged(
            record("Finish: Filter primed and running"@),
        )
    }

    /// Whether a quick clean would start: none is on.
    pub open spec fn starts_quick_clean(self) -> bool {
        !self.filter.quick_clean
    }

    /// A quick clean starts, unless one is on.
    pub open spec fn start_quick_clean(self) -> Status {
        if self.starts_quick_clean() {
            let primed = self.logged(record("Running: Turning quick clean ON"@)).filter_delay();
            primed.with_filter(primed.filter.running_schedule, true).logged(
                record("Complete: Quick clean is ON"@),
            )
        } else {
            self
        }
    }

    /// A quick clean that is on ends at once; otherwise one starts.
    pub open spec fn toggle_quick_clean(self) -> Status {
        if self.filter.quick_clean {
            self.logged(record("Quick clean OFF"@)).with_filter(self.filter.running_schedule, false)
        } else {
            self.logged(record("Quick Clean ON"@)).start_quick_clean()
        }
    }

    /// The schedule flips. Only turning it on primes the filter.
    pub open spec fn toggle_filter_schedule(self) -> Status {
        let flipped = self.with_filter(!self.filter.running_schedule, self.filter.quick_clean);
        if flipped.filter.running_schedule {
            flipped.logged(record("-Protect-"@)).logged(
                record("Filter schedule is ON"@),
            ).filter_delay()
        } else {
            flipped.logged(record("Filter schedule is OFF"@))
        }
    }

    /// Whether stopping the filter would change anything: a run is on.
    pub open spec fn stops_filter(self) -> bool {
        self.filter_runs()
    }

    /// Both filter runs end together, unless neither is on.
    pub open spec fn stop_filter(self) -> Status {
        if self.stops_filter() {
            self.logged(record("Running: Turning filter OFF"@)).settled().with_filter(
                false,
                false,
            ).logged(record("Finish: Filter is OFF"@))
        } else {
            self
        }
    }

    /// Whether the heater would switch: it is not yet as asked.
    pub open spec fn switches_heater(self, on: bool) -> bool {
        self.heater.on != on
    }

    /// The heater is switched as asked, unless it is so already.
    pub open spec fn set_heater_on(self, on: bool) -> Status {
        if self.switches_heater(on) {
            let rec = if on {
                record("Heater ON"@)
            } else {
                record("Heater OFF"@)
            };
            Status { heater: Heater { mode: self.heater.mode, on }, ..self }.logged(rec)
        } else {
            self
        }
    }

    /// The heater flips between on and off.
    pub open spec fn toggle_heater_on(self) -> Status {
        self.set_heater_on(!self.heater.on)
    }

    /// Whether the heater's target would change: it is not yet `mode`.
    pub open spec fn changes_heat_mode(self, mode: PoolOrSpa) -> bool {
        self.heater.mode != mode
    }

    /// The heater's target becomes `mode`, unless it is so already.
    pub open spec fn set_heat_mode(self, mode: PoolOrSpa) -> Status {
        if self.changes_heat_mode(mode) {
            Status {
                heater: Heater { mode, on: self.heater.on },
                ..self.logged(record_naming("Heat mode set to "@, mode.label(), ""@))
            }
        } else {
            self
        }
    }

    /// The heater's target flips.
    pub open spec fn toggle_heat_mode(self) -> Status {
        self.set_heat_mode(self.heater.mode.flipped())
    }

    /// Whether the main valves would move: they are not yet at `target`.
    pub open spec fn moves_main_valves(self, target: PoolOrSpa) -> bool {
        self.main_valve_orientation != target
    }

    /// The main valves move to `target`, unless they are there. A running
    /// filter is stopped first, under a protection record.
    pub open spec fn set_main_valves(self, target: PoolOrSpa) -> Status {
        if self.moves_main_valves(target) {
            let begun = self.logged(
                record_naming("Start: Changing main valve orientation to "@, target.label(), ""@),
            );
            let safe = if begun.filter_runs() {
                begun.logged(protection_record()).stop_filter()
            } else {
                begun
            };
            Status { main_valve_orientation: target, ..safe.settled() }.logged(
                record_naming("Finish: Valves changed to "@, target.label(), " mode"@),
            )
        } else {
            self
        }
    }

    /// A captured state is applied again: the schedule, the main valves where
    /// they were captured, a quick clean that was on, and the heater. Without
    /// a captured state nothing happens.
    pub open spec fn restore_previous_state(self, captured: Option<PrevState>) -> Status {
        match captured {
            None => self,
            Some(prev) => {
                let begun = self.logged(record("Start: Restoring previous state"@));
                let scheduled = if prev.filter.running_schedule != begun.filter.running_schedule {
                    begun.toggle_filter_schedule()
                } else {
                    begun
                };
                let oriented = match prev.main_valve_orientation {
                    Some(orientation) => scheduled.set_main_valves(orientation),
                    None => scheduled,
                };
                let cleaned = if prev.filter.quick_clean {
                    oriented.start_quick_clean()
                } else {
                    oriented
                };
                cleaned.set_heat_mode(prev.heater.mode).set_heater_on(prev.heater.on).logged(
                    record("Finish: Previous state restored"@),
                )
            },
        }
    }

    /// The main valves flip. Filter and heater are captured before and
    /// applied again after, so that only the orientation changes.
    pub open spec fn toggle_main_valves(self) -> Status {
        self.set_main_valves(self.main_valve_orientation.flipped()).restore_previous_state(
            Some(self.snapshot(false)),
        )
    }

    /// The state in spa service, before anything is rolled back.
    pub open spec fn enter_spa(self) -> Status {
        self.logged(record("Starting Spa... Enjoy! xo"@)).set_main_valves(
            PoolOrSpa::Spa,
        ).set_heater_on(true).set_heat_mode(PoolOrSpa::Spa).start_quick_clean().logged(
            record("Delay of 3 hours"@),
        )
    }

    /// Which of the three steps into spa service change anything: the
    /// heater's target, the heater, the quick clean. The valves move first,
    /// and a quick clean that they stopped starts again.
    pub open spec fn auto_spa_changes(self) -> (bool, bool, bool) {
        (
            self.changes_heat_mode(PoolOrSpa::Spa),
            self.switches_heater(true),
            self.moves_main_valves(PoolOrSpa::Spa) || self.starts_quick_clean(),
        )
    }

    /// Spa service is entered. Only where `ignore` is `Some(true)` does the
    /// controller stay in it: otherwise the state captured before, main
    /// valves included, is applied again.
    pub open spec fn auto_spa(self, ignore: Option<bool>) -> Status {
        let spa = self.enter_spa();
        let kept = if ignore == Some(true) {
            spa
        } else {
            spa.restore_previous_state(Some(self.snapshot(true)))
        };
        kept.logged(record("Complete: Spa Mode"@))
    }
}

/// A record that arrives leaves the `k` newest records before it in the
/// queue, one place further from the end.
pub proof fn log_push_keeps_recent(log: Seq<Seq<u8>>, rec: Seq<u8>, k: int)
    requires
        1 <= k <= log.len(),
        k < LOG_CAPACITY,
    ensures
        log_push(log, rec, LOG_CAPACITY as nat).len() > k,
        log_push(log, rec, LOG_CAPACITY as nat)[log_push(log, rec, LOG_CAPACITY as nat).len() - 1
            - k] == log[log.len() - k],
{
}

/// Once a quick clean has been started, it is on, and starting it again
/// changes nothing.
pub proof fn start_quick_clean_settles(s: Status)
    ensures
        s.start_quick_clean().filter.quick_clean,
        s.starts_quick_clean() <==> !s.filter.quick_clean,
        !s.start_quick_clean().starts_quick_clean(),
        s.start_quick_clean().start_quick_clean() == s.start_quick_clean(),
{
}

/// Stopping a filter that is at rest changes nothing, however often it is
/// done; and after any stop the filter is at rest.
pub proof fn stop_filter_settles(s: Status)
    ensures
        !s.filter.quick_clean && !s.filter.running_schedule ==> !s.stops_filter() && s.stop_filter()
            == s,
        !s.stop_filter().filter.quick_clean,
        !s.stop_filter().filter.running_schedule,
        !s.stop_filter().stops_filter(),
        s.stop_filter().stop_filter() == s.stop_filter(),
{
}

/// Switching the heater changes the state exactly where the heater was not
/// yet as asked; asking again for the same changes nothing.
pub proof fn set_heater_on_settles(s: Status, on: bool)
    ensures
        s.switches_heater(on) <==> s.heater.on != on,
        !s.switches_heater(on) ==> s.set_heater_on(on) == s,
        s.set_heater_on(on).heater.on == on,
        !s.set_heater_on(on).switches_heater(on),
        s.set_heater_on(on).set_heater_on(on) == s.set_heater_on(on),
{
}

/// Where the main valves move while the filter runs, the filter is at rest
/// afterwards and the queue holds the protection record.
pub proof fn set_main_valves_protects_filter(s: Status, target: PoolOrSpa)
    requires
        s.moves_main_valves(target),
        s.filter_runs(),
    ensures
        !s.set_main_valves(target).filter.quick_clean,
        !s.set_main_valves(target).filter.running_schedule,
        s.set_main_valves(target).main_valve_orientation == target,
        exists|i: int|
            0 <= i < s.set_main_valves(target).log.len() && s.set_main_valves(target).log[i]
                == protection_record(),
{
    let begun = s.logged(
        record_naming("Start: Changing main valve orientation to "@, target.label(), ""@),
    );
    let marked = begun.logged(protection_record());
    let running = marked.logged(record("Running: Turning filter OFF"@));
    let stopped = marked.stop_filter();
    let after = s.set_main_valves(target);
    assert(marked.log[marked.log.len() - 1] == protection_record());
    log_push_keeps_recent(marked.log, record("Running: Turning filter OFF"@), 1);
    assert(running.log[running.log.len() - 2] == protection_record());
    log_push_keeps_recent(running.log, record("Finish: Filter is OFF"@), 2);
    assert(stopped.log[stopped.log.len() - 3] == protection_record());
    log_push_keeps_recent(
        stopped.log,
        record_naming("Finish: Valves changed to "@, target.label(), " mode"@),
        3,
    );
    assert(after.log[after.log.len() - 4] == protection_record());
}

/// Flipping the main valves changes the orientation and nothing else of the
/// equipment state: heater and filter are afterwards as they were before.
pub proof fn toggle_main_valves_keeps_settings(s: Status)
    ensures
        s.toggle_main_valves().main_valve_orientation == s.main_valve_orientation.flipped(),
        s.toggle_main_valves().heater == s.heater,
        s.toggle_main_valves().filter == s.filter,
        s.toggle_main_valves().jets_on == s.jets_on,
        !s.toggle_main_valves().in_progress,
{
}

/// With the rollback skipped, the controller is in spa service afterwards,
/// and entering it again changes none of the three. From rest all three
/// change.
pub proof fn auto_spa_stays(s: Status)
    ensures
        s.auto_spa(Some(true)).main_valve_orientation == PoolOrSpa::Spa,
        s.auto_spa(Some(true)).heater == (Heater { mode: PoolOrSpa::Spa, on: true }),
        s.auto_spa(Some(true)).filter.quick_clean,
        s.auto_spa(Some(true)).auto_spa_changes() == (false, false, false),
        s.at_rest() ==> s.auto_spa_changes() == (true, true, true),
{
}

/// Without the rollback skipped, main valves and heater are afterwards as
/// they were before the call. So is the quick clean, unless the controller
/// was in spa orientation with none on: then the one that was started stays.
pub proof fn auto_spa_rolls_back(s: Status, ignore: Option<bool>)
    requires
        ignore != Some(true),
    ensures
        s.auto_spa(ignore).main_valve_orientation == s.main_valve_orientation,
        s.auto_spa(ignore).heater == s.heater,
        s.main_valve_orientation == PoolOrSpa::Pool || s.filter.quick_clean ==> s.auto_spa(
            ignore,
        ).filter.quick_clean == s.filter.quick_clean,
        s.main_valve_orientation == PoolOrSpa::Spa ==> s.auto_spa(ignore).filter.quick_clean,
{
}

/// Whether the progress flag is off in `after` unless it was on in `before`.
pub open spec fn progress_not_raised(before: Status, after: Status) -> bool {
    after.in_progress ==> before.in_progress
}

/// No single operation leaves the progress flag on: it is off after each one
/// that settles the equipment, and as before after the others.
pub proof fn progress_is_cleared(s: Status, on: bool, mode: PoolOrSpa)
    ensures
        !s.filter_delay().in_progress,
        s.starts_quick_clean() ==> !s.start_quick_clean().in_progress,
        s.stops_filter() ==> !s.stop_filter().in_progress,
        s.moves_main_valves(mode) ==> !s.set_main_valves(mode).in_progress,
        s.toggle_jets().in_progress == s.in_progress,
        s.set_heater_on(on).in_progress == s.in_progress,
        s.set_heat_mode(mode).in_progress == s.in_progress,
        progress_not_raised(s, s.start_quick_clean()),
        progress_not_raised(s, s.stop_filter()),
        progress_not_raised(s, s.toggle_quick_clean()),
        progress_not_raised(s, s.toggle_filter_schedule()),
        progress_not_raised(s, s.set_main_valves(mode)),
{
}

/// Nor does applying a captured state again.
pub proof fn progress_is_cleared_by_restore(s: Status, captured: Option<PrevState>)
    ensures
        progress_not_raised(s, s.restore_previous_state(captured)),
{
    if let Some(prev) = captured {
        let begun = s.logged(record("Start: Restoring previous state"@));
        let scheduled = if prev.filter.running_schedule != begun.filter.running_schedule {
            begun.toggle_filter_schedule()
        } else {
            begun
        };
        let oriented = match prev.main_valve_orientation {
            Some(orientation) => scheduled.set_main_valves(orientation),
            None => scheduled,
        };
        let cleaned = if prev.filter.quick_clean {
            oriented.start_quick_clean()
        } else {
            oriented
        };
        progress_is_cleared(begun, prev.heater.on, PoolOrSpa::Pool);
        if let Some(orientation) = prev.main_valve_orientation {
            progress_is_cleared(scheduled, prev.heater.on, orientation);
        }
        progress_is_cleared(oriented, prev.heater.on, prev.heater.mode);
        progress_is_cleared(cleaned, prev.heater.on, prev.heater.mode);
        progress_is_cleared(cleaned.set_heat_mode(prev.heater.mode), prev.heater.on, prev.heater.mode);
    }
}

/// Nor does flipping the main valves, after which the flag is off, nor
/// entering spa service.
pub proof fn progress_is_cleared_by_routines(s: Status, ignore: Option<bool>)
    ensures
        !s.toggle_main_valves().in_progress,
        progress_not_raised(s, s.auto_spa(ignore)),
{
    let moved = s.set_main_valves(s.main_valve_orientation.flipped());
    progress_is_cleared(s, true, s.main_valve_orientation.flipped());
    progress_is_cleared_by_restore(moved, Some(s.snapshot(false)));

    let begun = s.logged(record("Starting Spa... Enjoy! xo"@));
    let oriented = begun.set_main_valves(PoolOrSpa::Spa);
    let heated = oriented.set_heater_on(true).set_heat_mode(PoolOrSpa::Spa);
    progress_is_cleared(begun, true, PoolOrSpa::Spa);
    progress_is_cleared(oriented, true, PoolOrSpa::Spa);
    progress_is_cleared(oriented.set_heater_on(true), true, PoolOrSpa::Spa);
    progress_is_cleared(heated, true, PoolOrSpa::Spa);
    progress_is_cleared_by_restore(s.enter_spa(), Some(s.snapshot(true)));
}

} // verus!
