use app_core::commands::{pack_lights, Command};
use app_core::structs::{Filter, HasOSLights, HasOSMech, Heater, PoolOrSpa, System};

#[test]
fn buttons_name_their_commands() {
  assert_eq!(Command::from_button(0), Some(Command::AutoSpa));
  assert_eq!(Command::from_button(1), Some(Command::ToggleJets));
  assert_eq!(Command::from_button(2), Some(Command::ToggleFilterSchedule));
  assert_eq!(Command::from_button(3), Some(Command::ToggleQuickClean));
  assert_eq!(Command::from_button(4), Some(Command::ToggleMainValves));
  assert_eq!(Command::from_button(5), None);
  assert_eq!(Command::from_button(6), Some(Command::ToggleHeaterOn));
  assert_eq!(Command::from_button(7), Some(Command::ToggleHeatMode));
  assert_eq!(Command::from_button(8), None);
  assert_eq!(Command::from_button(-1), None);
  assert_eq!(Command::from_button(i32::MAX), None);
  assert_eq!(Command::from_button(i32::MIN), None);
}

#[test]
fn keys_name_their_commands_in_either_case() {
  for (lower, upper, command) in [
    ('c', 'C', Command::ToggleQuickClean),
    ('r', 'R', Command::ToggleFilterSchedule),
    ('h', 'H', Command::ToggleHeaterOn),
    ('j', 'J', Command::ToggleJets),
    ('k', 'K', Command::ToggleHeatMode),
    ('s', 'S', Command::AutoSpa),
    ('m', 'M', Command::ToggleMainValves),
  ] {
    assert_eq!(Command::from_key(lower), Some(command));
    assert_eq!(Command::from_key(upper), Some(command));
  }
  assert_eq!(Command::from_key('q'), None);
  assert_eq!(Command::from_key('l'), None);
  assert_eq!(Command::from_key('0'), None);
  assert_eq!(Command::from_key('\u{e9}'), None);
}

#[test]
fn perform_runs_the_named_operation() {
  let mut sys = System::<HasOSMech, HasOSLights>::default();
  sys.perform(Command::ToggleJets);
  assert!(sys.jets_on);
  sys.perform(Command::ToggleFilterSchedule);
  assert!(sys.filter.running_schedule);
  sys.perform(Command::ToggleQuickClean);
  assert!(sys.filter.quick_clean);
  sys.perform(Command::ToggleHeaterOn);
  assert!(sys.heater.on);
  sys.perform(Command::ToggleHeatMode);
  assert_eq!(sys.heater.mode, PoolOrSpa::Spa);
  sys.perform(Command::ToggleMainValves);
  assert_eq!(sys.main_valve_orientation, PoolOrSpa::Spa);
  assert_eq!(sys.filter, Filter { running_schedule: true, quick_clean: true });
  assert_eq!(sys.heater, Heater { mode: PoolOrSpa::Spa, on: true });
}

#[test]
fn perform_auto_spa_rolls_back() {
  let mut sys = System::<HasOSMech, HasOSLights>::default();
  sys.perform(Command::AutoSpa);
  assert_eq!(sys.main_valve_orientation, PoolOrSpa::Pool);
  assert_eq!(sys.heater, Heater { mode: PoolOrSpa::Pool, on: false });
  assert_eq!(sys.filter.quick_clean, false);
  let mut last = None;
  while let Some(msg) = sys.pop_message() {
    last = Some(msg);
  }
  assert_eq!(last, Some("Complete: Spa Mode".to_string()));
}

#[test]
fn pack_lights_sets_one_bit_per_signal() {
  assert_eq!(pack_lights(&[]), 0);
  assert_eq!(pack_lights(&[false; 8]), 0);
  assert_eq!(pack_lights(&[true]), 1);
  assert_eq!(pack_lights(&[false, true]), 2);
  assert_eq!(pack_lights(&[true, false, true, false, false, false, false, true]), 0b1000_0101);
  assert_eq!(pack_lights(&[true; 8]), 255);
  assert_eq!(pack_lights(&[true; 16]), 65535);
  let mut high = [false; 16];
  high[15] = true;
  assert_eq!(pack_lights(&high), 32768);
}
