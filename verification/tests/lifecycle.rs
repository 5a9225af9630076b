use global_mouse_hook::controller::{HookController, PumpCommand, RunState};
use global_mouse_hook::events::EventClass;

fn spawn_count(cmds: &[PumpCommand]) -> usize {
    cmds.iter().filter(|c| matches!(c, PumpCommand::SpawnPump(_))).count()
}

#[test]
fn start_spawns_exactly_one_pump() {
    let mut c = HookController::new();
    let cmd1 = c.start_global_mouse_hook(11).unwrap();
    assert_eq!(cmd1, PumpCommand::SpawnPump(EventClass::Mouse));
    assert_eq!(c.mouse_run, RunState::Running);
    assert_eq!(c.mouse_sink, Some(11));
}

#[test]
fn double_start_installs_no_second_hook() {
    let mut c = HookController::new();
    let cmd1 = c.start_global_mouse_hook(11).unwrap();
    let cmd2 = c.start_global_mouse_hook(22).unwrap();
    assert_eq!(spawn_count(&[cmd1, cmd2]), 1);
    assert_eq!(cmd2, PumpCommand::NoAction);
    // The second start only replaces the sink.
    assert_eq!(c.mouse_sink, Some(22));
    assert_eq!(c.mouse_run, RunState::Running);
}

#[test]
fn double_start_keyboard_installs_no_second_hook() {
    let mut c = HookController::new();
    let cmd1 = c.start_global_keyboard_hook(1).unwrap();
    let cmd2 = c.start_global_keyboard_hook(2).unwrap();
    assert_eq!(cmd1, PumpCommand::SpawnPump(EventClass::Keyboard));
    assert_eq!(cmd2, PumpCommand::NoAction);
    assert_eq!(c.keyboard_sink, Some(2));
}

#[test]
fn stop_on_stopped_class_is_a_no_op() {
    let mut c = HookController::new();
    let r = c.stop_global_mouse_hook();
    assert!(r.is_ok());
    assert_eq!(r.unwrap(), PumpCommand::NoAction);
    assert_eq!(c.mouse_run, RunState::Stopped);
    let r2 = c.stop_global_keyboard_hook();
    assert_eq!(r2.unwrap(), PumpCommand::NoAction);
}

#[test]
fn stop_after_stop_is_still_success() {
    let mut c = HookController::new();
    c.start_global_mouse_hook(5).unwrap();
    let first = c.stop_global_mouse_hook().unwrap();
    assert_eq!(first, PumpCommand::SignalStop(EventClass::Mouse));
    let second = c.stop_global_mouse_hook().unwrap();
    assert_eq!(second, PumpCommand::NoAction);
    assert_eq!(c.mouse_run, RunState::Stopped);
    assert_eq!(c.mouse_sink, None);
}

#[test]
fn stop_clears_the_sink_slot() {
    let mut c = HookController::new();
    c.start_global_keyboard_hook(9).unwrap();
    assert_eq!(c.keyboard_sink, Some(9));
    c.stop_global_keyboard_hook().unwrap();
    assert_eq!(c.keyboard_sink, None);
}

#[test]
fn classes_are_independent() {
    let mut c = HookController::new();
    c.start_global_mouse_hook(1).unwrap();
    assert_eq!(c.keyboard_run, RunState::Stopped);
    assert_eq!(c.keyboard_sink, None);
    c.start_global_keyboard_hook(2).unwrap();
    c.stop_global_mouse_hook().unwrap();
    assert_eq!(c.keyboard_run, RunState::Running);
    assert_eq!(c.keyboard_sink, Some(2));
}

#[test]
fn stop_all_with_nothing_started_spawns_no_thread() {
    let mut c = HookController::new();
    let r = c.stop_all_hooks();
    assert!(r.is_ok());
    let (mouse_cmd, keyboard_cmd) = r.unwrap();
    assert_eq!(mouse_cmd, PumpCommand::NoAction);
    assert_eq!(keyboard_cmd, PumpCommand::NoAction);
    assert_eq!(c.mouse_run, RunState::Stopped);
    assert_eq!(c.keyboard_run, RunState::Stopped);
}

#[test]
fn stop_all_signals_running_pumps() {
    let mut c = HookController::new();
    c.start_global_mouse_hook(1).unwrap();
    c.start_global_keyboard_hook(2).unwrap();
    let (mouse_cmd, keyboard_cmd) = c.stop_all_hooks().unwrap();
    assert_eq!(mouse_cmd, PumpCommand::SignalStop(EventClass::Mouse));
    assert_eq!(keyboard_cmd, PumpCommand::SignalStop(EventClass::Keyboard));
    assert_eq!(c.mouse_sink, None);
    assert_eq!(c.keyboard_sink, None);
}
