use tradebot::kill_switch::{KillSwitchSnapshot, KillSwitchState, Toggled};
use tradebot::supervisor::{drain_step, DrainStep, Supervision, TaskCriticality, TaskEvent, TaskSupervisor};

#[test]
fn test_kill_all_blocks_everything() {
    let state = KillSwitchState::new(true, false, false);
    assert!(state.is_blocked("crypto"));
    assert!(state.is_blocked("weather"));
    assert!(state.is_blocked("unknown"));
}

#[test]
fn test_kill_crypto_only() {
    let state = KillSwitchState::new(false, true, false);
    assert!(state.is_blocked("crypto"));
    assert!(!state.is_blocked("weather"));
}

#[test]
fn test_kill_weather_only() {
    let state = KillSwitchState::new(false, false, true);
    assert!(!state.is_blocked("crypto"));
    assert!(state.is_blocked("weather"));
}

#[test]
fn test_default_state_allows_all() {
    let state = KillSwitchState::new(false, false, false);
    assert!(!state.is_blocked("crypto"));
    assert!(!state.is_blocked("weather"));
}

#[test]
fn test_toggle_switch() {
    let mut state = KillSwitchState::new(false, false, false);
    assert!(!state.is_blocked("crypto"));

    state.kill_crypto = true;
    assert!(state.is_blocked("crypto"));

    state.kill_crypto = false;
    assert!(!state.is_blocked("crypto"));
}

#[test]
fn test_kill_switch_blocks_trading() {
    let mut ks = KillSwitchState::new(false, false, false);
    assert!(!ks.is_blocked("weather"));
    assert!(!ks.is_blocked("crypto"));

    ks.kill_all = true;
    assert!(ks.is_blocked("weather"));
    assert!(ks.is_blocked("crypto"));

    ks.kill_all = false;
    ks.kill_crypto = true;
    assert!(!ks.is_blocked("weather"));
    assert!(ks.is_blocked("crypto"));
}

#[test]
fn toggling_by_name() {
    let mut ks = KillSwitchState::new(false, false, false);
    assert_eq!(ks.toggle("everything", true), Toggled::NoSuchSwitch);
    assert_eq!(ks.snapshot(), KillSwitchSnapshot { kill_all: false, kill_crypto: false, kill_weather: false });
    let on = KillSwitchSnapshot { kill_all: false, kill_crypto: true, kill_weather: false };
    assert_eq!(ks.toggle("crypto", true), Toggled::Activated(on));
    assert_eq!(ks.toggle("crypto", true), Toggled::Unchanged(on));
    let off = KillSwitchSnapshot { kill_all: false, kill_crypto: false, kill_weather: false };
    assert_eq!(ks.toggle("crypto", false), Toggled::Deactivated(off));
    ks.toggle("weather", true);
    ks.toggle("all", true);
    assert_eq!(ks.snapshot(), KillSwitchSnapshot { kill_all: true, kill_crypto: false, kill_weather: true });
}

#[test]
fn test_critical_task_death_triggers_cancel() {
    let mut ks = KillSwitchState::new(false, false, false);
    let mut sup = TaskSupervisor::new();
    sup.spawn("critical_task", TaskCriticality::Critical);
    sup.spawn("long_task", TaskCriticality::NonCritical);
    let step = sup.handle(TaskEvent::Ended("critical_task"), false, &mut ks);
    assert!(matches!(step, Supervision::ShutDown | Supervision::ShutDownAndReturn), "{:?}", step);
    assert!(ks.kill_all);
}

#[test]
fn test_non_critical_task_death_continues() {
    let mut ks = KillSwitchState::new(false, false, false);
    let mut sup = TaskSupervisor::new();
    sup.spawn("optional_task", TaskCriticality::NonCritical);
    sup.spawn("watchdog", TaskCriticality::NonCritical);
    assert_eq!(sup.handle(TaskEvent::Ended("optional_task"), false, &mut ks), Supervision::Note);
    assert!(!ks.kill_all);
}

#[test]
fn test_external_cancel_drains_all() {
    let mut ks = KillSwitchState::new(false, false, false);
    let mut sup = TaskSupervisor::new();
    sup.spawn("task_a", TaskCriticality::Critical);
    sup.spawn("task_b", TaskCriticality::NonCritical);
    assert_eq!(sup.handle(TaskEvent::Shutdown, true, &mut ks), Supervision::StopAllAndReturn);
    assert!(!ks.kill_all);
}

#[test]
fn test_critical_panic_triggers_cancel() {
    let mut ks = KillSwitchState::new(false, false, false);
    let mut sup = TaskSupervisor::new();
    sup.spawn("panicker", TaskCriticality::Critical);
    sup.spawn("long_task", TaskCriticality::NonCritical);
    let step = sup.handle(TaskEvent::Ended("panicker"), false, &mut ks);
    assert!(matches!(step, Supervision::ShutDown | Supervision::ShutDownAndReturn));
    assert!(ks.kill_all);
}

#[test]
fn open_orders_are_waited_for_a_while() {
    let second: u64 = 1_000_000_000;
    assert_eq!(drain_step(0, 60 * second), DrainStep::Done);
    assert_eq!(drain_step(3, 0), DrainStep::LookAgain(500));
    assert_eq!(drain_step(3, 5 * second), DrainStep::LookAgain(500));
    assert_eq!(drain_step(3, 5 * second + 1), DrainStep::GiveUp);
}
