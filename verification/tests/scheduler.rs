use uptime_rs::error::EngineError;
use uptime_rs::history::MonitorPing;
use uptime_rs::manager::PingerManager;
use uptime_rs::monitor::{CreateMonitor, Monitor, Protocol};
use uptime_rs::pinger::Pinger;
use uptime_rs::probe::PingResponse;

fn monitor(id: i64, interval: i64) -> Monitor {
    Monitor {
        id,
        name: format!("monitor-{}", id),
        ip: String::from("example.com"),
        port: Some(443),
        protocol: Protocol::HTTPS,
        interval,
        paused: false,
    }
}

fn always_up(_address: &str) -> PingResponse {
    PingResponse::from_status(200, 12)
}

fn run_round(manager: &mut PingerManager, store: &mut Vec<MonitorPing>) -> usize {
    let due = manager.tick();
    for monitor in due.iter() {
        let response = always_up(&monitor.address());
        if let Some(record) = manager.record_probe(monitor, &response) {
            store.push(record);
        }
    }
    due.len()
}

fn probes_in(pinger: &mut Pinger, rounds: usize) -> usize {
    let mut probes = 0;
    for _ in 0..rounds {
        if pinger.enabled() && pinger.tick() {
            probes += 1;
        }
    }
    probes
}

#[test]
fn new_pinger_mirrors_pause_state() {
    let pinger = Pinger::new(monitor(1, 5), 3);
    assert!(pinger.enabled());
    assert_eq!(pinger.last_ping(), 3);
    assert_eq!(pinger.monitor().id, 1);
    let mut paused = monitor(2, 5);
    paused.paused = true;
    assert!(!Pinger::new(paused, 3).enabled());
}

#[test]
fn tick_fires_when_count_reaches_interval() {
    let mut pinger = Pinger::new(monitor(1, 3), 0);
    assert!(!pinger.is_due());
    assert!(!pinger.tick());
    assert_eq!(pinger.last_ping(), 1);
    assert!(!pinger.tick());
    assert!(!pinger.tick());
    assert_eq!(pinger.last_ping(), 3);
    assert!(pinger.is_due());
    assert!(pinger.tick());
    assert_eq!(pinger.last_ping(), 1);
}

#[test]
fn one_probe_per_interval_after_a_check() {
    for interval in 1..=12i64 {
        let mut pinger = Pinger::new(monitor(1, interval), interval);
        assert!(pinger.tick());
        assert_eq!(pinger.last_ping(), 1);
        let k = interval as usize;
        let mut fewer = pinger.clone();
        assert_eq!(probes_in(&mut fewer, k - 1), 0);
        let mut exact = pinger.clone();
        assert_eq!(probes_in(&mut exact, k), 1);
        assert_eq!(exact.last_ping(), 1);
        let mut many = pinger.clone();
        assert_eq!(probes_in(&mut many, 7 * k + k - 1), 7);
    }
}

#[test]
fn count_never_overflows() {
    let mut pinger = Pinger::new(monitor(1, i64::MAX), i64::MAX);
    assert!(pinger.tick());
    assert_eq!(pinger.last_ping(), 1);
    let mut pinger = Pinger::new(monitor(1, i64::MAX), i64::MAX - 1);
    assert!(!pinger.tick());
    assert_eq!(pinger.last_ping(), i64::MAX);
    assert!(pinger.tick());
    let mut pinger = Pinger::new(monitor(1, 5), i64::MIN);
    assert!(!pinger.tick());
    assert_eq!(pinger.last_ping(), i64::MIN + 1);
}

#[test]
fn scenario_five_ticks_then_pause() {
    let definition = CreateMonitor {
        name: String::from("api"),
        ip: String::from("example.com"),
        port: Some(443),
        interval: 5,
    };
    let created = definition.to_monitor(1, Protocol::HTTPS, false).unwrap();
    assert_eq!(created.address(), "https://example.com:443");
    let mut manager = PingerManager::new();
    let mut store: Vec<MonitorPing> = Vec::new();
    assert_eq!(manager.register(created), Ok(()));
    for _ in 0..5 {
        run_round(&mut manager, &mut store);
    }
    assert_eq!(store.len(), 1);
    assert!(!store[0].bad);
    assert_eq!(store[0].monitor_id, 1);
    assert_eq!(store[0].status, 200);
    assert_eq!(manager.toggle_paused(1), Ok(true));
    for _ in 0..10 {
        assert_eq!(run_round(&mut manager, &mut store), 0);
    }
    assert_eq!(store.len(), 1);
}

#[test]
fn registered_monitor_is_probed_in_the_first_round() {
    let mut manager = PingerManager::new();
    manager.register(monitor(1, 5)).unwrap();
    let due = manager.tick();
    assert_eq!(due.len(), 1);
    assert_eq!(due[0].id, 1);
    assert_eq!(due[0].address(), "https://example.com:443");
    for _ in 0..4 {
        assert!(manager.tick().is_empty());
    }
    assert_eq!(manager.tick().len(), 1);
}

#[test]
fn pinger_added_with_a_shorter_count_waits() {
    let mut manager = PingerManager::new();
    manager.add_pinger(Pinger::new(monitor(1, 5), 3)).unwrap();
    assert!(manager.tick().is_empty());
    assert!(manager.tick().is_empty());
    assert_eq!(manager.tick().len(), 1);
}

#[test]
fn round_probes_every_due_monitor_once() {
    let mut manager = PingerManager::new();
    for id in 1..=20 {
        manager.register(monitor(id, if id % 2 == 0 { 2 } else { 3 })).unwrap();
    }
    let mut ids: Vec<i64> = manager.tick().iter().map(|m| m.id).collect();
    ids.sort();
    assert_eq!(ids, (1..=20).collect::<Vec<i64>>());
    assert!(manager.tick().is_empty());
    let mut ids: Vec<i64> = manager.tick().iter().map(|m| m.id).collect();
    ids.sort();
    assert_eq!(ids, (1..=10).map(|i| 2 * i).collect::<Vec<i64>>());
    let mut ids: Vec<i64> = manager.tick().iter().map(|m| m.id).collect();
    ids.sort();
    assert_eq!(ids, (0..10).map(|i| 2 * i + 1).collect::<Vec<i64>>());
}

#[test]
fn pause_stops_probes_and_resume_keeps_the_count() {
    let mut manager = PingerManager::new();
    let mut store: Vec<MonitorPing> = Vec::new();
    manager.register(monitor(1, 4)).unwrap();
    assert_eq!(run_round(&mut manager, &mut store), 1);
    assert_eq!(run_round(&mut manager, &mut store), 0);
    assert_eq!(manager.set_paused(1, true), Ok(()));
    assert!(manager.get_monitor(1).unwrap().paused);
    for _ in 0..50 {
        assert_eq!(run_round(&mut manager, &mut store), 0);
    }
    assert_eq!(store.len(), 1);
    assert_eq!(manager.set_paused(1, false), Ok(()));
    assert!(!manager.get_monitor(1).unwrap().paused);
    assert_eq!(run_round(&mut manager, &mut store), 0);
    assert_eq!(run_round(&mut manager, &mut store), 0);
    assert_eq!(run_round(&mut manager, &mut store), 1);
    assert_eq!(store.len(), 2);
}

#[test]
fn pausing_one_monitor_leaves_the_others_running() {
    let mut manager = PingerManager::new();
    manager.register(monitor(1, 1)).unwrap();
    manager.register(monitor(2, 1)).unwrap();
    manager.set_paused(1, true).unwrap();
    for _ in 0..3 {
        let due = manager.tick();
        assert_eq!(due.len(), 1);
        assert_eq!(due[0].id, 2);
    }
}

#[test]
fn toggle_flips_and_reports_the_new_state() {
    let mut manager = PingerManager::new();
    manager.register(monitor(1, 1)).unwrap();
    assert_eq!(manager.toggle_paused(1), Ok(true));
    assert!(manager.tick().is_empty());
    assert_eq!(manager.toggle_paused(1), Ok(false));
    assert_eq!(manager.tick().len(), 1);
    assert_eq!(manager.toggle_paused(2), Err(EngineError::NotFound));
}

#[test]
fn paused_monitor_registers_disabled() {
    let mut manager = PingerManager::new();
    let mut paused = monitor(1, 1);
    paused.paused = true;
    manager.register(paused).unwrap();
    assert!(manager.tick().is_empty());
    manager.set_paused(1, false).unwrap();
    assert_eq!(manager.tick().len(), 1);
}

#[test]
fn update_takes_effect_without_resetting_the_count() {
    let mut manager = PingerManager::new();
    manager.register(monitor(1, 10)).unwrap();
    assert_eq!(manager.tick().len(), 1);
    assert!(manager.tick().is_empty());
    assert!(manager.tick().is_empty());
    assert_eq!(manager.update_pinger(monitor(1, 3)), Ok(()));
    assert_eq!(manager.tick().len(), 1);
    assert!(manager.tick().is_empty());
    assert!(manager.tick().is_empty());
    assert_eq!(manager.update_pinger(monitor(1, 100)), Ok(()));
    for _ in 0..97 {
        assert!(manager.tick().is_empty());
    }
    assert_eq!(manager.tick().len(), 1);
}

#[test]
fn update_replaces_the_definition_and_keeps_the_pause_state() {
    let mut manager = PingerManager::new();
    manager.register(monitor(1, 10)).unwrap();
    manager.set_paused(1, true).unwrap();
    let definition = Monitor {
        id: 1,
        name: String::from("renamed"),
        ip: String::from("example.org"),
        port: None,
        protocol: Protocol::HTTP,
        interval: 7,
        paused: false,
    };
    assert_eq!(manager.update_pinger(definition), Ok(()));
    let held = manager.get_monitor(1).unwrap();
    assert_eq!(held.name, "renamed");
    assert_eq!(held.address(), "http://example.org");
    assert_eq!(held.interval, 7);
    assert!(held.paused);
    assert!(manager.tick().is_empty());
}

#[test]
fn scheduler_starts_once() {
    let mut manager = PingerManager::new();
    assert!(!manager.is_started());
    assert!(manager.start());
    assert!(manager.is_started());
    assert!(!manager.start());
    assert!(manager.is_started());
}
