use uptime_rs::history::{MonitorPing, ToBool, DURATION_MS_MAX, STATUS_SENTINEL, UP_STATUS_LIMIT};
use uptime_rs::monitor::{Monitor, Protocol};
use uptime_rs::probe::PingResponse;
use uptime_rs::utils::{gen_id, ID_LIMIT, ID_MIN};

fn monitor(id: i64) -> Monitor {
    Monitor {
        id,
        name: String::from("api"),
        ip: String::from("example.com"),
        port: None,
        protocol: Protocol::HTTP,
        interval: 5,
        paused: false,
    }
}

#[test]
fn success_is_the_2xx_class() {
    assert!(PingResponse::from_status(200, 1).is_alive);
    assert!(PingResponse::from_status(204, 1).is_alive);
    assert!(PingResponse::from_status(299, 1).is_alive);
    assert!(!PingResponse::from_status(199, 1).is_alive);
    assert!(!PingResponse::from_status(300, 1).is_alive);
    assert!(!PingResponse::from_status(404, 1).is_alive);
    assert!(!PingResponse::from_status(500, 1).is_alive);
    assert!(!PingResponse::from_status(0, 1).is_alive);
    assert!(!PingResponse::from_status(u16::MAX, 1).is_alive);
}

#[test]
fn response_keeps_status_and_duration() {
    let response = PingResponse::from_status(404, 37);
    assert_eq!(response.status, Some(404));
    assert_eq!(response.duration_ms, 37);
}

#[test]
fn transport_failure_has_no_status() {
    let response = PingResponse::unreachable(5000);
    assert_eq!(response, PingResponse { is_alive: false, status: None, duration_ms: 5000 });
}

#[test]
fn record_of_a_good_probe() {
    let response = PingResponse::from_status(200, 120);
    let ping = MonitorPing::from_response(4242, 7, String::from("2024-05-01T10:00:00+00:00"), &response);
    assert_eq!(ping.id, 4242);
    assert_eq!(ping.monitor_id, 7);
    assert_eq!(ping.timestamp, "2024-05-01T10:00:00+00:00");
    assert_eq!(ping.status, 200);
    assert_eq!(ping.duration_ms, 120);
    assert!(!ping.bad);
}

#[test]
fn record_of_a_refused_request_keeps_its_status() {
    let response = PingResponse::from_status(503, 80);
    let ping = MonitorPing::from_response(1, 7, String::new(), &response);
    assert_eq!(ping.status, 503);
    assert!(ping.bad);
    assert_eq!(ping.duration_ms, 80);
}

#[test]
fn record_of_a_transport_failure_carries_the_sentinel() {
    let response = PingResponse::unreachable(30_000);
    let ping = MonitorPing::from_response(1, 7, String::new(), &response);
    assert_eq!(ping.status, STATUS_SENTINEL);
    assert_eq!(STATUS_SENTINEL, 200);
    assert!(ping.bad);
    assert_eq!(ping.duration_ms, 30_000);
}

#[test]
fn record_duration_saturates() {
    let at_limit = PingResponse::unreachable(i64::MAX as u128);
    assert_eq!(MonitorPing::from_response(1, 7, String::new(), &at_limit).duration_ms, i64::MAX);
    let beyond = PingResponse::unreachable(i64::MAX as u128 + 1);
    assert_eq!(MonitorPing::from_response(1, 7, String::new(), &beyond).duration_ms, DURATION_MS_MAX);
    let far_beyond = PingResponse::unreachable(u128::MAX);
    assert_eq!(MonitorPing::from_response(1, 7, String::new(), &far_beyond).duration_ms, i64::MAX);
    let zero = PingResponse::from_status(200, 0);
    assert_eq!(MonitorPing::from_response(1, 7, String::new(), &zero).duration_ms, 0);
}

#[test]
fn record_draws_identifier_and_time() {
    let response = PingResponse::from_status(200, 15);
    let ping = MonitorPing::record(&monitor(31), &response);
    assert!(ID_MIN <= ping.id && ping.id < ID_LIMIT);
    assert_eq!(ping.monitor_id, 31);
    assert_eq!(ping.status, 200);
    assert_eq!(ping.duration_ms, 15);
    assert!(!ping.bad);
    assert!(ping.timestamp.len() >= 20);
    assert_eq!(&ping.timestamp[4..5], "-");
    assert_eq!(&ping.timestamp[10..11], "T");
    assert!(ping.timestamp.ends_with("+00:00"));
}

#[test]
fn identifiers_lie_in_their_range_and_vary() {
    assert_eq!(ID_MIN, 1000);
    assert_eq!(ID_LIMIT, 9999);
    let first = gen_id();
    let mut varied = false;
    for _ in 0..500 {
        let id = gen_id();
        assert!(1000 <= id && id < 9999);
        if id != first {
            varied = true;
        }
    }
    assert!(varied);
}

#[test]
fn flags_convert() {
    assert!(!0i64.to_bool());
    assert!(1i64.to_bool());
}

#[test]
fn row_becomes_record() {
    let ping = MonitorPing::from_row(5, 7, String::from("t"), 404, 12, 1);
    assert_eq!(ping.id, 5);
    assert_eq!(ping.monitor_id, 7);
    assert_eq!(ping.timestamp, "t");
    assert_eq!(ping.status, 404);
    assert_eq!(ping.duration_ms, 12);
    assert!(ping.bad);
    assert!(!MonitorPing::from_row(5, 7, String::from("t"), 200, 12, 0).bad);
}

#[test]
fn row_becomes_monitor() {
    let monitor = Monitor::from_row(3, String::from("api"), String::from("example.com"), Some(80), 60, 1);
    assert_eq!(monitor.id, 3);
    assert_eq!(monitor.name, "api");
    assert_eq!(monitor.ip, "example.com");
    assert_eq!(monitor.port, Some(80));
    assert_eq!(monitor.protocol, Protocol::HTTP);
    assert_eq!(monitor.interval, 60);
    assert!(monitor.paused);
    assert!(!Monitor::from_row(3, String::new(), String::new(), None, 60, 0).paused);
}

#[test]
fn up_needs_a_good_probe_and_a_low_status() {
    assert_eq!(UP_STATUS_LIMIT, 400);
    let record = |status: u16, bad: bool| MonitorPing::from_row(1, 1, String::new(), status, 1, i64::from(bad));
    assert!(record(200, false).is_up());
    assert!(record(400, false).is_up());
    assert!(!record(401, false).is_up());
    assert!(!record(200, true).is_up());
}

#[test]
fn copies_are_equal() {
    let ping = MonitorPing::from_row(5, 7, String::from("t"), 404, 12, 1);
    let copy = ping.clone();
    assert_eq!(copy.id, 5);
    assert_eq!(copy.timestamp, "t");
    assert_eq!(copy.status, 404);
    let first = monitor(9);
    let copy = first.clone();
    assert_eq!(copy.id, 9);
    assert_eq!(copy.name, first.name);
    assert_eq!(copy.address(), first.address());
}
