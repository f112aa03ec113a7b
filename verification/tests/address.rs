use uptime_rs::monitor::{Monitor, Protocol};

fn sample(port: Option<i64>, protocol: Protocol) -> Monitor {
    Monitor {
        id: 7,
        name: String::from("api"),
        ip: String::from("example.com"),
        port,
        protocol,
        interval: 5,
        paused: false,
    }
}

#[test]
fn hostname_with_port() {
    assert_eq!(sample(Some(443), Protocol::HTTPS).hostname(), "example.com:443");
}

#[test]
fn hostname_without_port() {
    assert_eq!(sample(None, Protocol::HTTP).hostname(), "example.com");
}

#[test]
fn address_with_port() {
    assert_eq!(sample(Some(443), Protocol::HTTPS).address(), "https://example.com:443");
    assert_eq!(sample(Some(8080), Protocol::HTTP).address(), "http://example.com:8080");
}

#[test]
fn address_without_port() {
    assert_eq!(sample(None, Protocol::HTTP).address(), "http://example.com");
}

#[test]
fn address_with_extreme_ports() {
    assert_eq!(sample(Some(0), Protocol::HTTP).address(), "http://example.com:0");
    assert_eq!(sample(Some(-5), Protocol::HTTP).address(), "http://example.com:-5");
    assert_eq!(
        sample(Some(i64::MAX), Protocol::HTTP).address(),
        "http://example.com:9223372036854775807"
    );
    assert_eq!(
        sample(Some(i64::MIN), Protocol::HTTP).address(),
        "http://example.com:-9223372036854775808"
    );
}

#[test]
fn protocol_text() {
    assert_eq!(Protocol::HTTP.to_string(), "http");
    assert_eq!(Protocol::HTTPS.to_string(), "https");
    assert_eq!(Protocol::HTTPS.as_str(), "https");
}
