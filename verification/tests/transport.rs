use drone_control::arbiter::Command;
use drone_control::heartbeat::{create_heartbeat, Heartbeat, CTRL_LAUNCH, DEFAULT_CTRL_BITS};
use drone_control::transport::{
    latest_request, Transmission, TransportLoop, AUXILIARY_INTERVAL, AUXILIARY_KEEPALIVE,
};

fn launch() -> Heartbeat {
    create_heartbeat([0x80, 0x80, 0x80, 0x80, CTRL_LAUNCH])
}

#[test]
fn auxiliary_keepalive_bytes() {
    assert_eq!(AUXILIARY_KEEPALIVE, [0x01, 0x01]);
    assert_eq!(AUXILIARY_INTERVAL, 1000);
}

#[test]
fn launch_for_two_seconds_then_standby() {
    let standby: Heartbeat = [0x03, 0x66, 0x80, 0x80, 0x80, 0x80, 0x00, 0x00, 0x99];
    assert_eq!(create_heartbeat(DEFAULT_CTRL_BITS), standby);
    let mut transport = TransportLoop::new(standby, 0);
    let mut auxiliary_at: Vec<u64> = Vec::new();
    let mut now: u64 = 0;
    while now <= 3000 {
        let request = if now == 0 {
            Some(Command { payload: launch(), duration: 2000, priority: 5 })
        } else {
            None
        };
        let sent = transport.tick(true, request, now).unwrap();
        if now < 2000 {
            assert_eq!(sent.payload, launch(), "at {}", now);
            assert_eq!(sent.payload, [0x03, 0x66, 0x80, 0x80, 0x80, 0x80, 0x01, 0x01, 0x99]);
        } else {
            assert_eq!(sent.payload, standby, "at {}", now);
        }
        if sent.auxiliary {
            auxiliary_at.push(now);
        }
        now += 100;
    }
    assert_eq!(auxiliary_at, vec![1000, 2000, 3000]);
}

#[test]
fn auxiliary_timer_restarts_from_the_send() {
    let standby = create_heartbeat(DEFAULT_CTRL_BITS);
    let mut transport = TransportLoop::new(standby, 50);
    assert!(!transport.tick(true, None, 50).unwrap().auxiliary);
    assert!(!transport.tick(true, None, 1049).unwrap().auxiliary);
    assert!(transport.tick(true, None, 1130).unwrap().auxiliary);
    assert!(!transport.tick(true, None, 2129).unwrap().auxiliary);
    assert!(transport.tick(true, None, 2130).unwrap().auxiliary);
}

#[test]
fn auxiliary_waits_when_the_clock_goes_backwards() {
    let standby = create_heartbeat(DEFAULT_CTRL_BITS);
    let mut transport = TransportLoop::new(standby, 5000);
    assert!(!transport.tick(true, None, 100).unwrap().auxiliary);
    assert!(!transport.tick(true, None, 5999).unwrap().auxiliary);
    assert!(transport.tick(true, None, 6000).unwrap().auxiliary);
}

#[test]
fn nothing_is_sent_once_the_flag_is_down() {
    let standby = create_heartbeat(DEFAULT_CTRL_BITS);
    let mut transport = TransportLoop::new(standby, 0);
    let request = Command { payload: launch(), duration: 2000, priority: 5 };
    assert_eq!(transport.tick(false, Some(request), 5000), None);
    assert_eq!(transport.arbiter().active(), None);
    assert_eq!(
        transport.tick(true, None, 100),
        Some(Transmission { payload: standby, auxiliary: false })
    );
    assert!(transport.tick(true, None, 1000).unwrap().auxiliary);
}

#[test]
fn tick_reports_payload_and_auxiliary_together() {
    let standby = create_heartbeat(DEFAULT_CTRL_BITS);
    let mut transport = TransportLoop::new(standby, 0);
    let request = Command { payload: launch(), duration: 500, priority: 1 };
    assert_eq!(
        transport.tick(true, Some(request), 1000),
        Some(Transmission { payload: launch(), auxiliary: true })
    );
    assert_eq!(transport.arbiter().current_payload(), launch());
    assert_eq!(
        transport.tick(true, None, 1500),
        Some(Transmission { payload: standby, auxiliary: false })
    );
}

#[test]
fn pending_requests_collapse_to_the_latest() {
    let first = Command { payload: launch(), duration: 1, priority: 9 };
    let second = Command { payload: create_heartbeat([1, 2, 3, 4, 5]), duration: 2, priority: 1 };
    assert_eq!(latest_request(&vec![]), None);
    assert_eq!(latest_request(&vec![first]), Some(first));
    assert_eq!(latest_request(&vec![first, second]), Some(second));
    assert_eq!(latest_request(&vec![second, first, first]), Some(first));
}
