use esp32_mqtt_bridge::config::Config;
use esp32_mqtt_bridge::control::{BridgeError, Controller, LoopEvent, LoopPhase, LoopStep};
use esp32_mqtt_bridge::messaging::{client_id, heartbeat, DrainStep, EventDrain, PublishError, QoS};
use esp32_mqtt_bridge::serial::{SerialBridge, SerialError, BAUD_RATE, SCRATCH_LEN};
use esp32_mqtt_bridge::wifi::{
    connect_wifi, ConfigError, ConnectError, Stage, WifiPhase, WifiStep, PSK_CAPACITY,
    PSK_MAX_LEN, SSID_CAPACITY,
};

fn assert_heartbeat(step: &LoopStep) {
    match step {
        LoopStep::Publish(p) => {
            assert_eq!(p.topic, "esp32/bridge/status");
            assert_eq!(p.payload, "Hello from ESP32!");
            assert_eq!(p.qos, QoS::AtLeastOnce);
            assert!(!p.retain);
        }
        other => panic!("expected a publication, got {:?}", other),
    }
}

fn reading_controller() -> Controller {
    let (mut c, first) = Controller::start();
    assert_heartbeat(&first);
    match c.step(LoopEvent::Published(Ok(()))) {
        LoopStep::Read { timeout_ms, capacity } => {
            assert_eq!(timeout_ms, 100);
            assert_eq!(capacity, 256);
        }
        other => panic!("expected a read, got {:?}", other),
    }
    assert_eq!(c.phase, LoopPhase::Reading);
    c
}

#[test]
fn connect_then_first_heartbeat() {
    let cfg = Config::new(
        "home-network".to_string(),
        "secret123".to_string(),
        "mqtt://10.0.0.5".to_string(),
    );
    assert_eq!(cfg.mqtt_url(), "mqtt://10.0.0.5");
    let (mut session, _conf) = connect_wifi(cfg.wifi_ssid(), cfg.wifi_psk()).unwrap();
    assert_eq!(session.phase, WifiPhase::Configuring);
    assert_eq!(session.advance(Ok(())), WifiStep::Start);
    assert_eq!(session.advance(Ok(())), WifiStep::Connect);
    assert_eq!(session.advance(Ok(())), WifiStep::WaitNetifUp);
    assert_eq!(session.advance(Ok(())), WifiStep::Ready);
    assert_eq!(session.phase, WifiPhase::AddressAcquired);
    assert!(!session.is_pending());
    let (c, first) = Controller::start();
    assert_eq!(c.phase, LoopPhase::Publishing);
    assert_heartbeat(&first);
}

#[test]
fn idle_read_sleeps_then_publishes() {
    let mut c = reading_controller();
    match c.step(LoopEvent::Received(Ok(Vec::new()))) {
        LoopStep::Sleep { secs } => assert_eq!(secs, 5),
        other => panic!("expected a sleep, got {:?}", other),
    }
    assert_eq!(c.phase, LoopPhase::Sleeping);
    let next = c.step(LoopEvent::Slept);
    assert_heartbeat(&next);
    assert_eq!(c.phase, LoopPhase::Publishing);
}

#[test]
fn three_bytes_echoed() {
    let mut c = reading_controller();
    match c.step(LoopEvent::Received(Ok(vec![0x41, 0x42, 0x43]))) {
        LoopStep::Write(w) => assert_eq!(w, vec![0x41, 0x42, 0x43]),
        other => panic!("expected a write, got {:?}", other),
    }
    assert_eq!(c.serial.count(), 3);
    assert_eq!(c.serial.echo(), vec![0x41, 0x42, 0x43]);
    assert_eq!(c.phase, LoopPhase::Writing);
    let next = c.step(LoopEvent::Written(Ok(())));
    assert_heartbeat(&next);
}

#[test]
fn oversized_credential_rejected() {
    let long = "k".repeat(130);
    assert_eq!(
        connect_wifi("home-network", &long).err(),
        Some(ConnectError::Config(ConfigError::PasswordTooLong))
    );
    assert_eq!(
        connect_wifi(&long, "secret123").err(),
        Some(ConnectError::Config(ConfigError::SsidTooLong))
    );
}

#[test]
fn credential_bounds_are_in_bytes() {
    assert_eq!(SSID_CAPACITY, 32);
    assert_eq!(PSK_CAPACITY, 64);
    assert_eq!(PSK_MAX_LEN, 63);
    assert!(connect_wifi(&"s".repeat(32), &"p".repeat(63)).is_ok());
    assert_eq!(
        connect_wifi(&"s".repeat(32), &"p".repeat(64)).err(),
        Some(ConnectError::Config(ConfigError::PasswordTooLong))
    );
    assert_eq!(
        connect_wifi(&"s".repeat(33), &"p".repeat(64)).err(),
        Some(ConnectError::Config(ConfigError::SsidTooLong))
    );
    assert_eq!(
        connect_wifi(&"s".repeat(33), "pw").err(),
        Some(ConnectError::Config(ConfigError::SsidTooLong))
    );
    assert_eq!(
        connect_wifi("net", &"p".repeat(65)).err(),
        Some(ConnectError::Config(ConfigError::PasswordTooLong))
    );
    // seventeen two-byte characters: 34 bytes
    assert_eq!(
        connect_wifi(&"\u{e9}".repeat(17), "pw").err(),
        Some(ConnectError::Config(ConfigError::SsidTooLong))
    );
    assert!(connect_wifi("", "").is_ok());
}

#[test]
fn ssid_checked_before_password() {
    assert_eq!(
        connect_wifi(&"s".repeat(40), &"p".repeat(80)).err(),
        Some(ConnectError::Config(ConfigError::SsidTooLong))
    );
}

#[test]
fn link_failure_reports_its_stage() {
    let stages = [Stage::Configure, Stage::Start, Stage::Associate, Stage::AcquireAddress];
    for (k, stage) in stages.iter().enumerate() {
        let (mut session, _conf) = connect_wifi("home-network", "secret123").unwrap();
        for _ in 0..k {
            session.advance(Ok(()));
        }
        let code = 0x3000 + k as i32;
        assert_eq!(session.advance(Err(code)), WifiStep::Abort(ConnectError::Link(*stage, code)));
        assert_eq!(session.phase, WifiPhase::Failed);
        assert!(!session.is_pending());
    }
}

#[test]
fn publish_failure_halts() {
    let (mut c, _) = Controller::start();
    match c.step(LoopEvent::Published(Err(PublishError { code: -1 }))) {
        LoopStep::Halt(e) => assert_eq!(e, BridgeError::Publish(PublishError { code: -1 })),
        other => panic!("expected a halt, got {:?}", other),
    }
    assert_eq!(c.phase, LoopPhase::Halted);
    assert!(!c.awaits(&LoopEvent::Slept));
}

#[test]
fn serial_failures_halt() {
    let mut c = reading_controller();
    match c.step(LoopEvent::Received(Err(SerialError { code: 263 }))) {
        LoopStep::Halt(e) => assert_eq!(e, BridgeError::Serial(SerialError { code: 263 })),
        other => panic!("expected a halt, got {:?}", other),
    }
    let mut c = reading_controller();
    c.step(LoopEvent::Received(Ok(vec![7])));
    match c.step(LoopEvent::Written(Err(SerialError { code: 5 }))) {
        LoopStep::Halt(e) => assert_eq!(e, BridgeError::Serial(SerialError { code: 5 })),
        other => panic!("expected a halt, got {:?}", other),
    }
    assert_eq!(c.phase, LoopPhase::Halted);
}

#[test]
fn full_buffer_round_trip() {
    let mut c = reading_controller();
    let data: Vec<u8> = (0..SCRATCH_LEN).map(|i| (i % 251) as u8).collect();
    match c.step(LoopEvent::Received(Ok(data.clone()))) {
        LoopStep::Write(w) => assert_eq!(w, data),
        other => panic!("expected a write, got {:?}", other),
    }
}

#[test]
fn oversized_chunk_is_cut_to_buffer() {
    let mut c = reading_controller();
    let data: Vec<u8> = (0..300u32).map(|i| (i % 256) as u8).collect();
    match c.step(LoopEvent::Received(Ok(data.clone()))) {
        LoopStep::Write(w) => assert_eq!(w, data[..256].to_vec()),
        other => panic!("expected a write, got {:?}", other),
    }
    assert_eq!(c.serial.count(), 256);
}

#[test]
fn scratch_buffer_is_overwritten() {
    let mut b = SerialBridge::new();
    assert_eq!(b.count(), 0);
    assert!(b.echo().is_empty());
    assert_eq!(b.receive(&[1, 2, 3]), 3);
    assert_eq!(b.receive(&[9]), 1);
    assert_eq!(b.echo(), vec![9]);
    assert_eq!(BAUD_RATE, 9600);
}

#[test]
fn heartbeats_repeat_identically() {
    let a = heartbeat();
    let b = heartbeat();
    assert_eq!(a.topic, b.topic);
    assert_eq!(a.payload, b.payload);
    assert_eq!(a.qos, b.qos);
    assert_eq!(a.retain, b.retain);
    let mut c = reading_controller();
    c.step(LoopEvent::Received(Ok(Vec::new())));
    let again = c.step(LoopEvent::Slept);
    assert_heartbeat(&again);
    assert_eq!(client_id(), "esp32-bridge");
}

#[test]
fn controller_awaits_matching_event() {
    let (c, _) = Controller::start();
    assert!(c.awaits(&LoopEvent::Published(Ok(()))));
    assert!(!c.awaits(&LoopEvent::Slept));
    assert!(!c.awaits(&LoopEvent::Received(Ok(Vec::new()))));
}

#[test]
fn drain_stops_for_good() {
    let mut d = EventDrain::new();
    assert_eq!(d.pulled(true), DrainStep::Record);
    assert_eq!(d.pulled(true), DrainStep::Record);
    assert_eq!(d.pulled(false), DrainStep::Stop);
    assert_eq!(d.pulled(true), DrainStep::Stop);
    assert!(!d.open);
}
