use paracord_gateway::supervisor::{
    livekit_config, BinaryLocation, StartAction, StartEvent, StartStage, Startup,
};

#[test]
fn config_without_external_ip() {
    assert_eq!(
        livekit_config("key", "secret", 7880, None),
        "port: 7880\nrtc:\n    use_external_ip: true\n    port_range_start: 7882\n    port_range_end: 7892\n    tcp_port: 7881\nkeys:\n    key: secret\nlogging:\n    level: info\n"
    );
}

#[test]
fn config_with_external_ip_pins_node_and_enables_turn() {
    assert_eq!(
        livekit_config("k", "s", 7880, Some("203.0.113.9")),
        "port: 7880\nrtc:\n    use_external_ip: true\n    node_ip: 203.0.113.9\n    port_range_start: 7882\n    port_range_end: 7892\n    tcp_port: 7881\nkeys:\n    k: s\nturn:\n    enabled: true\n    domain: 203.0.113.9\n    tls_port: 0\n    udp_port: 7881\n    external_tls: false\nlogging:\n    level: info\n"
    );
}

#[test]
fn port_already_answering_starts_nothing_and_removes_config() {
    let (mut s, a) = Startup::begin();
    assert_eq!(a, StartAction::Probe(BinaryLocation::ExeDir));
    assert_eq!(s.step(StartEvent::Probed { found: true }), StartAction::WriteConfig);
    assert_eq!(s.step(StartEvent::ConfigWritten { ok: true }), StartAction::CheckPort);
    assert!(s.config_on_disk);
    assert_eq!(s.step(StartEvent::PortChecked { answered: true }), StartAction::RemoveConfig);
    assert_eq!(s.step(StartEvent::ConfigRemoved), StartAction::Finish(false));
    assert!(!s.spawned);
    assert!(!s.config_on_disk);
}

#[test]
fn binary_locations_are_probed_in_order() {
    let (mut s, _) = Startup::begin();
    assert_eq!(s.step(StartEvent::Probed { found: false }), StartAction::Probe(BinaryLocation::ExeBinDir));
    assert_eq!(s.step(StartEvent::Probed { found: false }), StartAction::Probe(BinaryLocation::WorkingDir));
    assert_eq!(s.step(StartEvent::Probed { found: false }), StartAction::Probe(BinaryLocation::SearchPath));
    assert_eq!(s.step(StartEvent::Probed { found: false }), StartAction::Finish(false));
    assert_eq!(s.stage, StartStage::Finished(false));
}

#[test]
fn free_port_spawns_and_warms_up() {
    let (mut s, _) = Startup::begin();
    s.step(StartEvent::Probed { found: false });
    assert_eq!(s.step(StartEvent::Probed { found: true }), StartAction::WriteConfig);
    s.step(StartEvent::ConfigWritten { ok: true });
    assert_eq!(s.step(StartEvent::PortChecked { answered: false }), StartAction::Spawn);
    assert_eq!(s.step(StartEvent::Spawned { ok: true }), StartAction::WarmUp);
    assert_eq!(s.step(StartEvent::WarmedUp), StartAction::Finish(true));
    assert!(s.spawned && s.config_on_disk);
}

#[test]
fn failed_spawn_or_write_ends_without_backend() {
    let (mut s, _) = Startup::begin();
    s.step(StartEvent::Probed { found: true });
    s.step(StartEvent::ConfigWritten { ok: true });
    s.step(StartEvent::PortChecked { answered: false });
    assert_eq!(s.step(StartEvent::Spawned { ok: false }), StartAction::RemoveConfig);
    assert_eq!(s.step(StartEvent::ConfigRemoved), StartAction::Finish(false));

    let (mut s, _) = Startup::begin();
    s.step(StartEvent::Probed { found: true });
    assert_eq!(s.step(StartEvent::ConfigWritten { ok: false }), StartAction::Finish(false));
    assert!(!s.config_on_disk);
}
