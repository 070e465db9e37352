use firewall::analyzer::{AnalysisResult, ProtocolFilter, TrafficAnalyzer, Trigger, TriggerPredicate};
use firewall::dispatcher::{decide_flow, make_flow_record, ConnectionSession, ServerStats};
use firewall::dispatcher::{handle_packet, process_request};
use firewall::net::{Address, FlowMetadata, Protocol};
use firewall::policy::{ConfigError, Decision, PolicyError, PolicyStore};
use firewall::tunnel::{ActiveTunnel, RelayEvent, TunnelRegistry, TunnelState};

fn addr(last: u8, port: u16) -> Address {
    Address { o1: 10, o2: 0, o3: 0, o4: last, port }
}

fn meta(protocol: Protocol) -> FlowMetadata {
    FlowMetadata { protocol, src: addr(1, 40000), dst: addr(2, 8081) }
}

fn scenario_triggers() -> Vec<Trigger> {
    vec![
        Trigger {
            name: String::from("large-payload"),
            filter: ProtocolFilter::Any,
            predicate: TriggerPredicate::PayloadLengthOver(1024),
            weight: 40,
        },
        Trigger {
            name: String::from("sensitive-udp"),
            filter: ProtocolFilter::Only(Protocol::Udp),
            predicate: TriggerPredicate::PayloadContains(b"admin".to_vec()),
            weight: 30,
        },
    ]
}

fn scenario_policy() -> PolicyStore {
    PolicyStore::new(50, Some(80), Some(addr(7, 9000)), Some(addr(8, 9001))).unwrap()
}

fn payload_with_admin(len: usize) -> Vec<u8> {
    let mut p = vec![b'x'; len];
    p[100..105].copy_from_slice(b"admin");
    p
}

#[test]
fn scenario_udp_both_triggers_redirects() {
    let analyzer = TrafficAnalyzer::from_triggers(scenario_triggers()).unwrap();
    let policy = scenario_policy();
    let payload = payload_with_admin(1200);
    let result = analyzer.evaluate(&meta(Protocol::Udp), &payload);
    assert_eq!(result.risk_level, 70);
    assert_eq!(result.triggers, vec!["large-payload".to_string(), "sensitive-udp".to_string()]);
    let (decision, warning) = policy.decide(&result, Protocol::Udp);
    assert_eq!(decision, Decision::Redirect(addr(8, 9001)));
    assert!(warning.is_none());
}

#[test]
fn scenario_tcp_no_match_passes_through() {
    let analyzer = TrafficAnalyzer::from_triggers(scenario_triggers()).unwrap();
    let policy = scenario_policy();
    let payload = vec![b'x'; 500];
    let result = analyzer.evaluate(&meta(Protocol::Tcp), &payload);
    assert_eq!(result.risk_level, 0);
    assert!(result.triggers.is_empty());
    let (decision, warning) = policy.decide(&result, Protocol::Tcp);
    assert_eq!(decision, Decision::PassThrough);
    assert!(warning.is_none());
}

#[test]
fn scenario_udp_large_still_below_drop() {
    let analyzer = TrafficAnalyzer::from_triggers(scenario_triggers()).unwrap();
    let policy = scenario_policy();
    let payload = payload_with_admin(2000);
    let result = analyzer.evaluate(&meta(Protocol::Udp), &payload);
    assert_eq!(result.risk_level, 70);
    let (decision, _) = policy.decide(&result, Protocol::Udp);
    assert_eq!(decision, Decision::Redirect(addr(8, 9001)));
}

#[test]
fn evaluate_empty_trigger_list_scores_zero() {
    let analyzer = TrafficAnalyzer::new();
    let result = analyzer.evaluate(&meta(Protocol::Tcp), b"anything");
    assert_eq!(result.risk_level, 0);
    assert!(result.triggers.is_empty());
}

#[test]
fn evaluate_keeps_load_order_and_sums_all_matches() {
    let triggers = vec![
        Trigger {
            name: String::from("port-low"),
            filter: ProtocolFilter::Any,
            predicate: TriggerPredicate::PortInRange(8000, 9000),
            weight: 5,
        },
        Trigger {
            name: String::from("never"),
            filter: ProtocolFilter::Only(Protocol::Udp),
            predicate: TriggerPredicate::PayloadLengthOver(0),
            weight: 1000,
        },
        Trigger {
            name: String::from("is-tcp"),
            filter: ProtocolFilter::Any,
            predicate: TriggerPredicate::ProtocolEquals(Protocol::Tcp),
            weight: 7,
        },
    ];
    let analyzer = TrafficAnalyzer::from_triggers(triggers).unwrap();
    let result = analyzer.analyze_tcp(&meta(Protocol::Tcp), b"hi");
    assert_eq!(result.risk_level, 12);
    assert_eq!(result.triggers, vec!["port-low".to_string(), "is-tcp".to_string()]);
}

#[test]
fn from_triggers_rejects_weight_overflow() {
    let triggers = vec![
        Trigger {
            name: String::from("a"),
            filter: ProtocolFilter::Any,
            predicate: TriggerPredicate::PayloadLengthOver(0),
            weight: u64::MAX,
        },
        Trigger {
            name: String::from("b"),
            filter: ProtocolFilter::Any,
            predicate: TriggerPredicate::PayloadLengthOver(0),
            weight: 1,
        },
    ];
    match TrafficAnalyzer::from_triggers(triggers) {
        Err(e) => assert_eq!(e, ConfigError::WeightOverflow),
        Ok(_) => panic!("overweighted trigger list was accepted"),
    }
}

#[test]
fn should_redirect_is_inclusive_at_seventy_five() {
    let analyzer = TrafficAnalyzer::new();
    let at = AnalysisResult { risk_level: 75, triggers: Vec::new() };
    let below = AnalysisResult { risk_level: 74, triggers: Vec::new() };
    assert!(analyzer.should_redirect(&at));
    assert!(!analyzer.should_redirect(&below));
}

#[test]
fn decide_redirects_exactly_at_threshold() {
    let policy = PolicyStore::new(50, Some(80), Some(addr(7, 9000)), None).unwrap();
    let result = AnalysisResult { risk_level: 50, triggers: Vec::new() };
    let (decision, warning) = policy.decide(&result, Protocol::Tcp);
    assert_eq!(decision, Decision::Redirect(addr(7, 9000)));
    assert!(warning.is_none());
}

#[test]
fn decide_drop_takes_precedence() {
    let policy = PolicyStore::new(50, Some(80), Some(addr(7, 9000)), None).unwrap();
    let result = AnalysisResult { risk_level: 95, triggers: Vec::new() };
    let (decision, warning) = policy.decide(&result, Protocol::Tcp);
    assert_eq!(decision, Decision::Drop);
    assert!(warning.is_none());
}

#[test]
fn decide_drop_exactly_at_drop_threshold() {
    let policy = PolicyStore::new(50, Some(80), Some(addr(7, 9000)), None).unwrap();
    let result = AnalysisResult { risk_level: 80, triggers: Vec::new() };
    let (decision, _) = policy.decide(&result, Protocol::Tcp);
    assert_eq!(decision, Decision::Drop);
}

#[test]
fn decide_without_destination_degrades_to_pass_through() {
    let policy = PolicyStore::new(50, None, Some(addr(7, 9000)), None).unwrap();
    let result = AnalysisResult { risk_level: 60, triggers: Vec::new() };
    let (decision, warning) = policy.decide(&result, Protocol::Udp);
    assert_eq!(decision, Decision::PassThrough);
    assert_eq!(warning, Some(PolicyError::NoDestination));
}

#[test]
fn decide_below_threshold_passes_through() {
    let policy = scenario_policy();
    let result = AnalysisResult { risk_level: 49, triggers: Vec::new() };
    let (decision, warning) = policy.decide(&result, Protocol::Tcp);
    assert_eq!(decision, Decision::PassThrough);
    assert!(warning.is_none());
}

#[test]
fn policy_rejects_drop_below_redirect() {
    let err = PolicyStore::new(50, Some(49), None, None).unwrap_err();
    assert_eq!(err, ConfigError::DropBelowRedirect);
    assert!(PolicyStore::new(50, Some(50), None, None).is_ok());
}

#[test]
fn decide_flow_combines_scoring_and_policy() {
    let analyzer = TrafficAnalyzer::from_triggers(scenario_triggers()).unwrap();
    let policy = scenario_policy();
    let payload = payload_with_admin(1200);
    let verdict = decide_flow(&analyzer, &policy, &meta(Protocol::Udp), &payload);
    assert_eq!(verdict.result.risk_level, 70);
    assert_eq!(verdict.decision, Decision::Redirect(addr(8, 9001)));
    assert!(verdict.warning.is_none());
}

#[test]
fn evaluate_is_total_over_the_empty_payload() {
    let analyzer = TrafficAnalyzer::from_triggers(scenario_triggers()).unwrap();
    let result = analyzer.evaluate(&meta(Protocol::Udp), b"");
    assert_eq!(result.risk_level, 0);
    assert!(result.triggers.is_empty());
}

#[test]
fn flow_record_carries_the_verdict() {
    let analyzer = TrafficAnalyzer::from_triggers(scenario_triggers()).unwrap();
    let policy = scenario_policy();
    let m = meta(Protocol::Udp);
    let payload = payload_with_admin(1200);
    let verdict = decide_flow(&analyzer, &policy, &m, &payload);
    let decision = verdict.decision;
    let record = make_flow_record(m, verdict.result, decision, Some(12));
    assert_eq!(record.metadata, m);
    assert_eq!(record.risk_level, 70);
    assert_eq!(
        record.matched_trigger_names,
        vec!["large-payload".to_string(), "sensitive-udp".to_string()]
    );
    assert_eq!(record.decision, Decision::Redirect(addr(8, 9001)));
    assert_eq!(record.tunnel_id, Some(12));
}

#[test]
fn process_request_of_only_whitespace_is_unknown() {
    assert_eq!(
        process_request(b" \t\r\n"),
        "Comando não reconhecido: ''\n".as_bytes().to_vec()
    );
}

#[test]
fn tunnel_connect_failure_is_terminal() {
    let mut t = ActiveTunnel::connect(1, addr(1, 1), addr(2, 2), Protocol::Tcp, 0);
    assert_eq!(t.state, TunnelState::Connecting);
    t.step(RelayEvent::ConnectFailed);
    assert_eq!(t.state, TunnelState::Failed);
    t.step(RelayEvent::ConnectOk);
    assert_eq!(t.state, TunnelState::Failed);
}

#[test]
fn tunnel_abort_fails_a_relaying_tunnel() {
    let mut t = ActiveTunnel::connect(1, addr(1, 1), addr(2, 2), Protocol::Tcp, 0);
    t.step(RelayEvent::ConnectOk);
    assert_eq!(t.state, TunnelState::Relaying);
    t.step(RelayEvent::Abort);
    assert_eq!(t.state, TunnelState::Failed);
}

#[test]
fn tunnel_counts_bytes_in_both_directions() {
    let mut t = ActiveTunnel::connect(3, addr(1, 1), addr(2, 2), Protocol::Tcp, 0);
    t.step(RelayEvent::ConnectOk);
    t.step(RelayEvent::DataC2D(5));
    t.step(RelayEvent::DataC2D(7));
    t.step(RelayEvent::DataD2C(3));
    t.step(RelayEvent::EofC2D);
    t.step(RelayEvent::EofD2C);
    assert_eq!(t.state, TunnelState::Closed);
    assert_eq!(t.bytes_c2d, 12);
    assert_eq!(t.bytes_d2c, 3);
}

#[test]
fn tunnel_half_close_keeps_destination_stream() {
    let mut t = ActiveTunnel::connect(4, addr(1, 1), addr(2, 2), Protocol::Tcp, 0);
    t.step(RelayEvent::ConnectOk);
    t.step(RelayEvent::DataC2D(10));
    t.step(RelayEvent::EofC2D);
    assert_eq!(t.state, TunnelState::Closing);
    assert!(t.d2c_open);
    t.step(RelayEvent::DataD2C(100));
    t.step(RelayEvent::DataD2C(23));
    assert_eq!(t.bytes_d2c, 123);
    assert_eq!(t.state, TunnelState::Closing);
    t.step(RelayEvent::EofD2C);
    assert_eq!(t.state, TunnelState::Closed);
    assert_eq!(t.bytes_c2d, 10);
    assert_eq!(t.bytes_d2c, 123);
}

#[test]
fn tunnel_ignores_data_on_closed_direction() {
    let mut t = ActiveTunnel::connect(5, addr(1, 1), addr(2, 2), Protocol::Tcp, 0);
    t.step(RelayEvent::ConnectOk);
    t.step(RelayEvent::EofC2D);
    t.step(RelayEvent::DataC2D(99));
    assert_eq!(t.bytes_c2d, 0);
}

#[test]
fn registry_holds_only_live_tunnels() {
    let mut reg = TunnelRegistry::new();
    let id = reg.register(addr(1, 1), addr(2, 2), Protocol::Tcp, 1700000000).unwrap();
    assert_eq!(id, 1);
    assert_eq!(reg.count(), 1);
    assert!(reg.apply(id, RelayEvent::ConnectOk).is_none());
    assert!(reg.apply(id, RelayEvent::DataC2D(8)).is_none());
    assert!(reg.apply(id, RelayEvent::EofC2D).is_none());
    assert_eq!(reg.count(), 1);
    let record = reg.apply(id, RelayEvent::EofD2C).unwrap();
    assert_eq!(record.state, TunnelState::Closed);
    assert_eq!(record.bytes_c2d, 8);
    assert_eq!(record.tunnel.id, 1);
    assert_eq!(record.tunnel.created_at, 1700000000);
    assert_eq!(reg.count(), 0);
}

#[test]
fn registry_removes_failed_connects_and_keeps_ids_fresh() {
    let mut reg = TunnelRegistry::new();
    let a = reg.register(addr(1, 1), addr(2, 2), Protocol::Tcp, 0).unwrap();
    let record = reg.apply(a, RelayEvent::ConnectFailed).unwrap();
    assert_eq!(record.state, TunnelState::Failed);
    assert_eq!(reg.count(), 0);
    let b = reg.register(addr(1, 1), addr(2, 2), Protocol::Udp, 0).unwrap();
    assert_ne!(a, b);
    assert!(reg.apply(999, RelayEvent::ConnectOk).is_none());
    assert_eq!(reg.count(), 1);
}

#[test]
fn process_request_answers_ping_and_stats() {
    assert_eq!(process_request(b"PING"), b"PONG\n".to_vec());
    assert_eq!(process_request(b"  PING \r\n"), b"PONG\n".to_vec());
    assert_eq!(
        process_request(b"STATS"),
        "Servidor em operação\n".as_bytes().to_vec()
    );
}

#[test]
fn process_request_time_is_clock_shaped() {
    let r = process_request(b"TIME\n");
    assert_eq!(r.len(), 9);
    assert_eq!(r[8], b'\n');
    assert_eq!(r[2], b':');
    assert_eq!(r[5], b':');
}

#[test]
fn process_request_echoes_unknown_commands() {
    assert_eq!(
        process_request(b" fly \n"),
        "Comando não reconhecido: 'fly'\n".as_bytes().to_vec()
    );
}

#[test]
fn handle_packet_answers_datagrams() {
    assert_eq!(handle_packet(b"PING"), b"PONG".to_vec());
    assert_eq!(handle_packet(b"TIME").len(), 8);
    assert_eq!(handle_packet(b"hello"), b"Oi, UDP! (resposta padrao)".to_vec());
    assert_eq!(handle_packet(b" PING"), b"Oi, UDP! (resposta padrao)".to_vec());
}

#[test]
fn session_records_history_and_stats() {
    let mut session = ConnectionSession::new(7);
    let mut stats = ServerStats::new();
    let first = session.handle_chunk(&mut stats, b"PING");
    let second = session.handle_chunk(&mut stats, b"what");
    assert_eq!(first, b"PONG\n".to_vec());
    assert_eq!(second, "Comando não reconhecido: 'what'\n".as_bytes().to_vec());
    assert_eq!(session.conn_id, 7);
    assert_eq!(session.request_history, vec![b"PING".to_vec(), b"what".to_vec()]);
    assert_eq!(stats.requests, 2);
    assert_eq!(stats.bytes_received, 8);
}

#[test]
fn stats_counters_saturate() {
    let mut stats = ServerStats {
        connections: u64::MAX,
        requests: 0,
        bytes_received: u64::MAX - 1,
        packets: 0,
    };
    stats.record_connection();
    stats.record_packet(10);
    assert_eq!(stats.connections, u64::MAX);
    assert_eq!(stats.bytes_received, u64::MAX);
    assert_eq!(stats.packets, 1);
    let snap = stats.snapshot();
    assert_eq!(snap, stats);
}
