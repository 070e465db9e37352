use firewall::decision_engine::{AnalysisResult, DockerEvent, EventAnalyzer};
use firewall::models::{
    analyze_triggers, calculate_risk, process_homologation, HomologationData, HomologationRequest,
};
use firewall::render::{
    analyze_packet, checksum_field, print_ascii_with_offsets, print_binary_analysis,
    print_multi_format, render_binary, render_decimal, render_hex, tcp_flags,
};
use firewall::report::{event_csv_record, excel_report_cells, generate_md_report, CellContent};
use firewall::requests::{
    dec_string, generate_get_request, generate_post_request, generate_udp_get_request,
    generate_udp_post_request, parse_udp_get, parse_udp_post,
};
use firewall::rules::{action_kind, rules, ActionKind};
use firewall::scan::{contains_bytes, eq_bytes, starts_with_bytes};

#[test]
fn dec_string_renders_decimals() {
    assert_eq!(dec_string(0), "0");
    assert_eq!(dec_string(7), "7");
    assert_eq!(dec_string(12345), "12345");
    assert_eq!(dec_string(u64::MAX), "18446744073709551615");
}

#[test]
fn get_request_has_the_full_header() {
    let r = generate_get_request("example.com", "/index.html");
    assert_eq!(
        r,
        "GET /index.html HTTP/1.1\r\nHost: example.com\r\nUser-Agent: Rust-TCP-Analyzer\r\nConnection: close\r\n\r\n"
    );
}

#[test]
fn post_request_announces_the_body_length() {
    let r = generate_post_request("example.com", "/submit", "a=1&b=22");
    assert_eq!(
        r,
        "POST /submit HTTP/1.1\r\nHost: example.com\r\nUser-Agent: Rust-TCP-Analyzer\r\nContent-Type: application/x-www-form-urlencoded\r\nContent-Length: 8\r\nConnection: close\r\n\r\na=1&b=22"
    );
}

#[test]
fn udp_get_request_frames_path_and_host() {
    let r = generate_udp_get_request("example.com", "/p");
    assert_eq!(r, b"GET/p\0example.com\0".to_vec());
}

#[test]
fn udp_post_request_frames_all_parts() {
    let r = generate_udp_post_request("h", "/p", "data");
    assert_eq!(r, b"POST/p\0h\0data".to_vec());
}

#[test]
fn udp_get_parses_back() {
    let (path, host) = parse_udp_get(b"GET/p\0example.com\0").unwrap();
    assert_eq!(path, b"/p".to_vec());
    assert_eq!(host, b"example.com".to_vec());
    assert!(parse_udp_get(b"POST/p\0h\0").is_none());
    assert!(parse_udp_get(b"GET-no-zero").is_none());
}

#[test]
fn udp_get_generated_packets_round_trip() {
    let packet = generate_udp_get_request("host.example", "/a/b");
    let (path, host) = parse_udp_get(&packet).unwrap();
    assert_eq!(path, b"/a/b".to_vec());
    assert_eq!(host, b"host.example".to_vec());
}

#[test]
fn udp_post_parses_back() {
    let (path, host, data) = parse_udp_post(b"POST/p\0h\0payload").unwrap();
    assert_eq!(path, b"/p".to_vec());
    assert_eq!(host, b"h".to_vec());
    assert_eq!(data, b"payload".to_vec());
    let (path, host, data) = parse_udp_post(b"POSTonly").unwrap();
    assert_eq!(path, b"only".to_vec());
    assert!(host.is_empty());
    assert!(data.is_empty());
    assert!(parse_udp_post(b"GET/p\0h\0x").is_none());
    assert!(parse_udp_post(b"POST").is_none());
}

#[test]
fn renderers_give_exact_views() {
    assert_eq!(
        render_hex(&[0xAB, 0x00]),
        "🔢 Hexadecimal:\n   AB 00 \n".as_bytes().to_vec()
    );
    assert_eq!(
        render_binary(&[0xAB]),
        "🔣 Binário:\n   10101011\n".as_bytes().to_vec()
    );
    assert_eq!(
        render_decimal(&[171, 5]),
        "🔢 Decimal:\n   Byte 0: 171\n   Byte 1: 5\n".as_bytes().to_vec()
    );
}

#[test]
fn hex_view_wraps_at_sixteen_bytes() {
    let data = [0u8; 17];
    let expected = format!("🔢 Hexadecimal:\n   {}\n   00 \n", "00 ".repeat(16));
    assert_eq!(render_hex(&data), expected.into_bytes());
}

#[test]
fn multi_format_shows_offset_hex_decimal_ascii() {
    let header = format!(
        "{:8}   {:32}   {:10}   {}\n{:-<8}   {:-<32}   {:-<10}   {:-<16}\n",
        "Offset", "Hexadecimal", "Decimal", "ASCII", "", "", "", ""
    );
    let expected = format!("{header}00000000   41 42   65 66   AB\n");
    assert_eq!(print_multi_format(b"AB"), expected.into_bytes());
}

#[test]
fn multi_format_of_empty_input_is_header_only() {
    let header = format!(
        "{:8}   {:32}   {:10}   {}\n{:-<8}   {:-<32}   {:-<10}   {:-<16}\n",
        "Offset", "Hexadecimal", "Decimal", "ASCII", "", "", "", ""
    );
    assert_eq!(print_multi_format(b""), header.into_bytes());
}

#[test]
fn ascii_offsets_shows_hex_and_ascii() {
    let header = format!(
        "{:8}   {:48}   {}\n{:-<8}   {:-<48}   {:-<16}\n",
        "Offset", "Hexadecimal", "ASCII", "", "", ""
    );
    let expected = format!("{header}00000000   48 69 01    Hi.\n");
    assert_eq!(print_ascii_with_offsets(b"Hi\x01"), expected.into_bytes());
}

#[test]
fn binary_analysis_lists_every_byte() {
    let header = format!(
        "{:8}   {:16}   {:8}   {:8}   {}\n{:-<8}   {:-<16}   {:-<8}   {:-<8}   {:-<16}\n",
        "Offset", "Binário", "Hex", "Decimal", "ASCII", "", "", "", "", ""
    );
    let expected = format!(
        "{header}00000000   01000001   41   65   A\n00000001   00000000   00   0   .\n"
    );
    assert_eq!(print_binary_analysis(b"A\x00"), expected.into_bytes());
}

#[test]
fn tcp_flags_break_out_of_the_flag_byte() {
    let f = tcp_flags(0b0001_0010);
    assert!(!f.urg && f.ack && !f.psh && !f.rst && f.syn && !f.fin);
}

#[test]
fn analyze_packet_reports_flags_and_payload() {
    let mut packet = vec![0u8; 13];
    packet.push(0b0001_0010);
    packet.extend_from_slice(&[0u8; 6]);
    packet.extend_from_slice(b"Hi");
    let title = format!("🔍 Análise Detalhada do Pacote (22 bytes)\n{}\n", "-".repeat(60));
    let flags = "🚩 Flags TCP:\n   URG: false\n   ACK: true\n   PSH: false\n   RST: false\n   SYN: true\n   FIN: false\n";
    let dump_header = format!(
        "\n📄 Dados HTTP:\n{:8}   {:48}   {}\n{:-<8}   {:-<48}   {:-<16}\n",
        "Offset", "Hexadecimal", "ASCII", "", "", ""
    );
    let expected = format!("{title}{flags}{dump_header}00000000   48 69    Hi\n");
    assert_eq!(analyze_packet(&packet), expected.into_bytes());
}

#[test]
fn analyze_packet_of_a_short_packet_is_title_only() {
    let expected = format!("🔍 Análise Detalhada do Pacote (4 bytes)\n{}\n", "-".repeat(60));
    assert_eq!(analyze_packet(b"tiny"), expected.into_bytes());
}

#[test]
fn checksum_field_reads_big_endian() {
    assert_eq!(checksum_field(&[0, 0, 0, 0, 0, 0, 0x12, 0x34]), Some(0x1234));
    assert_eq!(checksum_field(&[0; 7]), None);
}

#[test]
fn scan_primitives_search_bytes() {
    assert!(eq_bytes(b"abc", b"abc"));
    assert!(!eq_bytes(b"abc", b"abd"));
    assert!(starts_with_bytes(b"10.0.0.9", b"10.0.0."));
    assert!(contains_bytes(b"xxadminxx", b"admin"));
    assert!(!contains_bytes(b"xxadmixx", b"admin"));
    assert!(contains_bytes(b"anything", b""));
}

#[test]
fn risk_adds_protocol_keyword_and_source() {
    let request = HomologationRequest {
        packet_data: String::from("SELECT * FROM users"),
        protocol: String::from("TCP"),
        source_ip: String::from("10.0.0.5"),
    };
    assert_eq!(calculate_risk(&request), 90);
    let quiet = HomologationRequest {
        packet_data: String::from("hello"),
        protocol: String::from("UDP"),
        source_ip: String::from("192.168.0.1"),
    };
    assert_eq!(calculate_risk(&quiet), 0);
    let tcp_only = HomologationRequest {
        packet_data: String::from("hello"),
        protocol: String::from("TCP"),
        source_ip: String::from("192.168.0.1"),
    };
    assert_eq!(calculate_risk(&tcp_only), 30);
}

#[test]
fn homologation_triggers_and_decision() {
    let mut big = String::from("admin");
    big.push_str(&"x".repeat(1400));
    let request = HomologationRequest {
        packet_data: big,
        protocol: String::from("UDP"),
        source_ip: String::from("1.2.3.4"),
    };
    let (decision, triggers) = analyze_triggers(&request);
    assert_eq!(
        triggers,
        vec!["Pacote grande".to_string(), "Comando sensível em UDP".to_string()]
    );
    assert_eq!(decision, "Analisar manualmente");
    let quiet = HomologationRequest {
        packet_data: String::from("ok"),
        protocol: String::from("TCP"),
        source_ip: String::from("1.2.3.4"),
    };
    let (decision, triggers) = analyze_triggers(&quiet);
    assert!(triggers.is_empty());
    assert_eq!(decision, "Aceitar");
}

#[test]
fn homologation_store_keeps_results() {
    let request = HomologationRequest {
        packet_data: String::from("SELECT 1"),
        protocol: String::from("TCP"),
        source_ip: String::from("10.0.0.2"),
    };
    let result = process_homologation(request);
    assert_eq!(result.id, 1);
    assert_eq!(result.risk_score, 90);
    assert_eq!(result.decision, "Aceitar");
    assert!(result.triggers.is_empty());
    let mut store = HomologationData::new();
    store.add_result(result);
    let all = store.get_all();
    assert_eq!(all.len(), 1);
    assert_eq!(all[0].id, 1);
    assert_eq!(all[0].risk_score, 90);
    assert_eq!(all[0].request.protocol, "TCP");
}

#[test]
fn event_analyzer_matches_patterns_and_tracks_actors() {
    let mut engine = EventAnalyzer::new();
    let verdict = engine.analyze(DockerEvent {
        timestamp: String::from("1700000000"),
        action: String::from("exec_create"),
        actor_id: String::from("c1"),
    });
    assert_eq!(verdict.pattern_match.unwrap().name, "Execução em container");
    assert_eq!(verdict.risk_score, 10);
    assert!(verdict.recommended_actions.is_empty());
    let verdict = engine.analyze(DockerEvent {
        timestamp: String::from("1700000000"),
        action: String::from("ping"),
        actor_id: String::from("c1"),
    });
    assert!(verdict.pattern_match.is_none());
    assert_eq!(verdict.risk_score, 20);
}

#[test]
fn event_analyzer_recommendations_grow_with_risk() {
    let mut engine = EventAnalyzer::new();
    let mut last = None;
    for _ in 0..4 {
        last = Some(engine.analyze(DockerEvent {
            timestamp: String::from("1700000000"),
            action: String::from("destroy"),
            actor_id: String::from("noisy"),
        }));
    }
    let verdict = last.unwrap();
    assert_eq!(verdict.risk_score, 40);
    assert_eq!(verdict.recommended_actions, vec!["Analisar manualmente".to_string()]);
    let mut verdict = engine.analyze(DockerEvent {
        timestamp: String::from("1700000000"),
        action: String::from("destroy"),
        actor_id: String::from("noisy"),
    });
    for _ in 0..6 {
        verdict = engine.analyze(DockerEvent {
            timestamp: String::from("1700000000"),
            action: String::from("destroy"),
            actor_id: String::from("noisy"),
        });
    }
    assert_eq!(verdict.risk_score, 100);
    assert_eq!(
        verdict.recommended_actions,
        vec!["Isolar container".to_string(), "Notificar administrador".to_string()]
    );
    assert_eq!(engine.analyze(DockerEvent {
        timestamp: String::from("1700000000"),
        action: String::from("mount"),
        actor_id: String::from("fresh"),
    }).risk_score, 10);
}

#[test]
fn md_report_renders_summary_and_entries() {
    assert_eq!(
        generate_md_report(Vec::new()),
        "# Relatório de Ameaças Detectadas\n\n## Resumo Executivo\n- Total de eventos: 0\n\n## Análise Detalhada\n"
    );
    let result = AnalysisResult {
        event: DockerEvent { timestamp: String::from("1700000000"), action: String::from("destroy"), actor_id: String::from("c9") },
        pattern_match: None,
        risk_score: 20,
        recommended_actions: vec!["A".to_string(), "B".to_string()],
    };
    let report = generate_md_report(vec![result]);
    assert_eq!(
        report,
        "# Relatório de Ameaças Detectadas\n\n## Resumo Executivo\n- Total de eventos: 1\n\n## Análise Detalhada\n### Evento destroy\n- **Risco**: 20\n- **Ações**: A, B\n\n"
    );
}

#[test]
fn csv_record_joins_the_fields() {
    assert_eq!(
        event_csv_record(1700000000, "start", "c1", "{}"),
        "1700000000,start,c1,{}\n"
    );
}

#[test]
fn action_kind_classifies_rules() {
    let rule = |action: &str| rules {
        name: String::from("r"),
        action: String::from(action),
        direction: String::from("inbound"),
        protocol: String::from("tcp"),
        src_ip: None,
        dst_ip: None,
        dst_port: Some(80),
    };
    assert_eq!(action_kind(&rule("allow")), ActionKind::Allow);
    assert_eq!(action_kind(&rule("deny")), ActionKind::Deny);
    assert_eq!(action_kind(&rule("log")), ActionKind::Log);
    assert_eq!(action_kind(&rule("boom")), ActionKind::Unknown);
}

#[test]
fn excel_cells_lay_out_the_report() {
    let result = AnalysisResult {
        event: DockerEvent {
            timestamp: String::from("1700000000"),
            action: String::from("destroy"),
            actor_id: String::from("c9"),
        },
        pattern_match: None,
        risk_score: 20,
        recommended_actions: Vec::new(),
    };
    let cells = excel_report_cells(&vec![result]);
    assert_eq!(cells.len(), 6);
    assert_eq!(cells[0], (0, 0, CellContent::Text("Timestamp".to_string())));
    assert_eq!(cells[1], (0, 1, CellContent::Text("Ação".to_string())));
    assert_eq!(cells[2], (0, 2, CellContent::Text("Score de Risco".to_string())));
    assert_eq!(cells[3], (1, 0, CellContent::Text("1700000000".to_string())));
    assert_eq!(cells[4], (1, 1, CellContent::Text("destroy".to_string())));
    assert_eq!(cells[5], (1, 2, CellContent::Number(20)));
}
