//! Health aggregator scenarios: filtering, classification, idempotence, the
//! end-to-end report, and the text helpers behind them.

use titan_cli::{
    check_all, classify, default_registry, render_report, status_indicator, str_contains_ci,
    str_eq_ci, summarize, summary_line, u64_to_dec, HealthResult, Outcome, ProbeOutcome,
    ServiceDescriptor,
};

fn outcome_parts(outcome: &Outcome) -> (bool, String) {
    match outcome {
        Outcome::Online { detail } => (true, detail.clone()),
        Outcome::Offline { reason } => (false, reason.clone()),
    }
}

fn result_parts(results: &[HealthResult]) -> Vec<(String, bool, String)> {
    results
        .iter()
        .map(|r| {
            let (online, text) = outcome_parts(&r.outcome);
            (r.service.name.clone(), online, text)
        })
        .collect()
}

#[test]
fn test_filter_selects_matching_names_in_order() {
    let registry = default_registry();
    let probes = vec![ProbeOutcome::Status(200); 5];

    let all = check_all(&registry, &None, &probes);
    let names: Vec<String> = all.iter().map(|r| r.service.name.clone()).collect();
    assert_eq!(names, vec!["CERBERUS", "KRONOS", "HERMES", "VORTEX", "OPTICUS"]);

    let some = check_all(&registry, &Some("RO".to_string()), &probes);
    let names: Vec<String> = some.iter().map(|r| r.service.name.clone()).collect();
    assert_eq!(names, vec!["KRONOS"]);

    let none = check_all(&registry, &Some("nothing".to_string()), &probes);
    assert!(none.is_empty());
}

#[test]
fn test_filter_vor_matches_vortex_once() {
    let registry = default_registry();
    let probes = vec![ProbeOutcome::Status(200); 5];
    let results = check_all(&registry, &Some("vor".to_string()), &probes);
    assert_eq!(results.len(), 1);
    assert_eq!(results[0].service.name, "VORTEX");
}

#[test]
fn test_status_200_is_online_for_every_entry() {
    let registry = default_registry();
    let probes = vec![ProbeOutcome::Status(200); 5];
    let results = check_all(&registry, &None, &probes);
    assert_eq!(results.len(), 5);
    for r in &results {
        let (online, detail) = outcome_parts(&r.outcome);
        assert!(online);
        assert_eq!(detail, "healthy");
    }
}

#[test]
fn test_transport_failure_is_connection_refused_for_every_entry() {
    let registry = default_registry();
    let probes = vec![ProbeOutcome::TransportFailure; 5];
    let results = check_all(&registry, &None, &probes);
    assert_eq!(results.len(), 5);
    for r in &results {
        let (online, reason) = outcome_parts(&r.outcome);
        assert!(!online);
        assert_eq!(reason, "connection refused");
    }
}

#[test]
fn test_status_503_reason_names_the_code() {
    let outcome = classify(ProbeOutcome::Status(503));
    let (online, reason) = outcome_parts(&outcome);
    assert!(!online);
    assert!(reason.contains("503"));
    assert_eq!(reason, "unhealthy: 503");
}

#[test]
fn test_classification_boundaries() {
    assert_eq!(outcome_parts(&classify(ProbeOutcome::Status(200))), (true, "healthy".to_string()));
    assert_eq!(outcome_parts(&classify(ProbeOutcome::Status(299))), (true, "healthy".to_string()));
    assert_eq!(
        outcome_parts(&classify(ProbeOutcome::Status(199))),
        (false, "unhealthy: 199".to_string())
    );
    assert_eq!(
        outcome_parts(&classify(ProbeOutcome::Status(300))),
        (false, "unhealthy: 300".to_string())
    );
    assert_eq!(
        outcome_parts(&classify(ProbeOutcome::TransportFailure)),
        (false, "connection refused".to_string())
    );
}

#[test]
fn test_check_all_is_idempotent() {
    let registry = default_registry();
    let probes = vec![
        ProbeOutcome::Status(200),
        ProbeOutcome::TransportFailure,
        ProbeOutcome::Status(503),
        ProbeOutcome::Status(204),
        ProbeOutcome::Status(500),
    ];
    let filter = Some("e".to_string());
    let first = check_all(&registry, &filter, &probes);
    let second = check_all(&registry, &filter, &probes);
    assert_eq!(result_parts(&first), result_parts(&second));
}

#[test]
fn test_end_to_end_report_three_of_five_online() {
    let registry = default_registry();
    let probes = vec![
        ProbeOutcome::Status(200),
        ProbeOutcome::TransportFailure,
        ProbeOutcome::Status(200),
        ProbeOutcome::Status(500),
        ProbeOutcome::Status(200),
    ];
    let results = check_all(&registry, &None, &probes);
    assert_eq!(results.len(), 5);
    assert_eq!(summarize(&results), 3);

    let report = render_report(&results, true);
    assert!(report.contains("3/5 services online"));
    assert!(report.contains("API Gateway (L2)"));
    assert!(report.contains("Task Scheduler"));
    assert!(report.contains("Event Bus (gRPC)"));
    assert!(report.contains("AI Engine"));
    assert!(report.contains("Vision Pipeline"));
    assert!(report.contains("connection refused"));
    assert!(report.contains("unhealthy: 500"));

    let brief = render_report(&results, false);
    assert!(brief.contains("3/5 services online"));
    assert!(!brief.contains("Task Scheduler"));
    assert!(!brief.contains("connection refused"));
}

#[test]
fn test_report_all_online_message() {
    let registry = default_registry();
    let probes = vec![ProbeOutcome::Status(200); 5];
    let results = check_all(&registry, &None, &probes);
    let report = render_report(&results, false);
    assert!(report.contains("All 5 services operational"));
    assert!(!report.contains("services online"));
}

#[test]
fn test_summary_line_wording() {
    assert_eq!(summary_line(5, 5), "  ✓ All 5 services operational");
    assert_eq!(summary_line(3, 5), "  ⚠ 3/5 services online");
    assert_eq!(summary_line(0, 0), "  ✓ All 0 services operational");
    assert_eq!(summary_line(0, 2), "  ⚠ 0/2 services online");
}

#[test]
fn test_empty_registry_yields_empty_report() {
    let registry: Vec<ServiceDescriptor> = Vec::new();
    let probes: Vec<ProbeOutcome> = Vec::new();
    let results = check_all(&registry, &None, &probes);
    assert!(results.is_empty());
    assert_eq!(summarize(&results), 0);
}

#[test]
fn test_status_indicator_symbols() {
    assert_eq!(status_indicator(true), "●");
    assert_eq!(status_indicator(false), "○");
}

#[test]
fn test_decimal_rendering() {
    assert_eq!(u64_to_dec(0), "0");
    assert_eq!(u64_to_dec(7), "7");
    assert_eq!(u64_to_dec(503), "503");
    assert_eq!(u64_to_dec(65535), "65535");
    assert_eq!(u64_to_dec(1000), "1000");
}

#[test]
fn test_case_insensitive_contains() {
    assert!(str_contains_ci("VORTEX", "vor"));
    assert!(str_contains_ci("vortex", "VOR"));
    assert!(str_contains_ci("KRONOS", "kronos"));
    assert!(str_contains_ci("anything", ""));
    assert!(!str_contains_ci("HERMES", "vor"));
    assert!(!str_contains_ci("", "a"));
}

#[test]
fn test_case_insensitive_equality() {
    assert!(str_eq_ci("KRONOS", "kronos"));
    assert!(str_eq_ci("", ""));
    assert!(!str_eq_ci("KRONOS", "kronos "));
    assert!(!str_eq_ci("VORTEX", "KRONOS"));
}

#[test]
fn test_render_row_exact_text() {
    let registry = default_registry();
    let online = HealthResult {
        service: registry[0].clone(),
        outcome: classify(ProbeOutcome::Status(200)),
    };
    // icon (2 chars) + space + 8-char name = 11 display columns, padded to 16
    assert_eq!(
        titan_cli::render_row(&online, true),
        "  🛡️ CERBERUS     [ONLINE]  ●  API Gateway (L2)\n"
    );
    let offline = HealthResult {
        service: registry[1].clone(),
        outcome: classify(ProbeOutcome::TransportFailure),
    };
    assert_eq!(
        titan_cli::render_row(&offline, true),
        "  ⏰ KRONOS        [OFFLINE] ○  Task Scheduler - connection refused\n"
    );
    assert_eq!(
        titan_cli::render_row(&offline, false),
        "  ⏰ KRONOS        [OFFLINE] ○\n"
    );
}

#[test]
fn test_default_probe_config_timeouts_positive() {
    let config = titan_cli::default_probe_config();
    assert_eq!(config.total_timeout_secs, 5);
    assert_eq!(config.connect_timeout_secs, 3);
    assert!(config.total_timeout_secs > 0);
    assert!(config.connect_timeout_secs > 0);
}
