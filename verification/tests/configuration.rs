use remote_prover::config::{
    parse_secs, ProverConfig, DEFAULT_BATCH_TIMEOUT_SECS, DEFAULT_PROOF_TIMEOUT_SECS,
};
use remote_prover::endpoint::{service_host, socket_address};
use remote_prover::jitter::{submit_jitter_millis, MAX_SUBMIT_JITTER_MILLIS};
use remote_prover::outcome::ProverError;
use remote_prover::prover::RemoteProver;

#[test]
fn defaults_are_one_hour() {
    assert_eq!(DEFAULT_PROOF_TIMEOUT_SECS, 3600);
    assert_eq!(DEFAULT_BATCH_TIMEOUT_SECS, 3600);
    let config = ProverConfig::new("https://prover.example.com");
    assert_eq!(config.service_location, "https://prover.example.com");
    assert_eq!(config.single_proof_timeout, 3600);
    assert_eq!(config.batch_proof_timeout, 3600);
}

#[test]
fn settings_give_the_configuration() {
    let config = ProverConfig::from_settings(Some("https://p.example"), Some("120"), Some("7200"));
    assert_eq!(
        config,
        Ok(ProverConfig {
            service_location: "https://p.example".to_string(),
            single_proof_timeout: 120,
            batch_proof_timeout: 7200,
        })
    );
    let config = ProverConfig::from_settings(Some("https://p.example"), None, None);
    assert_eq!(config, Ok(ProverConfig::new("https://p.example")));
    let config = ProverConfig::from_settings(Some("https://p.example"), None, Some("50"));
    assert_eq!(
        config,
        Ok(ProverConfig {
            service_location: "https://p.example".to_string(),
            single_proof_timeout: 3600,
            batch_proof_timeout: 50,
        })
    );
}

#[test]
fn missing_location_or_bad_timeout_is_a_configuration_error() {
    assert_eq!(ProverConfig::from_settings(None, None, None), Err(ProverError::Configuration));
    assert_eq!(
        ProverConfig::from_settings(None, Some("10"), Some("10")),
        Err(ProverError::Configuration)
    );
    assert_eq!(
        ProverConfig::from_settings(Some("https://p.example"), Some("soon"), None),
        Err(ProverError::Configuration)
    );
    assert_eq!(
        ProverConfig::from_settings(Some("https://p.example"), None, Some("")),
        Err(ProverError::Configuration)
    );
    assert_eq!(
        ProverConfig::from_settings(Some("https://p.example"), Some("-5"), None),
        Err(ProverError::Configuration)
    );
}

#[test]
fn seconds_are_decimal_numbers_within_64_bits() {
    assert_eq!(parse_secs("0"), Some(0));
    assert_eq!(parse_secs("3600"), Some(3600));
    assert_eq!(parse_secs("007"), Some(7));
    assert_eq!(parse_secs("+15"), Some(15));
    assert_eq!(parse_secs("18446744073709551615"), Some(u64::MAX));
    assert_eq!(parse_secs("18446744073709551616"), None);
    assert_eq!(parse_secs("99999999999999999999999"), None);
    assert_eq!(parse_secs(""), None);
    assert_eq!(parse_secs("+"), None);
    assert_eq!(parse_secs("++1"), None);
    assert_eq!(parse_secs("-1"), None);
    assert_eq!(parse_secs(" 1"), None);
    assert_eq!(parse_secs("1 "), None);
    assert_eq!(parse_secs("1_000"), None);
    assert_eq!(parse_secs("12a"), None);
    assert_eq!(parse_secs("٣"), None);
    assert_eq!(parse_secs("1e3"), None);
}

#[test]
fn seconds_parse_as_the_standard_library_parses_them() {
    for text in [
        "0", "1", "10", "+10", "3600", "00012", "18446744073709551615", "18446744073709551616",
        "184467440737095516150", "", "+", "-", "-0", "+-1", "1+", "0x10", "ten", "1.5", " 5", "5\n",
        "９", "+0", "4294967296",
    ] {
        assert_eq!(parse_secs(text), text.parse::<u64>().ok(), "{:?}", text);
    }
}

#[test]
fn host_is_what_follows_the_last_scheme_separator() {
    assert_eq!(service_host("https://prover.example.com"), "prover.example.com");
    assert_eq!(service_host("prover.example.com"), "prover.example.com");
    assert_eq!(service_host("http://a://b"), "b");
    assert_eq!(service_host("https://"), "");
    assert_eq!(service_host("://"), "");
    assert_eq!(service_host(""), "");
    assert_eq!(service_host(":/"), ":/");
    assert_eq!(service_host("a:///b"), "/b");
    assert_eq!(service_host("https://prover.example.com:8443/v1"), "prover.example.com:8443/v1");
    assert_eq!(service_host("https://服务.example"), "服务.example");
    assert_eq!(service_host("方案://主机"), "主机");
}

#[test]
fn host_is_the_last_piece_of_a_split_on_the_separator() {
    for url in [
        "", "a", "://", "a://", "://a", "a://b", "a://b://c", "a:/b", "a:///b", "a::////b", "://://",
        "https://prover.example.com", "x:/://y", "é://ü",
    ] {
        assert_eq!(service_host(url), url.split("://").last().unwrap(), "{:?}", url);
    }
}

#[test]
fn socket_address_is_the_host_on_port_443() {
    assert_eq!(socket_address("prover.example.com"), "prover.example.com:443");
    assert_eq!(socket_address(""), ":443");
    let prover = RemoteProver::new(ProverConfig::new("https://prover.example.com")).unwrap();
    assert_eq!(prover.service_host(), "prover.example.com");
    assert_eq!(prover.service_address(), "prover.example.com:443");
}

#[test]
fn location_without_a_host_is_refused() {
    for url in ["", "https://", "://", "a://b://"] {
        let prover = RemoteProver::new(ProverConfig::new(url));
        assert!(matches!(prover, Err(ProverError::Configuration)), "{:?}", url);
    }
    let config = ProverConfig::new("prover.example.com");
    let prover = RemoteProver::new(config.clone()).unwrap();
    assert_eq!(prover.config(), &config);
}

#[test]
fn jitter_stays_below_five_seconds() {
    assert_eq!(MAX_SUBMIT_JITTER_MILLIS, 5000);
    let mut seen = std::collections::BTreeSet::new();
    for _ in 0..2000 {
        let millis = submit_jitter_millis();
        assert!(millis < 5000);
        seen.insert(millis);
    }
    assert!(seen.len() > 1);
}

#[test]
fn prove_opens_a_call_with_request_jitter_and_budget() {
    let mut config = ProverConfig::new("https://prover.example.com");
    config.single_proof_timeout = 125;
    config.batch_proof_timeout = 55;
    let prover = RemoteProver::new(config).unwrap();
    let input = vec![9u8, 8, 7];
    for _ in 0..200 {
        let call = prover.prove("circuit-1", &input);
        assert!(call.delay_millis < 5000);
        assert_eq!(call.max_polls, 12);
        assert_eq!(call.request.circuit_id(), "circuit-1");
        assert_eq!(call.request.public_input(), &input[..]);
    }
    let batch = prover.batch_prove("circuit-1", &[input.clone()]);
    assert_eq!(batch.max_polls, 5);
    assert_eq!(batch.batch_size, 1);
}
