use multicast_relay::models::Domains;
use multicast_relay::server_manager::{
    get_domain, is_domain_allowed, on_multicast_message, parse_echo, socket_address, EchoAction,
};

fn configured() -> Vec<Domains> {
    vec![
        Domains::new("alpha.org".to_string(), "a2V5MQ==".to_string()),
        Domains::new("beta.net".to_string(), "a2V5Mg==".to_string()),
        Domains::new("alpha.org".to_string(), "a2V5Mw==".to_string()),
    ]
}

#[test]
fn parse_echo_reads_port_and_domain() {
    assert_eq!(
        parse_echo("ECHO 8080 alpha.org"),
        Some(("8080".to_string(), "alpha.org".to_string()))
    );
    assert_eq!(
        parse_echo("ECHO 1 host1.example.com and more"),
        Some(("1".to_string(), "host1.example.com".to_string()))
    );
}

#[test]
fn parse_echo_refuses_other_messages() {
    assert_eq!(parse_echo("ECHO 123456 alpha.org"), None);
    assert_eq!(parse_echo("ECHO 80 abcd"), None);
    assert_eq!(parse_echo("echo 80 alpha.org"), None);
    assert_eq!(parse_echo(" ECHO 80 alpha.org"), None);
    assert_eq!(parse_echo("ECHO  80 alpha.org"), None);
    assert_eq!(parse_echo(""), None);
}

#[test]
fn parse_echo_domain_stops_at_200_characters() {
    let long = "a".repeat(250);
    let msg = format!("ECHO 7 {}", long);
    assert_eq!(parse_echo(&msg), Some(("7".to_string(), "a".repeat(200))));
}

#[test]
fn is_domain_allowed_checks_names() {
    assert!(is_domain_allowed(configured(), "alpha.org".to_string()));
    assert!(is_domain_allowed(configured(), "beta.net".to_string()));
    assert!(!is_domain_allowed(configured(), "gamma.io".to_string()));
    assert!(!is_domain_allowed(Vec::new(), "alpha.org".to_string()));
}

#[test]
fn get_domain_returns_first_match() {
    let d = get_domain(configured(), "alpha.org".to_string());
    assert_eq!(d.domain_name(), "alpha.org");
    assert_eq!(d.base_key(), "a2V5MQ==");
    let b = get_domain(configured(), "beta.net".to_string());
    assert_eq!(b.base_key(), "a2V5Mg==");
}

#[test]
fn get_domain_of_unknown_name_is_empty() {
    let d = get_domain(configured(), "gamma.io".to_string());
    assert_eq!(d.domain_name(), "");
    assert_eq!(d.base_key(), "");
}

#[test]
fn socket_address_joins_host_and_port() {
    assert_eq!(socket_address("224.1.1.255", 23502), "224.1.1.255:23502");
    assert_eq!(socket_address("10.0.0.2", 0), "10.0.0.2:0");
}

#[test]
fn multicast_announcement_of_configured_domain_connects() {
    match on_multicast_message(&configured(), "ECHO 4242 alpha.org") {
        EchoAction::Connect { address, port, domain } => {
            assert_eq!(address, "alpha.org:4242");
            assert_eq!(port, "4242");
            assert_eq!(domain.base_key(), "a2V5MQ==");
        },
        _ => panic!("expected a connection"),
    }
}

#[test]
fn multicast_announcement_of_other_domain_is_rejected() {
    match on_multicast_message(&configured(), "ECHO 4242 gamma.io") {
        EchoAction::Rejected { port, name } => {
            assert_eq!(port, "4242");
            assert_eq!(name, "gamma.io");
        },
        _ => panic!("expected a rejection"),
    }
}

#[test]
fn multicast_noise_is_unrecognized() {
    assert!(matches!(on_multicast_message(&configured(), "HELLO"), EchoAction::Unrecognized));
    assert!(matches!(on_multicast_message(&configured(), "ECHO x alpha.org"), EchoAction::Unrecognized));
}
