use multicast_relay::infrastructure::{dto_to_domains, dto_to_relay, DomainsDto, RelayDto};

fn sample_dto() -> RelayDto {
    RelayDto::new(
        "224.1.1.255".to_string(),
        23502,
        "wlan0".to_string(),
        vec![
            DomainsDto::new("alpha.org".to_string(), "a2V5MQ==".to_string()),
            DomainsDto::new("beta.net".to_string(), "a2V5Mg==".to_string()),
            DomainsDto::new("alpha.org".to_string(), "a2V5Mw==".to_string()),
        ],
    )
}

#[test]
fn domains_dto_getters_clone_fields() {
    let d = DomainsDto::new("alpha.org".to_string(), "a2V5MQ==".to_string());
    assert_eq!(d.get_domain(), "alpha.org");
    assert_eq!(d.get_aeskey(), "a2V5MQ==");
    let c = d.clone();
    assert_eq!(c.get_domain(), d.get_domain());
    assert_eq!(c.get_aeskey(), d.get_aeskey());
}

#[test]
fn relay_dto_getters_clone_fields() {
    let dto = sample_dto();
    assert_eq!(dto.get_multicast_address(), "224.1.1.255");
    assert_eq!(dto.get_multicast_port(), 23502);
    assert_eq!(dto.get_network_interface(), "wlan0");
    let domains = dto.get_configured_domains();
    assert_eq!(domains.len(), 3);
    assert_eq!(domains[2].get_aeskey(), "a2V5Mw==");
    let copy = dto.clone();
    assert_eq!(copy.get_configured_domains().len(), 3);
    assert_eq!(copy.get_network_interface(), "wlan0");
}

#[test]
fn dto_to_domains_keeps_name_and_key() {
    let d = dto_to_domains(DomainsDto::new("beta.net".to_string(), "a2V5Mg==".to_string()));
    assert_eq!(d.domain_name(), "beta.net");
    assert_eq!(d.base_key(), "a2V5Mg==");
}

#[test]
fn dto_to_relay_carries_every_field_in_order() {
    let relay = dto_to_relay(sample_dto());
    assert_eq!(relay.clone().get_multicast_address(), "224.1.1.255");
    assert_eq!(relay.clone().get_multicast_port(), 23502);
    assert_eq!(relay.clone().get_network_interface(), "wlan0");
    let domains = relay.get_configured_domains();
    let names: Vec<&str> = domains.iter().map(|d| d.domain_name().as_str()).collect();
    assert_eq!(names, vec!["alpha.org", "beta.net", "alpha.org"]);
    let keys: Vec<&str> = domains.iter().map(|d| d.base_key().as_str()).collect();
    assert_eq!(keys, vec!["a2V5MQ==", "a2V5Mg==", "a2V5Mw=="]);
}

#[test]
fn dto_to_relay_without_domains() {
    let relay = dto_to_relay(RelayDto::new("239.0.0.1".to_string(), 1, "lo".to_string(), Vec::new()));
    assert_eq!(relay.to_string(), "239.0.0.1, 1, lo, lo");
}
