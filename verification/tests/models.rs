use multicast_relay::models::{clone_domains, Domains, Relay};

fn sample_domains() -> Vec<Domains> {
    vec![
        Domains::new("alpha.org".to_string(), "AAAAAAAAAAAAAAAAAAAAAAAAAAAAAAAAAAAAAAAAAAA=".to_string()),
        Domains::new("beta.net".to_string(), "AAECAwQFBgcICQoLDA0ODxAREhMUFRYXGBkaGxwdHh8=".to_string()),
    ]
}

#[test]
fn domains_new_keeps_name_and_key() {
    let d = Domains::new("alpha.org".to_string(), "a2V5".to_string());
    assert_eq!(d.domain_name(), "alpha.org");
    assert_eq!(d.base_key(), "a2V5");
    assert_eq!(d.clone().get_domain(), "alpha.org");
    assert_eq!(d.get_base(), "a2V5");
}

#[test]
fn relay_getters_return_fields() {
    let relay = Relay::new("224.1.1.255".to_string(), 23502, "eth0".to_string(), sample_domains());
    assert_eq!(relay.clone().get_multicast_address(), "224.1.1.255");
    assert_eq!(relay.clone().get_multicast_port(), 23502);
    assert_eq!(relay.clone().get_network_interface(), "eth0");
    let domains = relay.get_configured_domains();
    assert_eq!(domains.len(), 2);
    assert_eq!(domains[0].domain_name(), "alpha.org");
    assert_eq!(domains[1].domain_name(), "beta.net");
}

#[test]
fn relay_to_string_writes_interface_twice() {
    let relay = Relay::new("224.1.1.255".to_string(), 23502, "eth0".to_string(), sample_domains());
    assert_eq!(relay.to_string(), "224.1.1.255, 23502, eth0, eth0");
}

#[test]
fn relay_to_string_port_edges() {
    let zero = Relay::new("a".to_string(), 0, "b".to_string(), Vec::new());
    assert_eq!(zero.to_string(), "a, 0, b, b");
    let max = Relay::new("".to_string(), 65535, "".to_string(), Vec::new());
    assert_eq!(max.to_string(), ", 65535, , ");
}

#[test]
fn clone_domains_copies_in_order() {
    let domains = sample_domains();
    let copy = clone_domains(&domains);
    assert_eq!(copy.len(), 2);
    assert_eq!(copy[0].domain_name(), "alpha.org");
    assert_eq!(copy[1].base_key(), domains[1].base_key());
}
