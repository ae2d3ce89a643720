use multicast_relay::net_chooser::{
    ipv4_text, HostAddress, HostInterface, NetWorkInterface, NetWorkInterfacesList,
};

fn hosts() -> Vec<HostInterface> {
    vec![
        HostInterface {
            name: "lo".to_string(),
            addrs: vec![HostAddress::V4([127, 0, 0, 1]), HostAddress::V6([0, 0, 0, 0, 0, 0, 0, 1])],
        },
        HostInterface { name: "eth0".to_string(), addrs: vec![HostAddress::V6([0xfe80, 0, 0, 0, 0, 0, 0, 2])] },
        HostInterface {
            name: "wlan0".to_string(),
            addrs: vec![HostAddress::V4([192, 168, 1, 20]), HostAddress::V4([10, 0, 0, 255])],
        },
    ]
}

#[test]
fn ipv4_text_is_dotted_decimal() {
    assert_eq!(ipv4_text([0, 0, 0, 0]), "0.0.0.0");
    assert_eq!(ipv4_text([127, 0, 0, 1]), "127.0.0.1");
    assert_eq!(ipv4_text([255, 255, 255, 255]), "255.255.255.255");
    assert_eq!(ipv4_text([10, 9, 100, 99]), "10.9.100.99");
}

#[test]
fn host_interfaces_keep_ipv4_addresses_in_order() {
    let list = NetWorkInterfacesList::from_host_interfaces(&hosts());
    assert_eq!(list.len(), 3);
    let entries: Vec<String> = (0..list.len()).map(|i| list.get(i).to_string()).collect();
    assert_eq!(entries, vec!["lo, 127.0.0.1", "wlan0, 192.168.1.20", "wlan0, 10.0.0.255"]);
}

#[test]
fn no_host_interfaces_no_entries() {
    let list = NetWorkInterfacesList::from_host_interfaces(&Vec::new());
    assert_eq!(list.len(), 0);
}

#[test]
fn network_interface_accessors() {
    let itf = NetWorkInterface::new("eth0".to_string(), "192.168.0.3".to_string());
    assert_eq!(itf.get_network_interface(), "eth0");
    assert_eq!(itf.get_multicast_address(), "192.168.0.3");
    assert_eq!(itf.to_string(), "eth0, 192.168.0.3");
}

#[test]
fn add_appends_an_entry() {
    let mut list = NetWorkInterfacesList::from_host_interfaces(&hosts());
    list.add("tun0".to_string(), "10.8.0.1".to_string());
    assert_eq!(list.len(), 4);
    assert_eq!(list.get(3).to_string(), "tun0, 10.8.0.1");
}

#[test]
fn menu_number_selects_the_entry() {
    let list = NetWorkInterfacesList::from_host_interfaces(&hosts());
    for i in 0..list.len() {
        let line = list.menu_entry(i);
        let number = line.split(" : ").next().unwrap();
        let typed = format!("{}\n", number);
        let index = NetWorkInterfacesList::parse_input(&typed).unwrap();
        assert_eq!(list.select(index).to_string(), list.get(i).to_string());
    }
    assert_eq!(list.menu_entry(2), "2 : wlan0");
}

#[test]
fn parse_input_reads_trimmed_numbers() {
    assert_eq!(NetWorkInterfacesList::parse_input(" 3 \n"), Some(3));
    assert_eq!(NetWorkInterfacesList::parse_input("\t+12\r\n"), Some(12));
    assert_eq!(NetWorkInterfacesList::parse_input("x\n"), None);
    assert_eq!(NetWorkInterfacesList::parse_input("\n"), None);
    assert_eq!(NetWorkInterfacesList::parse_input("-1\n"), None);
    assert_eq!(NetWorkInterfacesList::parse_input("\u{3000}7\u{a0}"), Some(7));
}

#[test]
fn host_query_lists_ipv4_addresses() {
    if let Some(list) = NetWorkInterfacesList::new() {
        for i in 0..list.len() {
            let entry = list.get(i);
            let address = entry.get_multicast_address();
            let parts: Vec<&str> = address.split('.').collect();
            assert_eq!(parts.len(), 4);
            for p in parts {
                assert!(p.parse::<u8>().is_ok());
            }
        }
    }
}
