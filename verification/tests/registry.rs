use nestdbg::config::{Connection, ConnectionConfig, Ipv4Address, DEFAULT_PORT};

fn two_targets() -> ConnectionConfig {
    let mut config = ConnectionConfig::new();
    config.add_connection("switch".to_string(), Ipv4Address::new(10, 0, 0, 5));
    config.add_connection("3ds".to_string(), Ipv4Address::new(10, 0, 0, 6));
    config
}

fn names(config: &ConnectionConfig) -> Vec<String> {
    config.get_connections().iter().map(|c| c.name.clone()).collect()
}

#[test]
fn new_registry_is_empty() {
    let config = ConnectionConfig::new();
    assert_eq!(config.len(), 0);
    assert!(config.get_connections().is_empty());
    assert!(config.get_connection(0).is_none());
}

#[test]
fn targets_keep_the_order_in_which_they_were_added() {
    let config = two_targets();
    assert_eq!(config.len(), 2);
    assert_eq!(names(&config), vec!["switch".to_string(), "3ds".to_string()]);
    let first = config.get_connection(0).unwrap();
    assert_eq!(first.name, "switch");
    assert_eq!(first.address, Ipv4Address::new(10, 0, 0, 5));
    let second = config.get_connection(1).unwrap();
    assert_eq!(second.name, "3ds");
    assert_eq!(second.address, Ipv4Address::new(10, 0, 0, 6));
    assert!(config.get_connection(2).is_none());
}

#[test]
fn adding_a_saved_name_replaces_its_address_in_place() {
    let mut config = two_targets();
    config.add_connection("switch".to_string(), Ipv4Address::new(192, 168, 1, 20));
    assert_eq!(config.len(), 2);
    assert_eq!(names(&config), vec!["switch".to_string(), "3ds".to_string()]);
    assert_eq!(config.get_connection(0).unwrap().address, Ipv4Address::new(192, 168, 1, 20));
    assert_eq!(config.get_connection(1).unwrap().address, Ipv4Address::new(10, 0, 0, 6));
}

#[test]
fn position_finds_names() {
    let config = two_targets();
    assert_eq!(config.position("switch"), Some(0));
    assert_eq!(config.position("3ds"), Some(1));
    assert_eq!(config.position("wiiu"), None);
    assert_eq!(config.position(""), None);
}

#[test]
fn remove_connection_tells_whether_it_removed() {
    let mut config = two_targets();
    assert!(!config.remove_connection("wiiu"));
    assert_eq!(config.len(), 2);
    assert!(config.remove_connection("switch"));
    assert_eq!(names(&config), vec!["3ds".to_string()]);
    assert!(!config.remove_connection("switch"));
    assert!(config.remove_connection("3ds"));
    assert_eq!(config.len(), 0);
}

#[test]
fn resolve_target_prefers_saved_names() {
    let config = two_targets();
    assert_eq!(
        config.resolve_target("3ds", None),
        Some((Ipv4Address::new(10, 0, 0, 6), 8000))
    );
    assert_eq!(
        config.resolve_target("switch", Some(Ipv4Address::new(1, 2, 3, 4))),
        Some((Ipv4Address::new(10, 0, 0, 5), DEFAULT_PORT))
    );
}

#[test]
fn resolve_target_falls_back_to_the_address_written_out() {
    let config = two_targets();
    assert_eq!(
        config.resolve_target("192.168.0.9", Some(Ipv4Address::new(192, 168, 0, 9))),
        Some((Ipv4Address::new(192, 168, 0, 9), 8000))
    );
    assert_eq!(config.resolve_target("nowhere", None), None);
    assert_eq!(ConnectionConfig::new().resolve_target("switch", None), None);
}

#[test]
fn address_text_is_dotted_decimal() {
    assert_eq!(Ipv4Address::new(10, 0, 0, 5).to_text(), "10.0.0.5");
    assert_eq!(Ipv4Address::new(192, 168, 1, 20).to_text(), "192.168.1.20");
    assert_eq!(Ipv4Address::new(0, 0, 0, 0).to_text(), "0.0.0.0");
    assert_eq!(Ipv4Address::new(255, 255, 255, 255).to_text(), "255.255.255.255");
    assert_eq!(Ipv4Address::new(9, 10, 99, 100).to_text(), "9.10.99.100");
    assert_eq!(Ipv4Address::new(101, 110, 200, 209).to_text(), "101.110.200.209");
}

#[test]
fn address_text_writes_every_octet_in_decimal() {
    for n in 0..=255u8 {
        let address = Ipv4Address::new(n, 255 - n, n / 2, n);
        let expected = format!("{}.{}.{}.{}", n, 255 - n, n / 2, n);
        assert_eq!(address.to_text(), expected);
    }
}

#[test]
fn octets_are_in_order() {
    assert_eq!(Ipv4Address::new(1, 2, 3, 4).octets(), [1, 2, 3, 4]);
}

#[test]
fn connection_holds_what_it_was_made_of() {
    let connection = Connection::new("switch".to_string(), Ipv4Address::new(10, 0, 0, 5));
    assert_eq!(connection.name, "switch");
    assert_eq!(connection.address, Ipv4Address::new(10, 0, 0, 5));
}

#[test]
fn empty_registry_lists_a_note() {
    assert_eq!(ConnectionConfig::new().list_connections(), "No connections found.");
}

#[test]
fn rows_start_with_the_header() {
    let rows = two_targets().rows();
    assert_eq!(
        rows,
        vec![
            ("name".to_string(), "address".to_string()),
            ("switch".to_string(), "10.0.0.5".to_string()),
            ("3ds".to_string(), "10.0.0.6".to_string()),
        ]
    );
}

#[test]
fn registry_lists_a_markdown_table() {
    let expected = "| name   | address  |\n\
                    |--------|----------|\n\
                    | switch | 10.0.0.5 |\n\
                    | 3ds    | 10.0.0.6 |";
    assert_eq!(two_targets().list_connections(), expected);
}

#[test]
fn default_registry_is_empty() {
    let config = ConnectionConfig::default();
    assert_eq!(config.len(), 0);
    assert_eq!(config.list_connections(), "No connections found.");
}
