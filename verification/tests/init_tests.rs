use osc_broadcaster::broadcaster::BroadCaster;
use osc_broadcaster::endpoint::Endpoint;
use osc_broadcaster::init::{
    format_for_extension, init_clients, init_from_config, Config, ConfigFormat,
};

fn dotted(e: &Endpoint) -> String {
    let (a, b, c, d) = e.octets();
    format!("{}.{}.{}.{}", a, b, c, d)
}

fn three_clients() -> Vec<Endpoint> {
    vec![
        Endpoint::from_octets(127, 0, 0, 1, 3331),
        Endpoint::from_octets(127, 0, 0, 1, 3332),
        Endpoint::from_octets(127, 0, 0, 1, 3333),
    ]
}

#[test]
fn config_with_all_settings() {
    let mut broad_caster = BroadCaster::new();
    let config = Config {
        clients: Some(three_clients()),
        listen_ip_address: Some("127.0.0.1".to_string()),
        listen_port: Some(32001),
        send_port: Some(32002),
    };
    init_from_config(&mut broad_caster, config);
    assert_eq!("127.0.0.1", broad_caster.listen_ip_address);
    assert_eq!(32001, broad_caster.listen_port);
    assert_eq!(32002, broad_caster.send_port);
    let all = broad_caster.send_addresses.snapshot();
    assert_eq!(3, all.len());
    assert_eq!(3331, all[0].port);
    assert_eq!(3332, all[1].port);
    assert_eq!(3333, all[2].port);
    assert_eq!("127.0.0.1", dotted(&all[0]));
    assert_eq!("127.0.0.1", dotted(&all[1]));
    assert_eq!("127.0.0.1", dotted(&all[2]));
}

#[test]
fn config_with_clients_only_keeps_the_defaults() {
    let mut broad_caster = BroadCaster::new();
    let config = Config {
        clients: Some(three_clients()),
        listen_ip_address: None,
        listen_port: None,
        send_port: None,
    };
    init_from_config(&mut broad_caster, config);
    assert_eq!("0.0.0.0", broad_caster.listen_ip_address);
    assert_eq!(32000, broad_caster.listen_port);
    assert_eq!(12000, broad_caster.send_port);
    assert_eq!(three_clients(), broad_caster.send_addresses.snapshot());
}

#[test]
fn empty_config_changes_nothing() {
    let mut broad_caster = BroadCaster::new();
    broad_caster.push_send_address(1, 2);
    let config =
        Config { clients: None, listen_ip_address: None, listen_port: None, send_port: None };
    init_from_config(&mut broad_caster, config);
    assert_eq!("0.0.0.0", broad_caster.listen_ip_address);
    assert_eq!(32000, broad_caster.listen_port);
    assert_eq!(12000, broad_caster.send_port);
    assert_eq!(vec![Endpoint::new(1, 2)], broad_caster.send_addresses.snapshot());
}

#[test]
fn clients_given_twice_are_registered_once() {
    let mut broad_caster = BroadCaster::new();
    let mut clients = three_clients();
    clients.extend(three_clients());
    init_clients(&mut broad_caster, &clients);
    assert_eq!(three_clients(), broad_caster.send_addresses.snapshot());
    init_clients(&mut broad_caster, &vec![]);
    assert_eq!(3, broad_caster.send_addresses.len());
}

#[test]
fn extensions_name_formats() {
    assert_eq!(Some(ConfigFormat::Csv), format_for_extension("csv"));
    assert_eq!(Some(ConfigFormat::Json), format_for_extension("json"));
    assert_eq!(Some(ConfigFormat::Yaml), format_for_extension("yaml"));
    assert_eq!(Some(ConfigFormat::Yaml), format_for_extension("yml"));
    assert_eq!(Some(ConfigFormat::Toml), format_for_extension("toml"));
    assert_eq!(None, format_for_extension("txt"));
    assert_eq!(None, format_for_extension(""));
    assert_eq!(None, format_for_extension("JSON"));
}
