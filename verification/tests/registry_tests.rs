use osc_broadcaster::endpoint::Endpoint;
use osc_broadcaster::registry::Registry;

fn endpoint(last: u8, port: u16) -> Endpoint {
    Endpoint::from_octets(10, 0, 0, last, port)
}

#[test]
fn new_registry_is_empty() {
    let registry = Registry::new();
    assert_eq!(0, registry.len());
    assert!(registry.is_empty());
    assert!(registry.snapshot().is_empty());
    assert_eq!(None, registry.get(0));
}

#[test]
fn add_twice_keeps_one_entry() {
    let mut registry = Registry::new();
    let e = endpoint(5, 12000);
    assert!(registry.add(e));
    assert!(!registry.add(e));
    assert_eq!(1, registry.len());
    assert_eq!(vec![e], registry.snapshot());
}

#[test]
fn add_then_remove_restores_registry() {
    let mut registry = Registry::new();
    let a = endpoint(1, 9000);
    let b = endpoint(2, 9000);
    registry.add(a);
    registry.add(b);
    let before = registry.snapshot();

    let e = endpoint(3, 9001);
    assert!(registry.add(e));
    assert_eq!(3, registry.len());
    assert!(registry.remove(e.ip, e.port));
    assert_eq!(before, registry.snapshot());
    assert_eq!(2, registry.len());
}

#[test]
fn add_then_remove_of_known_endpoint_shrinks_registry() {
    let mut registry = Registry::new();
    let a = endpoint(1, 9000);
    registry.add(a);
    assert!(!registry.add(a));
    assert!(registry.remove(a.ip, a.port));
    assert_eq!(0, registry.len());
}

#[test]
fn registry_never_holds_duplicates() {
    let mut registry = Registry::new();
    let offered = [
        endpoint(1, 1),
        endpoint(2, 1),
        endpoint(1, 1),
        endpoint(1, 2),
        endpoint(2, 1),
        endpoint(1, 2),
    ];
    for e in offered {
        registry.add(e);
        let all = registry.snapshot();
        for i in 0..all.len() {
            for j in 0..all.len() {
                if i != j {
                    assert_ne!(all[i], all[j]);
                }
            }
        }
    }
    assert_eq!(vec![endpoint(1, 1), endpoint(2, 1), endpoint(1, 2)], registry.snapshot());
}

#[test]
fn same_ip_with_other_port_is_another_endpoint() {
    let mut registry = Registry::new();
    assert!(registry.add(endpoint(5, 12000)));
    assert!(registry.add(endpoint(5, 9000)));
    assert!(!registry.remove(0x0A00_0005, 9001));
    assert_eq!(2, registry.len());
    assert!(registry.remove(0x0A00_0005, 12000));
    assert_eq!(vec![endpoint(5, 9000)], registry.snapshot());
}

#[test]
fn remove_keeps_the_order_of_the_rest() {
    let mut registry = Registry::new();
    for last in 1..=5 {
        registry.add(endpoint(last, 7000));
    }
    assert!(registry.remove(endpoint(3, 7000).ip, 7000));
    assert_eq!(
        vec![endpoint(1, 7000), endpoint(2, 7000), endpoint(4, 7000), endpoint(5, 7000)],
        registry.snapshot()
    );
    assert_eq!(Some(endpoint(4, 7000)), registry.get(2));
    assert_eq!(None, registry.get(4));
}

#[test]
fn remove_of_unknown_endpoint_reports_false() {
    let mut registry = Registry::new();
    assert!(!registry.remove(1, 2));
    registry.add(endpoint(1, 1));
    assert!(!registry.remove(endpoint(1, 1).ip, 2));
    assert_eq!(1, registry.len());
}

#[test]
fn contains_tells_registered_endpoints() {
    let mut registry = Registry::new();
    registry.add(endpoint(1, 1));
    assert!(registry.contains(endpoint(1, 1)));
    assert!(!registry.contains(endpoint(1, 2)));
    registry.recall_unique();
}

#[test]
fn octets_spell_the_address() {
    let e = Endpoint::from_octets(127, 0, 0, 1, 33333);
    assert_eq!(0x7F00_0001, e.ip);
    assert_eq!((127, 0, 0, 1), e.octets());
    assert_eq!(Endpoint::new(0x7F00_0001, 33333), e);
    assert_eq!((255, 254, 253, 252), Endpoint::new(0xFFFE_FDFC, 0).octets());
    assert_eq!((0, 0, 0, 0), Endpoint::new(0, 0).octets());
}
