use osc_broadcaster::control::{
    derive_port, route_for, ControlCommand, ControlKind, ProtocolArgumentError, Route, CONNECT_ADDRESS,
    DISCONNECT_ADDRESS,
};
use osc_broadcaster::endpoint::Endpoint;
use rosc::OscType;

#[test]
fn reserved_addresses_route_to_control() {
    assert_eq!(Route::Control(ControlKind::Connect), route_for("/server/connect"));
    assert_eq!(Route::Control(ControlKind::Disconnect), route_for("/server/disconnect"));
    assert_eq!(Route::Control(ControlKind::Connect), route_for(CONNECT_ADDRESS));
    assert_eq!(Route::Control(ControlKind::Disconnect), route_for(DISCONNECT_ADDRESS));
}

#[test]
fn other_addresses_route_to_payload() {
    assert_eq!(Route::Payload, route_for("/foo"));
    assert_eq!(Route::Payload, route_for(""));
    assert_eq!(Route::Payload, route_for("/server"));
    assert_eq!(Route::Payload, route_for("/server/connect/"));
    assert_eq!(Route::Payload, route_for("/server/connected"));
    assert_eq!(Route::Payload, route_for("server/connect"));
}

#[test]
fn routes_are_case_sensitive() {
    assert_eq!(Route::Payload, route_for("/Server/Connect"));
    assert_eq!(Route::Payload, route_for("/server/DISCONNECT"));
}

#[test]
fn no_argument_gives_the_default_port() {
    assert_eq!(Ok(12000), derive_port(&vec![], 12000));
    assert_eq!(Ok(0), derive_port(&vec![], 0));
}

#[test]
fn integer_argument_gives_that_port() {
    assert_eq!(Ok(9000), derive_port(&vec![OscType::Int(9000)], 12000));
    assert_eq!(Ok(0), derive_port(&vec![OscType::Int(0)], 12000));
    assert_eq!(Ok(65535), derive_port(&vec![OscType::Int(65535)], 12000));
}

#[test]
fn integer_outside_the_port_range_is_rejected() {
    let out_of_range = Err(ProtocolArgumentError::PortOutOfRange);
    assert_eq!(out_of_range, derive_port(&vec![OscType::Int(65536)], 12000));
    assert_eq!(out_of_range, derive_port(&vec![OscType::Int(70000)], 12000));
    assert_eq!(out_of_range, derive_port(&vec![OscType::Int(65536 + 80)], 12000));
    assert_eq!(out_of_range, derive_port(&vec![OscType::Int(-1)], 12000));
    assert_eq!(out_of_range, derive_port(&vec![OscType::Int(-9000)], 12000));
    assert_eq!(out_of_range, derive_port(&vec![OscType::Int(i32::MIN)], 12000));
    assert_eq!(out_of_range, derive_port(&vec![OscType::Int(i32::MAX)], 12000));
    assert_eq!(out_of_range, derive_port(&vec![OscType::Int(70000), OscType::Int(1)], 12000));
}

#[test]
fn other_first_argument_is_rejected() {
    assert_eq!(
        Err(ProtocolArgumentError::ExpectedInt),
        derive_port(&vec![OscType::String("9000".to_string())], 12000)
    );
    assert_eq!(Err(ProtocolArgumentError::ExpectedInt), derive_port(&vec![OscType::Float(9000.0)], 12000));
    assert_eq!(Err(ProtocolArgumentError::ExpectedInt), derive_port(&vec![OscType::Long(9000)], 12000));
    assert_eq!(
        Err(ProtocolArgumentError::ExpectedInt),
        derive_port(&vec![OscType::Nil, OscType::Int(9000)], 12000)
    );
}

#[test]
fn only_the_first_argument_is_read() {
    assert_eq!(Ok(9000), derive_port(&vec![OscType::Int(9000), OscType::Nil], 12000));
    assert_eq!(Ok(1), derive_port(&vec![OscType::Int(1), OscType::Int(2)], 12000));
}

#[test]
fn command_names_the_senders_endpoint() {
    let command = ControlCommand { kind: ControlKind::Connect, source_ip: 0x0A00_0005, port: 9000 };
    assert_eq!(Endpoint::from_octets(10, 0, 0, 5, 9000), command.endpoint());
}
