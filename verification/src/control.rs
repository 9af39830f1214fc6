//! The control protocol: the two reserved addresses, and the port that a
//! command names.

use vstd::prelude::*;
use rosc::OscType;
use crate::endpoint::Endpoint;

verus! {

/// The address by which a receiver registers itself.
pub const CONNECT_ADDRESS: &'static str = "/server/connect";

/// The address by which a receiver withdraws.
pub const DISCONNECT_ADDRESS: &'static str = "/server/disconnect";

/// What a control message asks for.
#[derive(Clone, Copy, Debug, PartialEq, Eq, Structural)]
pub enum ControlKind {
    Connect,
    Disconnect,
}

/// Where a top-level message goes: to the control protocol or to the
/// receivers.
#[derive(Clone, Copy, Debug, PartialEq, Eq, Structural)]
pub enum Route {
    Control(ControlKind),
    Payload,
}

/// A control message that names no usable port.
#[derive(Clone, Copy, Debug, PartialEq, Eq, Structural)]
pub enum ProtocolArgumentError {
    /// The first argument is not a 32-bit integer.
    ExpectedInt,
    /// The first argument is an integer that is no port: it is negative or
    /// greater than 65535.
    PortOutOfRange,
}

/// A registry change asked for by the sender at `source_ip`.
#[derive(Clone, Copy, Debug, PartialEq, Eq, Structural)]
pub struct ControlCommand {
    pub kind: ControlKind,
    pub source_ip: u32,
    pub port: u16,
}

/// The route of an address. The match is exact and case-sensitive.
pub open spec fn route_of(address: Seq<char>) -> Route {
    if address == "/server/connect"@ {
        Route::Control(ControlKind::Connect)
    } else if address == "/server/disconnect"@ {
        Route::Control(ControlKind::Disconnect)
    } else {
        Route::Payload
    }
}

/// The port of a control message with the given arguments: the default where
/// there is none, and the first argument where it is a 32-bit integer from 0 to
/// 65535. An integer outside that range names no port, and neither does a
/// first argument of any other type. Further arguments are not read.
pub open spec fn derived_port(
    arguments: Seq<OscType>,
    default_port: u16,
) -> Result<u16, ProtocolArgumentError> {
    if arguments.len() == 0 {
        Ok(default_port)
    } else {
        match arguments[0] {
            OscType::Int(value) => if 0 <= value <= 65535 {
                Ok(value as u16)
            } else {
                Err(ProtocolArgumentError::PortOutOfRange)
            },
            _ => Err(ProtocolArgumentError::ExpectedInt),
        }
    }
}

/// Looks an address up among the reserved ones.
pub fn route_for(address: &str) -> (route: Route)
    ensures
        route == route_of(address@),
{
    let given = address.to_owned();
    if given == CONNECT_ADDRESS.to_owned() {
        Route::Control(ControlKind::Connect)
    } else if given == DISCONNECT_ADDRESS.to_owned() {
        Route::Control(ControlKind::Disconnect)
    } else {
        Route::Payload
    }
}

/// Derives the port of a control message from its arguments.
pub fn derive_port(
    arguments: &Vec<OscType>,
    default_port: u16,
) -> (port: Result<u16, ProtocolArgumentError>)
    ensures
        port == derived_port(arguments@, default_port),
{
    if arguments.len() == 0 {
        return Ok(default_port);
    }
    match &arguments[0] {
        OscType::Int(value) => {
            if 0 <= *value && *value <= 65535 {
                Ok(*value as u16)
            } else {
                Err(ProtocolArgumentError::PortOutOfRange)
            }
        },
        _ => Err(ProtocolArgumentError::ExpectedInt),
    }
}

impl ControlCommand {
    /// The destination that the command speaks of.
    pub open spec fn target(self) -> Endpoint {
        Endpoint { ip: self.source_ip, port: self.port }
    }

    pub fn endpoint(&self) -> (e: Endpoint)
        ensures
            e == self.target(),
    {
        Endpoint { ip: self.source_ip, port: self.port }
    }
}

/// A control message without arguments names the default port. One whose
/// first argument is an integer from 0 to 65535 names that port, whatever
/// follows it. One whose first argument is any other integer, or no integer,
/// names none. So a port that is derived is the default or the integer that
/// the message supplies, and never another.
pub proof fn lemma_port_derivation(arguments: Seq<OscType>, default_port: u16)
    ensures
        arguments.len() == 0 ==> derived_port(arguments, default_port) == Ok::<
            u16,
            ProtocolArgumentError,
        >(default_port),
        arguments.len() > 0 ==> (match arguments[0] {
            OscType::Int(value) => if 0 <= value <= 65535 {
                derived_port(arguments, default_port) == Ok::<u16, ProtocolArgumentError>(
                    value as u16,
                )
            } else {
                derived_port(arguments, default_port) == Err::<u16, ProtocolArgumentError>(
                    ProtocolArgumentError::PortOutOfRange,
                )
            },
            _ => derived_port(arguments, default_port) == Err::<u16, ProtocolArgumentError>(
                ProtocolArgumentError::ExpectedInt,
            ),
        }),
        forall|port: u16|
            derived_port(arguments, default_port) == Ok::<u16, ProtocolArgumentError>(port) ==> {
                ||| arguments.len() == 0 && port == default_port
                ||| arguments.len() > 0 && arguments[0] == OscType::Int(port as i32)
            },
{
}

/// The two reserved addresses differ, so each has its own route.
pub proof fn lemma_reserved_routes()
    ensures
        route_of("/server/connect"@) == Route::Control(ControlKind::Connect),
        route_of("/server/disconnect"@) == Route::Control(ControlKind::Disconnect),
{
    reveal_strlit("/server/connect");
    reveal_strlit("/server/disconnect");
    assert("/server/connect"@.len() != "/server/disconnect"@.len());
}

} // verus!
