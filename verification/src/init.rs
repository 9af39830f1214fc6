//! Settings read before the relay starts.

use vstd::prelude::*;
use crate::broadcaster::BroadCaster;
use crate::endpoint::Endpoint;
use crate::registry::with_endpoints;

verus! {

/// The settings that a file may hold. What is `None` keeps its value.
pub struct Config {
    pub clients: Option<Vec<Endpoint>>,
    pub listen_ip_address: Option<String>,
    pub listen_port: Option<u16>,
    pub send_port: Option<u16>,
}

/// The formats in which settings are read.
#[derive(Clone, Copy, Debug, PartialEq, Eq, Structural)]
pub enum ConfigFormat {
    Csv,
    Json,
    Yaml,
    Toml,
}

/// The format that a file extension, in lower case, stands for.
pub open spec fn format_of(extension: Seq<char>) -> Option<ConfigFormat> {
    if extension == "csv"@ {
        Some(ConfigFormat::Csv)
    } else if extension == "json"@ {
        Some(ConfigFormat::Json)
    } else if extension == "yaml"@ || extension == "yml"@ {
        Some(ConfigFormat::Yaml)
    } else if extension == "toml"@ {
        Some(ConfigFormat::Toml)
    } else {
        None
    }
}

/// Looks up the format of a file by its extension, given in lower case.
pub fn format_for_extension(extension: &str) -> (format: Option<ConfigFormat>)
    ensures
        format == format_of(extension@),
{
    let given = extension.to_owned();
    if given == "csv".to_owned() {
        Some(ConfigFormat::Csv)
    } else if given == "json".to_owned() {
        Some(ConfigFormat::Json)
    } else if given == "yaml".to_owned() || given == "yml".to_owned() {
        Some(ConfigFormat::Yaml)
    } else if given == "toml".to_owned() {
        Some(ConfigFormat::Toml)
    } else {
        None
    }
}

/// Registers each of `clients` in turn.
pub fn init_clients(broad_caster: &mut BroadCaster, clients: &Vec<Endpoint>)
    ensures
        final(broad_caster).send_addresses@ == with_endpoints(
            old(broad_caster).send_addresses@,
            clients@,
        ),
        final(broad_caster).send_addresses@.no_duplicates(),
        final(broad_caster).same_settings(*old(broad_caster)),
{
    let ghost before = broad_caster.send_addresses@;
    broad_caster.send_addresses.recall_unique();
    let mut i: usize = 0;
    while i < clients.len()
        invariant
            i <= clients@.len(),
            broad_caster.send_addresses@ == with_endpoints(before, clients@.take(i as int)),
            broad_caster.send_addresses@.no_duplicates(),
            broad_caster.same_settings(*old(broad_caster)),
        decreases clients@.len() - i,
    {
        proof {
            assert(clients@.take(i + 1).drop_last() == clients@.take(i as int));
        }
        broad_caster.send_addresses.add(clients[i]);
        i += 1;
    }
    proof {
        assert(clients@.take(clients@.len() as int) == clients@);
    }
}

/// Applies settings to a relay: the clients are registered in turn, and each
/// setting that is given replaces the relay's.
pub fn init_from_config(broad_caster: &mut BroadCaster, config: Config)
    ensures
        final(broad_caster).send_addresses@ == (match config.clients {
            Some(clients) => with_endpoints(old(broad_caster).send_addresses@, clients@),
            None => old(broad_caster).send_addresses@,
        }),
        final(broad_caster).send_addresses@.no_duplicates(),
        final(broad_caster).listen_ip_address@ == (match config.listen_ip_address {
            Some(address) => address@,
            None => old(broad_caster).listen_ip_address@,
        }),
        final(broad_caster).listen_port == (match config.listen_port {
            Some(port) => port,
            None => old(broad_caster).listen_port,
        }),
        final(broad_caster).send_port == (match config.send_port {
            Some(port) => port,
            None => old(broad_caster).send_port,
        }),
{
    broad_caster.send_addresses.recall_unique();
    if let Some(clients) = config.clients {
        init_clients(broad_caster, &clients);
    }
    if let Some(listen_ip_address) = config.listen_ip_address {
        broad_caster.listen_ip_address = listen_ip_address;
    }
    if let Some(listen_port) = config.listen_port {
        broad_caster.listen_port = listen_port;
    }
    if let Some(send_port) = config.send_port {
        broad_caster.send_port = send_port;
    }
}

} // verus!
