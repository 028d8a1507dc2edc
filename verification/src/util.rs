//! Discovery of the daemon's address from what the host shows of itself.
//!
//! Inside a container the daemon is expected on the host, which is the
//! default gateway of the container's network. The host program gathers the
//! observations; the functions here draw the conclusions.

use vstd::prelude::*;
use crate::config::{Configuration, ConfigurationError};
use crate::number::{decimal_text, parse_hex_u32, parse_hexadecimal_u32, push_decimal};
use crate::text::{chars_eq, chars_of, fields, split_fields, views};

verus! {

/// The destination that marks the default route in the route table.
pub const DEFAULT_DESTINATION: &'static str = "00000000";

/// Where the first container marker file lies.
pub const DOCKER_MARKER: &'static str = "/.dockerenv";

/// Where the second container marker file lies.
pub const DOCKER_RUN_MARKER: &'static str = "/run/.dockerenv";

/// Where the kernel shows its IPv4 route table.
pub const ROUTE_TABLE_PATH: &'static str = "/proc/net/route";

/// What the host program saw of the host.
#[derive(Debug, Clone, PartialEq, Eq)]
pub struct HostProbe {
    /// For each container marker file, whether it exists.
    pub markers: Vec<bool>,
    /// The lines of the kernel's IPv4 route table, heading included, or
    /// nothing where the table could not be read.
    pub route_table: Option<Vec<String>>,
}

/// Mathematical value of a [`HostProbe`].
pub struct HostProbeView {
    pub markers: Seq<bool>,
    pub route_table: Option<Seq<Seq<char>>>,
}

/// The views of a sequence of strings.
pub open spec fn texts(lines: Seq<String>) -> Seq<Seq<char>> {
    lines.map_values(|line: String| line@)
}

impl View for HostProbe {
    type V = HostProbeView;

    open spec fn view(&self) -> HostProbeView {
        HostProbeView {
            markers: self.markers@,
            route_table: match self.route_table {
                Some(lines) => Some(texts(lines@)),
                None => None,
            },
        }
    }
}

/// Whether any of the container marker files was found.
pub open spec fn any_marker(markers: Seq<bool>) -> bool {
    exists|i: int| 0 <= i < markers.len() && markers[i]
}

/// Decides from the probes of the container marker files, one flag for each
/// file, whether the process runs inside a container.
pub fn run_in_docker(markers: &Vec<bool>) -> (inside: bool)
    ensures
        inside == any_marker(markers@),
{
    let mut i: usize = 0;
    while i < markers.len()
        invariant
            i <= markers.len(),
            forall|j: int| 0 <= j < i ==> !markers@[j],
        decreases markers.len() - i,
    {
        if markers[i] {
            return true;
        }
        i += 1;
    }
    false
}

/// The dotted address that the route table's gateway column spells as
/// `gateway`: the column holds the four bytes of the address with the first
/// byte lowest.
pub open spec fn gateway_text(gateway: u32) -> Seq<char> {
    decimal_text((gateway % 256) as nat) + seq!['.'] + decimal_text(((gateway / 256) % 256) as nat)
        + seq!['.'] + decimal_text(((gateway / 65536) % 256) as nat) + seq!['.'] + decimal_text(
        (gateway / 16777216) as nat,
    )
}

/// Writes the gateway column's number as a dotted address.
pub fn format_gateway(gateway: u32) -> (address: String)
    ensures
        address@ == gateway_text(gateway),
{
    proof {
        reveal_strlit(".");
    }
    let mut address = String::new();
    push_decimal(&mut address, (gateway % 256) as u8);
    address.append(".");
    push_decimal(&mut address, ((gateway / 256) % 256) as u8);
    address.append(".");
    push_decimal(&mut address, ((gateway / 65536) % 256) as u8);
    address.append(".");
    push_decimal(&mut address, (gateway / 16777216) as u8);
    address
}

/// What one line of the route table says of the default gateway.
pub enum RouteLine {
    /// The line describes another route.
    Other,
    /// The line lacks the destination, or it is the default route and
    /// lacks the gateway.
    Malformed,
    /// The line is the default route, and its gateway is no number.
    Unreadable,
    /// The line is the default route through this gateway.
    Gateway(Seq<char>),
}

/// Reads one line of the route table. Its second field is the destination,
/// its third the gateway as a hexadecimal number.
pub open spec fn route_line(line: Seq<char>) -> RouteLine {
    let columns = fields(line);
    if columns.len() < 2 {
        RouteLine::Malformed
    } else if columns[1] != DEFAULT_DESTINATION@ {
        RouteLine::Other
    } else if columns.len() < 3 {
        RouteLine::Malformed
    } else {
        match parse_hex_u32(columns[2]) {
            Some(gateway) => RouteLine::Gateway(gateway_text(gateway)),
            None => RouteLine::Unreadable,
        }
    }
}

/// The default gateway according to the lines from `from` on: the first
/// line that is the default route decides, and a malformed line before it
/// is an error.
pub open spec fn gateway_from(lines: Seq<Seq<char>>, from: int) -> Result<
    Option<Seq<char>>,
    ConfigurationError,
>
    decreases lines.len() - from,
{
    if from < 0 || from >= lines.len() {
        Ok(None)
    } else {
        match route_line(lines[from]) {
            RouteLine::Other => gateway_from(lines, from + 1),
            RouteLine::Malformed => Err(ConfigurationError::RouteTableMalformed),
            RouteLine::Unreadable => Ok(None),
            RouteLine::Gateway(address) => Ok(Some(address)),
        }
    }
}

/// The view of a gateway lookup's result.
pub open spec fn gateway_result(r: Result<Option<String>, ConfigurationError>) -> Result<
    Option<Seq<char>>,
    ConfigurationError,
> {
    match r {
        Ok(Some(address)) => Ok(Some(address@)),
        Ok(None) => Ok(None),
        Err(e) => Err(e),
    }
}

/// Finds the default gateway in the lines of the kernel's IPv4 route table.
/// The first line is the heading and is not read.
pub fn get_gateway_address(lines: &Vec<String>) -> (found: Result<
    Option<String>,
    ConfigurationError,
>)
    ensures
        gateway_result(found) == gateway_from(texts(lines@), 1),
{
    let default_destination = chars_of(DEFAULT_DESTINATION);
    let mut i: usize = 1;
    while i < lines.len()
        invariant
            1 <= i,
            default_destination@ == DEFAULT_DESTINATION@,
            gateway_from(texts(lines@), 1) == gateway_from(texts(lines@), i as int),
        decreases lines.len() - i,
    {
        let columns = split_fields(lines[i].as_str());
        if columns.len() < 2 {
            return Err(ConfigurationError::RouteTableMalformed);
        }
        if chars_eq(&columns[1], &default_destination) {
            if columns.len() < 3 {
                return Err(ConfigurationError::RouteTableMalformed);
            }
            return match parse_hexadecimal_u32(&columns[2]) {
                Some(gateway) => Ok(Some(format_gateway(gateway))),
                None => Ok(None),
            };
        }
        i += 1;
    }
    Ok(None)
}

/// The address of the daemon: the configured one; without one, inside a
/// container, port 8080 of the default gateway over plain HTTP.
pub open spec fn api_url(configured: Option<Seq<char>>, probe: HostProbeView) -> Result<
    Seq<char>,
    ConfigurationError,
> {
    match configured {
        Some(url) => Ok(url),
        None => {
            if any_marker(probe.markers) {
                match probe.route_table {
                    Some(lines) => match gateway_from(lines, 1) {
                        Ok(Some(address)) => Ok("http://"@ + address + ":8080/"@),
                        Ok(None) => Err(ConfigurationError::UrlNotDetected),
                        Err(e) => Err(e),
                    },
                    None => Err(ConfigurationError::RouteTableUnreadable),
                }
            } else {
                Err(ConfigurationError::UrlNotDetected)
            }
        },
    }
}

/// The view of a result that holds an address.
pub open spec fn url_result(r: Result<String, ConfigurationError>) -> Result<
    Seq<char>,
    ConfigurationError,
> {
    match r {
        Ok(url) => Ok(url@),
        Err(e) => Err(e),
    }
}

/// Works out the address of the daemon from the configuration and, where
/// that names none, from what was seen of the host.
pub fn get_bittorrent_api_url(configuration: &Configuration, probe: &HostProbe) -> (url: Result<
    String,
    ConfigurationError,
>)
    ensures
        url_result(url) == api_url(configuration@.url, probe@),
{
    if let Some(url) = &configuration.url {
        return Ok(url.clone());
    }
    if run_in_docker(&probe.markers) {
        match &probe.route_table {
            Some(lines) => {
                match get_gateway_address(lines) {
                    Ok(Some(address)) => {
                        let mut url = String::from_str("http://");
                        url.append(address.as_str());
                        url.append(":8080/");
                        return Ok(url);
                    },
                    Ok(None) => {},
                    Err(e) => {
                        return Err(e);
                    },
                }
            },
            None => {
                return Err(ConfigurationError::RouteTableUnreadable);
            },
        }
    }
    Err(ConfigurationError::UrlNotDetected)
}

} // verus!
