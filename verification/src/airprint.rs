//! Semantic derivation for printer-advertisement records: address
//! family, resource addressing mode and security posture.
//!
//! The single connection-info byte packs three independent bitfields:
//! bits 4-7 select the address type, bits 2-3 the resource addressing
//! mode, bits 0-1 the security mode. Unmatched codes degrade to
//! `Unknown` rather than failing.

use vstd::prelude::*;

use crate::messages::AirPrintMessage;

verus! {

/// The address family advertised in bits 4-7 of the connection-info
/// byte.
#[derive(Debug, Clone, Copy, PartialEq, Eq, Structural)]
pub enum AddressType {
    IPv4,
    IPv6,
    Unknown,
}

/// The resource addressing mode advertised in bits 2-3 of the
/// connection-info byte.
#[derive(Debug, Clone, Copy, PartialEq, Eq, Structural)]
pub enum ResourceType {
    ResourcePath,
    PrinterId,
    Unknown,
}

/// The security mode advertised in bits 0-1 of the connection-info
/// byte.
#[derive(Debug, Clone, Copy, PartialEq, Eq, Structural)]
pub enum SecurityType {
    NoSecurity,
    TLS,
    Unknown,
}

/// Everything derived from one printer advertisement. The printer id
/// is present only in PrinterId addressing mode, the resource path
/// only in ResourcePath mode with an index inside the fixed path
/// table, and each address only for the matching address family.
pub struct Printer {
    pub address_type: AddressType,
    pub resource_type: ResourceType,
    pub security_type: SecurityType,
    pub printer_id: Option<u16>,
    pub resource_path: Option<String>,
    pub port: u16,
    pub ipv4_address: Option<u32>,
    pub ipv6_address: Option<u128>,
    pub measured_power: u8,
}

/// The address family selected by the high nibble of the
/// connection-info byte.
pub open spec fn spec_address_type(v: u8) -> AddressType {
    if v >> 4 == 0x01 {
        AddressType::IPv4
    } else if v >> 4 == 0x02 {
        AddressType::IPv6
    } else {
        AddressType::Unknown
    }
}

/// The resource addressing mode selected by bits 2-3 of the
/// connection-info byte.
pub open spec fn spec_resource_type(v: u8) -> ResourceType {
    if (v >> 2) & 0x03 == 0x00 {
        ResourceType::ResourcePath
    } else if (v >> 2) & 0x03 == 0x01 {
        ResourceType::PrinterId
    } else {
        ResourceType::Unknown
    }
}

/// The security mode selected by bits 0-1 of the connection-info byte.
pub open spec fn spec_security_type(v: u8) -> SecurityType {
    if v & 0x03 == 0x00 {
        SecurityType::NoSecurity
    } else if v & 0x03 == 0x01 {
        SecurityType::TLS
    } else {
        SecurityType::Unknown
    }
}

/// The entry of the fixed seven-entry path table at index `i`.
pub open spec fn spec_resource_path(i: int) -> Seq<char>
    recommends
        0 <= i < 7,
{
    if i == 0 {
        "/ipp/print"@
    } else if i == 1 {
        "/ipp/printer"@
    } else if i == 2 {
        "/printers/Laserjet"@
    } else if i == 3 {
        "/ipp/port1"@
    } else if i == 4 {
        "/Epson_IPP_Printer"@
    } else if i == 5 {
        "/ipp/ap"@
    } else {
        "/printer"@
    }
}

/// Looks an index up in the fixed seven-entry path table; an
/// out-of-range index yields no path, not an error.
fn resource_path_value(i: u16) -> (r: Option<String>)
    ensures
        i < 7 ==> (r matches Some(s) && s@ == spec_resource_path(i as int)),
        i >= 7 ==> r is None,
{
    match i {
        0 => Some("/ipp/print".to_owned()),
        1 => Some("/ipp/printer".to_owned()),
        2 => Some("/printers/Laserjet".to_owned()),
        3 => Some("/ipp/port1".to_owned()),
        4 => Some("/Epson_IPP_Printer".to_owned()),
        5 => Some("/ipp/ap".to_owned()),
        6 => Some("/printer".to_owned()),
        _ => None,
    }
}

impl From<u8> for AddressType {
    /// Selects the address family from the connection-info byte.
    fn from(value: u8) -> (r: AddressType)
        ensures
            r == spec_address_type(value),
    {
        match value >> 4 {
            0x01 => AddressType::IPv4,
            0x02 => AddressType::IPv6,
            _ => AddressType::Unknown,
        }
    }
}

impl vstd::std_specs::convert::FromSpecImpl<u8> for AddressType {
    open spec fn obeys_from_spec() -> bool {
        true
    }

    open spec fn from_spec(value: u8) -> Self {
        spec_address_type(value)
    }
}

impl From<u8> for ResourceType {
    /// Selects the resource addressing mode from the connection-info
    /// byte.
    fn from(value: u8) -> (r: ResourceType)
        ensures
            r == spec_resource_type(value),
    {
        match (value >> 2) & 0x03 {
            0x00 => ResourceType::ResourcePath,
            0x01 => ResourceType::PrinterId,
            _ => ResourceType::Unknown,
        }
    }
}

impl vstd::std_specs::convert::FromSpecImpl<u8> for ResourceType {
    open spec fn obeys_from_spec() -> bool {
        true
    }

    open spec fn from_spec(value: u8) -> Self {
        spec_resource_type(value)
    }
}

impl From<u8> for SecurityType {
    /// Selects the security mode from the connection-info byte.
    fn from(value: u8) -> (r: SecurityType)
        ensures
            r == spec_security_type(value),
    {
        match value & 0x03 {
            0x00 => SecurityType::NoSecurity,
            0x01 => SecurityType::TLS,
            _ => SecurityType::Unknown,
        }
    }
}

impl vstd::std_specs::convert::FromSpecImpl<u8> for SecurityType {
    open spec fn obeys_from_spec() -> bool {
        true
    }

    open spec fn from_spec(value: u8) -> Self {
        spec_security_type(value)
    }
}

impl Printer {
    /// Derives the printer view of one advertisement record. There is
    /// no failure path: unmatched codes become `Unknown` and an
    /// out-of-range path index yields no path.
    ///
    /// The IPv6 value reproduces the composition in use on the wire
    /// side, which shifts the IPv4 field by `96 + ip6_address` bits; a
    /// suffix of 32 or more would shift past the 128-bit width, so
    /// such records are ruled out up front.
    pub fn from(value: AirPrintMessage) -> (r: Printer)
        requires
            spec_address_type(value.connection_info) is IPv6 ==> value.ip6_address < 32,
        ensures
            r.address_type == spec_address_type(value.connection_info),
            r.resource_type == spec_resource_type(value.connection_info),
            r.security_type == spec_security_type(value.connection_info),
            r.printer_id == (if spec_resource_type(value.connection_info) is PrinterId {
                Some(value.rp_index_value)
            } else {
                None::<u16>
            }),
            spec_resource_type(value.connection_info) is ResourcePath && value.rp_index_value < 7
                ==> (r.resource_path matches Some(s) && s@ == spec_resource_path(
                value.rp_index_value as int,
            )),
            !(spec_resource_type(value.connection_info) is ResourcePath && value.rp_index_value < 7)
                ==> r.resource_path is None,
            r.ipv4_address == (if spec_address_type(value.connection_info) is IPv4 {
                Some(value.ip4_address)
            } else {
                None::<u32>
            }),
            spec_address_type(value.connection_info) is IPv6 ==> r.ipv6_address == Some(
                (value.ip4_address as u128) << ((96 + value.ip6_address) as u128),
            ),
            !(spec_address_type(value.connection_info) is IPv6) ==> r.ipv6_address is None,
            r.port == value.port,
            r.measured_power == value.measured_power,
    {
        let address_type = AddressType::from(value.connection_info);
        let resource_type = ResourceType::from(value.connection_info);

        Printer {
            address_type,
            resource_type,
            security_type: SecurityType::from(value.connection_info),
            printer_id: match resource_type {
                ResourceType::PrinterId => Some(value.rp_index_value),
                _ => None,
            },
            resource_path: match resource_type {
                ResourceType::ResourcePath => resource_path_value(value.rp_index_value),
                _ => None,
            },
            ipv4_address: match address_type {
                AddressType::IPv4 => Some(value.ip4_address),
                _ => None,
            },
            ipv6_address: match address_type {
                AddressType::IPv6 => Some((value.ip4_address as u128) << (96 + value.ip6_address)),
                _ => None,
            },
            port: value.port,
            measured_power: value.measured_power,
        }
    }
}

} // verus!
