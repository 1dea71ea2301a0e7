//! Wire decoding: envelope validation and the five per-kind decoders.
//!
//! Every message starts with a two-byte `{opcode, length}` envelope.
//! Multi-byte fields are big-endian. Two kinds (proximity pairing and
//! handoff) carry a trailing opaque encrypted payload that is copied
//! out verbatim and never interpreted.

use vstd::prelude::*;

use crate::{Error, ErrorKind};

verus! {

/// The two-byte prefix common to every message kind.
#[derive(Debug, Clone)]
pub struct MessageHeader {
    pub opcode: u8,
    pub length: usize,
}

/// A proximity-pairing advertisement (opcode 0x07): accessory model,
/// status and battery bytes, plus an opaque encrypted tail of
/// `length - 11` bytes.
#[derive(Debug, Clone)]
pub struct ProximityPairMessage {
    pub header: MessageHeader,
    pub device_model: u16,
    pub device_status: u8,
    pub battery1: u8,
    pub battery2: u8,
    pub lid_open_count: u8,
    pub device_color: u8,
    pub encrypted_payload: Vec<u8>,
}

/// A printer advertisement (opcode 0x03): one packed connection-info
/// byte, a resource index, port, addresses and measured power.
#[derive(Debug, Clone)]
pub struct AirPrintMessage {
    pub header: MessageHeader,
    pub connection_info: u8,
    pub rp_index_value: u16,
    pub port: u16,
    pub ip4_address: u32,
    pub ip6_address: u128,
    pub measured_power: u8,
}

/// A media-target advertisement (opcode 0x09).
#[derive(Debug, Clone)]
pub struct AirplayTargetMessage {
    pub header: MessageHeader,
    pub flags: u8,
    pub seed: u8,
    pub ip4_address: u32,
}

/// A handoff advertisement (opcode 0x0C) with an opaque encrypted tail
/// of `length - 6` bytes.
#[derive(Debug, Clone)]
pub struct HandoffMessage {
    pub header: MessageHeader,
    pub clipboard_status: u8,
    pub iv: u16,
    pub gcm_auth: u8,
    pub encrypted_payload: Vec<u8>,
}

/// A nearby-info advertisement (opcode 0x10). The 24-bit
/// authentication tag is built from one source byte repeated at three
/// shift offsets, exactly as the wire protocol in use does.
#[derive(Debug, Clone)]
pub struct NearbyInfoMessage {
    pub header: MessageHeader,
    pub status_flags: u8,
    pub action_code: u8,
    pub data_flags: u8,
    pub auth_tag: u32,
}

/// The closed tagged union over the five supported message kinds.
#[derive(Debug, Clone)]
pub enum Message {
    Airprint(AirPrintMessage),
    AirplayTarget(AirplayTargetMessage),
    ProximityPairing(ProximityPairMessage),
    Handoff(HandoffMessage),
    NearbyInfo(NearbyInfoMessage),
}

/// The envelope is acceptable for `opcode`: the buffer holds the two
/// header bytes, the leading byte is the expected opcode, and the
/// declared length plus the two header bytes fits in the buffer.
pub open spec fn envelope_ok(data: Seq<u8>, opcode: u8) -> bool {
    &&& data.len() >= 2
    &&& data[0] == opcode
    &&& data.len() >= data[1] + 2
}

/// 16-bit big-endian value of the two bytes at `i`.
pub open spec fn be16_at(s: Seq<u8>, i: int) -> int
    recommends
        0 <= i,
        i + 1 < s.len(),
{
    s[i] * 0x100 + s[i + 1]
}

/// 32-bit big-endian value of the four bytes at `i`.
pub open spec fn be32_at(s: Seq<u8>, i: int) -> int
    recommends
        0 <= i,
        i + 3 < s.len(),
{
    s[i] * 0x1000000 + s[i + 1] * 0x10000 + s[i + 2] * 0x100 + s[i + 3]
}

/// 96-bit big-endian value of the twelve bytes at `i`.
pub open spec fn be96_at(s: Seq<u8>, i: int) -> int
    recommends
        0 <= i,
        i + 11 < s.len(),
{
    s[i] * 0x10000000000000000000000 + s[i + 1] * 0x100000000000000000000
        + s[i + 2] * 0x1000000000000000000 + s[i + 3] * 0x10000000000000000
        + s[i + 4] * 0x100000000000000 + s[i + 5] * 0x1000000000000
        + s[i + 6] * 0x10000000000 + s[i + 7] * 0x100000000 + s[i + 8] * 0x1000000
        + s[i + 9] * 0x10000 + s[i + 10] * 0x100 + s[i + 11]
}

/// `m` is the proximity-pairing record decoded from `s`.
pub open spec fn prox_decodes(s: Seq<u8>, m: ProximityPairMessage) -> bool {
    &&& m.header.opcode == s[0]
    &&& m.header.length == s[1]
    &&& m.device_model == be16_at(s, 3)
    &&& m.device_status == s[5]
    &&& m.battery1 == s[6]
    &&& m.battery2 == s[7]
    &&& m.lid_open_count == s[8]
    &&& m.device_color == s[9]
    &&& m.encrypted_payload@ == s.subrange(11, s[1] as int)
}

/// `m` is the printer record decoded from `s`.
pub open spec fn airprint_decodes(s: Seq<u8>, m: AirPrintMessage) -> bool {
    &&& m.header.opcode == s[0]
    &&& m.header.length == s[1]
    &&& m.connection_info == s[2]
    &&& m.rp_index_value == be16_at(s, 3)
    &&& m.port == be16_at(s, 5)
    &&& m.ip4_address == be32_at(s, 7)
    &&& m.ip6_address == be96_at(s, 11)
    &&& m.measured_power == s[23]
}

/// `m` is the media-target record decoded from `s`.
pub open spec fn airplay_decodes(s: Seq<u8>, m: AirplayTargetMessage) -> bool {
    &&& m.header.opcode == s[0]
    &&& m.header.length == s[1]
    &&& m.flags == s[2]
    &&& m.seed == s[3]
    &&& m.ip4_address == be32_at(s, 4)
}

/// `m` is the handoff record decoded from `s`.
pub open spec fn handoff_decodes(s: Seq<u8>, m: HandoffMessage) -> bool {
    &&& m.header.opcode == s[0]
    &&& m.header.length == s[1]
    &&& m.clipboard_status == s[2]
    &&& m.iv == be16_at(s, 3)
    &&& m.gcm_auth == s[5]
    &&& m.encrypted_payload@ == s.subrange(6, s[1] as int)
}

/// `m` is the nearby-info record decoded from `s`.
pub open spec fn nearby_decodes(s: Seq<u8>, m: NearbyInfoMessage) -> bool {
    &&& m.header.opcode == s[0]
    &&& m.header.length == s[1]
    &&& m.status_flags == s[2] >> 4
    &&& m.action_code == s[2] & 0x0F
    &&& m.data_flags == s[3]
    &&& m.auth_tag == s[4] * 0x10000 + s[4] * 0x100 + s[4]
}

/// `op` is one of the five opcodes the dispatcher routes.
pub open spec fn known_opcode(op: u8) -> bool {
    op == 0x03 || op == 0x07 || op == 0x09 || op == 0x0C || op == 0x10
}

/// `m` is the tagged record decoded from `s`, whichever kind its
/// leading opcode selects.
pub open spec fn message_decodes(s: Seq<u8>, m: Message) -> bool {
    match m {
        Message::Airprint(p) => s[0] == 0x03 && airprint_decodes(s, p),
        Message::AirplayTarget(p) => s[0] == 0x09 && airplay_decodes(s, p),
        Message::ProximityPairing(p) => s[0] == 0x07 && prox_decodes(s, p),
        Message::Handoff(p) => s[0] == 0x0C && handoff_decodes(s, p),
        Message::NearbyInfo(p) => s[0] == 0x10 && nearby_decodes(s, p),
    }
}

/// The buffer carries the fixed fields of the kind that its leading
/// opcode selects: the declared length covers the fixed prefix of the
/// two variable-tail kinds, and the buffer itself reaches the last
/// fixed offset of the three fixed-size kinds.
pub open spec fn fixed_fields_fit(data: Seq<u8>) -> bool
    recommends
        data.len() >= 2,
        known_opcode(data[0]),
{
    if data[0] == 0x07 {
        data[1] >= 11
    } else if data[0] == 0x0C {
        data[1] >= 6
    } else if data[0] == 0x03 {
        data.len() >= 24
    } else if data[0] == 0x09 {
        data.len() >= 8
    } else {
        data.len() >= 5
    }
}

/// The diagnostic a failed envelope validation against `expected`
/// carries: one text per check, with `mismatch` the one for a wrong
/// leading byte.
pub open spec fn envelope_error_message(data: Seq<u8>, expected: u8, mismatch: Seq<char>) -> Seq<
    char,
> {
    if data.len() < 2 {
        "Length mismatch. Cannot read opcode + length"@
    } else if data[0] != expected {
        mismatch
    } else {
        "Packet length != buffer length"@
    }
}

/// The diagnostic a failed decode against `expected` carries: the
/// envelope checks come first, then the fixed-fields check.
pub open spec fn decode_error_message(data: Seq<u8>, expected: u8, mismatch: Seq<char>) -> Seq<
    char,
> {
    if !envelope_ok(data, expected) {
        envelope_error_message(data, expected, mismatch)
    } else {
        "Packet length too short for fixed fields"@
    }
}

/// Validates the two-byte envelope against `expected`. On success the
/// raw header is returned; each failure carries the diagnostic text
/// for the check that failed (`mismatch` for a wrong leading byte).
fn validate_envelope(data: &[u8], expected: u8, mismatch: &str) -> (r: Result<
    MessageHeader,
    Error,
>)
    ensures
        r is Ok <==> envelope_ok(data@, expected),
        r matches Ok(h) ==> h.opcode == data@[0] && h.length == data@[1],
        r matches Err(e) ==> (e.message matches Some(m) && e.kind is DecodeError && m@
            == envelope_error_message(data@, expected, mismatch@)),
{
    if data.len() < 2 {
        return Err(Error::new(ErrorKind::DecodeError, "Length mismatch. Cannot read opcode + length"));
    }
    let opcode = data[0];
    if opcode != expected {
        return Err(Error::new(ErrorKind::DecodeError, mismatch));
    }
    let length = data[1] as usize;
    if data.len() < length + 2 {
        return Err(Error::new(ErrorKind::DecodeError, "Packet length != buffer length"));
    }
    Ok(MessageHeader { opcode, length })
}

/// Copies `data[from..to]` into a fresh vector.
fn copy_range(data: &[u8], from: usize, to: usize) -> (r: Vec<u8>)
    requires
        from <= to <= data@.len(),
    ensures
        r@ == data@.subrange(from as int, to as int),
{
    let mut r: Vec<u8> = Vec::new();
    let mut i: usize = from;
    while i < to
        invariant
            from <= i <= to <= data@.len(),
            r@ == data@.subrange(from as int, i as int),
        decreases to - i,
    {
        r.push(data[i]);
        proof {
            assert(data@.subrange(from as int, i as int).push(data@[i as int]) =~= data@.subrange(
                from as int,
                (i + 1) as int,
            ));
        }
        i = i + 1;
    }
    r
}

/// Reads the 16-bit big-endian value at `i`.
fn read_be16(data: &[u8], i: usize) -> (r: u16)
    requires
        i + 1 < data@.len(),
    ensures
        r == be16_at(data@, i as int),
{
    (data[i] as u16) * 0x100 + (data[i + 1] as u16)
}

/// Reads the 32-bit big-endian value at `i`.
fn read_be32(data: &[u8], i: usize) -> (r: u32)
    requires
        i + 3 < data@.len(),
    ensures
        r == be32_at(data@, i as int),
{
    (data[i] as u32) * 0x1000000 + (data[i + 1] as u32) * 0x10000 + (data[i + 2] as u32) * 0x100
        + (data[i + 3] as u32)
}

/// Reads the 96-bit big-endian value of the twelve bytes at `i`.
fn read_be96(data: &[u8], i: usize) -> (r: u128)
    requires
        i + 11 < data@.len(),
    ensures
        r == be96_at(data@, i as int),
{
    (data[i] as u128) * 0x10000000000000000000000 + (data[i + 1] as u128)
        * 0x100000000000000000000 + (data[i + 2] as u128) * 0x1000000000000000000 + (data[i
        + 3] as u128) * 0x10000000000000000 + (data[i + 4] as u128) * 0x100000000000000 + (data[i
        + 5] as u128) * 0x1000000000000 + (data[i + 6] as u128) * 0x10000000000 + (data[i
        + 7] as u128) * 0x100000000 + (data[i + 8] as u128) * 0x1000000 + (data[i + 9] as u128)
        * 0x10000 + (data[i + 10] as u128) * 0x100 + (data[i + 11] as u128)
}

impl ProximityPairMessage {
    /// Decodes a proximity-pairing advertisement (opcode 0x07).
    ///
    /// Succeeds exactly when the envelope is acceptable and the
    /// declared length carries the eleven-byte fixed prefix; every
    /// field of the record is then the stated function of the input
    /// bytes. Every failure is a returned decode error, never a panic.
    pub fn decode(data: &[u8]) -> (r: Result<ProximityPairMessage, Error>)
        ensures
            r is Ok <==> envelope_ok(data@, 0x07) && fixed_fields_fit(data@),
            r matches Ok(m) ==> prox_decodes(data@, m),
            r matches Err(e) ==> (e.message matches Some(m) && e.kind is DecodeError && m@
                == decode_error_message(
                data@,
                0x07,
                "Tried to decode Proximity Pair message with invalid opcode. Expected 0x07"@,
            )),
    {
        let header = match validate_envelope(
            data,
            0x07,
            "Tried to decode Proximity Pair message with invalid opcode. Expected 0x07",
        ) {
            Ok(h) => h,
            Err(e) => {
                return Err(e);
            },
        };
        let length = header.length;
        if length < 11 {
            return Err(
                Error::new(ErrorKind::DecodeError, "Packet length too short for fixed fields"),
            );
        }
        let encrypted_payload = copy_range(data, 11, length);
        Ok(
            ProximityPairMessage {
                device_model: read_be16(data, 3),
                device_status: data[5],
                battery1: data[6],
                battery2: data[7],
                lid_open_count: data[8],
                device_color: data[9],
                encrypted_payload,
                header,
            },
        )
    }
}

impl AirPrintMessage {
    /// Decodes a printer advertisement (opcode 0x03).
    ///
    /// Succeeds exactly when the envelope is acceptable and the buffer
    /// reaches the last fixed field at byte 23; every field of the
    /// record is then the stated function of the input bytes. Every
    /// failure is a returned decode error, never a panic.
    pub fn decode(data: &[u8]) -> (r: Result<AirPrintMessage, Error>)
        ensures
            r is Ok <==> envelope_ok(data@, 0x03) && fixed_fields_fit(data@),
            r matches Ok(m) ==> airprint_decodes(data@, m),
            r matches Err(e) ==> (e.message matches Some(m) && e.kind is DecodeError && m@
                == decode_error_message(
                data@,
                0x03,
                "Tried to decode AirPrint message with invalid opcode. Expected 0x03"@,
            )),
    {
        let header = match validate_envelope(
            data,
            0x03,
            "Tried to decode AirPrint message with invalid opcode. Expected 0x03",
        ) {
            Ok(h) => h,
            Err(e) => {
                return Err(e);
            },
        };
        if data.len() < 24 {
            return Err(
                Error::new(ErrorKind::DecodeError, "Packet length too short for fixed fields"),
            );
        }
        Ok(
            AirPrintMessage {
                connection_info: data[2],
                rp_index_value: read_be16(data, 3),
                port: read_be16(data, 5),
                ip4_address: read_be32(data, 7),
                ip6_address: read_be96(data, 11),
                measured_power: data[23],
                header,
            },
        )
    }
}

impl AirplayTargetMessage {
    /// Decodes a media-target advertisement (opcode 0x09).
    ///
    /// Succeeds exactly when the envelope is acceptable and the buffer
    /// reaches the last fixed field at byte 7; every field of the
    /// record is then the stated function of the input bytes. Every
    /// failure is a returned decode error, never a panic.
    pub fn decode(data: &[u8]) -> (r: Result<AirplayTargetMessage, Error>)
        ensures
            r is Ok <==> envelope_ok(data@, 0x09) && fixed_fields_fit(data@),
            r matches Ok(m) ==> airplay_decodes(data@, m),
            r matches Err(e) ==> (e.message matches Some(m) && e.kind is DecodeError && m@
                == decode_error_message(
                data@,
                0x09,
                "Tried to decode Airplay Target message with invalid opcode. Expected 0x09"@,
            )),
    {
        let header = match validate_envelope(
            data,
            0x09,
            "Tried to decode Airplay Target message with invalid opcode. Expected 0x09",
        ) {
            Ok(h) => h,
            Err(e) => {
                return Err(e);
            },
        };
        if data.len() < 8 {
            return Err(
                Error::new(ErrorKind::DecodeError, "Packet length too short for fixed fields"),
            );
        }
        Ok(
            AirplayTargetMessage {
                flags: data[2],
                seed: data[3],
                ip4_address: read_be32(data, 4),
                header,
            },
        )
    }
}

impl HandoffMessage {
    /// Decodes a handoff advertisement (opcode 0x0C).
    ///
    /// Succeeds exactly when the envelope is acceptable and the
    /// declared length carries the six-byte fixed prefix; every field
    /// of the record is then the stated function of the input bytes.
    /// Every failure is a returned decode error, never a panic.
    pub fn decode(data: &[u8]) -> (r: Result<HandoffMessage, Error>)
        ensures
            r is Ok <==> envelope_ok(data@, 0x0C) && fixed_fields_fit(data@),
            r matches Ok(m) ==> handoff_decodes(data@, m),
            r matches Err(e) ==> (e.message matches Some(m) && e.kind is DecodeError && m@
                == decode_error_message(
                data@,
                0x0C,
                "Tried to decode Handoff message with invalid opcode. Expected 0x0C"@,
            )),
    {
        let header = match validate_envelope(
            data,
            0x0C,
            "Tried to decode Handoff message with invalid opcode. Expected 0x0C",
        ) {
            Ok(h) => h,
            Err(e) => {
                return Err(e);
            },
        };
        let length = header.length;
        if length < 6 {
            return Err(
                Error::new(ErrorKind::DecodeError, "Packet length too short for fixed fields"),
            );
        }
        let encrypted_payload = copy_range(data, 6, length);
        Ok(
            HandoffMessage {
                clipboard_status: data[2],
                iv: read_be16(data, 3),
                gcm_auth: data[5],
                encrypted_payload,
                header,
            },
        )
    }
}

impl NearbyInfoMessage {
    /// Decodes a nearby-info advertisement (opcode 0x10).
    ///
    /// Succeeds exactly when the envelope is acceptable and the buffer
    /// reaches the last fixed field at byte 4; every field of the
    /// record is then the stated function of the input bytes. Every
    /// failure is a returned decode error, never a panic.
    pub fn decode(data: &[u8]) -> (r: Result<NearbyInfoMessage, Error>)
        ensures
            r is Ok <==> envelope_ok(data@, 0x10) && fixed_fields_fit(data@),
            r matches Ok(m) ==> nearby_decodes(data@, m),
            r matches Err(e) ==> (e.message matches Some(m) && e.kind is DecodeError && m@
                == decode_error_message(
                data@,
                0x10,
                "Tried to decode Nearby Info message with invalid opcode. Expected 0x10"@,
            )),
    {
        let header = match validate_envelope(
            data,
            0x10,
            "Tried to decode Nearby Info message with invalid opcode. Expected 0x10",
        ) {
            Ok(h) => h,
            Err(e) => {
                return Err(e);
            },
        };
        if data.len() < 5 {
            return Err(
                Error::new(ErrorKind::DecodeError, "Packet length too short for fixed fields"),
            );
        }
        let source = data[4];
        Ok(
            NearbyInfoMessage {
                status_flags: data[2] >> 4,
                action_code: data[2] & 0x0F,
                data_flags: data[3],
                auth_tag: (source as u32) * 0x10000 + (source as u32) * 0x100 + (source as u32),
                header,
            },
        )
    }
}

/// `a` and `b` agree on every field (the opaque tails compared by
/// contents).
pub open spec fn prox_fields_eq(a: ProximityPairMessage, b: ProximityPairMessage) -> bool {
    &&& a.header.opcode == b.header.opcode
    &&& a.header.length == b.header.length
    &&& a.device_model == b.device_model
    &&& a.device_status == b.device_status
    &&& a.battery1 == b.battery1
    &&& a.battery2 == b.battery2
    &&& a.lid_open_count == b.lid_open_count
    &&& a.device_color == b.device_color
    &&& a.encrypted_payload@ == b.encrypted_payload@
}

/// `a` and `b` agree on every field.
pub open spec fn airprint_fields_eq(a: AirPrintMessage, b: AirPrintMessage) -> bool {
    &&& a.header.opcode == b.header.opcode
    &&& a.header.length == b.header.length
    &&& a.connection_info == b.connection_info
    &&& a.rp_index_value == b.rp_index_value
    &&& a.port == b.port
    &&& a.ip4_address == b.ip4_address
    &&& a.ip6_address == b.ip6_address
    &&& a.measured_power == b.measured_power
}

/// `a` and `b` agree on every field.
pub open spec fn airplay_fields_eq(a: AirplayTargetMessage, b: AirplayTargetMessage) -> bool {
    &&& a.header.opcode == b.header.opcode
    &&& a.header.length == b.header.length
    &&& a.flags == b.flags
    &&& a.seed == b.seed
    &&& a.ip4_address == b.ip4_address
}

/// `a` and `b` agree on every field (the opaque tails compared by
/// contents).
pub open spec fn handoff_fields_eq(a: HandoffMessage, b: HandoffMessage) -> bool {
    &&& a.header.opcode == b.header.opcode
    &&& a.header.length == b.header.length
    &&& a.clipboard_status == b.clipboard_status
    &&& a.iv == b.iv
    &&& a.gcm_auth == b.gcm_auth
    &&& a.encrypted_payload@ == b.encrypted_payload@
}

/// `a` and `b` agree on every field.
pub open spec fn nearby_fields_eq(a: NearbyInfoMessage, b: NearbyInfoMessage) -> bool {
    &&& a.header.opcode == b.header.opcode
    &&& a.header.length == b.header.length
    &&& a.status_flags == b.status_flags
    &&& a.action_code == b.action_code
    &&& a.data_flags == b.data_flags
    &&& a.auth_tag == b.auth_tag
}

/// `a` and `b` carry the same kind and agree on every field of it.
pub open spec fn message_fields_eq(a: Message, b: Message) -> bool {
    match (a, b) {
        (Message::Airprint(x), Message::Airprint(y)) => airprint_fields_eq(x, y),
        (Message::AirplayTarget(x), Message::AirplayTarget(y)) => airplay_fields_eq(x, y),
        (Message::ProximityPairing(x), Message::ProximityPairing(y)) => prox_fields_eq(x, y),
        (Message::Handoff(x), Message::Handoff(y)) => handoff_fields_eq(x, y),
        (Message::NearbyInfo(x), Message::NearbyInfo(y)) => nearby_fields_eq(x, y),
        _ => false,
    }
}

/// Decoding is deterministic: no encoder exists here, but any two
/// records that the decode relation admits for the same byte sequence
/// carry the same kind and are field-identical.
pub proof fn lemma_decode_deterministic(s: Seq<u8>, a: Message, b: Message)
    requires
        message_decodes(s, a),
        message_decodes(s, b),
    ensures
        message_fields_eq(a, b),
{
}

/// The two uppercase hexadecimal digits of `b`.
pub open spec fn spec_hex_byte(b: u8) -> Seq<char> {
    spec_hex_digit(b >> 4) + spec_hex_digit(b & 0x0F)
}

/// The uppercase hexadecimal digit for a nibble value.
pub open spec fn spec_hex_digit(n: u8) -> Seq<char> {
    if n == 0x0 {
        "0"@
    } else if n == 0x1 {
        "1"@
    } else if n == 0x2 {
        "2"@
    } else if n == 0x3 {
        "3"@
    } else if n == 0x4 {
        "4"@
    } else if n == 0x5 {
        "5"@
    } else if n == 0x6 {
        "6"@
    } else if n == 0x7 {
        "7"@
    } else if n == 0x8 {
        "8"@
    } else if n == 0x9 {
        "9"@
    } else if n == 0xA {
        "A"@
    } else if n == 0xB {
        "B"@
    } else if n == 0xC {
        "C"@
    } else if n == 0xD {
        "D"@
    } else if n == 0xE {
        "E"@
    } else {
        "F"@
    }
}

/// The uppercase hexadecimal digit for a nibble value.
fn hex_digit(n: u8) -> (s: &'static str)
    ensures
        s@ == spec_hex_digit(n),
{
    match n {
        0x0 => "0",
        0x1 => "1",
        0x2 => "2",
        0x3 => "3",
        0x4 => "4",
        0x5 => "5",
        0x6 => "6",
        0x7 => "7",
        0x8 => "8",
        0x9 => "9",
        0xA => "A",
        0xB => "B",
        0xC => "C",
        0xD => "D",
        0xE => "E",
        _ => "F",
    }
}

/// The two uppercase hexadecimal digits of `b` as a fresh string.
fn hex_byte_string(b: u8) -> (s: String)
    ensures
        s@ == spec_hex_byte(b),
{
    let mut s = String::from_str(hex_digit(b >> 4));
    s.append(hex_digit(b & 0x0F));
    s
}

impl Message {
    /// Routes a buffer to the decoder its leading opcode selects.
    ///
    /// Succeeds exactly when the opcode is one of the five known ones,
    /// the envelope is acceptable for it, and the buffer carries the
    /// kind's fixed fields; the record is then the variant for that
    /// opcode with every field pinned by the decode relation. Every
    /// failure — an empty buffer, an unknown opcode (named in
    /// hexadecimal), a failed envelope check, missing fixed fields —
    /// is a returned decode error, never a panic.
    pub fn decode(data: &[u8]) -> (r: Result<Message, Error>)
        ensures
            r is Ok <==> data@.len() >= 1 && known_opcode(data@[0]) && envelope_ok(
                data@,
                data@[0],
            ) && fixed_fields_fit(data@),
            r matches Ok(m) ==> message_decodes(data@, m),
            r matches Err(e) ==> (e.kind is DecodeError && e.message is Some),
            data@.len() == 0 ==> (r matches Err(e) && e.message matches Some(m) && m@
                == "Length mismatch. Cannot read opcode + length"@),
            data@.len() >= 1 && !known_opcode(data@[0]) ==> (r matches Err(e)
                && e.message matches Some(m) && m@ == "Unknown opcode: "@ + spec_hex_byte(
                data@[0],
            )),
            data@.len() >= 1 && known_opcode(data@[0]) && !envelope_ok(data@, data@[0]) ==> (
            r matches Err(e) && e.message matches Some(m) && m@ == (
            if data@.len() < 2 {
                "Length mismatch. Cannot read opcode + length"@
            } else {
                "Packet length != buffer length"@
            })),
            data@.len() >= 1 && known_opcode(data@[0]) && envelope_ok(data@, data@[0])
                && !fixed_fields_fit(data@) ==> (r matches Err(e) && e.message matches Some(m) && m@
                == "Packet length too short for fixed fields"@),
    {
        if data.len() < 1 {
            return Err(
                Error::new(ErrorKind::DecodeError, "Length mismatch. Cannot read opcode + length"),
            );
        }
        match data[0] {
            0x07 => match ProximityPairMessage::decode(data) {
                Ok(m) => Ok(Message::ProximityPairing(m)),
                Err(e) => Err(e),
            },
            0x09 => match AirplayTargetMessage::decode(data) {
                Ok(m) => Ok(Message::AirplayTarget(m)),
                Err(e) => Err(e),
            },
            0x03 => match AirPrintMessage::decode(data) {
                Ok(m) => Ok(Message::Airprint(m)),
                Err(e) => Err(e),
            },
            0x0C => match HandoffMessage::decode(data) {
                Ok(m) => Ok(Message::Handoff(m)),
                Err(e) => Err(e),
            },
            0x10 => match NearbyInfoMessage::decode(data) {
                Ok(m) => Ok(Message::NearbyInfo(m)),
                Err(e) => Err(e),
            },
            op => {
                let mut msg = String::from_str("Unknown opcode: ");
                let hex = hex_byte_string(op);
                msg.append(hex.as_str());
                Err(Error { kind: ErrorKind::DecodeError, message: Some(msg) })
            },
        }
    }
}

} // verus!
