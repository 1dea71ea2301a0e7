//! Semantic derivation for proximity-pairing records: accessory model,
//! color, battery percentages, charging flags and wear state.
//!
//! A single orientation bit of the status byte (bit 5) decides whether
//! the left or the right channel occupies the first nibble or bit pair
//! of each packed field; when the bit is clear the assignment is
//! flipped. Unrecognized codes degrade to `Unknown` rather than
//! failing.

use vstd::prelude::*;

use crate::messages::ProximityPairMessage;

verus! {

/// The accessory model, looked up from the 16-bit model code.
#[derive(Debug, Clone, Copy, PartialEq, Eq, Structural)]
pub enum ProximityDeviceModel {
    Unknown,
    Airpods,
    AirpodsPro,
    AirpodsMax,
    AirpodsGen2,
    AirpodsGen3,
    AirpodsProGen2,
    PowerBeats,
    PowerBeatsPro,
    BeatsSoloPro,
    BeatsStudioBuds,
    BeatsFlex,
    BeatsX,
    BeatsSolo3,
    BeatsStudio3,
    BeatsStudioPro,
    BeatsFitPro,
    BeatsStudioBudsPlus,
}

/// The accessory color, looked up from the color byte.
#[derive(Debug, Clone, Copy, PartialEq, Eq, Structural)]
pub enum ProximityDeviceColor {
    Unknown,
    White,
    Black,
    Red,
    Blue,
    Pink,
    Gray,
    Silver,
    Gold,
    RoseGold,
    SpaceGray,
    DarkBlue,
    LightBlue,
    Yellow,
}

/// The wear status of one earbud, from a 2-bit code.
#[derive(Debug, Clone, Copy, PartialEq, Eq, Structural)]
pub enum Status {
    Off,
    InEar,
    InCase,
    AirplaneMode,
    Unknown,
}

/// Battery percentages in steps of ten, one per component.
#[derive(Debug, Clone, Copy, PartialEq, Eq, Structural)]
pub struct BatteryState {
    pub case: u32,
    pub left: u32,
    pub right: u32,
}

/// Charging flags, one per component.
#[derive(Debug, Clone, Copy, PartialEq, Eq, Structural)]
pub struct ChargingState {
    pub case: bool,
    pub left: bool,
    pub right: bool,
}

/// Case-lid flag and the wear status of both earbuds.
#[derive(Debug, Clone, Copy, PartialEq, Eq, Structural)]
pub struct DeviceState {
    pub case_open: bool,
    pub left: Status,
    pub right: Status,
}

/// Everything derived from one proximity-pairing record.
#[derive(Debug, Clone, Copy, PartialEq, Eq, Structural)]
pub struct ProximityDevice {
    pub model: ProximityDeviceModel,
    pub color: ProximityDeviceColor,
    pub battery: BatteryState,
    pub charging_state: ChargingState,
    pub state: DeviceState,
}

/// The orientation bit (bit 5) of the status byte is clear, so the
/// left/right channel assignment is flipped.
pub open spec fn spec_flipped(status: u8) -> bool {
    (status >> 4) & 0x02 == 0
}

/// The model selected by a 16-bit model code; unmatched codes are
/// `Unknown`.
pub open spec fn spec_model(code: u16) -> ProximityDeviceModel {
    if code == 0x0220 {
        ProximityDeviceModel::Airpods
    } else if code == 0x0E20 {
        ProximityDeviceModel::AirpodsPro
    } else if code == 0x0A20 {
        ProximityDeviceModel::AirpodsMax
    } else if code == 0x0F20 {
        ProximityDeviceModel::AirpodsGen2
    } else if code == 0x1320 {
        ProximityDeviceModel::AirpodsGen3
    } else if code == 0x1420 {
        ProximityDeviceModel::AirpodsProGen2
    } else if code == 0x0320 {
        ProximityDeviceModel::PowerBeats
    } else if code == 0x0B20 {
        ProximityDeviceModel::PowerBeatsPro
    } else if code == 0x0C20 {
        ProximityDeviceModel::BeatsSoloPro
    } else if code == 0x1120 {
        ProximityDeviceModel::BeatsStudioBuds
    } else if code == 0x1020 {
        ProximityDeviceModel::BeatsFlex
    } else if code == 0x0520 {
        ProximityDeviceModel::BeatsX
    } else if code == 0x0620 {
        ProximityDeviceModel::BeatsSolo3
    } else if code == 0x0920 {
        ProximityDeviceModel::BeatsStudio3
    } else if code == 0x1720 {
        ProximityDeviceModel::BeatsStudioPro
    } else if code == 0x1220 {
        ProximityDeviceModel::BeatsFitPro
    } else if code == 0x1620 {
        ProximityDeviceModel::BeatsStudioBudsPlus
    } else {
        ProximityDeviceModel::Unknown
    }
}

/// The color selected by the color byte; unmatched codes are `Unknown`.
pub open spec fn spec_color(code: u8) -> ProximityDeviceColor {
    if code == 0x00 {
        ProximityDeviceColor::White
    } else if code == 0x01 {
        ProximityDeviceColor::Black
    } else if code == 0x02 {
        ProximityDeviceColor::Red
    } else if code == 0x03 {
        ProximityDeviceColor::Blue
    } else if code == 0x04 {
        ProximityDeviceColor::Pink
    } else if code == 0x05 {
        ProximityDeviceColor::Gray
    } else if code == 0x06 {
        ProximityDeviceColor::Silver
    } else if code == 0x07 {
        ProximityDeviceColor::Gold
    } else if code == 0x08 {
        ProximityDeviceColor::RoseGold
    } else if code == 0x09 {
        ProximityDeviceColor::SpaceGray
    } else if code == 0x0A {
        ProximityDeviceColor::DarkBlue
    } else if code == 0x0B {
        ProximityDeviceColor::LightBlue
    } else if code == 0x0C {
        ProximityDeviceColor::Yellow
    } else {
        ProximityDeviceColor::Unknown
    }
}

/// The wear status selected by a status code; unmatched codes are
/// `Unknown`.
pub open spec fn spec_status(code: u8) -> Status {
    if code == 0x00 {
        Status::Off
    } else if code == 0x01 {
        Status::InEar
    } else if code == 0x02 {
        Status::InCase
    } else if code == 0x03 {
        Status::AirplaneMode
    } else {
        Status::Unknown
    }
}

/// The wear state packed into the status byte: the case-lid flag in
/// bit 0 and a 2-bit status code per earbud, the two codes swapped
/// when the orientation bit is clear.
pub open spec fn spec_device_state(v: u8) -> DeviceState {
    DeviceState {
        case_open: v & 0x01 != 0,
        left: spec_status(
            if spec_flipped(v) {
                (v >> 3) & 0x03
            } else {
                (v >> 1) & 0x03
            },
        ),
        right: spec_status(
            if spec_flipped(v) {
                (v >> 1) & 0x03
            } else {
                (v >> 3) & 0x03
            },
        ),
    }
}

/// The battery percentages packed into the two battery bytes: each is
/// a 4-bit nibble scaled by ten. The earbud nibbles of `b1` swap with
/// the orientation bit of `status`; the case nibble of `b2` never
/// does.
pub open spec fn spec_battery_state(status: u8, b1: u8, b2: u8) -> BatteryState {
    let left_nibble = if spec_flipped(status) {
        b1 >> 4
    } else {
        b1 & 0x0F
    };
    let right_nibble = if spec_flipped(status) {
        b1 & 0x0F
    } else {
        b1 >> 4
    };
    BatteryState {
        case: ((b2 & 0x0F) * 10) as u32,
        left: (left_nibble * 10) as u32,
        right: (right_nibble * 10) as u32,
    }
}

/// The charging flags packed into the high nibble of `b2`: bit 2 is
/// the case (never swapped), bits 0 and 1 are the earbuds, swapped
/// with the orientation bit of `status`.
pub open spec fn spec_charging_state(status: u8, b2: u8) -> ChargingState {
    ChargingState {
        case: (b2 >> 4) & 0x04 != 0,
        left: if spec_flipped(status) {
            (b2 >> 4) & 0x02 != 0
        } else {
            (b2 >> 4) & 0x01 != 0
        },
        right: if spec_flipped(status) {
            (b2 >> 4) & 0x01 != 0
        } else {
            (b2 >> 4) & 0x02 != 0
        },
    }
}

/// Everything `From<ProximityPairMessage>` derives from one record.
pub open spec fn spec_proximity_device(m: ProximityPairMessage) -> ProximityDevice {
    ProximityDevice {
        model: spec_model(m.device_model),
        color: spec_color(m.device_color),
        state: spec_device_state(m.device_status),
        battery: spec_battery_state(m.device_status, m.battery1, m.battery2),
        charging_state: spec_charging_state(m.device_status, m.battery2),
    }
}

/// Toggling the orientation bit (bit 5) of the status byte mirrors
/// every left/right assignment — wear status, battery nibble and
/// charging bit — while the case values stay fixed.
pub proof fn lemma_orientation_swap(status: u8, b1: u8, b2: u8)
    ensures
        spec_device_state(status ^ 0x20).case_open == spec_device_state(status).case_open,
        spec_device_state(status ^ 0x20).left == spec_device_state(status).right,
        spec_device_state(status ^ 0x20).right == spec_device_state(status).left,
        spec_battery_state(status ^ 0x20, b1, b2).case == spec_battery_state(status, b1, b2).case,
        spec_battery_state(status ^ 0x20, b1, b2).left == spec_battery_state(status, b1, b2).right,
        spec_battery_state(status ^ 0x20, b1, b2).right == spec_battery_state(status, b1, b2).left,
        spec_charging_state(status ^ 0x20, b2).case == spec_charging_state(status, b2).case,
        spec_charging_state(status ^ 0x20, b2).left == spec_charging_state(status, b2).right,
        spec_charging_state(status ^ 0x20, b2).right == spec_charging_state(status, b2).left,
{
    assert(spec_flipped(status ^ 0x20) == !spec_flipped(status)) by (bit_vector);
    assert((status ^ 0x20) & 0x01 == status & 0x01) by (bit_vector);
    assert(((status ^ 0x20) >> 3) & 0x03 == (status >> 3) & 0x03) by (bit_vector);
    assert(((status ^ 0x20) >> 1) & 0x03 == (status >> 1) & 0x03) by (bit_vector);
}

impl From<u16> for ProximityDeviceModel {
    /// Looks the 16-bit model code up in the fixed model table.
    fn from(val: u16) -> (r: ProximityDeviceModel)
        ensures
            r == spec_model(val),
    {
        match val {
            0x0220 => ProximityDeviceModel::Airpods,
            0x0E20 => ProximityDeviceModel::AirpodsPro,
            0x0A20 => ProximityDeviceModel::AirpodsMax,
            0x0F20 => ProximityDeviceModel::AirpodsGen2,
            0x1320 => ProximityDeviceModel::AirpodsGen3,
            0x1420 => ProximityDeviceModel::AirpodsProGen2,
            0x0320 => ProximityDeviceModel::PowerBeats,
            0x0B20 => ProximityDeviceModel::PowerBeatsPro,
            0x0C20 => ProximityDeviceModel::BeatsSoloPro,
            0x1120 => ProximityDeviceModel::BeatsStudioBuds,
            0x1020 => ProximityDeviceModel::BeatsFlex,
            0x0520 => ProximityDeviceModel::BeatsX,
            0x0620 => ProximityDeviceModel::BeatsSolo3,
            0x0920 => ProximityDeviceModel::BeatsStudio3,
            0x1720 => ProximityDeviceModel::BeatsStudioPro,
            0x1220 => ProximityDeviceModel::BeatsFitPro,
            0x1620 => ProximityDeviceModel::BeatsStudioBudsPlus,
            _ => ProximityDeviceModel::Unknown,
        }
    }
}

impl vstd::std_specs::convert::FromSpecImpl<u16> for ProximityDeviceModel {
    open spec fn obeys_from_spec() -> bool {
        true
    }

    open spec fn from_spec(val: u16) -> Self {
        spec_model(val)
    }
}

impl From<u8> for ProximityDeviceColor {
    /// Looks the color byte up in the fixed color table.
    fn from(val: u8) -> (r: ProximityDeviceColor)
        ensures
            r == spec_color(val),
    {
        match val {
            0x00 => ProximityDeviceColor::White,
            0x01 => ProximityDeviceColor::Black,
            0x02 => ProximityDeviceColor::Red,
            0x03 => ProximityDeviceColor::Blue,
            0x04 => ProximityDeviceColor::Pink,
            0x05 => ProximityDeviceColor::Gray,
            0x06 => ProximityDeviceColor::Silver,
            0x07 => ProximityDeviceColor::Gold,
            0x08 => ProximityDeviceColor::RoseGold,
            0x09 => ProximityDeviceColor::SpaceGray,
            0x0A => ProximityDeviceColor::DarkBlue,
            0x0B => ProximityDeviceColor::LightBlue,
            0x0C => ProximityDeviceColor::Yellow,
            _ => ProximityDeviceColor::Unknown,
        }
    }
}

impl vstd::std_specs::convert::FromSpecImpl<u8> for ProximityDeviceColor {
    open spec fn obeys_from_spec() -> bool {
        true
    }

    open spec fn from_spec(val: u8) -> Self {
        spec_color(val)
    }
}

impl From<u8> for Status {
    /// Maps a 2-bit status code to the wear status it names.
    fn from(val: u8) -> (r: Status)
        ensures
            r == spec_status(val),
    {
        match val {
            0x00 => Status::Off,
            0x01 => Status::InEar,
            0x02 => Status::InCase,
            0x03 => Status::AirplaneMode,
            _ => Status::Unknown,
        }
    }
}

impl vstd::std_specs::convert::FromSpecImpl<u8> for Status {
    open spec fn obeys_from_spec() -> bool {
        true
    }

    open spec fn from_spec(val: u8) -> Self {
        spec_status(val)
    }
}

impl From<u8> for DeviceState {
    /// Unpacks the case-lid flag and both wear statuses from the
    /// status byte, honouring the orientation bit.
    fn from(val: u8) -> (r: DeviceState)
        ensures
            r == spec_device_state(val),
    {
        let flipped = (val >> 4) & 0x02 == 0;
        let case_open = val & 0x01 != 0;

        let left_status = if flipped {
            (val >> 3) & 0x03
        } else {
            (val >> 1) & 0x03
        };
        let right_status = if flipped {
            (val >> 1) & 0x03
        } else {
            (val >> 3) & 0x03
        };

        DeviceState { case_open, left: Status::from(left_status), right: Status::from(right_status) }
    }
}

impl vstd::std_specs::convert::FromSpecImpl<u8> for DeviceState {
    open spec fn obeys_from_spec() -> bool {
        true
    }

    open spec fn from_spec(val: u8) -> Self {
        spec_device_state(val)
    }
}

impl From<ProximityPairMessage> for ProximityDevice {
    /// Derives the accessory view of one proximity-pairing record.
    /// There is no failure path: unrecognized codes become `Unknown`.
    fn from(val: ProximityPairMessage) -> (r: ProximityDevice)
        ensures
            r == spec_proximity_device(val),
    {
        let flipped = (val.device_status >> 4) & 0x02 == 0;

        let case_battery = val.battery2 & 0x0F;
        let left_battery = if flipped {
            val.battery1 >> 4
        } else {
            val.battery1 & 0x0F
        };
        let right_battery = if flipped {
            val.battery1 & 0x0F
        } else {
            val.battery1 >> 4
        };

        let charge_status = val.battery2 >> 4;
        let case_charging = (charge_status & 0x04) != 0;
        let left_charging = if flipped {
            (charge_status & 0x02) != 0
        } else {
            (charge_status & 0x01) != 0
        };
        let right_charging = if flipped {
            (charge_status & 0x01) != 0
        } else {
            (charge_status & 0x02) != 0
        };

        ProximityDevice {
            model: ProximityDeviceModel::from(val.device_model),
            color: ProximityDeviceColor::from(val.device_color),
            state: DeviceState::from(val.device_status),
            battery: BatteryState {
                case: (case_battery as u32) * 10,
                left: (left_battery as u32) * 10,
                right: (right_battery as u32) * 10,
            },
            charging_state: ChargingState {
                case: case_charging,
                left: left_charging,
                right: right_charging,
            },
        }
    }
}

impl vstd::std_specs::convert::FromSpecImpl<ProximityPairMessage> for ProximityDevice {
    open spec fn obeys_from_spec() -> bool {
        true
    }

    open spec fn from_spec(val: ProximityPairMessage) -> Self {
        spec_proximity_device(val)
    }
}

} // verus!
