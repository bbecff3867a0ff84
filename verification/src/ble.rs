//! The Bluetooth LE side of the LED: the advertisement that announces it, its device name, and
//! the handling of writes to its color characteristic.

use vstd::prelude::*;
use trouble_host::advertise::AdStructure;
use vstd::string::StringExecFns;

use crate::color::{color_code, decode_color, Color};

verus! {

/// Room for advertising data in one legacy advertising packet.
pub const ADVERTISING_DATA_CAPACITY: usize = 31;

/// Advertising flag: the device stays discoverable.
pub const LE_GENERAL_DISCOVERABLE: u8 = 0b0000_0010;

/// Advertising flag: classic Bluetooth (BR/EDR) is not supported.
pub const BR_EDR_NOT_SUPPORTED: u8 = 0b0000_0100;

/// 16-bit UUID of the LED service.
pub const LED_SERVICE_UUID: u16 = 0x180a;

/// 16-bit UUID of the color characteristic.
pub const COLOR_CHARACTERISTIC_UUID: u16 = 0x2a57;

/// The advertising data structures (length, type, value) for the flags, a list holding one
/// 16-bit service UUID and the complete local name.
pub open spec fn advertising_bytes(flags: u8, service_uuid: Seq<u8>, name: Seq<u8>) -> Seq<u8> {
    seq![2u8, 0x01u8, flags] + seq![3u8, 0x02u8] + service_uuid + seq![
        ((name.len() + 1) % 256) as u8,
        0x09u8,
    ] + name
}

/// The advertising data of the LED: general discoverable, BR/EDR not supported, the LED
/// service (little endian) and the device name.
pub open spec fn led_advertising_bytes(name: Seq<u8>) -> Seq<u8> {
    advertising_bytes(0x06u8, seq![0x0au8, 0x18u8], name)
}

/// Encodes advertising data with `trouble_host`'s `AdStructure::encode_slice`, for the flags,
/// an incomplete list of one 16-bit service UUID and the complete local name.
///
/// The contract states what that source does: each structure is written as its length, its
/// type (0x01, 0x02, 0x09) and its value, one after another from the start of `dest`; the
/// number of bytes written is returned, and nothing is returned when they do not all fit.
/// What `dest` holds after a failed encoding is not stated.
#[verifier::external_body]
fn encode_advertising_data(flags: u8, service_uuid: [u8; 2], name: &[u8], dest: &mut [u8]) -> (r:
    Option<usize>)
    ensures
        final(dest)@.len() == old(dest)@.len(),
        r is Some <==> advertising_bytes(flags, service_uuid@, name@).len() <= old(dest)@.len(),
        r matches Some(n) ==> {
            &&& n == advertising_bytes(flags, service_uuid@, name@).len()
            &&& final(dest)@.subrange(0, n as int) == advertising_bytes(flags, service_uuid@, name@)
            &&& final(dest)@.subrange(n as int, final(dest)@.len() as int) == old(dest)@.subrange(
                n as int,
                old(dest)@.len() as int,
            )
        },
{
    let uuids = [service_uuid];
    AdStructure::encode_slice(
        &[
            AdStructure::Flags(flags),
            AdStructure::IncompleteServiceUuids16(&uuids),
            AdStructure::CompleteLocalName(name),
        ],
        dest,
    ).ok()
}

/// The advertising data do not fit into the buffer.
#[derive(Debug, Clone, Copy, PartialEq, Eq, Structural)]
pub struct AdvertisingDataTooLong;

/// Writes the LED's advertising data for the device name `name` to the start of `dest` and
/// returns its length, or fails when it does not fit. The rest of `dest` is left alone.
pub fn advertising_data(name: &[u8], dest: &mut [u8]) -> (r: Result<usize, AdvertisingDataTooLong>)
    ensures
        final(dest)@.len() == old(dest)@.len(),
        r is Ok <==> name@.len() + 9 <= old(dest)@.len(),
        r matches Ok(n) ==> {
            &&& n == name@.len() + 9
            &&& final(dest)@.subrange(0, n as int) == led_advertising_bytes(name@)
            &&& final(dest)@.subrange(n as int, final(dest)@.len() as int) == old(dest)@.subrange(
                n as int,
                old(dest)@.len() as int,
            )
        },
{
    let flags: u8 = LE_GENERAL_DISCOVERABLE | BR_EDR_NOT_SUPPORTED;
    assert(flags == 0x06u8) by (bit_vector)
        requires
            flags == 0b0000_0010u8 | 0b0000_0100u8,
    ;
    let service_uuid: [u8; 2] = [0x0a, 0x18];
    assert(service_uuid@ =~= seq![0x0au8, 0x18u8]);
    match encode_advertising_data(flags, service_uuid, name, dest) {
        Some(n) => Ok(n),
        None => Err(AdvertisingDataTooLong),
    }
}

/// The name the LED advertises: "LED " followed by the user's chosen name.
pub open spec fn led_device_name(ble_name: Seq<char>) -> Seq<char> {
    seq!['L', 'E', 'D', ' '] + ble_name
}

/// The device name for a user-chosen name, e.g. "LED Alice" for "Alice".
pub fn device_name(ble_name: &str) -> (r: String)
    ensures
        r@ == led_device_name(ble_name@),
{
    let prefix = "LED ";
    proof {
        reveal_strlit("LED ");
    }
    let s = String::from_str(prefix);
    let r = s.concat(ble_name);
    assert(r@ =~= led_device_name(ble_name@));
    r
}

/// What to do with a write request.
#[derive(Debug, Clone, Copy, PartialEq, Eq, Structural)]
pub enum GattWriteDecision {
    /// The write is not for the color characteristic.
    Ignore,
    /// A valid color: set it and accept the write.
    Accept(Color),
    /// Not a single byte naming a color: reject with "out of range".
    RejectOutOfRange,
}

/// The decision for a write of `data` (to the color characteristic when `targets_color`): a
/// single byte 0, 1 or 2 selects red, green or blue, anything else is out of range.
pub open spec fn gatt_write_decision(targets_color: bool, data: Seq<u8>) -> GattWriteDecision {
    if !targets_color {
        GattWriteDecision::Ignore
    } else if data.len() == 1 && decode_color(data[0]) is Some {
        GattWriteDecision::Accept(decode_color(data[0])->0)
    } else {
        GattWriteDecision::RejectOutOfRange
    }
}

/// Decides how to answer a write request carrying `data`.
pub fn decide_gatt_write(targets_color: bool, data: &[u8]) -> (r: GattWriteDecision)
    ensures
        r == gatt_write_decision(targets_color, data@),
{
    if !targets_color {
        return GattWriteDecision::Ignore;
    }
    if data.len() != 1 {
        return GattWriteDecision::RejectOutOfRange;
    }
    match Color::from_code(data[0]) {
        Some(color) => GattWriteDecision::Accept(color),
        None => GattWriteDecision::RejectOutOfRange,
    }
}

/// Writing a color's code sets that color, and an accepted write carried exactly the code of
/// the color it sets: what a client writes is what it reads back.
pub proof fn lemma_write_accepts_codes(c: Color, data: Seq<u8>)
    ensures
        gatt_write_decision(true, seq![color_code(c)]) == GattWriteDecision::Accept(c),
        gatt_write_decision(true, data) == GattWriteDecision::Accept(c) ==> data == seq![
            color_code(c),
        ],
{
    if gatt_write_decision(true, data) == GattWriteDecision::Accept(c) {
        assert(data =~= seq![color_code(c)]);
    }
}

/// The advertisement fits into one packet exactly when the device name has at most 22 bytes.
pub proof fn lemma_advertisement_fits(name: Seq<u8>)
    ensures
        led_advertising_bytes(name).len() == name.len() + 9,
        led_advertising_bytes(name).len() <= ADVERTISING_DATA_CAPACITY <==> name.len() <= 22,
{
}

/// How writes are answered: a write to any other handle is left alone whatever it carries; a
/// write to the color characteristic is never ignored, and is accepted exactly when it is the
/// single byte 0 (red), 1 (green) or 2 (blue); everything else there is out of range.
pub proof fn lemma_gatt_write_rules(data: Seq<u8>)
    ensures
        gatt_write_decision(false, data) == GattWriteDecision::Ignore,
        gatt_write_decision(true, data) != GattWriteDecision::Ignore,
        data.len() != 1 ==> gatt_write_decision(true, data) == GattWriteDecision::RejectOutOfRange,
        data == seq![0u8] ==> gatt_write_decision(true, data) == GattWriteDecision::Accept(
            Color::Red,
        ),
        data == seq![1u8] ==> gatt_write_decision(true, data) == GattWriteDecision::Accept(
            Color::Green,
        ),
        data == seq![2u8] ==> gatt_write_decision(true, data) == GattWriteDecision::Accept(
            Color::Blue,
        ),
        data.len() == 1 && data[0] > 2 ==> gatt_write_decision(true, data)
            == GattWriteDecision::RejectOutOfRange,
{
}

/// The advertisement of every name starts with the same seven bytes, the flags structure
/// (general discoverable, BR/EDR not supported) and the LED service UUID 0x180a, little
/// endian; then comes the name structure: its length (the name's plus one, in a byte), the
/// type "complete local name", and the name itself.
pub proof fn lemma_advertisement_layout(name: Seq<u8>)
    ensures
        led_advertising_bytes(name).subrange(0, 7) == seq![
            2u8,
            0x01u8,
            0x06u8,
            3u8,
            0x02u8,
            0x0au8,
            0x18u8,
        ],
        led_advertising_bytes(name)[7] == ((name.len() + 1) % 256) as u8,
        led_advertising_bytes(name)[8] == 0x09u8,
        led_advertising_bytes(name).subrange(9, name.len() + 9int) == name,
{
    let b = led_advertising_bytes(name);
    assert(b.subrange(0, 7) =~= seq![2u8, 0x01u8, 0x06u8, 3u8, 0x02u8, 0x0au8, 0x18u8]);
    assert(b.subrange(9, name.len() + 9int) =~= name);
}

/// The device name of every chosen name is the four characters "LED " followed by that name.
pub proof fn lemma_device_name_layout(ble_name: Seq<char>)
    ensures
        led_device_name(ble_name).len() == ble_name.len() + 4,
        led_device_name(ble_name).subrange(0, 4) == seq!['L', 'E', 'D', ' '],
        led_device_name(ble_name).subrange(4, ble_name.len() + 4int) == ble_name,
{
    let n = led_device_name(ble_name);
    assert(n.subrange(0, 4) =~= seq!['L', 'E', 'D', ' ']);
    assert(n.subrange(4, ble_name.len() + 4int) =~= ble_name);
}

} // verus!
