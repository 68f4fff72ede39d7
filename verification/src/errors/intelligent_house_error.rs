//! Errors of the inventory, of the house, and of both together.
use vstd::prelude::*;

use crate::house::domain::{DeviceName, RoomName};

verus! {

/// An error of the inventory or of the house.
#[derive(Debug)]
pub enum IntelligentHouseError {
    InventoryErr(InventoryError),
    HouseErr(HouseError),
}

/// An error of the device inventory.
#[derive(Debug)]
pub enum InventoryError {
    InventoryDeviceNotFound(DeviceName, RoomName),
    InventoryDeviceInvalid(DeviceName, RoomName),
    InventoryDeviceAlreadyAdded(DeviceName, RoomName),
    InventoryDeviceAddFailed(DeviceName, RoomName),
    InventoryDeviceRemoveFailed(DeviceName, RoomName),
    InventoryRoomNotFound(RoomName),
    InventoryRoomAlreadyAdded(RoomName),
    InventoryDeviceNameDuplicated(DeviceName, RoomName),
    InventoryInternalError(String),
}

/// An error of the house layout.
#[derive(Debug)]
pub enum HouseError {
    RoomNotFound(RoomName),
    RoomAlreadyAdded(RoomName),
    RoomDeviceAlreadyAdded(DeviceName, RoomName),
    RoomDeviceNotFound(DeviceName, RoomName),
    HouseInternalError(String),
}

/// Calls `format!("{:?}", ..)` on a value of any type that implements `Debug`.
/// Nothing is claimed of the text.
#[verifier::external_body]
fn debug_text<E: std::fmt::Debug>(err: &E) -> String {
    format!("{0:?}", err)
}

/// What `format!("{:?}", s)` writes for a string `s`: the string quoted, with the
/// escapes of `str::escape_debug`.
pub uninterp spec fn string_debug_text(s: Seq<char>) -> Seq<char>;

/// Calls `format!("{:?}", s)` on a `String`; the claim is only that the text is a
/// function of the characters of `s` (`string_debug_text`).
#[verifier::external_body]
fn string_debug(s: &String) -> (r: String)
    ensures
        r@ == string_debug_text(s@),
{
    format!("{:?}", s)
}

/// The message of an inventory error.
pub open spec fn inventory_error_message(e: InventoryError) -> Seq<char> {
    match e {
        InventoryError::InventoryDeviceNotFound(d, r) =>
            "inventory device `"@ + d@ + "` not found into room "@ + r@,
        InventoryError::InventoryDeviceInvalid(d, _) =>
            "inventory inappropriate device `"@ + d@ + "` for change"@,
        InventoryError::InventoryDeviceAlreadyAdded(d, r) =>
            "inventory device `"@ + d@ + "` already added into room "@ + r@,
        InventoryError::InventoryDeviceAddFailed(d, _) =>
            "inventory device `"@ + d@ + "` add failed"@,
        InventoryError::InventoryDeviceRemoveFailed(d, _) =>
            "inventory device `"@ + d@ + "` remove failed"@,
        InventoryError::InventoryRoomNotFound(r) =>
            "inventory room `"@ + r@ + "` with devices not found"@,
        InventoryError::InventoryRoomAlreadyAdded(r) =>
            "inventory room `"@ + r@ + "` already added"@,
        InventoryError::InventoryDeviceNameDuplicated(d, r) =>
            "inventory device name `"@ + d@ + "` duplicated into room "@ + r@,
        InventoryError::InventoryInternalError(s) =>
            "inventory action failed with `"@ + s@ + "`"@,
    }
}

/// The message of a house error.
pub open spec fn house_error_message(e: HouseError) -> Seq<char> {
    match e {
        HouseError::RoomNotFound(r) => "room `"@ + r@ + "` not found"@,
        HouseError::RoomAlreadyAdded(r) => "room `"@ + r@ + "` already added"@,
        HouseError::RoomDeviceAlreadyAdded(d, r) =>
            "device `"@ + d@ + "` already added into room '"@ + r@ + "'"@,
        HouseError::RoomDeviceNotFound(d, r) =>
            "device `"@ + d@ + "` not found into room '"@ + r@ + "'"@,
        HouseError::HouseInternalError(s) => "storage action failed with `"@ + s@ + "`"@,
    }
}

/// The message of an error of the inventory or of the house.
pub open spec fn intelligent_house_error_message(e: IntelligentHouseError) -> Seq<char> {
    match e {
        IntelligentHouseError::InventoryErr(i) =>
            "inventory error `"@ + inventory_error_message(i) + "` raised"@,
        IntelligentHouseError::HouseErr(h) =>
            "house error `"@ + house_error_message(h) + "` raised"@,
    }
}

/// How `{:?}` writes a device name.
pub open spec fn device_name_debug(d: DeviceName) -> Seq<char> {
    "DeviceName("@ + string_debug_text(d@) + ")"@
}

/// How `{:?}` writes a room name.
pub open spec fn room_name_debug(r: RoomName) -> Seq<char> {
    "RoomName("@ + string_debug_text(r@) + ")"@
}

/// How `{:?}` writes an inventory error: the variant and its fields.
pub open spec fn inventory_error_debug(e: InventoryError) -> Seq<char> {
    match e {
        InventoryError::InventoryDeviceNotFound(d, r) =>
            "InventoryDeviceNotFound("@ + device_name_debug(d) + ", "@ + room_name_debug(r) + ")"@,
        InventoryError::InventoryDeviceInvalid(d, r) =>
            "InventoryDeviceInvalid("@ + device_name_debug(d) + ", "@ + room_name_debug(r) + ")"@,
        InventoryError::InventoryDeviceAlreadyAdded(d, r) =>
            "InventoryDeviceAlreadyAdded("@ + device_name_debug(d) + ", "@ + room_name_debug(r) + ")"@,
        InventoryError::InventoryDeviceAddFailed(d, r) =>
            "InventoryDeviceAddFailed("@ + device_name_debug(d) + ", "@ + room_name_debug(r) + ")"@,
        InventoryError::InventoryDeviceRemoveFailed(d, r) =>
            "InventoryDeviceRemoveFailed("@ + device_name_debug(d) + ", "@ + room_name_debug(r) + ")"@,
        InventoryError::InventoryRoomNotFound(r) =>
            "InventoryRoomNotFound("@ + room_name_debug(r) + ")"@,
        InventoryError::InventoryRoomAlreadyAdded(r) =>
            "InventoryRoomAlreadyAdded("@ + room_name_debug(r) + ")"@,
        InventoryError::InventoryDeviceNameDuplicated(d, r) =>
            "InventoryDeviceNameDuplicated("@ + device_name_debug(d) + ", "@ + room_name_debug(r) + ")"@,
        InventoryError::InventoryInternalError(s) =>
            "InventoryInternalError("@ + string_debug_text(s@) + ")"@,
    }
}

fn push_device_and_room(out: &mut String, head: &str, d: &DeviceName, mid: &str, r: &RoomName, tail: &str)
    ensures
        final(out)@ == old(out)@ + head@ + d@ + mid@ + r@ + tail@,
{
    out.append(head);
    out.append(d.0.as_str());
    out.append(mid);
    out.append(r.0.as_str());
    out.append(tail);
}

fn push_between(out: &mut String, head: &str, middle: &String, tail: &str)
    ensures
        final(out)@ == old(out)@ + head@ + middle@ + tail@,
{
    out.append(head);
    out.append(middle.as_str());
    out.append(tail);
}

fn push_debug_pair(out: &mut String, variant: &str, d: &DeviceName, r: &RoomName)
    ensures
        final(out)@ == old(out)@ + variant@ + device_name_debug(*d) + ", "@
            + room_name_debug(*r) + ")"@,
{
    out.append(variant);
    out.append("DeviceName(");
    let dd = string_debug(&d.0);
    out.append(dd.as_str());
    out.append("), RoomName(");
    let rd = string_debug(&r.0);
    out.append(rd.as_str());
    out.append("))");
    proof {
        reveal_strlit("DeviceName(");
        reveal_strlit(")");
        reveal_strlit("), RoomName(");
        reveal_strlit(", ");
        reveal_strlit("RoomName(");
        reveal_strlit("))");
    }
    assert(final(out)@ =~= old(out)@ + variant@ + device_name_debug(*d) + ", "@
        + room_name_debug(*r) + ")"@);
}

fn push_debug_room(out: &mut String, variant: &str, r: &RoomName)
    ensures
        final(out)@ == old(out)@ + variant@ + room_name_debug(*r) + ")"@,
{
    out.append(variant);
    out.append("RoomName(");
    let rd = string_debug(&r.0);
    out.append(rd.as_str());
    out.append("))");
    proof {
        reveal_strlit("RoomName(");
        reveal_strlit(")");
        reveal_strlit("))");
    }
    assert(final(out)@ =~= old(out)@ + variant@ + room_name_debug(*r) + ")"@);
}

impl InventoryError {
    /// An internal error that carries the text `err`.
    pub fn str(err: &str) -> (e: InventoryError)
        ensures
            e matches InventoryError::InventoryInternalError(s) && s@ == err@,
    {
        InventoryError::InventoryInternalError(err.to_owned())
    }

    /// An internal error that carries the `{:?}` text of `err`.
    pub fn fmt<E: std::fmt::Debug>(err: E) -> (e: InventoryError)
        ensures
            e is InventoryInternalError,
    {
        InventoryError::InventoryInternalError(debug_text(&err))
    }

    /// The message of the error.
    pub fn message(&self) -> (m: String)
        ensures
            m@ == inventory_error_message(*self),
    {
        let mut s = String::new();
        match self {
            InventoryError::InventoryDeviceNotFound(d, r) =>
                push_device_and_room(&mut s, "inventory device `", d, "` not found into room ", r, ""),
            InventoryError::InventoryDeviceInvalid(d, _) =>
                push_between(&mut s, "inventory inappropriate device `", &d.0, "` for change"),
            InventoryError::InventoryDeviceAlreadyAdded(d, r) =>
                push_device_and_room(&mut s, "inventory device `", d, "` already added into room ", r, ""),
            InventoryError::InventoryDeviceAddFailed(d, _) =>
                push_between(&mut s, "inventory device `", &d.0, "` add failed"),
            InventoryError::InventoryDeviceRemoveFailed(d, _) =>
                push_between(&mut s, "inventory device `", &d.0, "` remove failed"),
            InventoryError::InventoryRoomNotFound(r) =>
                push_between(&mut s, "inventory room `", &r.0, "` with devices not found"),
            InventoryError::InventoryRoomAlreadyAdded(r) =>
                push_between(&mut s, "inventory room `", &r.0, "` already added"),
            InventoryError::InventoryDeviceNameDuplicated(d, r) =>
                push_device_and_room(&mut s, "inventory device name `", d, "` duplicated into room ", r, ""),
            InventoryError::InventoryInternalError(m) =>
                push_between(&mut s, "inventory action failed with `", m, "`"),
        }
        proof {
            reveal_strlit("");
        }
        assert(s@ =~= inventory_error_message(*self));
        s
    }

    /// The `{:?}` text of the error.
    pub fn debug_string(&self) -> (m: String)
        ensures
            m@ == inventory_error_debug(*self),
    {
        let mut s = String::new();
        match self {
            InventoryError::InventoryDeviceNotFound(d, r) =>
                push_debug_pair(&mut s, "InventoryDeviceNotFound(", d, r),
            InventoryError::InventoryDeviceInvalid(d, r) =>
                push_debug_pair(&mut s, "InventoryDeviceInvalid(", d, r),
            InventoryError::InventoryDeviceAlreadyAdded(d, r) =>
                push_debug_pair(&mut s, "InventoryDeviceAlreadyAdded(", d, r),
            InventoryError::InventoryDeviceAddFailed(d, r) =>
                push_debug_pair(&mut s, "InventoryDeviceAddFailed(", d, r),
            InventoryError::InventoryDeviceRemoveFailed(d, r) =>
                push_debug_pair(&mut s, "InventoryDeviceRemoveFailed(", d, r),
            InventoryError::InventoryRoomNotFound(r) =>
                push_debug_room(&mut s, "InventoryRoomNotFound(", r),
            InventoryError::InventoryRoomAlreadyAdded(r) =>
                push_debug_room(&mut s, "InventoryRoomAlreadyAdded(", r),
            InventoryError::InventoryDeviceNameDuplicated(d, r) =>
                push_debug_pair(&mut s, "InventoryDeviceNameDuplicated(", d, r),
            InventoryError::InventoryInternalError(m) => {
                let md = string_debug(m);
                push_between(&mut s, "InventoryInternalError(", &md, ")");
            },
        }
        assert(s@ =~= inventory_error_debug(*self));
        s
    }
}

impl HouseError {
    /// An internal error that carries the text `err`.
    pub fn str(err: &str) -> (e: HouseError)
        ensures
            e matches HouseError::HouseInternalError(s) && s@ == err@,
    {
        HouseError::HouseInternalError(err.to_owned())
    }

    /// An internal error that carries the `{:?}` text of `err`.
    pub fn fmt<E: std::fmt::Debug>(err: E) -> (e: HouseError)
        ensures
            e is HouseInternalError,
    {
        HouseError::HouseInternalError(debug_text(&err))
    }

    /// The message of the error.
    pub fn message(&self) -> (m: String)
        ensures
            m@ == house_error_message(*self),
    {
        let mut s = String::new();
        match self {
            HouseError::RoomNotFound(r) => push_between(&mut s, "room `", &r.0, "` not found"),
            HouseError::RoomAlreadyAdded(r) => push_between(&mut s, "room `", &r.0, "` already added"),
            HouseError::RoomDeviceAlreadyAdded(d, r) =>
                push_device_and_room(&mut s, "device `", d, "` already added into room '", r, "'"),
            HouseError::RoomDeviceNotFound(d, r) =>
                push_device_and_room(&mut s, "device `", d, "` not found into room '", r, "'"),
            HouseError::HouseInternalError(m) =>
                push_between(&mut s, "storage action failed with `", m, "`"),
        }
        assert(s@ =~= house_error_message(*self));
        s
    }
}

impl IntelligentHouseError {
    /// The message of the error.
    pub fn message(&self) -> (m: String)
        ensures
            m@ == intelligent_house_error_message(*self),
    {
        let mut s = String::new();
        match self {
            IntelligentHouseError::InventoryErr(i) => {
                let inner = i.message();
                push_between(&mut s, "inventory error `", &inner, "` raised");
            },
            IntelligentHouseError::HouseErr(h) => {
                let inner = h.message();
                push_between(&mut s, "house error `", &inner, "` raised");
            },
        }
        assert(s@ =~= intelligent_house_error_message(*self));
        s
    }
}

impl From<InventoryError> for IntelligentHouseError {
    fn from(e: InventoryError) -> (r: Self) {
        IntelligentHouseError::InventoryErr(e)
    }
}

impl vstd::std_specs::convert::FromSpecImpl<InventoryError> for IntelligentHouseError {
    open spec fn obeys_from_spec() -> bool {
        true
    }

    open spec fn from_spec(e: InventoryError) -> Self {
        IntelligentHouseError::InventoryErr(e)
    }
}

impl From<HouseError> for IntelligentHouseError {
    fn from(e: HouseError) -> (r: Self) {
        IntelligentHouseError::HouseErr(e)
    }
}

impl vstd::std_specs::convert::FromSpecImpl<HouseError> for IntelligentHouseError {
    open spec fn obeys_from_spec() -> bool {
        true
    }

    open spec fn from_spec(e: HouseError) -> Self {
        IntelligentHouseError::HouseErr(e)
    }
}

} // verus!
