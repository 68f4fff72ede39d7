//! Errors of the first, plainer inventory and house interfaces.
use vstd::prelude::*;

use crate::house::domain::{DeviceName, RoomName};

verus! {

/// An error of the inventory or of the house.
#[derive(Debug)]
pub enum AppError {
    InventoryError(InventoryError),
    HouseError(HouseError),
}

/// An error of the device inventory.
#[derive(Debug)]
pub enum InventoryError {
    InventoryDeviceNotFound(DeviceName, RoomName),
    InventoryDeviceAlreadyAdded(DeviceName, RoomName),
    InventoryDeviceAddFailed(DeviceName, RoomName),
    InventoryDeviceRemoveFailed(DeviceName, RoomName),
    InventoryRoomNotFound(RoomName),
    InventoryRoomAlreadyAdded(RoomName),
}

/// An error of the house layout.
#[derive(Debug)]
pub enum HouseError {
    RoomNotFound(RoomName),
    RoomAlreadyAdded(RoomName),
    RoomDeviceAlreadyAdded(DeviceName, RoomName),
    RoomDeviceNotFound(DeviceName, RoomName),
}

/// The message of an inventory error.
pub open spec fn inventory_error_message(e: InventoryError) -> Seq<char> {
    match e {
        InventoryError::InventoryDeviceNotFound(d, _) =>
            "inventory device `"@ + d@ + "` not found"@,
        InventoryError::InventoryDeviceAlreadyAdded(d, r) =>
            "inventory device `"@ + d@ + "` already added into room "@ + r@,
        InventoryError::InventoryDeviceAddFailed(d, _) =>
            "inventory device `"@ + d@ + "` add failed"@,
        InventoryError::InventoryDeviceRemoveFailed(d, _) =>
            "inventory device `"@ + d@ + "` remove failed"@,
        InventoryError::InventoryRoomNotFound(r) =>
            "inventory room `"@ + r@ + "` with devices not found"@,
        InventoryError::InventoryRoomAlreadyAdded(r) =>
            "inventory room `"@ + r@ + "` already added"@,
    }
}

/// The message of a house error.
pub open spec fn house_error_message(e: HouseError) -> Seq<char> {
    match e {
        HouseError::RoomNotFound(r) => "room `"@ + r@ + "` not found"@,
        HouseError::RoomAlreadyAdded(r) => "room `"@ + r@ + "` already added"@,
        HouseError::RoomDeviceAlreadyAdded(d, r) =>
            "device `"@ + d@ + "` already added into room '"@ + r@ + "'"@,
        HouseError::RoomDeviceNotFound(d, r) =>
            "device `"@ + d@ + "` not found into room '"@ + r@ + "'"@,
    }
}

/// The message of an error of the inventory or of the house.
pub open spec fn app_error_message(e: AppError) -> Seq<char> {
    match e {
        AppError::InventoryError(i) => "inventory error `"@ + inventory_error_message(i) + "` raised"@,
        AppError::HouseError(h) => "house error `"@ + house_error_message(h) + "` raised"@,
    }
}

fn push3(out: &mut String, head: &str, middle: &str, tail: &str)
    ensures
        final(out)@ == old(out)@ + head@ + middle@ + tail@,
{
    out.append(head);
    out.append(middle);
    out.append(tail);
}

fn push5(out: &mut String, a: &str, b: &str, c: &str, d: &str, e: &str)
    ensures
        final(out)@ == old(out)@ + a@ + b@ + c@ + d@ + e@,
{
    out.append(a);
    out.append(b);
    out.append(c);
    out.append(d);
    out.append(e);
}

impl InventoryError {
    /// The message of the error.
    pub fn message(&self) -> (m: String)
        ensures
            m@ == inventory_error_message(*self),
    {
        let mut s = String::new();
        proof { reveal_strlit(""); }
        match self {
            InventoryError::InventoryDeviceNotFound(d, _) =>
                push3(&mut s, "inventory device `", d.0.as_str(), "` not found"),
            InventoryError::InventoryDeviceAlreadyAdded(d, r) =>
                push5(&mut s, "inventory device `", d.0.as_str(), "` already added into room ", r.0.as_str(), ""),
            InventoryError::InventoryDeviceAddFailed(d, _) =>
                push3(&mut s, "inventory device `", d.0.as_str(), "` add failed"),
            InventoryError::InventoryDeviceRemoveFailed(d, _) =>
                push3(&mut s, "inventory device `", d.0.as_str(), "` remove failed"),
            InventoryError::InventoryRoomNotFound(r) =>
                push3(&mut s, "inventory room `", r.0.as_str(), "` with devices not found"),
            InventoryError::InventoryRoomAlreadyAdded(r) =>
                push3(&mut s, "inventory room `", r.0.as_str(), "` already added"),
        }
        assert(s@ =~= inventory_error_message(*self));
        s
    }
}

impl HouseError {
    /// The message of the error.
    pub fn message(&self) -> (m: String)
        ensures
            m@ == house_error_message(*self),
    {
        let mut s = String::new();
        match self {
            HouseError::RoomNotFound(r) => push3(&mut s, "room `", r.0.as_str(), "` not found"),
            HouseError::RoomAlreadyAdded(r) => push3(&mut s, "room `", r.0.as_str(), "` already added"),
            HouseError::RoomDeviceAlreadyAdded(d, r) =>
                push5(&mut s, "device `", d.0.as_str(), "` already added into room '", r.0.as_str(), "'"),
            HouseError::RoomDeviceNotFound(d, r) =>
                push5(&mut s, "device `", d.0.as_str(), "` not found into room '", r.0.as_str(), "'"),
        }
        assert(s@ =~= house_error_message(*self));
        s
    }
}

impl AppError {
    /// The message of the error.
    pub fn message(&self) -> (m: String)
        ensures
            m@ == app_error_message(*self),
    {
        let mut s = String::new();
        match self {
            AppError::InventoryError(i) => {
                let inner = i.message();
                push3(&mut s, "inventory error `", inner.as_str(), "` raised");
            },
            AppError::HouseError(h) => {
                let inner = h.message();
                push3(&mut s, "house error `", inner.as_str(), "` raised");
            },
        }
        assert(s@ =~= app_error_message(*self));
        s
    }
}

impl From<InventoryError> for AppError {
    fn from(e: InventoryError) -> (r: Self) {
        AppError::InventoryError(e)
    }
}

impl vstd::std_specs::convert::FromSpecImpl<InventoryError> for AppError {
    open spec fn obeys_from_spec() -> bool {
        true
    }

    open spec fn from_spec(e: InventoryError) -> Self {
        AppError::InventoryError(e)
    }
}

impl From<HouseError> for AppError {
    fn from(e: HouseError) -> (r: Self) {
        AppError::HouseError(e)
    }
}

impl vstd::std_specs::convert::FromSpecImpl<HouseError> for AppError {
    open spec fn obeys_from_spec() -> bool {
        true
    }

    open spec fn from_spec(e: HouseError) -> Self {
        AppError::HouseError(e)
    }
}

} // verus!
