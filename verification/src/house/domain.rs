//! Names of houses, rooms and devices, and the layout of a room.
use vstd::prelude::*;

verus! {

/// Name of a house.
#[derive(Debug, Clone)]
pub struct HouseName(pub String);

/// Name of a room.
#[derive(Debug, Clone, Hash)]
pub struct RoomName(pub String);

/// Name of a device.
#[derive(Debug, Clone, Hash)]
pub struct DeviceName(pub String);

/// A room of a house: its name and the names of the devices placed in it, in order.
#[derive(Debug, Clone)]
pub struct Room {
    pub name: RoomName,
    pub devices: Vec<DeviceName>,
}

impl View for HouseName {
    type V = Seq<char>;

    open spec fn view(&self) -> Seq<char> {
        self.0@
    }
}

impl View for RoomName {
    type V = Seq<char>;

    open spec fn view(&self) -> Seq<char> {
        self.0@
    }
}

impl View for DeviceName {
    type V = Seq<char>;

    open spec fn view(&self) -> Seq<char> {
        self.0@
    }
}

/// The names of a list of devices.
pub open spec fn device_names_view(devices: Seq<DeviceName>) -> Seq<Seq<char>> {
    devices.map_values(|d: DeviceName| d@)
}

impl View for Room {
    type V = (Seq<char>, Seq<Seq<char>>);

    open spec fn view(&self) -> (Seq<char>, Seq<Seq<char>>) {
        (self.name@, device_names_view(self.devices@))
    }
}

impl PartialEq for RoomName {
    fn eq(&self, other: &Self) -> (r: bool) {
        self.0 == other.0
    }
}

impl vstd::std_specs::cmp::PartialEqSpecImpl for RoomName {
    open spec fn obeys_eq_spec() -> bool {
        true
    }

    open spec fn eq_spec(&self, other: &Self) -> bool {
        self.0@ == other.0@
    }
}

impl Eq for RoomName {}

impl PartialEq for DeviceName {
    fn eq(&self, other: &Self) -> (r: bool) {
        self.0 == other.0
    }
}

impl vstd::std_specs::cmp::PartialEqSpecImpl for DeviceName {
    open spec fn obeys_eq_spec() -> bool {
        true
    }

    open spec fn eq_spec(&self, other: &Self) -> bool {
        self.0@ == other.0@
    }
}

impl Eq for DeviceName {}

impl HouseName {
    /// A copy of this name.
    pub fn copied(&self) -> (r: HouseName)
        ensures
            r == *self,
    {
        HouseName(self.0.clone())
    }
}

impl RoomName {
    /// A copy of this name.
    pub fn copied(&self) -> (r: RoomName)
        ensures
            r == *self,
    {
        RoomName(self.0.clone())
    }

    /// Whether both names are spelled the same.
    pub fn same_as(&self, other: &RoomName) -> (r: bool)
        ensures
            r == (self@ == other@),
    {
        self.0 == other.0
    }
}

impl DeviceName {
    /// A copy of this name.
    pub fn copied(&self) -> (r: DeviceName)
        ensures
            r == *self,
    {
        DeviceName(self.0.clone())
    }

    /// Whether both names are spelled the same.
    pub fn same_as(&self, other: &DeviceName) -> (r: bool)
        ensures
            r == (self@ == other@),
    {
        self.0 == other.0
    }
}

/// A copy of a list of device names.
pub fn copy_device_names(devices: &Vec<DeviceName>) -> (r: Vec<DeviceName>)
    ensures
        r@ == devices@,
{
    let mut r: Vec<DeviceName> = Vec::new();
    let mut i: usize = 0;
    while i < devices.len()
        invariant
            i <= devices.len(),
            r@ == devices@.subrange(0, i as int),
        decreases devices.len() - i,
    {
        r.push(devices[i].copied());
        i = i + 1;
    }
    assert(r@ =~= devices@);
    r
}

impl Room {
    /// A copy of this room.
    pub fn copied(&self) -> (r: Room)
        ensures
            r.name == self.name,
            r.devices@ == self.devices@,
            r@ == self@,
    {
        let devices = copy_device_names(&self.devices);
        proof {
            assert(devices@ =~= self.devices@);
        }
        Room { name: self.name.copied(), devices }
    }
}

} // verus!
