use vstd::prelude::*;

use crate::devices::device_info::DeviceInfo;
use crate::house::domain::DeviceName;
use crate::text::{bool_text, decimal, occurs_in, push_bool, push_decimal};

verus! {

/// A power socket: its plug type, its voltage and current, and whether it delivers power.
#[derive(Debug, Clone, Copy, PartialEq, Eq, Structural)]
pub struct PowerSocket {
    pub tpe: SocketType,
    pub voltage: u32,
    pub current: u32,
    pub enabled: bool,
}

/// Plug type of a power socket.
#[derive(Debug, Clone, Copy, PartialEq, Eq, Structural)]
pub enum SocketType {
    A,
    B,
    C,
}

/// How a socket type is written out (the name of its variant).
pub open spec fn socket_type_text(t: SocketType) -> Seq<char> {
    match t {
        SocketType::A => seq!['A'],
        SocketType::B => seq!['B'],
        SocketType::C => seq!['C'],
    }
}

impl SocketType {
    /// The name of the variant, as `{:?}` writes it.
    pub fn name(&self) -> (s: &'static str)
        ensures
            s@ == socket_type_text(*self),
    {
        match self {
            SocketType::A => {
                proof { reveal_strlit("A"); }
                "A"
            },
            SocketType::B => {
                proof { reveal_strlit("B"); }
                "B"
            },
            SocketType::C => {
                proof { reveal_strlit("C"); }
                "C"
            },
        }
    }
}

impl PowerSocket {
    /// The power the socket delivers: voltage times current.
    pub open spec fn spec_power(self) -> int {
        self.voltage * self.current
    }

    /// Whether the power fits in a `u32`.
    pub open spec fn power_fits(self) -> bool {
        self.voltage * self.current <= u32::MAX
    }

    /// Voltage times current.
    pub fn power(self) -> (p: u32)
        requires
            self.power_fits(),
        ensures
            p == self.spec_power(),
    {
        self.voltage * self.current
    }

    /// Switches the socket on; nothing else changes.
    pub fn enable(&mut self)
        ensures
            *final(self) == (PowerSocket { enabled: true, ..*old(self) }),
    {
        self.enabled = true;
    }

    /// Switches the socket off; nothing else changes.
    pub fn disable(&mut self)
        ensures
            *final(self) == (PowerSocket { enabled: false, ..*old(self) }),
    {
        self.enabled = false;
    }
}

impl Default for PowerSocket {
    fn default() -> (s: Self)
        ensures
            s == (PowerSocket { tpe: SocketType::C, voltage: 220, current: 10, enabled: true }),
    {
        PowerSocket { tpe: SocketType::C, voltage: 220, current: 10, enabled: true }
    }
}

/// The description of a power socket named `name`.
pub open spec fn power_socket_info(ps: PowerSocket, name: Seq<char>) -> Seq<char> {
    "PS '"@ + name + "' specification:\n                - type "@ + socket_type_text(ps.tpe)
        + "\n                - voltage="@ + decimal(ps.voltage as nat)
        + "\n                - current="@ + decimal(ps.current as nat)
        + "\n                - enabled="@ + bool_text(ps.enabled)
        + "\n                - power="@ + decimal(ps.spec_power() as nat)
}

/// The description of a socket opens with its name, whole and unaltered, as
/// `PS '<name>' specification:`, and closes with its power, voltage times current.
pub proof fn lemma_power_socket_info_frame(ps: PowerSocket, name: Seq<char>)
    ensures
        ({
            let info = power_socket_info(ps, name);
            let head = "PS '"@ + name + "' specification:\n                - type "@;
            let tail = "\n                - power="@ + decimal((ps.voltage * ps.current) as nat);
            &&& head.len() + tail.len() <= info.len()
            &&& info.subrange(0, head.len() as int) == head
            &&& info.subrange(info.len() - tail.len(), info.len() as int) == tail
        }),
{
    let info = power_socket_info(ps, name);
    let head = "PS '"@ + name + "' specification:\n                - type "@;
    let tail = "\n                - power="@ + decimal((ps.voltage * ps.current) as nat);
    let middle = socket_type_text(ps.tpe) + "\n                - voltage="@ + decimal(ps.voltage as nat)
        + "\n                - current="@ + decimal(ps.current as nat) + "\n                - enabled="@
        + bool_text(ps.enabled);
    assert(info =~= head + middle + tail);
    assert(info.subrange(0, head.len() as int) =~= head);
    assert(info.subrange(info.len() - tail.len(), info.len() as int) =~= tail);
}

/// The description of a socket states its voltage, its current and whether it is enabled,
/// each after its own label and in that order.
pub proof fn lemma_power_socket_info_fields(ps: PowerSocket, name: Seq<char>)
    ensures
        occurs_in(
            power_socket_info(ps, name),
            "\n                - voltage="@ + decimal(ps.voltage as nat) + "\n                - current="@,
        ),
        occurs_in(
            power_socket_info(ps, name),
            "\n                - current="@ + decimal(ps.current as nat) + "\n                - enabled="@,
        ),
        occurs_in(
            power_socket_info(ps, name),
            "\n                - enabled="@ + bool_text(ps.enabled) + "\n                - power="@,
        ),
{
    let info = power_socket_info(ps, name);
    let lv = "\n                - voltage="@;
    let lc = "\n                - current="@;
    let le = "\n                - enabled="@;
    let lp = "\n                - power="@;
    let a = "PS '"@ + name + "' specification:\n                - type "@ + socket_type_text(ps.tpe);
    let dv = decimal(ps.voltage as nat);
    let dc = decimal(ps.current as nat);
    let be = bool_text(ps.enabled);
    let dp = decimal(ps.spec_power() as nat);
    assert(info =~= a + lv + dv + lc + dc + le + be + lp + dp);
    let t1 = lv + dv + lc;
    let p1 = a.len() as int;
    assert(info.subrange(p1, p1 + t1.len()) =~= t1);
    let t2 = lc + dc + le;
    let p2 = (a.len() + lv.len() + dv.len()) as int;
    assert(info.subrange(p2, p2 + t2.len()) =~= t2);
    let t3 = le + be + lp;
    let p3 = (a.len() + lv.len() + dv.len() + lc.len() + dc.len()) as int;
    assert(info.subrange(p3, p3 + t3.len()) =~= t3);
}

impl DeviceInfo for PowerSocket {
    open spec fn info_defined(&self) -> bool {
        self.power_fits()
    }

    open spec fn spec_info(&self, device_name: Seq<char>) -> Seq<char> {
        power_socket_info(*self, device_name)
    }

    fn get_info(&self, device_name: &DeviceName) -> (info: String) {
        let mut s = String::new();
        s.append("PS '");
        s.append(device_name.0.as_str());
        s.append("' specification:\n                - type ");
        s.append(self.tpe.name());
        s.append("\n                - voltage=");
        push_decimal(&mut s, self.voltage as u64);
        s.append("\n                - current=");
        push_decimal(&mut s, self.current as u64);
        s.append("\n                - enabled=");
        push_bool(&mut s, self.enabled);
        s.append("\n                - power=");
        push_decimal(&mut s, self.power() as u64);
        assert(s@ =~= power_socket_info(*self, device_name@));
        s
    }
}

} // verus!
