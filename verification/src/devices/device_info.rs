use vstd::prelude::*;

use crate::house::domain::DeviceName;

verus! {

/// A device that can describe itself under a given name.
pub trait DeviceInfo {
    /// Whether a description can be produced (the numbers in it can be computed).
    spec fn info_defined(&self) -> bool;

    /// The description of the device under the name `device_name`.
    spec fn spec_info(&self, device_name: Seq<char>) -> Seq<char>;

    /// The description of the device under the name `device_name`.
    fn get_info(&self, device_name: &DeviceName) -> (info: String)
        requires
            self.info_defined(),
        ensures
            info@ == self.spec_info(device_name@),
    ;
}

} // verus!
