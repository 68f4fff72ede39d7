use rand::Rng;
use vstd::prelude::*;

use crate::devices::device_info::DeviceInfo;
use crate::house::domain::DeviceName;
use crate::text::{push_signed_decimal, signed_decimal};

verus! {

/// A temperature sensor: its last temperature, the range it measures and its accuracy.
#[derive(Debug, Clone, Copy, PartialEq, Eq, Structural)]
pub struct TemperatureSensor {
    pub temperature: i32,
    pub range: SensorRange,
    pub accuracy: i32,
}

/// The temperatures a sensor can report: from `min` (included) to `max` (excluded).
#[derive(Debug, Clone, Copy, PartialEq, Eq, Structural)]
pub struct SensorRange {
    pub min: i32,
    pub max: i32,
}

#[verifier::external_type_specification]
#[verifier::external_body]
pub struct ExThreadRng(rand::rngs::ThreadRng);

/// Calls `rand::thread_rng`, which hands out the random number generator of the
/// current thread. Nothing is claimed of the generator.
#[verifier::external_body]
fn thread_rng() -> rand::rngs::ThreadRng {
    rand::thread_rng()
}

/// Calls `Rng::gen_range` with the half-open range `min..max`. The claim is what rand
/// documents: the value lies in the range; an empty range panics, so it is left out.
/// Which value comes out is left open: it is random.
#[verifier::external_body]
fn gen_range(rng: &mut rand::rngs::ThreadRng, min: i32, max: i32) -> (r: i32)
    requires
        min < max,
    ensures
        min <= r < max,
{
    rng.gen_range(min..max)
}

impl TemperatureSensor {
    /// A fresh reading: a random temperature within the sensor's range.
    pub fn current_temperature(&self) -> (t: i32)
        requires
            self.range.min < self.range.max,
        ensures
            self.range.min <= t < self.range.max,
    {
        let mut rng = thread_rng();
        gen_range(&mut rng, self.range.min, self.range.max)
    }
}

/// The description of a temperature sensor named `name`.
pub open spec fn temperature_sensor_info(ts: TemperatureSensor, name: Seq<char>) -> Seq<char> {
    "TS '"@ + name + "' specification:\n                - "@ + signed_decimal(ts.temperature as int)
        + "C° \n                - range "@ + signed_decimal(ts.range.min as int)
        + "-"@ + signed_decimal(ts.range.max as int)
        + "C° \n                - accuracy "@ + signed_decimal(ts.accuracy as int)
}

/// The description of a sensor opens with its name, whole and unaltered, as
/// `TS '<name>' specification:`, gives its temperature right after, its range as
/// `range <min>-<max>`, and closes with its accuracy.
pub proof fn lemma_temperature_sensor_info_parts(ts: TemperatureSensor, name: Seq<char>)
    ensures
        ({
            let info = temperature_sensor_info(ts, name);
            let head = "TS '"@ + name + "' specification:\n                - "@ + signed_decimal(ts.temperature as int);
            let range = "C° \n                - range "@ + signed_decimal(ts.range.min as int) + "-"@ + signed_decimal(
                ts.range.max as int,
            ) + "C° \n                - accuracy "@;
            let tail = signed_decimal(ts.accuracy as int);
            &&& head.len() + range.len() + tail.len() == info.len()
            &&& info.subrange(0, head.len() as int) == head
            &&& info.subrange(head.len() as int, (head.len() + range.len()) as int) == range
            &&& info.subrange(info.len() - tail.len(), info.len() as int) == tail
        }),
{
    let info = temperature_sensor_info(ts, name);
    let head = "TS '"@ + name + "' specification:\n                - "@ + signed_decimal(ts.temperature as int);
    let range = "C° \n                - range "@ + signed_decimal(ts.range.min as int) + "-"@ + signed_decimal(
        ts.range.max as int,
    ) + "C° \n                - accuracy "@;
    let tail = signed_decimal(ts.accuracy as int);
    assert(info =~= head + range + tail);
    assert(info.subrange(0, head.len() as int) =~= head);
    assert(info.subrange(head.len() as int, (head.len() + range.len()) as int) =~= range);
    assert(info.subrange(info.len() - tail.len(), info.len() as int) =~= tail);
}

impl DeviceInfo for TemperatureSensor {
    open spec fn info_defined(&self) -> bool {
        true
    }

    open spec fn spec_info(&self, device_name: Seq<char>) -> Seq<char> {
        temperature_sensor_info(*self, device_name)
    }

    fn get_info(&self, device_name: &DeviceName) -> (info: String) {
        let mut s = String::new();
        s.append("TS '");
        s.append(device_name.0.as_str());
        s.append("' specification:\n                - ");
        push_signed_decimal(&mut s, self.temperature as i64);
        s.append("C° \n                - range ");
        push_signed_decimal(&mut s, self.range.min as i64);
        s.append("-");
        push_signed_decimal(&mut s, self.range.max as i64);
        s.append("C° \n                - accuracy ");
        push_signed_decimal(&mut s, self.accuracy as i64);
        assert(s@ =~= temperature_sensor_info(*self, device_name@));
        s
    }
}

} // verus!
