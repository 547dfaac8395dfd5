use vstd::prelude::*;

verus! {

/// An operation that a device declares it can receive or send.
#[derive(Clone, Copy, Debug, PartialEq, Eq, Structural)]
pub enum Capability {
    CustomName,
    IsOn,
    LightLevel,
    ColorTemperature,
    ColorHue,
    ColorSaturation,
    BlindsState,
    Identify,
}

/// The kind of hardware behind a device record.
#[derive(Clone, Copy, Debug, PartialEq, Eq, Structural)]
pub enum DeviceType {
    Gateway,
    Light,
    Blinds,
    Outlet,
    Sensor,
    Controller,
    Speaker,
}

/// What a device does when power comes back.
#[derive(Clone, Copy, Debug, PartialEq, Eq, Structural)]
pub enum Startup {
    StartOn,
    StartOff,
    StartPrevious,
    StartToggle,
}

/// The capability sets that the hub reports for a device.
#[derive(Clone, Debug, PartialEq)]
pub struct Capabilities {
    pub can_send: Vec<Capability>,
    pub can_receive: Vec<Capability>,
}

/// The cached attribute bag of a device. Hue is held in thousandths of a degree and
/// saturation in thousandths, so that `color_hue == Some(180_000)` is 180 degrees.
#[derive(Clone, Debug, PartialEq)]
pub struct Attributes {
    pub custom_name: String,
    pub is_on: Option<bool>,
    pub light_level: Option<u8>,
    pub color_temperature: Option<u16>,
    pub color_temperature_min: Option<u16>,
    pub color_temperature_max: Option<u16>,
    pub color_hue: Option<u32>,
    pub color_saturation: Option<u32>,
    pub blinds_target_level: Option<u8>,
    pub startup_on_off: Option<Startup>,
}

/// A device record as the hub reports it.
#[derive(Clone, Debug, PartialEq)]
pub struct Device {
    pub id: String,
    pub device_type: DeviceType,
    pub capabilities: Capabilities,
    pub attributes: Attributes,
}

/// `required` lists only capabilities found in `got`.
pub open spec fn has_all(got: Seq<Capability>, required: Seq<Capability>) -> bool {
    forall|i: int| 0 <= i < required.len() ==> got.contains(#[trigger] required[i])
}

/// Whether every capability of `required` occurs in `got`.
pub fn has_capability(got: &[Capability], required: &[Capability]) -> (r: bool)
    ensures
        r == has_all(got@, required@),
{
    let mut i: usize = 0;
    while i < required.len()
        invariant
            0 <= i <= required@.len(),
            has_all(got@, required@.subrange(0, i as int)),
        decreases required@.len() - i,
    {
        let want = required[i];
        let mut j: usize = 0;
        let mut found = false;
        while j < got.len()
            invariant
                0 <= j <= got@.len(),
                found == (exists|k: int| 0 <= k < j && got@[k] == want),
            decreases got@.len() - j,
        {
            if got[j] == want {
                found = true;
            }
            j += 1;
        }
        if !found {
            proof {
                assert(required@[i as int] == want);
            }
            return false;
        }
        proof {
            let next = required@.subrange(0, i + 1);
            assert forall|k: int| 0 <= k < next.len() implies got@.contains(#[trigger] next[k]) by {
                if k < i {
                    assert(next[k] == required@.subrange(0, i as int)[k]);
                }
            }
        }
        i += 1;
    }
    proof {
        assert(required@.subrange(0, required@.len() as int) == required@);
    }
    true
}

impl Device {
    /// Whether the hub accepts every capability of `required` for this device.
    pub fn can_receive_all(&self, required: &[Capability]) -> (r: bool)
        ensures
            r == has_all(self.capabilities.can_receive@, required@),
    {
        has_capability(self.capabilities.can_receive.as_slice(), required)
    }
}

} // verus!
