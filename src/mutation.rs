use vstd::prelude::*;

use crate::device::{has_all, Attributes, Capability, Device, Startup};

verus! {

/// Largest accepted light or blind level.
pub const MAX_LEVEL: u8 = 100;

/// Largest accepted hue, in thousandths of a degree.
pub const MAX_HUE: i64 = 360000;

/// Largest accepted saturation, in thousandths.
pub const MAX_SATURATION: i64 = 1000;

/// A change that a caller asks the hub to make to one device.
/// Hue and saturation are given in thousandths (of a degree, and of full saturation).
#[derive(Clone, Debug, PartialEq)]
pub enum Operation {
    Rename(String),
    ToggleOnOff,
    SetLightLevel(u8),
    SetTemperature(u16),
    SetHueSaturation(i64, i64),
    SetStartupBehaviour(Startup),
    SetTargetLevel(u8),
}

/// A validated change, ready to be sent to the hub and then written to the cached device.
#[derive(Clone, Debug, PartialEq)]
pub enum Change {
    CustomName(String),
    /// The new power state; `None` when the device never reported one.
    IsOn(Option<bool>),
    LightLevel(u8),
    ColorTemperature(u16),
    HueSaturation(u32, u32),
    StartupOnOff(Startup),
    BlindsTargetLevel(u8),
}

/// Why an operation was refused before anything was sent.
#[derive(Clone, Copy, Debug, PartialEq, Eq, Structural)]
pub enum Rejection {
    MissingCapability,
    LevelOutOfRange,
    NoMinTemperature,
    NoMaxTemperature,
    TemperatureOutOfRange,
    HueOutOfRange,
    SaturationOutOfRange,
}

/// The capabilities that the hub must accept for `op`.
pub open spec fn required(op: Operation) -> Seq<Capability> {
    match op {
        Operation::Rename(_) => seq![Capability::CustomName],
        Operation::ToggleOnOff => seq![Capability::IsOn],
        Operation::SetLightLevel(_) => seq![Capability::LightLevel],
        Operation::SetTemperature(_) => seq![Capability::ColorTemperature],
        Operation::SetHueSaturation(_, _) => seq![Capability::ColorHue, Capability::ColorSaturation],
        Operation::SetStartupBehaviour(_) => seq![],
        Operation::SetTargetLevel(_) => seq![Capability::BlindsState],
    }
}

/// The outcome of validating `op` against the cached device `d`.
pub open spec fn planned(d: Device, op: Operation) -> Result<Change, Rejection> {
    if !has_all(d.capabilities.can_receive@, required(op)) {
        Err(Rejection::MissingCapability)
    } else {
        match op {
            Operation::Rename(name) => Ok(Change::CustomName(name)),
            Operation::ToggleOnOff => Ok(
                Change::IsOn(
                    match d.attributes.is_on {
                        Some(b) => Some(!b),
                        None => None,
                    },
                ),
            ),
            Operation::SetLightLevel(level) => if level <= MAX_LEVEL {
                Ok(Change::LightLevel(level))
            } else {
                Err(Rejection::LevelOutOfRange)
            },
            Operation::SetTemperature(t) => match (
                d.attributes.color_temperature_min,
                d.attributes.color_temperature_max,
            ) {
                (None, _) => Err(Rejection::NoMinTemperature),
                (Some(_), None) => Err(Rejection::NoMaxTemperature),
                (Some(min), Some(max)) => if max <= t && t <= min {
                    Ok(Change::ColorTemperature(t))
                } else {
                    Err(Rejection::TemperatureOutOfRange)
                },
            },
            Operation::SetHueSaturation(hue, sat) => if !(0 <= hue <= MAX_HUE) {
                Err(Rejection::HueOutOfRange)
            } else if !(0 <= sat <= MAX_SATURATION) {
                Err(Rejection::SaturationOutOfRange)
            } else {
                Ok(Change::HueSaturation(hue as u32, sat as u32))
            },
            Operation::SetStartupBehaviour(b) => Ok(Change::StartupOnOff(b)),
            Operation::SetTargetLevel(level) => if level <= MAX_LEVEL {
                Ok(Change::BlindsTargetLevel(level))
            } else {
                Err(Rejection::LevelOutOfRange)
            },
        }
    }
}

/// The attribute bag `a` with the attribute(s) that `c` touches set to their new values.
pub open spec fn applied(a: Attributes, c: Change) -> Attributes {
    match c {
        Change::CustomName(name) => Attributes { custom_name: name, ..a },
        Change::IsOn(on) => Attributes { is_on: on, ..a },
        Change::LightLevel(l) => Attributes { light_level: Some(l), ..a },
        Change::ColorTemperature(t) => Attributes { color_temperature: Some(t), ..a },
        Change::HueSaturation(h, s) => Attributes {
            color_hue: Some(h),
            color_saturation: Some(s),
            ..a
        },
        Change::StartupOnOff(b) => Attributes { startup_on_off: Some(b), ..a },
        Change::BlindsTargetLevel(l) => Attributes { blinds_target_level: Some(l), ..a },
    }
}

/// The device `d` after `c` has been accepted by the hub.
pub open spec fn updated(d: Device, c: Change) -> Device {
    Device { attributes: applied(d.attributes, c), ..d }
}

/// The capabilities that the hub must accept for `op`.
pub fn required_capabilities(op: &Operation) -> (r: Vec<Capability>)
    ensures
        r@ == required(*op),
{
    let r = match op {
        Operation::Rename(_) => vec![Capability::CustomName],
        Operation::ToggleOnOff => vec![Capability::IsOn],
        Operation::SetLightLevel(_) => vec![Capability::LightLevel],
        Operation::SetTemperature(_) => vec![Capability::ColorTemperature],
        Operation::SetHueSaturation(_, _) => vec![Capability::ColorHue, Capability::ColorSaturation],
        Operation::SetStartupBehaviour(_) => vec![],
        Operation::SetTargetLevel(_) => vec![Capability::BlindsState],
    };
    proof {
        assert(r@ =~= required(*op));
    }
    r
}

/// Validates `op` against the cached `device` without changing it: the capability check
/// comes first, then the range checks of the operation.
pub fn prepare(device: &Device, op: Operation) -> (r: Result<Change, Rejection>)
    ensures
        r == planned(*device, op),
{
    let needed = required_capabilities(&op);
    if !device.can_receive_all(needed.as_slice()) {
        return Err(Rejection::MissingCapability);
    }
    match op {
        Operation::Rename(name) => Ok(Change::CustomName(name)),
        Operation::ToggleOnOff => Ok(
            Change::IsOn(
                match device.attributes.is_on {
                    Some(b) => Some(!b),
                    None => None,
                },
            ),
        ),
        Operation::SetLightLevel(level) => if level <= MAX_LEVEL {
            Ok(Change::LightLevel(level))
        } else {
            Err(Rejection::LevelOutOfRange)
        },
        Operation::SetTemperature(t) => match (
            device.attributes.color_temperature_min,
            device.attributes.color_temperature_max,
        ) {
            (None, _) => Err(Rejection::NoMinTemperature),
            (Some(_), None) => Err(Rejection::NoMaxTemperature),
            (Some(min), Some(max)) => if max <= t && t <= min {
                Ok(Change::ColorTemperature(t))
            } else {
                Err(Rejection::TemperatureOutOfRange)
            },
        },
        Operation::SetHueSaturation(hue, sat) => if !(0 <= hue && hue <= MAX_HUE) {
            Err(Rejection::HueOutOfRange)
        } else if !(0 <= sat && sat <= MAX_SATURATION) {
            Err(Rejection::SaturationOutOfRange)
        } else {
            Ok(Change::HueSaturation(hue as u32, sat as u32))
        },
        Operation::SetStartupBehaviour(b) => Ok(Change::StartupOnOff(b)),
        Operation::SetTargetLevel(level) => if level <= MAX_LEVEL {
            Ok(Change::BlindsTargetLevel(level))
        } else {
            Err(Rejection::LevelOutOfRange)
        },
    }
}

/// Writes an accepted change into the cached device.
pub fn apply(device: &mut Device, change: Change)
    ensures
        *final(device) == updated(*old(device), change),
{
    match change {
        Change::CustomName(name) => device.attributes.custom_name = name,
        Change::IsOn(on) => device.attributes.is_on = on,
        Change::LightLevel(l) => device.attributes.light_level = Some(l),
        Change::ColorTemperature(t) => device.attributes.color_temperature = Some(t),
        Change::HueSaturation(h, s) => {
            device.attributes.color_hue = Some(h);
            device.attributes.color_saturation = Some(s);
        },
        Change::StartupOnOff(b) => device.attributes.startup_on_off = Some(b),
        Change::BlindsTargetLevel(l) => device.attributes.blinds_target_level = Some(l),
    }
}

/// Takes the hub's answer to a sent change: on success the cached device is updated,
/// on failure it is left as it was and the failure is handed back.
pub fn finish<E>(device: &mut Device, change: Change, sent: Result<(), E>) -> (r: Result<(), E>)
    ensures
        r == sent,
        sent is Ok ==> *final(device) == updated(*old(device), change),
        sent is Err ==> *final(device) == *old(device),
{
    if sent.is_ok() {
        apply(device, change);
    }
    sent
}

} // verus!
