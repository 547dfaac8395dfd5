use vstd::prelude::*;

use crate::device::{has_all, Capability, Device};
use crate::mutation::{applied, planned, required, updated, Change, Operation, Rejection, MAX_HUE, MAX_SATURATION};

verus! {

/// A device whose hub does not accept every capability that an operation needs gets that
/// operation refused; refusal produces no change, so nothing is sent or written.
pub proof fn missing_capability_refused(d: Device, op: Operation)
    requires
        !has_all(d.capabilities.can_receive@, required(op)),
    ensures
        planned(d, op) == Err::<Change, Rejection>(Rejection::MissingCapability),
{
}

/// With the capability present, a light level or blind target level is accepted exactly
/// when it lies in 0..=100.
pub proof fn level_accepted_iff_in_range(d: Device, level: u8)
    ensures
        d.capabilities.can_receive@.contains(Capability::LightLevel) ==> (
        planned(d, Operation::SetLightLevel(level)) is Ok <==> level <= 100),
        d.capabilities.can_receive@.contains(Capability::BlindsState) ==> (
        planned(d, Operation::SetTargetLevel(level)) is Ok <==> level <= 100),
{
    assert(required(Operation::SetLightLevel(level))[0] == Capability::LightLevel);
    assert(required(Operation::SetTargetLevel(level))[0] == Capability::BlindsState);
}

/// With the capability and both reported bounds present, a colour temperature is accepted
/// exactly when `max <= t <= min`.
pub proof fn temperature_accepted_iff_within_bounds(d: Device, t: u16)
    requires
        d.capabilities.can_receive@.contains(Capability::ColorTemperature),
        d.attributes.color_temperature_min is Some,
        d.attributes.color_temperature_max is Some,
    ensures
        planned(d, Operation::SetTemperature(t)) is Ok <==> (
        d.attributes.color_temperature_max->0 <= t <= d.attributes.color_temperature_min->0),
{
    assert(required(Operation::SetTemperature(t))[0] == Capability::ColorTemperature);
}

/// With both colour capabilities present, a hue outside 0..=360 degrees or a saturation
/// outside 0..=1 is refused, and a pair inside both ranges is accepted.
pub proof fn hue_saturation_accepted_iff_in_range(d: Device, hue: i64, sat: i64)
    requires
        d.capabilities.can_receive@.contains(Capability::ColorHue),
        d.capabilities.can_receive@.contains(Capability::ColorSaturation),
    ensures
        !(0 <= hue <= MAX_HUE) ==> planned(d, Operation::SetHueSaturation(hue, sat))
            == Err::<Change, Rejection>(Rejection::HueOutOfRange),
        (0 <= hue <= MAX_HUE && !(0 <= sat <= MAX_SATURATION)) ==> planned(
            d,
            Operation::SetHueSaturation(hue, sat),
        ) == Err::<Change, Rejection>(Rejection::SaturationOutOfRange),
        planned(d, Operation::SetHueSaturation(hue, sat)) is Ok <==> (0 <= hue <= MAX_HUE && 0
            <= sat <= MAX_SATURATION),
{
    let req = required(Operation::SetHueSaturation(hue, sat));
    assert(req[0] == Capability::ColorHue);
    assert(req[1] == Capability::ColorSaturation);
}

/// An accepted change sets the attribute(s) it touches and leaves every other attribute,
/// and the device's identity and capabilities, as they were.
pub proof fn change_touches_only_its_attributes(d: Device, c: Change)
    ensures
        updated(d, c).id == d.id,
        updated(d, c).device_type == d.device_type,
        updated(d, c).capabilities == d.capabilities,
        updated(d, c).attributes.custom_name == (match c {
            Change::CustomName(n) => n,
            _ => d.attributes.custom_name,
        }),
        updated(d, c).attributes.is_on == (match c {
            Change::IsOn(on) => on,
            _ => d.attributes.is_on,
        }),
        updated(d, c).attributes.light_level == (match c {
            Change::LightLevel(l) => Some(l),
            _ => d.attributes.light_level,
        }),
        updated(d, c).attributes.color_temperature == (match c {
            Change::ColorTemperature(t) => Some(t),
            _ => d.attributes.color_temperature,
        }),
        updated(d, c).attributes.color_temperature_min == d.attributes.color_temperature_min,
        updated(d, c).attributes.color_temperature_max == d.attributes.color_temperature_max,
        updated(d, c).attributes.color_hue == (match c {
            Change::HueSaturation(h, _) => Some(h),
            _ => d.attributes.color_hue,
        }),
        updated(d, c).attributes.color_saturation == (match c {
            Change::HueSaturation(_, s) => Some(s),
            _ => d.attributes.color_saturation,
        }),
        updated(d, c).attributes.startup_on_off == (match c {
            Change::StartupOnOff(b) => Some(b),
            _ => d.attributes.startup_on_off,
        }),
        updated(d, c).attributes.blinds_target_level == (match c {
            Change::BlindsTargetLevel(l) => Some(l),
            _ => d.attributes.blinds_target_level,
        }),
{
}

/// Toggling flips a known power state and leaves an unknown one unknown.
pub proof fn toggle_flips_known_state(d: Device)
    requires
        d.capabilities.can_receive@.contains(Capability::IsOn),
    ensures
        planned(d, Operation::ToggleOnOff) is Ok,
        applied(d.attributes, planned(d, Operation::ToggleOnOff)->Ok_0).is_on == (match d.attributes.is_on {
            Some(b) => Some(!b),
            None => None::<bool>,
        }),
{
    assert(required(Operation::ToggleOnOff)[0] == Capability::IsOn);
}

} // verus!
