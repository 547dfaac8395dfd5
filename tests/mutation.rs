use dirigera::{
    apply, finish, has_capability, prepare, required_capabilities, Attributes, Capabilities,
    Capability, Change, Device, DeviceType, Operation, Rejection, Startup,
};

fn attributes() -> Attributes {
    Attributes {
        custom_name: "lamp".to_string(),
        is_on: Some(false),
        light_level: Some(10),
        color_temperature: Some(3000),
        color_temperature_min: Some(4000),
        color_temperature_max: Some(2200),
        color_hue: Some(10_000),
        color_saturation: Some(500),
        blinds_target_level: None,
        startup_on_off: None,
    }
}

fn device(can_receive: Vec<Capability>) -> Device {
    Device {
        id: "dev-1".to_string(),
        device_type: DeviceType::Light,
        capabilities: Capabilities { can_send: vec![], can_receive },
        attributes: attributes(),
    }
}

fn full() -> Device {
    device(vec![
        Capability::CustomName,
        Capability::IsOn,
        Capability::LightLevel,
        Capability::ColorTemperature,
        Capability::ColorHue,
        Capability::ColorSaturation,
        Capability::BlindsState,
    ])
}

#[test]
fn has_capability_needs_every_item() {
    let got = [Capability::IsOn, Capability::LightLevel];
    assert!(has_capability(&got, &[Capability::IsOn]));
    assert!(has_capability(&got, &[Capability::LightLevel, Capability::IsOn]));
    assert!(has_capability(&got, &[]));
    assert!(!has_capability(&got, &[Capability::IsOn, Capability::ColorHue]));
    assert!(!has_capability(&[], &[Capability::IsOn]));
}

#[test]
fn required_capabilities_of_hue_saturation() {
    assert_eq!(
        required_capabilities(&Operation::SetHueSaturation(0, 0)),
        vec![Capability::ColorHue, Capability::ColorSaturation]
    );
    assert!(required_capabilities(&Operation::SetStartupBehaviour(Startup::StartOn)).is_empty());
}

#[test]
fn missing_capability_refuses_every_gated_operation() {
    let d = device(vec![]);
    let ops = vec![
        Operation::Rename("x".to_string()),
        Operation::ToggleOnOff,
        Operation::SetLightLevel(50),
        Operation::SetTemperature(3000),
        Operation::SetHueSaturation(1000, 100),
        Operation::SetTargetLevel(50),
    ];
    for op in ops {
        assert_eq!(prepare(&d, op), Err(Rejection::MissingCapability));
    }
    assert_eq!(d.attributes, attributes());
}

#[test]
fn hue_without_saturation_capability_is_refused() {
    let d = device(vec![Capability::ColorHue]);
    assert_eq!(
        prepare(&d, Operation::SetHueSaturation(1000, 100)),
        Err(Rejection::MissingCapability)
    );
}

#[test]
fn startup_behaviour_is_not_gated() {
    let d = device(vec![]);
    assert_eq!(
        prepare(&d, Operation::SetStartupBehaviour(Startup::StartPrevious)),
        Ok(Change::StartupOnOff(Startup::StartPrevious))
    );
}

#[test]
fn light_level_range() {
    let d = full();
    assert_eq!(prepare(&d, Operation::SetLightLevel(0)), Ok(Change::LightLevel(0)));
    assert_eq!(prepare(&d, Operation::SetLightLevel(100)), Ok(Change::LightLevel(100)));
    assert_eq!(prepare(&d, Operation::SetLightLevel(101)), Err(Rejection::LevelOutOfRange));
    assert_eq!(prepare(&d, Operation::SetLightLevel(255)), Err(Rejection::LevelOutOfRange));
}

#[test]
fn target_level_range() {
    let d = full();
    assert_eq!(prepare(&d, Operation::SetTargetLevel(100)), Ok(Change::BlindsTargetLevel(100)));
    assert_eq!(prepare(&d, Operation::SetTargetLevel(101)), Err(Rejection::LevelOutOfRange));
}

#[test]
fn temperature_between_reported_bounds() {
    let d = full();
    assert_eq!(prepare(&d, Operation::SetTemperature(2200)), Ok(Change::ColorTemperature(2200)));
    assert_eq!(prepare(&d, Operation::SetTemperature(4000)), Ok(Change::ColorTemperature(4000)));
    assert_eq!(prepare(&d, Operation::SetTemperature(2199)), Err(Rejection::TemperatureOutOfRange));
    assert_eq!(prepare(&d, Operation::SetTemperature(4001)), Err(Rejection::TemperatureOutOfRange));
}

#[test]
fn temperature_needs_both_bounds() {
    let mut d = full();
    d.attributes.color_temperature_max = None;
    assert_eq!(prepare(&d, Operation::SetTemperature(3000)), Err(Rejection::NoMaxTemperature));
    d.attributes.color_temperature_min = None;
    assert_eq!(prepare(&d, Operation::SetTemperature(3000)), Err(Rejection::NoMinTemperature));
}

#[test]
fn hue_and_saturation_ranges() {
    let d = full();
    assert_eq!(
        prepare(&d, Operation::SetHueSaturation(360_000, 1000)),
        Ok(Change::HueSaturation(360_000, 1000))
    );
    assert_eq!(prepare(&d, Operation::SetHueSaturation(0, 0)), Ok(Change::HueSaturation(0, 0)));
    assert_eq!(prepare(&d, Operation::SetHueSaturation(360_001, 0)), Err(Rejection::HueOutOfRange));
    assert_eq!(prepare(&d, Operation::SetHueSaturation(-1, 0)), Err(Rejection::HueOutOfRange));
    assert_eq!(prepare(&d, Operation::SetHueSaturation(0, 1001)), Err(Rejection::SaturationOutOfRange));
    assert_eq!(prepare(&d, Operation::SetHueSaturation(0, -1)), Err(Rejection::SaturationOutOfRange));
}

#[test]
fn toggle_flips_known_state_only() {
    let mut d = full();
    assert_eq!(prepare(&d, Operation::ToggleOnOff), Ok(Change::IsOn(Some(true))));
    d.attributes.is_on = None;
    assert_eq!(prepare(&d, Operation::ToggleOnOff), Ok(Change::IsOn(None)));
}

#[test]
fn apply_touches_only_its_attributes() {
    let mut d = full();
    apply(&mut d, Change::LightLevel(42));
    let mut expected = attributes();
    expected.light_level = Some(42);
    assert_eq!(d.attributes, expected);

    apply(&mut d, Change::HueSaturation(120_000, 750));
    expected.color_hue = Some(120_000);
    expected.color_saturation = Some(750);
    assert_eq!(d.attributes, expected);

    apply(&mut d, Change::CustomName("desk".to_string()));
    expected.custom_name = "desk".to_string();
    assert_eq!(d.attributes, expected);
    assert_eq!(d.id, "dev-1");
}

#[test]
fn finish_updates_cache_on_success() {
    let mut d = full();
    let sent: Result<(), String> = Ok(());
    assert_eq!(finish(&mut d, Change::BlindsTargetLevel(30), sent), Ok(()));
    assert_eq!(d.attributes.blinds_target_level, Some(30));
}

#[test]
fn finish_keeps_cache_on_failure() {
    let mut d = full();
    let before = d.clone();
    let sent: Result<(), String> = Err("503".to_string());
    assert_eq!(
        finish(&mut d, Change::StartupOnOff(Startup::StartOff), sent),
        Err("503".to_string())
    );
    assert_eq!(d, before);
}
