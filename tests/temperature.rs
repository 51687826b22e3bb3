use open_ecc::contracts::{bool_from_wire, bool_to_wire, LightGet, LightPut, LightWire};
use open_ecc::temperature::{api_to_kelvin, kelvin_to_api};

#[test]
fn test_api_to_kelvin() {
    assert_eq!(api_to_kelvin(143), 2900);
    assert_eq!(api_to_kelvin(344), 7000);
    let mid_kelvin = api_to_kelvin((143 + 344) / 2);
    assert!(mid_kelvin % 50 == 0);
}

#[test]
fn test_kelvin_to_api() {
    assert_eq!(kelvin_to_api(2900), 143);
    assert_eq!(kelvin_to_api(7000), 344);
    for k in (2900..=7000).step_by(50) {
        let api = kelvin_to_api(k);
        let k2 = api_to_kelvin(api);
        assert_eq!(k, k2, "Failed at Kelvin {}", k);
    }
}

#[test]
fn codes_map_to_kelvin_steps_in_range() {
    for code in 0..=u16::MAX {
        let k = api_to_kelvin(code);
        assert!(k % 50 == 0);
        assert!((2900..=7000).contains(&k));
    }
}

#[test]
fn codes_below_range_map_to_lowest_kelvin() {
    assert_eq!(api_to_kelvin(0), 2900);
    assert_eq!(api_to_kelvin(142), 2900);
    assert_eq!(api_to_kelvin(u16::MAX), 7000);
}

#[test]
fn code_to_kelvin_exact_values() {
    assert_eq!(api_to_kelvin(200), 4050);
    assert_eq!(api_to_kelvin(144), 2900);
    assert_eq!(api_to_kelvin(146), 2950);
    assert_eq!(api_to_kelvin(243), 4950);
}

#[test]
fn kelvin_to_code_clamps_and_rounds() {
    assert_eq!(kelvin_to_api(0), 143);
    assert_eq!(kelvin_to_api(2000), 143);
    assert_eq!(kelvin_to_api(9000), 344);
    assert_eq!(kelvin_to_api(u16::MAX), 344);
    // 4950 K lies exactly half way between two codes
    assert_eq!(kelvin_to_api(4950), 244);
    assert_eq!(kelvin_to_api(4000), 197);
}

#[test]
fn code_round_trip_is_lossy() {
    // 143 and 144 both map to 2900 K, which maps back to 143
    assert_eq!(kelvin_to_api(api_to_kelvin(144)), 143);
}

#[test]
fn flags_on_the_wire() {
    assert!(bool_from_wire(1));
    assert!(bool_from_wire(7));
    assert!(!bool_from_wire(0));
    assert_eq!(bool_to_wire(true), 1);
    assert_eq!(bool_to_wire(false), 0);
}

#[test]
fn light_state_codecs() {
    let light = LightGet::from_wire(&LightWire { on: 1, brightness: 50, temperature: 200 });
    assert!(light.on);
    assert_eq!(light.brightness, 50);
    assert_eq!(light.temperature, api_to_kelvin(200));
    let back = light.to_wire();
    assert_eq!(back.on, 1);
    assert_eq!(back.temperature, kelvin_to_api(4050));
    let put = LightPut { on: Some(false), brightness: None, temperature: Some(7000) }.to_wire();
    assert_eq!(put.on, Some(0));
    assert_eq!(put.brightness, None);
    assert_eq!(put.temperature, Some(344));
    let read = LightPut::from_wire(&put);
    assert_eq!(read.on, Some(false));
    assert_eq!(read.temperature, Some(7000));
}
