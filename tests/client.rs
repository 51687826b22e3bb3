use open_ecc::client::{deser_response, first_light, EccConfig, LightChange, Method, Operation};
use open_ecc::contracts::{JsonError, JsonErrors, LightGet, LightWire, LightsGet};
use open_ecc::error::EccError;
use open_ecc::temperature::api_to_kelvin;

fn number(v: &serde_json::Value, field: &str) -> u64 {
    v.get(field).and_then(|x| x.as_u64()).unwrap()
}

#[test]
fn success_response_decodes_light() {
    let body: serde_json::Value =
        serde_json::from_str("{\"on\":1,\"brightness\":50,\"temperature\":200}").unwrap();
    let wire = LightWire {
        on: number(&body, "on") as u8,
        brightness: number(&body, "brightness") as u8,
        temperature: number(&body, "temperature") as u16,
    };
    let light = deser_response(200, Some(LightGet::from_wire(&wire)), None).unwrap();
    assert!(light.on);
    assert_eq!(light.brightness, 50);
    assert_eq!(light.temperature, api_to_kelvin(200));
}

#[test]
fn error_response_is_device_rejected() {
    let body: serde_json::Value =
        serde_json::from_str("{\"errors\":[{\"message\":\"bad request\",\"code\":400}]}").unwrap();
    let first = &body.get("errors").unwrap().as_array().unwrap()[0];
    let errors = JsonErrors {
        errors: vec![JsonError {
            message: first.get("message").unwrap().as_str().unwrap().to_string(),
            code: first.get("code").unwrap().as_i64().unwrap() as i32,
        }],
    };
    match deser_response::<LightsGet>(400, None, Some(errors)) {
        Err(EccError::DeviceRejected(e)) => {
            assert_eq!(e.errors.len(), 1);
            assert_eq!(e.errors[0].message, "bad request");
            assert_eq!(e.errors[0].code, 400);
        }
        other => panic!("unexpected {:?}", other),
    }
}

#[test]
fn unreadable_bodies_are_decode_failures() {
    assert!(matches!(deser_response::<u8>(200, None, None), Err(EccError::Decode)));
    assert!(matches!(deser_response::<u8>(500, Some(1), None), Err(EccError::Decode)));
    assert!(matches!(deser_response::<u8>(299, Some(3), None), Ok(3)));
    assert!(matches!(deser_response::<u8>(300, Some(3), None), Err(EccError::Decode)));
}

#[test]
fn urls_of_operations() {
    let config = EccConfig::new();
    assert_eq!(config.format_url("192.168.0.50"), "http://192.168.0.50:9123/elgato");
    assert_eq!(
        config.operation_url("lamp", Operation::LightsSettingsGet),
        "http://lamp:9123/elgato/lights/settings"
    );
    assert_eq!(
        config.operation_url("lamp", Operation::WifiInfoPut),
        "http://lamp:9123/elgato/wifi-info"
    );
    let other = EccConfig { protocol: "https".to_string(), port: 7, namespace: String::new() };
    assert_eq!(other.format_url("h"), "https://h:7");
}

#[test]
fn methods_and_paths_of_operations() {
    assert_eq!(Operation::LightsGet.method(), Method::Get);
    assert_eq!(Operation::LightsSettingsPut.method(), Method::Put);
    assert_eq!(Operation::LightsSettingsPut.path(), "/lights");
    assert_eq!(Operation::AccessoryInfoPut.path(), "/accessory-info");
    assert_eq!(Operation::Identify.method(), Method::Post);
    assert_eq!(Operation::Identify.path(), "/identify");
    assert_eq!(Operation::WifiInfoPut.method(), Method::Put);
}

#[test]
fn changes_for_each_light() {
    let lights = LightsGet {
        number_of_lights: 2,
        lights: vec![
            LightGet { on: true, brightness: 10, temperature: 2900 },
            LightGet { on: false, brightness: 20, temperature: 3000 },
        ],
    };
    let toggled = LightChange::Toggle.puts_for(&lights);
    assert_eq!(toggled.len(), 2);
    assert_eq!(toggled[0].on, Some(false));
    assert_eq!(toggled[1].on, Some(true));
    assert_eq!(toggled[0].brightness, None);
    let bright = LightChange::Brightness(70).puts_for(&lights);
    assert_eq!(bright[1].brightness, Some(70));
    assert_eq!(bright[1].on, None);
    let warm = LightChange::Temperature(3500).put_for(&lights.lights[0]);
    assert_eq!(warm.temperature, Some(3500));
    let off = LightChange::State(false).put_for(&lights.lights[0]);
    assert_eq!(off.on, Some(false));
}

#[test]
fn first_light_or_none() {
    let empty = LightsGet { number_of_lights: 0, lights: vec![] };
    assert!(matches!(first_light(&empty), Err(EccError::NoLights)));
    let one = LightsGet {
        number_of_lights: 1,
        lights: vec![LightGet { on: true, brightness: 3, temperature: 4000 }],
    };
    assert_eq!(first_light(&one).unwrap().brightness, 3);
}
