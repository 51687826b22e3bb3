//! Records exchanged with the accessory. Temperatures are held in Kelvin and
//! on/off flags as `bool`; the wire forms are produced by the codecs below.
use vstd::prelude::*;

use crate::temperature::{api_to_kelvin, kelvin_to_api, to_code_spec, to_kelvin_spec};

verus! {

/// The wire form of an on/off flag: any non-zero integer means on.
pub open spec fn bool_of_wire(v: u8) -> bool {
    v != 0
}

/// The integer a flag is sent as.
pub open spec fn wire_of_bool(b: bool) -> u8 {
    if b { 1 } else { 0 }
}

/// Reads an on/off flag sent as an integer.
pub fn bool_from_wire(v: u8) -> (r: bool)
    ensures
        r == bool_of_wire(v),
{
    v != 0
}

/// The integer an on/off flag is sent as.
pub fn bool_to_wire(b: bool) -> (r: u8)
    ensures
        r == wire_of_bool(b),
{
    if b { 1 } else { 0 }
}

/// Kelvin of an optional temperature code.
pub fn option_code_to_kelvin(code: Option<u16>) -> (r: Option<u16>)
    ensures
        r is Some <==> code is Some,
        code matches Some(c) ==> r->Some_0 == to_kelvin_spec(c),
{
    match code {
        Some(c) => Some(api_to_kelvin(c)),
        None => None,
    }
}

/// Code of an optional temperature in Kelvin.
pub fn option_kelvin_to_code(kelvin: Option<u16>) -> (r: Option<u16>)
    ensures
        r is Some <==> kelvin is Some,
        kelvin matches Some(k) ==> r->Some_0 == to_code_spec(k),
{
    match kelvin {
        Some(k) => Some(kelvin_to_api(k)),
        None => None,
    }
}

/// Optional flag read from its optional wire integer.
pub fn option_bool_from_wire(v: Option<u8>) -> (r: Option<bool>)
    ensures
        r is Some <==> v is Some,
        v matches Some(x) ==> r->Some_0 == bool_of_wire(x),
{
    match v {
        Some(x) => Some(bool_from_wire(x)),
        None => None,
    }
}

/// Optional flag as its optional wire integer.
pub fn option_bool_to_wire(b: Option<bool>) -> (r: Option<u8>)
    ensures
        r is Some <==> b is Some,
        b matches Some(x) ==> r->Some_0 == wire_of_bool(x),
{
    match b {
        Some(x) => Some(bool_to_wire(x)),
        None => None,
    }
}

/// All lights of an accessory.
#[derive(Debug, Default, Clone)]
pub struct LightsGet {
    pub number_of_lights: u8,
    pub lights: Vec<LightGet>,
}

/// Changes to the lights of an accessory, one entry per light.
#[derive(Debug, Default, Clone)]
pub struct LightsPut {
    pub lights: Vec<LightPut>,
}

/// State of one light.
#[derive(Debug, Default, Clone, Copy)]
pub struct LightGet {
    pub on: bool,
    /// Range: 0 - 100
    pub brightness: u8,
    /// Range: 2900 - 7000 Kelvin
    pub temperature: u16,
}

/// The wire form of one light's state.
#[derive(Debug, Default, Clone, Copy)]
pub struct LightWire {
    pub on: u8,
    pub brightness: u8,
    /// Accessory temperature code.
    pub temperature: u16,
}

/// Changes to one light; absent fields stay as they are.
#[derive(Debug, Default, Clone, Copy)]
pub struct LightPut {
    pub on: Option<bool>,
    /// Range: 0 - 100
    pub brightness: Option<u8>,
    /// Range: 2900 - 7000 Kelvin
    pub temperature: Option<u16>,
}

/// The wire form of changes to one light.
#[derive(Debug, Default, Clone, Copy)]
pub struct LightPutWire {
    pub on: Option<u8>,
    pub brightness: Option<u8>,
    /// Accessory temperature code.
    pub temperature: Option<u16>,
}

impl LightGet {
    /// Decodes a light's state from its wire form.
    pub fn from_wire(w: &LightWire) -> (r: LightGet)
        ensures
            r.on == bool_of_wire(w.on),
            r.brightness == w.brightness,
            r.temperature == to_kelvin_spec(w.temperature),
    {
        LightGet {
            on: bool_from_wire(w.on),
            brightness: w.brightness,
            temperature: api_to_kelvin(w.temperature),
        }
    }

    /// Encodes a light's state in its wire form.
    pub fn to_wire(&self) -> (r: LightWire)
        ensures
            r.on == wire_of_bool(self.on),
            r.brightness == self.brightness,
            r.temperature == to_code_spec(self.temperature),
    {
        LightWire {
            on: bool_to_wire(self.on),
            brightness: self.brightness,
            temperature: kelvin_to_api(self.temperature),
        }
    }
}

impl LightPut {
    /// Encodes changes to a light in their wire form.
    pub fn to_wire(&self) -> (r: LightPutWire)
        ensures
            r.on == (match self.on {
                Some(b) => Some(wire_of_bool(b)),
                None => None,
            }),
            r.brightness == self.brightness,
            r.temperature is Some <==> self.temperature is Some,
            self.temperature matches Some(k) ==> r.temperature->Some_0 == to_code_spec(k),
    {
        LightPutWire {
            on: option_bool_to_wire(self.on),
            brightness: self.brightness,
            temperature: option_kelvin_to_code(self.temperature),
        }
    }

    /// Decodes changes to a light from their wire form.
    pub fn from_wire(w: &LightPutWire) -> (r: LightPut)
        ensures
            r.on == (match w.on {
                Some(x) => Some(bool_of_wire(x)),
                None => None,
            }),
            r.brightness == w.brightness,
            r.temperature is Some <==> w.temperature is Some,
            w.temperature matches Some(c) ==> r.temperature->Some_0 == to_kelvin_spec(c),
    {
        LightPut {
            on: option_bool_from_wire(w.on),
            brightness: w.brightness,
            temperature: option_code_to_kelvin(w.temperature),
        }
    }
}

/// Settings of the lights of an accessory.
#[derive(Debug, Default, Clone)]
pub struct LightsSettingsGet {
    /// State: 0 | 1
    pub power_on_behavior: u8,
    /// Range: 0 - 100
    pub power_on_brightness: u8,
    /// Range: 2900 - 7000 (increments of 50)
    pub power_on_temperature: u16,
    pub switch_on_duration_ms: u16,
    pub switch_off_duration_ms: u16,
    pub color_change_duration_ms: u16,
    pub remote_control: RemoteControl,
}

/// Remote control settings.
#[derive(Debug, Default, Clone)]
pub struct RemoteControl {
    pub favourites: Vec<Favourite>,
    pub auto_mode: AutoMode,
}

/// A stored favourite setting.
#[derive(Debug, Default, Clone, Copy)]
pub struct Favourite {
    /// Range: 0 - 100
    pub brightness: u8,
    /// Range: 2900 - 7000 (increments of 50)
    pub temperature: u16,
}

/// Automatic mode settings.
#[derive(Debug, Default, Clone, Copy)]
pub struct AutoMode {
    pub target_lux_value: u16,
}

/// Changes to the light settings; absent fields stay as they are.
#[derive(Debug, Default, Clone)]
pub struct LightsSettingsPut {
    /// State: 0 | 1
    pub power_on_behavior: Option<u8>,
    /// Range: 0 - 100
    pub power_on_brightness: Option<u8>,
    /// Range: 2900 - 7000 (increments of 50)
    pub power_on_temperature: Option<u16>,
    pub switch_on_duration_ms: Option<u16>,
    pub switch_off_duration_ms: Option<u16>,
    pub color_change_duration_ms: Option<u16>,
    pub remote_control: Option<RemoteControlPut>,
}

/// Changes to the remote control settings.
#[derive(Debug, Default, Clone)]
pub struct RemoteControlPut {
    pub favourites: Option<Vec<FavouritePut>>,
    pub auto_mode: Option<AutoModePut>,
}

/// Changes to a favourite setting.
#[derive(Debug, Default, Clone, Copy)]
pub struct FavouritePut {
    /// Range: 0 - 100
    pub brightness: Option<u8>,
    /// Range: 2900 - 7000 (increments of 50)
    pub temperature: Option<u16>,
}

/// Changes to the automatic mode.
#[derive(Debug, Default, Clone, Copy)]
pub struct AutoModePut {
    pub target_lux_value: Option<u16>,
}

/// Identity and description of an accessory.
#[derive(Debug, Default, Clone)]
pub struct AccessoryInfoGet {
    pub product_name: String,
    pub hardware_board_type: u16,
    pub hardware_revision: String,
    pub mac_address: String,
    pub firmware_build_number: u16,
    pub firmware_version: String,
    pub serial_number: String,
    /// The user specified name of the device
    pub display_name: String,
    pub features: Vec<String>,
    pub wifi_info: WifiInfo,
    pub bt_info: BtInfo,
}

/// Changes to the identity of an accessory.
#[derive(Debug, Default, Clone)]
pub struct AccessoryInfoPut {
    /// The user specified name of the device
    pub display_name: Option<String>,
}

/// The network an accessory is connected to.
#[derive(Debug, Default, Clone)]
pub struct WifiInfo {
    pub ssid: String,
    pub frequency_mhz: u16,
    pub rssi: i8,
}

/// Bluetooth state of an accessory.
#[derive(Debug, Default, Clone, Copy)]
pub struct BtInfo {
    pub broadcast_mode: u8,
    pub pairing: bool,
    pub paired: bool,
}

/// Credentials of a network for the accessory to join.
#[derive(Debug, Default, Clone)]
pub struct WifiConfig {
    pub ssid: String,
    pub passphrase: Option<String>,
    pub security_type: WifiSecurity,
    /// Range: 1 - 14
    pub channel: Option<u8>,
}

/// Security of a network.
#[derive(Debug, Default, Clone, Copy, PartialEq, Eq)]
pub enum WifiSecurity {
    #[default]
    Open,
    WpaOrWpa2Personal,
}

impl WifiSecurity {
    /// The integer the security type is sent as.
    pub open spec fn spec_code(self) -> u8 {
        match self {
            WifiSecurity::Open => 0,
            WifiSecurity::WpaOrWpa2Personal => 2,
        }
    }

    /// The integer the security type is sent as.
    pub fn code(&self) -> (r: u8)
        ensures
            r == self.spec_code(),
    {
        match self {
            WifiSecurity::Open => 0,
            WifiSecurity::WpaOrWpa2Personal => 2,
        }
    }
}

/// The body of any response that reports a failure.
#[derive(Debug, Default, Clone)]
pub struct JsonErrors {
    pub errors: Vec<JsonError>,
}

/// One reported failure.
#[derive(Debug, Default, Clone)]
pub struct JsonError {
    pub message: String,
    pub code: i32,
}

} // verus!
