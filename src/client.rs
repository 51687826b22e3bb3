//! What the accessory client decides: where each operation is sent, how a
//! response is classified, and which changes are sent to the lights.
use vstd::prelude::*;

use crate::contracts::{JsonErrors, LightGet, LightPut, LightsGet};
use crate::error::EccError;
use crate::key::hex_digit;

verus! {

/// The decimal digits of `n`, most significant first.
pub open spec fn decimal_text(n: nat) -> Seq<char>
    decreases n,
{
    if n < 10 {
        seq![hex_digit(n as int)]
    } else {
        decimal_text(n / 10) + seq![hex_digit((n % 10) as int)]
    }
}

/// Relies on std's `ToString` for `u16`, which writes the number in decimal
/// without sign, padding or separators.
#[verifier::external_body]
fn decimal_string(v: u16) -> (r: String)
    ensures
        r@ == decimal_text(v as nat),
{
    v.to_string()
}

/// How to reach the HTTP interface of the accessories of one product.
#[derive(Debug, Clone)]
pub struct EccConfig {
    pub protocol: String,
    pub port: u16,
    pub namespace: String,
}

impl EccConfig {
    /// The settings of this product: plain `http`, port 9123, namespace `/elgato`.
    pub fn new() -> (r: EccConfig)
        ensures
            r.protocol@ == seq!['h', 't', 't', 'p'],
            r.port == 9123,
            r.namespace@ == seq!['/', 'e', 'l', 'g', 'a', 't', 'o'],
    {
        proof {
            reveal_strlit("http");
            reveal_strlit("/elgato");
        }
        EccConfig {
            protocol: String::from_str("http"),
            port: 9123,
            namespace: String::from_str("/elgato"),
        }
    }

    /// The base address of the interface at `endpoint`.
    pub open spec fn base_url(&self, endpoint: Seq<char>) -> Seq<char> {
        self.protocol@ + seq![':', '/', '/'] + endpoint + seq![':'] + decimal_text(
            self.port as nat,
        ) + self.namespace@
    }

    /// The base address of the interface at `endpoint`:
    /// `{protocol}://{endpoint}:{port}{namespace}`.
    pub fn format_url(&self, endpoint: &str) -> (r: String)
        ensures
            r@ == self.base_url(endpoint@),
    {
        let port = decimal_string(self.port);
        let mut url = self.protocol.clone();
        url.append("://");
        url.append(endpoint);
        url.append(":");
        url.append(port.as_str());
        url.append(self.namespace.as_str());
        proof {
            reveal_strlit("://");
            reveal_strlit(":");
            assert(url@ =~= self.base_url(endpoint@));
        }
        url
    }

    /// The address of `operation` on the interface at `endpoint`.
    pub fn operation_url(&self, endpoint: &str, operation: Operation) -> (r: String)
        ensures
            r@ == self.base_url(endpoint@) + operation.spec_path(),
    {
        let mut url = self.format_url(endpoint);
        url.append(operation.path());
        url
    }
}

/// HTTP methods the accessory is called with.
#[derive(Debug, Clone, Copy, PartialEq, Eq)]
pub enum Method {
    Get,
    Put,
    Post,
}

/// The operations of the accessory's interface.
#[derive(Debug, Clone, Copy, PartialEq, Eq)]
pub enum Operation {
    LightsGet,
    LightsPut,
    LightsSettingsGet,
    LightsSettingsPut,
    AccessoryInfoGet,
    AccessoryInfoPut,
    WifiInfoPut,
    Identify,
}

impl Operation {
    /// The method an operation is sent with.
    pub open spec fn spec_method(self) -> Method {
        match self {
            Operation::LightsGet | Operation::LightsSettingsGet | Operation::AccessoryInfoGet => {
                Method::Get
            },
            Operation::Identify => Method::Post,
            _ => Method::Put,
        }
    }

    /// The path an operation is sent to, below the base address.
    pub open spec fn spec_path(self) -> Seq<char> {
        match self {
            Operation::LightsGet | Operation::LightsPut | Operation::LightsSettingsPut => {
                seq!['/', 'l', 'i', 'g', 'h', 't', 's']
            },
            Operation::LightsSettingsGet => seq![
                '/', 'l', 'i', 'g', 'h', 't', 's', '/', 's', 'e', 't', 't', 'i', 'n', 'g', 's',
            ],
            Operation::AccessoryInfoGet | Operation::AccessoryInfoPut => seq![
                '/', 'a', 'c', 'c', 'e', 's', 's', 'o', 'r', 'y', '-', 'i', 'n', 'f', 'o',
            ],
            Operation::WifiInfoPut => seq!['/', 'w', 'i', 'f', 'i', '-', 'i', 'n', 'f', 'o'],
            Operation::Identify => seq!['/', 'i', 'd', 'e', 'n', 't', 'i', 'f', 'y'],
        }
    }

    /// The method an operation is sent with.
    pub fn method(&self) -> (r: Method)
        ensures
            r == self.spec_method(),
    {
        match self {
            Operation::LightsGet | Operation::LightsSettingsGet | Operation::AccessoryInfoGet => {
                Method::Get
            },
            Operation::Identify => Method::Post,
            _ => Method::Put,
        }
    }

    /// The path an operation is sent to, below the base address.
    pub fn path(&self) -> (r: &'static str)
        ensures
            r@ == self.spec_path(),
    {
        match self {
            Operation::LightsGet | Operation::LightsPut | Operation::LightsSettingsPut => {
                proof {
                    reveal_strlit("/lights");
                }
                "/lights"
            },
            Operation::LightsSettingsGet => {
                proof {
                    reveal_strlit("/lights/settings");
                }
                "/lights/settings"
            },
            Operation::AccessoryInfoGet | Operation::AccessoryInfoPut => {
                proof {
                    reveal_strlit("/accessory-info");
                }
                "/accessory-info"
            },
            Operation::WifiInfoPut => {
                proof {
                    reveal_strlit("/wifi-info");
                }
                "/wifi-info"
            },
            Operation::Identify => {
                proof {
                    reveal_strlit("/identify");
                }
                "/identify"
            },
        }
    }
}

/// Whether an HTTP status reports success.
pub open spec fn is_success_status(status: u16) -> bool {
    200 <= status <= 299
}

/// Classifies a response. On a success status the body read as the expected
/// record is the result; on any other status the body read as an error envelope
/// is the failure. A body that did not read as the record wanted is a decoding
/// failure.
pub fn deser_response<T>(status: u16, expected: Option<T>, errors: Option<JsonErrors>) -> (r:
    Result<T, EccError>)
    ensures
        is_success_status(status) ==> r == (match expected {
            Some(t) => Ok::<T, EccError>(t),
            None => Err(EccError::Decode),
        }),
        !is_success_status(status) ==> r == (match errors {
            Some(e) => Err::<T, EccError>(EccError::DeviceRejected(e)),
            None => Err(EccError::Decode),
        }),
{
    if 200 <= status && status <= 299 {
        match expected {
            Some(t) => Ok(t),
            None => Err(EccError::Decode),
        }
    } else {
        match errors {
            Some(e) => Err(EccError::DeviceRejected(e)),
            None => Err(EccError::Decode),
        }
    }
}

/// A change to apply to every light of an accessory.
#[derive(Debug, Clone, Copy, PartialEq, Eq)]
pub enum LightChange {
    /// Switch on or off.
    State(bool),
    /// Switch each light to the opposite of its current state.
    Toggle,
    /// Set the brightness, 0 - 100.
    Brightness(u8),
    /// Set the temperature in Kelvin.
    Temperature(u16),
}

impl LightChange {
    /// The change sent for a light currently in state `light`.
    pub open spec fn spec_put_for(self, light: LightGet) -> LightPut {
        match self {
            LightChange::State(on) => LightPut { on: Some(on), brightness: None, temperature: None },
            LightChange::Toggle => LightPut { on: Some(!light.on), brightness: None, temperature: None },
            LightChange::Brightness(b) => LightPut {
                on: None,
                brightness: Some(b),
                temperature: None,
            },
            LightChange::Temperature(k) => LightPut {
                on: None,
                brightness: None,
                temperature: Some(k),
            },
        }
    }

    /// The change sent for a light currently in state `light`.
    pub fn put_for(&self, light: &LightGet) -> (r: LightPut)
        ensures
            r == self.spec_put_for(*light),
    {
        match self {
            LightChange::State(on) => LightPut { on: Some(*on), brightness: None, temperature: None },
            LightChange::Toggle => LightPut { on: Some(!light.on), brightness: None, temperature: None },
            LightChange::Brightness(b) => LightPut {
                on: None,
                brightness: Some(*b),
                temperature: None,
            },
            LightChange::Temperature(k) => LightPut {
                on: None,
                brightness: None,
                temperature: Some(*k),
            },
        }
    }

    /// The changes sent for the lights `lights`, one per light, in order.
    pub fn puts_for(&self, lights: &LightsGet) -> (r: Vec<LightPut>)
        ensures
            r@.len() == lights.lights@.len(),
            forall|i: int|
                0 <= i < r@.len() ==> #[trigger] r@[i] == self.spec_put_for(lights.lights@[i]),
    {
        let mut puts: Vec<LightPut> = Vec::new();
        let mut i: usize = 0;
        while i < lights.lights.len()
            invariant
                i <= lights.lights@.len(),
                puts@.len() == i,
                forall|j: int|
                    0 <= j < i ==> #[trigger] puts@[j] == self.spec_put_for(lights.lights@[j]),
            decreases lights.lights@.len() - i,
        {
            puts.push(self.put_for(&lights.lights[i]));
            i = i + 1;
        }
        puts
    }
}

/// The first light of an accessory, which single-light reads report on.
pub fn first_light(lights: &LightsGet) -> (r: Result<LightGet, EccError>)
    ensures
        lights.lights@.len() > 0 ==> r == Ok::<LightGet, EccError>(lights.lights@[0]),
        lights.lights@.len() == 0 ==> r == Err::<LightGet, EccError>(EccError::NoLights),
{
    if lights.lights.len() > 0 {
        Ok(lights.lights[0])
    } else {
        Err(EccError::NoLights)
    }
}

} // verus!
