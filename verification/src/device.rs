//! The bulb as the gateway describes it, and its wire form.

use crate::coap::Method;
use crate::gateway::{device_path, result_view, Gateway, GatewayError, Request};
use crate::json::{json_model, json_text, models, JsonModel, JsonNumber};
use vstd::prelude::*;

verus! {

/// The member of a device that holds its identifier.
pub const ID_KEY: &'static str = "9003";

/// The member of a device that holds its name.
pub const NAME_KEY: &'static str = "9001";

/// The member of a device that holds its bulb attributes, as an array.
pub const BULB_KEY: &'static str = "3311";

/// The member of the bulb attributes that holds the power state.
pub const POWER_KEY: &'static str = "5850";

/// The member of the bulb attributes that holds the colour.
pub const COLOUR_KEY: &'static str = "5706";

/// The colour temperatures that a bulb can take.
#[derive(Clone, Copy, Debug, PartialEq, Eq)]
pub enum BulbTemperature {
    White,
    Warm,
    Glow,
}

impl BulbTemperature {
    /// The colour's hexadecimal code on the wire.
    pub open spec fn code(self) -> Seq<char> {
        match self {
            BulbTemperature::White => "f5faf6"@,
            BulbTemperature::Warm => "f1e0b5"@,
            BulbTemperature::Glow => "efd275"@,
        }
    }

    /// The colour with a given code, if the code is one of the palette.
    pub open spec fn of_code(code: Seq<char>) -> Option<BulbTemperature> {
        if code == BulbTemperature::White.code() {
            Some(BulbTemperature::White)
        } else if code == BulbTemperature::Warm.code() {
            Some(BulbTemperature::Warm)
        } else if code == BulbTemperature::Glow.code() {
            Some(BulbTemperature::Glow)
        } else {
            None
        }
    }

    /// The colour's hexadecimal code on the wire.
    pub fn hex(self) -> (code: &'static str)
        ensures
            code@ == self.code(),
    {
        match self {
            BulbTemperature::White => "f5faf6",
            BulbTemperature::Warm => "f1e0b5",
            BulbTemperature::Glow => "efd275",
        }
    }

    /// Reads a colour from its code; `None` for a code outside the palette.
    pub fn from_hex(code: &str) -> (temperature: Option<BulbTemperature>)
        ensures
            temperature == BulbTemperature::of_code(code@),
    {
        let code = code.to_owned();
        if code == BulbTemperature::White.hex().to_owned() {
            Some(BulbTemperature::White)
        } else if code == BulbTemperature::Warm.hex().to_owned() {
            Some(BulbTemperature::Warm)
        } else if code == BulbTemperature::Glow.hex().to_owned() {
            Some(BulbTemperature::Glow)
        } else {
            None
        }
    }
}

/// Whether a bulb is lit.
#[derive(Clone, Copy, Debug, PartialEq, Eq)]
pub enum DeviceState {
    On,
    Off,
}

impl DeviceState {
    /// The state's number on the wire: 1 for on, 0 for off.
    pub open spec fn number(self) -> u64 {
        match self {
            DeviceState::On => 1,
            DeviceState::Off => 0,
        }
    }

    /// The state with a given number, if there is one.
    pub open spec fn of_number(n: u64) -> Option<DeviceState> {
        if n == 1 {
            Some(DeviceState::On)
        } else if n == 0 {
            Some(DeviceState::Off)
        } else {
            None
        }
    }

    /// The state's number on the wire.
    pub fn to_number(self) -> (n: u64)
        ensures
            n == self.number(),
    {
        match self {
            DeviceState::On => 1,
            DeviceState::Off => 0,
        }
    }

    /// Reads a state from its number; `None` for a number other than 0 and 1.
    pub fn from_number(n: u64) -> (state: Option<DeviceState>)
        ensures
            state == DeviceState::of_number(n),
    {
        if n == 1 {
            Some(DeviceState::On)
        } else if n == 0 {
            Some(DeviceState::Off)
        } else {
            None
        }
    }
}

/// The attributes of a bulb.
#[derive(Clone, Copy, Debug, PartialEq, Eq)]
pub struct BulbData {
    pub status: DeviceState,
    pub temperature: BulbTemperature,
}

impl BulbData {
    /// The attribute object of a bulb: its power state and its colour, each
    /// under its key.
    pub open spec fn model(self) -> JsonModel {
        JsonModel::Object(
            Map::empty().insert(
                POWER_KEY@,
                JsonModel::Number(JsonNumber::PosInt(self.status.number())),
            ).insert(COLOUR_KEY@, JsonModel::Text(self.temperature.code())),
        )
    }

    /// The attributes that an attribute object describes; `None` where the
    /// power state or the colour is missing or is none of the known ones.
    pub open spec fn of_model(object: JsonModel) -> Option<BulbData> {
        match (object.get(POWER_KEY@), object.get(COLOUR_KEY@)) {
            (Some(power), Some(colour)) => match (power.as_u64(), colour.as_str()) {
                (Some(n), Some(code)) => match (
                    DeviceState::of_number(n),
                    BulbTemperature::of_code(code),
                ) {
                    (Some(status), Some(temperature)) => Some(BulbData { status, temperature }),
                    _ => None,
                },
                _ => None,
            },
            _ => None,
        }
    }

    /// The same attributes but for the power state.
    pub open spec fn with_status(self, status: DeviceState) -> BulbData {
        BulbData { status, temperature: self.temperature }
    }

    /// The payload that overwrites a bulb's attributes: an object whose one
    /// member is an array of one attribute object.
    pub open spec fn payload_model(self) -> JsonModel {
        JsonModel::Object(Map::empty().insert(BULB_KEY@, JsonModel::Array(seq![self.model()])))
    }

    /// Builds the attribute object.
    pub fn to_json(&self) -> (object: serde_json::Value)
        ensures
            json_model(object) == self.model(),
    {
        let mut object = crate::json::object();
        crate::json::insert(&mut object, POWER_KEY, crate::json::number(self.status.to_number()));
        crate::json::insert(&mut object, COLOUR_KEY, crate::json::string(self.temperature.hex()));
        object
    }

    /// Reads an attribute object.
    pub fn from_json(object: &serde_json::Value) -> (data: Option<BulbData>)
        ensures
            data == BulbData::of_model(json_model(*object)),
    {
        let power = crate::json::get(object, POWER_KEY)?;
        let colour = crate::json::get(object, COLOUR_KEY)?;
        let n = crate::json::as_u64(power)?;
        let code = crate::json::as_str(colour)?;
        let status = DeviceState::from_number(n)?;
        let temperature = BulbTemperature::from_hex(code)?;
        Some(BulbData { status, temperature })
    }

    /// Builds the payload that overwrites a bulb's attributes with these.
    pub fn to_payload(&self) -> (payload: serde_json::Value)
        ensures
            json_model(payload) == self.payload_model(),
    {
        let mut items: Vec<serde_json::Value> = Vec::new();
        items.push(self.to_json());
        assert(models(items@) =~= seq![self.model()]);
        let mut payload = crate::json::object();
        crate::json::insert(&mut payload, BULB_KEY, crate::json::array(items));
        payload
    }
}

/// A bulb as the gateway described it when it was fetched.
#[derive(Debug, PartialEq, Eq)]
pub struct Device {
    pub id: u64,
    pub name: String,
    pub data: BulbData,
}

/// The content of a [`Device`].
pub struct DeviceModel {
    pub id: u64,
    pub name: Seq<char>,
    pub data: BulbData,
}

impl View for Device {
    type V = DeviceModel;

    open spec fn view(&self) -> DeviceModel {
        DeviceModel { id: self.id, name: self.name@, data: self.data }
    }
}

/// The content of a device that may be missing.
pub open spec fn device_view(device: Option<Device>) -> Option<DeviceModel> {
    match device {
        Some(d) => Some(d@),
        None => None,
    }
}

impl DeviceModel {
    /// The attributes that a device object carries: those of the first item
    /// of the array under the bulb key.
    pub open spec fn bulb_of(object: JsonModel) -> Option<BulbData> {
        match object.get(BULB_KEY@) {
            Some(JsonModel::Array(items)) if items.len() > 0 => BulbData::of_model(items[0]),
            _ => None,
        }
    }

    /// The device that a device object describes; `None` where the
    /// identifier, the name or the attributes are missing or malformed.
    pub open spec fn of_model(object: JsonModel) -> Option<DeviceModel> {
        match (object.get(ID_KEY@), object.get(NAME_KEY@), DeviceModel::bulb_of(object)) {
            (Some(id), Some(name), Some(data)) => match (id.as_u64(), name.as_str()) {
                (Some(id), Some(name)) => Some(DeviceModel { id, name, data }),
                _ => None,
            },
            _ => None,
        }
    }
}

impl Device {
    /// Reads the attributes out of a device object.
    fn bulb_from_json(object: &serde_json::Value) -> (data: Option<BulbData>)
        ensures
            data == DeviceModel::bulb_of(json_model(*object)),
    {
        let bulb = crate::json::get(object, BULB_KEY)?;
        let items = crate::json::as_array(bulb)?;
        if items.len() > 0 {
            assert(models(items@)[0] == json_model(items@[0]));
            BulbData::from_json(&items[0])
        } else {
            None
        }
    }

    /// Reads a device object.
    pub fn from_json(object: &serde_json::Value) -> (device: Option<Device>)
        ensures
            device_view(device) == DeviceModel::of_model(json_model(*object)),
    {
        let id = crate::json::get(object, ID_KEY)?;
        let name = crate::json::get(object, NAME_KEY)?;
        let data = Self::bulb_from_json(object)?;
        let id = crate::json::as_u64(id)?;
        let name = crate::json::as_str(name)?;
        Some(Device { id, name: name.to_owned(), data })
    }

    /// Words the request that lights the bulb. The request overwrites all
    /// attributes of the bulb: the power state becomes on, the colour is the
    /// one that the device was fetched with.
    pub fn turn_on(&self, gateway: &Gateway) -> (request: Result<Request, GatewayError>)
        ensures
            result_view(request) == gateway@.authorized(
                Method::PUT,
                device_path(self.id),
                Some(json_text(self.data.with_status(DeviceState::On).payload_model())),
            ),
    {
        self.modify(gateway, BulbData { status: DeviceState::On, ..self.data })
    }

    /// Words the request that puts the bulb out. The request overwrites all
    /// attributes of the bulb: the power state becomes off, the colour is the
    /// one that the device was fetched with.
    pub fn turn_off(&self, gateway: &Gateway) -> (request: Result<Request, GatewayError>)
        ensures
            result_view(request) == gateway@.authorized(
                Method::PUT,
                device_path(self.id),
                Some(json_text(self.data.with_status(DeviceState::Off).payload_model())),
            ),
    {
        self.modify(gateway, BulbData { status: DeviceState::Off, ..self.data })
    }

    /// Words the request that overwrites the bulb's attributes with new ones.
    fn modify(&self, gateway: &Gateway, data: BulbData) -> (request: Result<Request, GatewayError>)
        ensures
            result_view(request) == gateway@.authorized(
                Method::PUT,
                device_path(self.id),
                Some(json_text(data.payload_model())),
            ),
    {
        let payload = data.to_payload();
        gateway.request_device_state(self.id, &payload)
    }
}

/// An attribute object reads back as the attributes that it was built from.
pub proof fn lemma_attributes_read_back(data: BulbData)
    ensures
        BulbData::of_model(data.model()) == Some(data),
{
    reveal_strlit("5850");
    reveal_strlit("5706");
    reveal_strlit("f5faf6");
    reveal_strlit("f1e0b5");
    reveal_strlit("efd275");
    assert(POWER_KEY@ != COLOUR_KEY@) by {
        assert(POWER_KEY@[1] != COLOUR_KEY@[1]);
    }
    assert(BulbTemperature::White.code()[1] == '5');
    assert(BulbTemperature::Warm.code()[1] == '1');
    assert(BulbTemperature::Glow.code()[1] == 'f');
}

/// Switching a bulb on, off and on again changes the power state each time
/// and leaves the colour as it was: each of the three attribute objects
/// reads back with the colour of the first.
pub proof fn lemma_switching_keeps_colour(data: BulbData)
    ensures
        BulbData::of_model(data.with_status(DeviceState::On).model()) == Some(
            BulbData { status: DeviceState::On, temperature: data.temperature },
        ),
        BulbData::of_model(
            data.with_status(DeviceState::On).with_status(DeviceState::Off).model(),
        ) == Some(BulbData { status: DeviceState::Off, temperature: data.temperature }),
        BulbData::of_model(
            data.with_status(DeviceState::On).with_status(DeviceState::Off).with_status(
                DeviceState::On,
            ).model(),
        ) == Some(BulbData { status: DeviceState::On, temperature: data.temperature }),
{
    lemma_attributes_read_back(data.with_status(DeviceState::On));
    lemma_attributes_read_back(data.with_status(DeviceState::Off));
}

} // verus!
