//! The records that the application sees: devices, adapters and the GATT
//! services of a device, each with its mathematical model.

use vstd::prelude::*;
use crate::text::same_text;

verus! {

/// A list of key/value texts, as a model.
pub type TextPairs = Seq<(Seq<char>, Seq<char>)>;

/// Whether no two pairs have the same first part, so that the list is a
/// mapping.
pub open spec fn keyed_once<K, V>(pairs: Seq<(K, V)>) -> bool {
    forall|i: int, j: int| 0 <= i < j < pairs.len() ==> (#[trigger] pairs[i]).0 != (#[trigger] pairs[j]).0
}

/// Whether the two lists of a device record that stand for mappings are
/// mappings: the manufacturer data lists each company once, and the
/// advertisement summary lists each of its keys once.
pub open spec fn mapped(device: DeviceModel) -> bool {
    &&& keyed_once(device.manufacturer_data)
    &&& device.adv_data matches Some(summary) ==> keyed_once(summary)
}

/// Model of a [`BleDevice`].
pub struct DeviceModel {
    pub identifier: Seq<char>,
    pub name: Option<Seq<char>>,
    pub address: Seq<char>,
    pub rssi: Option<i16>,
    pub tx_power: Option<i16>,
    pub connectable: bool,
    pub paired: bool,
    pub manufacturer_data: TextPairs,
    pub services: Seq<Seq<char>>,
    pub adv_data: Option<TextPairs>,
    pub raw_adv_data: Option<Seq<char>>,
}

/// A discovered device as the registry records it.
///
/// `identifier` is the stable key assigned by the radio stack. `paired` doubles
/// as the connected flag. `manufacturer_data` lists each company identifier
/// (four hexadecimal digits) with its payload in hexadecimal; `adv_data` is a
/// summary derived from the other fields, and `raw_adv_data` a derived
/// fixed-length payload in hexadecimal.
///
/// `manufacturer_data` and `adv_data` are mappings written as lists: a valid
/// record holds each key once in either (see [`BleDevice::wf`]). A record
/// described from a sighting is valid, and the registry takes and keeps
/// valid records only.
#[derive(Debug, Clone)]
pub struct BleDevice {
    pub identifier: String,
    pub name: Option<String>,
    pub address: String,
    pub rssi: Option<i16>,
    pub tx_power: Option<i16>,
    pub connectable: bool,
    pub paired: bool,
    pub manufacturer_data: Vec<(String, String)>,
    pub services: Vec<String>,
    pub adv_data: Option<Vec<(String, String)>>,
    pub raw_adv_data: Option<String>,
}

impl View for BleDevice {
    type V = DeviceModel;

    open spec fn view(&self) -> DeviceModel {
        DeviceModel {
            identifier: self.identifier@,
            name: self.name.deep_view(),
            address: self.address@,
            rssi: self.rssi,
            tx_power: self.tx_power,
            connectable: self.connectable,
            paired: self.paired,
            manufacturer_data: self.manufacturer_data.deep_view(),
            services: self.services.deep_view(),
            adv_data: self.adv_data.deep_view(),
            raw_adv_data: self.raw_adv_data.deep_view(),
        }
    }
}

impl DeepView for BleDevice {
    type V = DeviceModel;

    open spec fn deep_view(&self) -> DeviceModel {
        self@
    }
}

/// A copy of an optional text.
pub fn copy_optional_text(text: &Option<String>) -> (copy: Option<String>)
    ensures
        copy.deep_view() == text.deep_view(),
{
    match text {
        Some(t) => Some(t.clone()),
        None => None,
    }
}

/// A copy of a list of texts.
pub fn copy_texts(texts: &Vec<String>) -> (copy: Vec<String>)
    ensures
        copy.deep_view() == texts.deep_view(),
{
    let mut copy: Vec<String> = Vec::new();
    let mut i: usize = 0;
    while i < texts.len()
        invariant
            i <= texts.len(),
            copy.len() == i,
            forall|k: int| 0 <= k < i ==> copy@[k]@ == texts@[k]@,
        decreases texts.len() - i,
    {
        copy.push(texts[i].clone());
        i += 1;
    }
    copy
}

/// A copy of a list of key/value texts.
pub fn copy_text_pairs(pairs: &Vec<(String, String)>) -> (copy: Vec<(String, String)>)
    ensures
        copy.deep_view() == pairs.deep_view(),
{
    let mut copy: Vec<(String, String)> = Vec::new();
    let mut i: usize = 0;
    while i < pairs.len()
        invariant
            i <= pairs.len(),
            copy.len() == i,
            forall|k: int| 0 <= k < i ==> copy@[k].deep_view() == pairs@[k].deep_view(),
        decreases pairs.len() - i,
    {
        copy.push((pairs[i].0.clone(), pairs[i].1.clone()));
        i += 1;
    }
    copy
}

/// Whether a list of key/value texts holds each key once.
pub fn keys_once(pairs: &Vec<(String, String)>) -> (once: bool)
    ensures
        once == keyed_once(pairs.deep_view()),
{
    let ghost view = pairs.deep_view();
    let mut j: usize = 0;
    while j < pairs.len()
        invariant
            j <= pairs.len(),
            view == pairs.deep_view(),
            forall|a: int, b: int| 0 <= a < b < j ==> (#[trigger] view[a]).0 != (#[trigger] view[b]).0,
        decreases pairs.len() - j,
    {
        let mut i: usize = 0;
        while i < j
            invariant
                i <= j < pairs.len(),
                view == pairs.deep_view(),
                forall|a: int| 0 <= a < i ==> (#[trigger] view[a]).0 != view[j as int].0,
            decreases j - i,
        {
            if same_text(pairs[i].0.as_str(), pairs[j].0.as_str()) {
                assert(view[i as int].0 == view[j as int].0);
                return false;
            }
            i += 1;
        }
        j += 1;
    }
    true
}

impl BleDevice {
    /// Whether the record is valid: its two mappings hold each key once.
    pub open spec fn wf(&self) -> bool {
        mapped(self@)
    }

    /// Whether the record is valid.
    pub fn is_valid(&self) -> (valid: bool)
        ensures
            valid == self.wf(),
    {
        keys_once(&self.manufacturer_data) && match &self.adv_data {
            Some(summary) => keys_once(summary),
            None => true,
        }
    }

    /// A copy of the record, field by field.
    pub fn duplicate(&self) -> (copy: BleDevice)
        ensures
            copy@ == self@,
    {
        let adv_data = match &self.adv_data {
            Some(pairs) => Some(copy_text_pairs(pairs)),
            None => None,
        };
        BleDevice {
            identifier: self.identifier.clone(),
            name: copy_optional_text(&self.name),
            address: self.address.clone(),
            rssi: self.rssi,
            tx_power: self.tx_power,
            connectable: self.connectable,
            paired: self.paired,
            manufacturer_data: copy_text_pairs(&self.manufacturer_data),
            services: copy_texts(&self.services),
            adv_data,
            raw_adv_data: copy_optional_text(&self.raw_adv_data),
        }
    }
}

/// Model of a [`BleAdapter`].
pub struct AdapterModel {
    pub identifier: Seq<char>,
    pub address: Seq<char>,
    pub powered: bool,
}

/// A local Bluetooth adapter as listed to the application.
#[derive(Debug, Clone)]
pub struct BleAdapter {
    pub identifier: String,
    pub address: String,
    pub powered: bool,
}

impl View for BleAdapter {
    type V = AdapterModel;

    open spec fn view(&self) -> AdapterModel {
        AdapterModel { identifier: self.identifier@, address: self.address@, powered: self.powered }
    }
}

impl DeepView for BleAdapter {
    type V = AdapterModel;

    open spec fn deep_view(&self) -> AdapterModel {
        self@
    }
}

/// Model of a [`GattCharacteristic`].
pub struct CharacteristicModel {
    pub uuid: Seq<char>,
    pub properties: Seq<Seq<char>>,
}

/// A characteristic of a GATT service with the names of what it supports.
#[derive(Debug, Clone)]
pub struct GattCharacteristic {
    pub uuid: String,
    pub properties: Vec<String>,
}

impl View for GattCharacteristic {
    type V = CharacteristicModel;

    open spec fn view(&self) -> CharacteristicModel {
        CharacteristicModel { uuid: self.uuid@, properties: self.properties.deep_view() }
    }
}

impl DeepView for GattCharacteristic {
    type V = CharacteristicModel;

    open spec fn deep_view(&self) -> CharacteristicModel {
        self@
    }
}

/// Model of a [`GattService`].
pub struct ServiceModel {
    pub uuid: Seq<char>,
    pub characteristics: Seq<CharacteristicModel>,
}

/// A GATT service of a device with its characteristics.
#[derive(Debug, Clone)]
pub struct GattService {
    pub uuid: String,
    pub characteristics: Vec<GattCharacteristic>,
}

impl View for GattService {
    type V = ServiceModel;

    open spec fn view(&self) -> ServiceModel {
        ServiceModel { uuid: self.uuid@, characteristics: self.characteristics.deep_view() }
    }
}

impl DeepView for GattService {
    type V = ServiceModel;

    open spec fn deep_view(&self) -> ServiceModel {
        self@
    }
}

} // verus!
