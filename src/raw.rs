//! Decoded protocol records. Each field is independently optional: `None` means
//! the device never reported it (or the frame was too short to hold it).
use vstd::prelude::*;

verus! {

/// Copies a byte buffer.
pub fn copy_bytes(v: &Vec<u8>) -> (r: Vec<u8>)
    ensures
        r@ == v@,
{
    let mut r: Vec<u8> = Vec::new();
    let mut i: usize = 0;
    while i < v.len()
        invariant
            i <= v.len(),
            r@ == v@.subrange(0, i as int),
        decreases v.len() - i,
    {
        r.push(v[i]);
        i = i + 1;
    }
    assert(r@ =~= v@);
    r
}

/// The value of an optional byte buffer.
pub open spec fn opt_bytes(v: Option<Vec<u8>>) -> Option<Seq<u8>> {
    match v {
        Some(b) => Some(b@),
        None => None,
    }
}

/// Copies an optional byte buffer.
pub fn copy_opt_bytes(v: &Option<Vec<u8>>) -> (r: Option<Vec<u8>>)
    ensures
        opt_bytes(r) == opt_bytes(*v),
{
    match v {
        Some(b) => Some(copy_bytes(b)),
        None => None,
    }
}

/// Takes the incoming value where one is present, else keeps the cached one.
pub open spec fn overlay<T>(incoming: Option<T>, cached: Option<T>) -> Option<T> {
    if incoming is Some {
        incoming
    } else {
        cached
    }
}

/// The device information record.
#[derive(Debug, Clone, Default)]
pub struct DeviceInfoRaw {
    pub model_code: Option<u16>,
    pub ver: Option<u16>,
    pub usb0_ori: Option<u8>,
    pub usb0_offset: Option<u8>,
    pub usb1_ori: Option<u8>,
    pub usb1_offset: Option<u8>,
    pub batt_lv: Option<u8>,
    pub key_fn: Option<u8>,
    pub cpu_load_1s: Option<u8>,
    pub cpu_load_1ms: Option<u8>,
    pub api_list: Option<Vec<u8>>,
}

/// The mathematical value of a device information record.
pub struct DeviceInfoModel {
    pub model_code: Option<u16>,
    pub ver: Option<u16>,
    pub usb0_ori: Option<u8>,
    pub usb0_offset: Option<u8>,
    pub usb1_ori: Option<u8>,
    pub usb1_offset: Option<u8>,
    pub batt_lv: Option<u8>,
    pub key_fn: Option<u8>,
    pub cpu_load_1s: Option<u8>,
    pub cpu_load_1ms: Option<u8>,
    pub api_list: Option<Seq<u8>>,
}

impl View for DeviceInfoRaw {
    type V = DeviceInfoModel;

    open spec fn view(&self) -> DeviceInfoModel {
        DeviceInfoModel {
            model_code: self.model_code,
            ver: self.ver,
            usb0_ori: self.usb0_ori,
            usb0_offset: self.usb0_offset,
            usb1_ori: self.usb1_ori,
            usb1_offset: self.usb1_offset,
            batt_lv: self.batt_lv,
            key_fn: self.key_fn,
            cpu_load_1s: self.cpu_load_1s,
            cpu_load_1ms: self.cpu_load_1ms,
            api_list: opt_bytes(self.api_list),
        }
    }
}

/// A record in which no field is available.
pub open spec fn empty_device_info() -> DeviceInfoModel {
    DeviceInfoModel {
        model_code: None,
        ver: None,
        usb0_ori: None,
        usb0_offset: None,
        usb1_ori: None,
        usb1_offset: None,
        batt_lv: None,
        key_fn: None,
        cpu_load_1s: None,
        cpu_load_1ms: None,
        api_list: None,
    }
}

/// The cached record after merging an incoming one into it: each field the
/// incoming record holds replaces the cached one, every other field is kept.
pub open spec fn merge_device_info(cached: DeviceInfoModel, incoming: DeviceInfoModel) -> DeviceInfoModel {
    DeviceInfoModel {
        model_code: overlay(incoming.model_code, cached.model_code),
        ver: overlay(incoming.ver, cached.ver),
        usb0_ori: overlay(incoming.usb0_ori, cached.usb0_ori),
        usb0_offset: overlay(incoming.usb0_offset, cached.usb0_offset),
        usb1_ori: overlay(incoming.usb1_ori, cached.usb1_ori),
        usb1_offset: overlay(incoming.usb1_offset, cached.usb1_offset),
        batt_lv: overlay(incoming.batt_lv, cached.batt_lv),
        key_fn: overlay(incoming.key_fn, cached.key_fn),
        cpu_load_1s: overlay(incoming.cpu_load_1s, cached.cpu_load_1s),
        cpu_load_1ms: overlay(incoming.cpu_load_1ms, cached.cpu_load_1ms),
        api_list: overlay(incoming.api_list, cached.api_list),
    }
}

impl DeviceInfoRaw {
    /// A record in which no field is available.
    pub fn empty() -> (r: Self)
        ensures
            r@ == empty_device_info(),
    {
        DeviceInfoRaw {
            model_code: None,
            ver: None,
            usb0_ori: None,
            usb0_offset: None,
            usb1_ori: None,
            usb1_offset: None,
            batt_lv: None,
            key_fn: None,
            cpu_load_1s: None,
            cpu_load_1ms: None,
            api_list: None,
        }
    }

    /// Writes every field that `incoming` holds into this record and keeps
    /// every other field as it was.
    pub fn merge_from(&mut self, incoming: &DeviceInfoRaw)
        ensures
            final(self)@ == merge_device_info(old(self)@, incoming@),
    {
        if let Some(v) = incoming.model_code {
            self.model_code = Some(v);
        }
        if let Some(v) = incoming.ver {
            self.ver = Some(v);
        }
        if let Some(v) = incoming.usb0_ori {
            self.usb0_ori = Some(v);
        }
        if let Some(v) = incoming.usb0_offset {
            self.usb0_offset = Some(v);
        }
        if let Some(v) = incoming.usb1_ori {
            self.usb1_ori = Some(v);
        }
        if let Some(v) = incoming.usb1_offset {
            self.usb1_offset = Some(v);
        }
        if let Some(v) = incoming.batt_lv {
            self.batt_lv = Some(v);
        }
        if let Some(v) = incoming.key_fn {
            self.key_fn = Some(v);
        }
        if let Some(v) = incoming.cpu_load_1s {
            self.cpu_load_1s = Some(v);
        }
        if let Some(v) = incoming.cpu_load_1ms {
            self.cpu_load_1ms = Some(v);
        }
        if let Some(v) = &incoming.api_list {
            self.api_list = Some(copy_bytes(v));
        }
    }

    /// A copy of this record.
    pub fn snapshot(&self) -> (r: Self)
        ensures
            r@ == self@,
    {
        DeviceInfoRaw {
            model_code: self.model_code,
            ver: self.ver,
            usb0_ori: self.usb0_ori,
            usb0_offset: self.usb0_offset,
            usb1_ori: self.usb1_ori,
            usb1_offset: self.usb1_offset,
            batt_lv: self.batt_lv,
            key_fn: self.key_fn,
            cpu_load_1s: self.cpu_load_1s,
            cpu_load_1ms: self.cpu_load_1ms,
            api_list: copy_opt_bytes(&self.api_list),
        }
    }
}

/// One binding of a key: the action it performs in one function layer.
#[derive(Debug, Clone, Default)]
pub struct KeyDataRaw {
    pub key_mode: Option<u8>,
    pub key_opt0: Option<u8>,
    pub key_opt1: Option<u8>,
    pub key_opt2: Option<u8>,
    pub key_val: Option<Vec<u8>>,
}

/// The mathematical value of a key binding record.
pub struct KeyDataModel {
    pub key_mode: Option<u8>,
    pub key_opt0: Option<u8>,
    pub key_opt1: Option<u8>,
    pub key_opt2: Option<u8>,
    pub key_val: Option<Seq<u8>>,
}

impl View for KeyDataRaw {
    type V = KeyDataModel;

    open spec fn view(&self) -> KeyDataModel {
        KeyDataModel {
            key_mode: self.key_mode,
            key_opt0: self.key_opt0,
            key_opt1: self.key_opt1,
            key_opt2: self.key_opt2,
            key_val: opt_bytes(self.key_val),
        }
    }
}

impl KeyDataRaw {
    /// A copy of this record.
    pub fn snapshot(&self) -> (r: Self)
        ensures
            r@ == self@,
    {
        KeyDataRaw {
            key_mode: self.key_mode,
            key_opt0: self.key_opt0,
            key_opt1: self.key_opt1,
            key_opt2: self.key_opt2,
            key_val: copy_opt_bytes(&self.key_val),
        }
    }
}

/// The values of a list of binding records.
pub open spec fn key_data_models(v: Seq<KeyDataRaw>) -> Seq<KeyDataModel> {
    v.map_values(|d: KeyDataRaw| d@)
}

/// Copies a list of binding records.
pub fn copy_key_data(v: &Vec<KeyDataRaw>) -> (r: Vec<KeyDataRaw>)
    ensures
        key_data_models(r@) == key_data_models(v@),
{
    let mut r: Vec<KeyDataRaw> = Vec::new();
    let mut i: usize = 0;
    while i < v.len()
        invariant
            i <= v.len(),
            r@.len() == i,
            forall|j: int| 0 <= j < i ==> r@[j]@ == v@[j]@,
        decreases v.len() - i,
    {
        r.push(v[i].snapshot());
        i = i + 1;
    }
    assert(key_data_models(r@) =~= key_data_models(v@));
    r
}

/// The layout and bindings record of one physical key.
#[derive(Debug, Clone, Default)]
pub struct KeyInfoRaw {
    pub valid: Option<u8>,
    pub key_class: Option<u8>,
    pub key_site_x: Option<u16>,
    pub key_site_y: Option<u16>,
    pub key_width: Option<u16>,
    pub key_height: Option<u16>,
    pub fillet_angle: Option<u16>,
    pub key_fn: Option<Vec<KeyDataRaw>>,
}

/// The mathematical value of a key information record.
pub struct KeyInfoModel {
    pub valid: Option<u8>,
    pub key_class: Option<u8>,
    pub key_site_x: Option<u16>,
    pub key_site_y: Option<u16>,
    pub key_width: Option<u16>,
    pub key_height: Option<u16>,
    pub fillet_angle: Option<u16>,
    pub key_fn: Option<Seq<KeyDataModel>>,
}

impl View for KeyInfoRaw {
    type V = KeyInfoModel;

    open spec fn view(&self) -> KeyInfoModel {
        KeyInfoModel {
            valid: self.valid,
            key_class: self.key_class,
            key_site_x: self.key_site_x,
            key_site_y: self.key_site_y,
            key_width: self.key_width,
            key_height: self.key_height,
            fillet_angle: self.fillet_angle,
            key_fn: match self.key_fn {
                Some(v) => Some(key_data_models(v@)),
                None => None,
            },
        }
    }
}

/// The cached key record after merging an incoming one into it: each field
/// the incoming record holds replaces the cached one (the binding list as a
/// whole), every other field is kept.
pub open spec fn merge_key_info(cached: KeyInfoModel, incoming: KeyInfoModel) -> KeyInfoModel {
    KeyInfoModel {
        valid: overlay(incoming.valid, cached.valid),
        key_class: overlay(incoming.key_class, cached.key_class),
        key_site_x: overlay(incoming.key_site_x, cached.key_site_x),
        key_site_y: overlay(incoming.key_site_y, cached.key_site_y),
        key_width: overlay(incoming.key_width, cached.key_width),
        key_height: overlay(incoming.key_height, cached.key_height),
        fillet_angle: overlay(incoming.fillet_angle, cached.fillet_angle),
        key_fn: overlay(incoming.key_fn, cached.key_fn),
    }
}

impl KeyInfoRaw {
    /// Writes every field that `incoming` holds into this record and keeps
    /// every other field as it was.
    pub fn merge_from(&mut self, incoming: &KeyInfoRaw)
        ensures
            final(self)@ == merge_key_info(old(self)@, incoming@),
    {
        if let Some(v) = incoming.valid {
            self.valid = Some(v);
        }
        if let Some(v) = incoming.key_class {
            self.key_class = Some(v);
        }
        if let Some(v) = incoming.key_site_x {
            self.key_site_x = Some(v);
        }
        if let Some(v) = incoming.key_site_y {
            self.key_site_y = Some(v);
        }
        if let Some(v) = incoming.key_width {
            self.key_width = Some(v);
        }
        if let Some(v) = incoming.key_height {
            self.key_height = Some(v);
        }
        if let Some(v) = incoming.fillet_angle {
            self.fillet_angle = Some(v);
        }
        if let Some(v) = &incoming.key_fn {
            self.key_fn = Some(copy_key_data(v));
        }
    }

    /// A copy of this record.
    pub fn snapshot(&self) -> (r: Self)
        ensures
            r@ == self@,
    {
        let key_fn = match &self.key_fn {
            Some(v) => Some(copy_key_data(v)),
            None => None,
        };
        KeyInfoRaw {
            valid: self.valid,
            key_class: self.key_class,
            key_site_x: self.key_site_x,
            key_site_y: self.key_site_y,
            key_width: self.key_width,
            key_height: self.key_height,
            fillet_angle: self.fillet_angle,
            key_fn,
        }
    }
}

} // verus!
