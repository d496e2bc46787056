//! Cached entities: typed accessors over one decoded record, with the change
//! gate that decides which mutations are sent back to the device.
use vstd::prelude::*;
use crate::raw::{
    key_data_models, DeviceInfoModel, DeviceInfoRaw, KeyDataModel, KeyDataRaw, KeyInfoModel,
    KeyInfoRaw,
};
use crate::sayo_device::SayoDevice;

verus! {

/// The text of the error that a getter returns for a field the record does not hold.
pub open spec fn missing_text(field: Seq<char>) -> Seq<char> {
    field + " unavailable"@
}

/// Builds the error that a getter returns for an unavailable field.
pub fn missing(field: &str) -> (r: String)
    ensures
        r@ == missing_text(field@),
{
    let s = String::from_str(field);
    s.concat(" unavailable")
}

/// What a getter returns for a field: its value, or the unavailable error
/// naming the field.
pub open spec fn field_result<T>(r: Result<T, String>, field: Option<T>, name: Seq<char>) -> bool {
    match field {
        Some(v) => r == Ok::<T, String>(v),
        None => r is Err && r->Err_0@ == missing_text(name),
    }
}

/// An entity whose record can be sent back to the device.
pub trait SayoObject {
    /// The value of the record the entity caches.
    type Record;

    /// The record the entity caches.
    spec fn record(&self) -> Self::Record;

    /// The records handed to the device for write-back and not yet taken by the
    /// transport, oldest first.
    spec fn write_log(&self) -> Seq<Self::Record>;

    /// Sends the current record to the device, exactly once.
    fn end_change(&mut self)
        ensures
            final(self).record() == old(self).record(),
            final(self).write_log() == old(self).write_log().push(old(self).record()),
    ;
}

/// The cached device information of one device.
#[derive(Debug)]
pub struct DeviceInfo {
    api: SayoDevice,
    raw: DeviceInfoRaw,
    writes: Vec<DeviceInfoRaw>,
}

/// The mathematical value of a cached device information entity.
pub struct DeviceInfoState {
    pub uuid: u128,
    pub raw: DeviceInfoModel,
    pub writes: Seq<DeviceInfoModel>,
}

/// The values of a list of device information records.
pub open spec fn device_info_models(v: Seq<DeviceInfoRaw>) -> Seq<DeviceInfoModel> {
    v.map_values(|d: DeviceInfoRaw| d@)
}

/// A device information record with its function-key mode set.
pub open spec fn with_key_fn(m: DeviceInfoModel, key_fn: u8) -> DeviceInfoModel {
    DeviceInfoModel { key_fn: Some(key_fn), ..m }
}

/// The state of a device information entity after an active update of the
/// function-key mode: the cache takes the value and the whole record is sent
/// back once.
pub open spec fn active_set_key_fn(s: DeviceInfoState, key_fn: u8) -> DeviceInfoState {
    DeviceInfoState {
        raw: with_key_fn(s.raw, key_fn),
        writes: s.writes.push(with_key_fn(s.raw, key_fn)),
        ..s
    }
}

/// The state after a series of active updates of the function-key mode, in
/// the order in which the slot's lock admitted them.
pub open spec fn active_set_key_fn_all(s: DeviceInfoState, values: Seq<u8>) -> DeviceInfoState
    decreases values.len(),
{
    if values.len() == 0 {
        s
    } else {
        active_set_key_fn(active_set_key_fn_all(s, values.drop_last()), values.last())
    }
}

/// Serialized active updates: after N setter calls admitted one at a time,
/// the cached function-key mode is the value of the last call, so one of the
/// N inputs; exactly N write-backs were issued, and the one of each call
/// carries that call's value over the record as it stood, with no field torn.
pub proof fn lemma_serialized_setters(s: DeviceInfoState, values: Seq<u8>)
    requires
        values.len() > 0,
    ensures
        active_set_key_fn_all(s, values).raw.key_fn == Some(values.last()),
        exists|i: int| 0 <= i < values.len() && active_set_key_fn_all(s, values).raw.key_fn == Some(values[i]),
        active_set_key_fn_all(s, values).raw == with_key_fn(s.raw, values.last()),
        active_set_key_fn_all(s, values).writes.len() == s.writes.len() + values.len(),
        active_set_key_fn_all(s, values).writes.subrange(0, s.writes.len() as int) == s.writes,
        forall|i: int| 0 <= i < values.len() ==> #[trigger] active_set_key_fn_all(s, values).writes[s.writes.len() + i]
            == with_key_fn(s.raw, values[i]),
    decreases values.len(),
{
    let n = values.len();
    let prev = values.drop_last();
    if n == 1 {
        assert(prev.len() == 0);
        assert(active_set_key_fn_all(s, values).writes =~= s.writes.push(with_key_fn(s.raw, values[0])));
    } else {
        lemma_serialized_setters(s, prev);
        let p = active_set_key_fn_all(s, prev);
        assert(with_key_fn(p.raw, values.last()) == with_key_fn(s.raw, values.last()));
        let r = active_set_key_fn_all(s, values);
        assert forall|i: int| 0 <= i < n implies #[trigger] r.writes[s.writes.len() + i]
            == with_key_fn(s.raw, values[i]) by {
            if i < n - 1 {
                assert(r.writes[s.writes.len() + i] == p.writes[s.writes.len() + i]);
                assert(prev[i] == values[i]);
            }
        }
        assert(r.writes.subrange(0, s.writes.len() as int) =~= p.writes.subrange(0, s.writes.len() as int));
    }
    assert(active_set_key_fn_all(s, values).raw.key_fn == Some(values[n - 1]));
}

impl View for DeviceInfo {
    type V = DeviceInfoState;

    closed spec fn view(&self) -> DeviceInfoState {
        DeviceInfoState {
            uuid: self.api.id(),
            raw: self.raw@,
            writes: device_info_models(self.writes@),
        }
    }
}

impl SayoObject for DeviceInfo {
    type Record = DeviceInfoModel;

    open spec fn record(&self) -> DeviceInfoModel {
        self@.raw
    }

    open spec fn write_log(&self) -> Seq<DeviceInfoModel> {
        self@.writes
    }

    fn end_change(&mut self)
        ensures
            final(self)@ == (DeviceInfoState {
                writes: old(self)@.writes.push(old(self)@.raw),
                ..old(self)@
            }),
    {
        let snapshot = self.raw.snapshot();
        self.writes.push(snapshot);
        assert(device_info_models(self.writes@) =~= device_info_models(old(self).writes@).push(
            self.raw@,
        ));
    }
}

impl DeviceInfo {
    /// Wraps a record of the given device; nothing has been sent back yet.
    pub fn new(api: SayoDevice, raw: DeviceInfoRaw) -> (r: Self)
        ensures
            r@.uuid == api.id(),
            r@.raw == raw@,
            r@.writes == Seq::<DeviceInfoModel>::empty(),
    {
        let r = DeviceInfo { api, raw, writes: Vec::new() };
        assert(device_info_models(r.writes@) =~= Seq::<DeviceInfoModel>::empty());
        r
    }

    /// The id of the device this entity belongs to.
    pub fn uuid(&self) -> (r: u128)
        ensures
            r == self@.uuid,
    {
        self.api.uuid()
    }

    /// A copy of the cached record.
    pub fn raw(&self) -> (r: DeviceInfoRaw)
        ensures
            r@ == self@.raw,
    {
        self.raw.snapshot()
    }

    pub fn model_code(&self) -> (r: Result<u16, String>)
        ensures
            field_result(r, self@.raw.model_code, "model_code"@),
    {
        match self.raw.model_code {
            Some(v) => Ok(v),
            None => Err(missing("model_code")),
        }
    }

    pub fn ver(&self) -> (r: Result<u16, String>)
        ensures
            field_result(r, self@.raw.ver, "ver"@),
    {
        match self.raw.ver {
            Some(v) => Ok(v),
            None => Err(missing("ver")),
        }
    }

    pub fn usb0_ori(&self) -> (r: Result<u8, String>)
        ensures
            field_result(r, self@.raw.usb0_ori, "usb0_ori"@),
    {
        match self.raw.usb0_ori {
            Some(v) => Ok(v),
            None => Err(missing("usb0_ori")),
        }
    }

    pub fn usb0_offset(&self) -> (r: Result<u8, String>)
        ensures
            field_result(r, self@.raw.usb0_offset, "usb0_offset"@),
    {
        match self.raw.usb0_offset {
            Some(v) => Ok(v),
            None => Err(missing("usb0_offset")),
        }
    }

    pub fn usb1_ori(&self) -> (r: Result<u8, String>)
        ensures
            field_result(r, self@.raw.usb1_ori, "usb1_ori"@),
    {
        match self.raw.usb1_ori {
            Some(v) => Ok(v),
            None => Err(missing("usb1_ori")),
        }
    }

    pub fn usb1_offset(&self) -> (r: Result<u8, String>)
        ensures
            field_result(r, self@.raw.usb1_offset, "usb1_offset"@),
    {
        match self.raw.usb1_offset {
            Some(v) => Ok(v),
            None => Err(missing("usb1_offset")),
        }
    }

    pub fn batt_lv(&self) -> (r: Result<u8, String>)
        ensures
            field_result(r, self@.raw.batt_lv, "batt_lv"@),
    {
        match self.raw.batt_lv {
            Some(v) => Ok(v),
            None => Err(missing("batt_lv")),
        }
    }

    pub fn key_fn(&self) -> (r: Result<u8, String>)
        ensures
            field_result(r, self@.raw.key_fn, "key_fn"@),
    {
        match self.raw.key_fn {
            Some(v) => Ok(v),
            None => Err(missing("key_fn")),
        }
    }

    /// Sets the function-key mode and sends the record back to the device,
    /// also when the value is the one already cached.
    pub fn set_key_fn(&mut self, key_fn: u8)
        ensures
            final(self)@ == active_set_key_fn(old(self)@, key_fn),
            final(self)@.raw == with_key_fn(old(self)@.raw, key_fn),
            final(self)@.writes.len() == old(self)@.writes.len() + 1,
            final(self)@.writes.last() == final(self)@.raw,
    {
        self.raw.key_fn = Some(key_fn);
        self.end_change();
    }

    /// Sets the function-key mode in the cache only; nothing is sent to the device.
    pub fn set_key_fn_local(&mut self, key_fn: u8)
        ensures
            final(self)@.uuid == old(self)@.uuid,
            final(self)@.raw == with_key_fn(old(self)@.raw, key_fn),
            final(self)@.writes == old(self)@.writes,
    {
        self.raw.key_fn = Some(key_fn);
    }

    /// Merges a record that the device reported into the cache; nothing is
    /// sent to the device.
    pub fn merge_local(&mut self, incoming: &DeviceInfoRaw)
        ensures
            final(self)@.uuid == old(self)@.uuid,
            final(self)@.raw == crate::raw::merge_device_info(old(self)@.raw, incoming@),
            final(self)@.writes == old(self)@.writes,
    {
        self.raw.merge_from(incoming);
    }

    pub fn cpu_load_1s(&self) -> (r: Result<u8, String>)
        ensures
            field_result(r, self@.raw.cpu_load_1s, "cpu_load_1s"@),
    {
        match self.raw.cpu_load_1s {
            Some(v) => Ok(v),
            None => Err(missing("cpu_load_1s")),
        }
    }

    pub fn cpu_load_1ms(&self) -> (r: Result<u8, String>)
        ensures
            field_result(r, self@.raw.cpu_load_1ms, "cpu_load_1ms"@),
    {
        match self.raw.cpu_load_1ms {
            Some(v) => Ok(v),
            None => Err(missing("cpu_load_1ms")),
        }
    }

    pub fn api_list(&self) -> (r: Result<Vec<u8>, String>)
        ensures
            match self@.raw.api_list {
                Some(v) => r is Ok && r->Ok_0@ == v,
                None => r is Err && r->Err_0@ == missing_text("api_list"@),
            },
    {
        match &self.raw.api_list {
            Some(v) => Ok(crate::raw::copy_bytes(v)),
            None => Err(missing("api_list")),
        }
    }

    /// Hands the pending write-backs to the transport, oldest first, and
    /// clears them from the entity.
    pub fn take_pending_writes(&mut self) -> (r: Vec<DeviceInfoRaw>)
        ensures
            device_info_models(r@) == old(self)@.writes,
            final(self)@.uuid == old(self)@.uuid,
            final(self)@.raw == old(self)@.raw,
            final(self)@.writes == Seq::<DeviceInfoModel>::empty(),
    {
        let mut r: Vec<DeviceInfoRaw> = Vec::new();
        std::mem::swap(&mut r, &mut self.writes);
        assert(device_info_models(self.writes@) =~= Seq::<DeviceInfoModel>::empty());
        r
    }

    /// The number of write-backs not yet taken by the transport.
    pub fn pending_write_count(&self) -> (r: usize)
        ensures
            r == self@.writes.len(),
    {
        self.writes.len()
    }
}

/// A read-only copy of one binding of a key. A binding is changed through its
/// key (`KeyInfo::set_key_mode` and the like), which sends the key's record back.
#[derive(Debug, Clone)]
pub struct KeyData {
    raw: KeyDataRaw,
}

impl View for KeyData {
    type V = KeyDataModel;

    closed spec fn view(&self) -> KeyDataModel {
        self.raw@
    }
}

impl KeyData {
    pub fn new(raw: KeyDataRaw) -> (r: Self)
        ensures
            r@ == raw@,
    {
        KeyData { raw }
    }

    pub fn key_mode(&self) -> (r: Result<u8, String>)
        ensures
            field_result(r, self@.key_mode, "key_mode"@),
    {
        match self.raw.key_mode {
            Some(v) => Ok(v),
            None => Err(missing("key_mode")),
        }
    }

    pub fn key_opt0(&self) -> (r: Result<u8, String>)
        ensures
            field_result(r, self@.key_opt0, "key_opt0"@),
    {
        match self.raw.key_opt0 {
            Some(v) => Ok(v),
            None => Err(missing("key_opt0")),
        }
    }

    pub fn key_opt1(&self) -> (r: Result<u8, String>)
        ensures
            field_result(r, self@.key_opt1, "key_opt1"@),
    {
        match self.raw.key_opt1 {
            Some(v) => Ok(v),
            None => Err(missing("key_opt1")),
        }
    }

    pub fn key_opt2(&self) -> (r: Result<u8, String>)
        ensures
            field_result(r, self@.key_opt2, "key_opt2"@),
    {
        match self.raw.key_opt2 {
            Some(v) => Ok(v),
            None => Err(missing("key_opt2")),
        }
    }

    pub fn key_val(&self) -> (r: Result<Vec<u8>, String>)
        ensures
            match self@.key_val {
                Some(v) => r is Ok && r->Ok_0@ == v,
                None => r is Err && r->Err_0@ == missing_text("key_val"@),
            },
    {
        match &self.raw.key_val {
            Some(v) => Ok(crate::raw::copy_bytes(v)),
            None => Err(missing("key_val")),
        }
    }


    /// A copy of this binding's record.
    pub fn raw(&self) -> (r: KeyDataRaw)
        ensures
            r@ == self@,
    {
        self.raw.snapshot()
    }
}

/// A change of one field of a key binding.
#[derive(Debug, Clone)]
pub enum BindingChange {
    KeyMode(u8),
    KeyOpt0(u8),
    KeyOpt1(u8),
    KeyOpt2(u8),
    KeyVal(Vec<u8>),
}

/// A binding with one field changed.
pub open spec fn changed_binding(d: KeyDataModel, c: BindingChange) -> KeyDataModel {
    match c {
        BindingChange::KeyMode(x) => KeyDataModel { key_mode: Some(x), ..d },
        BindingChange::KeyOpt0(x) => KeyDataModel { key_opt0: Some(x), ..d },
        BindingChange::KeyOpt1(x) => KeyDataModel { key_opt1: Some(x), ..d },
        BindingChange::KeyOpt2(x) => KeyDataModel { key_opt2: Some(x), ..d },
        BindingChange::KeyVal(b) => KeyDataModel { key_val: Some(b@), ..d },
    }
}

/// The cached layout and bindings of one physical key.
#[derive(Debug)]
pub struct KeyInfo {
    id: u8,
    api: SayoDevice,
    raw: KeyInfoRaw,
    writes: Vec<KeyInfoRaw>,
}

/// The mathematical value of a cached key information entity.
pub struct KeyInfoState {
    pub id: u8,
    pub uuid: u128,
    pub raw: KeyInfoModel,
    pub writes: Seq<KeyInfoModel>,
}

/// The values of a list of key information records.
pub open spec fn key_info_models(v: Seq<KeyInfoRaw>) -> Seq<KeyInfoModel> {
    v.map_values(|d: KeyInfoRaw| d@)
}

/// The bindings a key information record lists; none where it lists none.
pub open spec fn key_bindings(m: KeyInfoModel) -> Seq<KeyDataModel> {
    match m.key_fn {
        Some(s) => s,
        None => Seq::empty(),
    }
}

/// The state of a key entity after a change of the binding at `index`: where
/// the record lists that binding, the record takes the change and is sent back
/// once; otherwise nothing changes.
pub open spec fn change_binding_state(s: KeyInfoState, index: int, c: BindingChange) -> KeyInfoState {
    if 0 <= index < key_bindings(s.raw).len() {
        let raw = KeyInfoModel {
            key_fn: Some(key_bindings(s.raw).update(index, changed_binding(key_bindings(s.raw)[index], c))),
            ..s.raw
        };
        KeyInfoState { raw, writes: s.writes.push(raw), ..s }
    } else {
        s
    }
}

/// A binding changes only through its key: a change of a listed binding sends
/// exactly one record back, the key's own, which holds the changed binding and
/// every other binding and field as they were.
pub proof fn lemma_binding_change_writes_through_key(s: KeyInfoState, index: int, c: BindingChange)
    requires
        0 <= index < key_bindings(s.raw).len(),
    ensures
        ({
            let r = change_binding_state(s, index, c);
            &&& r.id == s.id && r.uuid == s.uuid
            &&& r.writes.len() == s.writes.len() + 1
            &&& r.writes.drop_last() == s.writes
            &&& r.writes.last() == r.raw
            &&& key_bindings(r.raw).len() == key_bindings(s.raw).len()
            &&& key_bindings(r.raw)[index] == changed_binding(key_bindings(s.raw)[index], c)
            &&& forall|j: int| 0 <= j < key_bindings(s.raw).len() && j != index
                ==> #[trigger] key_bindings(r.raw)[j] == key_bindings(s.raw)[j]
        }),
{
    let r = change_binding_state(s, index, c);
    assert(r.writes.drop_last() =~= s.writes);
}

impl View for KeyInfo {
    type V = KeyInfoState;

    closed spec fn view(&self) -> KeyInfoState {
        KeyInfoState {
            id: self.id,
            uuid: self.api.id(),
            raw: self.raw@,
            writes: key_info_models(self.writes@),
        }
    }
}

impl SayoObject for KeyInfo {
    type Record = KeyInfoModel;

    open spec fn record(&self) -> KeyInfoModel {
        self@.raw
    }

    open spec fn write_log(&self) -> Seq<KeyInfoModel> {
        self@.writes
    }

    fn end_change(&mut self)
        ensures
            final(self)@ == (KeyInfoState {
                writes: old(self)@.writes.push(old(self)@.raw),
                ..old(self)@
            }),
    {
        let snapshot = self.raw.snapshot();
        self.writes.push(snapshot);
        assert(key_info_models(self.writes@) =~= key_info_models(old(self).writes@).push(
            self.raw@,
        ));
    }
}

impl KeyInfo {
    /// Wraps the record of the key at position `id` of the given device;
    /// nothing has been sent back yet.
    pub fn new(id: u8, api: SayoDevice, raw: KeyInfoRaw) -> (r: Self)
        ensures
            r@.id == id,
            r@.uuid == api.id(),
            r@.raw == raw@,
            r@.writes == Seq::<KeyInfoModel>::empty(),
    {
        let r = KeyInfo { id, api, raw, writes: Vec::new() };
        assert(key_info_models(r.writes@) =~= Seq::<KeyInfoModel>::empty());
        r
    }

    /// The position of this key in the device's key list.
    pub fn id(&self) -> (r: u8)
        ensures
            r == self@.id,
    {
        self.id
    }

    /// A copy of the cached record.
    pub fn raw(&self) -> (r: KeyInfoRaw)
        ensures
            r@ == self@.raw,
    {
        self.raw.snapshot()
    }

    pub fn valid(&self) -> (r: Result<u8, String>)
        ensures
            field_result(r, self@.raw.valid, "valid"@),
    {
        match self.raw.valid {
            Some(v) => Ok(v),
            None => Err(missing("valid")),
        }
    }

    pub fn key_class(&self) -> (r: Result<u8, String>)
        ensures
            field_result(r, self@.raw.key_class, "key_class"@),
    {
        match self.raw.key_class {
            Some(v) => Ok(v),
            None => Err(missing("key_class")),
        }
    }

    pub fn x(&self) -> (r: Result<u16, String>)
        ensures
            field_result(r, self@.raw.key_site_x, "x"@),
    {
        match self.raw.key_site_x {
            Some(v) => Ok(v),
            None => Err(missing("x")),
        }
    }

    pub fn y(&self) -> (r: Result<u16, String>)
        ensures
            field_result(r, self@.raw.key_site_y, "y"@),
    {
        match self.raw.key_site_y {
            Some(v) => Ok(v),
            None => Err(missing("y")),
        }
    }

    pub fn width(&self) -> (r: Result<u16, String>)
        ensures
            field_result(r, self@.raw.key_width, "width"@),
    {
        match self.raw.key_width {
            Some(v) => Ok(v),
            None => Err(missing("width")),
        }
    }

    pub fn height(&self) -> (r: Result<u16, String>)
        ensures
            field_result(r, self@.raw.key_height, "height"@),
    {
        match self.raw.key_height {
            Some(v) => Ok(v),
            None => Err(missing("height")),
        }
    }

    pub fn corner_radius(&self) -> (r: Result<u16, String>)
        ensures
            field_result(r, self@.raw.fillet_angle, "corner_radius"@),
    {
        match self.raw.fillet_angle {
            Some(v) => Ok(v),
            None => Err(missing("corner_radius")),
        }
    }

    /// The key's bindings, one per function layer, in record order; none when
    /// the record lists none.
    pub fn key_fn(&self) -> (r: Vec<KeyData>)
        ensures
            r@.len() == key_bindings(self@.raw).len(),
            forall|i: int| 0 <= i < r@.len() ==> r@[i]@ == key_bindings(self@.raw)[i],
    {
        let mut r: Vec<KeyData> = Vec::new();
        match &self.raw.key_fn {
            Some(v) => {
                let mut i: usize = 0;
                while i < v.len()
                    invariant
                        i <= v.len(),
                        self.raw.key_fn == Some(*v),
                        r@.len() == i,
                        forall|j: int| 0 <= j < i ==> r@[j]@ == key_data_models(v@)[j],
                    decreases v.len() - i,
                {
                    r.push(KeyData::new(v[i].snapshot()));
                    i = i + 1;
                }
            },
            None => {},
        }
        r
    }

    /// Changes one field of the binding at position `index` of this key's
    /// record and sends the key's record back once: a binding is part of its
    /// key, so its changes go through the key's write-back. Where the record
    /// lists no binding at that position, nothing changes and `false` is
    /// returned.
    pub fn change_binding(&mut self, index: usize, change: BindingChange) -> (r: bool)
        ensures
            r == (index < key_bindings(old(self)@.raw).len()),
            final(self)@ == change_binding_state(old(self)@, index as int, change),
    {
        let ghost c = change;
        let done = match &mut self.raw.key_fn {
            Some(v) => if index < v.len() {
                let ghost before = key_data_models(v@);
                let mut d = v[index].snapshot();
                match change {
                    BindingChange::KeyMode(x) => d.key_mode = Some(x),
                    BindingChange::KeyOpt0(x) => d.key_opt0 = Some(x),
                    BindingChange::KeyOpt1(x) => d.key_opt1 = Some(x),
                    BindingChange::KeyOpt2(x) => d.key_opt2 = Some(x),
                    BindingChange::KeyVal(b) => d.key_val = Some(b),
                }
                assert(d@ == changed_binding(before[index as int], c));
                v.set(index, d);
                assert(key_data_models(v@) =~= before.update(index as int, changed_binding(before[index as int], c)));
                true
            } else {
                false
            },
            None => false,
        };
        if done {
            self.end_change();
        }
        done
    }

    /// Sets `key_mode` of the binding at position `index` and sends the key's
    /// record back once; `false`, with nothing changed, where there is no
    /// such binding.
    pub fn set_key_mode(&mut self, index: usize, value: u8) -> (r: bool)
        ensures
            r == (index < key_bindings(old(self)@.raw).len()),
            final(self)@ == change_binding_state(old(self)@, index as int, BindingChange::KeyMode(value)),
    {
        self.change_binding(index, BindingChange::KeyMode(value))
    }

    /// Sets `key_opt0` of the binding at position `index` and sends the key's
    /// record back once; `false`, with nothing changed, where there is no
    /// such binding.
    pub fn set_key_opt0(&mut self, index: usize, value: u8) -> (r: bool)
        ensures
            r == (index < key_bindings(old(self)@.raw).len()),
            final(self)@ == change_binding_state(old(self)@, index as int, BindingChange::KeyOpt0(value)),
    {
        self.change_binding(index, BindingChange::KeyOpt0(value))
    }

    /// Sets `key_opt1` of the binding at position `index` and sends the key's
    /// record back once; `false`, with nothing changed, where there is no
    /// such binding.
    pub fn set_key_opt1(&mut self, index: usize, value: u8) -> (r: bool)
        ensures
            r == (index < key_bindings(old(self)@.raw).len()),
            final(self)@ == change_binding_state(old(self)@, index as int, BindingChange::KeyOpt1(value)),
    {
        self.change_binding(index, BindingChange::KeyOpt1(value))
    }

    /// Sets `key_opt2` of the binding at position `index` and sends the key's
    /// record back once; `false`, with nothing changed, where there is no
    /// such binding.
    pub fn set_key_opt2(&mut self, index: usize, value: u8) -> (r: bool)
        ensures
            r == (index < key_bindings(old(self)@.raw).len()),
            final(self)@ == change_binding_state(old(self)@, index as int, BindingChange::KeyOpt2(value)),
    {
        self.change_binding(index, BindingChange::KeyOpt2(value))
    }

    /// Sets `key_val` of the binding at position `index` and sends the key's
    /// record back once; `false`, with nothing changed, where there is no
    /// such binding.
    pub fn set_key_val(&mut self, index: usize, value: Vec<u8>) -> (r: bool)
        ensures
            r == (index < key_bindings(old(self)@.raw).len()),
            final(self)@ == change_binding_state(old(self)@, index as int, BindingChange::KeyVal(value)),
    {
        self.change_binding(index, BindingChange::KeyVal(value))
    }

    /// Merges a record that the device reported into the cache; nothing is
    /// sent to the device.
    pub fn merge_local(&mut self, incoming: &KeyInfoRaw)
        ensures
            final(self)@ == (KeyInfoState {
                raw: crate::raw::merge_key_info(old(self)@.raw, incoming@),
                ..old(self)@
            }),
    {
        self.raw.merge_from(incoming);
    }

    /// Hands the pending write-backs to the transport, oldest first, and
    /// clears them from the entity.
    pub fn take_pending_writes(&mut self) -> (r: Vec<KeyInfoRaw>)
        ensures
            key_info_models(r@) == old(self)@.writes,
            final(self)@.id == old(self)@.id,
            final(self)@.uuid == old(self)@.uuid,
            final(self)@.raw == old(self)@.raw,
            final(self)@.writes == Seq::<KeyInfoModel>::empty(),
    {
        let mut r: Vec<KeyInfoRaw> = Vec::new();
        std::mem::swap(&mut r, &mut self.writes);
        assert(key_info_models(self.writes@) =~= Seq::<KeyInfoModel>::empty());
        r
    }

    /// The number of write-backs not yet taken by the transport.
    pub fn pending_write_count(&self) -> (r: usize)
        ensures
            r == self@.writes.len(),
    {
        self.writes.len()
    }
}

} // verus!
