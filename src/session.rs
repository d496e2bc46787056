//! The registry of one device: one slot per entity kind, each empty until
//! first populated. Device I/O stays with the caller: the session says which
//! read to perform and takes its result.
use vstd::prelude::*;
use crate::cmd_response::device_info::{key_fn_change, passive_update, DeviceInfoDiff};
use crate::raw::{merge_key_info, DeviceInfoModel, DeviceInfoRaw, KeyInfoModel, KeyInfoRaw};
use crate::sayo_device::SayoDevice;
use crate::structure::{
    active_set_key_fn, change_binding_state, key_bindings, key_info_models, BindingChange, DeviceInfo,
    DeviceInfoState, KeyInfo, KeyInfoState,
};

verus! {

/// The kinds of record a session reads from its device.
#[derive(Clone, Copy, Debug, PartialEq, Eq, Structural)]
pub enum StructureKind {
    DeviceInfo,
    KeyInfos,
}

/// The entities of one device, each slot empty until first populated.
#[derive(Debug)]
pub struct DeviceSession {
    device: SayoDevice,
    device_info: Option<DeviceInfo>,
    key_infos: Option<Vec<KeyInfo>>,
}

/// The mathematical value of a session.
pub struct SessionState {
    pub uuid: u128,
    pub device_info: Option<DeviceInfoState>,
    pub key_infos: Option<Seq<KeyInfoState>>,
}

/// The values of a list of key entities.
pub open spec fn key_info_states(v: Seq<KeyInfo>) -> Seq<KeyInfoState> {
    v.map_values(|k: KeyInfo| k@)
}

/// The read that initialising the device information slot needs: none once
/// the slot is populated.
pub open spec fn device_info_request(s: SessionState) -> Option<StructureKind> {
    if s.device_info is Some {
        None
    } else {
        Some(StructureKind::DeviceInfo)
    }
}

/// The read that initialising the key slot needs: none once it is populated.
pub open spec fn key_infos_request(s: SessionState) -> Option<StructureKind> {
    if s.key_infos is Some {
        None
    } else {
        Some(StructureKind::KeyInfos)
    }
}

/// The session after the device information read gave `read`: an empty slot
/// takes a fresh entity; a populated one, or a read that gave nothing, leaves
/// the session as it was.
pub open spec fn fill_device_info(s: SessionState, read: Option<DeviceInfoModel>) -> SessionState {
    if s.device_info is None && read is Some {
        SessionState {
            device_info: Some(
                DeviceInfoState { uuid: s.uuid, raw: read->Some_0, writes: Seq::empty() },
            ),
            ..s
        }
    } else {
        s
    }
}

/// The session after the key list read gave `read`: an empty slot takes one
/// fresh entity per record, each with its position as id; a populated slot,
/// a read that gave no record, or one of more records than byte ids can
/// tell apart, leaves the session as it was.
pub open spec fn fill_key_infos(s: SessionState, read: Seq<KeyInfoModel>) -> SessionState {
    if s.key_infos is None && 0 < read.len() <= 256 {
        SessionState {
            key_infos: Some(
                Seq::new(
                    read.len(),
                    |i: int| KeyInfoState { id: i as u8, uuid: s.uuid, raw: read[i], writes: Seq::empty() },
                ),
            ),
            ..s
        }
    } else {
        s
    }
}

/// The session after the device reported a device information record: the
/// cached entity merges it, or, where there was none, one is built from it.
pub open spec fn report_device_info(s: SessionState, incoming: DeviceInfoModel) -> SessionState {
    SessionState {
        device_info: Some(
            match s.device_info {
                Some(d) => passive_update(d, incoming),
                None => DeviceInfoState { uuid: s.uuid, raw: incoming, writes: Seq::empty() },
            },
        ),
        ..s
    }
}

/// The session after a series of device information reports, in order.
pub open spec fn report_device_info_all(s: SessionState, payloads: Seq<DeviceInfoModel>) -> SessionState
    decreases payloads.len(),
{
    if payloads.len() == 0 {
        s
    } else {
        report_device_info(report_device_info_all(s, payloads.drop_last()), payloads.last())
    }
}

/// The write-backs pending in the device information slot; none while it is empty.
pub open spec fn device_info_writes(s: SessionState) -> Seq<DeviceInfoModel> {
    match s.device_info {
        Some(d) => d.writes,
        None => Seq::empty(),
    }
}

/// Reports never write back: after any number of device information reports
/// the session's pending write-backs are those it had before, and the key
/// slot is untouched.
pub proof fn lemma_reports_never_write(s: SessionState, payloads: Seq<DeviceInfoModel>)
    ensures
        device_info_writes(report_device_info_all(s, payloads)) == device_info_writes(s),
        report_device_info_all(s, payloads).key_infos == s.key_infos,
        report_device_info_all(s, payloads).uuid == s.uuid,
    decreases payloads.len(),
{
    if payloads.len() > 0 {
        lemma_reports_never_write(s, payloads.drop_last());
    }
}

/// Initialising a slot is idempotent: once the device information slot is
/// populated, asking to initialise it again requests no read, and no read
/// result changes it; and one read that gave a record is enough.
pub proof fn lemma_init_device_info_idempotent(s: SessionState, read: Option<DeviceInfoModel>)
    ensures
        s.device_info is Some ==> device_info_request(s) is None && fill_device_info(s, read) == s,
        read is Some ==> device_info_request(fill_device_info(s, read)) is None,
        read is Some ==> device_info_request(fill_device_info(fill_device_info(s, read), read)) is None
            && fill_device_info(fill_device_info(s, read), read) == fill_device_info(s, read),
{
}

/// The same for the key slot.
pub proof fn lemma_init_key_infos_idempotent(s: SessionState, read: Seq<KeyInfoModel>)
    ensures
        s.key_infos is Some ==> key_infos_request(s) is None && fill_key_infos(s, read) == s,
        0 < read.len() <= 256 ==> key_infos_request(fill_key_infos(s, read)) is None,
{
}

impl View for DeviceSession {
    type V = SessionState;

    closed spec fn view(&self) -> SessionState {
        SessionState {
            uuid: self.device.id(),
            device_info: match self.device_info {
                Some(d) => Some(d@),
                None => None,
            },
            key_infos: match self.key_infos {
                Some(v) => Some(key_info_states(v@)),
                None => None,
            },
        }
    }
}

impl DeviceSession {
    /// A session of the given device with every slot empty.
    pub fn new(device: SayoDevice) -> (r: Self)
        ensures
            r@ == (SessionState { uuid: device.id(), device_info: None, key_infos: None }),
    {
        DeviceSession { device, device_info: None, key_infos: None }
    }

    /// The device of this session.
    pub fn device(&self) -> (r: SayoDevice)
        ensures
            r.id() == self@.uuid,
    {
        self.device
    }

    /// The read needed to initialise the device information slot, if any.
    pub fn init_device_info(&self) -> (r: Option<StructureKind>)
        ensures
            r == device_info_request(self@),
    {
        if self.device_info.is_some() {
            None
        } else {
            Some(StructureKind::DeviceInfo)
        }
    }

    /// Takes the result of the device information read.
    pub fn complete_device_info(&mut self, read: Option<DeviceInfoRaw>)
        ensures
            final(self)@ == fill_device_info(
                old(self)@,
                match read {
                    Some(raw) => Some(raw@),
                    None => None,
                },
            ),
    {
        if self.device_info.is_none() {
            if let Some(raw) = read {
                let d = DeviceInfo::new(self.device, raw);
                self.device_info = Some(d);
            }
        }
    }

    /// The read needed to initialise the key slot, if any.
    pub fn init_key_infos(&self) -> (r: Option<StructureKind>)
        ensures
            r == key_infos_request(self@),
    {
        if self.key_infos.is_some() {
            None
        } else {
            Some(StructureKind::KeyInfos)
        }
    }

    /// Takes the result of the key list read. A list of more than 256
    /// records, offered to an empty slot, is refused with the error of
    /// `SayoDevice::key_infos` and leaves the slot empty.
    pub fn complete_key_infos(&mut self, read: Vec<KeyInfoRaw>) -> (r: Result<(), String>)
        ensures
            final(self)@ == fill_key_infos(old(self)@, read@.map_values(|k: KeyInfoRaw| k@)),
            r is Err <==> (old(self)@.key_infos is None && read@.len() > 256),
            r is Err ==> r->Err_0@ == "key list holds more than 256 keys"@,
    {
        let ghost models = read@.map_values(|k: KeyInfoRaw| k@);
        if self.key_infos.is_none() && read.len() > 0 {
            let infos = self.device.key_infos(read);
            match infos {
                Ok(v) => {
                    assert(key_info_states(v@) =~= Seq::new(
                        models.len(),
                        |i: int| KeyInfoState { id: i as u8, uuid: self@.uuid, raw: models[i], writes: Seq::empty() },
                    ));
                    self.key_infos = Some(v);
                    Ok(())
                },
                Err(e) => Err(e),
            }
        } else {
            Ok(())
        }
    }

    /// The cached device information, if the slot is populated.
    pub fn device_info(&self) -> (r: Option<&DeviceInfo>)
        ensures
            match r {
                Some(d) => self@.device_info == Some(d@),
                None => self@.device_info is None,
            },
    {
        self.device_info.as_ref()
    }

    /// The number of cached keys; none while the slot is empty.
    pub fn key_info_count(&self) -> (r: usize)
        ensures
            r == match self@.key_infos {
                Some(v) => v.len(),
                None => 0,
            },
    {
        match &self.key_infos {
            Some(v) => v.len(),
            None => 0,
        }
    }

    /// The cached key at a position, if the slot holds one there.
    pub fn key_info(&self, index: usize) -> (r: Option<&KeyInfo>)
        ensures
            match self@.key_infos {
                Some(v) => if index < v.len() {
                    r is Some && r->Some_0@ == v[index as int]
                } else {
                    r is None
                },
                None => r is None,
            },
    {
        match &self.key_infos {
            Some(v) => if index < v.len() {
                Some(&v[index])
            } else {
                None
            },
            None => None,
        }
    }

    /// Active update of the function-key mode: where the slot is populated the
    /// entity takes the value and sends its record back once, and `true` is
    /// returned; an empty slot is left as it is.
    pub fn set_key_fn(&mut self, key_fn: u8) -> (r: bool)
        ensures
            r == old(self)@.device_info is Some,
            final(self)@ == match old(self)@.device_info {
                Some(d) => SessionState { device_info: Some(active_set_key_fn(d, key_fn)), ..old(self)@ },
                None => old(self)@,
            },
    {
        match &mut self.device_info {
            Some(d) => {
                d.set_key_fn(key_fn);
                true
            },
            None => false,
        }
    }

    /// Passive update from a device information record the device reported:
    /// merged into the cached entity, or used to build one where there was
    /// none. Nothing is sent to the device. The diff is taken against the
    /// cached function-key mode, unavailable where there was no entity.
    pub fn apply_device_info_report(&mut self, payload: &DeviceInfoRaw) -> (r: DeviceInfoDiff)
        ensures
            final(self)@ == report_device_info(old(self)@, payload@),
            r.key_fn_changed == key_fn_change(
                match old(self)@.device_info {
                    Some(d) => d.raw.key_fn,
                    None => None,
                },
                payload@.key_fn,
            ),
    {
        match &mut self.device_info {
            Some(d) => d.apply_cmd_response_local_bytes(payload),
            None => {
                let d = DeviceInfo::from_cmd_response_bytes(self.device.uuid(), payload.snapshot());
                self.device_info = Some(d);
                DeviceInfoDiff::between(None, payload.key_fn)
            },
        }
    }

    /// Active update of one field of a key binding: routed to the cached key
    /// at position `key`, which takes the change and sends its record back
    /// once. Where the slot holds no such key, or the key no such binding,
    /// nothing changes and `false` is returned.
    pub fn change_key_binding(&mut self, key: usize, index: usize, change: BindingChange) -> (r: bool)
        ensures
            match old(self)@.key_infos {
                Some(v) => if key < v.len() {
                    &&& r == (index < key_bindings(v[key as int].raw).len())
                    &&& final(self)@ == (SessionState {
                        key_infos: Some(v.update(key as int, change_binding_state(v[key as int], index as int, change))),
                        ..old(self)@
                    })
                } else {
                    !r && final(self)@ == old(self)@
                },
                None => !r && final(self)@ == old(self)@,
            },
    {
        match &mut self.key_infos {
            Some(v) => if key < v.len() {
                let ghost before = key_info_states(v@);
                let mut k = v.remove(key);
                let r = k.change_binding(index, change);
                v.insert(key, k);
                assert(key_info_states(v@) =~= before.update(key as int, k@));
                r
            } else {
                false
            },
            None => false,
        }
    }

    /// Passive update of the cached key at position `key` from a record the
    /// device reported: merged into the key, nothing sent to the device.
    /// Where the slot holds no such key, nothing changes and `false` is
    /// returned.
    pub fn apply_key_info_report(&mut self, key: usize, payload: &KeyInfoRaw) -> (r: bool)
        ensures
            match old(self)@.key_infos {
                Some(v) => if key < v.len() {
                    &&& r
                    &&& final(self)@ == (SessionState {
                        key_infos: Some(v.update(
                            key as int,
                            KeyInfoState { raw: merge_key_info(v[key as int].raw, payload@), ..v[key as int] },
                        )),
                        ..old(self)@
                    })
                } else {
                    !r && final(self)@ == old(self)@
                },
                None => !r && final(self)@ == old(self)@,
            },
    {
        match &mut self.key_infos {
            Some(v) => if key < v.len() {
                let ghost before = key_info_states(v@);
                let mut k = v.remove(key);
                k.merge_local(payload);
                v.insert(key, k);
                assert(key_info_states(v@) =~= before.update(key as int, k@));
                true
            } else {
                false
            },
            None => false,
        }
    }

    /// Hands the write-backs of the cached key at position `key` to the
    /// transport, oldest first; none where the slot holds no such key.
    pub fn take_key_writes(&mut self, key: usize) -> (r: Vec<KeyInfoRaw>)
        ensures
            match old(self)@.key_infos {
                Some(v) => if key < v.len() {
                    &&& key_info_models(r@) == v[key as int].writes
                    &&& final(self)@ == (SessionState {
                        key_infos: Some(v.update(key as int, KeyInfoState { writes: Seq::empty(), ..v[key as int] })),
                        ..old(self)@
                    })
                } else {
                    r@.len() == 0 && final(self)@ == old(self)@
                },
                None => r@.len() == 0 && final(self)@ == old(self)@,
            },
    {
        match &mut self.key_infos {
            Some(v) => if key < v.len() {
                let ghost before = key_info_states(v@);
                let mut k = v.remove(key);
                let r = k.take_pending_writes();
                v.insert(key, k);
                assert(key_info_states(v@) =~= before.update(key as int, k@));
                r
            } else {
                Vec::new()
            },
            None => Vec::new(),
        }
    }

    /// Hands the device information write-backs to the transport, oldest
    /// first; none while the slot is empty.
    pub fn take_device_info_writes(&mut self) -> (r: Vec<DeviceInfoRaw>)
        ensures
            match old(self)@.device_info {
                Some(d) => {
                    &&& crate::structure::device_info_models(r@) == d.writes
                    &&& final(self)@ == (SessionState {
                        device_info: Some(DeviceInfoState { writes: Seq::empty(), ..d }),
                        ..old(self)@
                    })
                },
                None => r@.len() == 0 && final(self)@ == old(self)@,
            },
    {
        match &mut self.device_info {
            Some(d) => d.take_pending_writes(),
            None => Vec::new(),
        }
    }
}

} // verus!
