use vstd::prelude::*;
use crate::cmd_response::traits::CmdResponseObject;
use crate::raw::{merge_device_info, DeviceInfoModel, DeviceInfoRaw};
use crate::sayo_device::SayoDevice;
use crate::structure::{DeviceInfo, DeviceInfoState, SayoObject};

verus! {

/// What a passive update of the device information changed.
#[derive(Debug, Clone, Copy, Default, PartialEq, Eq, Structural)]
pub struct DeviceInfoDiff {
    /// The new function-key mode, where it changed.
    pub key_fn_changed: Option<u8>,
}

/// The reported change of the function-key mode: the new value where one is
/// present and differs from the old one (or the old one was unavailable).
pub open spec fn key_fn_change(old_key_fn: Option<u8>, new_key_fn: Option<u8>) -> Option<u8> {
    if new_key_fn is Some && new_key_fn != old_key_fn {
        new_key_fn
    } else {
        None
    }
}

/// The state of a device information entity after a passive update.
pub open spec fn passive_update(s: DeviceInfoState, incoming: DeviceInfoModel) -> DeviceInfoState {
    DeviceInfoState { raw: merge_device_info(s.raw, incoming), ..s }
}

/// The state after a series of passive updates, applied in order.
pub open spec fn passive_updates(s: DeviceInfoState, payloads: Seq<DeviceInfoModel>) -> DeviceInfoState
    decreases payloads.len(),
{
    if payloads.len() == 0 {
        s
    } else {
        passive_update(passive_updates(s, payloads.drop_last()), payloads.last())
    }
}

impl DeviceInfoDiff {
    /// The diff between two values of the function-key mode.
    pub fn between(old_key_fn: Option<u8>, new_key_fn: Option<u8>) -> (r: Self)
        ensures
            r.key_fn_changed == key_fn_change(old_key_fn, new_key_fn),
    {
        let key_fn_changed = match (old_key_fn, new_key_fn) {
            (Some(o), Some(n)) => if o != n {
                Some(n)
            } else {
                None
            },
            (None, Some(n)) => Some(n),
            _ => None,
        };
        DeviceInfoDiff { key_fn_changed }
    }
}

impl DeviceInfo {
    /// Builds the cached device information from a record the device
    /// reported. Nothing is sent to the device.
    pub fn from_cmd_response_bytes(uuid: u128, payload: DeviceInfoRaw) -> (r: Self)
        ensures
            r@.uuid == uuid,
            r@.raw == payload@,
            r@.writes == Seq::<DeviceInfoModel>::empty(),
    {
        DeviceInfo::new(SayoDevice::new(uuid), payload)
    }

    /// Merges a record the device reported into the cache and returns what
    /// changed. Nothing is sent to the device.
    pub fn apply_cmd_response_local_bytes(&mut self, payload: &DeviceInfoRaw) -> (r: DeviceInfoDiff)
        ensures
            final(self)@ == passive_update(old(self)@, payload@),
            r.key_fn_changed == key_fn_change(old(self)@.raw.key_fn, payload@.key_fn),
    {
        let old_key_fn = match self.key_fn() {
            Ok(v) => Some(v),
            Err(_) => None,
        };
        let new_key_fn = payload.key_fn;
        self.merge_local(payload);
        DeviceInfoDiff::between(old_key_fn, new_key_fn)
    }
}

impl CmdResponseObject for DeviceInfo {
    type Payload = DeviceInfoRaw;

    type Diff = DeviceInfoDiff;

    fn from_cmd_response_bytes(uuid: u128, payload: DeviceInfoRaw) -> (r: Self)
        ensures
            r@.uuid == uuid,
            r@.raw == payload@,
            r@.writes == Seq::<DeviceInfoModel>::empty(),
    {
        DeviceInfo::from_cmd_response_bytes(uuid, payload)
    }

    fn apply_cmd_response_local_bytes(&mut self, payload: &DeviceInfoRaw) -> (r: DeviceInfoDiff)
        ensures
            final(self)@ == passive_update(old(self)@, payload@),
            r.key_fn_changed == key_fn_change(old(self)@.raw.key_fn, payload@.key_fn),
    {
        DeviceInfo::apply_cmd_response_local_bytes(self, payload)
    }
}

/// Passive updates never write back: after any number of them, in any order,
/// the write-backs of the entity are those it had before.
pub proof fn lemma_passive_updates_never_write(s: DeviceInfoState, payloads: Seq<DeviceInfoModel>)
    ensures
        passive_updates(s, payloads).writes == s.writes,
        passive_updates(s, payloads).uuid == s.uuid,
    decreases payloads.len(),
{
    if payloads.len() > 0 {
        lemma_passive_updates_never_write(s, payloads.drop_last());
    }
}

/// A passive update is a merge: a field that the payload does not hold keeps
/// its cached value, and a field it holds takes the payload's value.
pub proof fn lemma_passive_update_merges(s: DeviceInfoState, incoming: DeviceInfoModel)
    ensures
        ({
            let r = passive_update(s, incoming).raw;
            &&& r.model_code == (if incoming.model_code is Some { incoming.model_code } else { s.raw.model_code })
            &&& r.ver == (if incoming.ver is Some { incoming.ver } else { s.raw.ver })
            &&& r.usb0_ori == (if incoming.usb0_ori is Some { incoming.usb0_ori } else { s.raw.usb0_ori })
            &&& r.usb0_offset == (if incoming.usb0_offset is Some { incoming.usb0_offset } else { s.raw.usb0_offset })
            &&& r.usb1_ori == (if incoming.usb1_ori is Some { incoming.usb1_ori } else { s.raw.usb1_ori })
            &&& r.usb1_offset == (if incoming.usb1_offset is Some { incoming.usb1_offset } else { s.raw.usb1_offset })
            &&& r.batt_lv == (if incoming.batt_lv is Some { incoming.batt_lv } else { s.raw.batt_lv })
            &&& r.key_fn == (if incoming.key_fn is Some { incoming.key_fn } else { s.raw.key_fn })
            &&& r.cpu_load_1s == (if incoming.cpu_load_1s is Some { incoming.cpu_load_1s } else { s.raw.cpu_load_1s })
            &&& r.cpu_load_1ms == (if incoming.cpu_load_1ms is Some { incoming.cpu_load_1ms } else { s.raw.cpu_load_1ms })
            &&& r.api_list == (if incoming.api_list is Some { incoming.api_list } else { s.raw.api_list })
        }),
{
}

} // verus!
