//! The handle that identifies one physical device.
use vstd::prelude::*;
use crate::raw::{DeviceInfoRaw, KeyInfoRaw};
use crate::structure::{DeviceInfo, KeyInfo};

verus! {

/// One physical device, identified by its stable 128-bit id.
#[derive(Clone, Copy, Debug, PartialEq, Eq, Hash, Structural)]
pub struct SayoDevice {
    uuid: u128,
}

impl SayoDevice {
    /// The stable id of this device.
    pub closed spec fn id(&self) -> u128 {
        self.uuid
    }

    /// The handle of the device with the given id.
    pub fn new(uuid: u128) -> (r: Self)
        ensures
            r.id() == uuid,
    {
        SayoDevice { uuid }
    }

    /// The stable id of this device.
    pub fn uuid(&self) -> (r: u128)
        ensures
            r == self.id(),
    {
        self.uuid
    }

    /// Wraps what an active read of the device information gave: the entity,
    /// or an error where the device has not reported the record yet.
    pub fn device_info(&self, read: Option<DeviceInfoRaw>) -> (r: Result<DeviceInfo, String>)
        ensures
            match read {
                Some(raw) => r is Ok && r->Ok_0@.uuid == self.id() && r->Ok_0@.raw == raw@
                    && r->Ok_0@.writes == Seq::<crate::raw::DeviceInfoModel>::empty(),
                None => r is Err && r->Err_0@ == "device_info unavailable"@,
            },
    {
        match read {
            Some(raw) => Ok(DeviceInfo::new(*self, raw)),
            None => Err(String::from_str("device_info unavailable")),
        }
    }

    /// Wraps what an active read of the key list gave: one entity per record,
    /// each with its position in the list as its id. Ids are bytes, so a list
    /// of more than 256 records is refused rather than given repeated ids.
    pub fn key_infos(&self, raws: Vec<KeyInfoRaw>) -> (r: Result<Vec<KeyInfo>, String>)
        ensures
            r is Ok <==> raws@.len() <= 256,
            r is Err ==> r->Err_0@ == "key list holds more than 256 keys"@,
            r is Ok ==> r->Ok_0@.len() == raws@.len(),
            r is Ok ==> forall|i: int| 0 <= i < raws@.len() ==> {
                let k = #[trigger] r->Ok_0@[i]@;
                &&& k.id == i
                &&& k.uuid == self.id()
                &&& k.raw == raws@[i]@
                &&& k.writes == Seq::<crate::raw::KeyInfoModel>::empty()
            },
    {
        if raws.len() > 256 {
            return Err(String::from_str("key list holds more than 256 keys"));
        }
        let mut infos: Vec<KeyInfo> = Vec::new();
        let mut raws = raws;
        let ghost all = raws@;
        let n = raws.len();
        let mut i: usize = 0;
        while i < n
            invariant
                n == all.len(),
                n <= 256,
                i <= n,
                raws@ == all.subrange(i as int, n as int),
                infos@.len() == i,
                forall|j: int| 0 <= j < i ==> {
                    let k = #[trigger] infos@[j]@;
                    &&& k.id == j
                    &&& k.uuid == self.id()
                    &&& k.raw == all[j]@
                    &&& k.writes == Seq::<crate::raw::KeyInfoModel>::empty()
                },
            decreases n - i,
        {
            let raw = raws.remove(0);
            assert(raw == all[i as int]);
            infos.push(KeyInfo::new(i as u8, *self, raw));
            i = i + 1;
            assert(raws@ =~= all.subrange(i as int, n as int));
        }
        Ok(infos)
    }
}

} // verus!
