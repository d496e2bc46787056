use vstd::prelude::*;
use crate::structure::SayoObject;

verus! {

/// An entity that can be built from, and updated by, a record the device
/// reported on its own. Neither operation sends anything back to the device.
pub trait CmdResponseObject: Sized + SayoObject {
    /// The decoded record of a command response.
    type Payload;

    /// What a passive update reports as changed.
    type Diff;

    /// Builds the entity from a reported record.
    fn from_cmd_response_bytes(uuid: u128, payload: Self::Payload) -> (r: Self)
        ensures
            r.write_log() == Seq::<Self::Record>::empty(),
    ;

    /// Merges a reported record into the cache and describes what changed.
    fn apply_cmd_response_local_bytes(&mut self, payload: &Self::Payload) -> (r: Self::Diff)
        ensures
            final(self).write_log() == old(self).write_log(),
    ;
}

} // verus!
