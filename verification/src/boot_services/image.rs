//! Image services.

use crate::boot_services::{BootServices, BootSlots};
use crate::types::{outcome, spec_outcome, Handle, Status};
use vstd::prelude::*;

verus! {

impl<S: BootSlots> BootServices<S> {
    /// Ends boot services on behalf of the image, which names the memory map it
    /// last saw by its key.
    pub fn exit_boot_services(&self, image_handle: Handle, map_key: usize) -> (r: Result<
        (),
        Status,
    >)
        ensures
            exists|status: Status|
                call_ensures(S::exit_boot_services, (&self.slots, image_handle, map_key), status)
                    && r == spec_outcome(status, ()),
    {
        let status = self.slots.exit_boot_services(image_handle, map_key);
        outcome(status, ())
    }
}

} // verus!
