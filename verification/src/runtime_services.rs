//! EFI services available at all times

use crate::types::TableHeader;
use vstd::prelude::*;

verus! {

/// Contains the runtime services
///
/// None of the runtime services is offered through this table yet: it carries
/// the header that the firmware put in front of them.
#[derive(Clone, Copy, Debug, PartialEq, Eq, Structural)]
pub struct RuntimeServices {
    pub hdr: TableHeader,
}

} // verus!
