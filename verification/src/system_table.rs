//! Root EFI System Table

use crate::boot_services::{BootServices, BootSlots};
use crate::pointers::EfiRt;
use crate::protocols::text::{SimpleTextInput, SimpleTextOutput, TextInputSlots, TextOutputSlots};
use crate::runtime_services::RuntimeServices;
use crate::types::{Handle, TableHeader};
use vstd::prelude::*;

verus! {

/// Contains pointers to the runtime and boot services tables
pub struct SystemTable<B: BootSlots, I: TextInputSlots, O: TextOutputSlots> {
    pub hdr: TableHeader,
    pub firmware_vendor: EfiRt<u16>,
    pub firmware_revision: u32,
    pub console_in_handle: Handle,
    pub con_in: EfiRt<SimpleTextInput<I>>,
    pub console_out_handle: Handle,
    pub con_out: EfiRt<SimpleTextOutput<O>>,
    pub standard_error_handle: Handle,
    pub stderr: EfiRt<SimpleTextOutput<O>>,
    pub runtime_services: EfiRt<RuntimeServices>,
    pub boot_services: EfiRt<BootServices<B>>,
    pub number_of_table_entries: usize,
    pub configuration_table: usize,
}

} // verus!
