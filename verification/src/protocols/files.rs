//! The file and simple file system protocols.

use crate::boot_services::memory::MemoryType;
use crate::boot_services::protocols::{Guid, Protocol};
use crate::boot_services::{BootServices, BootSlots};
use crate::negotiation::{delivered, spec_delivered};
use crate::strings::{is_text_length, spec_characters, spec_text, utf16_to_str};
use crate::types::{lemma_status_classification, outcome, spec_outcome, Bool, Status};
use vstd::prelude::*;

verus! {

/// The slots of a file interface, one operation per slot.
pub trait FileSlots {
    /// Closes the file.
    fn close(&self) -> Status;

    /// Asks for information of the kind that `information_type` names, to be
    /// written to the `capacity` bytes at address `buffer`. The second component
    /// is the size in bytes of what was written, or of what there is where the
    /// buffer was too small.
    fn get_info(&self, information_type: Guid, buffer: usize, capacity: usize) -> (Status, usize);
}

/// Provides file based access to supported file systems
pub struct File<S: FileSlots> {
    pub revision: u64,
    pub slots: S,
}

/// Type of information that can be retrieved about a file
pub trait FileInformationType {
    /// The Guid that names this kind of information.
    spec fn spec_guid() -> Guid;

    /// The bytes that this kind of information takes at least: the size of the
    /// buffer that is tried first.
    spec fn spec_size() -> usize;

    /// Returns the Guid that names this kind of information.
    fn guid() -> (r: Guid)
        ensures
            r == Self::spec_guid(),
    ;

    /// Returns the size of the buffer that is tried first.
    fn size() -> (r: usize)
        ensures
            r == Self::spec_size(),
    ;
}

/// Information in pool memory: `size` bytes at address `buffer`. The buffer is the
/// caller's, to be given back with `free_pool`.
#[derive(Clone, Copy, Debug, PartialEq, Eq, Structural)]
pub struct InfoBuffer {
    pub buffer: usize,
    pub size: usize,
}

/// The answers of the firmware in the course of fetching information about a
/// file: to the allocation of the first buffer, to the call with it, to its
/// release, to the allocation of the second buffer, to the call with that, and to
/// the release of the second buffer. Where a call was not made its answer is of
/// no account.
pub struct InfoTranscript {
    pub first_allocation: (Status, usize),
    pub query: (Status, usize),
    pub release: Status,
    pub second_allocation: (Status, usize),
    pub retrieval: (Status, usize),
    pub second_release: Status,
}

/// Whether the first buffer was obtained, so that the first call is made.
pub open spec fn spec_info_asked(t: InfoTranscript) -> bool {
    !t.first_allocation.0.is_error() && t.first_allocation.1 != 0
}

/// Whether the first call found its buffer too small, so that the buffer is
/// released.
pub open spec fn spec_info_retried(t: InfoTranscript) -> bool {
    spec_info_asked(t) && t.query.0 == Status::BufferTooSmall
}

/// Whether the first buffer is given back to the firmware: it was obtained, and
/// the call with it found it too small or brought no information out of it.
pub open spec fn spec_info_first_given_back(guess: usize, t: InfoTranscript) -> bool {
    spec_info_asked(t) && (t.query.0 == Status::BufferTooSmall || spec_delivered(
        t.query.0,
        t.query.1,
        guess,
    ) is Err)
}

/// Whether the second buffer is asked for: the first was released without error.
pub open spec fn spec_info_reallocated(t: InfoTranscript) -> bool {
    spec_info_retried(t) && !t.release.is_error()
}

/// Whether the second call is made: the second buffer was obtained.
pub open spec fn spec_info_asked_again(t: InfoTranscript) -> bool {
    spec_info_reallocated(t) && !t.second_allocation.0.is_error() && t.second_allocation.1 != 0
}

/// Whether the second buffer is given back to the firmware: it was obtained, and
/// the call with it brought no information out of it.
pub open spec fn spec_info_second_given_back(t: InfoTranscript) -> bool {
    spec_info_asked_again(t) && spec_delivered(t.retrieval.0, t.retrieval.1, t.query.1) is Err
}

/// The information, or the error, that the firmware's answers amount to, where
/// `guess` is the size of the first buffer.
///
/// An allocation that reports success with a null address is `OutOfResources`,
/// and a size beyond the buffer is `BadBufferSize`.
pub open spec fn spec_info_result(guess: usize, t: InfoTranscript) -> Result<InfoBuffer, Status> {
    if t.first_allocation.0.is_error() {
        Err(t.first_allocation.0)
    } else if t.first_allocation.1 == 0 {
        Err(Status::OutOfResources)
    } else if t.query.0 != Status::BufferTooSmall {
        match spec_delivered(t.query.0, t.query.1, guess) {
            Err(e) => Err(e),
            Ok(size) => Ok(InfoBuffer { buffer: t.first_allocation.1, size }),
        }
    } else if t.release.is_error() {
        Err(t.release)
    } else if t.second_allocation.0.is_error() {
        Err(t.second_allocation.0)
    } else if t.second_allocation.1 == 0 {
        Err(Status::OutOfResources)
    } else {
        match spec_delivered(t.retrieval.0, t.retrieval.1, t.query.1) {
            Err(e) => Err(e),
            Ok(size) => Ok(InfoBuffer { buffer: t.second_allocation.1, size }),
        }
    }
}

/// Whether the answers in `t` are ones that the file and the boot services can
/// give to the calls that fetching information makes: the allocation of a buffer
/// of `guess` bytes; the call with it; where that was too small, the release of
/// the buffer, the allocation of one of the size asked for, and the call with
/// that; and the release of either buffer where it was obtained and no
/// information comes out of it.
pub open spec fn info_transcript_admissible<S: FileSlots, B: BootSlots>(
    file: &S,
    boot: &B,
    information_type: Guid,
    guess: usize,
    t: InfoTranscript,
) -> bool {
    &&& call_ensures(B::allocate_pool, (boot, MemoryType::LoaderData, guess), t.first_allocation)
    &&& (spec_info_asked(t) ==> call_ensures(
        S::get_info,
        (file, information_type, t.first_allocation.1, guess),
        t.query,
    ))
    &&& (spec_info_first_given_back(guess, t) ==> call_ensures(
        B::free_pool,
        (boot, t.first_allocation.1),
        t.release,
    ))
    &&& (spec_info_reallocated(t) ==> call_ensures(
        B::allocate_pool,
        (boot, MemoryType::LoaderData, t.query.1),
        t.second_allocation,
    ))
    &&& (spec_info_asked_again(t) ==> call_ensures(
        S::get_info,
        (file, information_type, t.second_allocation.1, t.query.1),
        t.retrieval,
    ))
    &&& (spec_info_second_given_back(t) ==> call_ensures(
        B::free_pool,
        (boot, t.second_allocation.1),
        t.second_release,
    ))
}

/// A buffer that was obtained and is not given back is the one that comes out,
/// and on an error every buffer that was obtained has been given back.
pub proof fn lemma_info_buffers_kept_or_given_back(guess: usize, t: InfoTranscript)
    ensures
        spec_info_asked(t) && !spec_info_first_given_back(guess, t) ==> (spec_info_result(
            guess,
            t,
        ) matches Ok(info) && info.buffer == t.first_allocation.1),
        spec_info_asked_again(t) && !spec_info_second_given_back(t) ==> (spec_info_result(
            guess,
            t,
        ) matches Ok(info) && info.buffer == t.second_allocation.1),
        spec_info_result(guess, t) is Err ==> (spec_info_asked(t)
            ==> spec_info_first_given_back(guess, t)) && (spec_info_asked_again(t)
            ==> spec_info_second_given_back(t)),
{
    lemma_status_classification(Status::BufferTooSmall);
}

/// Whatever the firmware answers, an error that comes out is an error status and
/// information that comes out lies in a buffer that is not null.
pub proof fn lemma_info_result_sound(guess: usize, t: InfoTranscript)
    ensures
        spec_info_result(guess, t) matches Err(e) ==> e.is_error(),
        spec_info_result(guess, t) matches Ok(info) ==> info.buffer != 0,
{
    lemma_status_classification(Status::BadBufferSize);
    lemma_status_classification(Status::OutOfResources);
    lemma_status_classification(Status::BufferTooSmall);
}

/// The second call is the last: where it, too, finds the buffer too small, that
/// is the error returned.
pub proof fn lemma_info_retries_once(guess: usize, t: InfoTranscript)
    requires
        spec_info_asked_again(t),
        t.retrieval.0 == Status::BufferTooSmall,
    ensures
        spec_info_result(guess, t) == Err::<InfoBuffer, Status>(Status::BufferTooSmall),
{
    lemma_status_classification(Status::BufferTooSmall);
}

impl<S: FileSlots> File<S> {
    /// Closes this file
    pub fn close(&self) -> (r: Result<(), Status>)
        ensures
            exists|status: Status|
                call_ensures(S::close, (&self.slots,), status) && r == spec_outcome(status, ()),
    {
        let status = self.slots.close();
        outcome(status, ())
    }

    /// Returns information about a file
    ///
    /// A buffer of the size that `T` names is tried first. Where the firmware
    /// finds it too small, it is released, a buffer of the size asked for is
    /// allocated, and the firmware asked again, once. A buffer that was obtained and
    /// does not come out with the information has been given back to the firmware.
    pub fn get_info<T: FileInformationType, B: BootSlots>(
        &self,
        boot_services: &BootServices<B>,
    ) -> (r: Result<InfoBuffer, Status>)
        ensures
            exists|t: InfoTranscript| #[trigger]
                info_transcript_admissible(
                    &self.slots,
                    &boot_services.slots,
                    T::spec_guid(),
                    T::spec_size(),
                    t,
                ) && r == spec_info_result(T::spec_size(), t),
            r matches Err(e) ==> e.is_error(),
            r matches Ok(info) ==> info.buffer != 0,
    {
        let guess = T::size();
        let information_type = T::guid();
        let first_allocation = boot_services.slots.allocate_pool(MemoryType::LoaderData, guess);
        let ghost mut t = InfoTranscript {
            first_allocation,
            query: (Status::Success, 0),
            release: Status::Success,
            second_allocation: (Status::Success, 0),
            retrieval: (Status::Success, 0),
            second_release: Status::Success,
        };
        match first_allocation.0.as_result() {
            Err(e) => {
                proof {
                    lemma_info_result_sound(guess, t);
                    assert(info_transcript_admissible(
                        &self.slots,
                        &boot_services.slots,
                        information_type,
                        guess,
                        t,
                    ));
                }
                return Err(e);
            },
            Ok(_) => {},
        }
        let first = first_allocation.1;
        if first == 0 {
            proof {
                lemma_info_result_sound(guess, t);
                assert(info_transcript_admissible(
                    &self.slots,
                    &boot_services.slots,
                    information_type,
                    guess,
                    t,
                ));
            }
            return Err(Status::OutOfResources);
        }
        let query = self.slots.get_info(information_type, first, guess);
        proof {
            t = InfoTranscript { query, ..t };
        }
        match query.0 {
            Status::BufferTooSmall => {},
            _ => {
                return match delivered(query.0, query.1, guess) {
                    Err(e) => {
                        let release = boot_services.slots.free_pool(first);
                        proof {
                            t = InfoTranscript { release, ..t };
                            lemma_info_result_sound(guess, t);
                            assert(info_transcript_admissible(
                                &self.slots,
                                &boot_services.slots,
                                information_type,
                                guess,
                                t,
                            ));
                        }
                        Err(e)
                    },
                    Ok(size) => {
                        proof {
                            lemma_info_result_sound(guess, t);
                            assert(info_transcript_admissible(
                                &self.slots,
                                &boot_services.slots,
                                information_type,
                                guess,
                                t,
                            ));
                        }
                        Ok(InfoBuffer { buffer: first, size })
                    },
                };
            },
        }
        let release = boot_services.slots.free_pool(first);
        proof {
            t = InfoTranscript { release, ..t };
        }
        match release.as_result() {
            Err(e) => {
                proof {
                    lemma_info_result_sound(guess, t);
                    assert(info_transcript_admissible(
                        &self.slots,
                        &boot_services.slots,
                        information_type,
                        guess,
                        t,
                    ));
                }
                return Err(e);
            },
            Ok(_) => {},
        }
        let capacity = query.1;
        let second_allocation = boot_services.slots.allocate_pool(
            MemoryType::LoaderData,
            capacity,
        );
        proof {
            t = InfoTranscript { second_allocation, ..t };
        }
        match second_allocation.0.as_result() {
            Err(e) => {
                proof {
                    lemma_info_result_sound(guess, t);
                    assert(info_transcript_admissible(
                        &self.slots,
                        &boot_services.slots,
                        information_type,
                        guess,
                        t,
                    ));
                }
                return Err(e);
            },
            Ok(_) => {},
        }
        let second = second_allocation.1;
        if second == 0 {
            proof {
                lemma_info_result_sound(guess, t);
                assert(info_transcript_admissible(
                    &self.slots,
                    &boot_services.slots,
                    information_type,
                    guess,
                    t,
                ));
            }
            return Err(Status::OutOfResources);
        }
        let retrieval = self.slots.get_info(information_type, second, capacity);
        proof {
            t = InfoTranscript { retrieval, ..t };
        }
        match delivered(retrieval.0, retrieval.1, capacity) {
            Err(e) => {
                let second_release = boot_services.slots.free_pool(second);
                proof {
                    t = InfoTranscript { second_release, ..t };
                    lemma_info_result_sound(guess, t);
                    assert(info_transcript_admissible(
                        &self.slots,
                        &boot_services.slots,
                        information_type,
                        guess,
                        t,
                    ));
                }
                Err(e)
            },
            Ok(size) => {
                proof {
                    lemma_info_result_sound(guess, t);
                    assert(info_transcript_admissible(
                        &self.slots,
                        &boot_services.slots,
                        information_type,
                        guess,
                        t,
                    ));
                }
                Ok(InfoBuffer { buffer: second, size })
            },
        }
    }
}

/// Generic information about a file
#[derive(Debug)]
pub struct FileInfo {
    pub size: u64,
    pub file_size: u64,
    pub physical_size: u64,
    pub create_time: usize,
    pub last_access_time: usize,
    pub modification_time: usize,
    pub attribute: u64,
    /// The code units of the file's name, as they follow the fixed fields.
    pub file_name: Vec<u16>,
}

impl FileInformationType for FileInfo {
    open spec fn spec_guid() -> Guid {
        Guid {
            data_1: 0x09576e92,
            data_2: 0x6d3f,
            data_3: 0x11d2,
            data_4: [0x8e, 0x39, 0x00, 0xa0, 0xc9, 0x69, 0x72, 0x3b],
        }
    }

    open spec fn spec_size() -> usize {
        64
    }

    fn guid() -> (r: Guid) {
        Guid {
            data_1: 0x09576e92,
            data_2: 0x6d3f,
            data_3: 0x11d2,
            data_4: [0x8e, 0x39, 0x00, 0xa0, 0xc9, 0x69, 0x72, 0x3b],
        }
    }

    fn size() -> (r: usize) {
        64
    }
}

/// Information about the system volume
#[derive(Debug)]
pub struct FileSystemInfo {
    pub size: usize,
    pub read_only: Bool,
    pub volume_size: u64,
    pub free_space: u64,
    pub block_size: u32,
    /// The code units of the volume's label, as they follow the fixed fields.
    pub volume_label: Vec<u16>,
}

/// The offset of the label within the information about a volume, in bytes: the
/// fixed fields come before it.
pub const LABEL_OFFSET: usize = 36;

/// The code units of the label in information of `size` bytes: two bytes each,
/// from the offset of the label to the end. Information that ends before the
/// label has none.
pub open spec fn spec_label_unit_count(size: usize) -> Option<usize> {
    if size < LABEL_OFFSET {
        None
    } else {
        Some(((size - LABEL_OFFSET) / 2) as usize)
    }
}

/// Counts the code units of the label in information of `size` bytes.
pub fn label_unit_count(size: usize) -> (r: Option<usize>)
    ensures
        r == spec_label_unit_count(size),
        r matches Some(count) ==> LABEL_OFFSET + 2 * count <= size,
{
    if size < LABEL_OFFSET {
        None
    } else {
        Some((size - LABEL_OFFSET) / 2)
    }
}

impl FileSystemInfo {
    /// Gets the volume label
    ///
    /// The label ends before the first null among its code units. It is returned
    /// where it is well-formed UTF-16, and nothing where it is not.
    pub fn volume_label(&self) -> (r: Option<String>)
        ensures
            exists|n: int|
                #![trigger is_text_length(self.volume_label@, n)]
                is_text_length(self.volume_label@, n) && spec_characters(r) == spec_text(
                    self.volume_label@,
                    n,
                ),
    {
        utf16_to_str(self.volume_label.as_slice())
    }
}

impl FileInformationType for FileSystemInfo {
    open spec fn spec_guid() -> Guid {
        Guid {
            data_1: 0x09576e93,
            data_2: 0x6d3f,
            data_3: 0x11d2,
            data_4: [0x8e, 0x39, 0x00, 0xa0, 0xc9, 0x69, 0x72, 0x3b],
        }
    }

    open spec fn spec_size() -> usize {
        40
    }

    fn guid() -> (r: Guid) {
        Guid {
            data_1: 0x09576e93,
            data_2: 0x6d3f,
            data_3: 0x11d2,
            data_4: [0x8e, 0x39, 0x00, 0xa0, 0xc9, 0x69, 0x72, 0x3b],
        }
    }

    fn size() -> (r: usize) {
        40
    }
}

/// The slots of a simple file system interface, one operation per slot.
pub trait FileSystemSlots {
    /// Opens the root directory of the volume. The second component is the
    /// address of the root's file interface.
    fn open_volume(&self) -> (Status, usize);
}

/// Provides a minimal interface for file-type access to a device
pub struct SimpleFileSystem<S: FileSystemSlots> {
    pub revision: u64,
    pub slots: S,
}

impl<S: FileSystemSlots> SimpleFileSystem<S> {
    /// Opens the root directory on a volume
    ///
    /// On success the value is the address of the root's file interface.
    pub fn open_volume(&self) -> (r: Result<usize, Status>)
        ensures
            exists|reply: (Status, usize)|
                call_ensures(S::open_volume, (&self.slots,), reply) && r == spec_outcome(
                    reply.0,
                    reply.1,
                ),
    {
        let reply = self.slots.open_volume();
        outcome(reply.0, reply.1)
    }
}

impl<S: FileSystemSlots> Protocol for SimpleFileSystem<S> {
    open spec fn spec_guid() -> Guid {
        Guid {
            data_1: 0x964e5b22,
            data_2: 0x6459,
            data_3: 0x11d2,
            data_4: [0x8e, 0x39, 0x00, 0xa0, 0xc9, 0x69, 0x72, 0x3b],
        }
    }

    fn guid() -> (r: Guid) {
        Guid {
            data_1: 0x964e5b22,
            data_2: 0x6459,
            data_3: 0x11d2,
            data_4: [0x8e, 0x39, 0x00, 0xa0, 0xc9, 0x69, 0x72, 0x3b],
        }
    }
}

} // verus!
