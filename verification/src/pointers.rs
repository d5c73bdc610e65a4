//! Read-only pointers into firmware memory.
//!
//! A pointer here is a raw address together with the value it refers to. The null
//! address refers to nothing, and a pointer that refers to nothing cannot be
//! dereferenced: `deref` demands a non-null pointer of its caller.

use vstd::prelude::*;

verus! {

/// Pointer to an owned item
///
/// Allows only immutable dereferencing, and only when it is not null.
#[derive(Debug)]
pub struct OwnedPtr<T> {
    address: usize,
    referent: Option<T>,
}

impl<T> OwnedPtr<T> {
    #[verifier::type_invariant]
    spec fn inv(self) -> bool {
        self.address == 0 <==> self.referent is None
    }

    /// The pointer made from a raw address and the value found there. At the null
    /// address nothing is found, whatever value is offered.
    pub closed spec fn from_parts(address: usize, referent: T) -> OwnedPtr<T> {
        OwnedPtr {
            address,
            referent: if address == 0 {
                None
            } else {
                Some(referent)
            },
        }
    }

    /// The raw address this pointer wraps.
    pub closed spec fn spec_address(self) -> usize {
        self.address
    }

    /// What the pointer refers to, if anything.
    pub closed spec fn spec_referent(self) -> Option<T> {
        self.referent
    }

    /// Whether the pointer is null.
    pub open spec fn spec_is_null(self) -> bool {
        self.spec_address() == 0
    }

    /// The null pointer.
    pub fn null() -> (r: OwnedPtr<T>)
        ensures
            r.spec_is_null(),
            r.spec_referent() is None,
    {
        OwnedPtr { address: 0, referent: None }
    }

    /// Wraps a raw address received from the firmware.
    ///
    /// The caller vouches that `referent` is what the firmware keeps at `address`.
    pub fn new_unchecked(address: usize, referent: T) -> (r: OwnedPtr<T>)
        ensures
            r == Self::from_parts(address, referent),
    {
        if address == 0 {
            OwnedPtr { address, referent: None }
        } else {
            OwnedPtr { address, referent: Some(referent) }
        }
    }

    /// Determines whether this pointer is null
    pub fn is_null(&self) -> (r: bool)
        ensures
            r == self.spec_is_null(),
    {
        self.address == 0
    }

    /// The raw address this pointer wraps.
    pub fn address(&self) -> (r: usize)
        ensures
            r == self.spec_address(),
    {
        self.address
    }

    /// Borrows the item the pointer refers to.
    pub fn deref(&self) -> (r: &T)
        requires
            !self.spec_is_null(),
        ensures
            self.spec_referent() == Some(*r),
    {
        proof {
            use_type_invariant(self);
        }
        match &self.referent {
            Some(item) => item,
            None => {
                proof {
                    assert(false);
                }
                vstd::pervasive::unreached()
            },
        }
    }

    /// What `from_parts` builds: the address is kept, and a referent exists exactly
    /// at a non-null address.
    pub proof fn lemma_from_parts(address: usize, referent: T)
        ensures
            Self::from_parts(address, referent).spec_address() == address,
            address != 0 ==> Self::from_parts(address, referent).spec_referent() == Some(
                referent,
            ),
            address == 0 ==> Self::from_parts(address, referent).spec_referent() is None,
    {
    }

    /// A pointer made from the null address is null whatever referent was offered,
    /// so it never meets what `deref` demands.
    pub proof fn lemma_null_address_is_null(referent: T)
        ensures
            Self::from_parts(0, referent).spec_is_null(),
            Self::from_parts(0, referent).spec_referent() is None,
    {
    }
}

/// Pointer to EFI boot services memory
///
/// This memory is owned by boot-time drivers and services, and may be overwritten
/// once boot services have been exited: the pointer may be dereferenced before
/// that and not after.
#[derive(Debug)]
pub struct EfiBs<T> {
    inner: OwnedPtr<T>,
}

impl<T> EfiBs<T> {
    /// The underlying pointer.
    pub closed spec fn spec_ptr(self) -> OwnedPtr<T> {
        self.inner
    }

    /// Whether the pointer is null.
    pub open spec fn spec_is_null(self) -> bool {
        self.spec_ptr().spec_is_null()
    }

    /// Creates a null EfiBs pointer
    ///
    /// Useful where a firmware call returns a pointer through an out parameter and
    /// overwrites whatever was there.
    pub fn new() -> (r: EfiBs<T>)
        ensures
            r.spec_is_null(),
    {
        EfiBs { inner: OwnedPtr::null() }
    }

    /// Wraps a raw address in boot services memory.
    pub fn new_unchecked(address: usize, referent: T) -> (r: EfiBs<T>)
        ensures
            r.spec_ptr() == OwnedPtr::from_parts(address, referent),
    {
        EfiBs { inner: OwnedPtr::new_unchecked(address, referent) }
    }

    /// Determines whether this EfiBs is null
    pub fn is_null(&self) -> (r: bool)
        ensures
            r == self.spec_is_null(),
    {
        self.inner.is_null()
    }

    /// The raw address this pointer wraps.
    pub fn address(&self) -> (r: usize)
        ensures
            r == self.spec_ptr().spec_address(),
    {
        self.inner.address()
    }

    /// Borrows the item the pointer refers to.
    pub fn deref(&self) -> (r: &T)
        requires
            !self.spec_is_null(),
        ensures
            self.spec_ptr().spec_referent() == Some(*r),
    {
        self.inner.deref()
    }
}

/// Pointer to EFI runtime memory
///
/// Runtime memory is never overwritten or released by the operating system, so
/// the pointer stays valid for the life of the image.
#[derive(Debug)]
pub struct EfiRt<T> {
    inner: OwnedPtr<T>,
}

impl<T> EfiRt<T> {
    /// The underlying pointer.
    pub closed spec fn spec_ptr(self) -> OwnedPtr<T> {
        self.inner
    }

    /// Whether the pointer is null.
    pub open spec fn spec_is_null(self) -> bool {
        self.spec_ptr().spec_is_null()
    }

    /// Wraps a raw address in runtime memory.
    pub fn new_unchecked(address: usize, referent: T) -> (r: EfiRt<T>)
        ensures
            r.spec_ptr() == OwnedPtr::from_parts(address, referent),
    {
        EfiRt { inner: OwnedPtr::new_unchecked(address, referent) }
    }

    /// Determines whether this EfiRt is null
    pub fn is_null(&self) -> (r: bool)
        ensures
            r == self.spec_is_null(),
    {
        self.inner.is_null()
    }

    /// The raw address this pointer wraps.
    pub fn address(&self) -> (r: usize)
        ensures
            r == self.spec_ptr().spec_address(),
    {
        self.inner.address()
    }

    /// Borrows the item the pointer refers to.
    pub fn deref(&self) -> (r: &T)
        requires
            !self.spec_is_null(),
        ensures
            self.spec_ptr().spec_referent() == Some(*r),
    {
        self.inner.deref()
    }
}

} // verus!
